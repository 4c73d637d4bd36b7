//! The job registry: every record that the service knows, found by its
//! identifier. No identifier occurs twice.

use vstd::prelude::*;
use crate::task::{Task, TaskChange, TaskView};
use crate::text::same_text;

verus! {

/// Whether some record of `s` carries `id`.
pub open spec fn holds(s: Seq<TaskView>, id: Seq<char>) -> bool {
    exists|i: int| 0 <= i < s.len() && (#[trigger] s[i]).task_id == id
}

/// The place of a record that carries `id`, where there is one.
pub open spec fn slot(s: Seq<TaskView>, id: Seq<char>) -> int {
    choose|i: int| 0 <= i < s.len() && (#[trigger] s[i]).task_id == id
}

/// No two records share an identifier.
pub open spec fn distinct_ids(s: Seq<TaskView>) -> bool {
    forall|i: int, j: int|
        0 <= i < j < s.len() ==> (#[trigger] s[i]).task_id != (#[trigger] s[j]).task_id
}

/// Every record is valid.
pub open spec fn all_wf(s: Seq<TaskView>) -> bool {
    forall|i: int| 0 <= i < s.len() ==> (#[trigger] s[i]).wf()
}

/// The records as a map from identifier to record.
pub open spec fn as_map(s: Seq<TaskView>) -> Map<Seq<char>, TaskView> {
    Map::new(|id: Seq<char>| holds(s, id), |id: Seq<char>| s[slot(s, id)])
}

/// With distinct identifiers, a record is found at its own place.
pub proof fn lemma_slot(s: Seq<TaskView>, i: int)
    requires
        distinct_ids(s),
        0 <= i < s.len(),
    ensures
        holds(s, s[i].task_id),
        slot(s, s[i].task_id) == i,
        as_map(s).contains_key(s[i].task_id),
        as_map(s)[s[i].task_id] == s[i],
{
    let id = s[i].task_id;
    let j = slot(s, id);
    assert(0 <= j < s.len() && s[j].task_id == id);
    if j != i {
        if j < i {
            assert(s[j].task_id != s[i].task_id);
        } else {
            assert(s[i].task_id != s[j].task_id);
        }
    }
}

/// Adding a record under a new identifier adds one entry to the map.
pub proof fn lemma_push(s: Seq<TaskView>, t: TaskView)
    requires
        distinct_ids(s),
        !holds(s, t.task_id),
    ensures
        distinct_ids(s.push(t)),
        as_map(s.push(t)) == as_map(s).insert(t.task_id, t),
{
    let n = s.push(t);
    assert(distinct_ids(n)) by {
        assert forall|i: int, j: int| 0 <= i < j < n.len() implies (#[trigger] n[i]).task_id != (
        #[trigger] n[j]).task_id by {
            if j < s.len() {
                assert(s[i].task_id != s[j].task_id);
            } else {
                assert(s[i].task_id != t.task_id);
            }
        }
    }
    assert forall|id: Seq<char>| holds(n, id) <==> (id == t.task_id || holds(s, id)) by {
        if holds(n, id) {
            let i = slot(n, id);
            if i < s.len() {
                assert(s[i].task_id == id);
            }
        }
        if holds(s, id) {
            let i = slot(s, id);
            assert(n[i].task_id == id);
        }
        if id == t.task_id {
            assert(n[s.len() as int].task_id == id);
        }
    }
    assert forall|id: Seq<char>| holds(n, id) implies #[trigger] as_map(n)[id] == as_map(s).insert(
        t.task_id,
        t,
    )[id] by {
        if id == t.task_id {
            lemma_slot(n, s.len() as int);
        } else {
            let i = slot(s, id);
            assert(n[i] == s[i]);
            lemma_slot(n, i);
        }
    }
    assert(as_map(n) =~= as_map(s).insert(t.task_id, t));
}

/// Replacing a record by one of the same identifier replaces its entry.
pub proof fn lemma_update(s: Seq<TaskView>, i: int, t: TaskView)
    requires
        distinct_ids(s),
        0 <= i < s.len(),
        s[i].task_id == t.task_id,
    ensures
        distinct_ids(s.update(i, t)),
        as_map(s.update(i, t)) == as_map(s).insert(t.task_id, t),
{
    let n = s.update(i, t);
    assert(distinct_ids(n)) by {
        assert forall|a: int, b: int| 0 <= a < b < n.len() implies (#[trigger] n[a]).task_id != (
        #[trigger] n[b]).task_id by {
            assert(s[a].task_id != s[b].task_id);
        }
    }
    assert forall|id: Seq<char>| holds(n, id) <==> (id == t.task_id || holds(s, id)) by {
        if holds(n, id) {
            let k = slot(n, id);
            assert(s[k].task_id == id);
        }
        if holds(s, id) {
            let k = slot(s, id);
            assert(n[k].task_id == id);
        }
        if id == t.task_id {
            assert(n[i].task_id == id);
            assert(s[i].task_id == id);
        }
    }
    assert forall|id: Seq<char>| holds(n, id) implies #[trigger] as_map(n)[id] == as_map(s).insert(
        t.task_id,
        t,
    )[id] by {
        if id == t.task_id {
            lemma_slot(n, i);
        } else {
            let k = slot(s, id);
            assert(k != i);
            assert(n[k] == s[k]);
            lemma_slot(n, k);
        }
    }
    assert(as_map(n) =~= as_map(s).insert(t.task_id, t));
}

/// Taking a record out takes its entry out of the map.
pub proof fn lemma_remove(s: Seq<TaskView>, i: int)
    requires
        distinct_ids(s),
        0 <= i < s.len(),
    ensures
        distinct_ids(s.remove(i)),
        !holds(s.remove(i), s[i].task_id),
        as_map(s.remove(i)) == as_map(s).remove(s[i].task_id),
{
    let n = s.remove(i);
    let gone = s[i].task_id;
    assert forall|a: int| 0 <= a < n.len() implies #[trigger] n[a] == s[if a < i {
        a
    } else {
        a + 1
    }] by {}
    assert(distinct_ids(n)) by {
        assert forall|a: int, b: int| 0 <= a < b < n.len() implies (#[trigger] n[a]).task_id != (
        #[trigger] n[b]).task_id by {
            let a2 = if a < i { a } else { a + 1 };
            let b2 = if b < i { b } else { b + 1 };
            assert(n[a] == s[a2] && n[b] == s[b2]);
            assert(s[a2].task_id != s[b2].task_id);
        }
    }
    assert(!holds(n, gone)) by {
        if holds(n, gone) {
            let a = slot(n, gone);
            let a2 = if a < i { a } else { a + 1 };
            assert(n[a] == s[a2]);
            if a2 < i {
                assert(s[a2].task_id != s[i].task_id);
            } else {
                assert(s[i].task_id != s[a2].task_id);
            }
        }
    }
    assert forall|id: Seq<char>| holds(n, id) <==> (id != gone && holds(s, id)) by {
        if holds(n, id) {
            let a = slot(n, id);
            let a2 = if a < i { a } else { a + 1 };
            assert(n[a] == s[a2]);
            assert(s[a2].task_id == id);
        }
        if id != gone && holds(s, id) {
            let k = slot(s, id);
            let k2 = if k < i { k } else { k - 1 };
            assert(n[k2] == s[k]);
            assert(n[k2].task_id == id);
        }
    }
    assert forall|id: Seq<char>| holds(n, id) implies #[trigger] as_map(n)[id] == as_map(s).remove(
        gone,
    )[id] by {
        let k = slot(s, id);
        let k2 = if k < i { k } else { k - 1 };
        assert(n[k2] == s[k]);
        lemma_slot(n, k2);
    }
    assert(as_map(n) =~= as_map(s).remove(gone));
}

/// The registry of job records.
pub struct TaskRegistry {
    tasks: Vec<Task>,
}

impl View for TaskRegistry {
    type V = Map<Seq<char>, TaskView>;

    open spec fn view(&self) -> Map<Seq<char>, TaskView> {
        as_map(self.records())
    }
}

impl TaskRegistry {
    /// The records in the order in which their identifiers were first
    /// inserted.
    pub closed spec fn records(&self) -> Seq<TaskView> {
        self.tasks@.map_values(|t: Task| t@)
    }

    /// Validity: no identifier twice, every record valid.
    pub open spec fn wf(&self) -> bool {
        &&& distinct_ids(self.records())
        &&& all_wf(self.records())
    }

    /// An empty registry.
    pub fn new() -> (reg: TaskRegistry)
        ensures
            reg.wf(),
            reg.records() == Seq::<TaskView>::empty(),
            reg@ == Map::<Seq<char>, TaskView>::empty(),
    {
        let reg = TaskRegistry { tasks: Vec::new() };
        proof {
            assert(reg.records() =~= Seq::<TaskView>::empty());
            assert(reg@ =~= Map::<Seq<char>, TaskView>::empty());
        }
        reg
    }

    /// The number of records.
    pub fn len(&self) -> (n: usize)
        ensures
            n == self.records().len(),
    {
        self.tasks.len()
    }

    /// The place of the record that carries `id`.
    fn find(&self, id: &str) -> (r: Option<usize>)
        ensures
            match r {
                Some(i) => i < self.records().len() && self.records()[i as int].task_id == id@,
                None => !holds(self.records(), id@),
            },
    {
        let mut i: usize = 0;
        while i < self.tasks.len()
            invariant
                i <= self.tasks.len(),
                forall|k: int| 0 <= k < i ==> (#[trigger] self.records()[k]).task_id != id@,
            decreases self.tasks.len() - i,
        {
            if same_text(self.tasks[i].task_id(), id) {
                return Some(i);
            }
            i += 1;
        }
        None
    }

    /// Whether a record carries `id`.
    pub fn contains(&self, id: &str) -> (found: bool)
        ensures
            found == self@.contains_key(id@),
    {
        self.find(id).is_some()
    }

    /// The record that carries `id`, if there is one.
    pub fn get(&self, id: &str) -> (found: Option<&Task>)
        requires
            self.wf(),
        ensures
            match found {
                Some(t) => self@.contains_key(id@) && t@ == self@[id@] && t.wf(),
                None => !self@.contains_key(id@),
            },
    {
        match self.find(id) {
            Some(i) => {
                proof {
                    lemma_slot(self.records(), i as int);
                }
                Some(&self.tasks[i])
            },
            None => None,
        }
    }

    /// Copies of all records, in the order of [`Self::records`].
    pub fn get_all(&self) -> (all: Vec<Task>)
        ensures
            all@.map_values(|t: Task| t@) == self.records(),
    {
        let mut all: Vec<Task> = Vec::new();
        let mut i: usize = 0;
        while i < self.tasks.len()
            invariant
                i <= self.tasks.len(),
                all@.len() == i,
                forall|k: int| 0 <= k < i ==> (#[trigger] all@[k])@ == self.tasks@[k]@,
            decreases self.tasks.len() - i,
        {
            all.push(self.tasks[i].duplicate());
            i += 1;
        }
        proof {
            assert(all@.map_values(|t: Task| t@) =~= self.records());
        }
        all
    }

    /// Puts `task` under its identifier: a new record goes to the end, and
    /// a record that already carries the identifier is replaced in place.
    pub fn insert(&mut self, task: Task)
        requires
            old(self).wf(),
            task.wf(),
        ensures
            final(self).wf(),
            final(self)@ == old(self)@.insert(task@.task_id, task@),
            final(self).records() == (if holds(old(self).records(), task@.task_id) {
                old(self).records().update(slot(old(self).records(), task@.task_id), task@)
            } else {
                old(self).records().push(task@)
            }),
    {
        let ghost before = self.records();
        let ghost t = task@;
        match self.find(task.task_id()) {
            Some(i) => {
                proof {
                    lemma_slot(before, i as int);
                    lemma_update(before, i as int, t);
                }
                self.tasks[i] = task;
                proof {
                    assert(self.records() =~= before.update(i as int, t));
                }
            },
            None => {
                proof {
                    lemma_push(before, t);
                }
                self.tasks.push(task);
                proof {
                    assert(self.records() =~= before.push(t));
                }
            },
        }
    }

    /// Applies a worker's change to the record that carries `id`, as
    /// [`TaskView::apply`] says. Reports whether the record took the change;
    /// without such a record nothing changes.
    pub fn change(&mut self, id: &str, change: TaskChange) -> (applied: bool)
        requires
            old(self).wf(),
        ensures
            final(self).wf(),
            applied == (old(self)@.contains_key(id@) && old(self)@[id@].accepts(change@)),
            final(self)@ == (if old(self)@.contains_key(id@) {
                old(self)@.insert(id@, old(self)@[id@].apply(change@))
            } else {
                old(self)@
            }),
            final(self).records().len() == old(self).records().len(),
    {
        let ghost before = self.records();
        match self.find(id) {
            Some(i) => {
                proof {
                    lemma_slot(before, i as int);
                }
                let applied = self.tasks[i].apply(change);
                proof {
                    let t = before[i as int].apply(change@);
                    lemma_update(before, i as int, t);
                    assert(self.records() =~= before.update(i as int, t));
                }
                applied
            },
            None => false,
        }
    }

    /// Raises the cancel flag of the record that carries `id`, and says
    /// whether there is such a record.
    pub fn request_stop(&mut self, id: &str) -> (found: bool)
        requires
            old(self).wf(),
        ensures
            final(self).wf(),
            found == old(self)@.contains_key(id@),
            final(self)@ == (if found {
                old(self)@.insert(id@, old(self)@[id@].with_stop())
            } else {
                old(self)@
            }),
            final(self).records().len() == old(self).records().len(),
    {
        let ghost before = self.records();
        match self.find(id) {
            Some(i) => {
                proof {
                    lemma_slot(before, i as int);
                }
                self.tasks[i].request_stop();
                proof {
                    let t = before[i as int].with_stop();
                    lemma_update(before, i as int, t);
                    assert(self.records() =~= before.update(i as int, t));
                }
                true
            },
            None => false,
        }
    }

    /// Takes out the record that carries `id` and hands it back; without
    /// such a record nothing changes.
    pub fn remove(&mut self, id: &str) -> (gone: Option<Task>)
        requires
            old(self).wf(),
        ensures
            final(self).wf(),
            final(self)@ == old(self)@.remove(id@),
            match gone {
                Some(t) => {
                    &&& old(self)@.contains_key(id@)
                    &&& t@ == old(self)@[id@]
                    &&& final(self).records() == old(self).records().remove(
                        slot(old(self).records(), id@),
                    )
                },
                None => {
                    &&& !old(self)@.contains_key(id@)
                    &&& final(self).records() == old(self).records()
                },
            },
    {
        let ghost before = self.records();
        match self.find(id) {
            Some(i) => {
                proof {
                    lemma_slot(before, i as int);
                    lemma_remove(before, i as int);
                }
                let t = self.tasks.remove(i);
                proof {
                    assert(self.records() =~= before.remove(i as int));
                }
                Some(t)
            },
            None => {
                proof {
                    assert(self@ =~= self@.remove(id@));
                }
                None
            },
        }
    }
}

} // verus!
