//! The archive builder: from named byte contents and a password to one
//! encrypted, compressed archive.

use vstd::prelude::*;
use vstd::string::*;

verus! {

/// One file of a submission: its name in the archive and its bytes.
#[derive(Debug)]
pub struct FileInfo {
    pub filename: String,
    pub content: Vec<u8>,
}

/// What an archive holds, in the order of writing: each entry is a name and
/// the bytes under it.
pub type Entries = Seq<(Seq<char>, Seq<u8>)>;

/// The entries that a submission asks for, in input order.
pub open spec fn entries_of(files: Seq<FileInfo>) -> Entries {
    files.map_values(|f: FileInfo| (f.filename@, f.content@))
}

/// Whether some entry of `e` is named `name`.
pub open spec fn has_name(e: Entries, name: Seq<char>) -> bool {
    exists|i: int| 0 <= i < e.len() && (#[trigger] e[i]).0 == name
}

/// Whether two entries of `e` share a name.
pub open spec fn has_duplicate(e: Entries) -> bool {
    exists|i: int, j: int| 0 <= i < j < e.len() && (#[trigger] e[i]).0 == (#[trigger] e[j]).0
}

/// `e` with `bytes` added to the content of its last entry; an empty `e`
/// stays as it is.
pub open spec fn append_to_last(e: Entries, bytes: Seq<u8>) -> Entries {
    if e.len() == 0 {
        e
    } else {
        e.update(e.len() - 1, (e.last().0, e.last().1 + bytes))
    }
}

/// How the content of an entry is packed.
#[derive(Clone, Copy, Debug, PartialEq, Eq, Structural)]
pub enum Compression {
    Stored,
    Deflated,
}

/// The cipher under which an entry is encrypted.
#[derive(Clone, Copy, Debug, PartialEq, Eq, Structural)]
pub enum Cipher {
    Aes128,
    Aes192,
    Aes256,
}

/// How one entry was opened: the password it is encrypted under, its
/// permission bits, and how it is packed and encrypted.
pub struct Seal {
    pub password: Seq<char>,
    pub permissions: u32,
    pub compression: Compression,
    pub cipher: Cipher,
}

/// The greatest number of bytes that the name of an entry may have.
pub const MAX_NAME_BYTES: usize = 65535;

/// Whether a name has more bytes, in UTF-8, than an archive can record.
pub open spec fn name_too_long(name: Seq<char>) -> bool {
    vstd::utf8::encode_utf8(name).len() as usize > MAX_NAME_BYTES
}

/// Whether some entry of `e` has a name that is too long.
pub open spec fn has_long_name(e: Entries) -> bool {
    exists|i: int| 0 <= i < e.len() && name_too_long((#[trigger] e[i]).0)
}

/// The kinds of failure of a build. All but `NameTooLong` are reported by
/// the archive writer.
#[derive(Clone, Copy, Debug, PartialEq, Eq, Structural)]
pub enum BuildErrorKind {
    /// The name of an entry has more than [`MAX_NAME_BYTES`] bytes. The
    /// builder finds this itself, before anything is written.
    NameTooLong,
    /// Writing the output failed.
    Io,
    /// The entries do not make a valid archive, as with a repeated name.
    InvalidArchive,
    /// The archive would need something the writer does not support.
    UnsupportedArchive,
    FileNotFound,
    InvalidPassword,
    /// A failure of a kind not listed here.
    Other,
}

/// Why an archive could not be built.
#[derive(Debug)]
pub struct BuildError {
    pub kind: BuildErrorKind,
    /// A description of the failure: the writer's own, or
    /// [`long_name_text`].
    pub detail: String,
}

/// The description of a build refused for a name that is too long.
pub open spec fn long_name_text() -> Seq<char> {
    "File name exceeds 65535 bytes"@
}

/// Whether `r` is the builder's own refusal of a name that is too long.
pub open spec fn is_long_name_refusal<T>(r: Result<T, BuildError>) -> bool {
    r matches Err(e) && e.kind == BuildErrorKind::NameTooLong
}

/// An archive under construction in memory. It wraps `zip::ZipWriter` over
/// a `std::io::Cursor<Vec<u8>>`; what it holds is told by [`written`].
#[verifier::external_body]
pub struct ArchiveWriter {
    inner: zip::ZipWriter<std::io::Cursor<Vec<u8>>>,
}

/// The error type of the `zip` crate.
#[verifier::external_type_specification]
#[verifier::external_body]
pub struct ExZipError(zip::result::ZipError);

/// The entries that a writer has taken so far.
pub uninterp spec fn written(w: ArchiveWriter) -> Entries;

/// How each entry that a writer has taken was opened, in the same order as
/// [`written`].
pub uninterp spec fn sealed(w: ArchiveWriter) -> Seq<Seal>;

/// A writer over an empty buffer, from `zip::ZipWriter::new`: it holds no
/// entry.
#[verifier::external_body]
fn new_writer() -> (w: ArchiveWriter)
    ensures
        written(w) == Seq::<(Seq<char>, Seq<u8>)>::empty(),
        sealed(w) == Seq::<Seal>::empty(),
{
    ArchiveWriter { inner: zip::ZipWriter::new(std::io::Cursor::new(Vec::new())) }
}

/// Opens a new entry with `zip::ZipWriter::start_file`, under options made
/// of exactly what is handed in: the compression method, the AES mode with
/// `password`, and the permission bits. The writer refuses a name that it
/// already holds; where it accepts, the entry is added at the end with no
/// content yet, opened as asked. A writer that failed is not handed back.
/// The writer cannot record a name of more than 65535 bytes and does not
/// test for it, so such a name is kept out.
#[verifier::external_body]
fn start_entry(
    w: ArchiveWriter,
    name: &str,
    password: &str,
    permissions: u32,
    compression: Compression,
    cipher: Cipher,
) -> (r: Result<ArchiveWriter, zip::result::ZipError>)
    requires
        !name_too_long(name@),
    ensures
        has_name(written(w), name@) ==> r is Err,
        r matches Ok(w2) ==> written(w2) == written(w).push((name@, Seq::<u8>::empty())),
        r matches Ok(w2) ==> sealed(w2) == sealed(w).push(
            Seal { password: password@, permissions, compression, cipher },
        ),
{
    let mut w = w;
    let method = match compression {
        Compression::Stored => zip::CompressionMethod::Stored,
        Compression::Deflated => zip::CompressionMethod::Deflated,
    };
    let mode = match cipher {
        Cipher::Aes128 => zip::AesMode::Aes128,
        Cipher::Aes192 => zip::AesMode::Aes192,
        Cipher::Aes256 => zip::AesMode::Aes256,
    };
    let options = zip::write::SimpleFileOptions::default().compression_method(method).with_aes_encryption(mode, password).unix_permissions(permissions);
    match w.inner.start_file(name, options) {
        Ok(()) => Ok(w),
        Err(e) => Err(e),
    }
}

/// Writes `bytes` into the entry that is open, with `write_all` of
/// `std::io::Write` as `zip::ZipWriter` implements it: where it succeeds,
/// the bytes follow what the last entry held, and nothing changes in how
/// the entries were opened. A writer that failed is not handed back.
#[verifier::external_body]
fn write_bytes(w: ArchiveWriter, bytes: &Vec<u8>) -> (r: Result<ArchiveWriter, zip::result::ZipError>)
    ensures
        r matches Ok(w2) ==> written(w2) == append_to_last(written(w), bytes@),
        r matches Ok(w2) ==> sealed(w2) == sealed(w),
{
    let mut w = w;
    match std::io::Write::write_all(&mut w.inner, bytes.as_slice()) {
        Ok(()) => Ok(w),
        Err(e) => Err(zip::result::ZipError::Io(e)),
    }
}

/// What closing a writer gives: the bytes of the finished archive, or
/// `None` where closing fails. Closing draws nothing from chance or from
/// the clock; it is settled by the writer, salts included, so two writers
/// that hold the same entries may well close to different bytes.
pub uninterp spec fn finished(w: ArchiveWriter) -> Option<Seq<u8>>;

/// Closes the archive with `zip::ZipWriter::finish` and hands out the
/// buffer of the cursor: the bytes are those named by [`finished`], and
/// the call fails exactly where that is `None`.
#[verifier::external_body]
fn finish_writer(w: ArchiveWriter) -> (r: Result<Vec<u8>, zip::result::ZipError>)
    ensures
        match r {
            Ok(bytes) => finished(w) == Some(bytes@),
            Err(_) => finished(w) is None,
        },
{
    match w.inner.finish() {
        Ok(cursor) => Ok(cursor.into_inner()),
        Err(e) => Err(e),
    }
}

/// Turns the writer's error into the library's: the kind by the variant of
/// `zip::result::ZipError`, the detail as its `Debug` text. No variant
/// gives `NameTooLong`, which is the builder's own.
#[verifier::external_body]
fn build_error_of(e: zip::result::ZipError) -> (err: BuildError)
    ensures
        err.kind != BuildErrorKind::NameTooLong,
{
    let detail = format!("{:?}", e);
    let kind = match e {
        zip::result::ZipError::Io(_) => BuildErrorKind::Io,
        zip::result::ZipError::InvalidArchive(_) => BuildErrorKind::InvalidArchive,
        zip::result::ZipError::UnsupportedArchive(_) => BuildErrorKind::UnsupportedArchive,
        zip::result::ZipError::FileNotFound => BuildErrorKind::FileNotFound,
        zip::result::ZipError::InvalidPassword => BuildErrorKind::InvalidPassword,
        _ => BuildErrorKind::Other,
    };
    BuildError { kind, detail }
}

/// The permission bits that every entry gets.
pub const ENTRY_PERMISSIONS: u32 = 0o755;

/// How the builder opens every entry: deflated, under AES-256 with the
/// given password, with [`ENTRY_PERMISSIONS`].
pub open spec fn entry_seal(password: Seq<char>) -> Seal {
    Seal {
        password,
        permissions: ENTRY_PERMISSIONS,
        compression: Compression::Deflated,
        cipher: Cipher::Aes256,
    }
}

/// `n` entries, each opened as the builder opens them under `password`.
pub open spec fn seals_of(n: nat, password: Seq<char>) -> Seq<Seal> {
    Seq::new(n, |i: int| entry_seal(password))
}

/// Whether `bytes` are an archive of `entries` opened as `seals` say: what
/// closing gave of a writer that held exactly these entries, in this
/// order, each opened under its seal.
pub open spec fn is_archive_of(bytes: Seq<u8>, entries: Entries, seals: Seq<Seal>) -> bool {
    exists|w: ArchiveWriter|
        written(w) == entries && sealed(w) == seals && #[trigger] finished(w) == Some(bytes)
}

/// A repeated name within `a + b` whose second occurrence lies in `b`
/// shows at some place of `b`: the name there occurs earlier.
pub open spec fn clashes_at(a: Entries, b: Entries, k: int) -> bool {
    has_name(a + b.take(k), b[k].0)
}

/// A writer that held `start` and the first `i` of `asked`, and then took
/// entry `i` with its content, holds `start` and the first `i + 1`.
proof fn lemma_entry_added(start: Entries, asked: Entries, i: int, held: Entries, now: Entries)
    requires
        0 <= i < asked.len(),
        held == start + asked.take(i),
        now == append_to_last(held.push((asked[i].0, Seq::<u8>::empty())), asked[i].1),
    ensures
        now == start + asked.take(i + 1),
        has_name(held, asked[i].0) == clashes_at(start, asked, i),
{
    assert(Seq::<u8>::empty() + asked[i].1 =~= asked[i].1);
    assert(asked.take(i + 1) =~= asked.take(i).push(asked[i]));
    assert(now =~= start + asked.take(i + 1));
}

/// One more entry opened by the builder adds one seal of the builder's.
proof fn lemma_seal_added(before: Seq<Seal>, i: nat, password: Seq<char>, now: Seq<Seal>)
    requires
        now == (before + seals_of(i, password)).push(entry_seal(password)),
    ensures
        now == before + seals_of(i + 1, password),
{
    assert(now =~= before + seals_of(i + 1, password));
}

/// Whether every name of `files` is short enough for an archive.
pub fn names_fit(files: &Vec<FileInfo>) -> (fit: bool)
    ensures
        fit == !has_long_name(entries_of(files@)),
{
    let mut i: usize = 0;
    while i < files.len()
        invariant
            i <= files.len(),
            forall|k: int| 0 <= k < i ==> !name_too_long(#[trigger] entries_of(files@)[k].0),
        decreases files.len() - i,
    {
        if files[i].filename.as_str().len() > MAX_NAME_BYTES {
            assert(name_too_long(entries_of(files@)[i as int].0));
            return false;
        }
        i += 1;
    }
    true
}

/// The builder's refusal of a name that is too long.
fn long_name_refusal() -> (e: BuildError)
    ensures
        e.kind == BuildErrorKind::NameTooLong,
        e.detail@ == long_name_text(),
{
    BuildError {
        kind: BuildErrorKind::NameTooLong,
        detail: "File name exceeds 65535 bytes".to_owned(),
    }
}

/// Writes `files` into `w`, one entry each, in input order, every entry
/// deflated and encrypted with AES-256 under `password`.
///
/// A name of more than [`MAX_NAME_BYTES`] bytes is refused before anything
/// is written, with an error of kind `NameTooLong`, and that kind comes of
/// nothing else. On success the writer holds what it held before, followed
/// by exactly the entries asked for, each opened under `password`. A name
/// that repeats an earlier one makes the call fail. With no files there is
/// nothing for the writer to refuse: it comes back as it was.
#[verifier::spinoff_prover]
pub fn write_entries(w: ArchiveWriter, files: &Vec<FileInfo>, password: &str) -> (r: Result<
    ArchiveWriter,
    BuildError,
>)
    ensures
        has_long_name(entries_of(files@)) <==> is_long_name_refusal(r),
        r matches Err(e) ==> (e.kind == BuildErrorKind::NameTooLong ==> e.detail@
            == long_name_text()),
        files@.len() == 0 ==> r == Ok::<ArchiveWriter, BuildError>(w),
        r matches Ok(w2) ==> written(w2) == written(w) + entries_of(files@),
        r matches Ok(w2) ==> sealed(w2) == sealed(w) + seals_of(files@.len(), password@),
        (exists|k: int| 0 <= k < files@.len() && clashes_at(written(w), entries_of(files@), k))
            ==> r is Err,
{
    if !names_fit(files) {
        return Err(long_name_refusal());
    }
    let ghost given = w;
    let ghost start = written(w);
    let ghost seals = sealed(w);
    let ghost asked = entries_of(files@);
    let mut w = w;
    let mut i: usize = 0;
    while i < files.len()
        invariant
            i <= files.len(),
            asked == entries_of(files@),
            !has_long_name(asked),
            i == 0 ==> w == given,
            written(w) == start + asked.take(i as int),
            sealed(w) == seals + seals_of(i as nat, password@),
            forall|k: int| 0 <= k < i ==> !clashes_at(start, asked, k),
        decreases files.len() - i,
    {
        let f = &files[i];
        let ghost held = written(w);
        assert(asked[i as int] == (f.filename@, f.content@));
        assert(!name_too_long(asked[i as int].0));
        let opened = match start_entry(
            w,
            f.filename.as_str(),
            password,
            ENTRY_PERMISSIONS,
            Compression::Deflated,
            Cipher::Aes256,
        ) {
            Ok(o) => o,
            Err(e) => {
                return Err(build_error_of(e));
            },
        };
        w = match write_bytes(opened, &f.content) {
            Ok(o) => o,
            Err(e) => {
                return Err(build_error_of(e));
            },
        };
        proof {
            lemma_entry_added(start, asked, i as int, held, written(w));
            lemma_seal_added(seals, i as nat, password@, sealed(w));
        }
        i += 1;
    }
    proof {
        assert(asked.take(i as int) =~= asked);
    }
    Ok(w)
}

/// An archive writer that holds nothing yet.
pub fn begin_archive() -> (w: ArchiveWriter)
    ensures
        written(w) == Seq::<(Seq<char>, Seq<u8>)>::empty(),
        sealed(w) == Seq::<Seal>::empty(),
{
    new_writer()
}

/// Closes the archive and hands out its bytes, or the writer's failure:
/// it succeeds exactly where closing the writer does, with the bytes that
/// closing gives, which are an archive of what the writer held. A failure
/// here is never of kind `NameTooLong`.
pub fn finish_archive(w: ArchiveWriter) -> (r: Result<Vec<u8>, BuildError>)
    ensures
        match r {
            Ok(bytes) => finished(w) == Some(bytes@) && is_archive_of(
                bytes@,
                written(w),
                sealed(w),
            ),
            Err(e) => finished(w) is None && e.kind != BuildErrorKind::NameTooLong,
        },
{
    match finish_writer(w) {
        Ok(bytes) => Ok(bytes),
        Err(e) => Err(build_error_of(e)),
    }
}

/// Two entries of `e` that share a name show as a clash at the place of
/// the later one.
pub proof fn lemma_duplicate_clashes(e: Entries)
    requires
        has_duplicate(e),
    ensures
        exists|k: int| 0 <= k < e.len() && clashes_at(Seq::<(Seq<char>, Seq<u8>)>::empty(), e, k),
{
    let (i, j) = choose|i: int, j: int|
        0 <= i < j < e.len() && (#[trigger] e[i]).0 == (#[trigger] e[j]).0;
    let pre = Seq::<(Seq<char>, Seq<u8>)>::empty() + e.take(j);
    assert(pre[i] == e[i]);
    assert(has_name(pre, e[j].0));
    assert(clashes_at(Seq::<(Seq<char>, Seq<u8>)>::empty(), e, j));
}

/// Builds the archive of `files` and returns its bytes. Every entry is
/// deflated and encrypted with AES-256 under `password`: the bytes are
/// what closing gave of a writer that was handed exactly the submitted
/// entries, in input order, each opened under `password`.
///
/// A name of more than [`MAX_NAME_BYTES`] bytes is refused before anything
/// is written, with an error of kind `NameTooLong`, and that kind comes of
/// nothing else. Names are otherwise passed on as they are: a submission
/// with a repeated name is refused by the writer and fails. Whether any
/// other build succeeds is the writer's to decide.
pub fn create_zip_with_password(files: Vec<FileInfo>, password: &str) -> (r: Result<
    Vec<u8>,
    BuildError,
>)
    ensures
        has_long_name(entries_of(files@)) <==> is_long_name_refusal(r),
        r matches Err(e) ==> (e.kind == BuildErrorKind::NameTooLong ==> e.detail@
            == long_name_text()),
        has_duplicate(entries_of(files@)) ==> r is Err,
        r matches Ok(bytes) ==> is_archive_of(
            bytes@,
            entries_of(files@),
            seals_of(files@.len(), password@),
        ),
{
    proof {
        if has_duplicate(entries_of(files@)) {
            lemma_duplicate_clashes(entries_of(files@));
        }
    }
    let w = begin_archive();
    match write_entries(w, &files, password) {
        Ok(filled) => {
            proof {
                assert(written(filled) =~= entries_of(files@));
                assert(sealed(filled) =~= seals_of(files@.len(), password@));
            }
            finish_archive(filled)
        },
        Err(e) => Err(e),
    }
}

} // verus!
