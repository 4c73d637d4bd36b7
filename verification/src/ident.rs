//! Generated values of a job: its identifier and its password.

use vstd::prelude::*;

verus! {

/// Letters and digits of ASCII.
pub open spec fn is_alphanumeric(c: char) -> bool {
    ('0' <= c && c <= '9') || ('A' <= c && c <= 'Z') || ('a' <= c && c <= 'z')
}

/// Digits and the lower-case letters `a` to `f`.
pub open spec fn is_lower_hex(c: char) -> bool {
    ('0' <= c && c <= '9') || ('a' <= c && c <= 'f')
}

/// The places of the hyphens in an identifier.
pub open spec fn is_hyphen_place(i: int) -> bool {
    i == 8 || i == 13 || i == 18 || i == 23
}

/// The shape of a job identifier: 36 characters, hyphens at the four
/// places, lower-case hexadecimal digits elsewhere.
pub open spec fn is_task_id(s: Seq<char>) -> bool {
    &&& s.len() == 36
    &&& forall|i: int|
        0 <= i < 36 ==> if is_hyphen_place(i) {
            #[trigger] s[i] == '-'
        } else {
            is_lower_hex(s[i])
        }
}

/// The shape of a generated password: `len` letters and digits.
pub open spec fn is_password(s: Seq<char>, len: nat) -> bool {
    &&& s.len() == len
    &&& forall|i: int| 0 <= i < s.len() ==> is_alphanumeric(#[trigger] s[i])
}

/// The number of characters of a generated password.
pub const PASSWORD_LENGTH: usize = 20;

/// A random version-4 identifier, from `uuid::Uuid::new_v4`, in the
/// hyphenated lower-case form that its `Display` writes. Only the shape is
/// claimed; the digits are random.
#[verifier::external_body]
pub(crate) fn new_task_id() -> (id: String)
    ensures
        is_task_id(id@),
{
    uuid::Uuid::new_v4().to_string()
}

/// `len` characters drawn from `rand::distributions::Alphanumeric` with the
/// thread's generator: each is an ASCII letter or digit. Which ones is
/// random.
#[verifier::external_body]
fn random_alphanumeric(len: usize) -> (s: String)
    ensures
        is_password(s@, len as nat),
{
    rand::Rng::sample_iter(rand::thread_rng(), &rand::distributions::Alphanumeric)
        .take(len)
        .map(char::from)
        .collect()
}

/// A fresh password of [`PASSWORD_LENGTH`] letters and digits.
pub fn generate_random_password() -> (password: String)
    ensures
        is_password(password@, PASSWORD_LENGTH as nat),
{
    random_alphanumeric(PASSWORD_LENGTH)
}

} // verus!
