//! Sizes in bytes, as configuration writes them.

use vstd::prelude::*;

verus! {

/// What `bytesize::ByteSize` reads from a text such as `"512"`, `"1kib"`
/// or `"1.5 MB"`: the number of bytes, or the message with which it
/// refuses the text.
pub uninterp spec fn byte_size_of(text: Seq<char>) -> Result<u64, Seq<char>>;

/// The value of a parse result with its message taken as characters.
pub open spec fn parsed_view(r: Result<u64, String>) -> Result<u64, Seq<char>> {
    match r {
        Ok(n) => Ok(n),
        Err(e) => Err(e@),
    }
}

/// The value of a size result with its message taken as characters.
pub open spec fn size_view(r: Result<usize, String>) -> Result<usize, Seq<char>> {
    match r {
        Ok(n) => Ok(n),
        Err(e) => Err(e@),
    }
}

/// Reads a size with `ByteSize`'s `FromStr` and takes the count out with
/// `as_u64`. The result is the one named by [`byte_size_of`].
#[verifier::external_body]
fn read_byte_size(text: &str) -> (r: Result<u64, String>)
    ensures
        parsed_view(r) == byte_size_of(text@),
{
    match <bytesize::ByteSize as std::str::FromStr>::from_str(text) {
        Ok(size) => Ok(size.as_u64()),
        Err(e) => Err(e),
    }
}

/// The size that fits the machine's word, from what was read: the count of
/// bytes cut to a `usize`, and a refusal passed on with its message.
pub open spec fn size_from(parsed: Result<u64, Seq<char>>) -> Result<usize, Seq<char>> {
    match parsed {
        Ok(n) => Ok(n as usize),
        Err(e) => Err(e),
    }
}

/// Turns what was read into a size, as [`size_from`] says.
pub fn size_from_parsed(parsed: Result<u64, String>) -> (r: Result<usize, String>)
    ensures
        size_view(r) == size_from(parsed_view(parsed)),
{
    match parsed {
        Ok(n) => Ok(n as usize),
        Err(e) => Err(e),
    }
}

/// Reads a size in bytes from its text form.
pub fn parse_size(size_str: &str) -> (r: Result<usize, String>)
    ensures
        size_view(r) == size_from(byte_size_of(size_str@)),
{
    size_from_parsed(read_byte_size(size_str))
}

} // verus!
