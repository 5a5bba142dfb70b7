//! Text predicates and helpers over sequences of characters.

use vstd::prelude::*;
use vstd::string::StrSliceExecFns;

verus! {

/// `needle` stands in `hay` at character offset `at`.
pub open spec fn occurs_at(hay: Seq<char>, needle: Seq<char>, at: int) -> bool {
    &&& 0 <= at
    &&& at + needle.len() <= hay.len()
    &&& hay.subrange(at, at + needle.len()) == needle
}

/// `needle` stands somewhere in `hay`.
pub open spec fn contains_text(hay: Seq<char>, needle: Seq<char>) -> bool {
    exists|at: int| occurs_at(hay, needle, at)
}

/// `s` begins with `prefix`.
pub open spec fn starts_with_text(s: Seq<char>, prefix: Seq<char>) -> bool {
    occurs_at(s, prefix, 0)
}

/// The last `n` characters of `s`, or all of `s` where it is shorter.
pub open spec fn tail_of(s: Seq<char>, n: nat) -> Seq<char> {
    if s.len() <= n {
        s
    } else {
        s.subrange(s.len() - n, s.len() as int)
    }
}

/// The last `n` characters of `s`, or the whole of `s` where it has fewer.
pub fn tail_chars(s: &str, n: usize) -> (tail: &str)
    ensures
        tail@ == tail_of(s@, n as nat),
{
    let len: usize = s.unicode_len();
    if len <= n {
        s
    } else {
        s.substring_char(len - n, len)
    }
}

/// Whether `needle` stands somewhere in `hay`.
///
/// Trusted: this is `str::contains` of the standard library with a string as
/// its pattern, which is documented to return `true` exactly when the pattern
/// matches a sub-slice of the string. Both arguments are valid UTF-8, so a
/// match of bytes is a match of characters.
#[verifier::external_body]
pub(crate) fn str_contains(hay: &str, needle: &str) -> (found: bool)
    ensures
        found == contains_text(hay@, needle@),
{
    hay.contains(needle)
}

/// Whether `s` begins with `prefix`.
///
/// Trusted: this is `str::starts_with` of the standard library with a string
/// as its pattern, which is documented to return `true` exactly when the
/// pattern matches a prefix of the string.
#[verifier::external_body]
pub(crate) fn str_starts_with(s: &str, prefix: &str) -> (found: bool)
    ensures
        found == starts_with_text(s@, prefix@),
{
    s.starts_with(prefix)
}

} // verus!
