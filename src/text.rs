//! Thin contracts over the few `str` and `String` operations of std that
//! the separator functions are built from.
use vstd::prelude::*;

verus! {

/// Relies on `str::strip_suffix` with a `char` pattern: when `s` ends with
/// `c`, the slice before that one character, otherwise `None`.
#[verifier::external_body]
pub(crate) fn strip_last<'a>(s: &'a str, c: char) -> (r: Option<&'a str>)
    ensures
        match r {
            Some(t) => s@.len() > 0 && s@.last() == c && t@ == s@.drop_last(),
            None => !(s@.len() > 0 && s@.last() == c),
        },
{
    s.strip_suffix(c)
}

/// Relies on `str::strip_prefix` with a `char` pattern: when `s` starts with
/// `c`, the slice after that one character, otherwise `None`.
#[verifier::external_body]
pub(crate) fn strip_first<'a>(s: &'a str, c: char) -> (r: Option<&'a str>)
    ensures
        match r {
            Some(t) => s@.len() > 0 && s@[0] == c && t@ == s@.drop_first(),
            None => !(s@.len() > 0 && s@[0] == c),
        },
{
    s.strip_prefix(c)
}

/// Relies on `String::pop`: removes and returns the last character, or
/// returns `None` and leaves an empty string as it is.
#[verifier::external_body]
pub(crate) fn pop_last(s: &mut String) -> (r: Option<char>)
    ensures
        match r {
            Some(c) => old(s)@.len() > 0 && c == old(s)@.last() && final(s)@ == old(s)@.drop_last(),
            None => old(s)@.len() == 0 && final(s)@ == old(s)@,
        },
{
    s.pop()
}

/// Relies on `String::remove` at index 0, which is always a character
/// boundary: removes and returns the first character.
#[verifier::external_body]
pub(crate) fn remove_first(s: &mut String) -> (r: char)
    requires
        old(s)@.len() > 0,
    ensures
        r == old(s)@[0],
        final(s)@ == old(s)@.drop_first(),
{
    s.remove(0)
}

/// Relies on `String::push`: appends one character.
#[verifier::external_body]
pub(crate) fn push_last(s: &mut String, c: char)
    ensures
        final(s)@ == old(s)@.push(c),
{
    s.push(c)
}

/// Relies on `String::insert` at index 0, which is always a character
/// boundary: puts one character in front.
#[verifier::external_body]
pub(crate) fn insert_first(s: &mut String, c: char)
    ensures
        final(s)@ == seq![c] + old(s)@,
{
    s.insert(0, c)
}

/// The separator of path components on the platform the crate is compiled
/// for. It is fixed when the crate is compiled, so it is the same in every
/// run of one build; the unit argument stands for that platform.
pub uninterp spec fn main_separator_of(platform: ()) -> char;

/// Relies on `std::path::MAIN_SEPARATOR`, a constant: the separator of path
/// components on the platform the crate is compiled for.
#[verifier::external_body]
pub(crate) fn main_separator() -> (c: char)
    ensures
        c == main_separator_of(()),
{
    std::path::MAIN_SEPARATOR
}

} // verus!
