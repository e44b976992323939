//! The separator functions with the file separator as the separator.
use vstd::prelude::*;
use std::borrow::Cow;
use crate::separator::{
    add_end, add_end_in_place, add_start, add_start_in_place, concat_literals, concat_with,
    concat_with_in_place, delete_end, delete_end_in_place, delete_start, delete_start_in_place,
    ends_with_sep, join_with, join_with_in_place, spec_add_end, spec_add_start, spec_concat,
    spec_delete_end, spec_delete_start, spec_interleave, spec_join, starts_with_sep, views_of,
};
use crate::text::{main_separator, main_separator_of};

verus! {

/// The file separator: `\` where the path separator of the platform the
/// crate is compiled for is a backslash, `/` everywhere else.
pub open spec fn spec_file_separator() -> char {
    if main_separator_of(()) == '\\' {
        '\\'
    } else {
        '/'
    }
}

/// The file separator of the platform the crate is compiled for: `\` where
/// the platform's path separator is a backslash, `/` everywhere else.
pub fn file_separator() -> (c: char)
    ensures
        c == spec_file_separator(),
        c == '/' || c == '\\',
{
    if main_separator() == '\\' {
        '\\'
    } else {
        '/'
    }
}

/// Deletes one trailing file separator from `s`, unless `s` has at most one character.
pub fn delete_end_file_separator<'a>(s: &'a str) -> (r: &'a str)
    ensures
        r@ == spec_delete_end(s@, spec_file_separator()),
{
    delete_end(s, file_separator())
}

/// Deletes one trailing file separator from `s` in place, unless `s` has at most one
/// character.
pub fn delete_end_file_separator_in_place(s: &mut String)
    ensures
        final(s)@ == spec_delete_end(old(s)@, spec_file_separator()),
{
    delete_end_in_place(s, file_separator())
}

/// Deletes one leading file separator from `s`, unless `s` has at most one character.
pub fn delete_start_file_separator<'a>(s: &'a str) -> (r: &'a str)
    ensures
        r@ == spec_delete_start(s@, spec_file_separator()),
{
    delete_start(s, file_separator())
}

/// Deletes one leading file separator from `s` in place, unless `s` has at most one
/// character.
pub fn delete_start_file_separator_in_place(s: &mut String)
    ensures
        final(s)@ == spec_delete_start(old(s)@, spec_file_separator()),
{
    delete_start_in_place(s, file_separator())
}

/// Puts a file separator in front of `s` unless one is there already; an unchanged
/// string is borrowed.
pub fn add_start_file_separator<'a>(s: &'a str) -> (r: Cow<'a, str>)
    ensures
        r@ == spec_add_start(s@, spec_file_separator()),
        r is Borrowed <==> starts_with_sep(s@, spec_file_separator()),
{
    add_start(s, file_separator())
}

/// Puts a file separator in front of `s` in place unless one is there already.
pub fn add_start_file_separator_in_place(s: &mut String)
    ensures
        final(s)@ == spec_add_start(old(s)@, spec_file_separator()),
{
    add_start_in_place(s, file_separator())
}

/// Appends a file separator to `s` unless it ends with one already; an unchanged
/// string is borrowed.
pub fn add_end_file_separator<'a>(s: &'a str) -> (r: Cow<'a, str>)
    ensures
        r@ == spec_add_end(s@, spec_file_separator()),
        r is Borrowed <==> ends_with_sep(s@, spec_file_separator()),
{
    add_end(s, file_separator())
}

/// Appends a file separator to `s` in place unless it ends with one already.
pub fn add_end_file_separator_in_place(s: &mut String)
    ensures
        final(s)@ == spec_add_end(old(s)@, spec_file_separator()),
{
    add_end_in_place(s, file_separator())
}

/// Joins `s2` onto `s1` with exactly one file separator at the junction.
pub fn concat_with_file_separator(s1: String, s2: &str) -> (r: String)
    ensures
        r@ == spec_concat(s1@, s2@, spec_file_separator()),
{
    concat_with(s1, s2, file_separator())
}

/// Joins `s2` onto `s1` in place with exactly one file separator at the junction.
pub fn concat_with_file_separator_in_place(s1: &mut String, s2: &str)
    ensures
        final(s1)@ == spec_concat(old(s1)@, s2@, spec_file_separator()),
{
    concat_with_in_place(s1, s2, file_separator())
}

/// `first` with each of `rest` joined onto it, with exactly one file separator at
/// each junction.
pub fn join_with_file_separator(first: &str, rest: &[&str]) -> (r: String)
    ensures
        r@ == spec_join(first@, views_of(rest@), spec_file_separator()),
{
    join_with(first, rest, file_separator())
}

/// Joins each of `rest` onto `s` in place, with exactly one file separator at each
/// junction.
pub fn join_with_file_separator_in_place(s: &mut String, rest: &[&str])
    ensures
        final(s)@ == spec_join(old(s)@, views_of(rest@), spec_file_separator()),
{
    join_with_in_place(s, rest, file_separator())
}

/// `prefix`, then `parts` with one file separator between each two of them, then
/// `suffix`, all taken as they are.
pub fn concat_literals_with_file_separator(prefix: &str, parts: &[&str], suffix: &str) -> (r: String)
    ensures
        r@ == prefix@ + spec_interleave(views_of(parts@), spec_file_separator()) + suffix@,
{
    concat_literals(prefix, parts, suffix, file_separator())
}

} // verus!
