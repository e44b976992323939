//! The separator functions with slash as the separator.
use vstd::prelude::*;
use std::borrow::Cow;
use crate::separator::{
    add_end, add_end_in_place, add_start, add_start_in_place, concat_literals, concat_with,
    concat_with_in_place, delete_end, delete_end_in_place, delete_start, delete_start_in_place,
    ends_with_sep, join_with, join_with_in_place, spec_add_end, spec_add_start, spec_concat,
    spec_delete_end, spec_delete_start, spec_interleave, spec_join, starts_with_sep, views_of,
};

verus! {

/// The slash.
pub const SLASH: char = '/';

/// Deletes one trailing slash from `s`, unless `s` has at most one character.
pub fn delete_end_slash<'a>(s: &'a str) -> (r: &'a str)
    ensures
        r@ == spec_delete_end(s@, SLASH),
{
    delete_end(s, SLASH)
}

/// Deletes one trailing slash from `s` in place, unless `s` has at most one
/// character.
pub fn delete_end_slash_in_place(s: &mut String)
    ensures
        final(s)@ == spec_delete_end(old(s)@, SLASH),
{
    delete_end_in_place(s, SLASH)
}

/// Deletes one leading slash from `s`, unless `s` has at most one character.
pub fn delete_start_slash<'a>(s: &'a str) -> (r: &'a str)
    ensures
        r@ == spec_delete_start(s@, SLASH),
{
    delete_start(s, SLASH)
}

/// Deletes one leading slash from `s` in place, unless `s` has at most one
/// character.
pub fn delete_start_slash_in_place(s: &mut String)
    ensures
        final(s)@ == spec_delete_start(old(s)@, SLASH),
{
    delete_start_in_place(s, SLASH)
}

/// Puts a slash in front of `s` unless it is there already; an unchanged
/// string is borrowed.
pub fn add_start_slash<'a>(s: &'a str) -> (r: Cow<'a, str>)
    ensures
        r@ == spec_add_start(s@, SLASH),
        r is Borrowed <==> starts_with_sep(s@, SLASH),
{
    add_start(s, SLASH)
}

/// Puts a slash in front of `s` in place unless it is there already.
pub fn add_start_slash_in_place(s: &mut String)
    ensures
        final(s)@ == spec_add_start(old(s)@, SLASH),
{
    add_start_in_place(s, SLASH)
}

/// Appends a slash to `s` unless it ends with one already; an unchanged
/// string is borrowed.
pub fn add_end_slash<'a>(s: &'a str) -> (r: Cow<'a, str>)
    ensures
        r@ == spec_add_end(s@, SLASH),
        r is Borrowed <==> ends_with_sep(s@, SLASH),
{
    add_end(s, SLASH)
}

/// Appends a slash to `s` in place unless it ends with one already.
pub fn add_end_slash_in_place(s: &mut String)
    ensures
        final(s)@ == spec_add_end(old(s)@, SLASH),
{
    add_end_in_place(s, SLASH)
}

/// Joins `s2` onto `s1` with exactly one slash at the junction.
pub fn concat_with_slash(s1: String, s2: &str) -> (r: String)
    ensures
        r@ == spec_concat(s1@, s2@, SLASH),
{
    concat_with(s1, s2, SLASH)
}

/// Joins `s2` onto `s1` in place with exactly one slash at the junction.
pub fn concat_with_slash_in_place(s1: &mut String, s2: &str)
    ensures
        final(s1)@ == spec_concat(old(s1)@, s2@, SLASH),
{
    concat_with_in_place(s1, s2, SLASH)
}

/// `first` with each of `rest` joined onto it, with exactly one slash at
/// each junction.
pub fn join_with_slash(first: &str, rest: &[&str]) -> (r: String)
    ensures
        r@ == spec_join(first@, views_of(rest@), SLASH),
{
    join_with(first, rest, SLASH)
}

/// Joins each of `rest` onto `s` in place, with exactly one slash at each
/// junction.
pub fn join_with_slash_in_place(s: &mut String, rest: &[&str])
    ensures
        final(s)@ == spec_join(old(s)@, views_of(rest@), SLASH),
{
    join_with_in_place(s, rest, SLASH)
}

/// `prefix`, then `parts` with one slash between each two of them, then
/// `suffix`, all taken as they are.
pub fn concat_literals_with_slash(prefix: &str, parts: &[&str], suffix: &str) -> (r: String)
    ensures
        r@ == prefix@ + spec_interleave(views_of(parts@), SLASH) + suffix@,
{
    concat_literals(prefix, parts, suffix, SLASH)
}

} // verus!
