//! The separator functions with backslash as the separator.
use vstd::prelude::*;
use std::borrow::Cow;
use crate::separator::{
    add_end, add_end_in_place, add_start, add_start_in_place, concat_literals, concat_with,
    concat_with_in_place, delete_end, delete_end_in_place, delete_start, delete_start_in_place,
    ends_with_sep, join_with, join_with_in_place, spec_add_end, spec_add_start, spec_concat,
    spec_delete_end, spec_delete_start, spec_interleave, spec_join, starts_with_sep, views_of,
};

verus! {

/// The backslash.
pub const BACKSLASH: char = '\\';

/// Deletes one trailing backslash from `s`, unless `s` has at most one character.
pub fn delete_end_backslash<'a>(s: &'a str) -> (r: &'a str)
    ensures
        r@ == spec_delete_end(s@, BACKSLASH),
{
    delete_end(s, BACKSLASH)
}

/// Deletes one trailing backslash from `s` in place, unless `s` has at most one
/// character.
pub fn delete_end_backslash_in_place(s: &mut String)
    ensures
        final(s)@ == spec_delete_end(old(s)@, BACKSLASH),
{
    delete_end_in_place(s, BACKSLASH)
}

/// Deletes one leading backslash from `s`, unless `s` has at most one character.
pub fn delete_start_backslash<'a>(s: &'a str) -> (r: &'a str)
    ensures
        r@ == spec_delete_start(s@, BACKSLASH),
{
    delete_start(s, BACKSLASH)
}

/// Deletes one leading backslash from `s` in place, unless `s` has at most one
/// character.
pub fn delete_start_backslash_in_place(s: &mut String)
    ensures
        final(s)@ == spec_delete_start(old(s)@, BACKSLASH),
{
    delete_start_in_place(s, BACKSLASH)
}

/// Puts a backslash in front of `s` unless it is there already; an unchanged
/// string is borrowed.
pub fn add_start_backslash<'a>(s: &'a str) -> (r: Cow<'a, str>)
    ensures
        r@ == spec_add_start(s@, BACKSLASH),
        r is Borrowed <==> starts_with_sep(s@, BACKSLASH),
{
    add_start(s, BACKSLASH)
}

/// Puts a backslash in front of `s` in place unless it is there already.
pub fn add_start_backslash_in_place(s: &mut String)
    ensures
        final(s)@ == spec_add_start(old(s)@, BACKSLASH),
{
    add_start_in_place(s, BACKSLASH)
}

/// Appends a backslash to `s` unless it ends with one already; an unchanged
/// string is borrowed.
pub fn add_end_backslash<'a>(s: &'a str) -> (r: Cow<'a, str>)
    ensures
        r@ == spec_add_end(s@, BACKSLASH),
        r is Borrowed <==> ends_with_sep(s@, BACKSLASH),
{
    add_end(s, BACKSLASH)
}

/// Appends a backslash to `s` in place unless it ends with one already.
pub fn add_end_backslash_in_place(s: &mut String)
    ensures
        final(s)@ == spec_add_end(old(s)@, BACKSLASH),
{
    add_end_in_place(s, BACKSLASH)
}

/// Joins `s2` onto `s1` with exactly one backslash at the junction.
pub fn concat_with_backslash(s1: String, s2: &str) -> (r: String)
    ensures
        r@ == spec_concat(s1@, s2@, BACKSLASH),
{
    concat_with(s1, s2, BACKSLASH)
}

/// Joins `s2` onto `s1` in place with exactly one backslash at the junction.
pub fn concat_with_backslash_in_place(s1: &mut String, s2: &str)
    ensures
        final(s1)@ == spec_concat(old(s1)@, s2@, BACKSLASH),
{
    concat_with_in_place(s1, s2, BACKSLASH)
}

/// `first` with each of `rest` joined onto it, with exactly one backslash at
/// each junction.
pub fn join_with_backslash(first: &str, rest: &[&str]) -> (r: String)
    ensures
        r@ == spec_join(first@, views_of(rest@), BACKSLASH),
{
    join_with(first, rest, BACKSLASH)
}

/// Joins each of `rest` onto `s` in place, with exactly one backslash at each
/// junction.
pub fn join_with_backslash_in_place(s: &mut String, rest: &[&str])
    ensures
        final(s)@ == spec_join(old(s)@, views_of(rest@), BACKSLASH),
{
    join_with_in_place(s, rest, BACKSLASH)
}

/// `prefix`, then `parts` with one backslash between each two of them, then
/// `suffix`, all taken as they are.
pub fn concat_literals_with_backslash(prefix: &str, parts: &[&str], suffix: &str) -> (r: String)
    ensures
        r@ == prefix@ + spec_interleave(views_of(parts@), BACKSLASH) + suffix@,
{
    concat_literals(prefix, parts, suffix, BACKSLASH)
}

} // verus!
