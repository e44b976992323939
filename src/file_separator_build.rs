//! The separator functions with the build file separator as the separator.
use vstd::prelude::*;
use std::borrow::Cow;
use crate::separator::{
    add_end, add_end_in_place, add_start, add_start_in_place, concat_literals, concat_with,
    concat_with_in_place, delete_end, delete_end_in_place, delete_start, delete_start_in_place,
    ends_with_sep, join_with, join_with_in_place, spec_add_end, spec_add_start, spec_concat,
    spec_delete_end, spec_delete_start, spec_interleave, spec_join, starts_with_sep, views_of,
};
use crate::text::{main_separator, main_separator_of};

verus! {

/// The build file separator: `\` where the path separator of the platform
/// the crate is compiled for is a backslash, `/` everywhere else.
pub open spec fn spec_file_separator_build() -> char {
    if main_separator_of(()) == '\\' {
        '\\'
    } else {
        '/'
    }
}

/// The file separator for paths written at build time. Without a separate
/// build platform this is the separator of the platform the crate is
/// compiled for: `\` where its path separator is a backslash, `/`
/// everywhere else.
pub fn file_separator_build() -> (c: char)
    ensures
        c == spec_file_separator_build(),
        c == '/' || c == '\\',
{
    if main_separator() == '\\' {
        '\\'
    } else {
        '/'
    }
}

/// Deletes one trailing build file separator from `s`, unless `s` has at most one character.
pub fn delete_end_file_separator_build<'a>(s: &'a str) -> (r: &'a str)
    ensures
        r@ == spec_delete_end(s@, spec_file_separator_build()),
{
    delete_end(s, file_separator_build())
}

/// Deletes one trailing build file separator from `s` in place, unless `s` has at most one
/// character.
pub fn delete_end_file_separator_build_in_place(s: &mut String)
    ensures
        final(s)@ == spec_delete_end(old(s)@, spec_file_separator_build()),
{
    delete_end_in_place(s, file_separator_build())
}

/// Deletes one leading build file separator from `s`, unless `s` has at most one character.
pub fn delete_start_file_separator_build<'a>(s: &'a str) -> (r: &'a str)
    ensures
        r@ == spec_delete_start(s@, spec_file_separator_build()),
{
    delete_start(s, file_separator_build())
}

/// Deletes one leading build file separator from `s` in place, unless `s` has at most one
/// character.
pub fn delete_start_file_separator_build_in_place(s: &mut String)
    ensures
        final(s)@ == spec_delete_start(old(s)@, spec_file_separator_build()),
{
    delete_start_in_place(s, file_separator_build())
}

/// Puts a build file separator in front of `s` unless one is there already; an unchanged
/// string is borrowed.
pub fn add_start_file_separator_build<'a>(s: &'a str) -> (r: Cow<'a, str>)
    ensures
        r@ == spec_add_start(s@, spec_file_separator_build()),
        r is Borrowed <==> starts_with_sep(s@, spec_file_separator_build()),
{
    add_start(s, file_separator_build())
}

/// Puts a build file separator in front of `s` in place unless one is there already.
pub fn add_start_file_separator_build_in_place(s: &mut String)
    ensures
        final(s)@ == spec_add_start(old(s)@, spec_file_separator_build()),
{
    add_start_in_place(s, file_separator_build())
}

/// Appends a build file separator to `s` unless it ends with one already; an unchanged
/// string is borrowed.
pub fn add_end_file_separator_build<'a>(s: &'a str) -> (r: Cow<'a, str>)
    ensures
        r@ == spec_add_end(s@, spec_file_separator_build()),
        r is Borrowed <==> ends_with_sep(s@, spec_file_separator_build()),
{
    add_end(s, file_separator_build())
}

/// Appends a build file separator to `s` in place unless it ends with one already.
pub fn add_end_file_separator_build_in_place(s: &mut String)
    ensures
        final(s)@ == spec_add_end(old(s)@, spec_file_separator_build()),
{
    add_end_in_place(s, file_separator_build())
}

/// Joins `s2` onto `s1` with exactly one build file separator at the junction.
pub fn concat_with_file_separator_build(s1: String, s2: &str) -> (r: String)
    ensures
        r@ == spec_concat(s1@, s2@, spec_file_separator_build()),
{
    concat_with(s1, s2, file_separator_build())
}

/// Joins `s2` onto `s1` in place with exactly one build file separator at the junction.
pub fn concat_with_file_separator_build_in_place(s1: &mut String, s2: &str)
    ensures
        final(s1)@ == spec_concat(old(s1)@, s2@, spec_file_separator_build()),
{
    concat_with_in_place(s1, s2, file_separator_build())
}

/// `first` with each of `rest` joined onto it, with exactly one build file separator at
/// each junction.
pub fn join_with_file_separator_build(first: &str, rest: &[&str]) -> (r: String)
    ensures
        r@ == spec_join(first@, views_of(rest@), spec_file_separator_build()),
{
    join_with(first, rest, file_separator_build())
}

/// Joins each of `rest` onto `s` in place, with exactly one build file separator at each
/// junction.
pub fn join_with_file_separator_build_in_place(s: &mut String, rest: &[&str])
    ensures
        final(s)@ == spec_join(old(s)@, views_of(rest@), spec_file_separator_build()),
{
    join_with_in_place(s, rest, file_separator_build())
}

/// `prefix`, then `parts` with one build file separator between each two of them, then
/// `suffix`, all taken as they are.
pub fn concat_literals_with_file_separator_build(prefix: &str, parts: &[&str], suffix: &str) -> (r: String)
    ensures
        r@ == prefix@ + spec_interleave(views_of(parts@), spec_file_separator_build()) + suffix@,
{
    concat_literals(prefix, parts, suffix, file_separator_build())
}

} // verus!
