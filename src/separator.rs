//! The separator functions, for any separator character.
use vstd::prelude::*;
use std::borrow::Cow;
use crate::text::{strip_last, strip_first, pop_last, remove_first, push_last, insert_first};

verus! {

/// `s` ends with `sep`.
pub open spec fn ends_with_sep(s: Seq<char>, sep: char) -> bool {
    s.len() > 0 && s.last() == sep
}

/// `s` starts with `sep`.
pub open spec fn starts_with_sep(s: Seq<char>, sep: char) -> bool {
    s.len() > 0 && s[0] == sep
}

/// `s` without its trailing `sep`; a string of one character keeps it.
pub open spec fn spec_delete_end(s: Seq<char>, sep: char) -> Seq<char> {
    if s.len() > 1 && s.last() == sep {
        s.drop_last()
    } else {
        s
    }
}

/// Deletes one trailing `sep` from `s`, unless `s` has at most one character.
/// The result is a slice of `s`.
pub fn delete_end<'a>(s: &'a str, sep: char) -> (r: &'a str)
    ensures
        r@ == spec_delete_end(s@, sep),
{
    match strip_last(s, sep) {
        Some(t) => {
            if t.is_empty() {
                s
            } else {
                t
            }
        },
        None => s,
    }
}

/// Deletes one trailing `sep` from `s` in place, unless `s` has at most one
/// character.
pub fn delete_end_in_place(s: &mut String, sep: char)
    ensures
        final(s)@ == spec_delete_end(old(s)@, sep),
{
    let cut = match strip_last(s.as_str(), sep) {
        Some(t) => !t.is_empty(),
        None => false,
    };
    if cut {
        pop_last(s);
    }
}

/// `s` without its leading `sep`; a string of one character keeps it.
pub open spec fn spec_delete_start(s: Seq<char>, sep: char) -> Seq<char> {
    if s.len() > 1 && s[0] == sep {
        s.drop_first()
    } else {
        s
    }
}

/// `s` with `sep` appended, unless it already ends with `sep`.
pub open spec fn spec_add_end(s: Seq<char>, sep: char) -> Seq<char> {
    if ends_with_sep(s, sep) {
        s
    } else {
        s.push(sep)
    }
}

/// `s` with `sep` put in front, unless it already starts with `sep`.
pub open spec fn spec_add_start(s: Seq<char>, sep: char) -> Seq<char> {
    if starts_with_sep(s, sep) {
        s
    } else {
        seq![sep] + s
    }
}

/// Deletes one leading `sep` from `s`, unless `s` has at most one character.
/// The result is a slice of `s`.
pub fn delete_start<'a>(s: &'a str, sep: char) -> (r: &'a str)
    ensures
        r@ == spec_delete_start(s@, sep),
{
    match strip_first(s, sep) {
        Some(t) => {
            if t.is_empty() {
                s
            } else {
                t
            }
        },
        None => s,
    }
}

/// Deletes one leading `sep` from `s` in place, unless `s` has at most one
/// character.
pub fn delete_start_in_place(s: &mut String, sep: char)
    ensures
        final(s)@ == spec_delete_start(old(s)@, sep),
{
    let cut = match strip_first(s.as_str(), sep) {
        Some(t) => !t.is_empty(),
        None => false,
    };
    if cut {
        remove_first(s);
    }
}

/// Puts `sep` in front of `s` unless it is there already. An unchanged
/// string is handed back borrowed, a changed one as a new `String`.
pub fn add_start<'a>(s: &'a str, sep: char) -> (r: Cow<'a, str>)
    ensures
        r@ == spec_add_start(s@, sep),
        r is Borrowed <==> starts_with_sep(s@, sep),
{
    match strip_first(s, sep) {
        Some(_) => Cow::Borrowed(s),
        None => {
            let mut owned = String::new();
            push_last(&mut owned, sep);
            owned.append(s);
            Cow::Owned(owned)
        },
    }
}

/// Puts `sep` in front of `s` in place unless it is there already.
pub fn add_start_in_place(s: &mut String, sep: char)
    ensures
        final(s)@ == spec_add_start(old(s)@, sep),
{
    let present = strip_first(s.as_str(), sep).is_some();
    if !present {
        insert_first(s, sep);
    }
}

/// Appends `sep` to `s` unless `s` ends with it already. An unchanged
/// string is handed back borrowed, a changed one as a new `String`.
pub fn add_end<'a>(s: &'a str, sep: char) -> (r: Cow<'a, str>)
    ensures
        r@ == spec_add_end(s@, sep),
        r is Borrowed <==> ends_with_sep(s@, sep),
{
    match strip_last(s, sep) {
        Some(_) => Cow::Borrowed(s),
        None => {
            let mut owned = s.to_owned();
            push_last(&mut owned, sep);
            Cow::Owned(owned)
        },
    }
}

/// Appends `sep` to `s` in place unless `s` ends with it already.
pub fn add_end_in_place(s: &mut String, sep: char)
    ensures
        final(s)@ == spec_add_end(old(s)@, sep),
{
    let present = strip_last(s.as_str(), sep).is_some();
    if !present {
        push_last(s, sep);
    }
}

/// `a` and `b` joined by one `sep`: `sep` is added to the end of `a` where it
/// is missing, one leading `sep` of `b` is dropped, and then one trailing
/// `sep` of the whole.
pub open spec fn spec_concat(a: Seq<char>, b: Seq<char>, sep: char) -> Seq<char> {
    spec_delete_end(spec_add_end(a, sep) + spec_delete_start(b, sep), sep)
}

/// `first` joined with each of `rest` in turn, from left to right.
pub open spec fn spec_join(first: Seq<char>, rest: Seq<Seq<char>>, sep: char) -> Seq<char>
    decreases rest.len(),
{
    if rest.len() == 0 {
        first
    } else {
        spec_concat(spec_join(first, rest.drop_last(), sep), rest.last(), sep)
    }
}

/// The characters of each of `parts`.
pub open spec fn views_of(parts: Seq<&str>) -> Seq<Seq<char>> {
    parts.map_values(|p: &str| p@)
}

/// `parts` one after another with one `sep` between each two of them.
pub open spec fn spec_interleave(parts: Seq<Seq<char>>, sep: char) -> Seq<char>
    decreases parts.len(),
{
    if parts.len() == 0 {
        Seq::empty()
    } else if parts.len() == 1 {
        parts[0]
    } else {
        spec_interleave(parts.drop_last(), sep).push(sep) + parts.last()
    }
}

/// Joins `s2` onto `s1` in place with exactly one `sep` at the junction.
pub fn concat_with_in_place(s1: &mut String, s2: &str, sep: char)
    ensures
        final(s1)@ == spec_concat(old(s1)@, s2@, sep),
{
    add_end_in_place(s1, sep);
    s1.append(delete_start(s2, sep));
    delete_end_in_place(s1, sep);
}

/// Joins `s2` onto `s1` with exactly one `sep` at the junction, reusing the
/// storage of `s1`.
pub fn concat_with(s1: String, s2: &str, sep: char) -> (r: String)
    ensures
        r@ == spec_concat(s1@, s2@, sep),
{
    let mut s1 = s1;
    concat_with_in_place(&mut s1, s2, sep);
    s1
}

/// Joins each of `rest` onto `s` in place, from left to right, with exactly
/// one `sep` at each junction.
pub fn join_with_in_place(s: &mut String, rest: &[&str], sep: char)
    ensures
        final(s)@ == spec_join(old(s)@, views_of(rest@), sep),
{
    let ghost start = s@;
    let mut i: usize = 0;
    while i < rest.len()
        invariant
            i <= rest@.len(),
            s@ == spec_join(start, views_of(rest@.take(i as int)), sep),
        decreases rest@.len() - i,
    {
        let part: &str = rest[i];
        concat_with_in_place(s, part, sep);
        proof {
            let done = views_of(rest@.take(i + 1));
            assert(done.drop_last() =~= views_of(rest@.take(i as int)));
        }
        i = i + 1;
    }
    proof {
        assert(rest@.take(i as int) =~= rest@);
    }
}

/// `first` with each of `rest` joined onto it, from left to right, with
/// exactly one `sep` at each junction.
pub fn join_with(first: &str, rest: &[&str], sep: char) -> (r: String)
    ensures
        r@ == spec_join(first@, views_of(rest@), sep),
{
    let mut s = first.to_owned();
    join_with_in_place(&mut s, rest, sep);
    s
}

/// `prefix`, then `parts` with one `sep` between each two of them, then
/// `suffix`. Nothing is removed: the parts are taken as they are.
pub fn concat_literals(prefix: &str, parts: &[&str], suffix: &str, sep: char) -> (r: String)
    ensures
        r@ == prefix@ + spec_interleave(views_of(parts@), sep) + suffix@,
{
    let mut body = String::new();
    let mut i: usize = 0;
    while i < parts.len()
        invariant
            i <= parts@.len(),
            body@ == spec_interleave(views_of(parts@.take(i as int)), sep),
        decreases parts@.len() - i,
    {
        let part: &str = parts[i];
        if i > 0 {
            push_last(&mut body, sep);
        }
        body.append(part);
        proof {
            let done = views_of(parts@.take(i + 1));
            assert(done.drop_last() =~= views_of(parts@.take(i as int)));
        }
        i = i + 1;
    }
    proof {
        assert(parts@.take(i as int) =~= parts@);
    }
    let mut r = prefix.to_owned();
    r.append(body.as_str());
    r.append(suffix);
    r
}

} // verus!
