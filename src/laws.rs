//! Laws that relate the separator functions to each other.
use vstd::prelude::*;
use crate::separator::{
    ends_with_sep, spec_add_end, spec_concat, spec_delete_end, spec_delete_start, starts_with_sep,
};

verus! {

/// `s` ends with two separators and has a third character before them.
pub open spec fn ends_with_two_seps(s: Seq<char>, sep: char) -> bool {
    s.len() >= 3 && s.last() == sep && s[s.len() - 2] == sep
}

/// Adding a trailing separator and then deleting one gives what deleting
/// alone gives (the empty string becomes a lone separator). What is left ends
/// with no separator unless it is a lone separator, so deleting once more
/// changes nothing. A string that ends in two separators after a third
/// character still ends with one after the first deletion, which the second
/// removes, so it is left out.
pub proof fn lemma_delete_end_of_add_end(s: Seq<char>, sep: char)
    requires
        !ends_with_two_seps(s, sep),
    ensures
        ({
            let d = spec_delete_end(spec_add_end(s, sep), sep);
            &&& d == spec_delete_end(s, sep) || s.len() == 0
            &&& !ends_with_sep(d, sep) || d == seq![sep]
            &&& spec_delete_end(d, sep) == d
        }),
{
}

/// Adding a trailing separator twice is the same as adding it once.
pub proof fn lemma_add_end_idempotent(s: Seq<char>, sep: char)
    ensures
        spec_add_end(spec_add_end(s, sep), sep) == spec_add_end(s, sep),
{
}

/// A string that is just the separator keeps it: neither deletion empties it.
pub proof fn lemma_root_kept(sep: char)
    ensures
        spec_delete_end(seq![sep], sep) == seq![sep],
        spec_delete_start(seq![sep], sep) == seq![sep],
{
}

/// For a non-empty `s`, adding a trailing separator before deleting one makes
/// no difference. The empty string is left out: adding gives a lone
/// separator, which deleting keeps.
pub proof fn lemma_add_then_delete_end(s: Seq<char>, sep: char)
    requires
        s.len() > 0,
    ensures
        spec_delete_end(spec_add_end(s, sep), sep) == spec_delete_end(s, sep),
{
}

/// Joining leaves exactly one separator at the junction, whether or not the
/// left fragment ends with one and whether or not the right one starts with
/// one. The right fragment's body `y` is non-empty and has no separator at
/// either end; separators inside either fragment are kept.
pub proof fn lemma_concat_one_separator_at_junction(
    x: Seq<char>,
    y: Seq<char>,
    sep: char,
    left_has_sep: bool,
    right_has_sep: bool,
)
    requires
        !ends_with_sep(x, sep),
        y.len() > 0,
        !starts_with_sep(y, sep),
        !ends_with_sep(y, sep),
    ensures
        ({
            let a = if left_has_sep { x.push(sep) } else { x };
            let b = if right_has_sep { seq![sep] + y } else { y };
            spec_concat(a, b, sep) == x.push(sep) + y
        }),
{
}

} // verus!
