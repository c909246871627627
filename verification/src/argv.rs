//! Building argument lists for the runtime binary, with their exact
//! character-level contents stated in specifications.

use vstd::prelude::*;
use vstd::string::StrSliceExecFns;

verus! {

/// The characters of each argument in the list.
pub open spec fn str_views(s: Seq<String>) -> Seq<Seq<char>> {
    s.map_values(|x: String| x@)
}

/// `str_views` distributes over concatenation.
pub proof fn lemma_str_views_concat(a: Seq<String>, b: Seq<String>)
    ensures
        str_views(a + b) == str_views(a) + str_views(b),
{
    assert(str_views(a + b) =~= str_views(a) + str_views(b));
}

/// A flag followed by its value, when the value is set.
pub open spec fn opt_flag_arg(flag: Seq<char>, v: Option<Seq<char>>) -> Seq<Seq<char>> {
    match v {
        Some(p) => seq![flag, p],
        None => Seq::empty(),
    }
}

/// A bare flag, when it is switched on.
pub open spec fn bool_flag(flag: Seq<char>, on: bool) -> Seq<Seq<char>> {
    if on {
        seq![flag]
    } else {
        Seq::empty()
    }
}

/// The characters of an optional string.
pub open spec fn opt_view(v: Option<String>) -> Option<Seq<char>> {
    match v {
        Some(s) => Some(s@),
        None => None,
    }
}

/// Appends one literal argument.
pub fn push_str(v: &mut Vec<String>, s: &str)
    ensures
        str_views(final(v)@) == str_views(old(v)@).push(s@),
{
    v.push(s.to_owned());
    proof {
        assert(str_views(v@) =~= str_views(old(v)@).push(s@));
    }
}

/// Appends one owned argument.
pub fn push_string(v: &mut Vec<String>, s: String)
    ensures
        str_views(final(v)@) == str_views(old(v)@).push(s@),
{
    v.push(s);
    proof {
        assert(str_views(v@) =~= str_views(old(v)@).push(s@));
    }
}

/// Appends a whole argument list.
pub fn append_args(v: &mut Vec<String>, mut other: Vec<String>)
    ensures
        final(v)@ == old(v)@ + other@,
        str_views(final(v)@) == str_views(old(v)@) + str_views(other@),
{
    let ghost o = other@;
    v.append(&mut other);
    proof {
        lemma_str_views_concat(old(v)@, o);
    }
}

} // verus!
