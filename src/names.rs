//! Name input handling: cleaning what a client typed and stripping the
//! name suffix.

use vstd::prelude::*;

verus! {

/// `s` with every match of the non-empty `p` removed, matches being taken
/// from the left and never overlapping.
pub open spec fn removed_all(s: Seq<char>, p: Seq<char>) -> Seq<char>
    decreases s.len(),
{
    if p.len() == 0 || s.len() < p.len() {
        s
    } else if s.subrange(0, p.len() as int) == p {
        removed_all(s.subrange(p.len() as int, s.len() as int), p)
    } else {
        seq![s[0]] + removed_all(s.drop_first(), p)
    }
}

/// Relies on `str::replace` with an empty replacement: every match of
/// `pattern`, taken from the left without overlap, is removed.
#[verifier::external_body]
fn remove_all(s: &str, pattern: &str) -> (r: String)
    requires
        pattern@.len() > 0,
    ensures
        r@ == removed_all(s@, pattern@),
{
    s.replace(pattern, "")
}

/// `s` without its leading and trailing Unicode white space.
pub uninterp spec fn trim_of(s: Seq<char>) -> Seq<char>;

/// `s` with every character in lower case, as Unicode defines it.
pub uninterp spec fn lower_of(s: Seq<char>) -> Seq<char>;

/// Relies on `str::trim`: the text without leading and trailing white
/// space; an empty text stays empty.
#[verifier::external_body]
fn trimmed(s: &str) -> (r: &str)
    ensures
        r@ == trim_of(s@),
        s@.len() == 0 ==> r@.len() == 0,
{
    s.trim()
}

/// Relies on `str::to_lowercase`: the text in lower case, which depends on
/// its characters alone; an empty text stays empty.
#[verifier::external_body]
pub(crate) fn lowercased(s: &str) -> (r: String)
    ensures
        r@ == lower_of(s@),
        s@.len() == 0 ==> r@.len() == 0,
{
    s.to_lowercase()
}

/// The name as given, without the literal text `\.kst$` wherever it
/// occurs.
pub fn strip_name_suffix(name: String) -> (r: String)
    ensures
        r@ == removed_all(name@, "\\.kst$"@),
{
    let pattern = "\\.kst$";
    proof {
        reveal_strlit("\\.kst$");
    }
    remove_all(name.as_str(), pattern)
}

/// A name as typed by a client, trimmed and in lower case.
pub fn clean_name_input(name: String) -> (r: String)
    ensures
        r@ == lower_of(trim_of(name@)),
{
    lowercased(trimmed(name.as_str()))
}

} // verus!
