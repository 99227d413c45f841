//! Input validation for addresses, names and name records, by regular
//! expression.

use vstd::prelude::*;

use vstd::utf8::encode_utf8;

use regex::Regex;

use crate::names::{lower_of, lowercased};

verus! {

/// A v2 address: `k` and nine lower-case letters or digits.
pub const ADDRESS_RE_V2: &'static str = r"^k[a-z0-9]{9}$";

/// A comma-separated list of v1 or v2 addresses.
pub const ADDRESS_LIST_RE: &'static str = r"^(?:k[a-z0-9]{9}|[a-f0-9]{10})(?:,(?:k[a-z0-9]{9}|[a-f0-9]{10}))*$";

/// A name as it may be looked up.
pub const NAME_FETCH_RE: &'static str = r"^(?:xn--)?[a-z0-9-_]{1,64}$";

/// A name as it may be registered.
pub const NAME_RE: &'static str = r"^[a-z0-9_-]{1,64}$";

/// The data record of a name.
pub const NAME_A_RECORD_RE: &'static str = r"^[^\s.?#].[^\s]*$";

/// Whether the regular expression `pattern` matches somewhere in `text`,
/// or `None` where `pattern` is no valid expression.
pub uninterp spec fn regex_outcome(pattern: Seq<char>, text: Seq<char>) -> Option<bool>;

/// Relies on `Regex::new`, which refuses a pattern it cannot compile, and on
/// `Regex::is_match` of the compiled expression.
#[verifier::external_body]
fn pattern_matches(pattern: &str, text: &str) -> (r: Option<bool>)
    ensures
        r == regex_outcome(pattern@, text@),
{
    Regex::new(pattern).ok().map(|re| re.is_match(text))
}

/// The length of the UTF-8 encoding of a text, as `str::len` reports it.
pub open spec fn byte_len(s: Seq<char>) -> usize {
    encode_utf8(s).len() as usize
}

/// Whether `pattern` compiles and matches `text`.
pub open spec fn matches_pattern(pattern: Seq<char>, text: Seq<char>) -> bool {
    regex_outcome(pattern, text) == Some(true)
}

fn matched(pattern: &str, text: &str) -> (r: bool)
    ensures
        r == matches_pattern(pattern@, text@),
{
    match pattern_matches(pattern, text) {
        Some(b) => b,
        None => false,
    }
}

/// Whether `name`, in lower case, is a valid name: for a lookup when
/// `fetching`, else for a registration.
pub fn is_valid_name(name: String, fetching: bool) -> (r: bool)
    ensures
        r == ({
            let lower = lower_of(name@);
            let pattern = if fetching {
                NAME_FETCH_RE@
            } else {
                NAME_RE@
            };
            matches_pattern(pattern, lower) && lower.len() > 0 && byte_len(lower) <= 64
        }),
{
    let re = if fetching {
        NAME_FETCH_RE
    } else {
        NAME_RE
    };
    let name = lowercased(name.as_str());
    let s = name.as_str();
    matched(re, s) && !s.is_empty() && s.len() <= 64
}

/// Whether `address` is a v2 address.
pub fn is_valid_kromer_address(address: String) -> (r: bool)
    ensures
        r == matches_pattern(ADDRESS_RE_V2@, address@),
{
    matched(ADDRESS_RE_V2, address.as_str())
}

/// Whether `address_list` is a comma-separated list of addresses.
pub fn is_valid_kromer_address_list(address_list: String) -> (r: bool)
    ensures
        r == matches_pattern(ADDRESS_LIST_RE@, address_list@),
{
    matched(ADDRESS_LIST_RE, address_list.as_str())
}

/// Whether `a` is a valid data record for a name: non-empty, at most 255
/// bytes, and of the record's shape.
pub fn is_valid_a_record(a: String) -> (r: bool)
    ensures
        r == (a@.len() > 0 && byte_len(a@) <= 255 && matches_pattern(
            NAME_A_RECORD_RE@,
            a@,
        )),
{
    let s = a.as_str();
    !s.is_empty() && s.len() <= 255 && matched(NAME_A_RECORD_RE, s)
}

} // verus!
