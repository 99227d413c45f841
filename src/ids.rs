//! Token and connection ids. They are version-4 UUIDs from the `uuid`
//! crate, held as their 128-bit value.

use vstd::prelude::*;

use vstd::arithmetic::power::pow;

use uuid::Uuid;

use crate::crypto::hex_lower;

verus! {

/// The sixteen bytes of the UUID with value `id`, most significant first.
pub open spec fn uuid_bytes(id: u128) -> Seq<u8> {
    Seq::new(16, |i: int| ((id as int / pow(256, (15 - i) as nat)) % 256) as u8)
}

/// The hyphenated text of the UUID with value `id`: the lower-case hex
/// digits of its bytes, grouped eight, four, four, four and twelve.
pub open spec fn uuid_text(id: u128) -> Seq<char> {
    let h = hex_lower(uuid_bytes(id));
    h.subrange(0, 8) + seq!['-'] + h.subrange(8, 12) + seq!['-'] + h.subrange(12, 16) + seq!['-']
        + h.subrange(16, 20) + seq!['-'] + h.subrange(20, 32)
}

/// The value of the UUID that a text spells, if it spells one.
pub uninterp spec fn uuid_parsed(text: Seq<char>) -> Option<u128>;

/// Relies on `Uuid::new_v4`: a random id. Nothing is known of its value.
#[verifier::external_body]
pub(crate) fn new_token_id() -> (r: u128) {
    Uuid::new_v4().as_u128()
}

/// Relies on `Uuid::parse_str`: the value of the UUID that `text` spells, or
/// `None` where it spells none.
#[verifier::external_body]
pub(crate) fn parse_token_id(text: &str) -> (r: Option<u128>)
    ensures
        r == uuid_parsed(text@),
{
    Uuid::parse_str(text).ok().map(|u| u.as_u128())
}

/// Relies on `Uuid::from_u128`, which takes the value's bytes most
/// significant first, and on the hyphenated `Display` of `Uuid`: lower-case
/// hex digits grouped 8-4-4-4-12, 36 characters, which `Uuid::parse_str`
/// reads back as the same id.
#[verifier::external_body]
pub(crate) fn token_id_text(id: u128) -> (r: String)
    ensures
        r@ == uuid_text(id),
        r@.len() == 36,
        uuid_parsed(r@) == Some(id),
{
    Uuid::from_u128(id).hyphenated().to_string()
}

} // verus!
