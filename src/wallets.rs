//! The credential rule: a private key owns the v2 address it derives, and
//! proves it by the hash of that address followed by the key.

use vstd::prelude::*;

use crate::crypto::{make_v2_address, sha256, sha_hex, v2_address};
use crate::text::owned;

verus! {

/// What a private key is checked against: the wallet address it derives
/// and the hash that the wallet stores for it.
#[derive(Debug)]
pub struct CredentialCheck {
    pub address: String,
    pub hash: String,
}

/// The address a key derives, under the `k` prefix.
pub open spec fn key_address(key: Seq<char>) -> Seq<char> {
    v2_address(key, "k"@)
}

/// The hash a wallet stores for `key`.
pub open spec fn key_hash(key: Seq<char>) -> Seq<char> {
    sha_hex(key_address(key) + key)
}

/// The address and hash that `private_key` is checked against.
pub fn credential_check(private_key: &str) -> (r: CredentialCheck)
    ensures
        r.address@ == key_address(private_key@),
        r.hash@ == key_hash(private_key@),
{
    let address = make_v2_address(private_key, "k");
    let joined = owned(address.as_str()).concat(private_key);
    let hash = sha256(joined.as_str());
    CredentialCheck { address, hash }
}

/// What a credential check concludes from the stored wallet.
#[derive(Debug, Clone, Copy, PartialEq, Eq, Structural)]
pub enum CredentialVerdict {
    /// No wallet has the address yet: it is created with the check's hash,
    /// and the key is accepted.
    CreateWallet,
    /// The wallet exists; whether its stored hash is the check's.
    Existing { authed: bool },
}

/// The verdict for `check`, given the stored hash of the wallet at its
/// address (`None` where there is no such wallet).
pub fn credential_verdict(check: &CredentialCheck, stored: Option<Option<String>>) -> (r:
    CredentialVerdict)
    ensures
        stored is None ==> r == CredentialVerdict::CreateWallet,
        stored matches Some(h) ==> r == (CredentialVerdict::Existing {
            authed: h matches Some(x) && x@ == check.hash@,
        }),
{
    match stored {
        None => CredentialVerdict::CreateWallet,
        Some(h) => CredentialVerdict::Existing {
            authed: match h {
                Some(x) => x == check.hash,
                None => false,
            },
        },
    }
}

} // verus!
