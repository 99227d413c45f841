//! Address derivation: the hashing behind wallet addresses, the v2 address
//! scheme, and random passwords.

use vstd::prelude::*;

use rand::distr::Uniform;
use rand::Rng;
use sha2::{Digest, Sha256};

use crate::text::owned;

verus! {

/// The SHA-256 digest of the UTF-8 encoding of a text.
pub uninterp spec fn sha256_of(data: Seq<char>) -> Seq<u8>;

/// Relies on sha2's `Sha256`, fed the bytes of `data`: its digest, which is
/// 32 bytes long.
#[verifier::external_body]
fn sha256_digest(data: &str) -> (r: Vec<u8>)
    ensures
        r@ == sha256_of(data@),
        r@.len() == 32,
{
    let mut hasher = Sha256::new();
    hasher.update(data.as_bytes());
    hasher.finalize().to_vec()
}

/// The lower-case hexadecimal digit of `n`, for `0 <= n < 16`.
pub open spec fn hex_digit(n: int) -> char {
    seq!['0', '1', '2', '3', '4', '5', '6', '7', '8', '9', 'a', 'b', 'c', 'd', 'e', 'f'][n]
}

/// Two lower-case hexadecimal digits per byte, the high nibble first.
pub open spec fn hex_lower(b: Seq<u8>) -> Seq<char>
    decreases b.len(),
{
    if b.len() == 0 {
        Seq::empty()
    } else {
        seq![hex_digit(b[0] as int / 16), hex_digit(b[0] as int % 16)] + hex_lower(b.drop_first())
    }
}

/// Relies on `hex::encode`: two lower-case digits per byte, the high nibble
/// first.
#[verifier::external_body]
fn hex_encode(b: &[u8]) -> (r: String)
    ensures
        r@ == hex_lower(b@),
{
    hex::encode(b)
}

/// A lower-case hexadecimal digit.
pub open spec fn is_hex_char(c: char) -> bool {
    ('0' <= c && c <= '9') || ('a' <= c && c <= 'f')
}

/// A text made of lower-case hexadecimal digits.
pub open spec fn is_hex_text(s: Seq<char>) -> bool {
    forall|i: int| 0 <= i < s.len() ==> is_hex_char(#[trigger] s[i])
}

/// The value of a hexadecimal digit.
pub open spec fn hex_val(c: char) -> int {
    if '0' <= c && c <= '9' {
        (c as u32) as int - ('0' as u32) as int
    } else {
        (c as u32) as int - ('a' as u32) as int + 10
    }
}

/// The byte spelled by the `k`-th pair of digits of a hexadecimal text.
pub open spec fn pair_value(h: Seq<char>, k: int) -> int {
    16 * hex_val(h[2 * k]) + hex_val(h[2 * k + 1])
}

proof fn lemma_hex_digit(n: int)
    requires
        0 <= n < 16,
    ensures
        is_hex_char(hex_digit(n)),
        hex_val(hex_digit(n)) == n,
{
    let d = seq!['0', '1', '2', '3', '4', '5', '6', '7', '8', '9', 'a', 'b', 'c', 'd', 'e', 'f'];
    assert(hex_digit(n) == d[n]);
}

/// The digits of `hex_lower(b)`, pair by pair.
proof fn lemma_hex_lower(b: Seq<u8>)
    ensures
        hex_lower(b).len() == 2 * b.len(),
        is_hex_text(hex_lower(b)),
        forall|k: int| 0 <= k < b.len() ==> #[trigger] pair_value(hex_lower(b), k) == b[k],
    decreases b.len(),
{
    if b.len() > 0 {
        let rest = b.drop_first();
        lemma_hex_lower(rest);
        let h = hex_lower(b);
        let head = seq![hex_digit(b[0] as int / 16), hex_digit(b[0] as int % 16)];
        lemma_hex_digit(b[0] as int / 16);
        lemma_hex_digit(b[0] as int % 16);
        assert(h == head + hex_lower(rest));
        assert forall|i: int| 0 <= i < h.len() implies is_hex_char(#[trigger] h[i]) by {
            if i >= 2 {
                assert(h[i] == hex_lower(rest)[i - 2]);
            }
        }
        assert forall|k: int| 0 <= k < b.len() implies #[trigger] pair_value(h, k) == b[k] by {
            if k == 0 {
                assert(pair_value(h, 0) == 16 * (b[0] as int / 16) + b[0] as int % 16);
            } else {
                assert(h[2 * k] == hex_lower(rest)[2 * (k - 1)]);
                assert(h[2 * k + 1] == hex_lower(rest)[2 * (k - 1) + 1]);
                assert(pair_value(hex_lower(rest), k - 1) == rest[k - 1]);
            }
        }
    }
}

/// The lower-case hexadecimal SHA-256 digest of a text.
pub open spec fn sha_hex(s: Seq<char>) -> Seq<char> {
    hex_lower(sha256_of(s))
}

/// The digest of the digest of a text.
pub open spec fn double_sha_hex(s: Seq<char>) -> Seq<char> {
    sha_hex(sha_hex(s))
}

/// The lower-case hexadecimal SHA-256 digest of `data`.
pub fn sha256(data: &str) -> (r: String)
    ensures
        r@ == sha_hex(data@),
        r@.len() == 64,
        is_hex_text(r@),
{
    let digest = sha256_digest(data);
    proof {
        lemma_hex_lower(digest@);
    }
    hex_encode(digest.as_slice())
}

/// The digest of the digest of `data`.
pub fn double_sha256(data: &str) -> (r: String)
    ensures
        r@ == double_sha_hex(data@),
        r@.len() == 64,
        is_hex_text(r@),
{
    let first_hash = sha256(data);
    sha256(first_hash.as_str())
}

fn hex_char_value(c: char) -> (r: u8)
    requires
        is_hex_char(c),
    ensures
        r as int == hex_val(c),
        r < 16,
{
    if c <= '9' {
        (c as u32 - '0' as u32) as u8
    } else {
        (c as u32 - 'a' as u32 + 10) as u8
    }
}

/// The byte spelled by the `k`-th pair of digits of `h`.
fn byte_at(h: &String, k: usize) -> (r: u8)
    requires
        k < 32,
        2 * k + 2 <= h@.len(),
        is_hex_text(h@),
    ensures
        r as int == pair_value(h@, k as int),
{
    let s = h.as_str();
    let high = hex_char_value(s.get_char(2 * k));
    let low = hex_char_value(s.get_char(2 * k + 1));
    16 * high + low
}

/// The base-36 digit that stands for a byte in an address: the byte is
/// divided by seven, and the one quotient past the alphabet maps to `e`.
pub open spec fn base36_char(byte: u8) -> char {
    let q = byte / 7;
    if q < 36 {
        seq![
            '0', '1', '2', '3', '4', '5', '6', '7', '8', '9', 'a', 'b', 'c', 'd', 'e', 'f', 'g',
            'h', 'i', 'j', 'k', 'l', 'm', 'n', 'o', 'p', 'q', 'r', 's', 't', 'u', 'v', 'w', 'x',
            'y', 'z',
        ][q as int]
    } else {
        'e'
    }
}

/// The base-36 digit that stands for `byte` in an address.
pub fn hex_to_base36(byte: u8) -> (r: char)
    ensures
        r == base36_char(byte),
{
    let digits: [char; 36] = [
        '0', '1', '2', '3', '4', '5', '6', '7', '8', '9', 'a', 'b', 'c', 'd', 'e', 'f', 'g', 'h',
        'i', 'j', 'k', 'l', 'm', 'n', 'o', 'p', 'q', 'r', 's', 't', 'u', 'v', 'w', 'x', 'y', 'z',
    ];
    let q = byte / 7;
    if q < 36 {
        digits[q as usize]
    } else {
        'e'
    }
}

/// The characters a generated password is made of.
pub const PASSWORD_CHARSET: &'static str = "ABCDEFGHIJKLMNOPQRSTUVWXYZabcdefghijklmnopqrstuvwxyz0123456789_-";

/// Relies on rand's `Uniform` over `0..bound`, sampled from the thread's
/// generator: a value below `bound`. A range that is not empty is always
/// accepted.
#[verifier::external_body]
fn random_below(bound: usize) -> (r: usize)
    requires
        bound > 0,
    ensures
        r < bound,
{
    let dist = Uniform::try_from(0..bound).expect("the range is not empty");
    rand::rng().sample(dist)
}

/// The password spelled by `draws`: each draw picks the character at that
/// position of `PASSWORD_CHARSET`.
pub open spec fn password_text(draws: Seq<usize>) -> Seq<char> {
    draws.map_values(|k: usize| PASSWORD_CHARSET@[k as int])
}

/// The password spelled by `draws`, each of which is below 64.
pub fn password_from_draws(draws: &Vec<usize>) -> (r: String)
    requires
        forall|i: int| 0 <= i < draws@.len() ==> #[trigger] draws@[i] < 64,
    ensures
        r@ == password_text(draws@),
{
    proof {
        reveal_strlit("ABCDEFGHIJKLMNOPQRSTUVWXYZabcdefghijklmnopqrstuvwxyz0123456789_-");
    }
    let charset = PASSWORD_CHARSET;
    let mut r = String::new();
    let mut i: usize = 0;
    while i < draws.len()
        invariant
            0 <= i <= draws@.len(),
            charset@ == PASSWORD_CHARSET@,
            charset@.len() == 64,
            forall|j: int| 0 <= j < draws@.len() ==> #[trigger] draws@[j] < 64,
            r@ == password_text(draws@.take(i as int)),
        decreases draws@.len() - i,
    {
        let k = draws[i];
        let one = charset.substring_char(k, k + 1);
        let ghost prev = r@;
        r.append(one);
        proof {
            assert(draws@.take(i + 1) =~= draws@.take(i as int).push(k));
            assert(one@ =~= seq![charset@[k as int]]);
            assert(r@ =~= password_text(draws@.take(i + 1)));
        }
        i = i + 1;
    }
    proof {
        assert(draws@.take(draws@.len() as int) =~= draws@);
    }
    r
}

/// A random password of 32 characters drawn from `PASSWORD_CHARSET`.
pub fn generate_random_password() -> (r: String)
    ensures
        exists|draws: Seq<usize>|
            draws.len() == 32 && (forall|i: int| 0 <= i < 32 ==> #[trigger] draws[i] < 64) && r@
                == password_text(draws),
{
    let mut draws: Vec<usize> = Vec::new();
    let mut i: usize = 0;
    while i < 32
        invariant
            0 <= i <= 32,
            draws@.len() == i,
            forall|j: int| 0 <= j < draws@.len() ==> #[trigger] draws@[j] < 64,
        decreases 32 - i,
    {
        draws.push(random_below(64));
        i = i + 1;
    }
    let r = password_from_draws(&draws);
    assert(draws@.len() == 32 && (forall|i: int| 0 <= i < 32 ==> #[trigger] draws@[i] < 64) && r@
        == password_text(draws@));
    r
}

/// How many steps the address derivation may take at most.
pub const MAX_DERIVATION_STEPS: u64 = 0xFFFF_FFFF_FFFF_FFFF;

/// `h` hashed twice, `n` times over.
pub open spec fn rehashed(h: Seq<char>, n: nat) -> Seq<char>
    decreases n,
{
    if n == 0 {
        h
    } else {
        double_sha_hex(rehashed(h, (n - 1) as nat))
    }
}

/// The nine bytes an address of `key` is drawn from.
pub open spec fn v2_proteins(key: Seq<char>) -> Seq<u8> {
    Seq::new(9, |j: int| pair_value(rehashed(double_sha_hex(key), j as nat), 0) as u8)
}

/// The rest of an address: each step reads the next pair of digits of
/// `hash` to pick one of the nine bytes; a byte already taken makes the
/// hash be hashed again, a fresh one adds its digit to `chain`.
pub open spec fn chain_from(
    proteins: Seq<u8>,
    hash: Seq<char>,
    used: Seq<bool>,
    chain: Seq<char>,
    i: int,
    steps: nat,
) -> Seq<char>
    decreases steps,
{
    if i >= 9 || steps == 0 {
        chain
    } else {
        let index = pair_value(hash, i) % 9;
        if used[index] {
            chain_from(proteins, sha_hex(hash), used, chain, i, (steps - 1) as nat)
        } else {
            chain_from(
                proteins,
                hash,
                used.update(index, true),
                chain.push(base36_char(proteins[index])),
                i + 1,
                (steps - 1) as nat,
            )
        }
    }
}

/// The v2 address of `key`, written after `prefix`.
pub open spec fn v2_address(key: Seq<char>, prefix: Seq<char>) -> Seq<char> {
    chain_from(
        v2_proteins(key),
        rehashed(double_sha_hex(key), 9),
        Seq::new(9, |j: int| false),
        prefix,
        0,
        MAX_DERIVATION_STEPS as nat,
    )
}

/// The v2 address that the private key `key` owns.
pub fn make_v2_address(key: &str, address_prefix: &str) -> (r: String)
    ensures
        r@ == v2_address(key@, address_prefix@),
{
    let ghost start = double_sha_hex(key@);
    let mut protein: Vec<u8> = Vec::new();
    let mut chain = owned(address_prefix);
    let mut hash = double_sha256(key);
    let mut n: usize = 0;
    while n < 9
        invariant
            0 <= n <= 9,
            hash@ == rehashed(start, n as nat),
            hash@.len() == 64,
            is_hex_text(hash@),
            start == double_sha_hex(key@),
            protein@ == v2_proteins(key@).take(n as int),
        decreases 9 - n,
    {
        let b = byte_at(&hash, 0);
        protein.push(b);
        hash = double_sha256(hash.as_str());
        proof {
            assert(protein@ =~= v2_proteins(key@).take(n + 1));
        }
        n = n + 1;
    }
    proof {
        assert(protein@ =~= v2_proteins(key@));
    }
    let mut used: Vec<bool> = Vec::new();
    let mut u: usize = 0;
    while u < 9
        invariant
            0 <= u <= 9,
            used@ == Seq::new(u as nat, |j: int| false),
        decreases 9 - u,
    {
        used.push(false);
        proof {
            assert(used@ =~= Seq::new((u + 1) as nat, |j: int| false));
        }
        u = u + 1;
    }
    let mut i: usize = 0;
    let mut steps: u64 = MAX_DERIVATION_STEPS;
    while i < 9 && steps > 0
        invariant
            0 <= i <= 9,
            used@.len() == 9,
            protein@ == v2_proteins(key@),
            hash@.len() == 64,
            is_hex_text(hash@),
            chain_from(protein@, hash@, used@, chain@, i as int, steps as nat) == v2_address(
                key@,
                address_prefix@,
            ),
        decreases steps,
    {
        let num = byte_at(&hash, i);
        let index = (num % 9) as usize;
        if used[index] {
            hash = sha256(hash.as_str());
        } else {
            let ghost before = chain@;
            chain.append(base36_text(protein[index]));
            used.set(index, true);
            proof {
                assert(chain@ =~= before.push(base36_char(protein@[index as int])));
            }
            i = i + 1;
        }
        steps = steps - 1;
    }
    chain
}

/// The one-character text of the base-36 digit that stands for `byte`.
fn base36_text(byte: u8) -> (r: &'static str)
    ensures
        r@ == seq![base36_char(byte)],
{
    let digits = "0123456789abcdefghijklmnopqrstuvwxyz";
    proof {
        reveal_strlit("0123456789abcdefghijklmnopqrstuvwxyz");
    }
    let q = byte / 7;
    let k: usize = if q < 36 {
        q as usize
    } else {
        14
    };
    let r = digits.substring_char(k, k + 1);
    assert(r@ =~= seq![base36_char(byte)]);
    r
}

} // verus!
