//! The bundle's content hash: pinned by the operator, or derived from the
//! start time so it changes per run and is stable within one.
use sha2::{Digest, Sha256};
use std::time::SystemTime;
use vstd::prelude::*;
use vstd::bytes::spec_u64_to_le_bytes;

use crate::clock::{clock_secs, now_secs};
use crate::text::digit_char;

verus! {

/// The SHA-256 digest of `data`.
pub uninterp spec fn sha256_of(data: Seq<u8>) -> Seq<u8>;

/// The two lower-case hex digits of a byte, high nibble first.
pub open spec fn hex_pair(b: u8) -> Seq<char> {
    seq![digit_char((b / 16) as nat), digit_char((b % 16) as nat)]
}

/// `bytes` in lower-case hex, two digits per byte, in order.
pub open spec fn hex_lower(bytes: Seq<u8>) -> Seq<char>
    decreases bytes.len(),
{
    if bytes.len() == 0 {
        Seq::empty()
    } else {
        hex_pair(bytes[0]) + hex_lower(bytes.drop_first())
    }
}

/// A character `0`-`9` or `a`-`f`.
pub open spec fn is_lower_hex_char(c: char) -> bool {
    ('0' <= c && c <= '9') || ('a' <= c && c <= 'f')
}

/// The shape a bundler gives a content hash: eight lower-case hex characters.
pub open spec fn is_bundle_hash(s: Seq<char>) -> bool {
    s.len() == 8 && forall|i: int| 0 <= i < s.len() ==> #[trigger] is_lower_hex_char(s[i])
}

/// The build id derived from a start time: the first four bytes of the
/// SHA-256 of the time's little-endian bytes, in hex.
pub open spec fn derived_build_id(secs: u64) -> Seq<char> {
    hex_lower(sha256_of(spec_u64_to_le_bytes(secs)).take(4))
}

/// Calls `sha2::Sha256::digest`: the SHA-256 digest of `data`, which is
/// always thirty-two bytes.
#[verifier::external_body]
fn sha256(data: &[u8]) -> (r: Vec<u8>)
    ensures
        r@ == sha256_of(data@),
        r@.len() == 32,
{
    Sha256::digest(data).to_vec()
}

/// Calls `hex::encode`: each byte as two lower-case hex digits, high nibble
/// first, in order.
#[verifier::external_body]
fn hex_encode(data: &[u8]) -> (r: String)
    ensures
        r@ == hex_lower(data@),
{
    hex::encode(data)
}

proof fn lemma_hex_pair_shape(b: u8)
    ensures
        hex_pair(b).len() == 2,
        is_lower_hex_char(hex_pair(b)[0]),
        is_lower_hex_char(hex_pair(b)[1]),
{
    assert(b / 16 < 16) by (nonlinear_arith);
}

proof fn lemma_hex_lower_shape(bytes: Seq<u8>)
    ensures
        hex_lower(bytes).len() == 2 * bytes.len(),
        forall|i: int| 0 <= i < hex_lower(bytes).len() ==> #[trigger] is_lower_hex_char(hex_lower(bytes)[i]),
    decreases bytes.len(),
{
    if bytes.len() > 0 {
        lemma_hex_pair_shape(bytes[0]);
        lemma_hex_lower_shape(bytes.drop_first());
        let p = hex_pair(bytes[0]);
        let rest = hex_lower(bytes.drop_first());
        assert forall|i: int| 0 <= i < hex_lower(bytes).len() implies #[trigger] is_lower_hex_char(hex_lower(bytes)[i]) by {
            if i < 2 {
                assert(hex_lower(bytes)[i] == p[i]);
            } else {
                assert(hex_lower(bytes)[i] == rest[i - 2]);
            }
        }
    }
}

/// The build id for a run that started at `secs`.
pub fn derive_build_id(secs: u64) -> (r: String)
    ensures
        r@ == derived_build_id(secs),
        is_bundle_hash(r@),
{
    let bytes = vstd::bytes::u64_to_le_bytes(secs);
    let digest = sha256(bytes.as_slice());
    let prefix = vstd::slice::slice_subrange(digest.as_slice(), 0, 4);
    assert(prefix@ =~= sha256_of(spec_u64_to_le_bytes(secs)).take(4));
    proof {
        lemma_hex_lower_shape(prefix@);
    }
    hex_encode(prefix)
}

/// The build id for a run starting now: derived from the current time.
pub fn fresh_build_id() -> (r: String)
    ensures
        exists|t: SystemTime| r@ == #[trigger] derived_build_id(clock_secs(t)),
        is_bundle_hash(r@),
{
    let secs = now_secs();
    let r = derive_build_id(secs);
    proof {
        let t = choose|t: SystemTime| secs == clock_secs(t);
        assert(r@ == derived_build_id(clock_secs(t)));
    }
    r
}

/// The build id to serve: the pinned one when given, else one derived from
/// the current time.
pub fn resolve_build_id(pinned: Option<String>) -> (r: String)
    ensures
        pinned matches Some(p) ==> r@ == p@,
        pinned is None ==> exists|t: SystemTime| r@ == #[trigger] derived_build_id(clock_secs(t)),
        pinned is None ==> is_bundle_hash(r@),
{
    match pinned {
        Some(p) => p,
        None => fresh_build_id(),
    }
}

} // verus!
