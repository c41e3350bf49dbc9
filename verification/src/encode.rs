//! Text encodings used for partition keys and binary payload fields.
//!
//! Binary fields (public keys, owners, signatures, block hashes) travel as
//! base-58 text; raw account payload bytes travel as base-64 text. Both
//! encodings come from outside crates; their results are named here and the
//! rest of the library speaks of those names.

use base64::Engine;
use vstd::prelude::*;

verus! {

/// Base-58 text of a byte string; a function of the bytes alone.
pub uninterp spec fn b58_of(bytes: Seq<u8>) -> Seq<char>;

/// Base-64 text of a byte string (standard alphabet, padded); a function of
/// the bytes alone.
pub uninterp spec fn b64_of(bytes: Seq<u8>) -> Seq<char>;

/// Relies on bs58::encode, whose result depends on the input bytes alone.
#[verifier::external_body]
pub fn b58_encode(bytes: &[u8]) -> (r: String)
    ensures
        r@ == b58_of(bytes@),
{
    bs58::encode(bytes).into_string()
}

/// Relies on base64's general-purpose STANDARD engine, whose result depends
/// on the input bytes alone.
#[verifier::external_body]
pub fn b64_encode(bytes: &[u8]) -> (r: String)
    ensures
        r@ == b64_of(bytes@),
{
    base64::engine::general_purpose::STANDARD.encode(bytes)
}

} // verus!
