//! Trusted entry points to the MAC and digest primitives the request
//! signers build on. Each result is named by an uninterpreted spec
//! function: the library states nothing about the bytes beyond their
//! length and that equal inputs give equal outputs.

use vstd::prelude::*;
use hmac::Mac;
use sha2::Digest;

verus! {

pub uninterp spec fn hmac_sha256_of(key: Seq<u8>, data: Seq<u8>) -> Seq<u8>;

/// Relies on `hmac::Hmac<sha2::Sha256>`: the HMAC-SHA256 tag of `data`
/// under `key`, 32 bytes, a function of the two inputs alone. Any key
/// length is accepted.
#[verifier::external_body]
pub fn hmac_sha256(key: &[u8], data: &[u8]) -> (r: Vec<u8>)
    ensures
        r@ == hmac_sha256_of(key@, data@),
        r@.len() == 32,
{
    let mut mac = <hmac::Hmac<sha2::Sha256> as Mac>::new_from_slice(key)
        .expect("hmac can take key of any size");
    mac.update(data);
    mac.finalize().into_bytes().to_vec()
}

pub uninterp spec fn hmac_sha1_of(key: Seq<u8>, data: Seq<u8>) -> Seq<u8>;

/// Relies on `hmac::Hmac<sha1::Sha1>`: the HMAC-SHA1 tag of `data`
/// under `key`, 20 bytes, a function of the two inputs alone. Any key
/// length is accepted.
#[verifier::external_body]
pub fn hmac_sha1(key: &[u8], data: &[u8]) -> (r: Vec<u8>)
    ensures
        r@ == hmac_sha1_of(key@, data@),
        r@.len() == 20,
{
    let mut mac = <hmac::Hmac<sha1::Sha1> as Mac>::new_from_slice(key)
        .expect("hmac can take key of any size");
    mac.update(data);
    mac.finalize().into_bytes().to_vec()
}

pub uninterp spec fn sha256_of(data: Seq<u8>) -> Seq<u8>;

/// Relies on `sha2::Sha256`: the SHA-256 digest, 32 bytes, a function
/// of the data alone.
#[verifier::external_body]
pub fn sha256(data: &[u8]) -> (r: Vec<u8>)
    ensures
        r@ == sha256_of(data@),
        r@.len() == 32,
{
    sha2::Sha256::digest(data).to_vec()
}

/// Relies on `rand::random`: a fresh 128-bit value rendered in
/// lowercase hexadecimal; nothing is promised beyond its length range.
#[verifier::external_body]
pub fn random_nonce_hex() -> (r: String)
    ensures
        1 <= r@.len() <= 32,
{
    format!("{:x}", rand::random::<u128>())
}

} // verus!
