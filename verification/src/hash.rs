//! Trusted access to the SHA-3 hash primitives.
//!
//! The digests themselves are not restated here: each is given a name that
//! is a function of the input bytes alone, and the wrappers promise only
//! that the outside calls return that named value.

use sha3::Digest;
use vstd::prelude::*;

verus! {

/// The 32-byte SHA3-256 digest of `data`, as a function of the input bytes
/// alone; its value is left uninterpreted.
pub uninterp spec fn sha3_256_of(data: Seq<u8>) -> Seq<u8>;

/// Byte `i` of the unbounded SHAKE256 output stream seeded with `seed`, as
/// a function of the seed alone; its value is left uninterpreted.
pub uninterp spec fn shake256_byte(seed: Seq<u8>, i: nat) -> u8;

/// Relies on sha3::Sha3_256 through the Digest trait: the digest is 32
/// bytes long and depends on the input bytes alone.
#[verifier::external_body]
pub(crate) fn sha3_256_digest(data: &Vec<u8>) -> (r: Vec<u8>)
    ensures
        r@.len() == 32,
        r@ == sha3_256_of(data@),
{
    let mut hasher = sha3::Sha3_256::new();
    hasher.update(data.as_slice());
    hasher.finalize().to_vec()
}

/// Relies on sha3::Shake256 through the Update, ExtendableOutput and
/// XofReader traits: reading `len` bytes from the output stream yields the
/// first `len` bytes of a stream that depends on the seed alone.
#[verifier::external_body]
pub(crate) fn shake256_read(seed: &Vec<u8>, len: usize) -> (r: Vec<u8>)
    ensures
        r@.len() == len,
        forall|i: int| 0 <= i < len ==> r@[i] == shake256_byte(seed@, i as nat),
{
    let mut xof = sha3::Shake256::default();
    sha3::digest::Update::update(&mut xof, seed.as_slice());
    let mut reader = sha3::digest::ExtendableOutput::finalize_xof(xof);
    let mut out = vec![0u8; len];
    sha3::digest::XofReader::read(&mut reader, &mut out);
    out
}

} // verus!
