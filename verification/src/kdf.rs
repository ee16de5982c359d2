//! Key derivation: expansion of a shared secret into ordered 32-byte
//! subkeys through the SHAKE256 output stream.

use crate::hash::shake256_byte;
use crate::hash::shake256_read;
use crate::kem::SharedSecret;
use vstd::prelude::*;

verus! {

/// Subkey `k` of a shared secret: the `k`-th 32-byte block of the
/// SHAKE256 stream seeded with the secret bytes.
pub open spec fn derived_key_spec(ss: Seq<u8>, k: int) -> Seq<u8> {
    Seq::new(32, |j: int| shake256_byte(ss, (32 * k + j) as nat))
}

/// The ordered sequence of the first `n` subkeys of a shared secret.
pub open spec fn derived_keys_spec(ss: Seq<u8>, n: nat) -> Seq<Seq<u8>> {
    Seq::new(n, |k: int| derived_key_spec(ss, k))
}

/// Expands a shared secret into `num_keys` subkeys of 32 bytes each:
/// subkey `k` is always the `k`-th 32-byte block of the SHAKE256 stream
/// seeded with the secret, whatever the total count requested. The bound
/// on `num_keys` only keeps the total byte count within a machine word.
pub fn derive_keys(shared_secret: &SharedSecret, num_keys: usize) -> (keys: Vec<Vec<u8>>)
    requires
        num_keys <= usize::MAX / 32,
    ensures
        keys@.len() == num_keys,
        forall|k: int| 0 <= k < num_keys ==> (#[trigger] keys@[k])@.len() == 32,
        forall|k: int|
            0 <= k < num_keys ==> (#[trigger] keys@[k])@ == derived_key_spec(shared_secret@, k),
{
    let total: usize = num_keys * 32;
    let stream = shake256_read(shared_secret.raw(), total);
    let mut keys: Vec<Vec<u8>> = Vec::new();
    let mut k: usize = 0;
    while k < num_keys
        invariant
            k <= num_keys,
            num_keys <= usize::MAX / 32,
            total == num_keys * 32,
            stream@.len() == total,
            forall|i: int|
                0 <= i < total ==> stream@[i] == shake256_byte(shared_secret@, i as nat),
            keys@.len() == k,
            forall|t: int|
                0 <= t < k ==> (#[trigger] keys@[t])@ == derived_key_spec(shared_secret@, t),
        decreases num_keys - k,
    {
        let start: usize = k * 32;
        let mut key: Vec<u8> = Vec::new();
        let mut j: usize = 0;
        while j < 32
            invariant
                j <= 32,
                k < num_keys,
                start == k * 32,
                total == num_keys * 32,
                stream@.len() == total,
                forall|i: int|
                    0 <= i < total ==> stream@[i] == shake256_byte(shared_secret@, i as nat),
                key@.len() == j,
                forall|t: int|
                    0 <= t < j ==> key@[t] == shake256_byte(shared_secret@, (start + t) as nat),
            decreases 32 - j,
        {
            key.push(stream[start + j]);
            j += 1;
        }
        assert(key@ =~= derived_key_spec(shared_secret@, k as int));
        keys.push(key);
        k += 1;
    }
    keys
}

/// Law: key derivation is prefix-stable in the requested count: asking
/// for `n` subkeys and keeping the first `m` yields exactly the subkeys
/// of a request for `m`.
pub proof fn lemma_derive_keys_prefix_stable(ss: Seq<u8>, m: nat, n: nat)
    requires
        m <= n,
    ensures
        derived_keys_spec(ss, n).take(m as int) == derived_keys_spec(ss, m),
{
    assert(derived_keys_spec(ss, n).take(m as int) =~= derived_keys_spec(ss, m));
}

} // verus!
