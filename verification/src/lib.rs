//! A key-encapsulation-shaped library backed by a software entropy
//! generator and SHA-3 primitives.
//!
//! The entropy generator mixes an OS-seeded pool with clock jitter and a
//! deterministic nonlinear recurrence, then expands the pool through
//! SHA3-256 and SHAKE256. The encapsulation protocol binds a ciphertext to
//! its shared secret by a hash of the ciphertext bytes, and the key
//! derivation function expands a shared secret into 32-byte subkeys.

mod bytes;
mod hash;
mod kdf;
mod kem;
mod platform;
mod rng;

pub use kdf::derive_keys;
pub use kdf::derived_key_spec;
pub use kdf::derived_keys_spec;
pub use kdf::lemma_derive_keys_prefix_stable;
pub use kem::decapsulate;
pub use kem::encapsulate;
pub use kem::keypair;
pub use kem::lemma_decapsulation_is_pure;
pub use kem::lemma_decapsulation_matches_encapsulation;
pub use kem::shared_secret_spec;
pub use kem::Ciphertext;
pub use kem::PublicKey;
pub use kem::SecretKey;
pub use kem::SharedSecret;
pub use kem::CODE_LENGTH;
pub use kem::LATTICE_DIM;
pub use rng::expand_digest;
pub use rng::lemma_successive_generate_pools_differ;
pub use rng::sim_bytes;
pub use rng::sim_mix;
pub use rng::TrueRandom;
