//! The key-encapsulation surface: key containers, encapsulation and
//! decapsulation, and the hash binding between ciphertext and shared
//! secret.

use crate::bytes::append_bytes;
use crate::bytes::copy_bytes;
use crate::hash::sha3_256_digest;
use crate::hash::sha3_256_of;
use crate::rng::TrueRandom;
use vstd::prelude::*;

verus! {

/// Side length of the public matrix and length of the lattice components.
pub const LATTICE_DIM: usize = 256;

/// Length of the public code generator and of the code cipher component.
pub const CODE_LENGTH: usize = 512;

/// Public key: a square byte matrix and a flat code generator sequence.
/// Both are opaque random blobs; no operation reads their contents.
pub struct PublicKey {
    lattice_matrix: Vec<Vec<u8>>,
    code_generator: Vec<u8>,
}

impl View for PublicKey {
    type V = (Seq<Seq<u8>>, Seq<u8>);

    closed spec fn view(&self) -> (Seq<Seq<u8>>, Seq<u8>) {
        (
            Seq::new(self.lattice_matrix@.len(), |i: int| self.lattice_matrix@[i]@),
            self.code_generator@,
        )
    }
}

impl PublicKey {
    /// The matrix is square with side `LATTICE_DIM`, and the code
    /// generator holds `CODE_LENGTH` bytes.
    pub open spec fn wf(&self) -> bool {
        &&& self@.0.len() == LATTICE_DIM
        &&& forall|i: int| 0 <= i < LATTICE_DIM ==> (#[trigger] self@.0[i]).len() == LATTICE_DIM
        &&& self@.1.len() == CODE_LENGTH
    }
}

/// Secret key: a code component of `CODE_LENGTH / 8` bytes and a lattice
/// component of `LATTICE_DIM` bytes. Opaque; no operation reads it.
pub struct SecretKey {
    lattice_secret: Vec<u8>,
    code_secret: Vec<u8>,
}

impl View for SecretKey {
    type V = (Seq<u8>, Seq<u8>);

    closed spec fn view(&self) -> (Seq<u8>, Seq<u8>) {
        (self.lattice_secret@, self.code_secret@)
    }
}

impl SecretKey {
    /// The lattice component holds `LATTICE_DIM` bytes and the code
    /// component `CODE_LENGTH / 8` bytes.
    pub open spec fn wf(&self) -> bool {
        &&& self@.0.len() == LATTICE_DIM
        &&& self@.1.len() == CODE_LENGTH / 8
    }
}

/// Ciphertext: a lattice component and a code component, drawn fresh and
/// independently at each encapsulation.
pub struct Ciphertext {
    lattice_cipher: Vec<u8>,
    code_cipher: Vec<u8>,
}

impl View for Ciphertext {
    type V = (Seq<u8>, Seq<u8>);

    closed spec fn view(&self) -> (Seq<u8>, Seq<u8>) {
        (self.lattice_cipher@, self.code_cipher@)
    }
}

impl Ciphertext {
    /// The lattice component holds `LATTICE_DIM` bytes and the code
    /// component `CODE_LENGTH` bytes.
    pub open spec fn wf(&self) -> bool {
        &&& self@.0.len() == LATTICE_DIM
        &&& self@.1.len() == CODE_LENGTH
    }
}

/// The shared secret that a ciphertext determines: the SHA3-256 digest of
/// its lattice component followed by its code component.
pub open spec fn shared_secret_spec(lattice: Seq<u8>, code: Seq<u8>) -> Seq<u8> {
    sha3_256_of(lattice + code)
}

/// A 32-byte shared secret, wrapped so that it cannot be mistaken for a
/// plain byte buffer.
pub struct SharedSecret(Vec<u8>);

impl View for SharedSecret {
    type V = Seq<u8>;

    closed spec fn view(&self) -> Seq<u8> {
        self.0@
    }
}

impl SharedSecret {
    /// A shared secret always holds exactly 32 bytes.
    pub open spec fn wf(&self) -> bool {
        self@.len() == 32
    }

    /// Returns the raw secret bytes, for comparison or downstream use.
    pub fn as_bytes(&self) -> (r: &[u8])
        ensures
            r@ == self@,
    {
        self.0.as_slice()
    }

    /// The secret bytes as a vector reference, for in-crate hashing.
    pub(crate) fn raw(&self) -> (r: &Vec<u8>)
        ensures
            r@ == self@,
    {
        &self.0
    }
}

/// Generates a keypair from a fresh entropy generator: a secret lattice
/// component, a public square matrix made of one repeated fresh row, a
/// secret code component, and a public code generator, drawn in that
/// order. All matrix rows are identical, by design.
pub fn keypair() -> (r: (PublicKey, SecretKey))
    ensures
        r.0.wf(),
        r.1.wf(),
        forall|i: int, j: int|
            0 <= i < LATTICE_DIM && 0 <= j < LATTICE_DIM ==> r.0@.0[i] == r.0@.0[j],
{
    let mut trng = TrueRandom::new();

    let lattice_secret = trng.generate(LATTICE_DIM);
    let row = trng.generate(LATTICE_DIM);
    let mut lattice_matrix: Vec<Vec<u8>> = Vec::new();
    let mut i: usize = 0;
    while i < LATTICE_DIM
        invariant
            i <= LATTICE_DIM,
            lattice_matrix@.len() == i,
            forall|k: int| 0 <= k < i ==> (#[trigger] lattice_matrix@[k])@ == row@,
        decreases LATTICE_DIM - i,
    {
        lattice_matrix.push(copy_bytes(&row));
        i += 1;
    }

    let code_secret = trng.generate(CODE_LENGTH / 8);
    let code_generator = trng.generate(CODE_LENGTH);

    let pk = PublicKey { lattice_matrix, code_generator };
    let sk = SecretKey { lattice_secret, code_secret };
    (pk, sk)
}

/// Encapsulation: draws a fresh lattice component and code component from
/// a new entropy generator, and binds them to a shared secret equal to the
/// SHA3-256 digest of their concatenation. The public key is accepted but
/// its contents are never read.
pub fn encapsulate(_pk: &PublicKey) -> (r: (Ciphertext, SharedSecret))
    ensures
        r.0.wf(),
        r.1.wf(),
        r.1@ == shared_secret_spec(r.0@.0, r.0@.1),
{
    let mut trng = TrueRandom::new();

    let lattice_cipher = trng.generate(LATTICE_DIM);
    let code_cipher = trng.generate(CODE_LENGTH);

    let mut joined = copy_bytes(&lattice_cipher);
    append_bytes(&mut joined, &code_cipher);
    let shared_secret = SharedSecret(sha3_256_digest(&joined));

    (Ciphertext { lattice_cipher, code_cipher }, shared_secret)
}

/// Decapsulation: recomputes the SHA3-256 digest of the ciphertext's two
/// components. The result depends on the ciphertext bytes alone; the
/// secret key is accepted but never read.
pub fn decapsulate(ct: &Ciphertext, _sk: &SecretKey) -> (ss: SharedSecret)
    ensures
        ss.wf(),
        ss@ == shared_secret_spec(ct@.0, ct@.1),
{
    let mut joined = copy_bytes(&ct.lattice_cipher);
    append_bytes(&mut joined, &ct.code_cipher);
    SharedSecret(sha3_256_digest(&joined))
}

/// Law: a shared secret produced at encapsulation is recovered exactly by
/// decapsulation of the same ciphertext. No secret key appears here at
/// all: both sides are the digest that the ciphertext bytes determine, so
/// the law holds whichever secret key — matching or unrelated — a caller
/// hands to decapsulation.
pub proof fn lemma_decapsulation_matches_encapsulation(
    ct: Ciphertext,
    ss_enc: SharedSecret,
    ss_dec: SharedSecret,
)
    requires
        ss_enc@ == shared_secret_spec(ct@.0, ct@.1),
        ss_dec@ == shared_secret_spec(ct@.0, ct@.1),
    ensures
        ss_enc@ == ss_dec@,
{
}

/// Law: decapsulation is a pure function of the ciphertext alone:
/// bit-identical ciphertexts determine equal shared secrets.
pub proof fn lemma_decapsulation_is_pure(ct1: Ciphertext, ct2: Ciphertext)
    requires
        ct1@ == ct2@,
    ensures
        shared_secret_spec(ct1@.0, ct1@.1) == shared_secret_spec(ct2@.0, ct2@.1),
{
}

} // verus!
