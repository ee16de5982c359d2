//! The entropy generator: an OS-seeded pool, mixed with clock jitter and a
//! deterministic nonlinear recurrence, and expanded through SHA-3.

use crate::bytes::append_bytes;
use crate::bytes::take_prefix;
use crate::hash::sha3_256_digest;
use crate::hash::sha3_256_of;
use crate::hash::shake256_byte;
use crate::hash::shake256_read;
use crate::platform::clock_now;
use crate::platform::elapsed_nanos;
use crate::platform::os_random_bytes;
use vstd::prelude::*;
use vstd::wrapping::u64_specs;

verus! {

/// The low byte of a 64-bit value.
pub open spec fn low_byte(x: u64) -> u8 {
    (x & 0xff) as u8
}

fn low_byte_ex(x: u64) -> (r: u8)
    ensures
        r == low_byte(x),
{
    assert(x & 0xff < 256) by (bit_vector);
    (x & 0xff) as u8
}

/// The pool position that the mixing recurrence reads at a given state:
/// the state, truncated to a machine word, modulo the pool length.
pub open spec fn sim_index(pool: Seq<u8>, state: u64) -> int
    recommends
        pool.len() > 0,
{
    (state as usize) as int % (pool.len() as int)
}

/// One step of the nonlinear mixing recurrence: the state is XORed with
/// the wrapping sum of itself and the pool byte it selects.
pub open spec fn sim_step(pool: Seq<u8>, state: u64) -> u64
    recommends
        pool.len() > 0,
{
    state ^ u64_specs::wrapping_add(state, pool[sim_index(pool, state)] as u64)
}

/// The recurrence state after `i` steps from `seed` over `pool`.
pub open spec fn sim_state_at(pool: Seq<u8>, seed: u64, i: nat) -> u64
    recommends
        pool.len() > 0,
    decreases i,
{
    if i == 0 {
        seed
    } else {
        sim_step(pool, sim_state_at(pool, seed, (i - 1) as nat))
    }
}

/// The 16 bytes that the mixing recurrence emits from `seed` over `pool`:
/// byte `i` is the low byte of the state after `i + 1` steps.
pub open spec fn sim_bytes(pool: Seq<u8>, seed: u64) -> Seq<u8>
    recommends
        pool.len() > 0,
{
    Seq::new(16, |i: int| low_byte(sim_state_at(pool, seed, (i + 1) as nat)))
}

/// Runs the nonlinear mixing recurrence: a deterministic, verified function
/// of the pool contents and the seed.
pub fn sim_mix(pool: &Vec<u8>, seed: u64) -> (r: Vec<u8>)
    requires
        pool@.len() > 0,
    ensures
        r@ == sim_bytes(pool@, seed),
        r@.len() == 16,
{
    let mut out: Vec<u8> = Vec::new();
    let mut state: u64 = seed;
    let mut k: usize = 0;
    while k < 16
        invariant
            pool@.len() > 0,
            k <= 16,
            out@.len() == k,
            state == sim_state_at(pool@, seed, k as nat),
            forall|i: int|
                0 <= i < k ==> out@[i] == low_byte(sim_state_at(pool@, seed, (i + 1) as nat)),
        decreases 16 - k,
    {
        let idx: usize = (state as usize) % pool.len();
        assert(idx == sim_index(pool@, state));
        let b: u8 = pool[idx];
        state = state ^ state.wrapping_add(b as u64);
        assert(state == sim_state_at(pool@, seed, (k + 1) as nat));
        out.push(low_byte_ex(state));
        k += 1;
    }
    assert(out@ =~= sim_bytes(pool@, seed));
    out
}

/// A generator of byte sequences approximating uniform randomness,
/// software-only: an entropy pool seeded from the operating system, grown
/// by clock jitter and by the mixing recurrence, and expanded through
/// SHA3-256 and SHAKE256.
pub struct TrueRandom {
    entropy_pool: Vec<u8>,
}

impl View for TrueRandom {
    type V = Seq<u8>;

    closed spec fn view(&self) -> Seq<u8> {
        self.entropy_pool@
    }
}

/// How a generate call expands the pool digest to the requested length:
/// a truncation of the digest where it suffices, the SHAKE256 stream
/// seeded with the digest where more is asked for.
pub open spec fn expand_digest(digest: Seq<u8>, len: nat) -> Seq<u8> {
    if len <= digest.len() {
        digest.take(len as int)
    } else {
        Seq::new(len as nat, |i: int| shake256_byte(digest, i as nat))
    }
}

impl TrueRandom {
    /// The pool holds at least its 64 seed bytes and never shrinks.
    pub open spec fn wf(&self) -> bool {
        self@.len() >= 64
    }

    /// Creates a generator whose pool holds 64 bytes from the operating
    /// system's secure random source; aborts if that source is missing.
    pub fn new() -> (r: TrueRandom)
        ensures
            r.wf(),
            r@.len() == 64,
    {
        TrueRandom { entropy_pool: os_random_bytes(64) }
    }

    /// Appends ten clock-jitter bytes to the pool.
    fn collect_jitter(&mut self)
        ensures
            final(self)@.len() == old(self)@.len() + 10,
            exists|jit: Seq<u8>| jit.len() == 10 && final(self)@ == old(self)@ + jit,
    {
        let mut jitter: Vec<u8> = Vec::new();
        let mut k: usize = 0;
        while k < 10
            invariant
                k <= 10,
                jitter@.len() == k,
            decreases 10 - k,
        {
            let start = clock_now();
            let e: u64 = elapsed_nanos(&start);
            jitter.push(low_byte_ex(e));
            k += 1;
        }
        append_bytes(&mut self.entropy_pool, &jitter);
        assert(jitter@.len() == 10 && self@ == old(self)@ + jitter@);
    }

    /// Emits 16 bytes of the nonlinear mixing recurrence, seeded with the
    /// current monotonic clock reading, over the current pool contents.
    /// The pool itself is left unchanged.
    pub fn quantum_sim_entropy(&mut self) -> (r: Vec<u8>)
        requires
            old(self).wf(),
        ensures
            final(self)@ == old(self)@,
            r@.len() == 16,
            exists|seed: u64| r@ == sim_bytes(old(self)@, seed),
    {
        let t = clock_now();
        let seed: u64 = elapsed_nanos(&t);
        let r = sim_mix(&self.entropy_pool, seed);
        assert(r@ == sim_bytes(old(self)@, seed));
        r
    }

    /// Returns exactly `len` bytes: the pool is grown by ten jitter bytes
    /// and then by the sixteen bytes the mixing recurrence emits over the
    /// jittered pool, the whole pool is hashed with SHA3-256, and the
    /// digest is truncated or expanded through SHAKE256 to the requested
    /// length. The old pool stays a strict prefix of the new one, so no
    /// two calls on one instance hash the same pool.
    pub fn generate(&mut self, len: usize) -> (r: Vec<u8>)
        requires
            old(self).wf(),
        ensures
            final(self).wf(),
            r@.len() == len,
            final(self)@.len() == old(self)@.len() + 26,
            old(self)@.is_prefix_of(final(self)@),
            exists|jit: Seq<u8>, seed: u64|
                jit.len() == 10 && final(self)@ == old(self)@ + jit + sim_bytes(
                    old(self)@ + jit,
                    seed,
                ),
            r@ == expand_digest(sha3_256_of(final(self)@), len as nat),
    {
        self.collect_jitter();
        let ghost jit: Seq<u8> = choose|j: Seq<u8>| j.len() == 10 && self@ == old(self)@ + j;
        let ghost mid: Seq<u8> = self@;
        let sim = self.quantum_sim_entropy();
        let ghost seed: u64 = choose|s: u64| sim@ == sim_bytes(mid, s);
        append_bytes(&mut self.entropy_pool, &sim);
        assert(self@ == old(self)@ + jit + sim_bytes(old(self)@ + jit, seed));
        assert(old(self)@ =~= self@.subrange(0, old(self)@.len() as int));
        let digest = sha3_256_digest(&self.entropy_pool);
        if len > digest.len() {
            let out = shake256_read(&digest, len);
            assert(out@ =~= expand_digest(sha3_256_of(self@), len as nat));
            out
        } else {
            let out = take_prefix(&digest, len);
            out
        }
    }
}

/// Law: two successive generate calls on one instance never hash the same
/// pool. Each call grows the pool by exactly 26 bytes, so the pool the
/// second call digests is longer than, and hence different from, the pool
/// the first call digested. That the returned byte sequences themselves
/// differ rests on the digest function, of which nothing is stated here.
pub proof fn lemma_successive_generate_pools_differ(
    pool_after_first: Seq<u8>,
    pool_after_second: Seq<u8>,
)
    requires
        pool_after_second.len() == pool_after_first.len() + 26,
    ensures
        pool_after_first != pool_after_second,
{
}

impl Default for TrueRandom {
    /// Same as `TrueRandom::new`: a generator seeded from the operating
    /// system's secure random source.
    fn default() -> (r: TrueRandom)
        ensures
            r.wf(),
            r@.len() == 64,
    {
        TrueRandom::new()
    }
}

} // verus!
