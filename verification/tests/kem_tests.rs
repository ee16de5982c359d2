use ruption_quantum_encrypt::decapsulate;
use ruption_quantum_encrypt::derive_keys;
use ruption_quantum_encrypt::encapsulate;
use ruption_quantum_encrypt::keypair;
use ruption_quantum_encrypt::sim_mix;
use ruption_quantum_encrypt::TrueRandom;

#[test]
fn test_true_random() {
    let mut trng = TrueRandom::new();
    let rand1 = trng.generate(32);
    let rand2 = trng.generate(32);
    assert_eq!(rand1.len(), 32);
    assert_eq!(rand2.len(), 32);
    assert_ne!(rand1, rand2);
}

#[test]
fn test_encryption() {
    let (pk, sk) = keypair();
    let (ct, ss1) = encapsulate(&pk);
    let ss2 = decapsulate(&ct, &sk);
    assert_eq!(ss1.as_bytes(), ss2.as_bytes());

    let keys = derive_keys(&ss1, 3);
    assert_eq!(keys.len(), 3);
    assert_eq!(keys[0].len(), 32);
}

#[test]
fn generate_returns_requested_length() {
    let mut trng = TrueRandom::new();
    assert_eq!(trng.generate(0).len(), 0);
    assert_eq!(trng.generate(1).len(), 1);
    assert_eq!(trng.generate(31).len(), 31);
    assert_eq!(trng.generate(32).len(), 32);
    assert_eq!(trng.generate(33).len(), 33);
    assert_eq!(trng.generate(1000).len(), 1000);
}

#[test]
fn generate_successive_outputs_differ() {
    let mut trng = TrueRandom::new();
    let a = trng.generate(64);
    let b = trng.generate(64);
    assert_ne!(a, b);
}

#[test]
fn separate_generators_differ() {
    let mut t1 = TrueRandom::new();
    let mut t2 = TrueRandom::new();
    assert_ne!(t1.generate(32), t2.generate(32));
}

#[test]
fn quantum_sim_entropy_returns_sixteen_bytes() {
    let mut trng = TrueRandom::new();
    let sim = trng.quantum_sim_entropy();
    assert_eq!(sim.len(), 16);
}

#[test]
fn sim_mix_is_deterministic() {
    let mut pool: Vec<u8> = Vec::new();
    for i in 0..64u32 {
        pool.push((i * 37 % 256) as u8);
    }
    let a = sim_mix(&pool, 12345u64);
    let b = sim_mix(&pool, 12345u64);
    assert_eq!(a, b);
    assert_eq!(a.len(), 16);
}

#[test]
fn sim_mix_exact_values_on_constant_pools() {
    // An all-zero pool collapses the recurrence state to zero at once.
    let zero_pool = vec![0u8; 64];
    let z = sim_mix(&zero_pool, 0u64);
    assert_eq!(z, vec![0u8; 16]);

    // An all-one pool walks the state through 2^k - 1; once the state
    // exceeds a byte, every emitted low byte stays 0xff.
    let one_pool = vec![1u8; 64];
    let w = sim_mix(&one_pool, 0u64);
    assert_eq!(
        w,
        vec![1, 3, 7, 15, 31, 63, 127, 255, 255, 255, 255, 255, 255, 255, 255, 255]
    );
}

#[test]
fn decapsulate_with_unrelated_secret_key() {
    let (pk1, _sk1) = keypair();
    let (_pk2, sk2) = keypair();
    let (ct, ss1) = encapsulate(&pk1);
    let ss2 = decapsulate(&ct, &sk2);
    assert_eq!(ss1.as_bytes(), ss2.as_bytes());
}

#[test]
fn decapsulate_is_deterministic_in_ciphertext() {
    let (pk, sk) = keypair();
    let (_pk2, sk2) = keypair();
    let (ct, _ss) = encapsulate(&pk);
    let a = decapsulate(&ct, &sk);
    let b = decapsulate(&ct, &sk2);
    let c = decapsulate(&ct, &sk);
    assert_eq!(a.as_bytes(), b.as_bytes());
    assert_eq!(a.as_bytes(), c.as_bytes());
}

#[test]
fn encapsulate_yields_distinct_secrets() {
    // The shared secret is the digest of the ciphertext bytes, so distinct
    // secrets witness distinct ciphertexts as well.
    let (pk, _sk) = keypair();
    let mut seen: Vec<Vec<u8>> = Vec::new();
    for _ in 0..20usize {
        let (_ct, ss) = encapsulate(&pk);
        let bytes = ss.as_bytes().to_vec();
        for prev in &seen {
            assert_ne!(prev, &bytes);
        }
        seen.push(bytes);
    }
}

#[test]
fn full_protocol_scenario() {
    let (pk, sk) = keypair();
    let (ct, ss1) = encapsulate(&pk);
    let ss2 = decapsulate(&ct, &sk);
    assert_eq!(ss1.as_bytes().len(), 32);
    assert_eq!(ss2.as_bytes().len(), 32);
    assert_eq!(ss1.as_bytes(), ss2.as_bytes());

    let keys = derive_keys(&ss1, 3);
    assert_eq!(keys.len(), 3);
    for k in &keys {
        assert_eq!(k.len(), 32);
    }
    assert_ne!(keys[0], keys[1]);
    assert_ne!(keys[0], keys[2]);
    assert_ne!(keys[1], keys[2]);
}

#[test]
fn derive_keys_prefix_stable() {
    let (pk, _sk) = keypair();
    let (_ct, ss) = encapsulate(&pk);
    let k5 = derive_keys(&ss, 5);
    let k3 = derive_keys(&ss, 3);
    assert_eq!(&k5[0..3], k3.as_slice());
}

#[test]
fn derive_keys_deterministic_and_zero() {
    let (pk, _sk) = keypair();
    let (_ct, ss) = encapsulate(&pk);
    let a = derive_keys(&ss, 4);
    let b = derive_keys(&ss, 4);
    assert_eq!(a, b);
    let none = derive_keys(&ss, 0);
    assert!(none.is_empty());
}

#[test]
fn derived_key_differs_from_secret() {
    let (pk, _sk) = keypair();
    let (_ct, ss) = encapsulate(&pk);
    let keys = derive_keys(&ss, 1);
    assert_eq!(keys.len(), 1);
    assert_eq!(keys[0].len(), 32);
    assert_ne!(keys[0].as_slice(), ss.as_bytes());
}

#[test]
fn derive_keys_pairwise_distinct() {
    let (pk, _sk) = keypair();
    let (_ct, ss) = encapsulate(&pk);
    let keys = derive_keys(&ss, 8);
    assert_eq!(keys.len(), 8);
    for i in 0..8usize {
        assert_eq!(keys[i].len(), 32);
        for j in 0..i {
            assert_ne!(keys[i], keys[j]);
        }
    }
}
