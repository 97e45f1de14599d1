use chain_ratchet::chain::{ChainKey, RemoteChainKey};
use chain_ratchet::kdf::{derive_message_material, derive_next_secret};
use chain_ratchet::keys::RatchetPublicKey;

fn sample_seeds() -> Vec<[u8; 32]> {
    let mut seeds: Vec<[u8; 32]> = vec![[0u8; 32], [0xffu8; 32], [0x42u8; 32]];
    let mut counting = [0u8; 32];
    for (i, byte) in counting.iter_mut().enumerate() {
        *byte = i as u8;
    }
    seeds.push(counting);
    let mut mixed = [0u8; 32];
    for (i, byte) in mixed.iter_mut().enumerate() {
        *byte = (i as u8).wrapping_mul(37).wrapping_add(11);
    }
    seeds.push(mixed);
    seeds
}

#[test]
fn determinism_same_seed_same_sequence() {
    for seed in sample_seeds() {
        let mut a = ChainKey::new(seed);
        let mut b = ChainKey::new(seed);
        let pk = RatchetPublicKey::from_bytes([7u8; 32]);
        for _ in 0..8 {
            let ka = a.create_message_key(pk);
            let kb = b.create_message_key(pk);
            assert_eq!(ka.index(), kb.index());
            assert_eq!(ka.key_material(), kb.key_material());
        }
    }
}

#[test]
fn sender_and_receiver_derive_the_same_keys() {
    for seed in sample_seeds() {
        let mut sender = ChainKey::new(seed);
        let mut receiver = RemoteChainKey::new(seed);
        let pk = RatchetPublicKey::from_bytes([9u8; 32]);
        for _ in 0..8 {
            let sent = sender.create_message_key(pk);
            let received = receiver.create_message_key();
            assert_eq!(sent.index(), received.index());
            assert_eq!(sent.key_material(), received.key_material());
        }
    }
}

#[test]
fn monotonic_index_counts_every_call() {
    let seed = [3u8; 32];
    let mut chain = ChainKey::new(seed);
    let pk = RatchetPublicKey::from_bytes([1u8; 32]);
    assert_eq!(chain.chain_index(), 0);
    for expected in 0..10u64 {
        assert_eq!(chain.chain_index(), expected);
        let key = chain.create_message_key(pk);
        assert_eq!(key.index(), expected);
        assert_eq!(chain.chain_index(), expected + 1);
    }
    let mut remote = RemoteChainKey::new(seed);
    for expected in 0..10u64 {
        assert_eq!(remote.chain_index(), expected);
        let key = remote.create_message_key();
        assert_eq!(key.index(), expected);
        assert_eq!(remote.chain_index(), expected + 1);
    }
}

#[test]
fn monotonic_index_from_restored_position() {
    let seed = [5u8; 32];
    let mut chain = ChainKey::new(seed);
    for _ in 0..4 {
        chain.advance();
    }
    assert_eq!(chain.chain_index(), 4);
    let mut restored = RemoteChainKey::from_bytes_and_index(seed, 42);
    assert_eq!(restored.chain_index(), 42);
    restored.advance();
    assert_eq!(restored.chain_index(), 43);
}

#[test]
fn restore_equivalence_three_ways() {
    let seed = [0x5au8; 32];
    let steps = 5usize;
    let pk = RatchetPublicKey::from_bytes([2u8; 32]);

    let mut fresh = ChainKey::new(seed);
    for _ in 0..steps {
        fresh.advance();
    }

    let mut restored_at_zero = ChainKey::from_bytes_and_index(seed, 0);
    for _ in 0..steps {
        restored_at_zero.advance();
    }

    let (secret_after_steps, index_after_steps) = fresh.to_parts();
    let mut restored_mid = ChainKey::from_bytes_and_index(
        secret_after_steps,
        index_after_steps as u32,
    );

    let key_fresh = fresh.create_message_key(pk);
    let key_zero = restored_at_zero.create_message_key(pk);
    let key_mid = restored_mid.create_message_key(pk);
    assert_eq!(key_fresh.index(), steps as u64);
    assert_eq!(key_fresh.index(), key_zero.index());
    assert_eq!(key_fresh.index(), key_mid.index());
    assert_eq!(key_fresh.key_material(), key_zero.key_material());
    assert_eq!(key_fresh.key_material(), key_mid.key_material());
}

#[test]
fn restore_equivalence_receiving_side() {
    let seed = [0xa5u8; 32];
    let steps = 3usize;

    let mut fresh = RemoteChainKey::new(seed);
    for _ in 0..steps {
        fresh.advance();
    }
    let (secret_after_steps, index_after_steps) = fresh.to_parts();
    let mut restored = RemoteChainKey::from_bytes_and_index(
        secret_after_steps,
        index_after_steps as u32,
    );

    let key_fresh = fresh.create_message_key();
    let key_restored = restored.create_message_key();
    assert_eq!(key_fresh.index(), key_restored.index());
    assert_eq!(key_fresh.key_material(), key_restored.key_material());
}

#[test]
fn domain_separation_distinct_outputs() {
    for seed in sample_seeds() {
        let material = derive_message_material(&seed);
        let next = derive_next_secret(&seed);
        assert_ne!(material, next);
    }
}

#[test]
fn derivations_change_the_input() {
    for seed in sample_seeds() {
        assert_ne!(derive_message_material(&seed), seed);
        assert_ne!(derive_next_secret(&seed), seed);
    }
}

#[test]
fn asymmetry_scenario_zero_seed() {
    let seed = [0u8; 32];
    let pubkey_a = RatchetPublicKey::from_bytes([0xaau8; 32]);
    let pubkey_b = RatchetPublicKey::from_bytes([0xbbu8; 32]);

    let mut chain = ChainKey::new(seed);
    let first = chain.create_message_key(pubkey_a);
    assert_eq!(first.index(), 0);
    assert_eq!(first.ratchet_key().to_bytes(), [0xaau8; 32]);
    assert_eq!(chain.chain_index(), 1);

    let second = chain.create_message_key(pubkey_b);
    assert_eq!(second.index(), 1);
    assert_eq!(second.ratchet_key().to_bytes(), [0xbbu8; 32]);
    assert_ne!(first.key_material(), second.key_material());
}

#[test]
fn advance_replaces_the_live_secret() {
    let seed = [0x11u8; 32];
    let mut chain = ChainKey::new(seed);
    let (before, _) = chain.to_parts();
    assert_eq!(before, seed);
    chain.advance();
    let (after, index) = chain.to_parts();
    assert_eq!(index, 1);
    assert_eq!(after, derive_next_secret(&seed));
    assert_ne!(after, seed);
}

#[test]
fn message_key_matches_primitive_derivation() {
    let seed = [0x33u8; 32];
    let pk = RatchetPublicKey::from_bytes([4u8; 32]);
    let mut chain = ChainKey::new(seed);
    let key = chain.create_message_key(pk);
    assert_eq!(key.key_material(), derive_message_material(&seed));
    let mut remote = RemoteChainKey::new(seed);
    let remote_key = remote.create_message_key();
    assert_eq!(remote_key.key_material(), derive_message_material(&seed));
}

#[test]
fn ratchet_public_key_round_trip() {
    let mut bytes = [0u8; 32];
    for (i, byte) in bytes.iter_mut().enumerate() {
        *byte = 255 - i as u8;
    }
    let key = RatchetPublicKey::from_bytes(bytes);
    assert_eq!(key.to_bytes(), bytes);
}

#[test]
fn restore_widens_a_full_range_index() {
    let seed = [0x77u8; 32];
    let mut chain = ChainKey::from_bytes_and_index(seed, u32::MAX);
    assert_eq!(chain.chain_index(), u32::MAX as u64);
    chain.advance();
    assert_eq!(chain.chain_index(), u32::MAX as u64 + 1);
}
