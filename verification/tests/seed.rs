use mpc_beacon::seed::{seed_from_hash, SEED_WORDS};

#[test]
fn seed_has_eight_words() {
    assert_eq!(SEED_WORDS, 8);
    assert_eq!(seed_from_hash(&[0u8; 32]).len(), 8);
}

#[test]
fn seed_words_are_big_endian() {
    let mut hash = [0u8; 32];
    for (i, byte) in hash.iter_mut().enumerate() {
        *byte = i as u8;
    }
    assert_eq!(
        seed_from_hash(&hash),
        [
            0x00010203, 0x04050607, 0x08090a0b, 0x0c0d0e0f, 0x10111213, 0x14151617, 0x18191a1b,
            0x1c1d1e1f,
        ]
    );
}

#[test]
fn seed_of_extreme_bytes() {
    assert_eq!(seed_from_hash(&[0u8; 32]), [0u32; 8]);
    assert_eq!(seed_from_hash(&[0xffu8; 32]), [0xffff_ffffu32; 8]);
    let mut hash = [0u8; 32];
    hash[0] = 0x80;
    hash[31] = 0x01;
    assert_eq!(seed_from_hash(&hash), [0x8000_0000, 0, 0, 0, 0, 0, 0, 1]);
}

#[test]
fn every_byte_of_the_hash_is_in_the_seed() {
    let mut hash = [0u8; 32];
    for (i, byte) in hash.iter_mut().enumerate() {
        *byte = (i as u8).wrapping_mul(37).wrapping_add(201);
    }
    let seed = seed_from_hash(&hash);
    let mut spelled = Vec::new();
    for word in seed.iter() {
        spelled.extend_from_slice(&word.to_be_bytes());
    }
    assert_eq!(&spelled[..], &hash[..]);
    // Changing any one byte changes the seed.
    for i in 0..32 {
        let mut other = hash;
        other[i] ^= 1;
        assert_ne!(seed_from_hash(&other), seed);
    }
}
