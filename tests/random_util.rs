use std::collections::HashMap;

use laddercast::keys::Pubkey;
use laddercast::enums::ItemFeature;
use laddercast::rng::{fit_u16, fit_u64, fit_u8, FromNE, RandomGenerator};
use laddercast::tile::TileType;

fn slot_hashes() -> Vec<u8> {
    (0..512 * 40).map(|i| ((i * 31 + 7) % 251) as u8).collect()
}

#[test]
fn test_randomness_on_u8() {
    let mut hash_map: HashMap<u8, u8> = HashMap::new();

    let mut rand = RandomGenerator::new(&slot_hashes(), Pubkey::new([11; 32]));

    for _i in 0..20 {
        let random: u8 = rand.random_u8();

        hash_map.entry(random).and_modify(|e| *e += 1).or_insert(1);
    }

    let mut total_number: u16 = 0;

    for value in hash_map.values() {
        assert!(*value <= 10);

        total_number += *value as u16;
    }

    assert_eq!(total_number, 20);
}

#[test]
fn test_randomness_on_u8_with_range() {
    let mut hash_map: HashMap<u8, u8> = HashMap::new();

    let mut rand = RandomGenerator::new(&slot_hashes(), Pubkey::new([12; 32]));

    for _i in 0..20 {
        let random: u8 = rand.random_within_range_u8(1, 2);

        hash_map.entry(random).and_modify(|e| *e += 1).or_insert(1);
    }

    let mut total_number: u16 = 0;

    for key in hash_map.keys() {
        assert!(*key >= 1 && *key <= 2);

        total_number += *hash_map.get(key).unwrap() as u16;
    }

    assert_eq!(total_number, 20);
}

#[test]
fn seed_is_a_digest_of_window_and_key() {
    let slots = slot_hashes();
    let a = RandomGenerator::new(&slots, Pubkey::new([1; 32]));
    let b = RandomGenerator::new(&slots, Pubkey::new([2; 32]));
    let c = RandomGenerator::new(&slots, Pubkey::new([1; 32]));
    assert_eq!(a.offset, 0);
    assert_ne!(a.hash, b.hash);
    assert_eq!(a.hash, c.hash);
    assert_ne!(&a.hash[..], &slots[8..40]);
    // Bytes outside [8, 64) do not matter.
    let mut other = slots.clone();
    other[0] = other[0].wrapping_add(1);
    other[64] = other[64].wrapping_add(1);
    assert_eq!(RandomGenerator::new(&other, Pubkey::new([1; 32])).hash, a.hash);
    other[8] = other[8].wrapping_add(1);
    assert_ne!(RandomGenerator::new(&other, Pubkey::new([1; 32])).hash, a.hash);
}

#[test]
fn cursor_moves_by_the_width_of_each_draw() {
    let mut hash = [0u8; 32];
    for (i, b) in hash.iter_mut().enumerate() {
        *b = i as u8 + 1;
    }
    let mut rand = RandomGenerator { offset: 0, hash };
    let v = rand.random_u16();
    assert!(v == 0x0201 || v == 0x0102);
    assert_eq!(rand.offset, 2);
    assert_eq!(rand.random_u8(), 3);
    let w = rand.random_u64();
    assert!(w == u64::from_le_bytes([4, 5, 6, 7, 8, 9, 10, 11]) || w == u64::from_be_bytes([4, 5, 6, 7, 8, 9, 10, 11]));
    assert_eq!(rand.offset, 11);
}

#[test]
fn range_is_modulo_then_offset() {
    assert_eq!(fit_u8(200, 1, 100), 1);
    assert_eq!(fit_u8(255, 0, 10), 2);
    assert_eq!(fit_u16(10000, 100, 10000), 100 + 10000 % 9901);
    assert_eq!(fit_u64(7, 1, 7), 1);
    assert_eq!(fit_u64(6, 1, 7), 7);
}

#[test]
fn range_stays_within_bounds_on_every_byte() {
    for b in 0..=255u8 {
        let mut hash = [0u8; 32];
        hash[0] = b;
        let mut rand = RandomGenerator { offset: 0, hash };
        let v = rand.random_within_range_u8(3, 6);
        assert!((3..=6).contains(&v));
    }
}

#[test]
fn native_endian_reads() {
    assert_eq!(<u8 as FromNE<1>>::from_ne_bytes([7]), 7);
    assert_eq!(<u16 as FromNE<2>>::from_ne_bytes([1, 2]), u16::from_ne_bytes([1, 2]));
    assert_eq!(<u64 as FromNE<8>>::from_ne_bytes([1, 0, 0, 0, 0, 0, 0, 0]), u64::from_ne_bytes([1, 0, 0, 0, 0, 0, 0, 0]));
    assert_ne!(<u16 as FromNE<2>>::from_ne_bytes([1, 2]), 0);
}

#[test]
fn generic_draw_and_enum_draws() {
    enum_draws_from_known_bytes();
}

fn enum_draws_from_known_bytes() {
    let mut hash = [0u8; 32];
    hash[0] = 9;
    hash[1] = 4;
    hash[2] = 4;
    hash[3] = 7;
    let mut rand = RandomGenerator { offset: 0, hash };
    let v: u16 = rand.random::<u16, 2>();
    assert_eq!(v, u16::from_ne_bytes([9, 4]));
    assert_eq!(rand.offset, 2);
    // 4 % 5 = 4: the last tile type.
    assert_eq!(rand.random_enum::<TileType>(), TileType::Legendary);
    // 7 % 3 + 2 = 3: Earth.
    assert_eq!(rand.random_enum_within_range::<ItemFeature>(2, 4), ItemFeature::Earth);
    assert_eq!(rand.offset, 4);
}
