use laddercast::enums::{EquipmentType, ItemFeature, ItemRarity, SpellType};
use laddercast::items::{
    generate_new_equipment, generate_new_spell_book, get_item_percentage_value, get_item_rarity,
    get_item_resource_value, get_name_for_mint, get_spell_book_value, Item, ItemType,
};
use laddercast::keys::Pubkey;
use laddercast::rng::RandomGenerator;

fn slot_hashes() -> Vec<u8> {
    (0..512 * 40).map(|i| ((i * 31 + 7) % 251) as u8).collect()
}

fn blank_item() -> Item {
    Item {
        game: Pubkey::new([0; 32]),
        owner: Pubkey::new([0; 32]),
        level: 0,
        item_type: ItemType::Zombie,
        equipped_owner: None,
    }
}

#[test]
fn test_get_item_resource_value_is_epic() {
    let mut rand = RandomGenerator::new(&slot_hashes(), Pubkey::new([5; 32]));

    for _i in 0..4 {
        let value = get_item_resource_value(ItemRarity::Epic, 2, &mut rand);
        assert!((41..=60).contains(&value));
    }
}

#[test]
fn test_get_item_percentage_value_is_common() {
    let mut rand = RandomGenerator::new(&slot_hashes(), Pubkey::new([6; 32]));

    for _i in 0..4 {
        let value = get_item_percentage_value(ItemRarity::Common, 4, &mut rand);
        assert!((100..=233).contains(&value));
    }

    for _i in 0..4 {
        let value = get_item_percentage_value(ItemRarity::Epic, 20, &mut rand);
        assert!((300..=966).contains(&value));
    }
}

#[test]
fn test_get_item_rarity() {
    let mut rand = RandomGenerator::new(&slot_hashes(), Pubkey::new([7; 32]));

    let rarity = get_item_rarity(&mut rand);

    assert!(matches!(
        rarity,
        ItemRarity::Common | ItemRarity::Rare | ItemRarity::Epic | ItemRarity::Legendary
    ));
}

#[test]
fn rarity_table_thresholds() {
    // A byte b gives the roll b % 100 + 1.
    let cases = [(79u8, ItemRarity::Common), (80, ItemRarity::Rare), (94, ItemRarity::Rare), (95, ItemRarity::Epic), (98, ItemRarity::Epic), (99, ItemRarity::Legendary)];
    for (byte, expected) in cases {
        let mut hash = [0u8; 32];
        hash[0] = byte;
        let mut rand = RandomGenerator { offset: 0, hash };
        assert_eq!(get_item_rarity(&mut rand), expected);
    }
}

#[test]
fn spell_book_value_formula() {
    // (cost * (odds - 1) + 4 * average) * multiplier
    assert_eq!(get_spell_book_value(5, ItemRarity::Common, 1), 55);
    assert_eq!(get_spell_book_value(10, ItemRarity::Legendary, 2), 300);
    assert_eq!(get_spell_book_value(10, ItemRarity::Epic, 0), 0);
}

#[test]
fn resource_value_from_known_bytes() {
    // Rare, level 3: range [31, 60], width 30. Bytes 0,0 read 0 in either order.
    let mut rand = RandomGenerator { offset: 0, hash: [0u8; 32] };
    assert_eq!(get_item_resource_value(ItemRarity::Rare, 3, &mut rand), 31);
}

#[test]
fn equipment_generation_from_known_bytes() {
    let mut hash = [0u8; 32];
    hash[0] = 2; // feature index 2 % 5: Fire
    hash[2] = 1; // value bytes (0, 1)
    hash[3] = 1; // slot index 1 % 3: Robe
    let mut rand = RandomGenerator { offset: 0, hash };
    let mut item = blank_item();
    generate_new_equipment(&mut item, Pubkey::new([1; 32]), Pubkey::new([2; 32]), 4, Some(ItemRarity::Epic), &mut rand);
    assert_eq!(rand.offset, 4);
    assert_eq!(item.level, 4);
    assert!(item.equipped_owner.is_none());
    match item.item_type {
        ItemType::Equipment { feature, rarity, equipment_type, value } => {
            assert_eq!(feature, ItemFeature::Fire);
            assert_eq!(rarity, ItemRarity::Epic);
            assert_eq!(equipment_type, EquipmentType::Robe);
            // Epic elemental, level 4: [81, 120]; the value bytes (0, 1) read 256 or 1.
            assert!(value == 97 || value == 82);
        }
        _ => panic!("not equipment"),
    }
}

#[test]
fn spell_book_generation_from_known_bytes() {
    let mut hash = [0u8; 32];
    hash[0] = 3; // spell 3 % 6: Experience
    hash[1] = 1; // cost feature 1 % 3 + 2 = 3: Earth
    hash[2] = 99; // roll 100: Legendary
    let mut rand = RandomGenerator { offset: 0, hash };
    let mut item = blank_item();
    generate_new_spell_book(&mut item, Pubkey::new([1; 32]), Pubkey::new([2; 32]), 2, &mut rand);
    assert_eq!(rand.offset, 3);
    match item.item_type {
        ItemType::SpellBook { spell, cost_feature, rarity, cost, value } => {
            assert_eq!(spell, SpellType::Experience);
            assert_eq!(cost_feature, ItemFeature::Earth);
            assert_eq!(rarity, ItemRarity::Legendary);
            assert_eq!(cost, 10);
            assert_eq!(value, 300);
        }
        _ => panic!("not a spell book"),
    }
}

#[test]
fn names_for_mint() {
    assert_eq!(get_name_for_mint(&ItemType::Chest { tier: 1 }).unwrap(), "Chest");
    assert!(get_name_for_mint(&ItemType::Zombie).is_none());
    assert_eq!(ItemType::Chest { tier: 2 }.kind_name(), "combined");
}
