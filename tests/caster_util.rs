use laddercast::caster::{
    give_exp_to_caster_resources_burned, give_exp_to_caster_spell, is_spell_successful, Caster,
    Modifiers,
};
use laddercast::enums::ItemRarity;
use laddercast::keys::Pubkey;
use laddercast::rng::RandomGenerator;

fn slot_hashes() -> Vec<u8> {
    (0..512 * 40).map(|i| ((i * 31 + 7) % 251) as u8).collect()
}

fn create_caster_for_testing() -> Caster {
    Caster {
        version: 1,
        level: 1,
        experience: 0,
        turn_commit: None,
        modifiers: Modifiers {
            tile_level: 1,
            tile_column: 1,
            head: Some(Pubkey::new([1; 32])),
            robe: Some(Pubkey::new([2; 32])),
            staff: Some(Pubkey::new([3; 32])),
            spell_book: None,
        },
        owner: Pubkey::new([4; 32]),
    }
}

#[test]
fn test_give_exp_to_caster_resources_burned_no_level_up() {
    let mut caster = create_caster_for_testing();

    give_exp_to_caster_resources_burned(&mut caster, Some(10), Some(20), Some(30));

    assert_eq!(caster.experience, 60);
    assert_eq!(caster.level, 1)
}

#[test]
fn test_give_exp_to_caster_resources_burned_with_level_up() {
    let mut caster = create_caster_for_testing();

    give_exp_to_caster_resources_burned(&mut caster, Some(1600), None, None);

    assert_eq!(caster.experience, 1600);
    assert_eq!(caster.level, 2)
}

#[test]
fn test_give_exp_to_caster_resources_burned_with_level_up_but_already_max_level() {
    let mut caster = create_caster_for_testing();
    caster.level = 30;

    give_exp_to_caster_resources_burned(&mut caster, Some(2400), None, None);

    assert_eq!(caster.experience, 2400);
    assert_eq!(caster.level, 30)
}

#[test]
fn test_give_exp_to_caster_spell_no_level_up() {
    let mut caster = create_caster_for_testing();

    give_exp_to_caster_spell(&mut caster, 10);

    assert_eq!(caster.experience, 10);
    assert_eq!(caster.level, 1)
}

#[test]
fn test_give_exp_to_caster_spell_with_level_up() {
    let mut caster = create_caster_for_testing();

    give_exp_to_caster_spell(&mut caster, 1600);

    assert_eq!(caster.experience, 1600);
    assert_eq!(caster.level, 2)
}

#[test]
fn test_give_exp_to_caster_spell_with_3_level_up() {
    let mut caster = create_caster_for_testing();

    give_exp_to_caster_spell(&mut caster, 5000);

    assert_eq!(caster.experience, 5000);
    assert_eq!(caster.level, 4)
}

#[test]
fn test_give_exp_to_caster_spell_with_level_up_but_already_max_level() {
    let mut caster = create_caster_for_testing();
    caster.level = 30;

    give_exp_to_caster_spell(&mut caster, 2400);

    assert_eq!(caster.experience, 2400);
    assert_eq!(caster.level, 30)
}

#[test]
fn test_test_is_spell_successful() {
    let mut rand = RandomGenerator::new(&slot_hashes(), Pubkey::new([9; 32]));

    let is_success = is_spell_successful(&mut rand, ItemRarity::Legendary);

    assert!(is_success || !is_success);
    assert_eq!(rand.offset, 1);
}

#[test]
fn spell_success_is_a_one_on_the_rarity_die() {
    let mut hash = [0u8; 32];
    hash[0] = 16;
    hash[1] = 17;
    // 16 % 8 + 1 == 1: a common spell works; 17 % 2 + 1 == 2: a legendary one fails.
    let mut rand = RandomGenerator { offset: 0, hash };
    assert!(is_spell_successful(&mut rand, ItemRarity::Common));
    assert!(!is_spell_successful(&mut rand, ItemRarity::Legendary));
}
