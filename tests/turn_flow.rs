use laddercast::actions::{CommittedActions, TurnCommit, NO_ACTION};
use laddercast::caster::{equip_item, get_player_bonuses, unequip_item, Caster, Modifiers, PlayerBonuses};
use laddercast::chest::open_chest;
use laddercast::enums::{ActionType, EquipmentType, ItemFeature, ItemRarity, SpellType};
use laddercast::error::ErrorCode;
use laddercast::game::{check_map_wf, crank, Game, GameTurnInfo, TurnData};
use laddercast::items::{Item, ItemType};
use laddercast::keys::Pubkey;
use laddercast::order::{validate_instruction_order_and_program_ids, validate_is_last_instructions_and_program_ids, validate_program_ids};
use laddercast::redeem::{
    caster_redeem_craft, caster_redeem_loot, caster_redeem_move, caster_redeem_reward, caster_redeem_spell,
    reward_amount,
};
use laddercast::rng::RandomGenerator;
use laddercast::setup::{init_caster, init_game, redeem_caster, redeem_item, GameAccounts};
use laddercast::tile::{Tile, TileMap, TileType};
use laddercast::turn::{caster_commit_craft, caster_commit_loot, caster_commit_move, caster_commit_spell, manual_resource_burn};

fn key(b: u8) -> Pubkey {
    Pubkey::new([b; 32])
}

fn tile(t: TileType) -> Option<Tile> {
    Some(Tile { tile_type: t, life: 3, is_first_time_spawning: false })
}

fn filled_map(levels: usize, t: TileType) -> TileMap {
    let mut map: TileMap = [[None; 3]; 30];
    for row in map.iter_mut().take(levels) {
        *row = [tile(t); 3];
    }
    map
}

fn game_with(map: TileMap, turn: u32) -> Game {
    Game {
        authority: key(1),
        map,
        turn_info: GameTurnInfo { turn, turn_delay: 10, last_crank_seconds: 100, last_tile_spawn: 0, tile_spawn_delay: 1 },
        last_turn_added: turn,
        signer_bump: 0,
        resource_1_mint_account: key(2),
        resource_2_mint_account: key(3),
        resource_3_mint_account: key(4),
        lada_mint_account: key(5),
        lada_token_account: key(6),
    }
}

fn caster_at(level: u8, tile_level: u8, tile_column: u8) -> Caster {
    Caster {
        version: 1,
        level,
        experience: 0,
        owner: key(7),
        modifiers: Modifiers { tile_level, tile_column, head: None, robe: None, staff: None, spell_book: None },
        turn_commit: None,
    }
}

fn turn_data() -> TurnData {
    TurnData::default()
}

fn rng() -> RandomGenerator {
    let slots: Vec<u8> = (0..200).map(|i| (i * 13 % 256) as u8).collect();
    RandomGenerator::new(&slots, key(8))
}

fn equipment(level: u8, rarity: ItemRarity) -> Item {
    Item {
        game: key(1),
        owner: key(9),
        level,
        item_type: ItemType::Equipment { feature: ItemFeature::Fire, rarity, equipment_type: EquipmentType::Head, value: 12 },
        equipped_owner: None,
    }
}

#[test]
fn move_sideways_on_same_level_succeeds() {
    let game = game_with(filled_map(5, TileType::Fire), 1);
    let mut caster = caster_at(5, 1, 1);
    let mut td = turn_data();
    let burn = caster_commit_move(&game, &mut td, &mut caster, [1000; 3], 1, 0).unwrap();
    assert_eq!(burn, [20, 0, 0]);
    assert_eq!(td.resource_1_burned, 20);
    let t = caster.turn_commit.unwrap();
    assert_eq!(t.actions.mv, Some([1, 0]));
    assert_eq!(t.actions.action_order, [0, 0, 1, 0]);
    assert_eq!(t.resources_burned, [20, 0, 0]);
}

#[test]
fn move_two_columns_while_climbing_fails() {
    let game = game_with(filled_map(5, TileType::Fire), 1);
    let mut caster = caster_at(5, 1, 1);
    let mut td = turn_data();
    assert_eq!(caster_commit_move(&game, &mut td, &mut caster, [1000; 3], 2, 2), Err(ErrorCode::InvalidMove));
    assert!(caster.turn_commit.is_none());
    assert_eq!(td.resource_1_burned, 0);
}

#[test]
fn move_to_level_below_caster_level_succeeds_and_to_caster_level_fails() {
    let game = game_with(filled_map(10, TileType::Water), 1);
    let mut td = turn_data();
    let mut caster = caster_at(5, 1, 1);
    assert_eq!(caster_commit_move(&game, &mut td, &mut caster, [1000; 3], 5, 1), Err(ErrorCode::InvalidMove));
    let burn = caster_commit_move(&game, &mut td, &mut caster, [1000; 3], 4, 1).unwrap();
    assert_eq!(burn, [0, 50, 0]);
}

#[test]
fn move_errors() {
    let game = game_with(filled_map(2, TileType::Earth), 1);
    let mut td = turn_data();
    let mut caster = caster_at(5, 1, 1);
    assert_eq!(caster_commit_move(&game, &mut td, &mut caster, [1000; 3], 2, 1), Err(ErrorCode::TileNotExists));
    assert_eq!(caster_commit_move(&game, &mut td, &mut caster, [1000; 3], 0, 1), Err(ErrorCode::InvalidMove));
    assert_eq!(caster_commit_move(&game, &mut td, &mut caster, [1000, 1000, 19], 1, 2), Err(ErrorCode::PlayerIsPoor));
    assert!(caster_commit_move(&game, &mut td, &mut caster, [1000; 3], 1, 2).is_ok());
    assert_eq!(caster_commit_move(&game, &mut td, &mut caster, [1000; 3], 1, 1), Err(ErrorCode::ActionAlreadyDone));
    let mut stale = caster_at(5, 1, 1);
    stale.turn_commit = Some(TurnCommit::new(0));
    assert_eq!(caster_commit_move(&game, &mut td, &mut stale, [1000; 3], 1, 2), Err(ErrorCode::PendingTurn));
}

#[test]
fn moving_onto_crafting_tile_is_free() {
    let mut map = filled_map(2, TileType::Fire);
    map[1][2] = tile(TileType::Crafting);
    let game = game_with(map, 1);
    let mut td = turn_data();
    let mut caster = caster_at(3, 1, 1);
    assert_eq!(caster_commit_move(&game, &mut td, &mut caster, [0; 3], 1, 2), Ok([0, 0, 0]));
}

#[test]
fn loot_commit_and_errors() {
    let mut map = filled_map(2, TileType::Fire);
    map[1][0] = tile(TileType::Crafting);
    let game = game_with(map, 1);
    let mut caster = caster_at(5, 1, 1);
    assert_eq!(caster_commit_loot(&game, &mut caster), Ok(()));
    assert!(caster.turn_commit.unwrap().actions.loot);
    assert_eq!(caster_commit_loot(&game, &mut caster), Err(ErrorCode::ActionAlreadyDone));
    let mut on_crafting = caster_at(5, 1, 0);
    assert_eq!(caster_commit_loot(&game, &mut on_crafting), Err(ErrorCode::InvalidTileForLooting));
    let mut off_board = caster_at(5, 3, 0);
    assert_eq!(caster_commit_loot(&game, &mut off_board), Err(ErrorCode::TileNotExists));
}

#[test]
fn craft_commit_records_lowest_level_and_rarity() {
    let mut map = filled_map(2, TileType::Fire);
    map[1][1] = tile(TileType::Crafting);
    let game = game_with(map, 1);
    let mut caster = caster_at(5, 1, 1);
    let mut td = turn_data();
    let mut a = equipment(3, ItemRarity::Rare);
    let mut b = equipment(5, ItemRarity::Common);
    let mut c = equipment(2, ItemRarity::Epic);
    let burn = caster_commit_craft(&game, &mut td, &mut caster, [100; 3], &mut a, &mut b, &mut c).unwrap();
    assert_eq!(burn, [10, 10, 10]);
    assert_eq!(td.resource_3_burned, 10);
    let snap = caster.turn_commit.unwrap().actions.crafting.unwrap();
    assert_eq!(snap.min_level, 2);
    assert_eq!(snap.min_rarity, ItemRarity::Common);
    assert_eq!(snap.max_rarity, ItemRarity::Epic);
    assert_eq!(a.item_type, ItemType::Zombie);
    assert_eq!(c.item_type, ItemType::Zombie);
}

#[test]
fn craft_commit_on_legendary_tile_allows_legendary_and_errors() {
    let mut map = filled_map(2, TileType::Fire);
    map[1][1] = tile(TileType::Legendary);
    let game = game_with(map, 1);
    let mut td = turn_data();
    let mut caster = caster_at(5, 1, 1);
    let mut a = equipment(3, ItemRarity::Epic);
    let mut b = equipment(4, ItemRarity::Legendary);
    let mut chest = Item { item_type: ItemType::Chest { tier: 1 }, ..equipment(1, ItemRarity::Common) };
    assert_eq!(
        caster_commit_craft(&game, &mut td, &mut caster, [9; 3], &mut a, &mut b, &mut chest),
        Err(ErrorCode::PlayerIsPoor)
    );
    assert_eq!(
        caster_commit_craft(&game, &mut td, &mut caster, [100; 3], &mut a, &mut b, &mut chest),
        Err(ErrorCode::InvalidItemType)
    );
    assert!(matches!(a.item_type, ItemType::Equipment { .. }));
    let mut c = equipment(4, ItemRarity::Legendary);
    caster_commit_craft(&game, &mut td, &mut caster, [100; 3], &mut a, &mut b, &mut c).unwrap();
    let snap = caster.turn_commit.unwrap().actions.crafting.unwrap();
    assert_eq!(snap.min_rarity, ItemRarity::Epic);
    assert_eq!(snap.max_rarity, ItemRarity::Legendary);
    let mut elsewhere = caster_at(5, 1, 0);
    assert_eq!(
        caster_commit_craft(&game, &mut td, &mut elsewhere, [100; 3], &mut a, &mut b, &mut c),
        Err(ErrorCode::NotCraftingTile)
    );
}

fn spell_book(spell: SpellType, cost_feature: ItemFeature, rarity: ItemRarity) -> Item {
    Item {
        game: key(1),
        owner: key(9),
        level: 2,
        item_type: ItemType::SpellBook { spell, cost_feature, rarity, cost: 5, value: 40 },
        equipped_owner: Some(key(10)),
    }
}

#[test]
fn spell_commit_and_redeem() {
    let game = game_with(filled_map(2, TileType::Fire), 1);
    let mut td = turn_data();
    let mut caster = caster_at(5, 1, 1);
    caster.modifiers.spell_book = Some(key(11));
    let mut book = spell_book(SpellType::Water, ItemFeature::Earth, ItemRarity::Common);
    let mut rand = rng();
    assert_eq!(caster_commit_spell(&game, &mut td, &mut caster, key(10), [3, 3, 3], &book, key(11), &mut rand), Err(ErrorCode::PlayerIsPoor));
    assert_eq!(caster_commit_spell(&game, &mut td, &mut caster, key(10), [10; 3], &book, key(12), &mut rand), Err(ErrorCode::SpellKeyMismatch));
    assert_eq!(caster_commit_spell(&game, &mut td, &mut caster, key(13), [10; 3], &book, key(11), &mut rand), Err(ErrorCode::SpellKeyMismatch));
    let not_a_book = Item { item_type: ItemType::Chest { tier: 1 }, ..book };
    assert_eq!(caster_commit_spell(&game, &mut td, &mut caster, key(10), [10; 3], &not_a_book, key(11), &mut rand), Err(ErrorCode::InvalidItemType));
    assert!(caster.turn_commit.is_none());
    let burn = caster_commit_spell(&game, &mut td, &mut caster, key(10), [10; 3], &book, key(11), &mut rand).unwrap();
    assert_eq!(burn, [0, 0, 5]);
    assert_eq!(rand.offset, 0);
    assert_eq!(caster.turn_commit.unwrap().actions.spell.unwrap().is_extra_level_bonus, false);
    assert_eq!(caster_commit_spell(&game, &mut td, &mut caster, key(10), [10; 3], &book, key(11), &mut rand), Err(ErrorCode::ActionAlreadyDone));

    let mut new_item = equipment(1, ItemRarity::Common);
    assert_eq!(
        caster_redeem_spell(1, &mut caster, Some(key(11)), &mut book, &mut rand, key(1), key(9), &mut new_item).unwrap_err(),
        ErrorCode::SameTurnRedeem
    );
    assert_eq!(
        caster_redeem_spell(2, &mut caster, None, &mut book, &mut rand, key(1), key(9), &mut new_item).unwrap_err(),
        ErrorCode::SpellAccountMissing
    );
    assert_eq!(
        caster_redeem_spell(2, &mut caster, Some(key(12)), &mut book, &mut rand, key(1), key(9), &mut new_item).unwrap_err(),
        ErrorCode::SpellKeyMismatch
    );
    let out = caster_redeem_spell(2, &mut caster, Some(key(11)), &mut book, &mut rand, key(1), key(9), &mut new_item).unwrap();
    assert!(out.minted == [0, 40, 0] || out.minted == [0, 0, 0]);
    assert!(!out.item_created);
    assert_eq!(book.item_type, ItemType::Zombie);
    assert!(caster.modifiers.spell_book.is_none());
    assert_eq!(caster.turn_commit.unwrap().actions.action_order, [0, 0, 0, 0]);
    assert_eq!(caster_redeem_reward(2, &mut caster, &td), Ok(reward_amount(5, 5)));
    assert_eq!(caster.experience, 5);
}

#[test]
fn spell_with_invalid_cost_feature() {
    let game = game_with(filled_map(2, TileType::Fire), 1);
    let mut td = turn_data();
    let mut caster = caster_at(5, 1, 1);
    caster.modifiers.spell_book = Some(key(11));
    let book = spell_book(SpellType::Fire, ItemFeature::Power, ItemRarity::Common);
    let mut rand = rng();
    assert_eq!(caster_commit_spell(&game, &mut td, &mut caster, key(10), [10; 3], &book, key(11), &mut rand), Err(ErrorCode::InvalidSpellCost));
}

#[test]
fn craft_spell_rolls_its_bonus_at_commit() {
    let game = game_with(filled_map(2, TileType::Fire), 1);
    let mut td = turn_data();
    let mut caster = caster_at(5, 1, 1);
    caster.modifiers.spell_book = Some(key(11));
    let book = spell_book(SpellType::Craft, ItemFeature::Fire, ItemRarity::Legendary);
    let mut hash = [0u8; 32];
    hash[0] = 4; // 4 % 2 + 1 == 1: the bonus is won
    let mut rand = RandomGenerator { offset: 0, hash };
    caster_commit_spell(&game, &mut td, &mut caster, key(10), [10; 3], &book, key(11), &mut rand).unwrap();
    assert_eq!(rand.offset, 1);
    assert!(caster.turn_commit.unwrap().actions.spell.unwrap().is_extra_level_bonus);
}

#[test]
fn loot_then_move_are_redeemed_in_commit_order() {
    let game = game_with(filled_map(3, TileType::Fire), 1);
    let mut td = turn_data();
    let mut caster = caster_at(5, 1, 1);
    caster_commit_loot(&game, &mut caster).unwrap();
    caster_commit_move(&game, &mut td, &mut caster, [1000; 3], 2, 1).unwrap();
    assert_eq!(caster.turn_commit.unwrap().actions.action_order, [1, 0, 2, 0]);
    assert_eq!(caster.turn_commit.unwrap().actions.get_next_action_to_be_executed(), 0);

    assert_eq!(caster_redeem_move(1, &mut caster), Err(ErrorCode::SameTurnRedeem));
    assert_eq!(caster_redeem_move(2, &mut caster), Err(ErrorCode::ActionOrderError));
    assert_eq!(caster_redeem_reward(2, &mut caster, &td), Err(ErrorCode::ActionOrderError));

    let snapshot = game.get_map_as_tile_features_only();
    let bonuses = PlayerBonuses { critical_chance: 200, magic_find_chance: 0, fire_chance: 0, water_chance: 0, earth_chance: 0 };
    let mut rand = rng();
    let out = caster_redeem_loot(2, &mut caster, &snapshot, bonuses, &mut rand, key(1), key(9)).unwrap();
    assert_eq!(rand.offset, 12);
    assert!(out.minted[0] >= 1 && out.minted[0] <= 40);
    assert_eq!(out.minted[1], 0);
    if let Some(chest) = out.chest {
        assert_eq!(chest.level, 2);
        assert_eq!(chest.item_type, ItemType::Chest { tier: 1 });
    }

    assert_eq!(caster_redeem_move(2, &mut caster), Ok(()));
    assert_eq!(caster.modifiers.tile_level, 2);
    assert_eq!(caster_redeem_move(2, &mut caster), Err(ErrorCode::ActionOrderError));

    let amount = caster_redeem_reward(2, &mut caster, &td).unwrap();
    assert_eq!(amount, reward_amount(30, 30));
    assert_eq!(caster.experience, 30);
    assert!(caster.turn_commit.is_none());
    assert_eq!(caster_redeem_reward(2, &mut caster, &td), Err(ErrorCode::EmptyTurnCommit));
    assert_eq!(caster_redeem_move(2, &mut caster), Err(ErrorCode::EmptyTurnCommit));
}

#[test]
fn loot_reads_the_turn_snapshot() {
    let game = game_with(filled_map(3, TileType::Fire), 1);
    let mut caster = caster_at(5, 1, 1);
    caster_commit_loot(&game, &mut caster).unwrap();
    let mut crafted = game;
    crafted.map[1][1] = tile(TileType::Crafting);
    let snapshot = crafted.get_map_as_tile_features_only();
    let bonuses = PlayerBonuses { critical_chance: 0, magic_find_chance: 0, fire_chance: 0, water_chance: 0, earth_chance: 0 };
    let mut rand = rng();
    let before = caster;
    assert_eq!(caster_redeem_loot(2, &mut caster, &snapshot, bonuses, &mut rand, key(1), key(9)).unwrap_err(), ErrorCode::InvalidTileForLooting);
    assert_eq!(caster.turn_commit.unwrap().actions.action_order, before.turn_commit.unwrap().actions.action_order);
}

#[test]
fn loot_critical_and_chest_from_known_bytes() {
    let game = game_with(filled_map(3, TileType::Water), 1);
    let mut caster = caster_at(5, 1, 1);
    caster_commit_loot(&game, &mut caster).unwrap();
    let snapshot = game.get_map_as_tile_features_only();
    let bonuses = PlayerBonuses { critical_chance: 10000, magic_find_chance: 9000, fire_chance: 0, water_chance: 5, earth_chance: 0 };
    let rand_hash = [0u8; 32];
    let mut rand = RandomGenerator { offset: 0, hash: rand_hash };
    let out = caster_redeem_loot(2, &mut caster, &snapshot, bonuses, &mut rand, key(1), key(9)).unwrap();
    // Base 0 % 25 + 1 = 1, doubled by the certain critical; the find roll 100 is under 10000.
    assert_eq!(out.minted, [0, 2, 0]);
    assert_eq!(out.chest.unwrap().item_type, ItemType::Chest { tier: 1 });
}

#[test]
fn reward_with_nothing_burned_is_zero() {
    let mut caster = caster_at(1, 0, 0);
    caster.turn_commit = Some(TurnCommit::new(1));
    let td = turn_data();
    assert_eq!(caster_redeem_reward(2, &mut caster, &td), Ok(0));
    assert_eq!(caster.level, 1);
    assert!(caster.turn_commit.is_none());
}

#[test]
fn reward_share_is_proportional() {
    assert_eq!(reward_amount(10, 20), 992_063_492_065);
    assert_eq!(reward_amount(0, 0), 0);
    assert_eq!(reward_amount(7, 7), 1_984_126_984_130);
    assert_eq!(reward_amount(3, 0), 5_952_380_952_390);
}

#[test]
fn craft_redeem_with_spell_bonus_levels_up() {
    let mut caster = caster_at(5, 1, 1);
    let mut t = TurnCommit::new(1);
    t.actions.crafting = Some(laddercast::actions::CraftingSnapshot { min_level: 4, min_rarity: ItemRarity::Epic, max_rarity: ItemRarity::Epic });
    t.actions.spell = Some(laddercast::actions::SpellSnapshot { is_extra_level_bonus: true });
    t.actions.action_order = [0, 0, 0, 1];
    caster.turn_commit = Some(t);
    let mut item = equipment(1, ItemRarity::Common);
    let mut rand = rng();
    caster_redeem_craft(2, &mut caster, &mut rand, key(1), key(9), &mut item).unwrap();
    assert_eq!(item.level, 5);
    assert!(matches!(item.item_type, ItemType::Equipment { rarity: ItemRarity::Common, .. }));
    assert_eq!(rand.offset, 4);
    assert_eq!(caster.turn_commit.unwrap().actions.action_order, [0, 0, 0, 0]);
}

#[test]
fn manual_burn_and_errors() {
    let game = game_with(filled_map(2, TileType::Fire), 1);
    let mut td = turn_data();
    let mut caster = caster_at(5, 1, 1);
    assert_eq!(manual_resource_burn(&game, &mut td, &mut caster, [5; 3], ItemFeature::Magic, 3), Err(ErrorCode::InvalidResourceTypeForBurn));
    assert_eq!(manual_resource_burn(&game, &mut td, &mut caster, [5; 3], ItemFeature::Water, 6), Err(ErrorCode::PlayerIsPoor));
    assert_eq!(manual_resource_burn(&game, &mut td, &mut caster, [5; 3], ItemFeature::Water, 5), Ok([0, 5, 0]));
    assert_eq!(td.resource_2_burned, 5);
    assert_eq!(caster.turn_commit.unwrap().resources_burned, [0, 5, 0]);
    assert_eq!(caster.turn_commit.unwrap().actions.action_order, [0, 0, 0, 0]);
}

#[test]
fn ledger_redeems_in_commit_order() {
    let mut a = CommittedActions::new();
    assert_eq!(a.get_next_action_to_be_executed(), NO_ACTION);
    a.add_new_action_order(2);
    a.add_new_action_order(0);
    a.add_new_action_order(3);
    assert_eq!(a.action_order, [2, 0, 1, 3]);
    assert_eq!(a.get_highest_value(), 3);
    let mut seen = vec![];
    while a.get_next_action_to_be_executed() != NO_ACTION {
        let i = a.get_next_action_to_be_executed();
        seen.push(i);
        a.action_order[i] = 0;
    }
    assert_eq!(seen, vec![2, 0, 3]);
}

#[test]
fn equip_and_unequip() {
    let mut caster = caster_at(5, 1, 1);
    let mut head = equipment(3, ItemRarity::Rare);
    assert_eq!(equip_item(&mut caster, key(20), &mut head, key(21)), Ok(()));
    assert_eq!(caster.modifiers.head, Some(key(21)));
    assert_eq!(head.equipped_owner, Some(key(20)));
    assert_eq!(equip_item(&mut caster, key(20), &mut head, key(21)), Err(ErrorCode::ItemAlreadyInUse));
    let mut other_head = equipment(3, ItemRarity::Rare);
    assert_eq!(equip_item(&mut caster, key(20), &mut other_head, key(22)), Err(ErrorCode::ItemTypeAlreadyEquipped));
    let mut high = equipment(6, ItemRarity::Rare);
    assert_eq!(equip_item(&mut caster, key(20), &mut high, key(23)), Err(ErrorCode::ItemLevelTooHigh));
    let mut chest = Item { item_type: ItemType::Chest { tier: 1 }, ..equipment(1, ItemRarity::Common) };
    assert_eq!(equip_item(&mut caster, key(20), &mut chest, key(24)), Err(ErrorCode::InvalidEquipItemType));

    let bonuses = get_player_bonuses(&caster.modifiers, &vec![Some((key(21), Item { owner: key(9), game: key(1), ..head })), None], key(1), key(9), key(20));
    assert_eq!(bonuses.fire_chance, 12);
    assert_eq!(bonuses.critical_chance, 200);

    assert_eq!(unequip_item(&mut caster, key(99), &mut head), Err(ErrorCode::ItemNotExists));
    let mut busy = caster;
    busy.turn_commit = Some(TurnCommit::new(1));
    assert_eq!(unequip_item(&mut busy, key(20), &mut head), Err(ErrorCode::NoEquipUnequipOnPendingTurn));
    assert_eq!(unequip_item(&mut caster, key(20), &mut head), Ok(()));
    assert!(caster.modifiers.head.is_none());
    assert!(head.equipped_owner.is_none());
}

#[test]
fn chest_opens_into_three_items() {
    let mut chest = Item { item_type: ItemType::Chest { tier: 2 }, ..equipment(8, ItemRarity::Common) };
    let mut a = equipment(1, ItemRarity::Common);
    let mut b = a;
    let mut c = a;
    let mut rand = rng();
    assert_eq!(open_chest(&mut chest, key(1), key(9), &mut a, &mut b, &mut c, &mut rand), Ok(()));
    for it in [a, b, c] {
        assert!((6..=8).contains(&it.level));
        assert!(matches!(it.item_type, ItemType::Equipment { .. } | ItemType::SpellBook { .. }));
        assert_eq!(it.owner, key(9));
    }
    assert_eq!(chest.item_type, ItemType::Zombie);
    let mut not_chest = equipment(3, ItemRarity::Common);
    assert_eq!(open_chest(&mut not_chest, key(1), key(9), &mut a, &mut b, &mut c, &mut rand), Err(ErrorCode::ItemIsNotAChest));
}

#[test]
fn game_start_and_crank() {
    let accounts = GameAccounts {
        authority: key(1),
        signer_bump: 3,
        resource_1_mint_account: key(2),
        resource_2_mint_account: key(3),
        resource_3_mint_account: key(4),
        lada_mint_account: key(5),
        lada_token_account: key(6),
    };
    let info = GameTurnInfo { turn: 1, turn_delay: 60, last_crank_seconds: 1000, last_tile_spawn: 1, tile_spawn_delay: 1 };
    let mut rand = rng();
    let (mut game, first) = init_game(accounts, info, &mut rand);
    for j in 0..3 {
        assert!(game.map[0][j].unwrap().is_first_time_spawning);
        assert_eq!(first.map[0][j], Some(game.map[0][j].unwrap().tile_type));
    }
    assert!(game.map[1][0].is_none());

    let mut crank_rand = rng();
    let before = game;
    assert_eq!(crank(&mut game, 1059, &mut crank_rand).unwrap_err(), ErrorCode::PrematureCrankPull);
    assert_eq!(game.turn_info, before.turn_info);
    let snapshot = crank(&mut game, 1060, &mut crank_rand).unwrap();
    for j in 0..3 {
        assert_eq!(snapshot[0][j], Some(before.map[0][j].unwrap().tile_type));
        assert_eq!(game.map[0][j].unwrap().life, before.map[0][j].unwrap().life - 1);
    }
    assert_eq!(game.turn_info.turn, 2);
    assert_eq!(game.turn_info.last_crank_seconds, 1060);
    assert_eq!(game.turn_info.last_tile_spawn, 2);
    assert_eq!(game.last_turn_added, 2);
    assert!(game.map[1][0].unwrap().is_first_time_spawning);
    assert!(game.map[1][1].is_none());
}

#[test]
fn crank_cycles_tiles_that_run_out() {
    let mut map = filled_map(1, TileType::Fire);
    map[0][0] = Some(Tile { tile_type: TileType::Fire, life: 1, is_first_time_spawning: true });
    map[0][1] = Some(Tile { tile_type: TileType::Fire, life: 1, is_first_time_spawning: false });
    map[0][2] = Some(Tile { tile_type: TileType::Crafting, life: 2, is_first_time_spawning: false });
    let mut game = game_with(map, 5);
    game.turn_info.tile_spawn_delay = 100;
    let mut rand = rng();
    crank(&mut game, 110, &mut rand).unwrap();
    assert_eq!(game.map[0][0].unwrap().tile_type, TileType::Legendary);
    assert_eq!(game.map[0][1].unwrap().tile_type, TileType::Crafting);
    assert_eq!(game.map[0][2].unwrap().life, 1);
    assert!(game.map[1][0].is_none());
    assert_eq!(rand.offset, 0);
}

#[test]
fn new_caster_and_restores() {
    let mut rand = rng();
    assert_eq!(init_caster(key(9), 10, &mut rand).unwrap_err(), ErrorCode::PlayerIsPoor);
    let (c, burn) = init_caster(key(9), 2_000_000_000_000, &mut rand).unwrap();
    assert_eq!(burn, 1_000_000_000_000);
    assert_eq!(c.level, 1);
    assert!(c.modifiers.tile_column <= 2);

    let meta = laddercast::merkle::MetadataItem { game: key(0), owner: key(0), level: 4, item_type: ItemType::Chest { tier: 1 }, equipped_owner: None };
    assert_eq!(redeem_item(meta, 0, key(1), key(9)).unwrap_err(), ErrorCode::InvalidTokenAmount);
    let it = redeem_item(meta, 1, key(1), key(9)).unwrap();
    assert_eq!(it.owner, key(9));
    assert_eq!(it.level, 4);

    let cm = laddercast::merkle::MetadataCaster { version: 1, level: 3, experience: 2000, owner: key(0), modifiers: c.modifiers, turn_commit: None };
    assert_eq!(redeem_caster(cm, 2, key(9)).unwrap_err(), ErrorCode::InvalidTokenAmount);
    assert_eq!(redeem_caster(cm, 1, key(9)).unwrap().level, 3);
}

fn sysvar(program_ids: &[[u8; 32]], current: u16) -> Vec<u8> {
    let n = program_ids.len();
    let mut data = vec![];
    data.extend_from_slice(&(n as u16).to_le_bytes());
    let header = 2 + 2 * n;
    for i in 0..n {
        data.extend_from_slice(&((header + 34 * i) as u16).to_le_bytes());
    }
    for pid in program_ids {
        data.extend_from_slice(&0u16.to_le_bytes());
        data.extend_from_slice(pid);
    }
    data.extend_from_slice(&current.to_le_bytes());
    data
}

#[test]
fn instruction_ordering() {
    let me = key(42);
    let data = sysvar(&[[42; 32], [42; 32], [42; 32]], 2);
    assert!(validate_program_ids(&data, &me));
    assert_eq!(validate_is_last_instructions_and_program_ids(&data, &me), Ok(()));
    let not_last = sysvar(&[[42; 32], [42; 32], [42; 32]], 1);
    assert_eq!(validate_is_last_instructions_and_program_ids(&not_last, &me), Err(ErrorCode::InvalidInstructionOrdering));
    let foreign = sysvar(&[[42; 32], [7; 32]], 1);
    assert!(!validate_program_ids(&foreign, &me));
    assert_eq!(validate_is_last_instructions_and_program_ids(&foreign, &me), Err(ErrorCode::InvalidInstructionOrdering));
    assert!(!validate_program_ids(&[1, 0], &me));

    let mut t = TurnCommit::new(1);
    t.actions.action_order = [1, 0, 2, 0];
    let commit = Some(t);
    assert_eq!(validate_instruction_order_and_program_ids(&not_last, &me, &None, ActionType::Loot), Err(ErrorCode::EmptyTurnCommit));
    let first = sysvar(&[[42; 32], [42; 32], [42; 32]], 0);
    assert_eq!(validate_instruction_order_and_program_ids(&first, &me, &commit, ActionType::Loot), Ok(()));
    assert_eq!(validate_instruction_order_and_program_ids(&not_last, &me, &commit, ActionType::Loot), Err(ErrorCode::InvalidInstructionOrdering));
    assert_eq!(validate_instruction_order_and_program_ids(&data, &me, &commit, ActionType::Move), Ok(()));
    assert_eq!(validate_instruction_order_and_program_ids(&first, &me, &commit, ActionType::Reward), Err(ErrorCode::InvalidInstructionOrdering));
    assert_eq!(validate_instruction_order_and_program_ids(&data, &me, &commit, ActionType::Reward), Ok(()));
}

#[test]
fn error_messages() {
    assert_eq!(ErrorCode::InvalidMove.message(), "Invalid Move.");
    assert_eq!(ErrorCode::ActionOrderError.message(), "The order of the actions committed wasn't respected.");
}

#[test]
fn board_shape_check() {
    let empty: TileMap = [[None; 3]; 30];
    assert!(!check_map_wf(&empty));
    let full_rows = filled_map(2, TileType::Fire);
    assert!(check_map_wf(&full_rows));
    let mut gap = full_rows;
    gap[0][1] = None;
    assert!(!check_map_wf(&gap));
    let mut spent = full_rows;
    spent[1][2] = Some(Tile { tile_type: TileType::Fire, life: 0, is_first_time_spawning: false });
    assert!(!check_map_wf(&spent));
    let mut partial = full_rows;
    partial[2][0] = tile(TileType::Water);
    assert!(check_map_wf(&partial));
}

#[test]
fn equip_refused_while_a_turn_is_pending() {
    let mut caster = caster_at(5, 1, 1);
    caster.turn_commit = Some(TurnCommit::new(1));
    let mut robe = equipment(2, ItemRarity::Common);
    assert_eq!(equip_item(&mut caster, key(20), &mut robe, key(30)), Err(ErrorCode::NoEquipUnequipOnPendingTurn));
    assert!(robe.equipped_owner.is_none());
}

#[test]
fn spell_slot_repair() {
    let mut caster = caster_at(5, 1, 1);
    caster.modifiers.spell_book = Some(key(3));
    caster.modifiers.head = Some(key(4));
    laddercast::setup::fix_redeem_spell(&mut caster);
    assert!(caster.modifiers.spell_book.is_none());
    assert_eq!(caster.modifiers.head, Some(key(4)));
}
