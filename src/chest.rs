use vstd::prelude::*;

use crate::error::ErrorCode;
use crate::items::{
    equipment_shape, generate_new_equipment, generate_new_spell_book, generated_spell_book, zombify_account,
    Item, ItemType,
};
use crate::keys::Pubkey;
use crate::rng::{advanced_by, byte_at, can_draw, fitted, RandomGenerator};

verus! {

/// Lowest level of the items that a chest of this tier holds.
pub open spec fn tier_min_level(tier: u8) -> u8 {
    if tier == 2 {
        6
    } else if tier == 3 {
        11
    } else if tier == 4 {
        16
    } else {
        1
    }
}

/// Draws that one item of a chest takes from `r`: a level, a kind, then a
/// spell book (3) or an equipment item with a rolled rarity (5).
pub open spec fn chest_item_draws(r: RandomGenerator) -> nat {
    if fitted(byte_at(r, 1), 1, 4) == 1 { 5 } else { 7 }
}

/// `item` is what a chest with levels `[min, max]` yields from the draws of `r`:
/// a uniform level, then one time in four a spell book, else equipment.
pub open spec fn chest_item_ok(item: Item, game: Pubkey, player: Pubkey, min: u8, max: u8, r: RandomGenerator) -> bool {
    let level = fitted(byte_at(r, 0), min as int, max as int) as u8;
    if fitted(byte_at(r, 1), 1, 4) == 1 {
        item == generated_spell_book(game, player, level, advanced_by(r, 2))
    } else {
        equipment_shape(item, game, player, level, None, advanced_by(r, 2))
    }
}

fn open_one(item: &mut Item, game: Pubkey, player: Pubkey, min: u8, max: u8, rand: &mut RandomGenerator)
    requires
        1 <= min <= max < u8::MAX,
        can_draw(*old(rand), 7),
    ensures
        chest_item_ok(*final(item), game, player, min, max, *old(rand)),
        *final(rand) == advanced_by(*old(rand), chest_item_draws(*old(rand))),
{
    let level = rand.random_within_range_u8(min, max);
    if rand.random_within_range_u8(1, 4) == 1 {
        generate_new_spell_book(item, game, player, level, rand);
    } else {
        generate_new_equipment(item, game, player, level, None, rand);
    }
}

/// Opens a chest into three new items whose levels lie between the tier's
/// floor and the chest's level; the chest is consumed.
pub fn open_chest(
    chest: &mut Item,
    game: Pubkey,
    player: Pubkey,
    item_1: &mut Item,
    item_2: &mut Item,
    item_3: &mut Item,
    rand: &mut RandomGenerator,
) -> (r: Result<(), ErrorCode>)
    requires
        old(chest).item_type matches ItemType::Chest { tier } ==> tier_min_level(tier) <= old(chest).level < u8::MAX,
        can_draw(*old(rand), 21),
    ensures
        match old(chest).item_type {
            ItemType::Chest { tier } => {
                let min = tier_min_level(tier);
                let max = old(chest).level;
                let r1 = advanced_by(*old(rand), chest_item_draws(*old(rand)));
                let r2 = advanced_by(r1, chest_item_draws(r1));
                &&& r is Ok
                &&& chest_item_ok(*final(item_1), game, player, min, max, *old(rand))
                &&& chest_item_ok(*final(item_2), game, player, min, max, r1)
                &&& chest_item_ok(*final(item_3), game, player, min, max, r2)
                &&& *final(rand) == advanced_by(r2, chest_item_draws(r2))
                &&& *final(chest) == (Item { item_type: ItemType::Zombie, ..*old(chest) })
            },
            _ => {
                &&& r == Err::<(), ErrorCode>(ErrorCode::ItemIsNotAChest)
                &&& *final(chest) == *old(chest)
                &&& *final(item_1) == *old(item_1)
                &&& *final(item_2) == *old(item_2)
                &&& *final(item_3) == *old(item_3)
                &&& *final(rand) == *old(rand)
            },
        },
{
    let min: u8 = match chest.item_type {
        ItemType::Chest { tier } => match tier {
            2 => 6,
            3 => 11,
            4 => 16,
            _ => 1,
        },
        _ => return Err(ErrorCode::ItemIsNotAChest),
    };
    let max = chest.level;
    open_one(item_1, game, player, min, max, rand);
    open_one(item_2, game, player, min, max, rand);
    open_one(item_3, game, player, min, max, rand);
    zombify_account(chest);
    Ok(())
}

} // verus!
