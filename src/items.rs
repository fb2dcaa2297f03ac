use vstd::prelude::*;

use crate::enums::{
    equipment_type_at, feature_at, spell_type_at, EquipmentType, ItemFeature, ItemRarity, SpellType,
};
use crate::keys::Pubkey;
use crate::rng::{advanced_by, byte_at, can_draw, fitted, ne_fitted, window, RandomGenerator};

verus! {

#[derive(Clone, Copy, Debug, PartialEq, Eq, Structural)]
pub enum ItemType {
    /// A consumed item, awaiting the reclaim of its storage.
    Zombie,
    /// Tier 1 to 4, from the level of the tile where it was found.
    Chest { tier: u8 },
    Equipment {
        feature: ItemFeature,
        rarity: ItemRarity,
        equipment_type: EquipmentType,
        value: u16,
    },
    SpellBook {
        spell: SpellType,
        cost_feature: ItemFeature,
        rarity: ItemRarity,
        cost: u16,
        value: u16,
    },
}

impl Default for ItemType {
    fn default() -> (r: ItemType)
        ensures
            r == ItemType::Zombie,
    {
        ItemType::Zombie
    }
}

impl ItemType {
    /// The name of the kind of item, as used in the seeds of the merkle roots.
    pub fn kind_name(&self) -> (r: &'static str)
        ensures
            r@ == item_type_name(*self)@,
    {
        match self {
            ItemType::SpellBook { .. } => "spellBook",
            ItemType::Equipment { equipment_type, .. } => match equipment_type {
                EquipmentType::Head => "head",
                EquipmentType::Robe => "robe",
                EquipmentType::Staff => "staff",
            },
            ItemType::Chest { .. } => "combined",
            ItemType::Zombie => "zombie",
        }
    }
}

pub open spec fn item_type_name(t: ItemType) -> &'static str {
    match t {
        ItemType::SpellBook { .. } => "spellBook",
        ItemType::Equipment { equipment_type, .. } => match equipment_type {
            EquipmentType::Head => "head",
            EquipmentType::Robe => "robe",
            EquipmentType::Staff => "staff",
        },
        ItemType::Chest { .. } => "combined",
        ItemType::Zombie => "zombie",
    }
}

/// An item owned by a player, equipped by at most one of its characters.
#[derive(Clone, Copy, Debug)]
pub struct Item {
    pub game: Pubkey,
    pub owner: Pubkey,
    pub level: u8,
    pub item_type: ItemType,
    pub equipped_owner: Option<Pubkey>,
}

pub open spec fn resource_multiplier(r: ItemRarity) -> int {
    match r {
        ItemRarity::Common => 10,
        ItemRarity::Rare => 20,
        ItemRarity::Epic => 30,
        ItemRarity::Legendary => 40,
    }
}

pub open spec fn percentage_multiplier(r: ItemRarity) -> int {
    match r {
        ItemRarity::Common => 100,
        ItemRarity::Rare => 200,
        ItemRarity::Epic => 300,
        ItemRarity::Legendary => 400,
    }
}

/// Bounds of the value of an elemental equipment item.
pub open spec fn resource_value_min(r: ItemRarity, level: int) -> int {
    level * (resource_multiplier(r) - 10) + 1
}

pub open spec fn resource_value_max(r: ItemRarity, level: int) -> int {
    level * resource_multiplier(r)
}

/// Bounds of the value of a power or magic equipment item.
pub open spec fn percentage_value_min(r: ItemRarity) -> int {
    percentage_multiplier(r)
}

pub open spec fn percentage_value_max(r: ItemRarity, level: int) -> int {
    level / 3 * 100 + percentage_multiplier(r)
}

/// Value of an elemental item: uniform (by a 16-bit draw) in
/// `[level * (m - 10) + 1, level * m]`, `m` being 10, 20, 30 or 40 by rarity.
pub fn get_item_resource_value(item_rarity: ItemRarity, item_level: u8, rand: &mut RandomGenerator) -> (r: u16)
    requires
        item_level >= 1,
        can_draw(*old(rand), 2),
    ensures
        *final(rand) == advanced_by(*old(rand), 2),
        ne_fitted(
            window(*old(rand), 2),
            r as int,
            resource_value_min(item_rarity, item_level as int),
            resource_value_max(item_rarity, item_level as int),
        ),
        resource_value_min(item_rarity, item_level as int) <= r <= resource_value_max(
            item_rarity,
            item_level as int,
        ),
{
    let multiplier: u16 = match item_rarity {
        ItemRarity::Common => 10,
        ItemRarity::Rare => 20,
        ItemRarity::Epic => 30,
        ItemRarity::Legendary => 40,
    };
    assert(item_level * multiplier <= 10200 && item_level * (multiplier - 10) <= 10200)
        by (nonlinear_arith)
        requires
            item_level <= 255,
            10 <= multiplier <= 40,
    ;
    let min: u16 = item_level as u16 * (multiplier - 10) + 1;
    let max: u16 = item_level as u16 * multiplier;
    assert(min <= max) by (nonlinear_arith)
        requires
            min == item_level * (multiplier - 10) + 1,
            max == item_level * multiplier,
            item_level >= 1,
            multiplier >= 10,
    ;
    rand.random_within_range_u16(min, max)
}

/// Value of a power or magic item: uniform (by a 16-bit draw) in
/// `[m, level / 3 * 100 + m]`, `m` being 100, 200, 300 or 400 by rarity.
pub fn get_item_percentage_value(item_rarity: ItemRarity, item_level: u8, rand: &mut RandomGenerator) -> (r: u16)
    requires
        can_draw(*old(rand), 2),
    ensures
        *final(rand) == advanced_by(*old(rand), 2),
        ne_fitted(
            window(*old(rand), 2),
            r as int,
            percentage_value_min(item_rarity),
            percentage_value_max(item_rarity, item_level as int),
        ),
        percentage_value_min(item_rarity) <= r <= percentage_value_max(item_rarity, item_level as int),
{
    let multiplier: u16 = match item_rarity {
        ItemRarity::Common => 100,
        ItemRarity::Rare => 200,
        ItemRarity::Epic => 300,
        ItemRarity::Legendary => 400,
    };
    let min: u16 = multiplier;
    let max: u16 = (item_level as u16 / 3 * 100) + multiplier;
    rand.random_within_range_u16(min, max)
}

pub open spec fn rarity_odds(r: ItemRarity) -> int {
    match r {
        ItemRarity::Common => 8,
        ItemRarity::Rare => 6,
        ItemRarity::Epic => 4,
        ItemRarity::Legendary => 2,
    }
}

/// Mean of the rarity's resource bounds (1-10, 11-20, 21-30, 31-40), rounded down.
pub open spec fn rarity_average(r: ItemRarity) -> int {
    match r {
        ItemRarity::Common => 5,
        ItemRarity::Rare => 15,
        ItemRarity::Epic => 25,
        ItemRarity::Legendary => 35,
    }
}

pub open spec fn spell_book_value(cost: int, r: ItemRarity, multiplier: int) -> int {
    (cost * (rarity_odds(r) - 1) + 4 * rarity_average(r)) * multiplier
}

proof fn lemma_spell_book_value_bound(cost: int, r: ItemRarity, multiplier: int)
    requires
        0 <= cost <= 1275,
        0 <= multiplier <= 2,
    ensures
        0 <= spell_book_value(cost, r, multiplier) <= 18130,
{
    let b = cost * (rarity_odds(r) - 1) + 4 * rarity_average(r);
    assert(0 <= cost * (rarity_odds(r) - 1) <= 1275 * 7) by (nonlinear_arith)
        requires
            0 <= cost <= 1275,
            1 <= rarity_odds(r) <= 8,
    ;
    assert(0 <= b * multiplier <= 9065 * 2) by (nonlinear_arith)
        requires
            0 <= b <= 9065,
            0 <= multiplier <= 2,
    ;
}

/// What a spell book yields: `(cost * (odds - 1) + 4 * average) * multiplier`.
pub fn get_spell_book_value(cost: u16, item_rarity: ItemRarity, multiplier: u16) -> (r: u16)
    requires
        spell_book_value(cost as int, item_rarity, multiplier as int) <= u16::MAX,
    ensures
        r == spell_book_value(cost as int, item_rarity, multiplier as int),
{
    let (rarity_odds, rarity_min, rarity_max): (u16, u16, u16) = match item_rarity {
        ItemRarity::Common => (8, 1, 10),
        ItemRarity::Rare => (6, 11, 20),
        ItemRarity::Epic => (4, 21, 30),
        ItemRarity::Legendary => (2, 31, 40),
    };
    let avg_resources: u16 = (rarity_min + rarity_max) / 2;
    let spell_multiple: u16 = 4;
    assert(cost * (rarity_odds - 1) <= 65535 * 7) by (nonlinear_arith)
        requires
            cost <= 65535,
            1 <= rarity_odds <= 8,
    ;
    let base: u64 = cost as u64 * (rarity_odds - 1) as u64 + (spell_multiple * avg_resources) as u64;
    assert(base * multiplier == spell_book_value(cost as int, item_rarity, multiplier as int));
    assert(base <= 65535 * 7 + 140) by (nonlinear_arith)
        requires
            base == cost * (rarity_odds - 1) + spell_multiple * avg_resources,
            rarity_odds <= 8,
            spell_multiple * avg_resources <= 140,
            cost <= 65535,
    ;
    assert(base * multiplier <= 458885 * 65535) by (nonlinear_arith)
        requires
            base <= 458885,
            multiplier <= 65535,
    ;
    (base * multiplier as u64) as u16
}

/// Rarity for a roll in `[1, 100]`: 1-80 common, 81-95 rare, 96-99 epic,
/// 100 legendary.
pub open spec fn rarity_of_roll(v: int) -> ItemRarity {
    if v <= 80 {
        ItemRarity::Common
    } else if v <= 95 {
        ItemRarity::Rare
    } else if v <= 99 {
        ItemRarity::Epic
    } else {
        ItemRarity::Legendary
    }
}

/// Rolls a rarity from one draw in `[1, 100]`.
pub fn get_item_rarity(rand: &mut RandomGenerator) -> (r: ItemRarity)
    requires
        can_draw(*old(rand), 1),
    ensures
        *final(rand) == advanced_by(*old(rand), 1),
        r == rarity_of_roll(fitted(byte_at(*old(rand), 0), 1, 100)),
{
    let chance = rand.random_within_range_u8(1, 100);
    if chance <= 80 {
        ItemRarity::Common
    } else if chance <= 95 {
        ItemRarity::Rare
    } else if chance <= 99 {
        ItemRarity::Epic
    } else {
        ItemRarity::Legendary
    }
}

pub open spec fn is_elemental(f: ItemFeature) -> bool {
    f == ItemFeature::Fire || f == ItemFeature::Water || f == ItemFeature::Earth
}

/// Draws that `generate_new_equipment` takes.
pub open spec fn equipment_draws(rarity: Option<ItemRarity>) -> nat {
    if rarity is Some { 4 } else { 5 }
}

/// The item that `generate_new_equipment` makes from the bytes of `r`: a
/// feature, a rarity unless one is given, a 16-bit value (see
/// `equipment_value_ok`) and a slot.
pub open spec fn equipment_shape(
    item: Item,
    game: Pubkey,
    player: Pubkey,
    level: u8,
    rarity: Option<ItemRarity>,
    r: RandomGenerator,
) -> bool {
    let d: int = if rarity is Some { 1 } else { 2 };
    &&& item.game == game
    &&& item.owner == player
    &&& item.equipped_owner.is_none()
    &&& item.level == level
    &&& item.item_type matches ItemType::Equipment { feature, rarity: ir, equipment_type, value }
    &&& feature == feature_at(fitted(byte_at(r, 0), 0, 4))
    &&& ir == match rarity {
        Some(x) => x,
        None => rarity_of_roll(fitted(byte_at(r, 1), 1, 100)),
    }
    &&& equipment_type == equipment_type_at(fitted(byte_at(r, d + 2), 0, 2))
    &&& equipment_value_ok(feature, ir, level, value, advanced_by(r, d as nat))
}

/// `value` is what the value draw from `r` gives for such an item.
pub open spec fn equipment_value_ok(f: ItemFeature, ir: ItemRarity, level: u8, value: u16, r: RandomGenerator) -> bool {
    if is_elemental(f) {
        ne_fitted(
            window(r, 2),
            value as int,
            resource_value_min(ir, level as int),
            resource_value_max(ir, level as int),
        )
    } else {
        ne_fitted(
            window(r, 2),
            value as int,
            percentage_value_min(ir),
            percentage_value_max(ir, level as int),
        )
    }
}

/// Makes a new equipment item: a uniform feature, the given rarity or a
/// rolled one, a value from the feature's formula and a uniform slot.
pub fn generate_new_equipment(
    item: &mut Item,
    game: Pubkey,
    player: Pubkey,
    item_level: u8,
    item_rarity: Option<ItemRarity>,
    rand: &mut RandomGenerator,
)
    requires
        item_level >= 1,
        can_draw(*old(rand), equipment_draws(item_rarity)),
    ensures
        equipment_shape(*final(item), game, player, item_level, item_rarity, *old(rand)),
        *final(rand) == advanced_by(*old(rand), equipment_draws(item_rarity)),
{
    let item_feature = rand.random_enum::<ItemFeature>();
    let new_item_rarity = match item_rarity {
        None => get_item_rarity(rand),
        Some(r) => r,
    };
    let item_value = match item_feature {
        ItemFeature::Fire | ItemFeature::Water | ItemFeature::Earth => get_item_resource_value(
            new_item_rarity,
            item_level,
            rand,
        ),
        ItemFeature::Power | ItemFeature::Magic => get_item_percentage_value(
            new_item_rarity,
            item_level,
            rand,
        ),
    };
    let equipment_type = rand.random_enum::<EquipmentType>();
    item.game = game;
    item.owner = player;
    item.equipped_owner = None;
    item.item_type = ItemType::Equipment {
        feature: item_feature,
        rarity: new_item_rarity,
        equipment_type,
        value: item_value,
    };
    item.level = item_level;
}

/// The multiplier of a spell book's value by spell type (0: no value).
pub open spec fn spell_multiplier(s: SpellType) -> int {
    match s {
        SpellType::Fire | SpellType::Water | SpellType::Earth => 1,
        SpellType::Experience => 2,
        _ => 0,
    }
}

/// The spell book that `generate_new_spell_book` makes from the draws of `r`.
pub open spec fn generated_spell_book(game: Pubkey, player: Pubkey, level: u8, r: RandomGenerator) -> Item {
    let spell = spell_type_at(fitted(byte_at(r, 0), 0, 5));
    let rarity = rarity_of_roll(fitted(byte_at(r, 2), 1, 100));
    let cost = 5 * level;
    Item {
        game,
        owner: player,
        equipped_owner: None,
        level,
        item_type: ItemType::SpellBook {
            spell,
            cost_feature: feature_at(fitted(byte_at(r, 1), 2, 4)),
            rarity,
            cost: cost as u16,
            value: spell_book_value(cost, rarity, spell_multiplier(spell)) as u16,
        },
    }
}

/// Makes a new spell book: a uniform spell, a cost of `5 * level` in a
/// uniform element, a rolled rarity and the value that these give.
pub fn generate_new_spell_book(
    item: &mut Item,
    game: Pubkey,
    player: Pubkey,
    item_level: u8,
    rand: &mut RandomGenerator,
)
    requires
        can_draw(*old(rand), 3),
    ensures
        *final(item) == generated_spell_book(game, player, item_level, *old(rand)),
        *final(rand) == advanced_by(*old(rand), 3),
{
    let spell = rand.random_enum::<SpellType>();
    let cost: u16 = 5 * item_level as u16;
    let cost_feature = rand.random_enum_within_range::<ItemFeature>(2, 4);
    let spell_book_rarity = get_item_rarity(rand);
    proof {
        lemma_spell_book_value_bound(cost as int, spell_book_rarity, 1);
        lemma_spell_book_value_bound(cost as int, spell_book_rarity, 2);
        lemma_spell_book_value_bound(cost as int, spell_book_rarity, 0);
    }
    let item_value: u16 = match spell {
        SpellType::Fire | SpellType::Water | SpellType::Earth => get_spell_book_value(
            cost,
            spell_book_rarity,
            1,
        ),
        SpellType::Experience => get_spell_book_value(cost, spell_book_rarity, 2),
        _ => 0,
    };
    item.game = game;
    item.owner = player;
    item.equipped_owner = None;
    item.item_type = ItemType::SpellBook {
        spell,
        cost_feature,
        cost,
        value: item_value,
        rarity: spell_book_rarity,
    };
    item.level = item_level;
}

/// Neutralises a consumed item; reclaiming its storage is a separate step.
pub fn zombify_account(item: &mut Item)
    ensures
        *final(item) == (Item { item_type: ItemType::Zombie, ..*old(item) }),
{
    item.item_type = ItemType::Zombie;
}

/// The display name of a minted item, none for a consumed one.
pub fn get_name_for_mint(item_type: &ItemType) -> (r: Option<String>)
    ensures
        r.is_none() <==> *item_type == ItemType::Zombie,
        r.is_some() ==> r.unwrap()@ == mint_name(*item_type)@,
{
    match item_type {
        ItemType::Equipment { equipment_type, .. } => match equipment_type {
            EquipmentType::Staff => Some(String::from_str("Staff")),
            EquipmentType::Robe => Some(String::from_str("Robe")),
            EquipmentType::Head => Some(String::from_str("Head")),
        },
        ItemType::SpellBook { .. } => Some(String::from_str("Spellbook")),
        ItemType::Chest { .. } => Some(String::from_str("Chest")),
        ItemType::Zombie => None,
    }
}

pub open spec fn mint_name(t: ItemType) -> &'static str {
    match t {
        ItemType::Equipment { equipment_type, .. } => match equipment_type {
            EquipmentType::Staff => "Staff",
            EquipmentType::Robe => "Robe",
            EquipmentType::Head => "Head",
        },
        ItemType::SpellBook { .. } => "Spellbook",
        ItemType::Chest { .. } => "Chest",
        ItemType::Zombie => "",
    }
}

} // verus!
