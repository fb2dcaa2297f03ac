use vstd::prelude::*;

use crate::rng::Enumerable;

verus! {

/// What an equipment item boosts, or which resource a spell book costs.
#[derive(Clone, Copy, Debug, PartialEq, Eq, Structural)]
pub enum ItemFeature {
    Power,
    Magic,
    Fire,
    Earth,
    Water,
}

#[derive(Clone, Copy, Debug, PartialEq, Eq, Structural)]
pub enum ItemRarity {
    Common,
    Rare,
    Epic,
    Legendary,
}

#[derive(Clone, Copy, Debug, PartialEq, Eq, Structural)]
pub enum EquipmentType {
    Head,
    Robe,
    Staff,
}

#[derive(Clone, Copy, Debug, PartialEq, Eq, Structural)]
pub enum SpellType {
    Fire,
    Water,
    Earth,
    Experience,
    Craft,
    Item,
}

/// The actions that a character redeems after a turn has advanced.
#[derive(Clone, Copy, Debug, PartialEq, Eq, Structural)]
pub enum ActionType {
    Loot,
    Move,
    Spell,
    Craft,
    Reward,
}

/// The variant of `ItemFeature` at position `i` of its declaration.
pub open spec fn feature_at(i: int) -> ItemFeature {
    if i == 0 {
        ItemFeature::Power
    } else if i == 1 {
        ItemFeature::Magic
    } else if i == 2 {
        ItemFeature::Fire
    } else if i == 3 {
        ItemFeature::Earth
    } else {
        ItemFeature::Water
    }
}

/// The variant of `EquipmentType` at position `i` of its declaration.
pub open spec fn equipment_type_at(i: int) -> EquipmentType {
    if i == 0 {
        EquipmentType::Head
    } else if i == 1 {
        EquipmentType::Robe
    } else {
        EquipmentType::Staff
    }
}

/// The variant of `SpellType` at position `i` of its declaration.
pub open spec fn spell_type_at(i: int) -> SpellType {
    if i == 0 {
        SpellType::Fire
    } else if i == 1 {
        SpellType::Water
    } else if i == 2 {
        SpellType::Earth
    } else if i == 3 {
        SpellType::Experience
    } else if i == 4 {
        SpellType::Craft
    } else {
        SpellType::Item
    }
}

impl Enumerable for ItemFeature {
    open spec fn count() -> nat {
        5
    }

    open spec fn variant_at(i: int) -> ItemFeature {
        feature_at(i)
    }

    fn variant_count() -> (r: u8) {
        5
    }

    fn from_index(i: u8) -> (r: ItemFeature)
    {
        match i {
            0 => ItemFeature::Power,
            1 => ItemFeature::Magic,
            2 => ItemFeature::Fire,
            3 => ItemFeature::Earth,
            _ => ItemFeature::Water,
        }
    }
}

impl Enumerable for EquipmentType {
    open spec fn count() -> nat {
        3
    }

    open spec fn variant_at(i: int) -> EquipmentType {
        equipment_type_at(i)
    }

    fn variant_count() -> (r: u8) {
        3
    }

    fn from_index(i: u8) -> (r: EquipmentType)
    {
        match i {
            0 => EquipmentType::Head,
            1 => EquipmentType::Robe,
            _ => EquipmentType::Staff,
        }
    }
}

impl Enumerable for SpellType {
    open spec fn count() -> nat {
        6
    }

    open spec fn variant_at(i: int) -> SpellType {
        spell_type_at(i)
    }

    fn variant_count() -> (r: u8) {
        6
    }

    fn from_index(i: u8) -> (r: SpellType)
    {
        match i {
            0 => SpellType::Fire,
            1 => SpellType::Water,
            2 => SpellType::Earth,
            3 => SpellType::Experience,
            4 => SpellType::Craft,
            _ => SpellType::Item,
        }
    }
}

} // verus!
