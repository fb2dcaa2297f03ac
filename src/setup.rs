use vstd::prelude::*;

use crate::caster::{Caster, Modifiers};
use crate::error::ErrorCode;
use crate::game::{map_wf, occupied_before, Game, GameTurnInfo, TurnData};
use crate::items::{Item, ItemType};
use crate::keys::Pubkey;
use crate::merkle::{MetadataCaster, MetadataItem};
use crate::rng::{advanced_by, byte_at, can_draw, fitted, RandomGenerator};
use crate::tile::{
    cycle_tile, is_type_projection, occupied, scan_pos, spawned_tile, tile_types_of, Tile, TileMap,
    TileType,
};

verus! {

/// A player of a game.
#[derive(Clone, Copy, Debug)]
pub struct Player {
    pub authority: Pubkey,
    pub game: Pubkey,
    pub bump: u8,
}

/// The root of the merkle tree of valid NFT leaves for one kind and level.
#[derive(Clone, Copy, Debug)]
pub struct MerkleRootNFT {
    pub bump: u8,
    pub merkle_root_nft: [u8; 32],
}

/// Price of a new character in reward tokens (before decimals).
pub const COST_IN_LADA_FOR_CASTER: u64 = 1_000;

/// Units per reward token.
pub const DECIMALS_PRECISION: u64 = 1_000_000_000;

/// The accounts that a new game is wired to.
#[derive(Clone, Copy, Debug)]
pub struct GameAccounts {
    pub authority: Pubkey,
    pub signer_bump: u8,
    pub resource_1_mint_account: Pubkey,
    pub resource_2_mint_account: Pubkey,
    pub resource_3_mint_account: Pubkey,
    pub lada_mint_account: Pubkey,
    pub lada_token_account: Pubkey,
}

/// Creates a game whose board holds three fresh resource tiles on its first
/// level, with the snapshot of its first turn.
pub fn init_game(accounts: GameAccounts, turn_info: GameTurnInfo, rand: &mut RandomGenerator) -> (r: (Game, TurnData))
    requires
        can_draw(*old(rand), 6),
    ensures
        r.0.authority == accounts.authority,
        r.0.turn_info == turn_info,
        r.0.last_turn_added == 1,
        r.0.signer_bump == accounts.signer_bump,
        r.0.resource_1_mint_account == accounts.resource_1_mint_account,
        r.0.resource_2_mint_account == accounts.resource_2_mint_account,
        r.0.resource_3_mint_account == accounts.resource_3_mint_account,
        r.0.lada_mint_account == accounts.lada_mint_account,
        r.0.lada_token_account == accounts.lada_token_account,
        forall|j: int| 0 <= j < 3 ==> r.0.map@[0]@[j] == Some(spawned_tile(advanced_by(*old(rand), (2 * j) as nat), true)),
        forall|i: int, j: int| 1 <= i < 30 && 0 <= j < 3 ==> r.0.map@[i]@[j] is None,
        map_wf(r.0.map),
        is_type_projection(r.0.map, r.1.map),
        r.1.resource_1_burned == 0 && r.1.resource_2_burned == 0 && r.1.resource_3_burned == 0,
        *final(rand) == advanced_by(*old(rand), 6),
{
    let t1 = cycle_tile(None, 1, rand);
    let t2 = cycle_tile(None, 1, rand);
    let t3 = cycle_tile(None, 1, rand);
    let mut map: TileMap = [[None; 3]; 30];
    map[0] = [Some(t1), Some(t2), Some(t3)];
    proof {
        assert forall|i: int, j: int| 0 <= i < 30 && 0 <= j < 3 implies (occupied(map, i, j)
            <==> scan_pos(i, j) < 3) by {}
        lemma_count_first_row(map);
    }
    let game = Game {
        authority: accounts.authority,
        map,
        turn_info,
        last_turn_added: 1,
        signer_bump: accounts.signer_bump,
        resource_1_mint_account: accounts.resource_1_mint_account,
        resource_2_mint_account: accounts.resource_2_mint_account,
        resource_3_mint_account: accounts.resource_3_mint_account,
        lada_mint_account: accounts.lada_mint_account,
        lada_token_account: accounts.lada_token_account,
    };
    let mut turn_data = TurnData::default();
    turn_data.map = tile_types_of(&game.map);
    (game, turn_data)
}

proof fn lemma_count_first_row(map: TileMap)
    requires
        forall|i: int, j: int| 0 <= i < 30 && 0 <= j < 3 ==> (occupied(map, i, j) <==> scan_pos(i, j) < 3),
    ensures
        occupied_before(map, 90) == 3,
{
    lemma_count_upto(map, 90);
}

proof fn lemma_count_upto(map: TileMap, k: int)
    requires
        0 <= k <= 90,
        forall|i: int, j: int| 0 <= i < 30 && 0 <= j < 3 ==> (occupied(map, i, j) <==> scan_pos(i, j) < 3),
    ensures
        occupied_before(map, k) == if k < 3 { k } else { 3 },
    decreases k,
{
    if k > 0 {
        lemma_count_upto(map, k - 1);
        let i = (k - 1) / 3;
        let j = (k - 1) % 3;
        assert(scan_pos(i, j) == k - 1);
        assert(occupied(map, i, j) <==> k - 1 < 3);
    }
}

/// Price of a new character, in units of the reward token.
pub open spec fn caster_price() -> int {
    COST_IN_LADA_FOR_CASTER * DECIMALS_PRECISION
}

/// Creates a level-1 character on the first board level, in a column drawn
/// in `[0, 2]`, for a player that can pay its price. Returns it with the
/// amount to burn.
pub fn init_caster(player: Pubkey, lada_balance: u64, rand: &mut RandomGenerator) -> (r: Result<(Caster, u64), ErrorCode>)
    requires
        can_draw(*old(rand), 1),
    ensures
        lada_balance < caster_price() ==> r == Err::<(Caster, u64), ErrorCode>(ErrorCode::PlayerIsPoor),
        lada_balance >= caster_price() ==> (r matches Ok((c, burn)) && {
            &&& burn == caster_price()
            &&& c.owner == player
            &&& c.version == 1
            &&& c.level == 1
            &&& c.experience == 0
            &&& c.turn_commit is None
            &&& c.modifiers.tile_level == 0
            &&& c.modifiers.tile_column == fitted(byte_at(*old(rand), 0), 0, 2)
            &&& c.modifiers.head is None && c.modifiers.robe is None
            &&& c.modifiers.staff is None && c.modifiers.spell_book is None
        }),
        *final(rand) == advanced_by(*old(rand), 1),
{
    let column = rand.random_within_range_u8(0, 2);
    let amount: u64 = COST_IN_LADA_FOR_CASTER * DECIMALS_PRECISION;
    if lada_balance < amount {
        return Err(ErrorCode::PlayerIsPoor);
    }
    let caster = Caster {
        version: 1,
        level: 1,
        experience: 0,
        owner: player,
        modifiers: Modifiers {
            tile_level: 0,
            tile_column: column,
            head: None,
            robe: None,
            staff: None,
            spell_book: None,
        },
        turn_commit: None,
    };
    Ok((caster, amount))
}

/// Turns an NFT back into an item of this game and player, burning the one
/// token that stands for it.
pub fn redeem_item(metadata: MetadataItem, nft_amount: u64, game: Pubkey, player: Pubkey) -> (r: Result<Item, ErrorCode>)
    ensures
        nft_amount != 1 ==> r == Err::<Item, ErrorCode>(ErrorCode::InvalidTokenAmount),
        nft_amount == 1 ==> r == Ok::<Item, ErrorCode>(
            Item {
                game,
                owner: player,
                level: metadata.level,
                item_type: metadata.item_type,
                equipped_owner: None,
            },
        ),
{
    if nft_amount != 1 {
        return Err(ErrorCode::InvalidTokenAmount);
    }
    Ok(Item { game, owner: player, level: metadata.level, item_type: metadata.item_type, equipped_owner: None })
}

/// Turns an NFT back into a character of this player, at its position and
/// with nothing worn or pending.
pub fn redeem_caster(metadata: MetadataCaster, nft_amount: u64, player: Pubkey) -> (r: Result<Caster, ErrorCode>)
    ensures
        nft_amount != 1 ==> r == Err::<Caster, ErrorCode>(ErrorCode::InvalidTokenAmount),
        nft_amount == 1 ==> r == Ok::<Caster, ErrorCode>(
            Caster {
                version: metadata.version,
                level: metadata.level,
                experience: metadata.experience,
                owner: player,
                modifiers: Modifiers {
                    tile_level: metadata.modifiers.tile_level,
                    tile_column: metadata.modifiers.tile_column,
                    head: None,
                    robe: None,
                    staff: None,
                    spell_book: None,
                },
                turn_commit: None,
            },
        ),
{
    if nft_amount != 1 {
        return Err(ErrorCode::InvalidTokenAmount);
    }
    Ok(Caster {
        version: metadata.version,
        level: metadata.level,
        experience: metadata.experience,
        owner: player,
        modifiers: Modifiers {
            tile_level: metadata.modifiers.tile_level,
            tile_column: metadata.modifiers.tile_column,
            head: None,
            robe: None,
            staff: None,
            spell_book: None,
        },
        turn_commit: None,
    })
}

/// Chest tier by the (1-based) level given.
pub open spec fn tier_for_level(level: u8) -> u8 {
    if 1 <= level <= 5 {
        1
    } else if 6 <= level <= 10 {
        2
    } else if 11 <= level <= 15 {
        3
    } else if 16 <= level <= 30 {
        4
    } else {
        1
    }
}

/// A debugging aid: the item of the given kind and level for a player; a
/// chest's tier follows the level. None for a consumed item.
pub fn give_item(item_type: ItemType, level: u8, game: Pubkey, player: Pubkey) -> (r: Option<Item>)
    ensures
        match item_type {
            ItemType::Zombie => r is None,
            ItemType::Chest { .. } => r == Some(Item {
                game,
                owner: player,
                level,
                item_type: ItemType::Chest { tier: tier_for_level(level) },
                equipped_owner: None,
            }),
            _ => r == Some(Item { game, owner: player, level, item_type, equipped_owner: None }),
        },
{
    match item_type {
        ItemType::Chest { .. } => {
            let tier: u8 = if 1 <= level && level <= 5 {
                1
            } else if 6 <= level && level <= 10 {
                2
            } else if 11 <= level && level <= 15 {
                3
            } else if 16 <= level && level <= 30 {
                4
            } else {
                1
            };
            Some(Item { game, owner: player, level, item_type: ItemType::Chest { tier }, equipped_owner: None })
        },
        ItemType::Zombie => None,
        _ => Some(Item { game, owner: player, level, item_type, equipped_owner: None }),
    }
}

/// A debugging aid: puts a tile of the given type, with one life, on a cell.
pub fn change_tile(game: &mut Game, tile_type: TileType, lvl: u8, col: u8)
    requires
        lvl < 30,
        col < 3,
    ensures
        forall|i: int, j: int| 0 <= i < 30 && 0 <= j < 3 ==> final(game).map@[i]@[j] == if i == lvl && j == col {
            Some(Tile { tile_type, life: 1, is_first_time_spawning: false })
        } else {
            old(game).map@[i]@[j]
        },
        final(game).turn_info == old(game).turn_info,
{
    let mut row = game.map[lvl as usize];
    row[col as usize] = Some(Tile { tile_type, life: 1, is_first_time_spawning: false });
    game.map[lvl as usize] = row;
}

/// Empties a character's spell book slot, for a book that could not be
/// redeemed; the creator's authority is checked by the caller.
pub fn fix_redeem_spell(caster: &mut Caster)
    ensures
        *final(caster) == (Caster {
            modifiers: Modifiers { spell_book: None, ..old(caster).modifiers },
            ..*old(caster)
        }),
{
    caster.modifiers.spell_book = None;
}

} // verus!
