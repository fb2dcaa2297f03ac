use vstd::prelude::*;
use vstd::utf8::encode_utf8;

use crate::actions::TurnCommit;
use crate::caster::{Caster, Modifiers, EXPERIENCE_REQUIRED_PER_LEVEL};
use crate::enums::{EquipmentType, ItemFeature, ItemRarity, SpellType};
use crate::error::ErrorCode;
use crate::items::{item_type_name, Item, ItemType};
use crate::keys::Pubkey;
use crate::rng::{keccak_of, keccak_pair};

verus! {

// Leaf strings, whose digests the merkle roots hold:
//   chest:      {uri}:chest:{level}:{tier}
//   spell book: {uri}:spellbook:{level}:{spell}:{cost feature}:{rarity}:{cost}:{value}
//   equipment:  {uri}:{slot}:{level}:{feature}:{rarity}:{value}
//   caster:     {uri}:caster:{version}:{level}

pub open spec fn digit_char(d: int) -> char {
    if d == 0 { '0' } else if d == 1 { '1' } else if d == 2 { '2' } else if d == 3 { '3' }
    else if d == 4 { '4' } else if d == 5 { '5' } else if d == 6 { '6' } else if d == 7 { '7' }
    else if d == 8 { '8' } else { '9' }
}

/// Decimal writing of `n`, without leading zeros.
pub open spec fn decimal(n: nat) -> Seq<char>
    decreases n,
{
    if n < 10 {
        seq![digit_char(n as int)]
    } else {
        decimal(n / 10) + seq![digit_char((n % 10) as int)]
    }
}

fn digit_str(d: u64) -> (r: &'static str)
    requires
        d < 10,
    ensures
        r@ == seq![digit_char(d as int)],
{
    match d {
        0 => { proof { reveal_strlit("0"); } "0" },
        1 => { proof { reveal_strlit("1"); } "1" },
        2 => { proof { reveal_strlit("2"); } "2" },
        3 => { proof { reveal_strlit("3"); } "3" },
        4 => { proof { reveal_strlit("4"); } "4" },
        5 => { proof { reveal_strlit("5"); } "5" },
        6 => { proof { reveal_strlit("6"); } "6" },
        7 => { proof { reveal_strlit("7"); } "7" },
        8 => { proof { reveal_strlit("8"); } "8" },
        _ => { proof { reveal_strlit("9"); } "9" },
    }
}

/// Appends the decimal writing of `n`.
fn append_decimal(s: &mut String, n: u64)
    ensures
        final(s)@ == old(s)@ + decimal(n as nat),
    decreases n,
{
    if n >= 10 {
        append_decimal(s, n / 10);
    }
    s.append(digit_str(n % 10));
    assert(final(s)@ =~= old(s)@ + decimal(n as nat));
}

pub open spec fn spell_word(s: SpellType) -> &'static str {
    match s {
        SpellType::Fire => "fire",
        SpellType::Water => "water",
        SpellType::Earth => "earth",
        SpellType::Experience => "experience",
        SpellType::Craft => "craft",
        SpellType::Item => "item",
    }
}

pub open spec fn feature_word(f: ItemFeature) -> &'static str {
    match f {
        ItemFeature::Power => "power",
        ItemFeature::Magic => "magic",
        ItemFeature::Fire => "fire",
        ItemFeature::Earth => "earth",
        ItemFeature::Water => "water",
    }
}

pub open spec fn rarity_word(r: ItemRarity) -> &'static str {
    match r {
        ItemRarity::Common => "common",
        ItemRarity::Rare => "rare",
        ItemRarity::Epic => "epic",
        ItemRarity::Legendary => "legendary",
    }
}

pub open spec fn slot_word(e: EquipmentType) -> &'static str {
    match e {
        EquipmentType::Head => "head",
        EquipmentType::Robe => "robe",
        EquipmentType::Staff => "staff",
    }
}

fn spell_word_exec(s: SpellType) -> (r: &'static str)
    ensures
        r@ == spell_word(s)@,
{
    match s {
        SpellType::Fire => "fire",
        SpellType::Water => "water",
        SpellType::Earth => "earth",
        SpellType::Experience => "experience",
        SpellType::Craft => "craft",
        SpellType::Item => "item",
    }
}

fn feature_word_exec(f: ItemFeature) -> (r: &'static str)
    ensures
        r@ == feature_word(f)@,
{
    match f {
        ItemFeature::Power => "power",
        ItemFeature::Magic => "magic",
        ItemFeature::Fire => "fire",
        ItemFeature::Earth => "earth",
        ItemFeature::Water => "water",
    }
}

fn rarity_word_exec(r: ItemRarity) -> (w: &'static str)
    ensures
        w@ == rarity_word(r)@,
{
    match r {
        ItemRarity::Common => "common",
        ItemRarity::Rare => "rare",
        ItemRarity::Epic => "epic",
        ItemRarity::Legendary => "legendary",
    }
}

fn slot_word_exec(e: EquipmentType) -> (r: &'static str)
    ensures
        r@ == slot_word(e)@,
{
    match e {
        EquipmentType::Head => "head",
        EquipmentType::Robe => "robe",
        EquipmentType::Staff => "staff",
    }
}

pub open spec fn sep() -> Seq<char> {
    ":"@
}

/// The leaf string of an item, none for a consumed one.
pub open spec fn item_leaf(uri: Seq<char>, item: Item) -> Option<Seq<char>> {
    match item.item_type {
        ItemType::SpellBook { spell, cost_feature, rarity, cost, value } => Some(
            uri + sep() + "spellbook"@ + sep() + decimal(item.level as nat) + sep() + spell_word(spell)@
                + sep() + feature_word(cost_feature)@ + sep() + rarity_word(rarity)@ + sep() + decimal(
                cost as nat,
            ) + sep() + decimal(value as nat),
        ),
        ItemType::Chest { tier } => Some(
            uri + sep() + "chest"@ + sep() + decimal(item.level as nat) + sep() + decimal(tier as nat),
        ),
        ItemType::Equipment { feature, rarity, equipment_type, value } => Some(
            uri + sep() + slot_word(equipment_type)@ + sep() + decimal(item.level as nat) + sep()
                + feature_word(feature)@ + sep() + rarity_word(rarity)@ + sep() + decimal(value as nat),
        ),
        ItemType::Zombie => None,
    }
}

/// The leaf string of a character.
pub open spec fn caster_leaf(uri: Seq<char>, c: Caster) -> Seq<char> {
    uri + sep() + "caster"@ + sep() + decimal(c.version as nat) + sep() + decimal(c.level as nat)
}

/// The leaf string of an item, none for a consumed one.
pub fn get_merkle_string_for_item(uri: &str, item: Item) -> (r: Option<String>)
    ensures
        match item_leaf(uri@, item) {
            Some(l) => r matches Some(s) && s@ == l,
            None => r is None,
        },
{
    let mut s = String::from_str(uri);
    match item.item_type {
        ItemType::SpellBook { spell, cost_feature, rarity, cost, value } => {
            s.append(":");
            s.append("spellbook");
            s.append(":");
            append_decimal(&mut s, item.level as u64);
            s.append(":");
            s.append(spell_word_exec(spell));
            s.append(":");
            s.append(feature_word_exec(cost_feature));
            s.append(":");
            s.append(rarity_word_exec(rarity));
            s.append(":");
            append_decimal(&mut s, cost as u64);
            s.append(":");
            append_decimal(&mut s, value as u64);
        },
        ItemType::Chest { tier } => {
            s.append(":");
            s.append("chest");
            s.append(":");
            append_decimal(&mut s, item.level as u64);
            s.append(":");
            append_decimal(&mut s, tier as u64);
        },
        ItemType::Equipment { feature, rarity, equipment_type, value } => {
            s.append(":");
            s.append(slot_word_exec(equipment_type));
            s.append(":");
            append_decimal(&mut s, item.level as u64);
            s.append(":");
            s.append(feature_word_exec(feature));
            s.append(":");
            s.append(rarity_word_exec(rarity));
            s.append(":");
            append_decimal(&mut s, value as u64);
        },
        ItemType::Zombie => {
            return None;
        },
    }
    Some(s)
}

/// The leaf string of a character: its version and level.
pub fn get_merkle_string_for_caster(uri: &str, caster: Caster) -> (r: String)
    ensures
        r@ == caster_leaf(uri@, caster),
{
    let mut s = String::from_str(uri);
    s.append(":");
    s.append("caster");
    s.append(":");
    append_decimal(&mut s, caster.version as u64);
    s.append(":");
    append_decimal(&mut s, caster.level as u64);
    s
}

/// `a` comes before `b` or equals it, byte by byte.
pub open spec fn lex_le(a: Seq<u8>, b: Seq<u8>) -> bool
    decreases a.len(),
{
    if a.len() == 0 || b.len() == 0 {
        a.len() <= b.len()
    } else if a[0] != b[0] {
        a[0] < b[0]
    } else {
        lex_le(a.drop_first(), b.drop_first())
    }
}

fn bytes_le(a: &[u8; 32], b: &[u8; 32]) -> (r: bool)
    ensures
        r == lex_le(a@, b@),
{
    assert(a@.subrange(0, 32) =~= a@ && b@.subrange(0, 32) =~= b@);
    let mut i: usize = 0;
    while i < 32
        invariant
            0 <= i <= 32,
            forall|j: int| 0 <= j < i ==> a@[j] == b@[j],
            lex_le(a@, b@) == lex_le(a@.subrange(i as int, 32), b@.subrange(i as int, 32)),
        decreases 32 - i,
    {
        assert(a@.subrange(i as int, 32).drop_first() =~= a@.subrange(i as int + 1, 32));
        assert(b@.subrange(i as int, 32).drop_first() =~= b@.subrange(i as int + 1, 32));
        if a[i] != b[i] {
            return a[i] < b[i];
        }
        i = i + 1;
    }
    true
}

fn bytes_eq(a: &[u8; 32], b: &[u8; 32]) -> (r: bool)
    ensures
        r == (a@ == b@),
{
    let mut i: usize = 0;
    while i < 32
        invariant
            0 <= i <= 32,
            forall|j: int| 0 <= j < i ==> a@[j] == b@[j],
        decreases 32 - i,
    {
        if a[i] != b[i] {
            return false;
        }
        i = i + 1;
    }
    assert(a@ =~= b@);
    true
}

/// The digest of a pair, the lower one first.
pub open spec fn pair_digest(a: Seq<u8>, b: Seq<u8>) -> Seq<u8> {
    if lex_le(a, b) { keccak_of(a + b) } else { keccak_of(b + a) }
}

/// The root that a proof leads to from `leaf`, after its first `n` elements.
pub open spec fn proof_root(leaf: Seq<u8>, proof: Seq<[u8; 32]>, n: int) -> Seq<u8>
    decreases n,
{
    if n <= 0 {
        leaf
    } else {
        pair_digest(proof_root(leaf, proof, n - 1), proof[n - 1]@)
    }
}

/// Checks a merkle proof: the leaf, hashed in turn with each element of the
/// proof (the lower of the two first), must give the root.
pub fn verify_merkle_proof(proof: Vec<[u8; 32]>, root: [u8; 32], leaf: [u8; 32]) -> (r: bool)
    ensures
        r == (proof_root(leaf@, proof@, proof@.len() as int) == root@),
{
    let mut computed: [u8; 32] = leaf;
    let mut i: usize = 0;
    while i < proof.len()
        invariant
            0 <= i <= proof@.len(),
            computed@ == proof_root(leaf@, proof@, i as int),
        decreases proof@.len() - i,
    {
        let element = proof[i];
        if bytes_le(&computed, &element) {
            computed = keccak_pair(&computed, &element);
        } else {
            computed = keccak_pair(&element, &computed);
        }
        i = i + 1;
    }
    bytes_eq(&computed, &root)
}

/// The digest of a leaf string.
pub open spec fn leaf_digest(s: Seq<char>) -> Seq<u8> {
    keccak_of(encode_utf8(s))
}

fn digest_of_string(s: &String) -> (r: [u8; 32])
    ensures
        r@ == leaf_digest(s@),
{
    let bytes = s.as_str().as_bytes();
    let empty: [u8; 0] = [];
    let r = keccak_pair(bytes, &empty);
    assert(bytes@ + empty@ =~= bytes@);
    r
}

fn str_eq(a: &str, b: &str) -> (r: bool)
    ensures
        r == (a@ == b@),
{
    let n = a.unicode_len();
    if n != b.unicode_len() {
        return false;
    }
    let mut i: usize = 0;
    while i < n
        invariant
            0 <= i <= n,
            n == a@.len() && n == b@.len(),
            forall|j: int| 0 <= j < i ==> a@[j] == b@[j],
        decreases n - i,
    {
        if a.get_char(i) != b.get_char(i) {
            return false;
        }
        i = i + 1;
    }
    assert(a@ =~= b@);
    true
}

/// What an item minted as an NFT keeps of the item.
#[derive(Clone, Copy, Debug)]
pub struct MetadataItem {
    pub game: Pubkey,
    pub owner: Pubkey,
    pub level: u8,
    pub item_type: ItemType,
    pub equipped_owner: Option<Pubkey>,
}

/// What a character minted as an NFT keeps of it.
#[derive(Clone, Copy, Debug)]
pub struct MetadataCaster {
    pub version: u8,
    pub level: u8,
    pub experience: u64,
    pub owner: Pubkey,
    pub modifiers: Modifiers,
    pub turn_commit: Option<TurnCommit>,
}

/// The record of an item minted as an NFT, addressed by its mint.
#[derive(Clone, Copy, Debug)]
pub struct MetadataNFTItem {
    pub self_bump: u8,
    pub mint_bump: u8,
    pub mint: Pubkey,
    pub item: MetadataItem,
}

/// The record of a character minted as an NFT, addressed by its mint.
#[derive(Clone, Copy, Debug)]
pub struct MetadataNFTCaster {
    pub self_bump: u8,
    pub mint_bump: u8,
    pub mint: Pubkey,
    pub caster: MetadataCaster,
}

/// The level that the merkle root of an item's kind is keyed by: 0 for
/// chests and spell books, else the item's level.
pub open spec fn root_level(item: Item) -> u8 {
    if item.item_type is Chest || item.item_type is SpellBook { 0 } else { item.level }
}

/// Why minting an item is refused, if it is; `proof_ok` says whether the
/// proof leads from the item's leaf to the root.
pub open spec fn mint_item_error(item: Item, type_str: Seq<char>, item_level: u8, proof_ok: bool) -> Option<ErrorCode> {
    if item.equipped_owner is Some {
        Some(ErrorCode::ItemCantBeMintIfEquipped)
    } else if item_type_name(item.item_type)@ != type_str || root_level(item) != item_level {
        Some(ErrorCode::InvalidMerkleRootSent)
    } else if item.item_type is Zombie {
        Some(ErrorCode::InvalidItemForMerkleProof)
    } else if !proof_ok {
        Some(ErrorCode::InvalidNFTURI)
    } else {
        None
    }
}

/// Checks that an item may be minted under `nft_uri`: it is not equipped,
/// the root named by `item_type_str` and `item_level` is its kind's, and the
/// proof leads from the digest of its leaf string to `root`. Returns what
/// the NFT keeps of it.
pub fn mint_item(
    item: Item,
    item_type_str: &str,
    item_level: u8,
    nft_uri: &str,
    merkle_proof: Vec<[u8; 32]>,
    root: [u8; 32],
) -> (r: Result<MetadataItem, ErrorCode>)
    ensures
        ({
            let proof_ok = item_leaf(nft_uri@, item) matches Some(l) && proof_root(
                leaf_digest(l),
                merkle_proof@,
                merkle_proof@.len() as int,
            ) == root@;
            match mint_item_error(item, item_type_str@, item_level, proof_ok) {
                Some(e) => r == Err::<MetadataItem, ErrorCode>(e),
                None => r == Ok::<MetadataItem, ErrorCode>(
                    MetadataItem {
                        game: item.game,
                        owner: item.owner,
                        level: item.level,
                        item_type: item.item_type,
                        equipped_owner: None,
                    },
                ),
            }
        }),
{
    if item.equipped_owner.is_some() {
        return Err(ErrorCode::ItemCantBeMintIfEquipped);
    }
    let kind = item.item_type.kind_name();
    let provided_level: u8 = match item.item_type {
        ItemType::Chest { .. } | ItemType::SpellBook { .. } => 0,
        _ => item.level,
    };
    if !str_eq(kind, item_type_str) || provided_level != item_level {
        return Err(ErrorCode::InvalidMerkleRootSent);
    }
    let leaf_string = match get_merkle_string_for_item(nft_uri, item) {
        Some(s) => s,
        None => return Err(ErrorCode::InvalidItemForMerkleProof),
    };
    let leaf = digest_of_string(&leaf_string);
    if !verify_merkle_proof(merkle_proof, root, leaf) {
        return Err(ErrorCode::InvalidNFTURI);
    }
    Ok(MetadataItem {
        game: item.game,
        owner: item.owner,
        level: item.level,
        item_type: item.item_type,
        equipped_owner: None,
    })
}

/// The experience a minted character keeps: the floor of its level.
pub open spec fn level_floor_experience(level: u8) -> u64 {
    if level == 1 { 0 } else { EXPERIENCE_REQUIRED_PER_LEVEL@[level - 2] }
}

pub open spec fn wears_anything(m: Modifiers) -> bool {
    m.robe is Some || m.staff is Some || m.head is Some || m.spell_book is Some
}

/// Checks that a character may be minted under `nft_uri`: no pending turn,
/// nothing worn, the root of level 0, and the proof leads from the digest of
/// its leaf string to `root`. Its experience is brought down to the floor of
/// its level, so that each level has one NFT. Returns what the NFT keeps.
pub fn mint_caster(
    caster: Caster,
    nft_uri: &str,
    merkle_proof: Vec<[u8; 32]>,
    root: [u8; 32],
    item_level: u8,
) -> (r: Result<MetadataCaster, ErrorCode>)
    requires
        1 <= caster.level <= 31,
    ensures
        ({
            let proof_ok = proof_root(
                leaf_digest(caster_leaf(nft_uri@, caster)),
                merkle_proof@,
                merkle_proof@.len() as int,
            ) == root@;
            if caster.turn_commit is Some {
                r == Err::<MetadataCaster, ErrorCode>(ErrorCode::InvalidCasterMintPendingTurn)
            } else if wears_anything(caster.modifiers) {
                r == Err::<MetadataCaster, ErrorCode>(ErrorCode::InvalidCasterMintEquipped)
            } else if item_level != 0 {
                r == Err::<MetadataCaster, ErrorCode>(ErrorCode::InvalidMerkleRootSent)
            } else if !proof_ok {
                r == Err::<MetadataCaster, ErrorCode>(ErrorCode::InvalidNFTURI)
            } else {
                r == Ok::<MetadataCaster, ErrorCode>(
                    MetadataCaster {
                        version: caster.version,
                        level: caster.level,
                        experience: level_floor_experience(caster.level),
                        owner: caster.owner,
                        modifiers: caster.modifiers,
                        turn_commit: None,
                    },
                )
            }
        }),
{
    let experience: u64 = if caster.level == 1 {
        0
    } else {
        EXPERIENCE_REQUIRED_PER_LEVEL[(caster.level - 2) as usize]
    };
    if caster.turn_commit.is_some() {
        return Err(ErrorCode::InvalidCasterMintPendingTurn);
    }
    let m = caster.modifiers;
    if m.robe.is_some() || m.staff.is_some() || m.head.is_some() || m.spell_book.is_some() {
        return Err(ErrorCode::InvalidCasterMintEquipped);
    }
    if item_level != 0 {
        return Err(ErrorCode::InvalidMerkleRootSent);
    }
    let leaf_string = get_merkle_string_for_caster(nft_uri, caster);
    let leaf = digest_of_string(&leaf_string);
    if !verify_merkle_proof(merkle_proof, root, leaf) {
        return Err(ErrorCode::InvalidNFTURI);
    }
    Ok(MetadataCaster {
        version: caster.version,
        level: caster.level,
        experience,
        owner: caster.owner,
        modifiers: caster.modifiers,
        turn_commit: None,
    })
}

} // verus!
