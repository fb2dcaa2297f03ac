use vstd::prelude::*;

verus! {

/// Every way an instruction can fail; a failure aborts the whole transaction.
#[derive(Clone, Copy, Debug, PartialEq, Eq, Structural)]
pub enum ErrorCode {
    InvalidFunction,
    PrematureCrankPull,
    InvalidMove,
    PendingTurn,
    EmptyTurnCommit,
    SameTurnRedeem,
    PlayerIsPoor,
    ActionAlreadyDone,
    ItemAlreadyInUse,
    ItemNotExists,
    ItemTypeAlreadyEquipped,
    ItemLevelTooHigh,
    InvalidEquipItemType,
    InvalidItemType,
    NotCraftingTile,
    ItemIsNotAChest,
    InvalidResourceTypeForBurn,
    InvalidTokenAmount,
    NoEquipUnequipOnPendingTurn,
    TileNotExists,
    InvalidTileForLooting,
    SpellAccountMissing,
    SpellKeyMismatch,
    NotSuperAdmin,
    InvalidCasterMintEquipped,
    InvalidCasterMintPendingTurn,
    InvalidSpellCost,
    ProvidedSpellBookIsNull,
    InvalidGame,
    InvalidLadaMint,
    InvalidLadaTokenGameAccount,
    InvalidItemForMerkleProof,
    InvalidNFTURI,
    InvalidMerkleRootSent,
    ItemCantBeMintIfEquipped,
    ActionOrderError,
    InvalidInstructionOrdering,
}

impl ErrorCode {
    /// The message shown to the caller.
    pub fn message(&self) -> &'static str {
        match self {
            ErrorCode::InvalidFunction => "Invalid Function",
            ErrorCode::PrematureCrankPull => "Turn isn't over yet!",
            ErrorCode::InvalidMove => "Invalid Move.",
            ErrorCode::PendingTurn => "Pending turn needs to be redeemed first.",
            ErrorCode::EmptyTurnCommit => "No turn to redeem.",
            ErrorCode::SameTurnRedeem => "Turn needs to advance before you can redeem!",
            ErrorCode::PlayerIsPoor => "Not enough resources for action.",
            ErrorCode::ActionAlreadyDone => "You already did this action, wait for next turn.",
            ErrorCode::ItemAlreadyInUse => "Item already equipped by another caster.",
            ErrorCode::ItemNotExists => "Item does not exist.",
            ErrorCode::ItemTypeAlreadyEquipped => "Already have an item of that type equipped.",
            ErrorCode::ItemLevelTooHigh => "Item level is higher than your caster's level.",
            ErrorCode::InvalidEquipItemType => "Item can't be equipped / unequipped.",
            ErrorCode::InvalidItemType => "Item can't be used for crafting.",
            ErrorCode::NotCraftingTile => "This is not a crafting tile.",
            ErrorCode::ItemIsNotAChest => "Item is not a chest.",
            ErrorCode::InvalidResourceTypeForBurn => "Invalid resource for manual burn.",
            ErrorCode::InvalidTokenAmount => "Invalid token amount for burn.",
            ErrorCode::NoEquipUnequipOnPendingTurn => "You can't equip or unequip while you have a pending turn.",
            ErrorCode::TileNotExists => "Invalid location.",
            ErrorCode::InvalidTileForLooting => "Invalid tile type for looting.",
            ErrorCode::SpellAccountMissing => "To redeem a spell you need to provide spell account.",
            ErrorCode::SpellKeyMismatch => "Spell key mismatch.",
            ErrorCode::NotSuperAdmin => "Only super admin can create new game.",
            ErrorCode::InvalidCasterMintEquipped => "Caster can't be minted if it has equipped items.",
            ErrorCode::InvalidCasterMintPendingTurn => "Caster can't be minted if it has a pending turn.",
            ErrorCode::InvalidSpellCost => "Invalid cost type for spell.",
            ErrorCode::ProvidedSpellBookIsNull => "Provided spell book for redeem is null.",
            ErrorCode::InvalidGame => "Invalid game provided.",
            ErrorCode::InvalidLadaMint => "Invalid lada mint provided.",
            ErrorCode::InvalidLadaTokenGameAccount => "Invalid lada token for game provided.",
            ErrorCode::InvalidItemForMerkleProof => "Invalid item for merkle proof.",
            ErrorCode::InvalidNFTURI => "Invalid uri passed for NFT minting.",
            ErrorCode::InvalidMerkleRootSent => "Invalid merkle root sent.",
            ErrorCode::ItemCantBeMintIfEquipped => "Item can't be equipped to mint it.",
            ErrorCode::ActionOrderError => "The order of the actions committed wasn't respected.",
            ErrorCode::InvalidInstructionOrdering => "Invalid number of instructions provided.",
        }
    }
}

} // verus!
