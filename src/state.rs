use vstd::prelude::*;

use crate::pubkey::Pubkey;

verus! {

/// Chain identifier of the host chain: a claim aimed there needs no bridge message.
pub const NATIVE_CHAIN_ID: u16 = 1;

/// The singleton configuration and counters of the forge.
#[derive(Clone, Copy, Debug)]
pub struct ForgeState {
    /// The only identity allowed to pause the forge or change the threshold.
    pub authority: Pubkey,
    /// The bridge endpoint that cross-chain claims are handed to.
    pub wormhole_bridge: Pubkey,
    /// The gating token that a claim burns.
    pub rari_mint: Pubkey,
    /// How many units of the gating token one claim burns.
    pub rari_threshold: u64,
    /// How many claims have succeeded.
    pub total_claimed: u64,
    /// While set, every claim is refused.
    pub paused: bool,
}

/// The persisted proof that an asset has been claimed.
#[derive(Clone, Copy, Debug)]
pub struct ClaimRecord {
    pub orb_mint: Pubkey,
    pub claimer: Pubkey,
    pub claimed_at: i64,
    pub target_chain: u16,
}

/// The configuration handed to `initialize`.
#[derive(Clone, Copy, Debug)]
pub struct InitializeParams {
    pub wormhole_bridge: Pubkey,
    pub rari_mint: Pubkey,
    pub rari_threshold: u64,
}

/// What indexers are told about a successful claim.
#[derive(Clone, Copy, Debug)]
pub struct OrbFedEvent {
    pub orb_mint: Pubkey,
    pub claimer: Pubkey,
    pub target_chain: u16,
    pub rari_burned: u64,
}

/// The message handed to the bridge for a claim aimed at another chain.
#[derive(Clone, Copy, Debug)]
pub struct BridgePayload {
    pub orb_mint: Pubkey,
    pub claimer: Pubkey,
    pub target_chain: u16,
}

/// The debit that the token ledger must perform for a claim: `amount` units of
/// `mint` taken from the account `from`, signed by `authority`.
#[derive(Clone, Copy, Debug)]
pub struct BurnInstruction {
    pub mint: Pubkey,
    pub from: Pubkey,
    pub authority: Pubkey,
    pub amount: u64,
}

/// The ways an instruction of the forge can fail.
#[derive(Clone, Copy, Debug, PartialEq, Eq, Structural)]
pub enum ErrorCode {
    /// The forge is paused.
    ProgramPaused,
    /// The metadata offered is not bound to the asset.
    InvalidOrbMetadata,
    /// The token account holds too little of the gating token.
    InsufficientRariBalance,
    /// The signer is not the identity the operation requires.
    Unauthorized,
    /// The forge already exists.
    AlreadyInitialized,
    /// The asset has been claimed before.
    AlreadyClaimed,
}

impl ErrorCode {
    /// The human-readable message of the error.
    pub fn message(&self) -> (r: String) {
        match self {
            ErrorCode::ProgramPaused => String::from_str("Program is currently paused"),
            ErrorCode::InvalidOrbMetadata => String::from_str("Invalid Orb metadata"),
            ErrorCode::InsufficientRariBalance => String::from_str("Insufficient RARI balance"),
            ErrorCode::Unauthorized => String::from_str("Signer is not authorized"),
            ErrorCode::AlreadyInitialized => String::from_str("Forge is already initialized"),
            ErrorCode::AlreadyClaimed => String::from_str("Orb has already been claimed"),
        }
    }
}

} // verus!
