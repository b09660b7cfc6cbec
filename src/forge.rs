use vstd::prelude::*;

use crate::pubkey::Pubkey;
use crate::registry::{claims_asset, ClaimRegistry};
use crate::state::{
    BridgePayload, BurnInstruction, ClaimRecord, ErrorCode, ForgeState, InitializeParams,
    OrbFedEvent, NATIVE_CHAIN_ID,
};

verus! {

/// The accounts of `initialize`: the slot that holds the forge, empty until the
/// forge exists, and the signer who becomes its authority.
#[derive(Clone, Copy, Debug)]
pub struct Initialize {
    pub forge_state: Option<ForgeState>,
    pub authority: Pubkey,
}

/// The accounts of `toggle_pause`: the forge and the signer.
#[derive(Clone, Copy, Debug)]
pub struct TogglePause {
    pub forge_state: ForgeState,
    pub authority: Pubkey,
}

/// The accounts of `update_threshold`: the forge and the signer.
#[derive(Clone, Copy, Debug)]
pub struct UpdateThreshold {
    pub forge_state: ForgeState,
    pub authority: Pubkey,
}

/// The metadata record offered for an asset: the mint it is bound to.
#[derive(Clone, Copy, Debug)]
pub struct Metadata {
    pub mint: Pubkey,
}

/// The tag byte that opens a metadata record.
pub const METADATA_KEY: u8 = 4;

/// The offset of the mint within a metadata record: after the tag byte and the
/// update authority.
pub const METADATA_MINT_OFFSET: usize = 33;

/// The mint that the stored metadata record `data` is bound to, if `data` is a
/// metadata record: it opens with the tag byte and holds the mint's 32 bytes
/// after the update authority.
pub open spec fn metadata_mint_of(data: Seq<u8>) -> Option<Seq<u8>> {
    if data.len() >= METADATA_MINT_OFFSET + 32 && data[0] == METADATA_KEY {
        Some(data.subrange(METADATA_MINT_OFFSET as int, METADATA_MINT_OFFSET + 32))
    } else {
        None
    }
}

impl Metadata {
    /// Reads the mint out of a stored metadata record; `None` when `data` is
    /// not one.
    pub fn from_account_data(data: &[u8]) -> (r: Option<Metadata>)
        ensures
            match metadata_mint_of(data@) {
                Some(m) => r is Some && r.unwrap().mint@ == m,
                None => r is None,
            },
    {
        if data.len() < METADATA_MINT_OFFSET + 32 || data[0] != METADATA_KEY {
            return None;
        }
        let mut bytes = [0u8; 32];
        let mut i: usize = 0;
        while i < 32
            invariant
                0 <= i <= 32,
                data@.len() >= METADATA_MINT_OFFSET + 32,
                bytes@.len() == 32,
                forall|k: int| 0 <= k < i ==> bytes@[k] == data@[METADATA_MINT_OFFSET + k],
            decreases 32 - i,
        {
            bytes[i] = data[METADATA_MINT_OFFSET + i];
            i = i + 1;
        }
        proof {
            assert(bytes@ =~= data@.subrange(METADATA_MINT_OFFSET as int, METADATA_MINT_OFFSET + 32));
        }
        Some(Metadata { mint: Pubkey::new_from_array(bytes) })
    }
}

/// A token account as the token ledger holds it.
#[derive(Clone, Copy, Debug)]
pub struct TokenAccount {
    /// The account's own address.
    pub address: Pubkey,
    /// The token it holds.
    pub mint: Pubkey,
    /// The identity that may debit it.
    pub owner: Pubkey,
    /// Its balance.
    pub amount: u64,
}

/// The accounts of `feed_orb`: the forge, the claims made so far, the asset and
/// its metadata, the claimer's gating-token account, the claimer, and the
/// ledger's clock.
pub struct FeedOrb {
    pub forge_state: ForgeState,
    pub claims: ClaimRegistry,
    pub orb_mint: Pubkey,
    pub orb_metadata: Metadata,
    pub user_rari_account: TokenAccount,
    pub user: Pubkey,
    pub now: i64,
}

/// Everything a successful claim produces besides the new state: the record
/// stored, the event for indexers, the debit the token ledger must perform, and
/// the message for the bridge when the claim aims at another chain.
#[derive(Clone, Copy, Debug)]
pub struct FeedOrbOutcome {
    pub record: ClaimRecord,
    pub event: OrbFedEvent,
    pub burn: BurnInstruction,
    pub bridge_message: Option<BridgePayload>,
}

/// The forge as `initialize` creates it.
pub open spec fn initial_state(authority: Pubkey, params: InitializeParams) -> ForgeState {
    ForgeState {
        authority,
        wormhole_bridge: params.wormhole_bridge,
        rari_mint: params.rari_mint,
        rari_threshold: params.rari_threshold,
        total_claimed: 0,
        paused: false,
    }
}

/// Whether `signer` is the forge's authority.
pub open spec fn is_authority(state: ForgeState, signer: Pubkey) -> bool {
    state.authority@ == signer@
}

/// Why the claimer's account cannot pay for a claim, if it cannot: it must be
/// owned by the claimer, hold the gating token, and hold at least the threshold.
pub open spec fn burn_failure(state: ForgeState, account: TokenAccount, user: Pubkey) -> Option<
    ErrorCode,
> {
    if account.owner@ != user@ {
        Some(ErrorCode::Unauthorized)
    } else if account.mint@ != state.rari_mint@ || account.amount < state.rari_threshold {
        Some(ErrorCode::InsufficientRariBalance)
    } else {
        None
    }
}

/// The debit that pays for a claim: the threshold, in the gating token, from
/// the claimer's account, signed by the claimer.
pub open spec fn burn_of(state: ForgeState, account: TokenAccount, user: Pubkey) -> BurnInstruction {
    BurnInstruction {
        mint: state.rari_mint,
        from: account.address,
        authority: user,
        amount: state.rari_threshold,
    }
}

/// The first check that a claim fails, in the order: pause, metadata, payment,
/// uniqueness; `None` when the claim succeeds.
pub open spec fn feed_orb_failure(ctx: FeedOrb) -> Option<ErrorCode> {
    if ctx.forge_state.paused {
        Some(ErrorCode::ProgramPaused)
    } else if ctx.orb_metadata.mint@ != ctx.orb_mint@ {
        Some(ErrorCode::InvalidOrbMetadata)
    } else if burn_failure(ctx.forge_state, ctx.user_rari_account, ctx.user) is Some {
        burn_failure(ctx.forge_state, ctx.user_rari_account, ctx.user)
    } else if claims_asset(ctx.claims@, ctx.orb_mint@) {
        Some(ErrorCode::AlreadyClaimed)
    } else {
        None
    }
}

/// The record a successful claim stores.
pub open spec fn claim_record_of(ctx: FeedOrb, chain_id: u16) -> ClaimRecord {
    ClaimRecord {
        orb_mint: ctx.orb_mint,
        claimer: ctx.user,
        claimed_at: ctx.now,
        target_chain: chain_id,
    }
}

/// The message for the bridge that a claim needs: none on the native chain.
pub open spec fn bridge_message_of(record: ClaimRecord) -> Option<BridgePayload> {
    if record.target_chain == NATIVE_CHAIN_ID {
        None
    } else {
        Some(
            BridgePayload {
                orb_mint: record.orb_mint,
                claimer: record.claimer,
                target_chain: record.target_chain,
            },
        )
    }
}

/// What a successful claim produces.
pub open spec fn feed_orb_outcome(ctx: FeedOrb, chain_id: u16) -> FeedOrbOutcome {
    FeedOrbOutcome {
        record: claim_record_of(ctx, chain_id),
        event: OrbFedEvent {
            orb_mint: ctx.orb_mint,
            claimer: ctx.user,
            target_chain: chain_id,
            rari_burned: ctx.forge_state.rari_threshold,
        },
        burn: burn_of(ctx.forge_state, ctx.user_rari_account, ctx.user),
        bridge_message: bridge_message_of(claim_record_of(ctx, chain_id)),
    }
}

/// The forge after one more successful claim.
pub open spec fn after_claim(state: ForgeState) -> ForgeState {
    ForgeState { total_claimed: (state.total_claimed + 1) as u64, ..state }
}

/// The accounts of `feed_orb` other than the forge and the claims are the same.
pub open spec fn same_inputs(a: FeedOrb, b: FeedOrb) -> bool {
    &&& a.orb_mint == b.orb_mint
    &&& a.orb_metadata == b.orb_metadata
    &&& a.user_rari_account == b.user_rari_account
    &&& a.user == b.user
    &&& a.now == b.now
}

/// Creates the forge with `ctx.authority` as its authority, unless it exists.
pub fn initialize(ctx: &mut Initialize, params: InitializeParams) -> (r: Result<(), ErrorCode>)
    ensures
        old(ctx).forge_state is Some ==> r == Err::<(), ErrorCode>(ErrorCode::AlreadyInitialized)
            && *final(ctx) == *old(ctx),
        old(ctx).forge_state is None ==> r is Ok && final(ctx).authority == old(ctx).authority
            && final(ctx).forge_state == Some(initial_state(old(ctx).authority, params)),
{
    if ctx.forge_state.is_some() {
        return Err(ErrorCode::AlreadyInitialized);
    }
    ctx.forge_state = Some(
        ForgeState {
            authority: ctx.authority,
            wormhole_bridge: params.wormhole_bridge,
            rari_mint: params.rari_mint,
            rari_threshold: params.rari_threshold,
            total_claimed: 0,
            paused: false,
        },
    );
    Ok(())
}

/// Flips the pause flag; only the authority may.
pub fn toggle_pause(ctx: &mut TogglePause) -> (r: Result<(), ErrorCode>)
    ensures
        final(ctx).authority == old(ctx).authority,
        !is_authority(old(ctx).forge_state, old(ctx).authority) ==> r == Err::<(), ErrorCode>(
            ErrorCode::Unauthorized,
        ) && final(ctx).forge_state == old(ctx).forge_state,
        is_authority(old(ctx).forge_state, old(ctx).authority) ==> r is Ok
            && final(ctx).forge_state == (ForgeState {
                paused: !old(ctx).forge_state.paused,
                ..old(ctx).forge_state
            }),
{
    if !ctx.forge_state.authority.same(&ctx.authority) {
        return Err(ErrorCode::Unauthorized);
    }
    ctx.forge_state.paused = !ctx.forge_state.paused;
    Ok(())
}

/// Sets the amount a claim burns; only the authority may.
pub fn update_threshold(ctx: &mut UpdateThreshold, new_threshold: u64) -> (r: Result<
    (),
    ErrorCode,
>)
    ensures
        final(ctx).authority == old(ctx).authority,
        !is_authority(old(ctx).forge_state, old(ctx).authority) ==> r == Err::<(), ErrorCode>(
            ErrorCode::Unauthorized,
        ) && final(ctx).forge_state == old(ctx).forge_state,
        is_authority(old(ctx).forge_state, old(ctx).authority) ==> r is Ok
            && final(ctx).forge_state == (ForgeState {
                rari_threshold: new_threshold,
                ..old(ctx).forge_state
            }),
{
    if !ctx.forge_state.authority.same(&ctx.authority) {
        return Err(ErrorCode::Unauthorized);
    }
    ctx.forge_state.rari_threshold = new_threshold;
    Ok(())
}

/// Checks that `account` can pay for a claim by `user` and returns the debit
/// that pays for it.
pub fn validate_burn(state: &ForgeState, account: &TokenAccount, user: &Pubkey) -> (r: Result<
    BurnInstruction,
    ErrorCode,
>)
    ensures
        match burn_failure(*state, *account, *user) {
            Some(e) => r == Err::<BurnInstruction, ErrorCode>(e),
            None => r == Ok::<BurnInstruction, ErrorCode>(burn_of(*state, *account, *user)),
        },
{
    if !account.owner.same(user) {
        return Err(ErrorCode::Unauthorized);
    }
    if !account.mint.same(&state.rari_mint) || account.amount < state.rari_threshold {
        return Err(ErrorCode::InsufficientRariBalance);
    }
    Ok(
        BurnInstruction {
            mint: state.rari_mint,
            from: account.address,
            authority: *user,
            amount: state.rari_threshold,
        },
    )
}

/// The message for the bridge that `record` needs: none on the native chain.
pub fn bridge_message(record: &ClaimRecord) -> (r: Option<BridgePayload>)
    ensures
        r == bridge_message_of(*record),
{
    if record.target_chain == NATIVE_CHAIN_ID {
        None
    } else {
        Some(
            BridgePayload {
                orb_mint: record.orb_mint,
                claimer: record.claimer,
                target_chain: record.target_chain,
            },
        )
    }
}

/// Claims the asset `ctx.orb_mint` for `ctx.user`, aimed at chain `chain_id`.
/// Either every check passes, and the claim is recorded, counted and described
/// in the outcome, or the first failing check's error is returned and nothing
/// changes. The debit in the outcome is the caller's to carry out in the same
/// transaction.
pub fn feed_orb(ctx: &mut FeedOrb, chain_id: u16) -> (r: Result<FeedOrbOutcome, ErrorCode>)
    requires
        old(ctx).claims.wf(),
        old(ctx).forge_state.total_claimed < u64::MAX,
    ensures
        final(ctx).claims.wf(),
        same_inputs(*final(ctx), *old(ctx)),
        match feed_orb_failure(*old(ctx)) {
            Some(e) => r == Err::<FeedOrbOutcome, ErrorCode>(e)
                && final(ctx).forge_state == old(ctx).forge_state
                && final(ctx).claims@ == old(ctx).claims@,
            None => r == Ok::<FeedOrbOutcome, ErrorCode>(feed_orb_outcome(*old(ctx), chain_id))
                && final(ctx).forge_state == after_claim(old(ctx).forge_state)
                && final(ctx).claims@ == old(ctx).claims@.push(claim_record_of(*old(ctx), chain_id)),
        },
{
    if ctx.forge_state.paused {
        return Err(ErrorCode::ProgramPaused);
    }
    if !ctx.orb_metadata.mint.same(&ctx.orb_mint) {
        return Err(ErrorCode::InvalidOrbMetadata);
    }
    let burn = match validate_burn(&ctx.forge_state, &ctx.user_rari_account, &ctx.user) {
        Ok(b) => b,
        Err(e) => return Err(e),
    };
    let record = ClaimRecord {
        orb_mint: ctx.orb_mint,
        claimer: ctx.user,
        claimed_at: ctx.now,
        target_chain: chain_id,
    };
    match ctx.claims.record_claim(record) {
        Ok(()) => {},
        Err(e) => return Err(e),
    }
    ctx.forge_state.total_claimed = ctx.forge_state.total_claimed + 1;
    let event = OrbFedEvent {
        orb_mint: ctx.orb_mint,
        claimer: ctx.user,
        target_chain: chain_id,
        rari_burned: ctx.forge_state.rari_threshold,
    };
    let bridge_message = bridge_message(&record);
    Ok(FeedOrbOutcome { record, event, burn, bridge_message })
}

} // verus!
