use vstd::prelude::*;

use crate::forge::{
    after_claim, burn_failure, claim_record_of, feed_orb_failure, feed_orb_outcome,
    FeedOrb,
};
use crate::registry::{claims_asset, ClaimRegistry};
use crate::state::ErrorCode;

verus! {

/// An asset has at most one claim record: two records of a well-formed registry
/// that name the same asset are the same record. `feed_orb` keeps the registry
/// well-formed, however many claims are attempted.
pub proof fn lemma_one_record_per_asset(claims: ClaimRegistry, i: int, j: int)
    requires
        claims.wf(),
        0 <= i < claims@.len(),
        0 <= j < claims@.len(),
        claims@[i].orb_mint@ == claims@[j].orb_mint@,
    ensures
        i == j,
{
}

/// A claim while the forge is paused fails with `ProgramPaused`, whatever the
/// other accounts hold; `feed_orb` then changes nothing.
pub proof fn lemma_paused_claim_fails(ctx: FeedOrb)
    requires
        ctx.forge_state.paused,
    ensures
        feed_orb_failure(ctx) == Some(ErrorCode::ProgramPaused),
{
}

/// A successful claim adds exactly one to the claim counter, and its one event
/// and its debit carry the threshold in force at the call.
pub proof fn lemma_claim_counts_once(ctx: FeedOrb, chain_id: u16)
    requires
        feed_orb_failure(ctx) is None,
        ctx.forge_state.total_claimed < u64::MAX,
    ensures
        after_claim(ctx.forge_state).total_claimed == ctx.forge_state.total_claimed + 1,
        feed_orb_outcome(ctx, chain_id).event.rari_burned == ctx.forge_state.rari_threshold,
        feed_orb_outcome(ctx, chain_id).burn.amount == ctx.forge_state.rari_threshold,
{
}

/// Once an asset is claimed, every later claim of it fails, by whichever
/// claimer, so that it changes nothing; when the claim passes the pause,
/// metadata and payment checks, the failure is `AlreadyClaimed`.
pub proof fn lemma_second_claim_fails(first: FeedOrb, chain_id: u16, second: FeedOrb)
    requires
        feed_orb_failure(first) is None,
        second.forge_state == after_claim(first.forge_state),
        second.claims@ == first.claims@.push(claim_record_of(first, chain_id)),
        second.orb_mint@ == first.orb_mint@,
    ensures
        feed_orb_failure(second) is Some,
        !second.forge_state.paused && second.orb_metadata.mint@ == second.orb_mint@
            && burn_failure(second.forge_state, second.user_rari_account, second.user) is None
            ==> feed_orb_failure(second) == Some(ErrorCode::AlreadyClaimed),
{
    let n = first.claims@.len() as int;
    assert(second.claims@[n].orb_mint@ == second.orb_mint@);
    assert(claims_asset(second.claims@, second.orb_mint@));
}

} // verus!
