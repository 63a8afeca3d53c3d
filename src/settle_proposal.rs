use vstd::prelude::*;

use crate::errors::MyErrors;
use crate::state::{Proposal, Pubkey};

verus! {

/// The accounts that settlement touches: the proposal and the signer.
#[derive(Debug, Clone, Copy)]
pub struct SettleProposal {
    pub proposal: Proposal,
    pub authority: Pubkey,
}

/// Settling `proposal` at time `now` with the reported final price: the settled
/// proposal, or the reason settlement is refused. Only the proposal's authority may
/// settle, only once, and not before the expiry.
pub open spec fn settle_step(proposal: Proposal, caller: Pubkey, now: i64, price_on_expiry: u64) -> Result<
    Proposal,
    MyErrors,
> {
    if caller != proposal.authority {
        Err(MyErrors::Unauthorized)
    } else if proposal.settled {
        Err(MyErrors::ProposalAlreadySettled)
    } else if now < proposal.expiry {
        Err(MyErrors::ProposalNotExpired)
    } else {
        Ok(Proposal { settled: true, price_on_expiry, ..proposal })
    }
}

/// Records the final price reported by the authority and closes the proposal.
pub fn settle_proposal(ctx: &mut SettleProposal, now: i64, price_on_expiry: u64) -> (r: Result<
    (),
    MyErrors,
>)
    ensures
        final(ctx).authority == old(ctx).authority,
        match settle_step(old(ctx).proposal, old(ctx).authority, now, price_on_expiry) {
            Ok(p) => r == Ok::<(), MyErrors>(()) && final(ctx).proposal == p,
            Err(e) => r == Err::<(), MyErrors>(e) && final(ctx).proposal == old(ctx).proposal,
        },
{
    if ctx.authority != ctx.proposal.authority {
        return Err(MyErrors::Unauthorized);
    }
    if ctx.proposal.settled {
        return Err(MyErrors::ProposalAlreadySettled);
    }
    if now < ctx.proposal.expiry {
        return Err(MyErrors::ProposalNotExpired);
    }
    ctx.proposal.settled = true;
    ctx.proposal.price_on_expiry = price_on_expiry;
    Ok(())
}

} // verus!
