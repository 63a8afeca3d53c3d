use vstd::prelude::*;

use crate::errors::MyErrors;
use crate::state::{Proposal, Pubkey};

verus! {

/// The accounts that creating a proposal touches: the slot for the new proposal,
/// empty until a proposal is created in it, and its creating authority.
#[derive(Debug, Clone, Copy)]
pub struct CreateProposal {
    pub proposal: Option<Proposal>,
    pub authority: Pubkey,
}

/// A fresh, open proposal: no final price yet, not settled.
pub open spec fn new_proposal(authority: Pubkey, coin: Pubkey, price: u64, expiry: i64) -> Proposal {
    Proposal { authority, coin, price, price_on_expiry: 0, expiry, settled: false }
}

/// Opens a proposal on `coin` against reference `price`, closing at `expiry`, in an
/// empty slot. Nothing is validated: any price and any expiry, past or future, are
/// taken. A slot that already holds a proposal is refused and left as it is.
pub fn create_proposal(ctx: &mut CreateProposal, coin: Pubkey, price: u64, expiry: i64) -> (r:
    Result<(), MyErrors>)
    ensures
        match old(ctx).proposal {
            Some(_) => r == Err::<(), MyErrors>(MyErrors::ProposalAlreadyExists) && *final(ctx)
                == *old(ctx),
            None => r == Ok::<(), MyErrors>(()) && final(ctx).authority == old(ctx).authority
                && final(ctx).proposal == Some(new_proposal(old(ctx).authority, coin, price, expiry)),
        },
{
    if ctx.proposal.is_some() {
        return Err(MyErrors::ProposalAlreadyExists);
    }
    ctx.proposal = Some(
        Proposal {
            authority: ctx.authority,
            coin,
            price,
            price_on_expiry: 0,
            expiry,
            settled: false,
        },
    );
    Ok(())
}

} // verus!
