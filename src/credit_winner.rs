use vstd::prelude::*;

use crate::errors::MyErrors;
use crate::state::{debit_step, Bank, Proposal, UserPrediction, Wallet};

verus! {

/// The accounts that a payout touches: the settled proposal, the bank that pays,
/// the prediction being resolved, and the claimant, who must own the prediction.
#[derive(Debug, Clone, Copy)]
pub struct CreditWinner {
    pub proposal: Proposal,
    pub bank: Bank,
    pub user_prediction: UserPrediction,
    pub user: Wallet,
}

/// A long prediction wins when the final price is above the reference price, a short
/// one when it is below. An unchanged price loses either way.
pub open spec fn wins(proposal: Proposal, prediction: UserPrediction) -> bool {
    (prediction.go_long && proposal.price_on_expiry > proposal.price) || (!prediction.go_long
        && proposal.price_on_expiry < proposal.price)
}

/// What a payout moves from the bank: twice the stake for a winner, nothing otherwise.
pub open spec fn payout_amount(proposal: Proposal, prediction: UserPrediction) -> int {
    if wins(proposal, prediction) {
        2 * prediction.amount
    } else {
        0
    }
}

/// Resolving `prediction` against `proposal` for `user`: the resolved prediction, the
/// bank and the user's wallet after the transfer, or the reason the payout is refused.
pub open spec fn payout_step(
    proposal: Proposal,
    bank: Bank,
    prediction: UserPrediction,
    user: Wallet,
) -> Result<(UserPrediction, Bank, Wallet), MyErrors> {
    if !proposal.settled {
        Err(MyErrors::ProposalNotSettled)
    } else if prediction.resolved {
        Err(MyErrors::PredictionAlreadyResolved)
    } else if user.key != prediction.authority {
        Err(MyErrors::Unauthorized)
    } else {
        match debit_step(bank, user, payout_amount(proposal, prediction)) {
            Err(e) => Err(e),
            Ok((b, w)) => Ok((UserPrediction { resolved: true, ..prediction }, b, w)),
        }
    }
}

/// Whether `prediction` wins on the settled price of `proposal`.
pub fn prediction_wins(proposal: &Proposal, prediction: &UserPrediction) -> (r: bool)
    ensures
        r == wins(*proposal, *prediction),
{
    (prediction.go_long && proposal.price_on_expiry > proposal.price) || (!prediction.go_long
        && proposal.price_on_expiry < proposal.price)
}

/// Resolves the prediction: pays a winner twice the stake out of the bank, pays a
/// loser nothing, and in both cases marks the prediction resolved.
/// Either all of it happens or, on an error, nothing does.
pub fn credit_winner(ctx: &mut CreditWinner) -> (r: Result<(), MyErrors>)
    ensures
        final(ctx).proposal == old(ctx).proposal,
        match payout_step(old(ctx).proposal, old(ctx).bank, old(ctx).user_prediction, old(ctx).user) {
            Ok((p, b, w)) => r == Ok::<(), MyErrors>(()) && final(ctx).user_prediction == p
                && final(ctx).bank == b && final(ctx).user == w,
            Err(e) => r == Err::<(), MyErrors>(e) && *final(ctx) == *old(ctx),
        },
{
    if !ctx.proposal.settled {
        return Err(MyErrors::ProposalNotSettled);
    }
    if ctx.user_prediction.resolved {
        return Err(MyErrors::PredictionAlreadyResolved);
    }
    if ctx.user.key != ctx.user_prediction.authority {
        return Err(MyErrors::Unauthorized);
    }
    if prediction_wins(&ctx.proposal, &ctx.user_prediction) {
        if ctx.user_prediction.amount > u64::MAX / 2 {
            // twice the stake exceeds any balance the bank can hold
            return Err(MyErrors::InsufficientFunds);
        }
        let payout: u64 = ctx.user_prediction.amount * 2;
        match ctx.bank.debit(&mut ctx.user, payout) {
            Err(e) => {
                return Err(e);
            },
            Ok(()) => {},
        }
    }
    ctx.user_prediction.resolved = true;
    Ok(())
}

} // verus!
