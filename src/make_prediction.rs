use vstd::prelude::*;

use crate::errors::MyErrors;
use crate::state::{deposit_step, Bank, Proposal, UserPrediction, Wallet};

verus! {

/// The accounts that a stake touches: the proposal staked against, the bank that
/// receives the stake, the user's prediction slot for this proposal, and the user.
#[derive(Debug, Clone, Copy)]
pub struct MakePrediction {
    pub proposal: Proposal,
    pub bank: Bank,
    pub user_prediction: UserPrediction,
    pub user: Wallet,
}

/// A stake of `amount` lamports at time `now`: the user's new prediction, the bank
/// and the user's wallet after the transfer, or the reason the stake is refused.
/// A stake is open only while the proposal is unsettled and strictly before its expiry.
/// The new prediction replaces whatever the slot held before.
pub open spec fn stake_step(
    proposal: Proposal,
    bank: Bank,
    user: Wallet,
    now: i64,
    go_long: bool,
    amount: u64,
) -> Result<(UserPrediction, Bank, Wallet), MyErrors> {
    if proposal.settled {
        Err(MyErrors::ProposalAlreadySettled)
    } else if now >= proposal.expiry {
        Err(MyErrors::ProposalHasExpired)
    } else {
        match deposit_step(bank, user, amount as int) {
            Err(e) => Err(e),
            Ok((b, w)) => Ok(
                (UserPrediction { authority: user.key, go_long, amount, resolved: false }, b, w),
            ),
        }
    }
}

/// Records the user's prediction on the proposal and moves the stake into the bank.
/// Either all of it happens or, on an error, nothing does.
pub fn make_prediction(ctx: &mut MakePrediction, now: i64, go_long: bool, amount: u64) -> (r: Result<
    (),
    MyErrors,
>)
    ensures
        final(ctx).proposal == old(ctx).proposal,
        match stake_step(old(ctx).proposal, old(ctx).bank, old(ctx).user, now, go_long, amount) {
            Ok((p, b, w)) => r == Ok::<(), MyErrors>(()) && final(ctx).user_prediction == p
                && final(ctx).bank == b && final(ctx).user == w,
            Err(e) => r == Err::<(), MyErrors>(e) && *final(ctx) == *old(ctx),
        },
{
    if ctx.proposal.settled {
        return Err(MyErrors::ProposalAlreadySettled);
    }
    if now >= ctx.proposal.expiry {
        return Err(MyErrors::ProposalHasExpired);
    }
    match ctx.bank.deposit(&mut ctx.user, amount) {
        Err(e) => Err(e),
        Ok(()) => {
            ctx.user_prediction = UserPrediction {
                authority: ctx.user.key,
                go_long,
                amount,
                resolved: false,
            };
            Ok(())
        },
    }
}

} // verus!
