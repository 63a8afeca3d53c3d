use vstd::prelude::*;

use create_proposal::new_proposal;
use credit_bank::credit_step;
use credit_winner::payout_step;
use make_prediction::stake_step;
use settle_proposal::settle_step;

pub mod create_proposal;
pub mod credit_bank;
pub mod credit_winner;
pub mod errors;
pub mod initialize_bank;
pub mod laws;
pub mod make_prediction;
pub mod settle_proposal;
pub mod solvency;
pub mod state;

pub use create_proposal::{create_proposal, CreateProposal};
pub use credit_bank::{credit_bank, sol_to_lamports, CreditBank};
pub use credit_winner::{credit_winner, prediction_wins, CreditWinner};
pub use errors::MyErrors;
pub use initialize_bank::{initialize_bank, InitializeBank};
pub use make_prediction::{make_prediction, MakePrediction};
pub use settle_proposal::{settle_proposal, SettleProposal};
pub use solvency::insolvency_risk;
pub use state::{Bank, Proposal, Pubkey, UserPrediction, Wallet};

verus! {

/// Entry point: creates the bank if it does not exist yet.
pub fn initialize_a_bank(ctx: &mut InitializeBank) -> (r: Result<(), MyErrors>)
    ensures
        r == Ok::<(), MyErrors>(()),
        final(ctx).bank == Some(
            match old(ctx).bank {
                Some(b) => b,
                None => Bank { lamports: 0 },
            },
        ),
{
    initialize_bank(ctx)
}

/// Entry point: funds the bank with `amount` lamports from the owner.
pub fn credit_bank_balance(ctx: &mut CreditBank, amount: u64) -> (r: Result<(), MyErrors>)
    ensures
        match credit_step(old(ctx).bank, old(ctx).owner, amount) {
            Ok((b, w)) => r == Ok::<(), MyErrors>(()) && final(ctx).bank == b && final(ctx).owner
                == w,
            Err(e) => r == Err::<(), MyErrors>(e) && *final(ctx) == *old(ctx),
        },
{
    credit_bank(ctx, amount)
}

/// Entry point: opens a proposal in an empty slot.
pub fn create_a_proposal(ctx: &mut CreateProposal, coin: Pubkey, price: u64, expiry: i64) -> (r:
    Result<(), MyErrors>)
    ensures
        match old(ctx).proposal {
            Some(_) => r == Err::<(), MyErrors>(MyErrors::ProposalAlreadyExists) && *final(ctx)
                == *old(ctx),
            None => r == Ok::<(), MyErrors>(()) && final(ctx).authority == old(ctx).authority
                && final(ctx).proposal == Some(new_proposal(old(ctx).authority, coin, price, expiry)),
        },
{
    create_proposal(ctx, coin, price, expiry)
}

/// Entry point: stakes on a proposal at time `now`.
pub fn make_a_prediction(ctx: &mut MakePrediction, now: i64, go_long: bool, amount: u64) -> (r:
    Result<(), MyErrors>)
    ensures
        final(ctx).proposal == old(ctx).proposal,
        match stake_step(old(ctx).proposal, old(ctx).bank, old(ctx).user, now, go_long, amount) {
            Ok((p, b, w)) => r == Ok::<(), MyErrors>(()) && final(ctx).user_prediction == p
                && final(ctx).bank == b && final(ctx).user == w,
            Err(e) => r == Err::<(), MyErrors>(e) && *final(ctx) == *old(ctx),
        },
{
    make_prediction(ctx, now, go_long, amount)
}

/// Entry point: settles a proposal at time `now` with the reported final price.
pub fn settle_a_proposal(ctx: &mut SettleProposal, now: i64, price_on_expiry: u64) -> (r: Result<
    (),
    MyErrors,
>)
    ensures
        final(ctx).authority == old(ctx).authority,
        match settle_step(old(ctx).proposal, old(ctx).authority, now, price_on_expiry) {
            Ok(p) => r == Ok::<(), MyErrors>(()) && final(ctx).proposal == p,
            Err(e) => r == Err::<(), MyErrors>(e) && final(ctx).proposal == old(ctx).proposal,
        },
{
    settle_proposal(ctx, now, price_on_expiry)
}

/// Entry point: resolves a prediction and pays a winner.
pub fn credit_the_winner(ctx: &mut CreditWinner) -> (r: Result<(), MyErrors>)
    ensures
        final(ctx).proposal == old(ctx).proposal,
        match payout_step(old(ctx).proposal, old(ctx).bank, old(ctx).user_prediction, old(ctx).user) {
            Ok((p, b, w)) => r == Ok::<(), MyErrors>(()) && final(ctx).user_prediction == p
                && final(ctx).bank == b && final(ctx).user == w,
            Err(e) => r == Err::<(), MyErrors>(e) && *final(ctx) == *old(ctx),
        },
{
    credit_winner(ctx)
}

} // verus!
