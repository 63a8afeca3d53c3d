use vstd::prelude::*;

use crate::credit_bank::credit_step;
use crate::credit_winner::{payout_amount, payout_step, wins};
use crate::errors::MyErrors;
use crate::make_prediction::stake_step;
use crate::settle_proposal::settle_step;
use crate::state::{debit_step, Bank, Proposal, Pubkey, UserPrediction, Wallet};

verus! {

/// Once a settlement has gone through, every later settlement of the same proposal
/// fails, and for its authority it fails with `ProposalAlreadySettled`.
pub proof fn settle_succeeds_at_most_once(
    proposal: Proposal,
    caller: Pubkey,
    now: i64,
    price_on_expiry: u64,
    later_caller: Pubkey,
    later_now: i64,
    later_price: u64,
)
    requires
        settle_step(proposal, caller, now, price_on_expiry) is Ok,
    ensures
        settle_step(
            settle_step(proposal, caller, now, price_on_expiry)->Ok_0,
            later_caller,
            later_now,
            later_price,
        ) is Err,
        later_caller == proposal.authority ==> settle_step(
            settle_step(proposal, caller, now, price_on_expiry)->Ok_0,
            later_caller,
            later_now,
            later_price,
        ) == Err::<Proposal, MyErrors>(MyErrors::ProposalAlreadySettled),
{
}

/// Once a payout has resolved a prediction, every later payout on it fails with
/// `PredictionAlreadyResolved`, whatever the (settled) proposal, bank and claimant.
pub proof fn payout_succeeds_at_most_once(
    proposal: Proposal,
    bank: Bank,
    prediction: UserPrediction,
    user: Wallet,
    later_proposal: Proposal,
    later_bank: Bank,
    later_user: Wallet,
)
    requires
        payout_step(proposal, bank, prediction, user) is Ok,
        later_proposal.settled,
    ensures
        payout_step(
            later_proposal,
            later_bank,
            (payout_step(proposal, bank, prediction, user)->Ok_0).0,
            later_user,
        ) == Err::<(UserPrediction, Bank, Wallet), MyErrors>(
            MyErrors::PredictionAlreadyResolved,
        ),
{
}

/// A stake on a settled proposal, or at or after its expiry, always fails, whoever stakes.
pub proof fn stake_refused_once_closed(
    proposal: Proposal,
    bank: Bank,
    user: Wallet,
    now: i64,
    go_long: bool,
    amount: u64,
)
    requires
        proposal.settled || now >= proposal.expiry,
    ensures
        stake_step(proposal, bank, user, now, go_long, amount) == Err::<
            (UserPrediction, Bank, Wallet),
            MyErrors,
        >(
            if proposal.settled {
                MyErrors::ProposalAlreadySettled
            } else {
                MyErrors::ProposalHasExpired
            },
        ),
{
}

/// A payout on a proposal that is not settled always fails with `ProposalNotSettled`.
pub proof fn payout_refused_before_settlement(
    proposal: Proposal,
    bank: Bank,
    prediction: UserPrediction,
    user: Wallet,
)
    requires
        !proposal.settled,
    ensures
        payout_step(proposal, bank, prediction, user) == Err::<
            (UserPrediction, Bank, Wallet),
            MyErrors,
        >(MyErrors::ProposalNotSettled),
{
}

/// A successful payout moves exactly twice the stake from the bank to the claimant
/// when the prediction wins, and moves nothing when it loses.
pub proof fn payout_moves_exactly_the_winnings(
    proposal: Proposal,
    bank: Bank,
    prediction: UserPrediction,
    user: Wallet,
)
    requires
        payout_step(proposal, bank, prediction, user) is Ok,
    ensures
        ({
            let (p, b, w) = payout_step(proposal, bank, prediction, user)->Ok_0;
            &&& p == (UserPrediction { resolved: true, ..prediction })
            &&& wins(proposal, prediction) ==> b.lamports == bank.lamports - 2 * prediction.amount
                && w.lamports == user.lamports + 2 * prediction.amount
            &&& !wins(proposal, prediction) ==> b == bank && w == user
        }),
{
}

/// A payout of a winning prediction, made by its owner after settlement, succeeds
/// whenever the bank holds twice the stake and the claimant's wallet can take it:
/// it moves exactly twice the stake from the bank to the claimant and resolves the
/// prediction.
pub proof fn winning_payout_pays_double(
    proposal: Proposal,
    bank: Bank,
    prediction: UserPrediction,
    user: Wallet,
)
    requires
        proposal.settled,
        !prediction.resolved,
        user.key == prediction.authority,
        wins(proposal, prediction),
        2 * prediction.amount <= bank.lamports,
        user.lamports + 2 * prediction.amount <= u64::MAX,
    ensures
        payout_step(proposal, bank, prediction, user) == Ok::<
            (UserPrediction, Bank, Wallet),
            MyErrors,
        >(
            (
                UserPrediction { resolved: true, ..prediction },
                Bank { lamports: (bank.lamports - 2 * prediction.amount) as u64 },
                Wallet { lamports: (user.lamports + 2 * prediction.amount) as u64, ..user },
            ),
        ),
{
}

/// A payout of a losing prediction, made by its owner after settlement, always
/// succeeds, moves nothing, and resolves the prediction.
pub proof fn losing_payout_moves_nothing(
    proposal: Proposal,
    bank: Bank,
    prediction: UserPrediction,
    user: Wallet,
)
    requires
        proposal.settled,
        !prediction.resolved,
        user.key == prediction.authority,
        !wins(proposal, prediction),
    ensures
        payout_step(proposal, bank, prediction, user) == Ok::<
            (UserPrediction, Bank, Wallet),
            MyErrors,
        >((UserPrediction { resolved: true, ..prediction }, bank, user)),
{
}

/// A positive deposit by an owner who holds the amount succeeds whenever the bank's
/// balance can take it, and moves exactly the amount from the owner into the bank.
pub proof fn deposit_adds_exactly_the_amount(bank: Bank, owner: Wallet, amount: u64)
    requires
        amount > 0,
        owner.lamports >= amount,
        bank.lamports + amount <= u64::MAX,
    ensures
        credit_step(bank, owner, amount) == Ok::<(Bank, Wallet), MyErrors>(
            (
                Bank { lamports: (bank.lamports + amount) as u64 },
                Wallet { lamports: (owner.lamports - amount) as u64, ..owner },
            ),
        ),
{
}

/// A debit of more than the bank holds fails with `InsufficientFunds`.
pub proof fn debit_beyond_balance_refused(bank: Bank, to: Wallet, amount: int)
    requires
        amount > bank.lamports,
    ensures
        debit_step(bank, to, amount) == Err::<(Bank, Wallet), MyErrors>(
            MyErrors::InsufficientFunds,
        ),
{
}

/// A winning payout whose double stake exceeds what the bank holds fails with
/// `InsufficientFunds`, rather than driving the balance below zero.
pub proof fn winning_payout_beyond_balance_refused(
    proposal: Proposal,
    bank: Bank,
    prediction: UserPrediction,
    user: Wallet,
)
    requires
        proposal.settled,
        !prediction.resolved,
        user.key == prediction.authority,
        wins(proposal, prediction),
        2 * prediction.amount > bank.lamports,
    ensures
        payout_step(proposal, bank, prediction, user) == Err::<
            (UserPrediction, Bank, Wallet),
            MyErrors,
        >(MyErrors::InsufficientFunds),
{
}

/// An operation that moves value into or out of the bank, with the arguments it is called with.
pub enum VaultOp {
    Fund { owner: Wallet, amount: u64 },
    Stake { proposal: Proposal, user: Wallet, now: i64, go_long: bool, amount: u64 },
    Payout { proposal: Proposal, prediction: UserPrediction, user: Wallet },
}

/// The bank after `op`, or the error with which `op` fails.
pub open spec fn op_result(bank: Bank, op: VaultOp) -> Result<Bank, MyErrors> {
    match op {
        VaultOp::Fund { owner, amount } => match credit_step(bank, owner, amount) {
            Ok((b, _)) => Ok(b),
            Err(e) => Err(e),
        },
        VaultOp::Stake { proposal, user, now, go_long, amount } => match stake_step(
            proposal,
            bank,
            user,
            now,
            go_long,
            amount,
        ) {
            Ok((_, b, _)) => Ok(b),
            Err(e) => Err(e),
        },
        VaultOp::Payout { proposal, prediction, user } => match payout_step(
            proposal,
            bank,
            prediction,
            user,
        ) {
            Ok((_, b, _)) => Ok(b),
            Err(e) => Err(e),
        },
    }
}

/// The lamports that `op` deposits into the bank if it succeeds.
pub open spec fn op_deposit(op: VaultOp) -> int {
    match op {
        VaultOp::Fund { amount, .. } => amount as int,
        VaultOp::Stake { amount, .. } => amount as int,
        VaultOp::Payout { .. } => 0,
    }
}

/// The lamports that `op` pays out of the bank if it succeeds.
pub open spec fn op_payout(op: VaultOp) -> int {
    match op {
        VaultOp::Payout { proposal, prediction, .. } => payout_amount(proposal, prediction),
        _ => 0,
    }
}

/// The bank after running `ops` in order; an operation that fails leaves it unchanged.
pub open spec fn run(bank: Bank, ops: Seq<VaultOp>) -> Bank
    decreases ops.len(),
{
    if ops.len() == 0 {
        bank
    } else {
        let before = run(bank, ops.drop_last());
        match op_result(before, ops.last()) {
            Ok(b) => b,
            Err(_) => before,
        }
    }
}

/// The lamports deposited by the operations of `ops` that succeed.
pub open spec fn total_deposits(bank: Bank, ops: Seq<VaultOp>) -> int
    decreases ops.len(),
{
    if ops.len() == 0 {
        0
    } else {
        let before = run(bank, ops.drop_last());
        total_deposits(bank, ops.drop_last()) + if op_result(before, ops.last()) is Ok {
            op_deposit(ops.last())
        } else {
            0
        }
    }
}

/// The lamports paid out by the operations of `ops` that succeed.
pub open spec fn total_payouts(bank: Bank, ops: Seq<VaultOp>) -> int
    decreases ops.len(),
{
    if ops.len() == 0 {
        0
    } else {
        let before = run(bank, ops.drop_last());
        total_payouts(bank, ops.drop_last()) + if op_result(before, ops.last()) is Ok {
            op_payout(ops.last())
        } else {
            0
        }
    }
}

/// After any sequence of operations the bank holds its starting balance plus what was
/// deposited minus what was paid out; that amount is never negative.
pub proof fn vault_balance_accounts_for_every_lamport(bank: Bank, ops: Seq<VaultOp>)
    ensures
        run(bank, ops).lamports == bank.lamports + total_deposits(bank, ops) - total_payouts(
            bank,
            ops,
        ),
        bank.lamports + total_deposits(bank, ops) - total_payouts(bank, ops) >= 0,
    decreases ops.len(),
{
    if ops.len() > 0 {
        vault_balance_accounts_for_every_lamport(bank, ops.drop_last());
    }
}

} // verus!
