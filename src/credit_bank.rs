use vstd::prelude::*;

use crate::errors::MyErrors;
use crate::state::{deposit_step, Bank, Wallet};

verus! {

/// Lamports in one SOL.
pub const LAMPORTS_PER_SOL: u64 = 1_000_000_000;

/// `amount` SOL counted in lamports, or `None` where that count does not fit in 64 bits.
pub fn sol_to_lamports(amount: u64) -> (r: Option<u64>)
    ensures
        r == if amount * LAMPORTS_PER_SOL <= u64::MAX {
            Some((amount * LAMPORTS_PER_SOL) as u64)
        } else {
            None::<u64>
        },
{
    amount.checked_mul(LAMPORTS_PER_SOL)
}

/// The accounts that funding the bank touches: the bank and the depositor.
#[derive(Debug, Clone, Copy)]
pub struct CreditBank {
    pub bank: Bank,
    pub owner: Wallet,
}

/// Funding the bank with `amount` lamports from `owner`: the bank and the owner's wallet
/// after the transfer, or the reason it is refused. A deposit must be positive.
pub open spec fn credit_step(bank: Bank, owner: Wallet, amount: u64) -> Result<(Bank, Wallet), MyErrors> {
    if amount == 0 {
        Err(MyErrors::InvalidAmount)
    } else {
        deposit_step(bank, owner, amount as int)
    }
}

/// Moves `amount` lamports from the owner into the bank.
pub fn credit_bank(ctx: &mut CreditBank, amount: u64) -> (r: Result<(), MyErrors>)
    ensures
        match credit_step(old(ctx).bank, old(ctx).owner, amount) {
            Ok((b, w)) => r == Ok::<(), MyErrors>(()) && final(ctx).bank == b && final(ctx).owner
                == w,
            Err(e) => r == Err::<(), MyErrors>(e) && *final(ctx) == *old(ctx),
        },
{
    if amount == 0 {
        return Err(MyErrors::InvalidAmount);
    }
    ctx.bank.deposit(&mut ctx.owner, amount)
}

} // verus!
