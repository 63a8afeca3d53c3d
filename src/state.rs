use vstd::prelude::*;

use crate::errors::MyErrors;

verus! {

/// A 256-bit account identity, held as its high and low halves.
#[derive(Debug, Clone, Copy, PartialEq, Eq, Structural)]
pub struct Pubkey {
    pub hi: u128,
    pub lo: u128,
}

impl Pubkey {
    pub fn new(hi: u128, lo: u128) -> (r: Pubkey)
        ensures
            r.hi == hi,
            r.lo == lo,
    {
        Pubkey { hi, lo }
    }
}

/// A user's own holding on the ledger: who it belongs to and how many lamports it has.
#[derive(Debug, Clone, Copy, PartialEq, Eq, Structural)]
pub struct Wallet {
    pub key: Pubkey,
    pub lamports: u64,
}

/// The shared vault from which winners are paid.
#[derive(Debug, Clone, Copy, PartialEq, Eq, Structural)]
pub struct Bank {
    pub lamports: u64,
}

/// A market on one coin's price against a reference price, closing at `expiry`.
#[derive(Debug, Clone, Copy, PartialEq, Eq, Structural)]
pub struct Proposal {
    pub authority: Pubkey,
    pub coin: Pubkey,
    pub price: u64,
    pub price_on_expiry: u64,
    pub expiry: i64,
    pub settled: bool,
}

/// One user's directional stake against one proposal.
#[derive(Debug, Clone, Copy, PartialEq, Eq, Structural)]
pub struct UserPrediction {
    pub authority: Pubkey,
    pub go_long: bool,
    pub amount: u64,
    pub resolved: bool,
}

/// Moving `amount` lamports from a wallet into the bank: the new wallet and bank,
/// or why the ledger refuses the transfer.
pub open spec fn deposit_step(bank: Bank, from: Wallet, amount: int) -> Result<(Bank, Wallet), MyErrors> {
    if amount > from.lamports {
        Err(MyErrors::InsufficientFunds)
    } else if bank.lamports + amount > u64::MAX {
        Err(MyErrors::ArithmeticOverflow)
    } else {
        Ok((
            Bank { lamports: (bank.lamports + amount) as u64 },
            Wallet { lamports: (from.lamports - amount) as u64, ..from },
        ))
    }
}

/// Moving `amount` lamports from the bank to a wallet: the new bank and wallet,
/// or why the ledger refuses the transfer.
pub open spec fn debit_step(bank: Bank, to: Wallet, amount: int) -> Result<(Bank, Wallet), MyErrors> {
    if amount > bank.lamports {
        Err(MyErrors::InsufficientFunds)
    } else if to.lamports + amount > u64::MAX {
        Err(MyErrors::ArithmeticOverflow)
    } else {
        Ok((
            Bank { lamports: (bank.lamports - amount) as u64 },
            Wallet { lamports: (to.lamports + amount) as u64, ..to },
        ))
    }
}

impl Bank {
    pub fn new() -> (r: Bank)
        ensures
            r.lamports == 0,
    {
        Bank { lamports: 0 }
    }

    /// Credits the bank with `amount` lamports taken from `from`.
    pub fn deposit(&mut self, from: &mut Wallet, amount: u64) -> (r: Result<(), MyErrors>)
        ensures
            match deposit_step(*old(self), *old(from), amount as int) {
                Ok((b, w)) => r == Ok::<(), MyErrors>(()) && *final(self) == b && *final(from) == w,
                Err(e) => r == Err::<(), MyErrors>(e) && *final(self) == *old(self) && *final(from)
                    == *old(from),
            },
    {
        if amount > from.lamports {
            return Err(MyErrors::InsufficientFunds);
        }
        match self.lamports.checked_add(amount) {
            None => Err(MyErrors::ArithmeticOverflow),
            Some(total) => {
                self.lamports = total;
                from.lamports = from.lamports - amount;
                Ok(())
            },
        }
    }

    /// Debits the bank by `amount` lamports, paid into `to`.
    pub fn debit(&mut self, to: &mut Wallet, amount: u64) -> (r: Result<(), MyErrors>)
        ensures
            match debit_step(*old(self), *old(to), amount as int) {
                Ok((b, w)) => r == Ok::<(), MyErrors>(()) && *final(self) == b && *final(to) == w,
                Err(e) => r == Err::<(), MyErrors>(e) && *final(self) == *old(self) && *final(to)
                    == *old(to),
            },
    {
        if amount > self.lamports {
            return Err(MyErrors::InsufficientFunds);
        }
        match to.lamports.checked_add(amount) {
            None => Err(MyErrors::ArithmeticOverflow),
            Some(total) => {
                self.lamports = self.lamports - amount;
                to.lamports = total;
                Ok(())
            },
        }
    }
}

} // verus!
