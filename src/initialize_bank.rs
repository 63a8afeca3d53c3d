use vstd::prelude::*;

use crate::errors::MyErrors;
use crate::state::Bank;

verus! {

/// The bank's slot: empty until the bank is first created.
#[derive(Debug, Clone, Copy)]
pub struct InitializeBank {
    pub bank: Option<Bank>,
}

/// Creates the singleton bank, empty, if it does not exist yet; an existing bank is
/// left as it is.
pub fn initialize_bank(ctx: &mut InitializeBank) -> (r: Result<(), MyErrors>)
    ensures
        r == Ok::<(), MyErrors>(()),
        final(ctx).bank == Some(
            match old(ctx).bank {
                Some(b) => b,
                None => Bank { lamports: 0 },
            },
        ),
{
    if ctx.bank.is_none() {
        ctx.bank = Some(Bank::new());
    }
    Ok(())
}

} // verus!
