use vstd::prelude::*;

verus! {

/// Every way in which an operation of the market can refuse to run.
/// A refused operation leaves every account it was handed unchanged.
#[derive(Debug, Clone, Copy, PartialEq, Eq, Structural)]
pub enum MyErrors {
    /// A prediction was attempted at or after the proposal's expiry.
    ProposalHasExpired,
    /// Settlement was attempted before the proposal's expiry.
    ProposalNotExpired,
    /// A proposal already stands in the slot that a new one was to be created in.
    ProposalAlreadyExists,
    /// The proposal has already been settled.
    ProposalAlreadySettled,
    /// A payout was attempted on a proposal that is not settled yet.
    ProposalNotSettled,
    /// The prediction has already been paid out or closed as a loss.
    PredictionAlreadyResolved,
    /// The signer is not the identity that the record names.
    Unauthorized,
    /// The paying side holds fewer lamports than the transfer moves.
    InsufficientFunds,
    /// The receiving side's balance would not fit in 64 bits.
    ArithmeticOverflow,
    /// A deposit into the bank must move at least one unit.
    InvalidAmount,
}

} // verus!
