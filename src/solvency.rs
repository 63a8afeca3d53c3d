use vstd::prelude::*;

use crate::state::{Bank, UserPrediction};

verus! {

/// What an open prediction could still cost the bank: twice its stake until it is resolved.
pub open spec fn exposure(prediction: UserPrediction) -> int {
    if prediction.resolved {
        0
    } else {
        2 * prediction.amount
    }
}

/// The most that the bank could owe on these predictions if every open one won.
pub open spec fn liability(predictions: Seq<UserPrediction>) -> int
    decreases predictions.len(),
{
    if predictions.len() == 0 {
        0
    } else {
        liability(predictions.drop_last()) + exposure(predictions.last())
    }
}

/// The liability of a prefix never exceeds that of the whole sequence.
pub proof fn lemma_liability_prefix(predictions: Seq<UserPrediction>, n: int)
    requires
        0 <= n <= predictions.len(),
    ensures
        liability(predictions.take(n)) <= liability(predictions),
    decreases predictions.len(),
{
    if n < predictions.len() {
        let shorter = predictions.drop_last();
        assert(shorter.take(n) =~= predictions.take(n));
        lemma_liability_prefix(shorter, n);
    } else {
        assert(predictions.take(n) =~= predictions);
    }
}

/// Whether the bank holds less than it would have to pay if every open prediction
/// among `predictions` won. Payouts are not limited by this: it only reports the risk.
pub fn insolvency_risk(bank: &Bank, predictions: &Vec<UserPrediction>) -> (r: bool)
    ensures
        r == (bank.lamports < liability(predictions@)),
{
    let mut owed: u128 = 0;
    let mut i: usize = 0;
    while i < predictions.len()
        invariant
            i <= predictions@.len(),
            owed == liability(predictions@.take(i as int)),
            owed <= bank.lamports,
        decreases predictions@.len() - i,
    {
        let prediction = predictions[i];
        assert(predictions@.take(i + 1).drop_last() =~= predictions@.take(i as int));
        if !prediction.resolved {
            owed = owed + 2 * (prediction.amount as u128);
            if owed > bank.lamports as u128 {
                proof {
                    lemma_liability_prefix(predictions@, i + 1);
                }
                return true;
            }
        }
        i = i + 1;
    }
    assert(predictions@.take(i as int) =~= predictions@);
    false
}

} // verus!
