use vstd::prelude::*;

verus! {

/// Half-width of the tie band: an observed value at most this far from the
/// prediction, in either direction, counts as a correct prediction.
pub const TIE_BAND: u64 = 100;

/// The observed value lies within the inclusive tie band around the prediction.
pub open spec fn within_tie_band(predicted: u64, observed: u64) -> bool {
    -100 <= observed - predicted <= 100
}

/// The winner rule: the creator wins when the observed value is within the tie
/// band, or when it is below the prediction; otherwise the counterparty wins.
pub open spec fn creator_wins(predicted: u64, observed: u64) -> bool {
    within_tie_band(predicted, observed) || observed < predicted
}

/// Decides whether the creator of an escrow wins, given the prediction and the
/// value observed at settlement. The difference is taken without ever leaving
/// the unsigned range, so every pair of 64-bit values is handled.
pub fn trader_wins(predicted_floor: u64, observed_floor: u64) -> (wins: bool)
    ensures
        wins == creator_wins(predicted_floor, observed_floor),
        wins == (observed_floor <= predicted_floor + 100),
{
    if observed_floor <= predicted_floor {
        true
    } else {
        observed_floor - predicted_floor <= TIE_BAND
    }
}

} // verus!
