use vstd::prelude::*;

use crate::TOTAL_HEARTBEATS;

verus! {

/// Stage of life, derived from the share of heartbeats that remain.
#[derive(Clone, Copy, Debug, PartialEq, Eq, Structural)]
pub enum MortemPhase {
    /// More than three quarters remain.
    Nascent,
    /// More than a quarter and at most three quarters remain.
    Aware,
    /// Some remain, at most a quarter.
    Diminished,
    /// None remain.
    Dead,
}

/// The phase for `remaining` heartbeats out of `TOTAL_HEARTBEATS`. The
/// bracket bounds are strict: exactly three quarters is `Aware`, exactly a
/// quarter is `Diminished`.
pub open spec fn phase_of(remaining: nat) -> MortemPhase {
    let total = TOTAL_HEARTBEATS as nat;
    if remaining == 0 {
        MortemPhase::Dead
    } else if 4 * remaining > 3 * total {
        MortemPhase::Nascent
    } else if 4 * remaining > total {
        MortemPhase::Aware
    } else {
        MortemPhase::Diminished
    }
}

/// Classifies `remaining` heartbeats into a lifecycle phase.
pub fn calculate_phase(remaining: u64) -> (r: MortemPhase)
    ensures
        r == phase_of(remaining as nat),
{
    let scaled: u128 = (remaining as u128) * 4;
    let total: u128 = TOTAL_HEARTBEATS as u128;
    if remaining == 0 {
        MortemPhase::Dead
    } else if scaled > 3 * total {
        MortemPhase::Nascent
    } else if scaled > total {
        MortemPhase::Aware
    } else {
        MortemPhase::Diminished
    }
}

} // verus!
