//! The compliance scorer: what one verification outcome makes of a plot's
//! risk and score.

use crate::schema::FULL_SCORE;
use crate::types::DeforestationRisk;
use vstd::prelude::*;

verus! {

/// Risk and score after a verification. Where no deforestation was seen the
/// risk is low and the score is raised to the full score, never lowered;
/// where deforestation was seen the risk is high and the score is zero,
/// whatever they were.
pub open spec fn scored(
    current_risk: DeforestationRisk,
    current_score: u8,
    no_deforestation: bool,
) -> (DeforestationRisk, u8) {
    if no_deforestation {
        (
            DeforestationRisk::Low,
            if current_score < FULL_SCORE {
                FULL_SCORE
            } else {
                current_score
            },
        )
    } else {
        (DeforestationRisk::High, 0u8)
    }
}

/// Risk and score of a plot after a verification with the given outcome.
pub fn score(current_risk: DeforestationRisk, current_score: u8, no_deforestation: bool) -> (r: (
    DeforestationRisk,
    u8,
))
    ensures
        r == scored(current_risk, current_score, no_deforestation),
{
    if !no_deforestation {
        (DeforestationRisk::High, 0)
    } else if current_score < FULL_SCORE {
        (DeforestationRisk::Low, FULL_SCORE)
    } else {
        (DeforestationRisk::Low, current_score)
    }
}

} // verus!
