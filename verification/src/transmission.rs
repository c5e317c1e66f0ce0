//! The gearbox: a fixed table of six gear ratios and a final drive ratio.
//!
//! Gear ratios are stored in milli (a ratio of 3.583 is 3_583); the final
//! ratio of a gear is its gear ratio times the final drive ratio, so the
//! product of two milli-scaled values is exactly the final ratio in micro.

use vstd::prelude::*;

verus! {

/// Gear ratios in milli, gears 1 through 6.
pub open spec fn gear_ratio_milli(gear: int) -> int {
    if gear == 1 {
        3_583
    } else if gear == 2 {
        1_952
    } else if gear == 3 {
        1_290
    } else if gear == 4 {
        971
    } else if gear == 5 {
        775
    } else {
        651
    }
}

/// Final drive ratio in milli (4.313).
pub const FINAL_DRIVE_RATIO_MILLI: u64 = 4_313;

/// Number of forward gears.
pub const TOP_GEAR: u8 = 6;

/// The final ratio of a gear in micro: gear ratio times final drive ratio.
pub open spec fn final_ratio_micro(gear: int) -> int {
    gear_ratio_milli(gear) * (FINAL_DRIVE_RATIO_MILLI as int)
}

/// The gearbox state: the currently selected gear, 1-indexed.
pub struct Transmission {
    pub gear: u8,
}

impl Transmission {
    /// A valid gear selection.
    pub open spec fn wf(self) -> bool {
        1 <= self.gear <= TOP_GEAR
    }

    /// The current gear's final ratio in micro.
    pub fn get_final_ratio(&self) -> (r: u64)
        requires
            self.wf(),
        ensures
            r == final_ratio_micro(self.gear as int),
    {
        Transmission::get_final_ratio_internal(self.gear)
    }

    fn get_final_ratio_internal(gear: u8) -> (r: u64)
        requires
            1 <= gear <= TOP_GEAR,
        ensures
            r == final_ratio_micro(gear as int),
    {
        let ratio_milli: u64 = if gear == 1 {
            3_583
        } else if gear == 2 {
            1_952
        } else if gear == 3 {
            1_290
        } else if gear == 4 {
            971
        } else if gear == 5 {
            775
        } else {
            651
        };
        ratio_milli * FINAL_DRIVE_RATIO_MILLI
    }
}

/// Every final ratio lies between the top gear's and the first gear's.
pub proof fn lemma_final_ratio_range(gear: int)
    requires
        1 <= gear <= TOP_GEAR,
    ensures
        2_807_763 <= final_ratio_micro(gear) <= 15_453_479,
{
}

/// The final ratio is strictly decreasing as the gear increases: each higher
/// gear turns the engine more slowly for the same wheel speed.
pub proof fn lemma_final_ratio_strictly_decreasing(g1: int, g2: int)
    requires
        1 <= g1 < g2 <= TOP_GEAR,
    ensures
        final_ratio_micro(g2) < final_ratio_micro(g1),
{
}

} // verus!
