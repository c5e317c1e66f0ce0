//! Time-to-speed milestones: elapsed time to reach 100 km/h and 200 km/h.
//!
//! Each milestone is write-once: it is recorded the first time the velocity
//! crosses its threshold and never overwritten afterwards.

use vstd::prelude::*;

verus! {

/// A velocity in micro-metres per second has reached the given whole number
/// of kilometres per hour.  Exact: v * 3.6 >= kmh, cleared of denominators.
pub open spec fn reached_kmh(velocity_micro_ms: int, kmh: int) -> bool {
    velocity_micro_ms * 36 >= kmh * 10_000_000
}

/// The two milestones, each the elapsed simulation time in milliseconds at
/// which the speed was first reached, or `None` while it has not been.
pub struct Measurement {
    pub to_hundred: Option<u64>,
    pub to_two_hundred: Option<u64>,
}

/// The value of `check_and_store`, as a mathematical function: each unset
/// milestone whose threshold the velocity has crossed is stamped with the
/// given time; a set milestone is left alone.
pub open spec fn check_spec(m: Measurement, time_ms: u64, velocity_micro_ms: int) -> Measurement {
    Measurement {
        to_hundred: if m.to_hundred is Some {
            m.to_hundred
        } else if reached_kmh(velocity_micro_ms, 100) {
            Some(time_ms)
        } else {
            None
        },
        to_two_hundred: if m.to_two_hundred is Some {
            m.to_two_hundred
        } else if reached_kmh(velocity_micro_ms, 200) {
            Some(time_ms)
        } else {
            None
        },
    }
}

impl Measurement {
    /// A fresh measurement with both milestones unset.
    pub fn new() -> (m: Measurement)
        ensures
            m.to_hundred is None,
            m.to_two_hundred is None,
    {
        Measurement { to_hundred: None, to_two_hundred: None }
    }

    /// Record the elapsed time for each milestone the velocity has just
    /// crossed, leaving milestones that are already set untouched.
    pub fn check_and_store(&mut self, time_ms: u64, velocity_micro_ms: i64)
        requires
            -2_000_000_000_000 <= velocity_micro_ms <= 2_000_000_000_000,
        ensures
            *final(self) == check_spec(*old(self), time_ms, velocity_micro_ms as int),
    {
        let scaled: i64 = velocity_micro_ms * 36;
        if self.to_hundred.is_none() && scaled >= 1_000_000_000 {
            self.to_hundred = Some(time_ms);
        }
        if self.to_two_hundred.is_none() && scaled >= 2_000_000_000 {
            self.to_two_hundred = Some(time_ms);
        }
    }
}

/// Milestones are write-once: once a milestone holds a time, any later check
/// leaves exactly that time in place, whatever the velocity does.
pub proof fn lemma_milestone_write_once(
    m: Measurement,
    t1: u64,
    v1: int,
    t2: u64,
    v2: int,
)
    ensures
        ({
            let m1 = check_spec(m, t1, v1);
            let m2 = check_spec(m1, t2, v2);
            &&& (m1.to_hundred is Some ==> m2.to_hundred == m1.to_hundred)
            &&& (m1.to_two_hundred is Some ==> m2.to_two_hundred == m1.to_two_hundred)
        }),
{
}

/// A check never clears a milestone, and only ever stamps an unset milestone
/// whose threshold the velocity has crossed.
pub proof fn lemma_milestone_set_at_most_once(m: Measurement, t: u64, v: int)
    ensures
        ({
            let m1 = check_spec(m, t, v);
            &&& (m.to_hundred is Some ==> m1.to_hundred == m.to_hundred)
            &&& (m.to_two_hundred is Some ==> m1.to_two_hundred == m.to_two_hundred)
            &&& (m.to_hundred is None && !reached_kmh(v, 100) ==> m1.to_hundred is None)
            &&& (m.to_two_hundred is None && !reached_kmh(v, 200) ==> m1.to_two_hundred is None)
            &&& (m.to_hundred is None && reached_kmh(v, 100) ==> m1.to_hundred == Some(t))
            &&& (m.to_two_hundred is None && reached_kmh(v, 200) ==> m1.to_two_hundred == Some(
                t,
            ))
        }),
{
}

} // verus!
