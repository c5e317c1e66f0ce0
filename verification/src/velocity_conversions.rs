//! Conversions between metres per second and kilometres per hour.
//!
//! Velocities in metres per second are carried as micro-metres per second
//! and velocities in kilometres per hour as milli-kilometres per hour, so
//! both conversions are exact rational operations (a factor of 3.6) rounded
//! toward zero.  Results that would leave the `i64` range saturate.

use vstd::prelude::*;

use crate::fixed::{clamp_spec, div_trunc, div_trunc_i128, mul_wide};

verus! {

pub trait VelocityConversions: Sized {
    /// The value of `ms_to_kmh`, as a mathematical function.
    spec fn spec_ms_to_kmh(self) -> Self;

    /// The value of `kmh_to_ms`, as a mathematical function.
    spec fn spec_kmh_to_ms(self) -> Self;

    /// Convert a velocity in micro-metres per second to milli-kilometres per
    /// hour.
    fn ms_to_kmh(&self) -> (r: Self)
        ensures
            r == self.spec_ms_to_kmh(),
    ;

    /// Convert a velocity in milli-kilometres per hour to micro-metres per
    /// second.
    fn kmh_to_ms(&self) -> (r: Self)
        ensures
            r == self.spec_kmh_to_ms(),
    ;
}

impl VelocityConversions for i64 {
    /// Multiplying by 3.6: micro-m/s times 36 / 10_000 gives milli-km/h.
    open spec fn spec_ms_to_kmh(self) -> i64 {
        div_trunc(self * 36, 10_000) as i64
    }

    /// Dividing by 3.6: milli-km/h times 2_500 / 9 gives micro-m/s, saturated
    /// to the `i64` range.
    open spec fn spec_kmh_to_ms(self) -> i64 {
        clamp_spec(div_trunc(self * 2_500, 9), i64::MIN as int, i64::MAX as int) as i64
    }

    fn ms_to_kmh(&self) -> (r: i64) {
        let wide: i128 = mul_wide(*self, 36);
        let q: i128 = div_trunc_i128(wide, 10_000);
        proof {
            crate::fixed::lemma_div_trunc_quotient_bound(wide as int, 10_000, i64::MAX as int);
        }
        q as i64
    }

    fn kmh_to_ms(&self) -> (r: i64) {
        let wide: i128 = mul_wide(*self, 2_500);
        let q: i128 = div_trunc_i128(wide, 9);
        proof {
            crate::fixed::lemma_div_trunc_bound(wide as int, 9);
        }
        if q > i64::MAX as i128 {
            i64::MAX
        } else if q < i64::MIN as i128 {
            i64::MIN
        } else {
            q as i64
        }
    }
}

} // verus!
