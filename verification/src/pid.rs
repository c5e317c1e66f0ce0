//! The closed-loop throttle controller: a PID with integral anti-windup and
//! a clamped, normalized output.
//!
//! Gains are in milli (a gain of 4.0 is 4_000); errors, the integral term,
//! the bias and the raw output are in micro, matching the micro-metres per
//! second the car model uses for velocities.  The iteration time enters as a
//! plain millisecond count, which is also the time unit the integral and
//! derivative terms are scaled by.

use vstd::prelude::*;

use crate::fixed::{clamp_spec, div_trunc, div_trunc_i128, div_trunc_i64, mul_wide};

verus! {

/// Longest accepted iteration time in milliseconds.
pub const MAX_TICK_MS: u64 = 10_000;

/// Anti-windup bound on the integral term: one unit in micro.
pub const INTEGRAL_CLAMP_MICRO: i64 = 1_000_000;

/// PID controller state.
pub struct Controller {
    /// Proportional gain in milli.
    pub kp: i64,
    /// Integral gain in milli.
    pub ki: i64,
    /// Derivative gain in milli.
    pub kd: i64,
    /// Upper clamp bound on the raw output, in micro.
    pub output_clamp: i64,
    /// Accumulated integral term in micro, kept within the anti-windup bound.
    pub integral_prior: i64,
    /// Error of the previous step in micro.
    pub error_prior: i64,
    /// Constant output offset in micro.
    pub bias: i64,
}

/// The integral term before anti-windup clamping: the prior integral plus
/// error times iteration time.
pub open spec fn step_integral_raw(c: Controller, dt_ms: int, actual: int, desired: int) -> int {
    c.integral_prior + (desired - actual) * dt_ms
}

/// The derivative term: the error delta divided by the iteration time.
pub open spec fn step_derivative(c: Controller, dt_ms: int, actual: int, desired: int) -> int {
    div_trunc((desired - actual) - c.error_prior, dt_ms)
}

/// The raw PID output: the gain-weighted sum of the proportional, integral
/// and derivative terms (gains in milli, hence the division), plus the bias.
pub open spec fn step_output(c: Controller, dt_ms: int, actual: int, desired: int) -> int {
    div_trunc(
        c.kp * (desired - actual) + c.ki * step_integral_raw(c, dt_ms, actual, desired) + c.kd
            * step_derivative(c, dt_ms, actual, desired),
        1_000,
    ) + c.bias
}

/// The controller state after a step: the error is remembered and the
/// integral term is clamped into the anti-windup interval.
pub open spec fn step_state(c: Controller, dt_ms: int, actual: int, desired: int) -> Controller {
    Controller {
        integral_prior: clamp_spec(
            step_integral_raw(c, dt_ms, actual, desired),
            -(INTEGRAL_CLAMP_MICRO as int),
            INTEGRAL_CLAMP_MICRO as int,
        ) as i64,
        error_prior: (desired - actual) as i64,
        ..c
    }
}

/// The clamped, normalized throttle command in micro: the raw output is
/// clamped to the configured bound, divided by that bound, and floored at
/// zero, so the result always lies in [0, 1_000_000].
pub open spec fn clamp_norm_spec(output_clamp: int, raw: int) -> int {
    if raw <= 0 {
        0
    } else if raw >= output_clamp {
        1_000_000
    } else {
        div_trunc(raw * 1_000_000, output_clamp)
    }
}

impl Controller {
    /// Bounds under which a step can neither overflow nor divide by zero.
    pub open spec fn wf(self) -> bool {
        &&& -1_000_000 <= self.kp <= 1_000_000
        &&& -1_000_000 <= self.ki <= 1_000_000
        &&& -1_000_000 <= self.kd <= 1_000_000
        &&& 0 < self.output_clamp <= 1_000_000_000
        &&& -(INTEGRAL_CLAMP_MICRO as int) <= self.integral_prior <= INTEGRAL_CLAMP_MICRO as int
        &&& -4_000_000_000 <= self.error_prior <= 4_000_000_000
        &&& -1_000_000_000 <= self.bias <= 1_000_000_000
    }

    /// A controller with the given gains and output clamp, zero bias, and a
    /// cleared integral and error history.
    pub fn new(kp_milli: i64, ki_milli: i64, kd_milli: i64, output_clamp_micro: i64) -> (c:
        Controller)
        requires
            -1_000_000 <= kp_milli <= 1_000_000,
            -1_000_000 <= ki_milli <= 1_000_000,
            -1_000_000 <= kd_milli <= 1_000_000,
            0 < output_clamp_micro <= 1_000_000_000,
        ensures
            c == (Controller {
                kp: kp_milli,
                ki: ki_milli,
                kd: kd_milli,
                output_clamp: output_clamp_micro,
                integral_prior: 0,
                error_prior: 0,
                bias: 0,
            }),
            c.wf(),
    {
        Controller {
            kp: kp_milli,
            ki: ki_milli,
            kd: kd_milli,
            output_clamp: output_clamp_micro,
            integral_prior: 0,
            error_prior: 0,
            bias: 0,
        }
    }

    /// Advance the controller by one iteration and return the raw output.
    ///
    /// The output is computed from the unclamped integral term, exactly as
    /// the update rule states it; only the stored integral is clamped, so the
    /// anti-windup bound takes effect from the next step on.
    pub fn step(&mut self, iteration_time_ms: u64, actual_micro: i64, desired_micro: i64) -> (out:
        i64)
        requires
            old(self).wf(),
            1 <= iteration_time_ms <= MAX_TICK_MS,
            -2_000_000_000 <= actual_micro <= 2_000_000_000,
            -2_000_000_000 <= desired_micro <= 2_000_000_000,
        ensures
            *final(self) == step_state(
                *old(self),
                iteration_time_ms as int,
                actual_micro as int,
                desired_micro as int,
            ),
            out == step_output(
                *old(self),
                iteration_time_ms as int,
                actual_micro as int,
                desired_micro as int,
            ),
            final(self).wf(),
    {
        let dt: u64 = iteration_time_ms;
        let error: i64 = desired_micro - actual_micro;
        proof {
            assert(-40_000_000_000_000int <= (error as int) * (dt as int) <= 40_000_000_000_000int)
                by (nonlinear_arith)
                requires
                    -4_000_000_000 <= error <= 4_000_000_000,
                    1 <= dt <= 10_000,
            ;
        }
        let error_dt: i64 = error * (dt as i64);
        let integral: i64 = self.integral_prior + error_dt;
        let derivative: i64 = div_trunc_i64(error - self.error_prior, dt);
        proof {
            crate::fixed::lemma_div_trunc_bound((error - self.error_prior) as int, dt as int);
            assert(-8_000_000_000_000_000int <= (self.kp as int) * (error as int)
                <= 8_000_000_000_000_000int) by (nonlinear_arith)
                requires
                    -1_000_000 <= self.kp <= 1_000_000,
                    -8_000_000_000 <= error <= 8_000_000_000,
            ;
            assert(-41_000_000_000_000_000_000int <= (self.ki as int) * (integral as int)
                <= 41_000_000_000_000_000_000int) by (nonlinear_arith)
                requires
                    -1_000_000 <= self.ki <= 1_000_000,
                    -41_000_000_000_000 <= integral <= 41_000_000_000_000,
            ;
            assert(-8_000_000_000_000_000int <= (self.kd as int) * (derivative as int)
                <= 8_000_000_000_000_000int) by (nonlinear_arith)
                requires
                    -1_000_000 <= self.kd <= 1_000_000,
                    -8_000_000_000 <= derivative <= 8_000_000_000,
            ;
        }
        let t_prop: i128 = mul_wide(self.kp, error);
        let t_int: i128 = mul_wide(self.ki, integral);
        let t_deriv: i128 = mul_wide(self.kd, derivative);
        let weighted: i128 = t_prop + t_int + t_deriv;
        let scaled: i128 = div_trunc_i128(weighted, 1_000);
        proof {
            crate::fixed::lemma_div_trunc_quotient_bound(
                weighted as int,
                1_000,
                42_000_000_000_000_000,
            );
        }
        let out: i64 = (scaled as i64) + self.bias;
        self.error_prior = error;
        self.integral_prior = if integral > INTEGRAL_CLAMP_MICRO {
            INTEGRAL_CLAMP_MICRO
        } else if integral < -INTEGRAL_CLAMP_MICRO {
            -INTEGRAL_CLAMP_MICRO
        } else {
            integral
        };
        out
    }

    /// Clamp and normalize a raw output into a throttle command in micro.
    pub fn clamp_and_normalize(&self, pid_output_micro: i64) -> (throttle: i64)
        requires
            0 < self.output_clamp <= 1_000_000_000,
        ensures
            throttle == clamp_norm_spec(self.output_clamp as int, pid_output_micro as int),
            0 <= throttle <= 1_000_000,
    {
        if pid_output_micro <= 0 {
            0
        } else if pid_output_micro >= self.output_clamp {
            1_000_000
        } else {
            let scaled: i128 = mul_wide(pid_output_micro, 1_000_000);
            let q: i128 = div_trunc_i128(scaled, self.output_clamp as u64);
            proof {
                assert((pid_output_micro as int) * 1_000_000 <= 1_000_000 * (
                self.output_clamp as int)) by (nonlinear_arith)
                    requires
                        pid_output_micro <= self.output_clamp,
                ;
                crate::fixed::lemma_div_trunc_quotient_bound(
                    scaled as int,
                    self.output_clamp as int,
                    1_000_000,
                );
            }
            q as i64
        }
    }

    /// Reset the integral term and the remembered error, for use when the
    /// setpoint changes discontinuously.
    pub fn clear(&mut self)
        ensures
            *final(self) == (Controller { integral_prior: 0, error_prior: 0, ..*old(self) }),
    {
        self.error_prior = 0;
        self.integral_prior = 0;
    }
}

/// With the error at zero and a clean history, a step leaves the integral
/// term at zero, remembers a zero error, and outputs exactly the bias.
pub proof fn lemma_pid_zero_error_holds_bias(c: Controller, dt_ms: int, v: int)
    requires
        c.integral_prior == 0,
        c.error_prior == 0,
        dt_ms >= 1,
    ensures
        step_output(c, dt_ms, v, v) == c.bias,
        step_state(c, dt_ms, v, v).integral_prior == 0,
        step_state(c, dt_ms, v, v).error_prior == 0,
{
    assert(step_integral_raw(c, dt_ms, v, v) == 0);
    crate::fixed::lemma_div_shrinks(0, dt_ms);
    assert(step_derivative(c, dt_ms, v, v) == 0);
    assert(c.kp * 0 == 0) by (nonlinear_arith);
    assert(c.ki * 0 == 0) by (nonlinear_arith);
    assert(c.kd * 0 == 0) by (nonlinear_arith);
    crate::fixed::lemma_div_shrinks(0, 1_000);
}

/// Anti-windup: whatever the error, the iteration time or the prior state,
/// the stored integral term never leaves [-1, 1] (in micro).
pub proof fn lemma_pid_antiwindup(c: Controller, dt_ms: int, actual: int, desired: int)
    ensures
        -(INTEGRAL_CLAMP_MICRO as int) <= step_state(c, dt_ms, actual, desired).integral_prior
            <= INTEGRAL_CLAMP_MICRO as int,
{
}

/// The normalized throttle command lies in the unit interval [0, 1] (in
/// micro) for every raw output, however large or negative.
pub proof fn lemma_throttle_in_unit_interval(output_clamp: int, raw: int)
    requires
        output_clamp > 0,
    ensures
        0 <= clamp_norm_spec(output_clamp, raw) <= 1_000_000,
{
    if 0 < raw < output_clamp {
        assert(raw * 1_000_000 <= 1_000_000 * output_clamp) by (nonlinear_arith)
            requires
                raw <= output_clamp,
        ;
        assert(raw * 1_000_000 >= 0) by (nonlinear_arith)
            requires
                raw >= 0,
        ;
        crate::fixed::lemma_div_trunc_quotient_bound(raw * 1_000_000, output_clamp, 1_000_000);
        crate::fixed::lemma_div_trunc_ordered(0, raw * 1_000_000, output_clamp);
    }
}

} // verus!
