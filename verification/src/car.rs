//! The car orchestrator: one simulation tick of the longitudinal model.
//!
//! Each tick computes the resistive forces, asks the PID controller for a
//! throttle command, converts engine torque to a wheel-force bound through
//! the gearbox, applies a traction-control clamp against the front-axle load
//! of the previous tick, integrates the velocity, shifts gear on the rpm
//! thresholds, and records the time-to-speed milestones.
//!
//! Units: velocity in micro-metres per second, forces in milli-newtons,
//! engine speed in milli-rpm, torque in milli-newton-metres, acceleration in
//! micro-metres per second squared, time in milliseconds.  The velocity and
//! acceleration saturate at generous envelope bounds (1000 m/s and
//! 1,000,000 m/s^2) that keep every tick free of overflow; no physically
//! reachable state comes near them.

use vstd::prelude::*;

use crate::engine::{fiesta_points, get_max_rpm, torque_of, TorqueCurve, MAX_RPM_MILLI};
use crate::fixed::{clamp_spec, div_trunc, div_trunc_i128, div_trunc_i64, mul_wide};
use crate::force::{
    drag_force_milli, f_drag, f_gradient, f_rolling, gradient_force_milli, rolling_force_milli,
    GRAVITY_MILLI,
};
use crate::measurement::{check_spec, Measurement};
use crate::pid::{clamp_norm_spec, step_output, step_state, Controller, MAX_TICK_MS};
use crate::transmission::{final_ratio_micro, lemma_final_ratio_range, Transmission, TOP_GEAR};
use crate::velocity_conversions::VelocityConversions;

verus! {

/// Velocity saturation bound in micro-metres per second (1000 m/s).
pub const VELOCITY_LIMIT_MICRO: i64 = 1_000_000_000;

/// Acceleration saturation bound in micro-metres per second squared.
pub const ACCELERATION_LIMIT_MICRO: i64 = 1_000_000_000_000;

/// 2 * pi in nano (3.14159... scaled by 10^9, rounded).
pub const TWO_PI_NANO: u64 = 6_283_185_307;

/// Wheelbase in milli-metres.
pub const WHEELBASE_MILLI: u64 = 2_493;

/// Centre-of-mass height in milli-metres.
pub const COM_HEIGHT_MILLI: u64 = 350;

/// Front axle share of the static load, in milli.
pub const FRONT_SHARE_MILLI: u64 = 594;

/// Rear axle share of the static load, in milli.
pub const REAR_SHARE_MILLI: u64 = 406;

/// Kerb weight plus driver and fuel, in kilogrammes.
pub const CAR_WEIGHT_KG: u64 = 1_234 + 70 + 10;

/// The simulated car and all of its state.
pub struct Car {
    pub transmission: Transmission,
    pub measurement: Measurement,
    pub pid: Controller,
    pub curve: TorqueCurve,
    /// Weight in kilogrammes.
    pub weight_kg: u64,
    /// Wheel radius in micro-metres.
    pub wheel_radius_micro_m: u64,
    /// Current velocity in micro-metres per second.
    pub velocity_micro_ms: i64,
    /// Cruise setpoint in milli-kilometres per hour.
    pub velocity_desired_milli_kmh: i64,
    /// Upshift rpm threshold in milli-rpm.
    pub upshift_milli_rpm: u64,
    /// Downshift rpm threshold in milli-rpm.
    pub downshift_milli_rpm: u64,
    /// Idle rpm floor in milli-rpm.
    pub idle_milli_rpm: u64,
    /// Elapsed simulation time in milliseconds.
    pub time_ms: u64,
    /// Powertrain efficiency in milli (750 is 0.75).
    pub powertrain_efficiency_milli: u64,
    /// Front and rear axle loads of the previous tick, in milli-newtons.
    pub weight_balance: (i64, i64),
}

/// The raw engine speed in milli-rpm from a forward velocity:
/// v / r * ratio * 60 / (2 pi), in the fixed-point scales.
pub open spec fn raw_rpm_milli(v_micro: int, radius_micro: int, ratio_micro: int) -> int {
    (v_micro * ratio_micro * 60_000_000) / (radius_micro * (TWO_PI_NANO as int))
}

/// The engine speed in milli-rpm: the raw value floored at the idle rpm;
/// a stationary or reversing car idles.
pub open spec fn rpm_spec(v_micro: int, radius_micro: int, ratio_micro: int, idle: int) -> int {
    if v_micro <= 0 {
        idle
    } else if raw_rpm_milli(v_micro, radius_micro, ratio_micro) < idle {
        idle
    } else {
        raw_rpm_milli(v_micro, radius_micro, ratio_micro)
    }
}

/// The static front/rear axle split plus the dynamic transfer term
/// proportional to acceleration, in milli-newtons.
pub open spec fn weight_distribution_spec(weight_kg: int, acc_micro: int) -> (int, int) {
    let stat_front = (FRONT_SHARE_MILLI as int) * weight_kg * (GRAVITY_MILLI as int) / 1_000;
    let stat_rear = (REAR_SHARE_MILLI as int) * weight_kg * (GRAVITY_MILLI as int) / 1_000;
    let transfer = div_trunc(
        (COM_HEIGHT_MILLI as int) * weight_kg * acc_micro,
        (WHEELBASE_MILLI as int) * 1_000,
    );
    (stat_front - transfer, stat_rear + transfer)
}

/// The gear after the shift rule: up one gear when accelerating above the
/// upshift threshold, down one when decelerating below the downshift
/// threshold, at most one shift per tick.
pub open spec fn shift_spec(gear: int, acc_micro: int, rpm_milli: int, up: int, down: int) -> int {
    if acc_micro > 0 && rpm_milli > up && gear < TOP_GEAR {
        gear + 1
    } else if acc_micro < 0 && rpm_milli < down && gear > 1 {
        gear - 1
    } else {
        gear
    }
}

impl Car {
    /// Bounds under which every tick is exact and free of overflow.
    pub open spec fn wf(self) -> bool {
        &&& self.transmission.wf()
        &&& self.pid.wf()
        &&& self.curve.wf()
        &&& 1 <= self.weight_kg <= 100_000
        &&& 1_000 <= self.wheel_radius_micro_m <= 10_000_000
        &&& -(VELOCITY_LIMIT_MICRO as int) <= self.velocity_micro_ms <= VELOCITY_LIMIT_MICRO as int
        &&& -2_000_000 <= self.velocity_desired_milli_kmh <= 2_000_000
        &&& 1 <= self.idle_milli_rpm <= 1_000_000_000
        &&& self.downshift_milli_rpm < self.upshift_milli_rpm
        &&& self.upshift_milli_rpm <= 1_000_000_000
        &&& self.powertrain_efficiency_milli <= 1_000
        &&& -20_000_000_000_000 <= self.weight_balance.0 <= 20_000_000_000_000
        &&& -20_000_000_000_000 <= self.weight_balance.1 <= 20_000_000_000_000
    }

    /// The current engine speed as a mathematical value.
    pub open spec fn spec_rpm(self) -> int {
        rpm_spec(
            self.velocity_micro_ms as int,
            self.wheel_radius_micro_m as int,
            final_ratio_micro(self.transmission.gear as int),
            self.idle_milli_rpm as int,
        )
    }

    /// The wheel torque as a mathematical value: engine torque at the
    /// current rpm, times the final ratio and the powertrain efficiency.
    pub open spec fn spec_wheel_torque(self) -> int {
        torque_of(self.curve.points@, self.spec_rpm()) * final_ratio_micro(
            self.transmission.gear as int,
        ) * (self.powertrain_efficiency_milli as int) / 1_000_000_000
    }

    /// The maximal wheel force as a mathematical value: wheel torque over
    /// wheel radius.
    pub open spec fn spec_max_force(self) -> int {
        self.spec_wheel_torque() * 1_000_000 / (self.wheel_radius_micro_m as int)
    }

    /// The current engine speed in milli-rpm.
    pub fn get_current_rpm(&self) -> (r: u64)
        requires
            self.wf(),
        ensures
            r == self.spec_rpm(),
            r <= 200_000_000_000,
    {
        proof {
            lemma_final_ratio_range(self.transmission.gear as int);
        }
        if self.velocity_micro_ms <= 0 {
            return self.idle_milli_rpm;
        }
        let v: u64 = self.velocity_micro_ms as u64;
        let ratio: u64 = self.transmission.get_final_ratio();
        proof {
            assert((v as int) * (ratio as int) <= 16_000_000_000_000_000int) by (nonlinear_arith)
                requires
                    0 <= v <= 1_000_000_000,
                    0 <= ratio <= 16_000_000,
            ;
        }
        let num: u128 = (v as u128) * (ratio as u128) * 60_000_000u128;
        let den: u128 = (self.wheel_radius_micro_m as u128) * (TWO_PI_NANO as u128);
        proof {
            assert((self.wheel_radius_micro_m as int) * (TWO_PI_NANO as int)
                >= 6_283_185_307_000int) by (nonlinear_arith)
                requires
                    self.wheel_radius_micro_m >= 1_000,
                    TWO_PI_NANO == 6_283_185_307,
            ;
            assert((num as int) <= 160_000_000_000int * (den as int)) by (nonlinear_arith)
                requires
                    num <= 960_000_000_000_000_000_000_000,
                    den >= 6_283_185_307_000,
            ;
            crate::fixed::lemma_div_trunc_quotient_bound(num as int, den as int,
                160_000_000_000);
        }
        let raw: u128 = num / den;
        let raw64: u64 = raw as u64;
        if raw64 < self.idle_milli_rpm {
            self.idle_milli_rpm
        } else {
            raw64
        }
    }

    /// The wheel torque at the current engine speed, in milli-newton-metres.
    pub fn get_torque(&self) -> (t: i64)
        requires
            self.wf(),
        ensures
            t == self.spec_wheel_torque(),
            0 <= t <= 160_000_000,
    {
        let rpm: u64 = self.get_current_rpm();
        let engine_torque: i64 = self.curve.torque_at(rpm);
        let ratio: u64 = self.transmission.get_final_ratio();
        proof {
            lemma_final_ratio_range(self.transmission.gear as int);
            assert(0 <= (engine_torque as int) * (ratio as int)
                <= 160_000_000_000_000int) by (nonlinear_arith)
                requires
                    0 <= engine_torque <= 10_000_000,
                    0 <= ratio <= 16_000_000,
            ;
            assert(0 <= (engine_torque as int) * (ratio as int) * (
            self.powertrain_efficiency_milli as int) <= 160_000_000_000_000_000int)
                by (nonlinear_arith)
                requires
                    0 <= (engine_torque as int) * (ratio as int) <= 160_000_000_000_000,
                    0 <= self.powertrain_efficiency_milli <= 1_000,
            ;
            crate::fixed::lemma_div_trunc_quotient_bound(
                (engine_torque as int) * (ratio as int) * (
                self.powertrain_efficiency_milli as int),
                1_000_000_000,
                160_000_000,
            );
        }
        let scaled: u128 = (engine_torque as u128) * (ratio as u128) * (
        self.powertrain_efficiency_milli as u128);
        let q: u128 = scaled / 1_000_000_000u128;
        q as i64
    }

    /// The maximal wheel force at the current engine speed, in milli-newtons.
    pub fn get_max_force(&self) -> (f: i64)
        requires
            self.wf(),
        ensures
            f == self.spec_max_force(),
            0 <= f <= 160_000_000_000,
    {
        let torque: i64 = self.get_torque();
        proof {
            crate::fixed::lemma_div_trunc_quotient_bound(
                (torque as int) * 1_000_000,
                self.wheel_radius_micro_m as int,
                160_000_000_000,
            );
            assert((torque as int) * 1_000_000 <= 160_000_000_000int * (
            self.wheel_radius_micro_m as int)) by (nonlinear_arith)
                requires
                    0 <= torque <= 160_000_000,
                    self.wheel_radius_micro_m >= 1_000,
            ;
        }
        let scaled: u128 = (torque as u128) * 1_000_000u128;
        let q: u128 = scaled / (self.wheel_radius_micro_m as u128);
        q as i64
    }

    /// Select a gear directly.
    pub fn set_gear(&mut self, gear: u8)
        requires
            1 <= gear <= TOP_GEAR,
        ensures
            *final(self) == (Car { transmission: Transmission { gear }, ..*old(self) }),
    {
        self.transmission.gear = gear;
    }

    /// Set the velocity from a value in milli-kilometres per hour.
    pub fn set_velocity_kmh(&mut self, velocity_milli_kmh: i64)
        requires
            -2_000_000 <= velocity_milli_kmh <= 2_000_000,
        ensures
            *final(self) == (Car {
                velocity_micro_ms: velocity_milli_kmh.spec_kmh_to_ms(),
                ..*old(self)
            }),
            -600_000_000 <= final(self).velocity_micro_ms <= 600_000_000,
    {
        proof {
            crate::fixed::lemma_div_trunc_quotient_bound(
                (velocity_milli_kmh as int) * 2_500,
                9,
                600_000_000,
            );
        }
        self.velocity_micro_ms = velocity_milli_kmh.kmh_to_ms();
    }

    /// Set the cruise setpoint in milli-kilometres per hour.
    pub fn set_velocity_desired_kmh(&mut self, desired_milli_kmh: i64)
        requires
            -2_000_000 <= desired_milli_kmh <= 2_000_000,
        ensures
            *final(self) == (Car {
                velocity_desired_milli_kmh: desired_milli_kmh,
                ..*old(self)
            }),
    {
        self.velocity_desired_milli_kmh = desired_milli_kmh;
    }

    /// The front and rear axle loads for a car of the given weight under the
    /// given acceleration, in milli-newtons.
    pub fn get_weight_distribution(weight_kg: u64, acc_micro: i64) -> (r: (i64, i64))
        requires
            1 <= weight_kg <= 100_000,
            -(ACCELERATION_LIMIT_MICRO as int) <= acc_micro <= ACCELERATION_LIMIT_MICRO as int,
        ensures
            r.0 == weight_distribution_spec(weight_kg as int, acc_micro as int).0,
            r.1 == weight_distribution_spec(weight_kg as int, acc_micro as int).1,
            -20_000_000_000_000 <= r.0 <= 20_000_000_000_000,
            -20_000_000_000_000 <= r.1 <= 20_000_000_000_000,
    {
        let stat_front: u64 = FRONT_SHARE_MILLI * weight_kg * GRAVITY_MILLI / 1_000;
        let stat_rear: u64 = REAR_SHARE_MILLI * weight_kg * GRAVITY_MILLI / 1_000;
        proof {
            crate::fixed::lemma_div_shrinks(
                (FRONT_SHARE_MILLI as int) * (weight_kg as int) * (GRAVITY_MILLI as int),
                1_000,
            );
            crate::fixed::lemma_div_shrinks(
                (REAR_SHARE_MILLI as int) * (weight_kg as int) * (GRAVITY_MILLI as int),
                1_000,
            );
            assert((COM_HEIGHT_MILLI as int) * (weight_kg as int) * (acc_micro as int)
                <= 35_000_000_000_000_000_000int && (COM_HEIGHT_MILLI as int) * (
            weight_kg as int) * (acc_micro as int) >= -35_000_000_000_000_000_000int)
                by (nonlinear_arith)
                requires
                    COM_HEIGHT_MILLI == 350,
                    1 <= weight_kg <= 100_000,
                    -1_000_000_000_000 <= acc_micro <= 1_000_000_000_000,
            ;
            assert(15_000_000_000_000int * ((WHEELBASE_MILLI as int) * 1_000)
                == 37_395_000_000_000_000_000int) by (nonlinear_arith)
                requires
                    WHEELBASE_MILLI == 2_493,
            ;
            crate::fixed::lemma_div_trunc_quotient_bound(
                (COM_HEIGHT_MILLI as int) * (weight_kg as int) * (acc_micro as int),
                (WHEELBASE_MILLI as int) * 1_000,
                15_000_000_000_000,
            );
        }
        let hw: u64 = COM_HEIGHT_MILLI * weight_kg;
        let transfer_wide: i128 = mul_wide(hw as i64, acc_micro);
        let transfer: i128 = div_trunc_i128(transfer_wide, WHEELBASE_MILLI * 1_000);
        let transfer64: i64 = transfer as i64;
        ((stat_front as i64) - transfer64, (stat_rear as i64) + transfer64)
    }

    /// Shift at most one gear according to the rpm thresholds and the sign
    /// of the acceleration.
    fn change_gear_if_needed(&mut self, acc_micro: i64)
        requires
            old(self).wf(),
        ensures
            *final(self) == (Car {
                transmission: Transmission {
                    gear: shift_spec(
                        old(self).transmission.gear as int,
                        acc_micro as int,
                        old(self).spec_rpm(),
                        old(self).upshift_milli_rpm as int,
                        old(self).downshift_milli_rpm as int,
                    ) as u8,
                },
                ..*old(self)
            }),
            final(self).wf(),
    {
        let rpm: u64 = self.get_current_rpm();
        if acc_micro > 0 && rpm > self.upshift_milli_rpm && self.transmission.gear < TOP_GEAR {
            let g: u8 = self.transmission.gear + 1;
            self.set_gear(g);
        } else if acc_micro < 0 && rpm < self.downshift_milli_rpm && self.transmission.gear > 1 {
            let g: u8 = self.transmission.gear - 1;
            self.set_gear(g);
        }
    }
}


/// The cruise setpoint converted to micro-metres per second.
pub open spec fn desired_micro_spec(c: Car) -> int {
    c.velocity_desired_milli_kmh.spec_kmh_to_ms() as int
}

/// Aerodynamic drag of this tick.
pub open spec fn step_drag(c: Car) -> int {
    drag_force_milli(c.velocity_micro_ms as int)
}

/// Grade force of this tick.
pub open spec fn step_gradient(c: Car, grade_sin_micro: int) -> int {
    gradient_force_milli(c.weight_kg as int, grade_sin_micro)
}

/// Rolling resistance of this tick: applied only while moving forward,
/// exactly zero at standstill or in reverse.
pub open spec fn step_rolling(c: Car) -> int {
    if c.velocity_micro_ms > 0 {
        rolling_force_milli(c.weight_kg as int)
    } else {
        0
    }
}

/// The raw PID output of this tick.
pub open spec fn step_pid_output(c: Car, dt_ms: int) -> int {
    step_output(c.pid, dt_ms, c.velocity_micro_ms as int, desired_micro_spec(c))
}

/// The throttle command of this tick, in micro.
pub open spec fn step_throttle(c: Car, dt_ms: int) -> int {
    clamp_norm_spec(c.pid.output_clamp as int, step_pid_output(c, dt_ms))
}

/// The commanded forward force before traction control: zero past the
/// engine rpm ceiling, else throttle times the maximal wheel force.
pub open spec fn step_forward_raw(c: Car, dt_ms: int) -> int {
    if c.spec_rpm() > MAX_RPM_MILLI {
        0
    } else {
        step_throttle(c, dt_ms) * c.spec_max_force() / 1_000_000
    }
}

/// Whether traction control engages: the commanded force exceeds the front
/// axle load of the previous tick.
pub open spec fn step_traction_control(c: Car, dt_ms: int) -> bool {
    step_forward_raw(c, dt_ms) > c.weight_balance.0
}

/// The forward force after the traction-control clamp.
pub open spec fn step_forward(c: Car, dt_ms: int) -> int {
    if step_traction_control(c, dt_ms) {
        c.weight_balance.0 as int
    } else {
        step_forward_raw(c, dt_ms)
    }
}

/// The net longitudinal force of this tick.
pub open spec fn step_net_force(c: Car, dt_ms: int, grade_sin_micro: int) -> int {
    step_forward(c, dt_ms) - step_drag(c) - step_gradient(c, grade_sin_micro) - step_rolling(c)
}

/// The acceleration of this tick: net force over weight, saturated at the
/// envelope bound.
pub open spec fn step_acceleration(c: Car, dt_ms: int, grade_sin_micro: int) -> int {
    clamp_spec(
        div_trunc(step_net_force(c, dt_ms, grade_sin_micro) * 1_000, c.weight_kg as int),
        -(ACCELERATION_LIMIT_MICRO as int),
        ACCELERATION_LIMIT_MICRO as int,
    )
}

/// The velocity after explicit Euler integration, saturated at the
/// envelope bound.
pub open spec fn step_velocity(c: Car, dt_ms: int, grade_sin_micro: int) -> int {
    clamp_spec(
        c.velocity_micro_ms + div_trunc(step_acceleration(c, dt_ms, grade_sin_micro) * dt_ms,
            1_000),
        -(VELOCITY_LIMIT_MICRO as int),
        VELOCITY_LIMIT_MICRO as int,
    )
}

/// The whole car state after one tick.
pub open spec fn step_car(c: Car, dt_ms: u64, grade_sin_micro: int) -> Car {
    let acc = step_acceleration(c, dt_ms as int, grade_sin_micro);
    let v2 = step_velocity(c, dt_ms as int, grade_sin_micro);
    let wd = weight_distribution_spec(c.weight_kg as int, acc);
    let rpm2 = rpm_spec(
        v2,
        c.wheel_radius_micro_m as int,
        final_ratio_micro(c.transmission.gear as int),
        c.idle_milli_rpm as int,
    );
    Car {
        transmission: Transmission {
            gear: shift_spec(
                c.transmission.gear as int,
                acc,
                rpm2,
                c.upshift_milli_rpm as int,
                c.downshift_milli_rpm as int,
            ) as u8,
        },
        measurement: check_spec(c.measurement, c.time_ms, v2),
        pid: step_state(c.pid, dt_ms as int, c.velocity_micro_ms as int, desired_micro_spec(c)),
        velocity_micro_ms: v2 as i64,
        weight_balance: (wd.0 as i64, wd.1 as i64),
        time_ms: if c.time_ms + dt_ms <= u64::MAX {
            (c.time_ms + dt_ms) as u64
        } else {
            u64::MAX
        },
        ..c
    }
}

/// The numeric fields a tick reports: everything the telemetry line shows.
pub struct Telemetry {
    /// Velocity after the tick, in micro-metres per second.
    pub velocity_micro_ms: i64,
    /// Engine speed the tick's forces were computed at, in milli-rpm.
    pub rpm_milli: u64,
    /// Gear after the tick.
    pub gear: u8,
    /// Cruise setpoint in milli-kilometres per hour.
    pub velocity_desired_milli_kmh: i64,
    /// Net longitudinal force in milli-newtons.
    pub force_milli: i64,
    /// Whether the traction-control clamp engaged.
    pub traction_control: bool,
    /// Aerodynamic drag in milli-newtons.
    pub drag_milli: i64,
    /// Grade force in milli-newtons.
    pub gradient_milli: i64,
    /// Rolling resistance in milli-newtons.
    pub rolling_milli: i64,
    /// Acceleration in micro-metres per second squared.
    pub acceleration_micro: i64,
    /// Throttle command in micro.
    pub throttle_micro: i64,
    /// Front axle load in milli-newtons.
    pub front_load_milli: i64,
    /// Rear axle load in milli-newtons.
    pub rear_load_milli: i64,
    /// Milestone: elapsed milliseconds to 100 km/h, if reached.
    pub to_hundred_ms: Option<u64>,
    /// Milestone: elapsed milliseconds to 200 km/h, if reached.
    pub to_two_hundred_ms: Option<u64>,
}

/// The telemetry one tick reports.
pub open spec fn step_telemetry(c: Car, dt_ms: u64, grade_sin_micro: int) -> Telemetry {
    let next = step_car(c, dt_ms, grade_sin_micro);
    Telemetry {
        velocity_micro_ms: next.velocity_micro_ms,
        rpm_milli: c.spec_rpm() as u64,
        gear: next.transmission.gear,
        velocity_desired_milli_kmh: c.velocity_desired_milli_kmh,
        force_milli: step_net_force(c, dt_ms as int, grade_sin_micro) as i64,
        traction_control: step_traction_control(c, dt_ms as int),
        drag_milli: step_drag(c) as i64,
        gradient_milli: step_gradient(c, grade_sin_micro) as i64,
        rolling_milli: step_rolling(c) as i64,
        acceleration_micro: step_acceleration(c, dt_ms as int, grade_sin_micro) as i64,
        throttle_micro: step_throttle(c, dt_ms as int) as i64,
        front_load_milli: next.weight_balance.0,
        rear_load_milli: next.weight_balance.1,
        to_hundred_ms: next.measurement.to_hundred,
        to_two_hundred_ms: next.measurement.to_two_hundred,
    }
}

impl Car {
    /// The simulated car with its fixed physical constants: first gear, at
    /// rest, milestones unset, controller cleared.
    pub fn new() -> (c: Car)
        ensures
            c.wf(),
            c.transmission.gear == 1,
            c.measurement.to_hundred is None,
            c.measurement.to_two_hundred is None,
            c.pid == (Controller {
                kp: 4_000,
                ki: 700,
                kd: 1_000,
                output_clamp: 10_000_000,
                integral_prior: 0,
                error_prior: 0,
                bias: 0,
            }),
            c.curve.points@ == fiesta_points(),
            c.weight_kg == CAR_WEIGHT_KG,
            c.wheel_radius_micro_m == 311_150,
            c.velocity_micro_ms == 0,
            c.velocity_desired_milli_kmh == 380_000,
            c.upshift_milli_rpm == 6_300_000,
            c.downshift_milli_rpm == 1_500_000,
            c.idle_milli_rpm == 850_000,
            c.time_ms == 0,
            c.powertrain_efficiency_milli == 750,
            c.weight_balance.0 == weight_distribution_spec(CAR_WEIGHT_KG as int, 0).0,
            c.weight_balance.1 == weight_distribution_spec(CAR_WEIGHT_KG as int, 0).1,
    {
        let weight_balance: (i64, i64) = Car::get_weight_distribution(CAR_WEIGHT_KG, 0);
        Car {
            transmission: Transmission { gear: 1 },
            measurement: Measurement::new(),
            pid: Controller::new(4_000, 700, 1_000, 10_000_000),
            curve: TorqueCurve::fiesta(),
            weight_kg: CAR_WEIGHT_KG,
            wheel_radius_micro_m: 311_150,
            velocity_micro_ms: 0,
            velocity_desired_milli_kmh: 380_000,
            upshift_milli_rpm: 6_300_000,
            downshift_milli_rpm: 1_500_000,
            idle_milli_rpm: 850_000,
            time_ms: 0,
            powertrain_efficiency_milli: 750,
            weight_balance,
        }
    }

    /// Advance the simulation by one tick of the given duration on a road
    /// whose grade angle has the given sine, and report the tick's
    /// telemetry.
    #[verifier::rlimit(100)]
    pub fn step(&mut self, t_delta_ms: u64, grade_sin_micro: i64) -> (tel: Telemetry)
        requires
            old(self).wf(),
            1 <= t_delta_ms <= MAX_TICK_MS,
            -1_000_000 <= grade_sin_micro <= 1_000_000,
        ensures
            *final(self) == step_car(*old(self), t_delta_ms, grade_sin_micro as int),
            final(self).wf(),
            tel == step_telemetry(*old(self), t_delta_ms, grade_sin_micro as int),
    {
        let drag: i64 = f_drag(self.velocity_micro_ms);
        let gradient_force: i64 = f_gradient(self.weight_kg, grade_sin_micro);
        let rolling_force: i64 = if self.velocity_micro_ms > 0 {
            f_rolling(self.weight_kg)
        } else {
            0
        };
        proof {
            crate::fixed::lemma_div_trunc_quotient_bound(
                (self.velocity_desired_milli_kmh as int) * 2_500,
                9,
                600_000_000,
            );
        }
        let desired: i64 = self.velocity_desired_milli_kmh.kmh_to_ms();
        let pid_output: i64 = self.pid.step(t_delta_ms, self.velocity_micro_ms, desired);
        let throttle: i64 = self.pid.clamp_and_normalize(pid_output);
        proof {
            assert(self.wf());
        }
        let rpm: u64 = self.get_current_rpm();
        let force_forward_raw: i64 = if rpm > get_max_rpm() {
            0
        } else {
            let max_force: i64 = self.get_max_force();
            proof {
                assert(0 <= (throttle as int) * (max_force as int)
                    <= 160_000_000_000_000_000int) by (nonlinear_arith)
                    requires
                        0 <= throttle <= 1_000_000,
                        0 <= max_force <= 160_000_000_000,
                ;
                crate::fixed::lemma_div_trunc_quotient_bound(
                    (throttle as int) * (max_force as int),
                    1_000_000,
                    160_000_000_000,
                );
            }
            let scaled: u128 = (throttle as u128) * (max_force as u128);
            (scaled / 1_000_000u128) as i64
        };
        let traction_control: bool = force_forward_raw > self.weight_balance.0;
        let force_forward: i64 = if traction_control {
            self.weight_balance.0
        } else {
            force_forward_raw
        };
        let force: i64 = force_forward - drag - gradient_force - rolling_force;
        let acc_raw: i64 = div_trunc_i64(force * 1_000, self.weight_kg);
        proof {
            crate::fixed::lemma_div_trunc_bound((force as int) * 1_000, self.weight_kg as int);
        }
        let acc: i64 = if acc_raw > ACCELERATION_LIMIT_MICRO {
            ACCELERATION_LIMIT_MICRO
        } else if acc_raw < -ACCELERATION_LIMIT_MICRO {
            -ACCELERATION_LIMIT_MICRO
        } else {
            acc_raw
        };
        let dv_wide: i128 = mul_wide(acc, t_delta_ms as i64);
        proof {
            assert(-10_000_000_000_000_000int <= (acc as int) * (t_delta_ms as int)
                <= 10_000_000_000_000_000int) by (nonlinear_arith)
                requires
                    -1_000_000_000_000 <= acc <= 1_000_000_000_000,
                    0 <= t_delta_ms <= 10_000,
            ;
            crate::fixed::lemma_div_trunc_quotient_bound(
                dv_wide as int,
                1_000,
                10_000_000_000_000,
            );
        }
        let dv: i128 = div_trunc_i128(dv_wide, 1_000);
        let v_next_wide: i128 = (self.velocity_micro_ms as i128) + dv;
        let v_next: i64 = if v_next_wide > VELOCITY_LIMIT_MICRO as i128 {
            VELOCITY_LIMIT_MICRO
        } else if v_next_wide < -(VELOCITY_LIMIT_MICRO as i128) {
            -VELOCITY_LIMIT_MICRO
        } else {
            v_next_wide as i64
        };
        self.velocity_micro_ms = v_next;
        self.weight_balance = Car::get_weight_distribution(self.weight_kg, acc);
        proof {
            assert(self.wf());
        }
        self.change_gear_if_needed(acc);
        self.measurement.check_and_store(self.time_ms, self.velocity_micro_ms);
        self.time_ms = if t_delta_ms <= u64::MAX - self.time_ms {
            self.time_ms + t_delta_ms
        } else {
            u64::MAX
        };
        Telemetry {
            velocity_micro_ms: self.velocity_micro_ms,
            rpm_milli: rpm,
            gear: self.transmission.gear,
            velocity_desired_milli_kmh: self.velocity_desired_milli_kmh,
            force_milli: force,
            traction_control,
            drag_milli: drag,
            gradient_milli: gradient_force,
            rolling_milli: rolling_force,
            acceleration_micro: acc,
            throttle_micro: throttle,
            front_load_milli: self.weight_balance.0,
            rear_load_milli: self.weight_balance.1,
            to_hundred_ms: self.measurement.to_hundred,
            to_two_hundred_ms: self.measurement.to_two_hundred,
        }
    }
}

/// Rolling resistance acts only while the car moves forward: it is exactly
/// zero at standstill (and in reverse), and exactly the rolling force of
/// the car's weight otherwise.
pub proof fn lemma_rolling_only_when_moving(c: Car)
    ensures
        c.velocity_micro_ms <= 0 ==> step_rolling(c) == 0,
        c.velocity_micro_ms > 0 ==> step_rolling(c) == rolling_force_milli(c.weight_kg as int),
{
}

/// The shift rule is hysteretic: with the downshift threshold strictly
/// below the upshift threshold, no engine speed can trigger both shifts, a
/// tick shifts by at most one gear, an upshift happens only while
/// accelerating above the upshift threshold, and a downshift only while
/// decelerating below the downshift threshold.
pub proof fn lemma_shift_hysteresis(gear: int, acc: int, rpm: int, up: int, down: int)
    requires
        down < up,
        1 <= gear <= TOP_GEAR,
    ensures
        !(rpm > up && rpm < down),
        1 <= shift_spec(gear, acc, rpm, up, down) <= TOP_GEAR,
        gear - 1 <= shift_spec(gear, acc, rpm, up, down) <= gear + 1,
        shift_spec(gear, acc, rpm, up, down) == gear + 1 ==> acc > 0 && rpm > up,
        shift_spec(gear, acc, rpm, up, down) == gear - 1 && gear - 1 >= 1 ==> acc < 0 && rpm
            < down,
{
}

/// One tick shifts by at most one gear, an upshift happens only while
/// accelerating with the engine above the upshift threshold, and a
/// downshift only while decelerating with the engine below the strictly
/// lower downshift threshold: an upshift can never be undone in the tick
/// it happens in, nor before the engine speed has fallen all the way
/// through the hysteresis band.
pub proof fn lemma_step_shifts_at_most_one_gear(c: Car, dt_ms: u64, grade_sin_micro: int)
    requires
        c.wf(),
    ensures
        ({
            let next = step_car(c, dt_ms, grade_sin_micro);
            let acc = step_acceleration(c, dt_ms as int, grade_sin_micro);
            let rpm2 = rpm_spec(
                step_velocity(c, dt_ms as int, grade_sin_micro),
                c.wheel_radius_micro_m as int,
                final_ratio_micro(c.transmission.gear as int),
                c.idle_milli_rpm as int,
            );
            &&& c.transmission.gear - 1 <= next.transmission.gear <= c.transmission.gear + 1
            &&& 1 <= next.transmission.gear <= TOP_GEAR
            &&& (next.transmission.gear > c.transmission.gear ==> acc > 0 && rpm2
                > c.upshift_milli_rpm)
            &&& (next.transmission.gear < c.transmission.gear ==> acc < 0 && rpm2
                < c.downshift_milli_rpm)
        }),
{
    let acc = step_acceleration(c, dt_ms as int, grade_sin_micro);
    let rpm2 = rpm_spec(
        step_velocity(c, dt_ms as int, grade_sin_micro),
        c.wheel_radius_micro_m as int,
        final_ratio_micro(c.transmission.gear as int),
        c.idle_milli_rpm as int,
    );
    lemma_shift_hysteresis(
        c.transmission.gear as int,
        acc,
        rpm2,
        c.upshift_milli_rpm as int,
        c.downshift_milli_rpm as int,
    );
}

} // verus!
