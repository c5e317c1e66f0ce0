//! A discrete-time longitudinal vehicle dynamics simulator.
//!
//! Given a cruise-speed setpoint and a road grade, the library advances a car
//! model tick by tick: engine torque is interpolated from a measured curve,
//! converted to wheel force through the gearbox, opposed by drag, rolling
//! resistance and grade force, commanded by a PID throttle controller, limited
//! by a front-axle traction bound, and integrated into a new velocity.
//!
//! All physical quantities are fixed-point integers; each field and parameter
//! documents its unit (for example micro-metres per second for velocity,
//! milli-newtons for force, milli-rpm for engine speed).

pub mod car;
pub mod engine;
pub mod fixed;
pub mod force;
pub mod measurement;
pub mod pid;
pub mod transmission;
pub mod value;
pub mod velocity_conversions;
