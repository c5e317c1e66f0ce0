use carsim::force::{f_drag, f_gradient, f_rolling};
use carsim::measurement::Measurement;
use carsim::pid::Controller;
use carsim::value::{Named, Value};
use carsim::velocity_conversions::VelocityConversions;

#[test]
fn drag_zero_at_standstill() {
    assert_eq!(0, f_drag(0));
}

#[test]
fn drag_direction_independent() {
    // 10 m/s gives 0.5 * 1.225 * 0.208 * 2.5 * 100 = 31.85 N.
    assert_eq!(31_850, f_drag(10_000_000));
    assert_eq!(31_850, f_drag(-10_000_000));
    assert_eq!(f_drag(27_777_777), f_drag(-27_777_777));
}

#[test]
fn drag_increasing_with_speed() {
    let samples: [i64; 5] = [0, 1_000_000, 10_000_000, 27_777_777, 100_000_000];
    let mut i: usize = 0;
    while i + 1 < samples.len() {
        assert!(f_drag(samples[i]) < f_drag(samples[i + 1]));
        i += 1;
    }
}

#[test]
fn rolling_resistance_value() {
    // 0.01 * 1314 kg * 9.81 = 128.9034 N, truncated to milli-newtons.
    assert_eq!(128_903, f_rolling(1_314));
}

#[test]
fn gradient_force_signs() {
    // sin(4 degrees) is 0.069756 in micro.
    assert_eq!(899_178, f_gradient(1_314, 69_756));
    assert_eq!(-899_178, f_gradient(1_314, -69_756));
    assert_eq!(0, f_gradient(1_314, 0));
}

#[test]
fn pid_zero_error_outputs_bias() {
    let mut controller = Controller::new(4_000, 700, 1_000, 10_000_000);
    let out = controller.step(10, 5_000_000, 5_000_000);
    assert_eq!(0, out);
    assert_eq!(0, controller.integral_prior);
    assert_eq!(0, controller.error_prior);
    let out2 = controller.step(10, 5_000_000, 5_000_000);
    assert_eq!(0, out2);
    assert_eq!(0, controller.integral_prior);
}

#[test]
fn pid_first_step_exact_output() {
    let mut controller = Controller::new(4_000, 700, 1_000, 10_000_000);
    // Error 105.555555 m/s sustained from rest, 10 ms tick.
    let out = controller.step(10, 0, 105_555_555);
    assert_eq!(1_171_666_660, out);
    assert_eq!(1_000_000, controller.integral_prior);
    assert_eq!(105_555_555, controller.error_prior);
}

#[test]
fn pid_antiwindup_bounds_integral() {
    let mut controller = Controller::new(4_000, 700, 1_000, 10_000_000);
    let mut i: u32 = 0;
    while i < 50 {
        controller.step(10, 0, 100_000_000);
        assert!(-1_000_000 <= controller.integral_prior);
        assert!(controller.integral_prior <= 1_000_000);
        i += 1;
    }
    assert_eq!(1_000_000, controller.integral_prior);
    let mut j: u32 = 0;
    while j < 50 {
        controller.step(10, 100_000_000, 0);
        assert!(-1_000_000 <= controller.integral_prior);
        assert!(controller.integral_prior <= 1_000_000);
        j += 1;
    }
    assert_eq!(-1_000_000, controller.integral_prior);
}

#[test]
fn clamp_and_normalize_unit_interval() {
    let controller = Controller::new(4_000, 700, 1_000, 10_000_000);
    assert_eq!(0, controller.clamp_and_normalize(i64::MIN + 1));
    assert_eq!(0, controller.clamp_and_normalize(-5));
    assert_eq!(0, controller.clamp_and_normalize(0));
    assert_eq!(500_000, controller.clamp_and_normalize(5_000_000));
    assert_eq!(1_000_000, controller.clamp_and_normalize(10_000_000));
    assert_eq!(1_000_000, controller.clamp_and_normalize(i64::MAX));
}

#[test]
fn pid_clear_resets_history() {
    let mut controller = Controller::new(4_000, 700, 1_000, 10_000_000);
    controller.step(10, 0, 100_000_000);
    assert!(controller.integral_prior != 0);
    controller.clear();
    assert_eq!(0, controller.integral_prior);
    assert_eq!(0, controller.error_prior);
}

#[test]
fn milestones_set_when_crossed() {
    let mut m = Measurement::new();
    m.check_and_store(1_000, 20_000_000);
    assert_eq!(None, m.to_hundred);
    assert_eq!(None, m.to_two_hundred);
    // 27_777_777 micro-m/s is just short of 100 km/h; one more micro reaches it.
    m.check_and_store(2_000, 27_777_777);
    assert_eq!(None, m.to_hundred);
    m.check_and_store(3_000, 27_777_778);
    assert_eq!(Some(3_000), m.to_hundred);
    assert_eq!(None, m.to_two_hundred);
    m.check_and_store(4_000, 55_555_556);
    assert_eq!(Some(4_000), m.to_two_hundred);
}

#[test]
fn milestones_write_once() {
    let mut m = Measurement::new();
    m.check_and_store(3_000, 27_777_778);
    assert_eq!(Some(3_000), m.to_hundred);
    // Later, faster crossings never overwrite or reset the stored time.
    m.check_and_store(9_000, 80_000_000);
    assert_eq!(Some(3_000), m.to_hundred);
    assert_eq!(Some(9_000), m.to_two_hundred);
    m.check_and_store(10_000, 0);
    assert_eq!(Some(3_000), m.to_hundred);
    assert_eq!(Some(9_000), m.to_two_hundred);
}

#[test]
fn velocity_conversions_round_trip() {
    let one_ms: i64 = 1_000_000;
    assert_eq!(3_600, one_ms.ms_to_kmh());
    assert_eq!(1_000_000, (3_600 as i64).kmh_to_ms());
    assert_eq!(-3_600, (-1_000_000 as i64).ms_to_kmh());
    // 100 km/h is 27.777777 m/s, truncated at micro resolution.
    assert_eq!(27_777_777, (100_000 as i64).kmh_to_ms());
}

#[test]
fn value_increments() {
    let v = Value(6);
    assert_eq!(7, v.inc());
}

#[test]
fn value_is_named() {
    let v = Value(6);
    assert_eq!("Byte", v.get_name().as_str());
}
