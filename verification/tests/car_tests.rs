use carsim::car::Car;

#[test]
fn get_rpm_test() {
    let mut car = Car::new();
    // At rest the engine idles at 850 rpm; the wheel-force bound there is
    // about 6913.46 N (0.75 efficiency, 0.31115 m wheel radius).
    assert_eq!(850_000, car.get_current_rpm());
    assert_eq!(6_913_462, car.get_max_force());

    car.set_velocity_kmh(10_000);
    assert_eq!(1_317_422, car.get_current_rpm());
    assert_eq!(9_404_133, car.get_max_force());

    car.set_velocity_kmh(20_000);
    assert_eq!(2_634_846, car.get_current_rpm());
    assert_eq!(10_802_285, car.get_max_force());

    // Still gear 1 at 30 km/h: the force matches the 20 km/h value, the
    // torque curve's flat plateau.
    car.set_velocity_kmh(30_000);
    assert_eq!(3_952_269, car.get_current_rpm());
    assert_eq!(10_802_285, car.get_max_force());

    // Gear 2 at the same speed drops the available force.
    car.set_gear(2);
    assert_eq!(2_153_176, car.get_current_rpm());
    assert_eq!(5_885_029, car.get_max_force());

    car.set_velocity_kmh(40_000);
    assert_eq!(2_870_901, car.get_current_rpm());
    assert_eq!(5_885_029, car.get_max_force());

    car.set_velocity_kmh(90_000);
    assert_eq!(6_459_529, car.get_current_rpm());
    assert_eq!(4_034_533, car.get_max_force());
}

#[test]
fn first_tick_from_rest() {
    let mut car = Car::new();
    let tel = car.step(10, 0);
    // Idling, level road, standstill: no drag, no rolling resistance, no
    // grade force; the controller saturates the throttle.
    assert_eq!(850_000, tel.rpm_milli);
    assert_eq!(0, tel.drag_milli);
    assert_eq!(0, tel.rolling_milli);
    assert_eq!(0, tel.gradient_milli);
    assert_eq!(1_000_000, tel.throttle_micro);
    assert!(!tel.traction_control);
    assert_eq!(6_913_462, tel.force_milli);
    assert_eq!(5_261_386, tel.acceleration_micro);
    assert_eq!(52_613, tel.velocity_micro_ms);
    assert_eq!(1, tel.gear);
    assert_eq!(6_686_259, tel.front_load_milli);
    assert_eq!(6_204_080, tel.rear_load_milli);
    assert_eq!(None, tel.to_hundred_ms);
    assert_eq!(None, tel.to_two_hundred_ms);
}

#[test]
fn traction_control_engages_on_second_tick() {
    let mut car = Car::new();
    let first = car.step(10, 0);
    assert!(!first.traction_control);
    // The first tick's acceleration shifts load rearward, so the second
    // tick's commanded force exceeds the front-axle bound and is clamped.
    let second = car.step(10, 0);
    assert!(second.traction_control);
    assert_eq!(6_557_356, second.force_milli);
    assert_eq!(102_516, second.velocity_micro_ms);
}

#[test]
fn rolling_resistance_only_while_moving() {
    let mut car = Car::new();
    let at_rest = car.step(10, 0);
    assert_eq!(0, at_rest.rolling_milli);
    // Once moving, rolling resistance is 0.01 * m * g.
    let moving = car.step(10, 0);
    assert_eq!(128_903, moving.rolling_milli);
}

#[test]
fn uphill_grade_opposes_motion() {
    let mut car = Car::new();
    // sin(4 degrees) in micro; weight 1314 kg.
    let tel = car.step(10, 69_756);
    assert_eq!(899_178, tel.gradient_milli);
    let mut downhill = Car::new();
    let tel2 = downhill.step(10, -69_756);
    assert_eq!(-899_178, tel2.gradient_milli);
}

#[test]
fn gear_shift_hysteresis() {
    let mut car = Car::new();
    // 48 km/h in gear 1 puts the engine just above the 6300 rpm upshift
    // threshold while accelerating: the tick shifts up exactly one gear.
    car.set_velocity_kmh(48_000);
    let tel = car.step(10, 0);
    assert_eq!(6_323_631, tel.rpm_milli);
    assert_eq!(2, tel.gear);
    // In gear 2 the engine falls to about 3450 rpm, between the two
    // thresholds: the next tick must not shift back down.
    let tel2 = car.step(10, 0);
    assert_eq!(2, tel2.gear);
    assert_eq!(3_459_773, tel2.rpm_milli);
    let tel3 = car.step(10, 0);
    assert_eq!(2, tel3.gear);
}

#[test]
fn engine_cutout_above_redline() {
    let mut car = Car::new();
    // 100 km/h in gear 1 is far past the 6500 rpm ceiling: no forward
    // force, so the net force is pure resistance and the car decelerates.
    car.set_velocity_kmh(100_000);
    let tel = car.step(10, 0);
    assert!(tel.rpm_milli > 6_500_000);
    assert!(tel.force_milli < 0);
    assert!(tel.acceleration_micro < 0);
}

#[test]
fn weight_distribution_static_split() {
    let split = Car::get_weight_distribution(1_314, 0);
    // 59.4% front, 40.6% rear of 1314 kg times gravity.
    assert_eq!(7_656_861, split.0);
    assert_eq!(5_233_478, split.1);
    assert!(split.0 > split.1);
}

#[test]
fn weight_transfer_shifts_rearward_under_acceleration() {
    let accelerating = Car::get_weight_distribution(1_314, 5_000_000);
    let braking = Car::get_weight_distribution(1_314, -5_000_000);
    let static_split = Car::get_weight_distribution(1_314, 0);
    assert!(accelerating.0 < static_split.0);
    assert!(accelerating.1 > static_split.1);
    assert!(braking.0 > static_split.0);
    assert!(braking.1 < static_split.1);
    // The total load is conserved up to the shared truncation term.
    assert_eq!(
        accelerating.0 + accelerating.1,
        static_split.0 + static_split.1
    );
}

#[test]
fn elapsed_time_advances_per_tick() {
    let mut car = Car::new();
    let mut i: u32 = 0;
    while i < 5 {
        car.step(10, 0);
        i += 1;
    }
    let tel = car.step(10, 0);
    // Six ticks of 10 ms; milestones are still unset at walking pace.
    assert_eq!(None, tel.to_hundred_ms);
    assert!(tel.velocity_micro_ms > 0);
}

#[test]
fn acceleration_run_records_milestones_once() {
    let mut car = Car::new();
    let mut to_hundred: Option<u64> = None;
    let mut to_two_hundred: Option<u64> = None;
    let mut tick: u32 = 0;
    while tick < 6_000 {
        let tel = car.step(10, 0);
        // Once a milestone is set it never changes or resets.
        if let Some(t) = to_hundred {
            assert_eq!(Some(t), tel.to_hundred_ms);
        } else {
            to_hundred = tel.to_hundred_ms;
        }
        if let Some(t) = to_two_hundred {
            assert_eq!(Some(t), tel.to_two_hundred_ms);
        } else {
            to_two_hundred = tel.to_two_hundred_ms;
        }
        tick += 1;
    }
    // Full-throttle from rest: 100 km/h after 6.74 s, 200 km/h after
    // 27.63 s of simulated time, ending up in top gear.
    assert_eq!(Some(6_740), to_hundred);
    assert_eq!(Some(27_630), to_two_hundred);
    let last = car.step(10, 0);
    assert_eq!(6, last.gear);
    assert!(last.velocity_micro_ms > 60_000_000);
}
