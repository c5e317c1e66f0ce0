use carsim::engine::get_torque;
use carsim::transmission::Transmission;

#[test]
fn get_torque_test() {
    // Flat extrapolation below the first sample (rpm in milli, torque in
    // milli-newton-metres).
    assert_eq!(185_600, get_torque(0));
    assert_eq!(185_600, get_torque(500_000));
    assert_eq!(185_600, get_torque(1_000_000));
    // Linear interpolation inside the first segment.
    assert_eq!(188_130, get_torque(1_010_000));
    assert_eq!(198_250, get_torque(1_050_000));
    assert_eq!(210_900, get_torque(1_100_000));
    // The falling tail and flat extrapolation above the last sample.
    assert_eq!(205_300, get_torque(6_400_000));
    assert_eq!(194_400, get_torque(6_500_000));
    assert_eq!(194_400, get_torque(6_600_000));
}

#[test]
fn get_ratio_test() {
    let mut transmission = Transmission { gear: 1 };
    assert_eq!(15_453_479, transmission.get_final_ratio());
    transmission.gear = 6;
    assert_eq!(2_807_763, transmission.get_final_ratio());
}

#[test]
fn final_ratio_strictly_decreasing() {
    let mut previous: u64 = u64::MAX;
    let mut gear: u8 = 1;
    while gear <= 6 {
        let transmission = Transmission { gear };
        let ratio = transmission.get_final_ratio();
        assert!(ratio < previous);
        previous = ratio;
        gear += 1;
    }
}

#[test]
fn torque_exact_at_samples() {
    assert_eq!(232_000, get_torque(1_200_000));
    assert_eq!(290_000, get_torque(1_600_000));
    assert_eq!(290_000, get_torque(4_000_000));
    assert_eq!(288_700, get_torque(4_300_000));
    assert_eq!(234_000, get_torque(6_000_000));
}

#[test]
fn torque_nondecreasing_below_peak() {
    let samples: [u64; 7] = [0, 900_000, 1_050_000, 1_400_000, 2_000_000, 3_333_333, 4_000_000];
    let mut i: usize = 0;
    while i + 1 < samples.len() {
        assert!(get_torque(samples[i]) <= get_torque(samples[i + 1]));
        i += 1;
    }
}

#[test]
fn torque_nonincreasing_at_tail() {
    let samples: [u64; 6] = [4_000_000, 4_450_000, 5_000_000, 5_919_000, 6_450_000, 7_000_000];
    let mut i: usize = 0;
    while i + 1 < samples.len() {
        assert!(get_torque(samples[i]) >= get_torque(samples[i + 1]));
        i += 1;
    }
}
