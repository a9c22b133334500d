use bmi160::{AccelerometerRange, GyroRange, SensorSelector};

#[test]
fn selector_default_all() {
    assert_eq!(SensorSelector::all(), SensorSelector::default());
}

#[test]
fn selector_all() {
    assert_eq!(
        SensorSelector::all(),
        SensorSelector {
            accel: true,
            gyro: true,
            magnet: true,
            time: true
        }
    );
}

#[test]
fn selector_accel() {
    let expected = SensorSelector {
        accel: true,
        gyro: false,
        magnet: false,
        time: false,
    };
    assert_eq!(SensorSelector::new().accel(), expected);
}

#[test]
fn selector_gyro() {
    let expected = SensorSelector {
        accel: false,
        gyro: true,
        magnet: false,
        time: false,
    };
    assert_eq!(SensorSelector::new().gyro(), expected);
}

#[test]
fn selector_magnet() {
    let expected = SensorSelector {
        accel: false,
        gyro: false,
        magnet: true,
        time: false,
    };
    assert_eq!(SensorSelector::new().magnet(), expected);
}

#[test]
fn selector_time() {
    let expected = SensorSelector {
        accel: false,
        gyro: false,
        magnet: false,
        time: true,
    };
    assert_eq!(SensorSelector::new().time(), expected);
}

#[test]
fn selector_combine_all() {
    assert_eq!(
        SensorSelector::all(),
        SensorSelector::new().accel().gyro().magnet().time()
    );
}

#[test]
fn selector_new_is_empty() {
    assert_eq!(
        SensorSelector::new(),
        SensorSelector {
            accel: false,
            gyro: false,
            magnet: false,
            time: false
        }
    );
}

#[test]
fn default_ranges() {
    assert_eq!(AccelerometerRange::default(), AccelerometerRange::G2);
    assert_eq!(GyroRange::default(), GyroRange::Scale2000);
}

#[test]
fn range_codes() {
    assert_eq!(AccelerometerRange::G2.code(), 0b0011);
    assert_eq!(AccelerometerRange::G4.code(), 0b0101);
    assert_eq!(AccelerometerRange::G8.code(), 0b1000);
    assert_eq!(GyroRange::Scale2000.code(), 0b000);
    assert_eq!(GyroRange::Scale1000.code(), 0b001);
    assert_eq!(GyroRange::Scale500.code(), 0b010);
    assert_eq!(GyroRange::Scale250.code(), 0b011);
    assert_eq!(GyroRange::Scale125.code(), 0b100);
}

#[test]
fn sensitivities() {
    assert_eq!(AccelerometerRange::G2.lsb_per_g(), 16384);
    assert_eq!(AccelerometerRange::G4.lsb_per_g(), 8192);
    assert_eq!(AccelerometerRange::G8.lsb_per_g(), 4096);
    assert_eq!(GyroRange::Scale2000.lsb_per_ten_dps(), 164);
    assert_eq!(GyroRange::Scale1000.lsb_per_ten_dps(), 328);
    assert_eq!(GyroRange::Scale500.lsb_per_ten_dps(), 656);
    assert_eq!(GyroRange::Scale250.lsb_per_ten_dps(), 1312);
    assert_eq!(GyroRange::Scale125.lsb_per_ten_dps(), 2624);
}

fn accel_multiplier(range: AccelerometerRange) -> f32 {
    1. / f32::from(range.lsb_per_g())
}

fn gyro_multiplier(range: GyroRange) -> f32 {
    1. / (f32::from(range.lsb_per_ten_dps()) / 10.)
}

#[test]
fn scaling_of_a_raw_acceleration() {
    let raw: i16 = 0x100F;
    let at_2g = f32::from(raw) * accel_multiplier(AccelerometerRange::G2);
    let at_4g = f32::from(raw) * accel_multiplier(AccelerometerRange::G4);
    let at_8g = f32::from(raw) * accel_multiplier(AccelerometerRange::G8);
    assert_eq!(at_2g, 4111. / 16384.);
    assert_eq!(at_4g, 4111. / 8192.);
    assert_eq!(at_8g, 4111. / 4096.);
    assert!((at_2g - 0.25092).abs() < 1e-5);
    assert!((at_4g - 0.50183).abs() < 1e-5);
}

#[test]
fn gyroscope_multipliers() {
    assert_eq!(gyro_multiplier(GyroRange::Scale2000), 1. / 16.4);
    assert_eq!(gyro_multiplier(GyroRange::Scale1000), 1. / 32.8);
    assert_eq!(gyro_multiplier(GyroRange::Scale500), 1. / 65.6);
    assert_eq!(gyro_multiplier(GyroRange::Scale250), 1. / 131.2);
    assert_eq!(gyro_multiplier(GyroRange::Scale125), 1. / 262.4);
}
