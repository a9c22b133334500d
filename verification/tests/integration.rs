use bmi160::interface::I2cInterface;
use bmi160::interface::SpiInterface;
use bmi160::{
    AccelerometerRange, Bmi160, Data, GyroRange, MagnetometerData, Sensor3DData, SensorSelector,
    SlaveAddr,
};
use embedded_hal_mock::eh1::i2c::{Mock as I2cMock, Transaction as I2cTrans};
use embedded_hal_mock::eh1::spi::{Mock as SpiMock, Transaction as SpiTrans};

const DEV_ADDR: u8 = 0x68;
const CHIPID: u8 = 0x00;
const MAG: u8 = 0x04;
const GYR: u8 = 0x0C;
const ACC: u8 = 0x12;

fn new_spi(transactions: &[SpiTrans<u8>]) -> Bmi160<SpiInterface<SpiMock<u8>>> {
    Bmi160::new_with_spi(SpiMock::new(transactions))
}

fn destroy_spi(imu: Bmi160<SpiInterface<SpiMock<u8>>>) {
    let mut spi = imu.destroy();
    spi.done();
}

fn new_i2c(transactions: &[I2cTrans]) -> Bmi160<I2cInterface<I2cMock>> {
    Bmi160::new_with_i2c(I2cMock::new(transactions), SlaveAddr::default())
}

fn destroy_i2c(imu: Bmi160<I2cInterface<I2cMock>>) {
    imu.destroy().done();
}

#[test]
fn can_create_and_destroy_i2c() {
    let imu = new_i2c(&[]);
    destroy_i2c(imu);
}

#[test]
fn can_create_and_destroy_spi() {
    let imu = new_spi(&[]);
    destroy_spi(imu);
}

#[test]
fn can_get_chip_id() {
    let chip_id = 0b11010001;
    let mut imu = new_i2c(&[I2cTrans::write_read(
        DEV_ADDR,
        vec![CHIPID],
        vec![chip_id],
    )]);
    let id = imu.chip_id().unwrap();
    assert_eq!(chip_id, id);
    destroy_i2c(imu);
}

const EMPTY: Data = Data {
    accel: None,
    gyro: None,
    magnet: None,
    time: None,
};

const BUFFER: [u8; 23] = [
    0x01, 0x02, 0x03, 0x04, 0x05, 0x06, 0x07, 0x08, 0x09, 0x0A, 0x0B, 0x0C, 0x0D, 0x0E, 0x0F, 0x10,
    0x11, 0x12, 0x13, 0x14, 0x15, 0x16, 0x17,
];

#[test]
fn empty() {
    let mut imu = new_i2c(&[]);
    let result = imu.data(SensorSelector::new()).unwrap();
    assert_eq!(result, EMPTY);
    destroy_i2c(imu);
}

#[test]
fn empty_over_spi() {
    let mut imu = new_spi(&[]);
    let result = imu.data(SensorSelector::new()).unwrap();
    assert_eq!(result, EMPTY);
    destroy_spi(imu);
}

fn all_expected() -> Data {
    Data {
        magnet: Some(MagnetometerData {
            axes: Sensor3DData {
                x: 0x0201,
                y: 0x0403,
                z: 0x0605,
            },
            hall_resistence: 0x0807,
        }),
        gyro: Some(Sensor3DData {
            x: 0x0A09,
            y: 0x0C0B,
            z: 0x0E0D,
        }),
        accel: Some(Sensor3DData {
            x: 0x100F,
            y: 0x1211,
            z: 0x1413,
        }),
        time: Some(0x171615),
    }
}

#[test]
fn integration_all() {
    let mut imu = new_i2c(&[I2cTrans::write_read(
        DEV_ADDR,
        vec![MAG],
        BUFFER.to_vec(),
    )]);
    let result = imu.data(SensorSelector::all()).unwrap();
    let expected = Data {
        magnet: Some(MagnetometerData {
            axes: Sensor3DData {
                x: 0x0201,
                y: 0x0403,
                z: 0x0605,
            },
            hall_resistence: 0x0807,
        }),
        gyro: Some(Sensor3DData {
            x: 0x0A09,
            y: 0x0C0B,
            z: 0x0E0D,
        }),
        accel: Some(Sensor3DData {
            x: 0x100F,
            y: 0x1211,
            z: 0x1413,
        }),
        time: Some(0x171615),
    };
    assert_eq!(result, expected);
    destroy_i2c(imu);
}

#[test]
fn integration_accel_and_time() {
    let mut imu = new_i2c(&[I2cTrans::write_read(
        DEV_ADDR,
        vec![ACC],
        BUFFER[14..].to_vec(),
    )]);
    let result = imu.data(SensorSelector::new().accel().time()).unwrap();
    let expected = Data {
        magnet: None,
        gyro: None,
        accel: Some(Sensor3DData {
            x: 0x100F,
            y: 0x1211,
            z: 0x1413,
        }),
        time: Some(0x171615),
    };
    assert_eq!(result, expected);
    destroy_i2c(imu);
}

#[test]
fn integration_only_gyro() {
    let mut imu = new_i2c(&[I2cTrans::write_read(
        DEV_ADDR,
        vec![GYR],
        BUFFER[8..14].to_vec(),
    )]);
    let result = imu.data(SensorSelector::new().gyro()).unwrap();
    let expected = Data {
        magnet: None,
        gyro: Some(Sensor3DData {
            x: 0x0A09,
            y: 0x0C0B,
            z: 0x0E0D,
        }),
        accel: None,
        time: None,
    };
    assert_eq!(result, expected);
    destroy_i2c(imu);
}

#[test]
fn magnet_and_time_read_the_blocks_between_them() {
    let mut imu = new_i2c(&[I2cTrans::write_read(
        DEV_ADDR,
        vec![MAG],
        BUFFER.to_vec(),
    )]);
    let result = imu.data(SensorSelector::new().magnet().time()).unwrap();
    let expected = Data {
        gyro: None,
        accel: None,
        ..all_expected()
    };
    assert_eq!(result, expected);
    destroy_i2c(imu);
}

#[test]
fn failed_burst_read_gives_no_sample() {
    let mut imu = new_i2c(&[I2cTrans::write_read(
        DEV_ADDR,
        vec![MAG],
        BUFFER.to_vec(),
    )
    .with_error(embedded_hal::i2c::ErrorKind::Other)]);
    let result = imu.data(SensorSelector::all());
    assert!(matches!(
        result,
        Err(bmi160::Error::Comm(embedded_hal::i2c::ErrorKind::Other))
    ));
    destroy_i2c(imu);
}

#[test]
fn all_over_spi() {
    let mut sent = vec![0u8; 24];
    sent[0] = 0x80 | MAG;
    let mut received = vec![0xEEu8];
    received.extend_from_slice(&BUFFER);
    let mut imu = new_spi(&[
        SpiTrans::transaction_start(),
        SpiTrans::transfer_in_place(sent, received),
        SpiTrans::transaction_end(),
    ]);
    let result = imu.data(SensorSelector::all()).unwrap();
    assert_eq!(result, all_expected());
    destroy_spi(imu);
}

#[test]
fn accel_and_time_over_spi() {
    let mut sent = vec![0u8; 10];
    sent[0] = 0x80 | ACC;
    let mut received = vec![0xEEu8];
    received.extend_from_slice(&BUFFER[14..]);
    let mut imu = new_spi(&[
        SpiTrans::transaction_start(),
        SpiTrans::transfer_in_place(sent, received),
        SpiTrans::transaction_end(),
    ]);
    let result = imu.data(SensorSelector::new().accel().time()).unwrap();
    let expected = Data {
        magnet: None,
        gyro: None,
        ..all_expected()
    };
    assert_eq!(result, expected);
    destroy_spi(imu);
}

#[test]
fn all_scaled() {
    let mut imu = new_i2c(&[I2cTrans::write_read(
        DEV_ADDR,
        vec![MAG],
        BUFFER.to_vec(),
    )]);
    let raw = imu.data(SensorSelector::all()).unwrap();
    assert_eq!(imu.accel_range(), AccelerometerRange::G2);
    assert_eq!(imu.gyro_range(), GyroRange::Scale2000);
    let accel_multiplier = 1. / f32::from(imu.accel_range().lsb_per_g());
    let gyro_multiplier = 1. / (f32::from(imu.gyro_range().lsb_per_ten_dps()) / 10.);
    let gyro = raw.gyro.unwrap();
    let accel = raw.accel.unwrap();
    assert_eq!(
        raw.magnet,
        Some(MagnetometerData {
            axes: Sensor3DData {
                x: 0x0201,
                y: 0x0403,
                z: 0x0605,
            },
            hall_resistence: 0x0807,
        })
    );
    assert_eq!(gyro.x as f32 * gyro_multiplier, 0x0A09 as f32 * (1. / 16.4));
    assert_eq!(gyro.y as f32 * gyro_multiplier, 0x0C0B as f32 * (1. / 16.4));
    assert_eq!(gyro.z as f32 * gyro_multiplier, 0x0E0D as f32 * (1. / 16.4));
    assert_eq!(accel.x as f32 * accel_multiplier, 0x100F as f32 * (1. / 16384.));
    assert_eq!(accel.y as f32 * accel_multiplier, 0x1211 as f32 * (1. / 16384.));
    assert_eq!(accel.z as f32 * accel_multiplier, 0x1413 as f32 * (1. / 16384.));
    assert_eq!(raw.time, Some(0x171615));
    destroy_i2c(imu);
}
