use bmi160::interface::{read_marker, I2cInterface, SpiInterface, I2C_DEV_BASE_ADDR};
use bmi160::{Bmi160, Error, SlaveAddr};
use embedded_hal::i2c::ErrorKind as I2cErrorKind;
use embedded_hal_mock::eh1::i2c::{Mock as I2cMock, Transaction as I2cTrans};
use embedded_hal_mock::eh1::spi::{Mock as SpiMock, Transaction as SpiTrans};

const ADDR: u8 = I2C_DEV_BASE_ADDR;

fn i2c_iface(transactions: &[I2cTrans]) -> Bmi160<I2cInterface<I2cMock>> {
    Bmi160::new_with_i2c(I2cMock::new(transactions), SlaveAddr::default())
}

fn spi_iface(transactions: &[SpiTrans<u8>]) -> Bmi160<SpiInterface<SpiMock<u8>>> {
    Bmi160::new_with_spi(SpiMock::new(transactions))
}

#[test]
fn can_get_default_address() {
    let addr = SlaveAddr::default();
    assert_eq!(ADDR, addr.addr());
}

#[test]
fn can_generate_alternative_addresses() {
    assert_eq!(ADDR, SlaveAddr::Alternative(false).addr());
    assert_eq!(ADDR | 1, SlaveAddr::Alternative(true).addr());
}

#[test]
fn base_address_is_0x68() {
    assert_eq!(0x68, SlaveAddr::Default.addr());
    assert_eq!(0x69, SlaveAddr::Alternative(true).addr());
}

#[test]
fn alternative_address_is_used_on_the_bus() {
    let mock = I2cMock::new(&[I2cTrans::write_read(0x69, vec![0x00], vec![0xD1])]);
    let mut imu = Bmi160::new_with_i2c(mock, SlaveAddr::Alternative(true));
    assert_eq!(0xD1, imu.chip_id().unwrap());
    imu.destroy().done();
}

#[test]
fn read_marker_sets_the_highest_bit() {
    assert_eq!(0x80, read_marker(0x00));
    assert_eq!(0x9B, read_marker(0x1B));
    assert_eq!(0xFE, read_marker(0x7E));
    assert_eq!(0xFF, read_marker(0x7F));
}

#[test]
fn i2c_register_write_is_one_write_of_register_and_value() {
    let mut imu = i2c_iface(&[I2cTrans::write(ADDR, vec![0x7E, 0x11])]);
    imu.set_accel_power_mode(bmi160::AccelerometerPowerMode::Normal)
        .unwrap();
    imu.destroy().done();
}

#[test]
fn i2c_failure_is_a_communication_error_of_the_same_kind() {
    let mut imu = i2c_iface(&[
        I2cTrans::write_read(ADDR, vec![0x00], vec![0]).with_error(I2cErrorKind::Bus),
        I2cTrans::write(ADDR, vec![0x7E, 0x11]).with_error(I2cErrorKind::ArbitrationLoss),
    ]);
    match imu.chip_id() {
        Err(Error::Comm(kind)) => assert_eq!(kind, I2cErrorKind::Bus),
        other => panic!("unexpected result: {:?}", other),
    }
    match imu.set_accel_power_mode(bmi160::AccelerometerPowerMode::Normal) {
        Err(Error::Comm(kind)) => assert_eq!(kind, I2cErrorKind::ArbitrationLoss),
        other => panic!("unexpected result: {:?}", other),
    }
    imu.destroy().done();
}

#[test]
fn spi_register_read_sets_the_read_marker_and_skips_the_first_byte() {
    let mut imu = spi_iface(&[
        SpiTrans::transaction_start(),
        SpiTrans::transfer_in_place(vec![0x80, 0], vec![0xEE, 0xD1]),
        SpiTrans::transaction_end(),
    ]);
    assert_eq!(0xD1, imu.chip_id().unwrap());
    imu.destroy().done();
}

#[test]
fn spi_register_write_is_one_write_of_register_and_value() {
    let mut imu = spi_iface(&[
        SpiTrans::transaction_start(),
        SpiTrans::write_vec(vec![0x7E, 0x15]),
        SpiTrans::transaction_end(),
    ]);
    imu.set_gyro_power_mode(bmi160::GyroscopePowerMode::Normal)
        .unwrap();
    imu.destroy().done();
}
