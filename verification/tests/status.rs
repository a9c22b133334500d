use bmi160::interface::I2cInterface;
use bmi160::{Bmi160, SlaveAddr, Status};
use embedded_hal_mock::eh1::i2c::{Mock as I2cMock, Transaction as I2cTrans};

const DEV_ADDR: u8 = 0x68;
const STATUS: u8 = 0x1B;

fn new_i2c(transactions: &[I2cTrans]) -> Bmi160<I2cInterface<I2cMock>> {
    Bmi160::new_with_i2c(I2cMock::new(transactions), SlaveAddr::default())
}

const NO_FLAG: Status = Status {
    accel_data_ready: false,
    gyro_data_ready: false,
    magnet_data_ready: false,
    nvm_ready: false,
    foc_ready: false,
    magnet_manual_op: false,
    gyro_self_test_ok: false,
};

fn get_st(st: u8, expected: Status) {
    let mut imu = new_i2c(&[I2cTrans::write_read(DEV_ADDR, vec![STATUS], vec![st])]);
    let status = imu.status().unwrap();
    assert_eq!(expected, status);
    assert_eq!(expected, Status::from_register(st));
    imu.destroy().done();
}

#[test]
fn accel_drdy() {
    get_st(
        1 << 7,
        Status {
            accel_data_ready: true,
            ..NO_FLAG
        },
    );
}

#[test]
fn gyro_drdy() {
    get_st(
        1 << 6,
        Status {
            gyro_data_ready: true,
            ..NO_FLAG
        },
    );
}

#[test]
fn magnet_drdy() {
    get_st(
        1 << 5,
        Status {
            magnet_data_ready: true,
            ..NO_FLAG
        },
    );
}

#[test]
fn nvm_rdy() {
    get_st(
        1 << 4,
        Status {
            nvm_ready: true,
            ..NO_FLAG
        },
    );
}

#[test]
fn foc_rdy() {
    get_st(
        1 << 3,
        Status {
            foc_ready: true,
            ..NO_FLAG
        },
    );
}

#[test]
fn magnet_manual_op() {
    get_st(
        1 << 2,
        Status {
            magnet_manual_op: true,
            ..NO_FLAG
        },
    );
}

#[test]
fn gyro_self_test_ok() {
    get_st(
        1 << 1,
        Status {
            gyro_self_test_ok: true,
            ..NO_FLAG
        },
    );
}

#[test]
fn all() {
    get_st(
        0b1111_1110,
        Status {
            accel_data_ready: true,
            gyro_data_ready: true,
            magnet_data_ready: true,
            nvm_ready: true,
            foc_ready: true,
            magnet_manual_op: true,
            gyro_self_test_ok: true,
        },
    );
}

#[test]
fn no_flag() {
    get_st(0, NO_FLAG);
}

#[test]
fn lowest_bit_carries_no_flag() {
    get_st(1, NO_FLAG);
}
