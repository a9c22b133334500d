//! Register map and status bit masks of the device.

use vstd::prelude::*;

verus! {

/// Addresses of the registers that the driver uses.
pub struct Register;

impl Register {
    pub const CHIPID: u8 = 0x00;

    pub const PMU_STATUS: u8 = 0x03;

    pub const STATUS: u8 = 0x1B;

    /// First byte of the magnetometer block (x, y, z, hall resistance).
    pub const MAG: u8 = 0x04;

    /// First byte of the gyroscope block (x, y, z).
    pub const GYR: u8 = 0x0C;

    /// First byte of the accelerometer block (x, y, z).
    pub const ACC: u8 = 0x12;

    /// First byte of the 24-bit sensor time counter.
    pub const SENSORTIME: u8 = 0x18;

    pub const CMD: u8 = 0x7E;

    pub const ACC_RANGE: u8 = 0x41;

    pub const GYR_RANGE: u8 = 0x43;
}

/// Masks of the flags in the `STATUS` register.
pub struct BitFlags;

impl BitFlags {
    pub const DRDY_ACC: u8 = 1 << 7;

    pub const DRDY_GYR: u8 = 1 << 6;

    pub const DRDY_MAG: u8 = 1 << 5;

    pub const NVM_RDY: u8 = 1 << 4;

    pub const FOC_RDY: u8 = 1 << 3;

    pub const MAG_MAN_OP: u8 = 1 << 2;

    pub const GYR_SELF_TEST_OK: u8 = 1 << 1;
}

} // verus!
