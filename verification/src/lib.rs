//! Platform-agnostic driver for the BMI160 inertial measurement unit.
//!
//! The driver talks to the device through the `embedded-hal` bus traits,
//! either over I2C or over SPI, and keeps a local copy of the full-scale
//! ranges it has configured.
//!
//! Every operation is one register access: it completes or fails before it
//! returns, and nothing is retried. A bus failure is reported by its
//! `embedded-hal` error kind, as [`Error::Comm`]; on SPI, a failure of the
//! chip-select line is reported as [`Error::Pin`].
//!
//! The contracts speak of what went over the bus: each interface records,
//! in ghost state, the transactions it has issued and how each ended.

use vstd::prelude::*;

pub mod device_impl;
pub mod interface;
pub mod read_sensor_data;
pub mod register_address;
pub mod types;

pub use crate::interface::SlaveAddr;
pub use crate::register_address::{BitFlags, Register};
pub use crate::types::{
    AccelerometerPowerMode, AccelerometerRange, Data, Error, GyroRange, GyroscopePowerMode,
    MagnetometerData, MagnetometerPowerMode, Sensor3DData, SensorPowerMode, SensorSelector, Status,
};

verus! {

/// BMI160 device driver
pub struct Bmi160<DI> {
    /// Digital interface: I2C or SPI
    pub(crate) iface: DI,
    pub(crate) accel_range: AccelerometerRange,
    pub(crate) gyro_range: GyroRange,
}

impl<DI> Bmi160<DI> {
    /// The interface that the driver owns.
    pub closed spec fn interface(&self) -> DI {
        self.iface
    }

    /// The accelerometer range that the driver holds as configured.
    pub closed spec fn spec_accel_range(&self) -> AccelerometerRange {
        self.accel_range
    }

    /// The gyroscope range that the driver holds as configured.
    pub closed spec fn spec_gyro_range(&self) -> GyroRange {
        self.gyro_range
    }

    /// The accelerometer range that scaling goes by: the one last set
    /// through this driver, `G2` before any was set.
    #[verifier::when_used_as_spec(spec_accel_range)]
    pub fn accel_range(&self) -> (range: AccelerometerRange)
        ensures
            range == self.spec_accel_range(),
    {
        self.accel_range
    }

    /// The gyroscope range that scaling goes by: the one last set through
    /// this driver, `Scale2000` before any was set.
    #[verifier::when_used_as_spec(spec_gyro_range)]
    pub fn gyro_range(&self) -> (range: GyroRange)
        ensures
            range == self.spec_gyro_range(),
    {
        self.gyro_range
    }
}

} // verus!
