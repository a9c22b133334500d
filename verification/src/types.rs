//! Values that the driver takes and returns.

use vstd::prelude::*;
use crate::register_address::BitFlags;

verus! {

/// All possible errors in this crate
#[derive(Debug)]
pub enum Error<CommE> {
    /// I²C / SPI communication error
    Comm(CommE),
    /// The chip-select line of the SPI device could not be driven
    Pin,
    /// Invalid input data provided
    InvalidInputData,
}

/// Sensor power mode
#[derive(Debug, Clone, Copy, PartialEq, Eq, Structural)]
pub struct SensorPowerMode {
    /// Accelerometer power mode
    pub accel: AccelerometerPowerMode,
    /// Gyroscope power mode
    pub gyro: GyroscopePowerMode,
    /// Magnetometer power mode
    pub magnet: MagnetometerPowerMode,
}

/// Accelerometer power mode
#[derive(Debug, Clone, Copy, PartialEq, Eq, Structural)]
pub enum AccelerometerPowerMode {
    /// Normal mode
    Normal,
    /// Suspend mode
    Suspend,
    /// Low power mode
    LowPower,
}

/// Accelerometer full-scale range (register `ACC_RANGE`).
#[derive(Debug, Clone, Copy, PartialEq, Eq, Structural)]
pub enum AccelerometerRange {
    /// +- 2G
    G2,
    /// +- 4G
    G4,
    /// +- 8G
    G8,
}

/// Gyroscope power mode
#[derive(Debug, Clone, Copy, PartialEq, Eq, Structural)]
pub enum GyroscopePowerMode {
    /// Normal mode
    Normal,
    /// Suspend mode
    Suspend,
    /// Fast start-up mode
    FastStartUp,
}

/// Gyroscope full-scale range (register `GYR_RANGE`).
#[derive(Debug, Clone, Copy, PartialEq, Eq, Structural)]
pub enum GyroRange {
    /// +- 2000 °/s: 16.4 LSB/°/s
    Scale2000,
    /// +- 1000 °/s: 32.8 LSB/°/s
    Scale1000,
    /// +- 500 °/s: 65.6 LSB/°/s
    Scale500,
    /// +- 250 °/s: 131.2 LSB/°/s
    Scale250,
    /// +- 125 °/s: 262.4 LSB/°/s
    Scale125,
}

/// Magnetometer power mode
#[derive(Debug, Clone, Copy, PartialEq, Eq, Structural)]
pub enum MagnetometerPowerMode {
    /// Normal mode
    Normal,
    /// Suspend mode
    Suspend,
    /// Low power mode
    LowPower,
}

/// Sensor status flags
#[derive(Debug, Clone, Copy, PartialEq, Eq, Structural)]
pub struct Status {
    /// Accelerometer has data ready
    pub accel_data_ready: bool,
    /// Gyroscope has data ready
    pub gyro_data_ready: bool,
    /// Magnetometer has data ready
    pub magnet_data_ready: bool,
    /// NVM controller ready
    pub nvm_ready: bool,
    /// Fast offset compensation (FOC) completed
    pub foc_ready: bool,
    /// Manual magnetometer operation
    pub magnet_manual_op: bool,
    /// Gyroscope self-test completed successfully
    pub gyro_self_test_ok: bool,
}

/// Sensor data read selector
#[derive(Debug, Clone, Copy, PartialEq, Eq, Structural)]
pub struct SensorSelector {
    pub accel: bool,
    pub gyro: bool,
    pub magnet: bool,
    pub time: bool,
}

/// Raw reading of a three-axis sensor
#[derive(Debug, Clone, Copy, PartialEq, Eq, Structural)]
pub struct Sensor3DData {
    /// X axis data
    pub x: i16,
    /// Y axis data
    pub y: i16,
    /// Z axis data
    pub z: i16,
}

/// Magnetometer data
#[derive(Debug, Clone, Copy, PartialEq, Eq, Structural)]
pub struct MagnetometerData {
    /// Axes data
    pub axes: Sensor3DData,
    /// Hall resistence data
    pub hall_resistence: u16,
}

/// Sensor data read
#[derive(Debug, Clone, Copy, PartialEq, Eq)]
pub struct Data {
    /// Accelerometer data (if selected)
    pub accel: Option<Sensor3DData>,
    /// Gyroscope data (if selected)
    pub gyro: Option<Sensor3DData>,
    /// Magnetometer data (if selected)
    pub magnet: Option<MagnetometerData>,
    /// Time data (if selected)
    pub time: Option<u32>,
}

impl AccelerometerPowerMode {
    /// The byte that, written to register `CMD`, switches the accelerometer to this mode.
    pub open spec fn spec_command(self) -> u8 {
        match self {
            AccelerometerPowerMode::Suspend => 0b0001_0000,
            AccelerometerPowerMode::Normal => 0b0001_0001,
            AccelerometerPowerMode::LowPower => 0b0001_0010,
        }
    }

    #[verifier::when_used_as_spec(spec_command)]
    pub fn command(self) -> (cmd: u8)
        ensures
            cmd == self.spec_command(),
    {
        match self {
            AccelerometerPowerMode::Suspend => 0b0001_0000,
            AccelerometerPowerMode::Normal => 0b0001_0001,
            AccelerometerPowerMode::LowPower => 0b0001_0010,
        }
    }

    /// The mode that the two-bit field `acc_pmu_status` stands for.
    pub open spec fn spec_from_field(field: u8) -> AccelerometerPowerMode {
        if field == 0 {
            AccelerometerPowerMode::Suspend
        } else if field == 2 {
            AccelerometerPowerMode::LowPower
        } else {
            AccelerometerPowerMode::Normal
        }
    }
}

impl GyroscopePowerMode {
    /// The byte that, written to register `CMD`, switches the gyroscope to this mode.
    pub open spec fn spec_command(self) -> u8 {
        match self {
            GyroscopePowerMode::Suspend => 0b0001_0100,
            GyroscopePowerMode::Normal => 0b0001_0101,
            GyroscopePowerMode::FastStartUp => 0b0001_0111,
        }
    }

    #[verifier::when_used_as_spec(spec_command)]
    pub fn command(self) -> (cmd: u8)
        ensures
            cmd == self.spec_command(),
    {
        match self {
            GyroscopePowerMode::Suspend => 0b0001_0100,
            GyroscopePowerMode::Normal => 0b0001_0101,
            GyroscopePowerMode::FastStartUp => 0b0001_0111,
        }
    }

    /// The mode that the two-bit field `gyr_pmu_status` stands for.
    pub open spec fn spec_from_field(field: u8) -> GyroscopePowerMode {
        if field == 0 {
            GyroscopePowerMode::Suspend
        } else if field == 3 {
            GyroscopePowerMode::FastStartUp
        } else {
            GyroscopePowerMode::Normal
        }
    }
}

impl MagnetometerPowerMode {
    /// The byte that, written to register `CMD`, switches the magnetometer interface to this mode.
    pub open spec fn spec_command(self) -> u8 {
        match self {
            MagnetometerPowerMode::Suspend => 0b0001_1000,
            MagnetometerPowerMode::Normal => 0b0001_1001,
            MagnetometerPowerMode::LowPower => 0b0001_1010,
        }
    }

    #[verifier::when_used_as_spec(spec_command)]
    pub fn command(self) -> (cmd: u8)
        ensures
            cmd == self.spec_command(),
    {
        match self {
            MagnetometerPowerMode::Suspend => 0b0001_1000,
            MagnetometerPowerMode::Normal => 0b0001_1001,
            MagnetometerPowerMode::LowPower => 0b0001_1010,
        }
    }

    /// The mode that the two-bit field `mag_pmu_status` stands for.
    pub open spec fn spec_from_field(field: u8) -> MagnetometerPowerMode {
        if field == 0 {
            MagnetometerPowerMode::Suspend
        } else if field == 2 {
            MagnetometerPowerMode::LowPower
        } else {
            MagnetometerPowerMode::Normal
        }
    }
}

impl SensorPowerMode {
    /// The power modes that a value of register `PMU_STATUS` reports: the
    /// accelerometer's in bits 5 and 4, the gyroscope's in bits 3 and 2, the
    /// magnetometer interface's in bits 1 and 0.
    pub open spec fn spec_from_register(status: u8) -> SensorPowerMode {
        SensorPowerMode {
            accel: AccelerometerPowerMode::spec_from_field((status / 16 % 4) as u8),
            gyro: GyroscopePowerMode::spec_from_field((status / 4 % 4) as u8),
            magnet: MagnetometerPowerMode::spec_from_field((status % 4) as u8),
        }
    }

    /// Decodes a value of register `PMU_STATUS`.
    #[verifier::when_used_as_spec(spec_from_register)]
    pub fn from_register(status: u8) -> (mode: SensorPowerMode)
        ensures
            mode == SensorPowerMode::spec_from_register(status),
    {
        let accel_field: u8 = status & (0b11 << 4);
        let gyro_field: u8 = status & (0b11 << 2);
        let magnet_field: u8 = status & 0b11;
        assert(accel_field == (status / 16 % 4) * 16) by (bit_vector)
            requires
                accel_field == status & (0b11u8 << 4),
        ;
        assert(gyro_field == (status / 4 % 4) * 4) by (bit_vector)
            requires
                gyro_field == status & (0b11u8 << 2),
        ;
        assert(magnet_field == status % 4) by (bit_vector)
            requires
                magnet_field == status & 0b11u8,
        ;
        let accel = if accel_field == 0 {
            AccelerometerPowerMode::Suspend
        } else if accel_field == 0b10_0000 {
            AccelerometerPowerMode::LowPower
        } else {
            AccelerometerPowerMode::Normal
        };
        let magnet = if magnet_field == 0 {
            MagnetometerPowerMode::Suspend
        } else if magnet_field == 2 {
            MagnetometerPowerMode::LowPower
        } else {
            MagnetometerPowerMode::Normal
        };
        let gyro = if gyro_field == 0 {
            GyroscopePowerMode::Suspend
        } else if gyro_field == 0b1100 {
            GyroscopePowerMode::FastStartUp
        } else {
            GyroscopePowerMode::Normal
        };
        SensorPowerMode { accel, gyro, magnet }
    }
}

impl Status {
    /// The flags that a value of register `STATUS` reports: one flag per bit,
    /// from the accelerometer's data-ready flag in bit 7 down to the
    /// gyroscope's self-test flag in bit 1. Bit 0 carries no flag.
    pub open spec fn spec_from_register(status: u8) -> Status {
        Status {
            accel_data_ready: status / 128 % 2 == 1,
            gyro_data_ready: status / 64 % 2 == 1,
            magnet_data_ready: status / 32 % 2 == 1,
            nvm_ready: status / 16 % 2 == 1,
            foc_ready: status / 8 % 2 == 1,
            magnet_manual_op: status / 4 % 2 == 1,
            gyro_self_test_ok: status / 2 % 2 == 1,
        }
    }

    /// Decodes a value of register `STATUS`.
    #[verifier::when_used_as_spec(spec_from_register)]
    pub fn from_register(status: u8) -> (flags: Status)
        ensures
            flags == Status::spec_from_register(status),
    {
        assert(((status & (1u8 << 7)) != 0) == (status / 128 % 2 == 1)) by (bit_vector);
        assert(((status & (1u8 << 6)) != 0) == (status / 64 % 2 == 1)) by (bit_vector);
        assert(((status & (1u8 << 5)) != 0) == (status / 32 % 2 == 1)) by (bit_vector);
        assert(((status & (1u8 << 4)) != 0) == (status / 16 % 2 == 1)) by (bit_vector);
        assert(((status & (1u8 << 3)) != 0) == (status / 8 % 2 == 1)) by (bit_vector);
        assert(((status & (1u8 << 2)) != 0) == (status / 4 % 2 == 1)) by (bit_vector);
        assert(((status & (1u8 << 1)) != 0) == (status / 2 % 2 == 1)) by (bit_vector);
        Status {
            accel_data_ready: (status & BitFlags::DRDY_ACC) != 0,
            gyro_data_ready: (status & BitFlags::DRDY_GYR) != 0,
            magnet_data_ready: (status & BitFlags::DRDY_MAG) != 0,
            nvm_ready: (status & BitFlags::NVM_RDY) != 0,
            foc_ready: (status & BitFlags::FOC_RDY) != 0,
            magnet_manual_op: (status & BitFlags::MAG_MAN_OP) != 0,
            gyro_self_test_ok: (status & BitFlags::GYR_SELF_TEST_OK) != 0,
        }
    }
}

impl AccelerometerRange {
    /// The value of register `ACC_RANGE` that selects this range.
    pub open spec fn spec_code(self) -> u8 {
        match self {
            AccelerometerRange::G2 => 0b0000_0011,
            AccelerometerRange::G4 => 0b0000_0101,
            AccelerometerRange::G8 => 0b0000_1000,
        }
    }

    #[verifier::when_used_as_spec(spec_code)]
    pub fn code(self) -> (code: u8)
        ensures
            code == self.spec_code(),
    {
        match self {
            AccelerometerRange::G2 => 0b0000_0011,
            AccelerometerRange::G4 => 0b0000_0101,
            AccelerometerRange::G8 => 0b0000_1000,
        }
    }

    /// Sensitivity at this range, in counts per g. A raw axis value divided
    /// by it is the acceleration in g.
    pub open spec fn spec_lsb_per_g(self) -> u16 {
        match self {
            AccelerometerRange::G2 => 16384,
            AccelerometerRange::G4 => 8192,
            AccelerometerRange::G8 => 4096,
        }
    }

    #[verifier::when_used_as_spec(spec_lsb_per_g)]
    pub fn lsb_per_g(self) -> (lsb: u16)
        ensures
            lsb == self.spec_lsb_per_g(),
    {
        match self {
            AccelerometerRange::G2 => 16384,
            AccelerometerRange::G4 => 8192,
            AccelerometerRange::G8 => 4096,
        }
    }
}

impl Default for AccelerometerRange {
    fn default() -> (range: Self)
        ensures
            range == AccelerometerRange::G2,
    {
        AccelerometerRange::G2
    }
}

impl GyroRange {
    /// The value of register `GYR_RANGE` that selects this range.
    pub open spec fn spec_code(self) -> u8 {
        match self {
            GyroRange::Scale2000 => 0b0000_0000,
            GyroRange::Scale1000 => 0b0000_0001,
            GyroRange::Scale500 => 0b0000_0010,
            GyroRange::Scale250 => 0b0000_0011,
            GyroRange::Scale125 => 0b0000_0100,
        }
    }

    #[verifier::when_used_as_spec(spec_code)]
    pub fn code(self) -> (code: u8)
        ensures
            code == self.spec_code(),
    {
        match self {
            GyroRange::Scale2000 => 0b0000_0000,
            GyroRange::Scale1000 => 0b0000_0001,
            GyroRange::Scale500 => 0b0000_0010,
            GyroRange::Scale250 => 0b0000_0011,
            GyroRange::Scale125 => 0b0000_0100,
        }
    }

    /// Sensitivity at this range, in counts per ten degrees per second
    /// (16.4 counts per °/s is 164). A raw axis value times ten, divided by
    /// it, is the angular rate in °/s.
    pub open spec fn spec_lsb_per_ten_dps(self) -> u16 {
        match self {
            GyroRange::Scale2000 => 164,
            GyroRange::Scale1000 => 328,
            GyroRange::Scale500 => 656,
            GyroRange::Scale250 => 1312,
            GyroRange::Scale125 => 2624,
        }
    }

    #[verifier::when_used_as_spec(spec_lsb_per_ten_dps)]
    pub fn lsb_per_ten_dps(self) -> (lsb: u16)
        ensures
            lsb == self.spec_lsb_per_ten_dps(),
    {
        match self {
            GyroRange::Scale2000 => 164,
            GyroRange::Scale1000 => 328,
            GyroRange::Scale500 => 656,
            GyroRange::Scale250 => 1312,
            GyroRange::Scale125 => 2624,
        }
    }
}

impl Default for GyroRange {
    fn default() -> (range: Self)
        ensures
            range == GyroRange::Scale2000,
    {
        GyroRange::Scale2000
    }
}

impl SensorSelector {
    /// Create new instance of the selector.
    ///
    /// This does not include any data.
    pub fn new() -> (selector: Self)
        ensures
            selector == (SensorSelector { accel: false, gyro: false, magnet: false, time: false }),
    {
        SensorSelector { accel: false, gyro: false, magnet: false, time: false }
    }

    /// Include acceleration sensor data
    pub fn accel(self) -> (selector: Self)
        ensures
            selector == (SensorSelector { accel: true, ..self }),
    {
        SensorSelector { accel: true, ..self }
    }

    /// Include gyroscope sensor data
    pub fn gyro(self) -> (selector: Self)
        ensures
            selector == (SensorSelector { gyro: true, ..self }),
    {
        SensorSelector { gyro: true, ..self }
    }

    /// Include magnetometer sensor data
    pub fn magnet(self) -> (selector: Self)
        ensures
            selector == (SensorSelector { magnet: true, ..self }),
    {
        SensorSelector { magnet: true, ..self }
    }

    /// Include sensor time
    pub fn time(self) -> (selector: Self)
        ensures
            selector == (SensorSelector { time: true, ..self }),
    {
        SensorSelector { time: true, ..self }
    }

    /// Include accelerometer, gyroscope, magnetometer and time data
    pub fn all() -> (selector: Self)
        ensures
            selector == (SensorSelector { accel: true, gyro: true, magnet: true, time: true }),
    {
        SensorSelector { accel: true, gyro: true, magnet: true, time: true }
    }

    /// No channel is selected.
    pub open spec fn is_empty(self) -> bool {
        !self.accel && !self.gyro && !self.magnet && !self.time
    }
}

impl Default for SensorSelector {
    fn default() -> (selector: Self)
        ensures
            selector == (SensorSelector { accel: true, gyro: true, magnet: true, time: true }),
    {
        SensorSelector::all()
    }
}

impl Data {
    /// The sample in which no channel is present.
    pub open spec fn empty() -> Data {
        Data { accel: None, gyro: None, magnet: None, time: None }
    }
}

} // verus!
