//! The driver's operations, over either interface.

use vstd::prelude::*;
use crate::interface::{
    byte_read, Access, I2cInterface, I2cTransaction, SlaveAddr, SpiInterface, SpiTransaction,
};
use crate::register_address::Register;
use crate::types::{
    AccelerometerPowerMode, AccelerometerRange, Error, GyroRange, GyroscopePowerMode,
    MagnetometerPowerMode, SensorPowerMode, Status,
};
use crate::Bmi160;

verus! {

/// The byte that the accesses in `log` have last stored in `register` with
/// success, each by a write to that register alone; `None` where there is
/// no such write.
pub open spec fn last_written<E>(log: Seq<Access<E>>, register: u8) -> Option<u8>
    decreases log.len(),
{
    if log.len() == 0 {
        None
    } else {
        match log.last() {
            Access::Write { register: r, data, result: Ok(()) } if r == register && data.len()
                == 1 => Some(data[0]),
            _ => last_written(log.drop_last(), register),
        }
    }
}

/// Whether the ranges `accel` and `gyro` are those that the accesses in
/// `log` have left in the range registers: the range of the last successful
/// write to each register, the range after reset where there is none.
pub open spec fn ranges_follow<E>(log: Seq<Access<E>>, accel: AccelerometerRange, gyro: GyroRange) -> bool {
    &&& match last_written(log, Register::ACC_RANGE) {
        Some(code) => accel.code() == code,
        None => accel == AccelerometerRange::G2,
    }
    &&& match last_written(log, Register::GYR_RANGE) {
        Some(code) => gyro.code() == code,
        None => gyro == GyroRange::Scale2000,
    }
}

/// What one more access does to `last_written`.
pub proof fn lemma_last_written_push<E>(log: Seq<Access<E>>, access: Access<E>, register: u8)
    ensures
        last_written(log.push(access), register) == match access {
            Access::Write { register: r, data, result: Ok(()) } if r == register && data.len()
                == 1 => Some(data[0]),
            _ => last_written(log, register),
        },
{
    assert(log.push(access).drop_last() =~= log);
    assert(log.push(access).last() == access);
}

/// `after` is `before` and one more access, a read of `len` bytes from
/// `register` on.
pub open spec fn one_read<E>(before: Seq<Access<E>>, after: Seq<Access<E>>, register: u8, len: nat) -> bool {
    &&& after.len() == before.len() + 1
    &&& after.drop_last() == before
    &&& after.last() matches Access::Read { register: r, len: l, result }
    &&& r == register
    &&& l == len
    &&& (result matches Ok(bytes) ==> bytes.len() == len)
}

/// `after` is `before` and one more access, a write of the one byte `data`
/// to `register`, which ended as `res` says.
pub open spec fn one_write<E>(
    before: Seq<Access<E>>,
    after: Seq<Access<E>>,
    register: u8,
    data: u8,
    res: Result<(), Error<E>>,
) -> bool {
    after == before.push(Access::Write { register, data: seq![data], result: res })
}

/// The result of a read that decodes the one byte read with `decode`.
pub open spec fn decoded<T, E>(read: Result<Seq<u8>, Error<E>>, decode: spec_fn(u8) -> T) -> Result<T, Error<E>> {
    match read {
        Ok(bytes) => Ok(decode(bytes[0])),
        Err(e) => Err(e),
    }
}

impl<I2C> Bmi160<I2cInterface<I2C>> {
    /// Create new instance of the BMI160 device communicating through I2C.
    pub fn new_with_i2c(i2c: I2C, address: SlaveAddr) -> (imu: Self)
        ensures
            imu.interface().bus() == i2c,
            imu.interface().address() == address.addr(),
            imu.interface().transactions() == Seq::<I2cTransaction>::empty(),
            imu.accel_range() == AccelerometerRange::G2,
            imu.gyro_range() == GyroRange::Scale2000,
            imu.wf(),
    {
        let imu = Bmi160 {
            iface: I2cInterface::new(i2c, address.addr()),
            accel_range: AccelerometerRange::default(),
            gyro_range: GyroRange::default(),
        };
        assert(imu.iface.accesses() =~= Seq::empty());
        imu
    }

    /// Destroy driver instance, return I2C bus.
    pub fn destroy(self) -> (i2c: I2C)
        ensures
            i2c == self.interface().bus(),
    {
        self.iface.release()
    }

    /// The register accesses that the driver has issued, oldest first.
    pub open spec fn accesses(&self) -> Seq<Access<embedded_hal::i2c::ErrorKind>> {
        self.interface().accesses()
    }

    /// All bus traffic went to the device's address, and the ranges that
    /// the driver holds are those that its own accesses have left in the
    /// device's range registers.
    pub open spec fn wf(&self) -> bool {
        &&& self.interface().wf()
        &&& ranges_follow(self.accesses(), self.accel_range(), self.gyro_range())
    }
}

impl<I2C: embedded_hal::i2c::I2c> Bmi160<I2cInterface<I2C>> {
    /// Reads one register.
    fn read_byte(&mut self, register: u8) -> (res: Result<u8, Error<embedded_hal::i2c::ErrorKind>>)
        ensures
            final(self).accesses() == old(self).accesses().push(
                Access::Read { register, len: 1, result: byte_read(res) },
            ),
            final(self).interface().address() == old(self).interface().address(),
            final(self).accel_range() == old(self).accel_range(),
            final(self).gyro_range() == old(self).gyro_range(),
            old(self).wf() ==> final(self).wf(),
            res matches Err(e) ==> e is Comm,
    {
        let ghost before = self.iface.accesses();
        let res = self.iface.read_register(register);
        proof {
            let access = Access::Read { register, len: 1, result: byte_read(res) };
            lemma_last_written_push(before, access, Register::ACC_RANGE);
            lemma_last_written_push(before, access, Register::GYR_RANGE);
        }
        res
    }

    /// Writes one byte to a register other than the range registers.
    fn write_byte(&mut self, register: u8, data: u8) -> (res: Result<(), Error<embedded_hal::i2c::ErrorKind>>)
        requires
            register < 0x80,
            register != Register::ACC_RANGE,
            register != Register::GYR_RANGE,
        ensures
            one_write(old(self).accesses(), final(self).accesses(), register, data, res),
            final(self).interface().address() == old(self).interface().address(),
            final(self).accel_range() == old(self).accel_range(),
            final(self).gyro_range() == old(self).gyro_range(),
            old(self).wf() ==> final(self).wf(),
            res matches Err(e) ==> e is Comm,
    {
        let ghost before = self.iface.accesses();
        let res = self.iface.write_register(register, data);
        proof {
            let access = Access::Write { register, data: seq![data], result: res };
            lemma_last_written_push(before, access, Register::ACC_RANGE);
            lemma_last_written_push(before, access, Register::GYR_RANGE);
        }
        res
    }

    /// Get chip ID
    pub fn chip_id(&mut self) -> (res: Result<u8, Error<embedded_hal::i2c::ErrorKind>>)
        ensures
            final(self).accesses() == old(self).accesses().push(
                Access::Read { register: Register::CHIPID, len: 1, result: byte_read(res) },
            ),
            final(self).interface().address() == old(self).interface().address(),
            final(self).accel_range() == old(self).accel_range(),
            final(self).gyro_range() == old(self).gyro_range(),
            old(self).wf() ==> final(self).wf(),
            res matches Err(e) ==> e is Comm,
    {
        self.read_byte(Register::CHIPID)
    }

    /// Get sensor power mode
    pub fn power_mode(&mut self) -> (res: Result<SensorPowerMode, Error<embedded_hal::i2c::ErrorKind>>)
        ensures
            one_read(old(self).accesses(), final(self).accesses(), Register::PMU_STATUS, 1),
            res == decoded(
                final(self).accesses().last().read_result(),
                |status: u8| SensorPowerMode::from_register(status),
            ),
            final(self).interface().address() == old(self).interface().address(),
            final(self).accel_range() == old(self).accel_range(),
            final(self).gyro_range() == old(self).gyro_range(),
            old(self).wf() ==> final(self).wf(),
            res matches Err(e) ==> e is Comm,
    {
        let ghost before = self.iface.accesses();
        let read = self.read_byte(Register::PMU_STATUS);
        proof {
            let access = Access::Read {
                register: Register::PMU_STATUS,
                len: 1,
                result: byte_read(read),
            };
            assert(before.push(access).drop_last() =~= before);
        }
        match read {
            Ok(status) => Ok(SensorPowerMode::from_register(status)),
            Err(e) => Err(e),
        }
    }

    /// Get sensor status
    pub fn status(&mut self) -> (res: Result<Status, Error<embedded_hal::i2c::ErrorKind>>)
        ensures
            one_read(old(self).accesses(), final(self).accesses(), Register::STATUS, 1),
            res == decoded(
                final(self).accesses().last().read_result(),
                |status: u8| Status::from_register(status),
            ),
            final(self).interface().address() == old(self).interface().address(),
            final(self).accel_range() == old(self).accel_range(),
            final(self).gyro_range() == old(self).gyro_range(),
            old(self).wf() ==> final(self).wf(),
            res matches Err(e) ==> e is Comm,
    {
        let ghost before = self.iface.accesses();
        let read = self.read_byte(Register::STATUS);
        proof {
            let access = Access::Read { register: Register::STATUS, len: 1, result: byte_read(read) };
            assert(before.push(access).drop_last() =~= before);
        }
        match read {
            Ok(status) => Ok(Status::from_register(status)),
            Err(e) => Err(e),
        }
    }

    /// Configure accelerometer power mode
    pub fn set_accel_power_mode(&mut self, mode: AccelerometerPowerMode) -> (res: Result<
        (),
        Error<embedded_hal::i2c::ErrorKind>,
    >)
        ensures
            one_write(
                old(self).accesses(),
                final(self).accesses(),
                Register::CMD,
                mode.command(),
                res,
            ),
            final(self).interface().address() == old(self).interface().address(),
            final(self).accel_range() == old(self).accel_range(),
            final(self).gyro_range() == old(self).gyro_range(),
            old(self).wf() ==> final(self).wf(),
            res matches Err(e) ==> e is Comm,
    {
        self.write_byte(Register::CMD, mode.command())
    }

    /// Configure gyroscope power mode
    pub fn set_gyro_power_mode(&mut self, mode: GyroscopePowerMode) -> (res: Result<
        (),
        Error<embedded_hal::i2c::ErrorKind>,
    >)
        ensures
            one_write(
                old(self).accesses(),
                final(self).accesses(),
                Register::CMD,
                mode.command(),
                res,
            ),
            final(self).interface().address() == old(self).interface().address(),
            final(self).accel_range() == old(self).accel_range(),
            final(self).gyro_range() == old(self).gyro_range(),
            old(self).wf() ==> final(self).wf(),
            res matches Err(e) ==> e is Comm,
    {
        self.write_byte(Register::CMD, mode.command())
    }

    /// Configure magnetometer power mode
    pub fn set_magnet_power_mode(&mut self, mode: MagnetometerPowerMode) -> (res: Result<
        (),
        Error<embedded_hal::i2c::ErrorKind>,
    >)
        ensures
            one_write(
                old(self).accesses(),
                final(self).accesses(),
                Register::CMD,
                mode.command(),
                res,
            ),
            final(self).interface().address() == old(self).interface().address(),
            final(self).accel_range() == old(self).accel_range(),
            final(self).gyro_range() == old(self).gyro_range(),
            old(self).wf() ==> final(self).wf(),
            res matches Err(e) ==> e is Comm,
    {
        self.write_byte(Register::CMD, mode.command())
    }

    /// Set the accelerometer range: the range's code is written to register
    /// `ACC_RANGE`, and where that succeeds, the driver takes the range over
    /// for scaling. Where it fails, the driver keeps the range it had.
    pub fn set_accel_range(&mut self, range: AccelerometerRange) -> (res: Result<
        (),
        Error<embedded_hal::i2c::ErrorKind>,
    >)
        ensures
            one_write(
                old(self).accesses(),
                final(self).accesses(),
                Register::ACC_RANGE,
                range.code(),
                res,
            ),
            final(self).accel_range() == if res is Ok {
                range
            } else {
                old(self).accel_range()
            },
            final(self).gyro_range() == old(self).gyro_range(),
            final(self).interface().address() == old(self).interface().address(),
            old(self).wf() ==> final(self).wf(),
            res matches Err(e) ==> e is Comm,
    {
        let ghost before = self.iface.accesses();
        let res = self.iface.write_register(Register::ACC_RANGE, range.code());
        proof {
            let access = Access::Write {
                register: Register::ACC_RANGE,
                data: seq![range.code()],
                result: res,
            };
            lemma_last_written_push(before, access, Register::ACC_RANGE);
            lemma_last_written_push(before, access, Register::GYR_RANGE);
        }
        if res.is_ok() {
            self.accel_range = range;
        }
        res
    }

    /// Set the gyro range: the range's code is written to register
    /// `GYR_RANGE`, and where that succeeds, the driver takes the range over
    /// for scaling. Where it fails, the driver keeps the range it had.
    pub fn set_gyro_range(&mut self, range: GyroRange) -> (res: Result<(), Error<embedded_hal::i2c::ErrorKind>>)
        ensures
            one_write(
                old(self).accesses(),
                final(self).accesses(),
                Register::GYR_RANGE,
                range.code(),
                res,
            ),
            final(self).gyro_range() == if res is Ok {
                range
            } else {
                old(self).gyro_range()
            },
            final(self).accel_range() == old(self).accel_range(),
            final(self).interface().address() == old(self).interface().address(),
            old(self).wf() ==> final(self).wf(),
            res matches Err(e) ==> e is Comm,
    {
        let ghost before = self.iface.accesses();
        let res = self.iface.write_register(Register::GYR_RANGE, range.code());
        proof {
            let access = Access::Write {
                register: Register::GYR_RANGE,
                data: seq![range.code()],
                result: res,
            };
            lemma_last_written_push(before, access, Register::ACC_RANGE);
            lemma_last_written_push(before, access, Register::GYR_RANGE);
        }
        if res.is_ok() {
            self.gyro_range = range;
        }
        res
    }
}

impl<SPI> Bmi160<SpiInterface<SPI>> {
    /// Create new instance of the BMI160 device communicating through SPI.
    pub fn new_with_spi(spi: SPI) -> (imu: Self)
        ensures
            imu.interface().bus() == spi,
            imu.interface().transactions() == Seq::<SpiTransaction>::empty(),
            imu.accel_range() == AccelerometerRange::G2,
            imu.gyro_range() == GyroRange::Scale2000,
            imu.wf(),
    {
        let imu = Bmi160 {
            iface: SpiInterface::new(spi),
            accel_range: AccelerometerRange::default(),
            gyro_range: GyroRange::default(),
        };
        assert(imu.iface.accesses() =~= Seq::empty());
        imu
    }

    /// Destroy driver instance, return SPI device instance.
    pub fn destroy(self) -> (spi: SPI)
        ensures
            spi == self.interface().bus(),
    {
        self.iface.release()
    }

    /// The register accesses that the driver has issued, oldest first.
    pub open spec fn accesses(&self) -> Seq<Access<embedded_hal::spi::ErrorKind>> {
        self.interface().accesses()
    }

    /// No write went out with the read mark.
    pub open spec fn writes_unmarked(&self) -> bool {
        forall|i: int|
            0 <= i < self.interface().transactions().len() && self.interface().transactions()[i] is Write
                ==> !(#[trigger] self.interface().transactions()[i]).marked()
    }

    /// Every read went out with the read mark and no write did, and the
    /// ranges that the driver holds are those that its own accesses have left
    /// in the device's range registers.
    pub open spec fn wf(&self) -> bool {
        &&& self.interface().wf()
        &&& self.writes_unmarked()
        &&& ranges_follow(self.accesses(), self.accel_range(), self.gyro_range())
    }
}

impl<SPI: embedded_hal::spi::SpiDevice> Bmi160<SpiInterface<SPI>> {
    /// Reads one register.
    fn read_byte(&mut self, register: u8) -> (res: Result<u8, Error<embedded_hal::spi::ErrorKind>>)
        requires
            register < 0x80,
        ensures
            final(self).accesses() == old(self).accesses().push(
                Access::Read { register, len: 1, result: byte_read(res) },
            ),
            final(self).accel_range() == old(self).accel_range(),
            final(self).gyro_range() == old(self).gyro_range(),
            old(self).wf() ==> final(self).wf(),
            res matches Err(e) ==> e is Comm || e is Pin,
    {
        let ghost before = self.iface.accesses();
        let res = self.iface.read_register(register);
        proof {
            let access = Access::Read { register, len: 1, result: byte_read(res) };
            lemma_last_written_push(before, access, Register::ACC_RANGE);
            lemma_last_written_push(before, access, Register::GYR_RANGE);
            let after = self.iface.transactions();
            assert forall|i: int| 0 <= i < after.len() - 1 implies after[i] == old(
                self,
            ).iface.transactions()[i] by {
                assert(after.drop_last()[i] == after[i]);
            }
        }
        res
    }

    /// Writes one byte to a register other than the range registers.
    fn write_byte(&mut self, register: u8, data: u8) -> (res: Result<(), Error<embedded_hal::spi::ErrorKind>>)
        requires
            register < 0x80,
            register != Register::ACC_RANGE,
            register != Register::GYR_RANGE,
        ensures
            one_write(old(self).accesses(), final(self).accesses(), register, data, res),
            final(self).accel_range() == old(self).accel_range(),
            final(self).gyro_range() == old(self).gyro_range(),
            old(self).wf() ==> final(self).wf(),
            res matches Err(e) ==> e is Comm || e is Pin,
    {
        let ghost before = self.iface.accesses();
        let res = self.iface.write_register(register, data);
        proof {
            let access = Access::Write { register, data: seq![data], result: res };
            lemma_last_written_push(before, access, Register::ACC_RANGE);
            lemma_last_written_push(before, access, Register::GYR_RANGE);
        }
        res
    }

    /// Get chip ID
    pub fn chip_id(&mut self) -> (res: Result<u8, Error<embedded_hal::spi::ErrorKind>>)
        ensures
            final(self).accesses() == old(self).accesses().push(
                Access::Read { register: Register::CHIPID, len: 1, result: byte_read(res) },
            ),
            final(self).accel_range() == old(self).accel_range(),
            final(self).gyro_range() == old(self).gyro_range(),
            old(self).wf() ==> final(self).wf(),
            res matches Err(e) ==> e is Comm || e is Pin,
    {
        self.read_byte(Register::CHIPID)
    }

    /// Get sensor power mode
    pub fn power_mode(&mut self) -> (res: Result<SensorPowerMode, Error<embedded_hal::spi::ErrorKind>>)
        ensures
            one_read(old(self).accesses(), final(self).accesses(), Register::PMU_STATUS, 1),
            res == decoded(
                final(self).accesses().last().read_result(),
                |status: u8| SensorPowerMode::from_register(status),
            ),
            final(self).accel_range() == old(self).accel_range(),
            final(self).gyro_range() == old(self).gyro_range(),
            old(self).wf() ==> final(self).wf(),
            res matches Err(e) ==> e is Comm || e is Pin,
    {
        let ghost before = self.iface.accesses();
        let read = self.read_byte(Register::PMU_STATUS);
        proof {
            let access = Access::Read {
                register: Register::PMU_STATUS,
                len: 1,
                result: byte_read(read),
            };
            assert(before.push(access).drop_last() =~= before);
        }
        match read {
            Ok(status) => Ok(SensorPowerMode::from_register(status)),
            Err(e) => Err(e),
        }
    }

    /// Get sensor status
    pub fn status(&mut self) -> (res: Result<Status, Error<embedded_hal::spi::ErrorKind>>)
        ensures
            one_read(old(self).accesses(), final(self).accesses(), Register::STATUS, 1),
            res == decoded(
                final(self).accesses().last().read_result(),
                |status: u8| Status::from_register(status),
            ),
            final(self).accel_range() == old(self).accel_range(),
            final(self).gyro_range() == old(self).gyro_range(),
            old(self).wf() ==> final(self).wf(),
            res matches Err(e) ==> e is Comm || e is Pin,
    {
        let ghost before = self.iface.accesses();
        let read = self.read_byte(Register::STATUS);
        proof {
            let access = Access::Read { register: Register::STATUS, len: 1, result: byte_read(read) };
            assert(before.push(access).drop_last() =~= before);
        }
        match read {
            Ok(status) => Ok(Status::from_register(status)),
            Err(e) => Err(e),
        }
    }

    /// Configure accelerometer power mode
    pub fn set_accel_power_mode(&mut self, mode: AccelerometerPowerMode) -> (res: Result<
        (),
        Error<embedded_hal::spi::ErrorKind>,
    >)
        ensures
            one_write(
                old(self).accesses(),
                final(self).accesses(),
                Register::CMD,
                mode.command(),
                res,
            ),
            final(self).accel_range() == old(self).accel_range(),
            final(self).gyro_range() == old(self).gyro_range(),
            old(self).wf() ==> final(self).wf(),
            res matches Err(e) ==> e is Comm || e is Pin,
    {
        self.write_byte(Register::CMD, mode.command())
    }

    /// Configure gyroscope power mode
    pub fn set_gyro_power_mode(&mut self, mode: GyroscopePowerMode) -> (res: Result<
        (),
        Error<embedded_hal::spi::ErrorKind>,
    >)
        ensures
            one_write(
                old(self).accesses(),
                final(self).accesses(),
                Register::CMD,
                mode.command(),
                res,
            ),
            final(self).accel_range() == old(self).accel_range(),
            final(self).gyro_range() == old(self).gyro_range(),
            old(self).wf() ==> final(self).wf(),
            res matches Err(e) ==> e is Comm || e is Pin,
    {
        self.write_byte(Register::CMD, mode.command())
    }

    /// Configure magnetometer power mode
    pub fn set_magnet_power_mode(&mut self, mode: MagnetometerPowerMode) -> (res: Result<
        (),
        Error<embedded_hal::spi::ErrorKind>,
    >)
        ensures
            one_write(
                old(self).accesses(),
                final(self).accesses(),
                Register::CMD,
                mode.command(),
                res,
            ),
            final(self).accel_range() == old(self).accel_range(),
            final(self).gyro_range() == old(self).gyro_range(),
            old(self).wf() ==> final(self).wf(),
            res matches Err(e) ==> e is Comm || e is Pin,
    {
        self.write_byte(Register::CMD, mode.command())
    }

    /// Set the accelerometer range: the range's code is written to register
    /// `ACC_RANGE`, and where that succeeds, the driver takes the range over
    /// for scaling. Where it fails, the driver keeps the range it had.
    pub fn set_accel_range(&mut self, range: AccelerometerRange) -> (res: Result<
        (),
        Error<embedded_hal::spi::ErrorKind>,
    >)
        ensures
            one_write(
                old(self).accesses(),
                final(self).accesses(),
                Register::ACC_RANGE,
                range.code(),
                res,
            ),
            final(self).accel_range() == if res is Ok {
                range
            } else {
                old(self).accel_range()
            },
            final(self).gyro_range() == old(self).gyro_range(),
            old(self).wf() ==> final(self).wf(),
            res matches Err(e) ==> e is Comm || e is Pin,
    {
        let ghost before = self.iface.accesses();
        let res = self.iface.write_register(Register::ACC_RANGE, range.code());
        proof {
            let access = Access::Write {
                register: Register::ACC_RANGE,
                data: seq![range.code()],
                result: res,
            };
            lemma_last_written_push(before, access, Register::ACC_RANGE);
            lemma_last_written_push(before, access, Register::GYR_RANGE);
        }
        if res.is_ok() {
            self.accel_range = range;
        }
        res
    }

    /// Set the gyro range: the range's code is written to register
    /// `GYR_RANGE`, and where that succeeds, the driver takes the range over
    /// for scaling. Where it fails, the driver keeps the range it had.
    pub fn set_gyro_range(&mut self, range: GyroRange) -> (res: Result<(), Error<embedded_hal::spi::ErrorKind>>)
        ensures
            one_write(
                old(self).accesses(),
                final(self).accesses(),
                Register::GYR_RANGE,
                range.code(),
                res,
            ),
            final(self).gyro_range() == if res is Ok {
                range
            } else {
                old(self).gyro_range()
            },
            final(self).accel_range() == old(self).accel_range(),
            old(self).wf() ==> final(self).wf(),
            res matches Err(e) ==> e is Comm || e is Pin,
    {
        let ghost before = self.iface.accesses();
        let res = self.iface.write_register(Register::GYR_RANGE, range.code());
        proof {
            let access = Access::Write {
                register: Register::GYR_RANGE,
                data: seq![range.code()],
                result: res,
            };
            lemma_last_written_push(before, access, Register::ACC_RANGE);
            lemma_last_written_push(before, access, Register::GYR_RANGE);
        }
        if res.is_ok() {
            self.gyro_range = range;
        }
        res
    }
}

} // verus!
