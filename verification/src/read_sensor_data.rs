//! Which registers a selection of channels spans, and how their bytes decode.

use vstd::prelude::*;
use crate::device_impl::{lemma_last_written_push, one_read};
use crate::interface::{burst_read, Access, I2cInterface, SpiInterface};
use crate::register_address::Register;
use crate::types::{Data, Error, MagnetometerData, Sensor3DData, SensorSelector};
use crate::Bmi160;

verus! {

/// One of the four blocks of data registers. They lie one after the other,
/// without a gap: magnetometer, gyroscope, accelerometer, sensor time.
pub enum Channel {
    Magnet,
    Gyro,
    Accel,
    Time,
}

impl Channel {
    /// Address of the block's first register.
    pub open spec fn start(self) -> int {
        match self {
            Channel::Magnet => Register::MAG as int,
            Channel::Gyro => Register::GYR as int,
            Channel::Accel => Register::ACC as int,
            Channel::Time => Register::SENSORTIME as int,
        }
    }

    /// Number of registers in the block.
    pub open spec fn width(self) -> int {
        match self {
            Channel::Magnet => 8,
            Channel::Gyro => 6,
            Channel::Accel => 6,
            Channel::Time => 3,
        }
    }

    /// Address of the block's last register.
    pub open spec fn last(self) -> int {
        self.start() + self.width() - 1
    }
}

impl SensorSelector {
    /// Whether the selector asks for `channel`.
    pub open spec fn selects(self, channel: Channel) -> bool {
        match channel {
            Channel::Magnet => self.magnet,
            Channel::Gyro => self.gyro,
            Channel::Accel => self.accel,
            Channel::Time => self.time,
        }
    }
}

/// The first and the last register of the span that `get_data_addresses`
/// resolves `selector` to.
pub open spec fn spec_data_addresses(selector: SensorSelector) -> (u8, u8) {
    let begin: u8 = if selector.magnet {
        Register::MAG
    } else if selector.gyro {
        Register::GYR
    } else if selector.accel {
        Register::ACC
    } else if selector.time {
        Register::SENSORTIME
    } else {
        0
    };
    let end: u8 = if selector.time {
        (Register::SENSORTIME + 2) as u8
    } else if selector.accel {
        (Register::ACC + 5) as u8
    } else if selector.gyro {
        (Register::GYR + 5) as u8
    } else if selector.magnet {
        (Register::MAG + 7) as u8
    } else {
        0
    };
    (begin, end)
}

/// Number of registers in the span of `selector`; 0 for the empty selector.
pub open spec fn span_len(selector: SensorSelector) -> int {
    if selector.is_empty() {
        0
    } else {
        spec_data_addresses(selector).1 - spec_data_addresses(selector).0 + 1
    }
}

/// The value of a little-endian signed 16-bit field.
pub open spec fn le_i16(low: u8, high: u8) -> int {
    let unsigned = low + 256 * high;
    if unsigned < 0x8000 {
        unsigned
    } else {
        unsigned - 0x1_0000
    }
}

/// The value of a little-endian unsigned 16-bit field.
pub open spec fn le_u16(low: u8, high: u8) -> int {
    low + 256 * high
}

/// The value of a little-endian unsigned 24-bit field.
pub open spec fn le_u24(low: u8, middle: u8, high: u8) -> int {
    low + 256 * middle + 65536 * high
}

/// The three axes that the six bytes of `bytes` from index `at` on hold: x,
/// then y, then z, each a little-endian signed 16-bit field.
pub open spec fn axes_at(bytes: Seq<u8>, at: int) -> Sensor3DData {
    Sensor3DData {
        x: le_i16(bytes[at], bytes[at + 1]) as i16,
        y: le_i16(bytes[at + 2], bytes[at + 3]) as i16,
        z: le_i16(bytes[at + 4], bytes[at + 5]) as i16,
    }
}

/// Whether the block of `channel` lies within `len` bytes that start at
/// register `MAG + offset`.
pub open spec fn block_fits(channel: Channel, offset: int, len: int) -> bool {
    Register::MAG + offset <= channel.start() && channel.last() < Register::MAG + offset + len
}

/// The sample that `bytes` hold for `selector`, where `bytes[0]` is the
/// content of register `MAG + offset`. A channel is present if and only if
/// it is selected; each field is read at its register's distance from the
/// first byte.
pub open spec fn spec_data(selector: SensorSelector, bytes: Seq<u8>, offset: int) -> Data {
    Data {
        accel: if selector.accel {
            Some(axes_at(bytes, 14 - offset))
        } else {
            None
        },
        gyro: if selector.gyro {
            Some(axes_at(bytes, 8 - offset))
        } else {
            None
        },
        magnet: if selector.magnet {
            Some(
                MagnetometerData {
                    axes: axes_at(bytes, 0 - offset),
                    hall_resistence: le_u16(bytes[6 - offset], bytes[7 - offset]) as u16,
                },
            )
        } else {
            None
        },
        time: if selector.time {
            Some(le_u24(bytes[20 - offset], bytes[21 - offset], bytes[22 - offset]) as u32)
        } else {
            None
        },
    }
}

/// The two bytes, low then high, of the little-endian two's-complement
/// encoding of `value`.
pub open spec fn le_bytes_of(value: i16) -> (u8, u8) {
    let unsigned = if value >= 0 {
        value as int
    } else {
        value + 0x1_0000
    };
    ((unsigned % 256) as u8, (unsigned / 256) as u8)
}

/// Decoding a signed 16-bit field gives back the value that was encoded.
pub proof fn lemma_decode_inverts_encode(value: i16)
    ensures
        le_i16(le_bytes_of(value).0, le_bytes_of(value).1) == value,
{
}

/// Two bytes encode the value that they decode to: no two pairs of bytes
/// stand for one value.
pub proof fn lemma_encode_inverts_decode(low: u8, high: u8)
    ensures
        i16::MIN <= le_i16(low, high) <= i16::MAX,
        le_bytes_of(le_i16(low, high) as i16) == (low, high),
{
}

/// Resolves a selection of channels to the one contiguous span of registers
/// that has to be read: the address of its first and of its last register.
/// Blocks that lie between two selected ones are part of the span. For the
/// empty selection the result is `(0, 0)`, and nothing is to be read.
#[verifier::when_used_as_spec(spec_data_addresses)]
pub fn get_data_addresses(selector: SensorSelector) -> (span: (u8, u8))
    ensures
        span == spec_data_addresses(selector),
        selector.is_empty() ==> span == (0u8, 0u8),
        span.0 <= span.1,
        forall|c: Channel| #[trigger]
            selector.selects(c) ==> span.0 <= c.start() && c.last() <= span.1,
        !selector.is_empty() ==> exists|c: Channel| #[trigger]
            selector.selects(c) && c.start() == span.0,
        !selector.is_empty() ==> exists|c: Channel| #[trigger]
            selector.selects(c) && c.last() == span.1,
{
    let begin = if selector.magnet {
        assert(selector.selects(Channel::Magnet));
        Register::MAG
    } else if selector.gyro {
        assert(selector.selects(Channel::Gyro));
        Register::GYR
    } else if selector.accel {
        assert(selector.selects(Channel::Accel));
        Register::ACC
    } else if selector.time {
        assert(selector.selects(Channel::Time));
        Register::SENSORTIME
    } else {
        0
    };

    let end = if selector.time {
        assert(selector.selects(Channel::Time));
        Register::SENSORTIME + 2
    } else if selector.accel {
        assert(selector.selects(Channel::Accel));
        Register::ACC + 5
    } else if selector.gyro {
        assert(selector.selects(Channel::Gyro));
        Register::GYR + 5
    } else if selector.magnet {
        assert(selector.selects(Channel::Magnet));
        Register::MAG + 7
    } else {
        0
    };

    (begin, end)
}

/// Decodes one little-endian signed 16-bit field.
fn axis_value(low: u8, high: u8) -> (value: i16)
    ensures
        value == le_i16(low, high),
{
    let unsigned: u16 = (low as u16) | ((high as u16) << 8);
    assert(unsigned == low + 256 * high) by (bit_vector)
        requires
            unsigned == (low as u16) | ((high as u16) << 8),
    ;
    let value = unsigned as i16;
    assert(unsigned < 0x8000 ==> value == unsigned) by (bit_vector)
        requires
            value == unsigned as i16,
    ;
    assert(unsigned >= 0x8000 ==> value == unsigned - 0x1_0000) by (bit_vector)
        requires
            value == unsigned as i16,
    ;
    value
}

/// Decodes the three axes of a sensor from the first six bytes of `data`.
pub fn get_sensor3d_data(data: &[u8]) -> (axes: Sensor3DData)
    requires
        data@.len() >= 6,
    ensures
        axes == axes_at(data@, 0),
        axes.x == le_i16(data@[0], data@[1]),
        axes.y == le_i16(data@[2], data@[3]),
        axes.z == le_i16(data@[4], data@[5]),
{
    Sensor3DData {
        x: axis_value(data[0], data[1]),
        y: axis_value(data[2], data[3]),
        z: axis_value(data[4], data[5]),
    }
}

/// Decodes the three axes that `data` holds from index `at` on.
fn get_axes_at(data: &[u8], at: usize) -> (axes: Sensor3DData)
    requires
        at + 6 <= data@.len(),
    ensures
        axes == axes_at(data@, at as int),
{
    Sensor3DData {
        x: axis_value(data[at], data[at + 1]),
        y: axis_value(data[at + 2], data[at + 3]),
        z: axis_value(data[at + 4], data[at + 5]),
    }
}

/// Decodes the sample that `data` holds for `selector`, where `data[0]` is
/// the content of register `MAG + data_offset`. Every selected block has to
/// lie within `data`.
pub fn get_data(selector: SensorSelector, data: &[u8], data_offset: usize) -> (sample: Data)
    requires
        forall|c: Channel| #[trigger]
            selector.selects(c) ==> block_fits(c, data_offset as int, data@.len() as int),
    ensures
        sample == spec_data(selector, data@, data_offset as int),
        sample.accel is Some <==> selector.accel,
        sample.gyro is Some <==> selector.gyro,
        sample.magnet is Some <==> selector.magnet,
        sample.time is Some <==> selector.time,
{
    let mut result = Data { accel: None, gyro: None, magnet: None, time: None };
    if selector.magnet {
        assert(selector.selects(Channel::Magnet));
        let low = data[6 - data_offset];
        let high = data[7 - data_offset];
        let hall: u16 = (low as u16) | ((high as u16) << 8);
        assert(hall == low + 256 * high) by (bit_vector)
            requires
                hall == (low as u16) | ((high as u16) << 8),
        ;
        result.magnet = Some(
            MagnetometerData { axes: get_axes_at(data, 0), hall_resistence: hall },
        );
    }
    if selector.gyro {
        assert(selector.selects(Channel::Gyro));
        result.gyro = Some(get_axes_at(data, 8 - data_offset));
    }
    if selector.accel {
        assert(selector.selects(Channel::Accel));
        result.accel = Some(get_axes_at(data, 14 - data_offset));
    }
    if selector.time {
        assert(selector.selects(Channel::Time));
        let low = data[20 - data_offset];
        let middle = data[21 - data_offset];
        let high = data[22 - data_offset];
        let time: u32 = (low as u32) | ((middle as u32) << 8) | ((high as u32) << 16);
        assert(time == low + 256 * middle + 65536 * high) by (bit_vector)
            requires
                time == (low as u32) | ((middle as u32) << 8) | ((high as u32) << 16),
        ;
        result.time = Some(time);
    }
    result
}

/// The sample that a read of the span of `selector` gives: the decoding of
/// the bytes read, or the error that the read ended with.
pub open spec fn sample_of<E>(selector: SensorSelector, read: Result<Seq<u8>, Error<E>>) -> Result<
    Data,
    Error<E>,
> {
    match read {
        Ok(bytes) => Ok(spec_data(selector, bytes, get_data_addresses(selector).0 - Register::MAG)),
        Err(e) => Err(e),
    }
}

/// The length of the read payload for `selector`: one byte for the
/// starting address, then one for each register of the span.
fn payload_len(selector: SensorSelector) -> (len: usize)
    requires
        !selector.is_empty(),
    ensures
        len == span_len(selector) + 1,
        2 <= len <= 24,
{
    let (begin, end) = get_data_addresses(selector);
    (2 + end - begin) as usize
}

impl<I2C: embedded_hal::i2c::I2c> Bmi160<I2cInterface<I2C>> {
    /// Read latest sensor data: the span of the selected channels in one
    /// burst read, decoded. With the empty selector nothing is read, and the
    /// sample is empty.
    pub fn data(&mut self, selector: SensorSelector) -> (res: Result<
        Data,
        Error<embedded_hal::i2c::ErrorKind>,
    >)
        ensures
            selector.is_empty() ==> res == Ok::<Data, Error<embedded_hal::i2c::ErrorKind>>(
                Data::empty(),
            ) && final(self).interface() == old(self).interface(),
            !selector.is_empty() ==> one_read(
                old(self).accesses(),
                final(self).accesses(),
                get_data_addresses(selector).0,
                span_len(selector) as nat,
            ) && res == sample_of(selector, final(self).accesses().last().read_result()),
            final(self).interface().address() == old(self).interface().address(),
            final(self).accel_range() == old(self).accel_range(),
            final(self).gyro_range() == old(self).gyro_range(),
            old(self).wf() ==> final(self).wf(),
            res matches Err(e) ==> e is Comm,
    {
        if selector.accel || selector.gyro || selector.magnet || selector.time {
            let begin = get_data_addresses(selector).0;
            let len = payload_len(selector);
            let mut data = [0u8; 24];
            data[0] = begin;
            let ghost before = self.iface.accesses();
            let buffer: &mut [u8] = &mut data;
            let (payload, _) = buffer.split_at_mut(len);
            let read = self.iface.read_data(payload);
            proof {
                let access = Access::Read {
                    register: begin,
                    len: (len - 1) as nat,
                    result: burst_read(read, payload@.skip(1)),
                };
                assert(before.push(access).drop_last() =~= before);
                lemma_last_written_push(before, access, Register::ACC_RANGE);
                lemma_last_written_push(before, access, Register::GYR_RANGE);
            }
            match read {
                Ok(()) => {
                    let (_, bytes) = payload.split_at(1);
                    assert(bytes@ =~= payload@.skip(1));
                    Ok(get_data(selector, bytes, (begin - Register::MAG) as usize))
                },
                Err(e) => Err(e),
            }
        } else {
            Ok(Data { accel: None, gyro: None, magnet: None, time: None })
        }
    }
}

impl<SPI: embedded_hal::spi::SpiDevice> Bmi160<SpiInterface<SPI>> {
    /// Read latest sensor data: the span of the selected channels in one
    /// burst read, decoded. With the empty selector nothing is read, and the
    /// sample is empty.
    pub fn data(&mut self, selector: SensorSelector) -> (res: Result<
        Data,
        Error<embedded_hal::spi::ErrorKind>,
    >)
        ensures
            selector.is_empty() ==> res == Ok::<Data, Error<embedded_hal::spi::ErrorKind>>(
                Data::empty(),
            ) && final(self).interface() == old(self).interface(),
            !selector.is_empty() ==> one_read(
                old(self).accesses(),
                final(self).accesses(),
                get_data_addresses(selector).0,
                span_len(selector) as nat,
            ) && res == sample_of(selector, final(self).accesses().last().read_result()),
            final(self).accel_range() == old(self).accel_range(),
            final(self).gyro_range() == old(self).gyro_range(),
            old(self).wf() ==> final(self).wf(),
            res matches Err(e) ==> e is Comm || e is Pin,
    {
        if selector.accel || selector.gyro || selector.magnet || selector.time {
            let begin = get_data_addresses(selector).0;
            let len = payload_len(selector);
            let mut data = [0u8; 24];
            data[0] = begin;
            let ghost before = self.iface.accesses();
            let buffer: &mut [u8] = &mut data;
            let (payload, _) = buffer.split_at_mut(len);
            let read = self.iface.read_data(payload);
            proof {
                let access = Access::Read {
                    register: begin,
                    len: (len - 1) as nat,
                    result: burst_read(read, payload@.skip(1)),
                };
                assert(before.push(access).drop_last() =~= before);
                lemma_last_written_push(before, access, Register::ACC_RANGE);
                lemma_last_written_push(before, access, Register::GYR_RANGE);
            }
            match read {
                Ok(()) => {
                    let (_, bytes) = payload.split_at(1);
                    assert(bytes@ =~= payload@.skip(1));
                    Ok(get_data(selector, bytes, (begin - Register::MAG) as usize))
                },
                Err(e) => Err(e),
            }
        } else {
            Ok(Data { accel: None, gyro: None, magnet: None, time: None })
        }
    }
}

} // verus!
