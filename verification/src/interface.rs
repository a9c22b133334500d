//! I2C/SPI interfaces
//!
//! Each interface owns one bus handle and offers the same four operations:
//! read a register, write a register, read a burst, write a burst. Besides
//! the handle it keeps a ghost record of the bus transactions it has issued
//! and of how each of them ended, so that the contracts can say what went
//! over the bus.

use vstd::prelude::*;
use crate::types::Error;

verus! {

pub const I2C_DEV_BASE_ADDR: u8 = 0x68;

/// Kind of an I2C bus error, as `embedded-hal` classifies it.
#[verifier::external_type_specification]
#[verifier::external_body]
pub struct ExI2cErrorKind(embedded_hal::i2c::ErrorKind);

/// Kind of an SPI bus error, as `embedded-hal` classifies it.
#[verifier::external_type_specification]
#[verifier::external_body]
pub struct ExSpiErrorKind(embedded_hal::spi::ErrorKind);

/// Possible slave addresses
#[derive(Debug, Clone, Copy, PartialEq, Eq, Structural)]
pub enum SlaveAddr {
    /// Default slave address
    Default,
    /// Alternative slave address providing bit value for the SDO pin
    Alternative(bool),
}

impl Default for SlaveAddr {
    /// Default slave address
    fn default() -> (address: Self)
        ensures
            address == SlaveAddr::Default,
    {
        SlaveAddr::Default
    }
}

impl SlaveAddr {
    /// The 7-bit bus address that this choice stands for: the base address
    /// `0x68`, with the lowest bit set where the SDO pin is high.
    pub open spec fn spec_addr(self) -> u8 {
        match self {
            SlaveAddr::Alternative(true) => 0x69,
            _ => 0x68,
        }
    }

    /// The numerical address of the device
    #[verifier::when_used_as_spec(spec_addr)]
    pub fn addr(self) -> (address: u8)
        ensures
            address == self.spec_addr(),
    {
        match self {
            SlaveAddr::Default => I2C_DEV_BASE_ADDR,
            SlaveAddr::Alternative(false) => I2C_DEV_BASE_ADDR,
            SlaveAddr::Alternative(true) => {
                assert(0x68u8 | 1 == 0x69) by (bit_vector);
                I2C_DEV_BASE_ADDR | 1
            },
        }
    }
}

/// One access to the device's registers and how it ended.
pub enum Access<E> {
    /// `len` bytes were asked for, from register `register` on; `result`
    /// holds them where the bus delivered them.
    Read { register: u8, len: nat, result: Result<Seq<u8>, Error<E>> },
    /// `data` was sent to be stored from register `register` on.
    Write { register: u8, data: Seq<u8>, result: Result<(), Error<E>> },
}

impl<E> Access<E> {
    /// What a read delivered.
    pub open spec fn read_result(self) -> Result<Seq<u8>, Error<E>> {
        match self {
            Access::Read { result, .. } => result,
            Access::Write { .. } => Ok(Seq::empty()),
        }
    }
}

/// What a read of one byte delivered, seen as the read of a sequence.
pub open spec fn byte_read<E>(res: Result<u8, Error<E>>) -> Result<Seq<u8>, Error<E>> {
    match res {
        Ok(byte) => Ok(seq![byte]),
        Err(e) => Err(e),
    }
}

/// What a burst read delivered, given what the payload holds after it.
pub open spec fn burst_read<E>(res: Result<(), Error<E>>, data: Seq<u8>) -> Result<
    Seq<u8>,
    Error<E>,
> {
    match res {
        Ok(()) => Ok(data),
        Err(e) => Err(e),
    }
}

/// One transaction on the I2C bus and how it ended.
pub enum I2cTransaction {
    /// `bytes` were written to the device at `address`.
    Write { address: u8, bytes: Seq<u8>, result: Result<(), Error<embedded_hal::i2c::ErrorKind>> },
    /// `bytes` were written to the device at `address`; then, after a
    /// repeated start, `len` bytes were read from it.
    WriteRead {
        address: u8,
        bytes: Seq<u8>,
        len: nat,
        result: Result<Seq<u8>, Error<embedded_hal::i2c::ErrorKind>>,
    },
}

impl I2cTransaction {
    /// The bus address that the transaction went to.
    pub open spec fn address(self) -> u8 {
        match self {
            I2cTransaction::Write { address, .. } => address,
            I2cTransaction::WriteRead { address, .. } => address,
        }
    }

    /// The register access that the transaction carries: the first byte
    /// written is the register's address.
    pub open spec fn access(self) -> Access<embedded_hal::i2c::ErrorKind> {
        match self {
            I2cTransaction::Write { bytes, result, .. } => Access::Write {
                register: bytes[0],
                data: bytes.skip(1),
                result,
            },
            I2cTransaction::WriteRead { bytes, len, result, .. } => Access::Read {
                register: bytes[0],
                len,
                result,
            },
        }
    }
}

/// One transaction on the SPI bus and how it ended. The device frames each
/// of them with its chip-select line.
pub enum SpiTransaction {
    /// `bytes` were written.
    Write { bytes: Seq<u8>, result: Result<(), Error<embedded_hal::spi::ErrorKind>> },
    /// `sent` went out while as many bytes came in.
    Transfer { sent: Seq<u8>, result: Result<Seq<u8>, Error<embedded_hal::spi::ErrorKind>> },
}

/// What a transfer that read registers delivered: all that came in but the
/// first byte, which came in while the address went out.
pub open spec fn after_address<E>(result: Result<Seq<u8>, Error<E>>) -> Result<Seq<u8>, Error<E>> {
    match result {
        Ok(received) => Ok(received.skip(1)),
        Err(e) => Err(e),
    }
}

impl SpiTransaction {
    /// Whether the first byte that went out has its highest bit set, which
    /// the device takes as the mark of a read.
    pub open spec fn marked(self) -> bool {
        match self {
            SpiTransaction::Write { bytes, .. } => bytes.len() >= 1 && bytes[0] >= 0x80,
            SpiTransaction::Transfer { sent, .. } => sent.len() >= 1 && sent[0] >= 0x80,
        }
    }

    /// The register access that the transaction carries: the first byte
    /// sent is the register's address, with the highest bit set in a read.
    pub open spec fn access(self) -> Access<embedded_hal::spi::ErrorKind> {
        match self {
            SpiTransaction::Write { bytes, result } => Access::Write {
                register: bytes[0],
                data: bytes.skip(1),
                result,
            },
            SpiTransaction::Transfer { sent, result } => Access::Read {
                register: (sent[0] - 0x80) as u8,
                len: (sent.len() - 1) as nat,
                result: after_address(result),
            },
        }
    }
}

/// I2C interface
pub struct I2cInterface<I2C> {
    pub(crate) i2c: I2C,
    pub(crate) address: u8,
    pub(crate) issued: Ghost<Seq<I2cTransaction>>,
}

/// SPI interface
pub struct SpiInterface<SPI> {
    pub(crate) spi: SPI,
    pub(crate) issued: Ghost<Seq<SpiTransaction>>,
}

/// `embedded_hal::i2c::I2c::write`, with an error reduced to its kind by
/// `embedded_hal::i2c::Error::kind`. The bus decides the result: nothing is
/// stated of it.
#[verifier::external_body]
fn i2c_write<I2C: embedded_hal::i2c::I2c>(i2c: &mut I2C, address: u8, bytes: &[u8]) -> (res:
    Result<(), embedded_hal::i2c::ErrorKind>) {
    match i2c.write(address, bytes) {
        Ok(()) => Ok(()),
        Err(e) => Err(embedded_hal::i2c::Error::kind(&e)),
    }
}

/// `embedded_hal::i2c::I2c::write_read`, with an error reduced to its kind
/// by `embedded_hal::i2c::Error::kind`. The bus decides the result and what
/// `buffer` holds afterwards: only that `buffer` keeps its length is stated.
#[verifier::external_body]
fn i2c_write_read<I2C: embedded_hal::i2c::I2c>(
    i2c: &mut I2C,
    address: u8,
    bytes: &[u8],
    buffer: &mut [u8],
) -> (res: Result<(), embedded_hal::i2c::ErrorKind>)
    ensures
        final(buffer)@.len() == old(buffer)@.len(),
{
    match i2c.write_read(address, bytes, buffer) {
        Ok(()) => Ok(()),
        Err(e) => Err(embedded_hal::i2c::Error::kind(&e)),
    }
}

/// `embedded_hal::spi::SpiDevice::write`. An error whose kind, by
/// `embedded_hal::spi::Error::kind`, is `ChipSelectFault` becomes
/// `Error::Pin`; one of any other kind becomes `Error::Comm` of that kind.
/// The bus decides the result: of it only the variant that never comes is
/// stated.
#[verifier::external_body]
fn spi_write<SPI: embedded_hal::spi::SpiDevice>(spi: &mut SPI, bytes: &[u8]) -> (res: Result<
    (),
    Error<embedded_hal::spi::ErrorKind>,
>)
    ensures
        res matches Err(e) ==> e is Comm || e is Pin,
{
    match spi.write(bytes) {
        Ok(()) => Ok(()),
        Err(e) => match embedded_hal::spi::Error::kind(&e) {
            embedded_hal::spi::ErrorKind::ChipSelectFault => Err(Error::Pin),
            kind => Err(Error::Comm(kind)),
        },
    }
}

/// `embedded_hal::spi::SpiDevice::transfer_in_place`, with errors mapped as
/// in `spi_write`. The bus decides the result and what `buffer` holds
/// afterwards: only that `buffer` keeps its length, and the variant that
/// never comes, are stated.
#[verifier::external_body]
fn spi_transfer_in_place<SPI: embedded_hal::spi::SpiDevice>(spi: &mut SPI, buffer: &mut [u8]) -> (res:
    Result<(), Error<embedded_hal::spi::ErrorKind>>)
    ensures
        final(buffer)@.len() == old(buffer)@.len(),
        res matches Err(e) ==> e is Comm || e is Pin,
{
    match spi.transfer_in_place(buffer) {
        Ok(()) => Ok(()),
        Err(e) => match embedded_hal::spi::Error::kind(&e) {
            embedded_hal::spi::ErrorKind::ChipSelectFault => Err(Error::Pin),
            kind => Err(Error::Comm(kind)),
        },
    }
}

impl<I2C> I2cInterface<I2C> {
    /// The bus address of the device.
    pub closed spec fn address(&self) -> u8 {
        self.address
    }

    /// The bus handle.
    pub closed spec fn bus(&self) -> I2C {
        self.i2c
    }

    /// The transactions issued so far, oldest first.
    pub closed spec fn transactions(&self) -> Seq<I2cTransaction> {
        self.issued@
    }

    /// The register accesses issued so far, oldest first: one per transaction.
    pub open spec fn accesses(&self) -> Seq<Access<embedded_hal::i2c::ErrorKind>> {
        self.transactions().map_values(|t: I2cTransaction| t.access())
    }

    /// Every transaction issued so far went to the device's address.
    pub open spec fn wf(&self) -> bool {
        forall|i: int|
            0 <= i < self.transactions().len() ==> (#[trigger] self.transactions()[i]).address()
                == self.address()
    }

    /// A new interface to the device at `address`, with nothing issued yet.
    pub(crate) fn new(i2c: I2C, address: u8) -> (iface: Self)
        ensures
            iface.address() == address,
            iface.bus() == i2c,
            iface.transactions() == Seq::<I2cTransaction>::empty(),
            iface.wf(),
    {
        I2cInterface { i2c, address, issued: Ghost(Seq::empty()) }
    }

    /// Gives the bus handle back.
    pub(crate) fn release(self) -> (i2c: I2C)
        ensures
            i2c == self.bus(),
    {
        self.i2c
    }

    /// An access follows each transaction.
    proof fn lemma_issue(before: Seq<I2cTransaction>, t: I2cTransaction)
        ensures
            before.push(t).map_values(|t: I2cTransaction| t.access()) == before.map_values(
                |t: I2cTransaction| t.access(),
            ).push(t.access()),
    {
        assert(before.push(t).map_values(|t: I2cTransaction| t.access()) =~= before.map_values(
            |t: I2cTransaction| t.access(),
        ).push(t.access()));
    }
}

impl<I2C: embedded_hal::i2c::I2c> I2cInterface<I2C> {
    /// Write to an u8 register: one bus write of the two bytes `register`,
    /// `data` to the device's address.
    pub fn write_register(&mut self, register: u8, data: u8) -> (res: Result<
        (),
        Error<embedded_hal::i2c::ErrorKind>,
    >)
        ensures
            final(self).address() == old(self).address(),
            final(self).transactions() == old(self).transactions().push(
                I2cTransaction::Write {
                    address: old(self).address(),
                    bytes: seq![register, data],
                    result: res,
                },
            ),
            final(self).accesses() == old(self).accesses().push(
                Access::Write { register, data: seq![data], result: res },
            ),
            old(self).wf() ==> final(self).wf(),
            res matches Err(e) ==> e is Comm,
    {
        let payload: [u8; 2] = [register, data];
        let outcome = i2c_write(&mut self.i2c, self.address, payload.as_slice());
        let res = match outcome {
            Ok(()) => Ok(()),
            Err(kind) => Err(Error::Comm(kind)),
        };
        proof {
            let t = I2cTransaction::Write {
                address: self.address,
                bytes: seq![register, data],
                result: res,
            };
            assert(payload@ =~= seq![register, data]);
            assert(seq![register, data].skip(1) =~= seq![data]);
            Self::lemma_issue(self.issued@, t);
            self.issued@ = self.issued@.push(t);
        }
        res
    }

    /// Write data. The first element corresponds to the starting address.
    /// One bus write of the whole payload to the device's address.
    pub fn write_data(&mut self, payload: &mut [u8]) -> (res: Result<
        (),
        Error<embedded_hal::i2c::ErrorKind>,
    >)
        requires
            old(payload)@.len() >= 1,
        ensures
            final(payload)@ == old(payload)@,
            final(self).address() == old(self).address(),
            final(self).transactions() == old(self).transactions().push(
                I2cTransaction::Write {
                    address: old(self).address(),
                    bytes: old(payload)@,
                    result: res,
                },
            ),
            final(self).accesses() == old(self).accesses().push(
                Access::Write {
                    register: old(payload)@[0],
                    data: old(payload)@.skip(1),
                    result: res,
                },
            ),
            old(self).wf() ==> final(self).wf(),
            res matches Err(e) ==> e is Comm,
    {
        let outcome = i2c_write(&mut self.i2c, self.address, payload);
        let res = match outcome {
            Ok(()) => Ok(()),
            Err(kind) => Err(Error::Comm(kind)),
        };
        proof {
            let t = I2cTransaction::Write { address: self.address, bytes: payload@, result: res };
            Self::lemma_issue(self.issued@, t);
            self.issued@ = self.issued@.push(t);
        }
        res
    }

    /// Read an u8 register: one transaction that writes `register` to the
    /// device's address and then reads one byte, which is the result.
    pub fn read_register(&mut self, register: u8) -> (res: Result<
        u8,
        Error<embedded_hal::i2c::ErrorKind>,
    >)
        ensures
            final(self).address() == old(self).address(),
            final(self).transactions() == old(self).transactions().push(
                I2cTransaction::WriteRead {
                    address: old(self).address(),
                    bytes: seq![register],
                    len: 1,
                    result: byte_read(res),
                },
            ),
            final(self).accesses() == old(self).accesses().push(
                Access::Read { register, len: 1, result: byte_read(res) },
            ),
            old(self).wf() ==> final(self).wf(),
            res matches Err(e) ==> e is Comm,
    {
        let mut data: [u8; 1] = [0];
        let out: [u8; 1] = [register];
        let outcome = i2c_write_read(&mut self.i2c, self.address, out.as_slice(), &mut data);
        let res = match outcome {
            Ok(()) => Ok(data[0]),
            Err(kind) => Err(Error::Comm(kind)),
        };
        proof {
            let t = I2cTransaction::WriteRead {
                address: self.address,
                bytes: seq![register],
                len: 1,
                result: byte_read(res),
            };
            assert(out@ =~= seq![register]);
            Self::lemma_issue(self.issued@, t);
            self.issued@ = self.issued@.push(t);
        }
        res
    }

    /// Read some data. The first element corresponds to the starting
    /// address; what is read fills the rest of the payload. One transaction
    /// that writes the starting address to the device's address and then
    /// reads as many bytes as the payload holds behind its first.
    pub fn read_data(&mut self, payload: &mut [u8]) -> (res: Result<
        (),
        Error<embedded_hal::i2c::ErrorKind>,
    >)
        requires
            old(payload)@.len() >= 1,
        ensures
            final(payload)@.len() == old(payload)@.len(),
            final(payload)@[0] == old(payload)@[0],
            final(self).address() == old(self).address(),
            final(self).transactions() == old(self).transactions().push(
                I2cTransaction::WriteRead {
                    address: old(self).address(),
                    bytes: seq![old(payload)@[0]],
                    len: (old(payload)@.len() - 1) as nat,
                    result: burst_read(res, final(payload)@.skip(1)),
                },
            ),
            final(self).accesses() == old(self).accesses().push(
                Access::Read {
                    register: old(payload)@[0],
                    len: (old(payload)@.len() - 1) as nat,
                    result: burst_read(res, final(payload)@.skip(1)),
                },
            ),
            old(self).wf() ==> final(self).wf(),
            res matches Err(e) ==> e is Comm,
    {
        let ghost before = payload@;
        let (head, tail) = payload.split_at_mut(1);
        let outcome = i2c_write_read(&mut self.i2c, self.address, head, tail);
        let res = match outcome {
            Ok(()) => Ok(()),
            Err(kind) => Err(Error::Comm(kind)),
        };
        proof {
            assert(payload@ =~= head@ + tail@);
            assert(head@ =~= seq![before[0]]);
            assert(payload@.skip(1) =~= tail@);
            let t = I2cTransaction::WriteRead {
                address: self.address,
                bytes: seq![before[0]],
                len: (before.len() - 1) as nat,
                result: burst_read(res, payload@.skip(1)),
            };
            Self::lemma_issue(self.issued@, t);
            self.issued@ = self.issued@.push(t);
        }
        res
    }
}

impl<SPI> SpiInterface<SPI> {
    /// The device handle.
    pub closed spec fn bus(&self) -> SPI {
        self.spi
    }

    /// The transactions issued so far, oldest first.
    pub closed spec fn transactions(&self) -> Seq<SpiTransaction> {
        self.issued@
    }

    /// The register accesses issued so far, oldest first: one per transaction.
    pub open spec fn accesses(&self) -> Seq<Access<embedded_hal::spi::ErrorKind>> {
        self.transactions().map_values(|t: SpiTransaction| t.access())
    }

    /// Every transfer issued so far, each of them a read, carries the read
    /// mark.
    pub open spec fn wf(&self) -> bool {
        forall|i: int|
            0 <= i < self.transactions().len() && self.transactions()[i] is Transfer ==> (
            #[trigger] self.transactions()[i]).marked()
    }

    /// A new interface, with nothing issued yet.
    pub(crate) fn new(spi: SPI) -> (iface: Self)
        ensures
            iface.bus() == spi,
            iface.transactions() == Seq::<SpiTransaction>::empty(),
            iface.wf(),
    {
        SpiInterface { spi, issued: Ghost(Seq::empty()) }
    }

    /// Gives the device handle back.
    pub(crate) fn release(self) -> (spi: SPI)
        ensures
            spi == self.bus(),
    {
        self.spi
    }

    /// An access follows each transaction.
    proof fn lemma_issue(before: Seq<SpiTransaction>, t: SpiTransaction)
        ensures
            before.push(t).map_values(|t: SpiTransaction| t.access()) == before.map_values(
                |t: SpiTransaction| t.access(),
            ).push(t.access()),
    {
        assert(before.push(t).map_values(|t: SpiTransaction| t.access()) =~= before.map_values(
            |t: SpiTransaction| t.access(),
        ).push(t.access()));
    }
}

/// The address byte that marks a read of `register` on the SPI bus: the
/// address with the highest bit set.
pub open spec fn spec_read_marker(register: u8) -> u8 {
    (register + 0x80) as u8
}

/// Sets the highest bit of a register address.
#[verifier::when_used_as_spec(spec_read_marker)]
pub fn read_marker(register: u8) -> (marker: u8)
    requires
        register < 0x80,
    ensures
        marker == spec_read_marker(register),
        marker == register + 0x80,
{
    assert(register < 0x80 ==> register | 0x80 == register + 0x80) by (bit_vector);
    register | 0x80
}

impl<SPI: embedded_hal::spi::SpiDevice> SpiInterface<SPI> {
    /// Write to an u8 register: one SPI write of the two bytes `register`,
    /// `data`.
    pub fn write_register(&mut self, register: u8, data: u8) -> (res: Result<
        (),
        Error<embedded_hal::spi::ErrorKind>,
    >)
        ensures
            final(self).transactions() == old(self).transactions().push(
                SpiTransaction::Write { bytes: seq![register, data], result: res },
            ),
            final(self).accesses() == old(self).accesses().push(
                Access::Write { register, data: seq![data], result: res },
            ),
            old(self).wf() ==> final(self).wf(),
            res matches Err(e) ==> e is Comm || e is Pin,
    {
        let payload: [u8; 2] = [register, data];
        let res = spi_write(&mut self.spi, payload.as_slice());
        proof {
            let t = SpiTransaction::Write { bytes: seq![register, data], result: res };
            assert(payload@ =~= seq![register, data]);
            assert(seq![register, data].skip(1) =~= seq![data]);
            Self::lemma_issue(self.issued@, t);
            self.issued@ = self.issued@.push(t);
        }
        res
    }

    /// Write data. The first element corresponds to the starting address.
    /// One SPI write of the whole payload.
    pub fn write_data(&mut self, payload: &mut [u8]) -> (res: Result<
        (),
        Error<embedded_hal::spi::ErrorKind>,
    >)
        requires
            old(payload)@.len() >= 1,
        ensures
            final(payload)@ == old(payload)@,
            final(self).transactions() == old(self).transactions().push(
                SpiTransaction::Write { bytes: old(payload)@, result: res },
            ),
            final(self).accesses() == old(self).accesses().push(
                Access::Write {
                    register: old(payload)@[0],
                    data: old(payload)@.skip(1),
                    result: res,
                },
            ),
            old(self).wf() ==> final(self).wf(),
            res matches Err(e) ==> e is Comm || e is Pin,
    {
        let res = spi_write(&mut self.spi, payload);
        proof {
            let t = SpiTransaction::Write { bytes: payload@, result: res };
            Self::lemma_issue(self.issued@, t);
            self.issued@ = self.issued@.push(t);
        }
        res
    }

    /// Read an u8 register: one SPI transfer of two bytes, the first of
    /// them the read marker of `register`. The second byte that comes in is
    /// the result.
    pub fn read_register(&mut self, register: u8) -> (res: Result<
        u8,
        Error<embedded_hal::spi::ErrorKind>,
    >)
        requires
            register < 0x80,
        ensures
            final(self).transactions().len() == old(self).transactions().len() + 1,
            final(self).transactions().drop_last() == old(self).transactions(),
            final(self).transactions().last() matches SpiTransaction::Transfer { sent, result }
                && sent == seq![read_marker(register), 0u8] && byte_read(res) == after_address(
                result,
            ),
            final(self).accesses() == old(self).accesses().push(
                Access::Read { register, len: 1, result: byte_read(res) },
            ),
            old(self).wf() ==> final(self).wf(),
            res matches Err(e) ==> e is Comm || e is Pin,
    {
        let mut data: [u8; 2] = [read_marker(register), 0];
        let ghost sent = data@;
        let outcome = spi_transfer_in_place(&mut self.spi, &mut data);
        let res = match outcome {
            Ok(()) => Ok(data[1]),
            Err(e) => Err(e),
        };
        proof {
            let t = SpiTransaction::Transfer { sent, result: burst_read(outcome, data@) };
            assert(sent =~= seq![read_marker(register), 0u8]);
            assert(data@.skip(1) =~= seq![data@[1]]);
            Self::lemma_issue(self.issued@, t);
            assert(self.issued@.push(t).drop_last() =~= self.issued@);
            self.issued@ = self.issued@.push(t);
        }
        res
    }

    /// Read some data. The first element corresponds to the starting
    /// address; what is read fills the rest of the payload. One SPI transfer
    /// of the whole payload, its first byte replaced by the read marker of
    /// the starting address. The first byte that comes in, while the address
    /// goes out, is no data.
    pub fn read_data(&mut self, payload: &mut [u8]) -> (res: Result<
        (),
        Error<embedded_hal::spi::ErrorKind>,
    >)
        requires
            old(payload)@.len() >= 1,
            old(payload)@[0] < 0x80,
        ensures
            final(payload)@.len() == old(payload)@.len(),
            final(self).transactions() == old(self).transactions().push(
                SpiTransaction::Transfer {
                    sent: old(payload)@.update(0, read_marker(old(payload)@[0])),
                    result: burst_read(res, final(payload)@),
                },
            ),
            final(self).accesses() == old(self).accesses().push(
                Access::Read {
                    register: old(payload)@[0],
                    len: (old(payload)@.len() - 1) as nat,
                    result: burst_read(res, final(payload)@.skip(1)),
                },
            ),
            old(self).wf() ==> final(self).wf(),
            res matches Err(e) ==> e is Comm || e is Pin,
    {
        let marker = read_marker(payload[0]);
        payload[0] = marker;
        let ghost sent = payload@;
        let res = spi_transfer_in_place(&mut self.spi, payload);
        proof {
            let t = SpiTransaction::Transfer { sent, result: burst_read(res, payload@) };
            Self::lemma_issue(self.issued@, t);
            self.issued@ = self.issued@.push(t);
        }
        res
    }
}

} // verus!
