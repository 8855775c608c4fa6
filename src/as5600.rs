//! The driver: each operation is one or two bus transactions, composed with
//! the register map, the codecs and the burn rules.

use vstd::prelude::*;

use embedded_hal::delay::DelayNs;
use embedded_hal::i2c::ErrorKind;
use embedded_hal::i2c::I2c;

use crate::configuration::error::Error as ConfigurationError;
use crate::configuration::{Configuration, RESERVED_BITS};
use crate::error::Error;
use crate::history::{appended, extends, is_read, one_more, write_frame, Transaction};
use crate::persistence::{angle_config_guard, position_counter_guard, position_guard};
use crate::register::{Register, BURN_ANGLE, BURN_SETTING, DEFAULT_I2C_ADDRESS};
use crate::status::Status;
use crate::wire::{from_be_bytes, low_12_bits, spec_from_be, to_be_bytes};

verus! {

/// As5600 driver instance.
pub struct As5600<I2C> {
    address: u8,
    bus: I2C,
    history: Ghost<Seq<Transaction>>,
}

impl<I2C> As5600<I2C> {
    /// The bus address of the device.
    pub closed spec fn spec_address(&self) -> u8 {
        self.address
    }

    /// The bus that the driver owns.
    pub closed spec fn spec_bus(&self) -> I2C {
        self.bus
    }

    /// The transactions issued through this driver, oldest first.
    pub closed spec fn spec_history(&self) -> Seq<Transaction> {
        self.history@
    }
}

/// The status that a successful read of the status register reports, as the
/// driver returns it.
pub open spec fn status_result(read: Seq<u8>) -> Result<Status, Error> {
    match Status::spec_decode(read[0]) {
        Ok(s) => Ok(s),
        Err(e) => Err(Error::Status(e)),
    }
}

/// The configuration that a successful read of the configuration register
/// holds, as the driver returns it.
pub open spec fn config_result(read: Seq<u8>) -> Result<Configuration, Error> {
    match Configuration::spec_decode(spec_from_be(read) as u16) {
        Ok(c) => Ok(c),
        Err(e) => Err(Error::Configuration(e)),
    }
}

/// The operation failed because a bus transaction failed.
pub open spec fn bus_failure<T>(r: Result<T, Error>) -> bool {
    r is Err && r->Err_0 is Communication
}

/// The kind of bus failure that `r` carries, if it is one.
pub open spec fn bus_error<T>(r: Result<T, Error>) -> Option<ErrorKind> {
    match r {
        Err(Error::Communication(kind)) => Some(kind),
        _ => None,
    }
}

/// The transaction `t` failed, and `r` is that failure with the kind the bus
/// reported.
pub open spec fn failed_with<T>(r: Result<T, Error>, t: Transaction) -> bool {
    t.error() is Some && r == Err::<T, Error>(Error::Communication(t.error()->Some_0))
}

/// `r` succeeds exactly when the transaction `t` did, and otherwise carries
/// its failure.
pub open spec fn reports<T>(r: Result<T, Error>, t: Transaction) -> bool {
    if t.ok() {
        r is Ok
    } else {
        failed_with(r, t)
    }
}

/// The burn counter in a successful read of the ZMCO register.
pub open spec fn zmco_of(read: Seq<u8>) -> u8 {
    read[0] & 3
}

/// What setting the configuration did, over the transactions `ops` it issued:
/// it read the register, and if that succeeded it wrote back the factory bits
/// it read with the encoding of `config` below them.
pub open spec fn set_config_outcome(ops: Seq<Transaction>, address: u8, config: Configuration, r: Result<(), Error>) -> bool {
    let conf_read = ops[0];
    let current = spec_from_be(conf_read->read) as u16;
    let write = Transaction::Write {
        address,
        written: write_frame(Register::Conf.spec_address(), (current & RESERVED_BITS) | config.spec_encode()),
        error: bus_error(r),
    };
    &&& ops.len() >= 1
    &&& is_read(conf_read, address, Register::Conf.spec_address(), 2)
    &&& if !conf_read.ok() {
        ops == seq![conf_read] && failed_with(r, conf_read)
    } else {
        &&& ops == seq![conf_read, write]
        &&& r is Err ==> bus_failure(r)
    }
}

/// What a burn of the maximum angle and configuration did, over the
/// transactions `ops` it issued: it read the burn counter, and only if that
/// read zero did it write the burn command, then wait 1 ms.
pub open spec fn angle_config_burn_outcome(ops: Seq<Transaction>, address: u8, r: Result<(), Error>) -> bool {
    let zmco_read = ops[0];
    let burn = Transaction::Write {
        written: seq![Register::Burn.spec_address(), BURN_SETTING],
        address,
        error: bus_error(r),
    };
    &&& ops.len() >= 1
    &&& is_read(zmco_read, address, Register::Zmco.spec_address(), 1)
    &&& if !zmco_read.ok() {
        ops == seq![zmco_read] && failed_with(r, zmco_read)
    } else if zmco_of(zmco_read->read) != 0 {
        ops == seq![zmco_read] && r == Err::<(), Error>(Error::MangConfigPersistenceExhausted)
    } else if r is Ok {
        ops == seq![zmco_read, burn, Transaction::Delay { ms: 1 }]
    } else {
        ops == seq![zmco_read, burn] && bus_failure(r)
    }
}

/// What a burn of the positions did, over the transactions `ops` it issued:
/// it read the burn counter; only if that was below three did it read the
/// status; and only if that reported a detected magnet did it write the burn
/// command, then wait 1 ms.
pub open spec fn position_burn_outcome(ops: Seq<Transaction>, address: u8, r: Result<(), Error>) -> bool {
    let zmco_read = ops[0];
    let status_read = ops[1];
    let status = status_result(status_read->read);
    let burn = Transaction::Write {
        written: seq![Register::Burn.spec_address(), BURN_ANGLE],
        address,
        error: bus_error(r),
    };
    &&& ops.len() >= 1
    &&& is_read(zmco_read, address, Register::Zmco.spec_address(), 1)
    &&& if !zmco_read.ok() {
        ops == seq![zmco_read] && failed_with(r, zmco_read)
    } else if zmco_of(zmco_read->read) >= 3 {
        ops == seq![zmco_read] && r == Err::<(), Error>(Error::MaximumPositionPersistsReached)
    } else {
        &&& ops.len() >= 2
        &&& is_read(status_read, address, Register::Status.spec_address(), 1)
        &&& if !status_read.ok() {
            ops == seq![zmco_read, status_read] && failed_with(r, status_read)
        } else if status is Err {
            ops == seq![zmco_read, status_read] && r == Err::<(), Error>(status->Err_0)
        } else if status->Ok_0 != Status::MagnetDetected {
            ops == seq![zmco_read, status_read] && r == Err::<(), Error>(Error::MagnetRequired)
        } else if r is Ok {
            ops == seq![zmco_read, status_read, burn, Transaction::Delay { ms: 1 }]
        } else {
            ops == seq![zmco_read, status_read, burn] && bus_failure(r)
        }
    }
}

/// Relies on `I2c::write_read` of embedded_hal: writes `register` to the
/// device at the driver's address, then reads `N` bytes in the same
/// transaction; a failure is carried as its `i2c::Error::kind`. The driver's
/// record gains that transaction.
#[verifier::external_body]
fn bus_write_read<I: I2c, const N: usize>(dev: &mut As5600<I>, register: u8) -> (r: Result<[u8; N], ErrorKind>)
    ensures
        final(dev).spec_address() == old(dev).spec_address(),
        final(dev).spec_history() == old(dev).spec_history().push(
            Transaction::WriteRead {
                address: old(dev).spec_address(),
                register,
                read: match r {
                    Ok(b) => b@,
                    Err(_) => Seq::empty(),
                },
                error: match r {
                    Ok(_) => None,
                    Err(kind) => Some(kind),
                },
            },
        ),
{
    let mut buffer = [0u8; N];
    match dev.bus.write_read(dev.address, &[register], &mut buffer) {
        Ok(()) => Ok(buffer),
        Err(e) => Err(embedded_hal::i2c::Error::kind(&e)),
    }
}

/// Relies on `I2c::write` of embedded_hal: writes `bytes` to the device at the
/// driver's address; a failure is carried as its `i2c::Error::kind`. The
/// driver's record gains that transaction.
#[verifier::external_body]
fn bus_write<I: I2c, const N: usize>(dev: &mut As5600<I>, bytes: [u8; N]) -> (r: Result<(), ErrorKind>)
    ensures
        final(dev).spec_address() == old(dev).spec_address(),
        final(dev).spec_history() == old(dev).spec_history().push(
            Transaction::Write {
                address: old(dev).spec_address(),
                written: bytes@,
                error: match r {
                    Ok(_) => None,
                    Err(kind) => Some(kind),
                },
            },
        ),
{
    match dev.bus.write(dev.address, &bytes) {
        Ok(()) => Ok(()),
        Err(e) => Err(embedded_hal::i2c::Error::kind(&e)),
    }
}

/// Relies on `DelayNs::delay_ms` of embedded_hal: blocks for at least `ms`
/// milliseconds. The driver's record gains that wait.
#[verifier::external_body]
fn bus_delay_ms<I, D: DelayNs>(dev: &mut As5600<I>, delay: &mut D, ms: u32)
    ensures
        final(dev).spec_address() == old(dev).spec_address(),
        final(dev).spec_history() == old(dev).spec_history().push(Transaction::Delay { ms }),
{
    delay.delay_ms(ms)
}

impl<I: I2c> As5600<I> {
    /// Create a new As5600 driver instance at the default address.
    pub fn new(bus: I) -> (r: Self)
        ensures
            r.spec_address() == DEFAULT_I2C_ADDRESS,
            r.spec_bus() == bus,
            r.spec_history() == Seq::<Transaction>::empty(),
    {
        Self::with_address(DEFAULT_I2C_ADDRESS, bus)
    }

    /// Create a new As5600 driver instance at the given address.
    pub fn with_address(address: u8, bus: I) -> (r: Self)
        ensures
            r.spec_address() == address,
            r.spec_bus() == bus,
            r.spec_history() == Seq::<Transaction>::empty(),
    {
        Self { address, bus, history: Ghost(Seq::empty()) }
    }

    /// Release the bus, consuming the driver.
    pub fn release(self) -> (r: I)
        ensures
            r == self.spec_bus(),
    {
        self.bus
    }

    /// Write-reads the `N` bytes of the given register.
    fn read_bytes<const N: usize>(&mut self, register: Register) -> (r: Result<[u8; N], Error>)
        ensures
            final(self).spec_address() == old(self).spec_address(),
            one_more(old(self).spec_history(), final(self).spec_history()),
            final(self).spec_history().last() == (Transaction::WriteRead {
                register: register.spec_address(),
                address: old(self).spec_address(),
                error: bus_error(r),
                read: match r {
                    Ok(b) => b@,
                    Err(_) => Seq::empty(),
                },
            }),
            r matches Err(e) ==> e is Communication,
    {
        let ghost before = self.history@;
        let result = bus_write_read::<I, N>(self, register.address());
        proof {
            assert(self.history@.drop_last() =~= before);
        }
        match result {
            Ok(buffer) => Ok(buffer),
            Err(kind) => Err(Error::Communication(kind)),
        }
    }

    /// Write-reads the 2 bytes of the given register, most significant first.
    fn read_u16(&mut self, register: Register) -> (r: Result<u16, Error>)
        ensures
            final(self).spec_address() == old(self).spec_address(),
            one_more(old(self).spec_history(), final(self).spec_history()),
            is_read(final(self).spec_history().last(), old(self).spec_address(), register.spec_address(), 2),
            reports(r, final(self).spec_history().last()),
            r matches Ok(v) ==> v as int == spec_from_be(final(self).spec_history().last()->read),
            r matches Err(e) ==> e is Communication,
    {
        let buffer = self.read_bytes::<2>(register)?;
        Ok(from_be_bytes(buffer))
    }

    /// Write-reads the single byte of the given register.
    fn read_u8(&mut self, register: Register) -> (r: Result<u8, Error>)
        ensures
            final(self).spec_address() == old(self).spec_address(),
            one_more(old(self).spec_history(), final(self).spec_history()),
            is_read(final(self).spec_history().last(), old(self).spec_address(), register.spec_address(), 1),
            reports(r, final(self).spec_history().last()),
            r matches Ok(v) ==> v == final(self).spec_history().last()->read[0],
            r matches Err(e) ==> e is Communication,
    {
        let buffer = self.read_bytes::<1>(register)?;
        Ok(buffer[0])
    }

    /// Writes `bytes` to the device.
    fn write_bytes<const N: usize>(&mut self, bytes: [u8; N]) -> (r: Result<(), Error>)
        ensures
            final(self).spec_address() == old(self).spec_address(),
            final(self).spec_history() == old(self).spec_history().push(Transaction::Write { address: old(self).spec_address(), written: bytes@, error: bus_error(r) }),
            r matches Err(e) ==> e is Communication,
    {
        let result = bus_write(self, bytes);
        match result {
            Ok(()) => Ok(()),
            Err(kind) => Err(Error::Communication(kind)),
        }
    }

    /// Writes the given register's address, then `value` most significant byte first.
    fn write_u16(&mut self, register: Register, value: u16) -> (r: Result<(), Error>)
        ensures
            final(self).spec_address() == old(self).spec_address(),
            final(self).spec_history() == old(self).spec_history().push(
                Transaction::Write {
                    address: old(self).spec_address(),
                    written: write_frame(register.spec_address(), value),
                    error: bus_error(r),
                },
            ),
            r matches Err(e) ==> e is Communication,
    {
        let bytes = to_be_bytes(value);
        let frame: [u8; 3] = [register.address(), bytes[0], bytes[1]];
        assert(frame@ =~= write_frame(register.spec_address(), value));
        self.write_bytes(frame)
    }

    /// Reads a 12-bit register: its top 4 bits are cleared.
    fn read_u12(&mut self, register: Register) -> (r: Result<u16, Error>)
        ensures
            final(self).spec_address() == old(self).spec_address(),
            one_more(old(self).spec_history(), final(self).spec_history()),
            is_read(final(self).spec_history().last(), old(self).spec_address(), register.spec_address(), 2),
            reports(r, final(self).spec_history().last()),
            r matches Ok(v) ==> v as int == spec_from_be(final(self).spec_history().last()->read) % 4096,
            r matches Ok(v) ==> v & 0xF000 == 0,
            r matches Err(e) ==> e is Communication,
    {
        let raw = self.read_u16(register)?;
        Ok(low_12_bits(raw))
    }

    /// Get value of register `RAW_ANGLE`.
    pub fn raw_angle(&mut self) -> (r: Result<u16, Error>)
        ensures
            final(self).spec_address() == old(self).spec_address(),
            one_more(old(self).spec_history(), final(self).spec_history()),
            is_read(final(self).spec_history().last(), old(self).spec_address(), Register::RawAngle.spec_address(), 2),
            reports(r, final(self).spec_history().last()),
            r matches Ok(v) ==> v as int == spec_from_be(final(self).spec_history().last()->read) % 4096,
            r matches Ok(v) ==> v & 0xF000 == 0,
            r matches Err(e) ==> e is Communication,
    {
        self.read_u12(Register::RawAngle)
    }

    /// Get value of register `ANGLE`.
    pub fn angle(&mut self) -> (r: Result<u16, Error>)
        ensures
            final(self).spec_address() == old(self).spec_address(),
            one_more(old(self).spec_history(), final(self).spec_history()),
            is_read(final(self).spec_history().last(), old(self).spec_address(), Register::Angle.spec_address(), 2),
            reports(r, final(self).spec_history().last()),
            r matches Ok(v) ==> v as int == spec_from_be(final(self).spec_history().last()->read) % 4096,
            r matches Ok(v) ==> v & 0xF000 == 0,
            r matches Err(e) ==> e is Communication,
    {
        self.read_u12(Register::Angle)
    }

    /// Get value of register `ZMCO`: how often the positions were burned.
    pub fn zmco(&mut self) -> (r: Result<u8, Error>)
        ensures
            final(self).spec_address() == old(self).spec_address(),
            one_more(old(self).spec_history(), final(self).spec_history()),
            is_read(final(self).spec_history().last(), old(self).spec_address(), Register::Zmco.spec_address(), 1),
            reports(r, final(self).spec_history().last()),
            r matches Ok(z) ==> z == zmco_of(final(self).spec_history().last()->read) && z <= 3,
            r matches Err(e) ==> e is Communication,
    {
        let byte = self.read_u8(Register::Zmco)?;
        let z = byte & 0b0000_0011;
        assert(byte & 3 <= 3) by (bit_vector);
        Ok(z)
    }

    /// Get value of register `STATUS` and parse it.
    pub fn magnet_status(&mut self) -> (r: Result<Status, Error>)
        ensures
            final(self).spec_address() == old(self).spec_address(),
            one_more(old(self).spec_history(), final(self).spec_history()),
            is_read(final(self).spec_history().last(), old(self).spec_address(), Register::Status.spec_address(), 1),
            final(self).spec_history().last().ok() ==> r == status_result(final(self).spec_history().last()->read),
            !final(self).spec_history().last().ok() ==> failed_with(r, final(self).spec_history().last()),
    {
        let byte = self.read_u8(Register::Status)?;
        match Status::decode([byte]) {
            Ok(status) => Ok(status),
            Err(e) => Err(Error::Status(e)),
        }
    }

    /// Get value of register `ZPOS`.
    pub fn zero_position(&mut self) -> (r: Result<u16, Error>)
        ensures
            final(self).spec_address() == old(self).spec_address(),
            one_more(old(self).spec_history(), final(self).spec_history()),
            is_read(final(self).spec_history().last(), old(self).spec_address(), Register::Zpos.spec_address(), 2),
            reports(r, final(self).spec_history().last()),
            r matches Ok(v) ==> v as int == spec_from_be(final(self).spec_history().last()->read) % 4096,
            r matches Ok(v) ==> v & 0xF000 == 0,
            r matches Err(e) ==> e is Communication,
    {
        self.read_u12(Register::Zpos)
    }

    /// Set value of register `ZPOS`; only the low 12 bits of `bytes` are written.
    pub fn set_zero_position(&mut self, bytes: u16) -> (r: Result<(), Error>)
        ensures
            final(self).spec_address() == old(self).spec_address(),
            final(self).spec_history() == old(self).spec_history().push(
                Transaction::Write {
                    written: write_frame(Register::Zpos.spec_address(), bytes & 0x0FFF),
                    address: old(self).spec_address(),
                    error: bus_error(r),
                },
            ),
            r matches Err(e) ==> e is Communication,
    {
        self.write_u16(Register::Zpos, low_12_bits(bytes))
    }

    /// Get value of register `MPOS`.
    pub fn maximum_position(&mut self) -> (r: Result<u16, Error>)
        ensures
            final(self).spec_address() == old(self).spec_address(),
            one_more(old(self).spec_history(), final(self).spec_history()),
            is_read(final(self).spec_history().last(), old(self).spec_address(), Register::Mpos.spec_address(), 2),
            reports(r, final(self).spec_history().last()),
            r matches Ok(v) ==> v as int == spec_from_be(final(self).spec_history().last()->read) % 4096,
            r matches Ok(v) ==> v & 0xF000 == 0,
            r matches Err(e) ==> e is Communication,
    {
        self.read_u12(Register::Mpos)
    }

    /// Set value of register `MPOS`; only the low 12 bits of `bytes` are written.
    pub fn set_maximum_position(&mut self, bytes: u16) -> (r: Result<(), Error>)
        ensures
            final(self).spec_address() == old(self).spec_address(),
            final(self).spec_history() == old(self).spec_history().push(
                Transaction::Write {
                    written: write_frame(Register::Mpos.spec_address(), bytes & 0x0FFF),
                    address: old(self).spec_address(),
                    error: bus_error(r),
                },
            ),
            r matches Err(e) ==> e is Communication,
    {
        self.write_u16(Register::Mpos, low_12_bits(bytes))
    }

    /// Get value of register `MANG`.
    pub fn maximum_angle(&mut self) -> (r: Result<u16, Error>)
        ensures
            final(self).spec_address() == old(self).spec_address(),
            one_more(old(self).spec_history(), final(self).spec_history()),
            is_read(final(self).spec_history().last(), old(self).spec_address(), Register::Mang.spec_address(), 2),
            reports(r, final(self).spec_history().last()),
            r matches Ok(v) ==> v as int == spec_from_be(final(self).spec_history().last()->read) % 4096,
            r matches Ok(v) ==> v & 0xF000 == 0,
            r matches Err(e) ==> e is Communication,
    {
        self.read_u12(Register::Mang)
    }

    /// Set value of register `MANG`; only the low 12 bits of `bytes` are written.
    pub fn set_maximum_angle(&mut self, bytes: u16) -> (r: Result<(), Error>)
        ensures
            final(self).spec_address() == old(self).spec_address(),
            final(self).spec_history() == old(self).spec_history().push(
                Transaction::Write {
                    written: write_frame(Register::Mang.spec_address(), bytes & 0x0FFF),
                    address: old(self).spec_address(),
                    error: bus_error(r),
                },
            ),
            r matches Err(e) ==> e is Communication,
    {
        self.write_u16(Register::Mang, low_12_bits(bytes))
    }

    /// Get value of register `CONF` and parse it.
    pub fn config(&mut self) -> (r: Result<Configuration, Error>)
        ensures
            final(self).spec_address() == old(self).spec_address(),
            one_more(old(self).spec_history(), final(self).spec_history()),
            is_read(final(self).spec_history().last(), old(self).spec_address(), Register::Conf.spec_address(), 2),
            final(self).spec_history().last().ok() ==> r == config_result(final(self).spec_history().last()->read),
            !final(self).spec_history().last().ok() ==> failed_with(r, final(self).spec_history().last()),
            r matches Err(e) ==> e is Communication
                || e == Error::Configuration(ConfigurationError::OutputStageBitPattern(3)),
    {
        let raw = self.read_u16(Register::Conf)?;
        match Configuration::decode(raw) {
            Ok(c) => Ok(c),
            Err(e) => Err(Error::Configuration(e)),
        }
    }

    /// Set value of register `CONF`. The register is read first, and its two
    /// factory bits are written back unchanged above the new configuration.
    pub fn set_config(&mut self, config: Configuration) -> (r: Result<(), Error>)
        ensures
            final(self).spec_address() == old(self).spec_address(),
            extends(old(self).spec_history(), final(self).spec_history()),
            set_config_outcome(appended(old(self).spec_history(), final(self).spec_history()), old(self).spec_address(), config, r),
    {
        let ghost before = self.history@;
        let current = self.read_u16(Register::Conf);
        let ghost h1 = self.history@;
        proof {
            assert(appended(before, h1) =~= seq![h1.last()]);
            assert(h1.subrange(0, before.len() as int) =~= before);
        }
        let current = current?;
        let value = config.merged_with(current);
        let r = self.write_u16(Register::Conf, value);
        proof {
            assert(appended(before, self.history@) =~= seq![h1.last(), self.history@.last()]);
            assert(self.history@.subrange(0, before.len() as int) =~= before);
        }
        r
    }

    /// Get value of register `AGC`.
    /// Its range depends on the supply voltage (5V or 3v3).
    pub fn automatic_gain_control(&mut self) -> (r: Result<u8, Error>)
        ensures
            final(self).spec_address() == old(self).spec_address(),
            one_more(old(self).spec_history(), final(self).spec_history()),
            is_read(final(self).spec_history().last(), old(self).spec_address(), Register::Agc.spec_address(), 1),
            reports(r, final(self).spec_history().last()),
            r matches Ok(v) ==> v == final(self).spec_history().last()->read[0],
            r matches Err(e) ==> e is Communication,
    {
        self.read_u8(Register::Agc)
    }

    /// Get value of register `MAGNITUDE`.
    pub fn magnitude(&mut self) -> (r: Result<u16, Error>)
        ensures
            final(self).spec_address() == old(self).spec_address(),
            one_more(old(self).spec_history(), final(self).spec_history()),
            is_read(final(self).spec_history().last(), old(self).spec_address(), Register::Magnitude.spec_address(), 2),
            reports(r, final(self).spec_history().last()),
            r matches Ok(v) ==> v as int == spec_from_be(final(self).spec_history().last()->read) % 4096,
            r matches Ok(v) ==> v & 0xF000 == 0,
            r matches Err(e) ==> e is Communication,
    {
        self.read_u12(Register::Magnitude)
    }

    /// Writes `command` to the burn register, then waits 1 ms for the burn to
    /// settle; there is no wait if the write failed.
    fn burn<D: DelayNs>(&mut self, delay: &mut D, command: u8) -> (r: Result<(), Error>)
        ensures
            final(self).spec_address() == old(self).spec_address(),
            r is Ok ==> final(self).spec_history() == old(self).spec_history().push(
                Transaction::Write { address: old(self).spec_address(), written: seq![Register::Burn.spec_address(), command], error: None },
            ).push(Transaction::Delay { ms: 1 }),
            r is Err ==> final(self).spec_history() == old(self).spec_history().push(
                Transaction::Write { address: old(self).spec_address(), written: seq![Register::Burn.spec_address(), command], error: bus_error(r) },
            ),
            r matches Err(e) ==> e is Communication,
    {
        let frame: [u8; 2] = [Register::Burn.address(), command];
        assert(frame@ =~= seq![Register::Burn.spec_address(), command]);
        self.write_bytes(frame)?;
        bus_delay_ms(self, delay, 1);
        Ok(())
    }

    /// Burn maximum angle and config register.
    /// Only proceeds if the positions (MPOS and ZPOS) have never been burned:
    /// the burn counter is read first, and the burn command is written only
    /// if it reads zero.
    pub fn persist_maximum_angle_and_config_settings<D: DelayNs>(&mut self, delay: &mut D) -> (r:
        Result<(), Error>)
        ensures
            final(self).spec_address() == old(self).spec_address(),
            extends(old(self).spec_history(), final(self).spec_history()),
            angle_config_burn_outcome(appended(old(self).spec_history(), final(self).spec_history()), old(self).spec_address(), r),
    {
        let ghost before = self.history@;
        let zmco = self.zmco();
        let ghost h1 = self.history@;
        let ghost zmco_read = h1.last();
        proof {
            assert(appended(before, h1) =~= seq![zmco_read]);
            assert(h1.subrange(0, before.len() as int) =~= before);
        }
        let zmco = zmco?;
        angle_config_guard(zmco)?;
        let r = self.burn(delay, BURN_SETTING);
        proof {
            let h = self.history@;
            assert(h.subrange(0, before.len() as int) =~= before);
            if r is Ok {
                assert(appended(before, h) =~= seq![zmco_read, h[h.len() - 2], h.last()]);
            } else {
                assert(appended(before, h) =~= seq![zmco_read, h.last()]);
            }
        }
        r
    }

    /// Burn zero position and maximum position, if ZMCO permits it and a magnet
    /// is detected. The counter is read and checked first; only then is the
    /// status read and checked, and only then is the burn command written.
    pub fn persist_position_settings<D: DelayNs>(&mut self, delay: &mut D) -> (r: Result<(), Error>)
        ensures
            final(self).spec_address() == old(self).spec_address(),
            extends(old(self).spec_history(), final(self).spec_history()),
            position_burn_outcome(appended(old(self).spec_history(), final(self).spec_history()), old(self).spec_address(), r),
    {
        let ghost before = self.history@;
        let zmco = self.zmco();
        let ghost h1 = self.history@;
        let ghost zmco_read = h1.last();
        proof {
            assert(appended(before, h1) =~= seq![zmco_read]);
            assert(h1.subrange(0, before.len() as int) =~= before);
        }
        let zmco = zmco?;
        position_counter_guard(zmco)?;
        let status = self.magnet_status();
        let ghost h2 = self.history@;
        let ghost status_read = h2.last();
        proof {
            assert(appended(before, h2) =~= seq![zmco_read, status_read]);
            assert(h2.subrange(0, before.len() as int) =~= before);
        }
        let status = status?;
        position_guard(zmco, status)?;
        let r = self.burn(delay, BURN_ANGLE);
        proof {
            let h = self.history@;
            assert(h.subrange(0, before.len() as int) =~= before);
            if r is Ok {
                assert(appended(before, h) =~= seq![zmco_read, status_read, h[h.len() - 2], h.last()]);
            } else {
                assert(appended(before, h) =~= seq![zmco_read, status_read, h.last()]);
            }
        }
        r
    }
}

} // verus!
