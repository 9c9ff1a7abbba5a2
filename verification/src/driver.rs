//! The driver facade: typed accessors for every register and the two guarded
//! persistence ("burn") operations.
//!
//! Every contract is stated over the bus transaction history of the
//! underlying handle: a successful read appends exactly one write-then-read
//! transaction, a successful write appends exactly one write transaction, and
//! the persistence guards append the burn command only when their
//! preconditions, re-read fresh from the device, hold.

use crate::bus::DelayProvider;
use crate::bus::I2cBus;
use crate::bus::Transaction;
use crate::configuration::Configuration;
use crate::constants::DEFAULT_I2C_ADDRESS;
use crate::error::Error;
use crate::register::Register;
use crate::status::Status;
use vstd::prelude::*;

verus! {

/// The 16-bit word read as two big-endian bytes.
pub open spec fn spec_word_of(hi: u8, lo: u8) -> u16 {
    ((hi as u16) << 8) | (lo as u16)
}

/// The high byte of a 16-bit word in big-endian order.
pub open spec fn spec_be_hi(word: u16) -> u8 {
    (word >> 8) as u8
}

/// The low byte of a 16-bit word in big-endian order.
pub open spec fn spec_be_lo(word: u16) -> u8 {
    word as u8
}

/// A 16-bit word restricted to its low 12 bits.
pub open spec fn spec_mask12(word: u16) -> u16 {
    word & 0x0FFF
}

/// The big-endian split of a word is the inverse of assembling it.
pub proof fn lemma_word_be_bytes(hi: u8, lo: u8)
    ensures
        spec_be_hi(spec_word_of(hi, lo)) == hi,
        spec_be_lo(spec_word_of(hi, lo)) == lo,
{
    assert(((((hi as u16) << 8) | (lo as u16)) >> 8) as u8 == hi && ((((hi as u16) << 8) | (
    lo as u16))) as u8 == lo) by (bit_vector);
}

/// Assemble a 16-bit word from two big-endian bytes.
pub fn word_from_be_bytes(hi: u8, lo: u8) -> (word: u16)
    ensures
        word == spec_word_of(hi, lo),
{
    ((hi as u16) << 8) | (lo as u16)
}

/// Restrict a 16-bit word to its low 12 bits; the top 4 bits of a 12-bit
/// register word are undefined and must be discarded, never surfaced.
pub fn mask_to_12_bits(word: u16) -> (masked: u16)
    ensures
        masked == spec_mask12(word),
        masked < 0x1000,
{
    proof {
        assert(word & 0x0FFF < 0x1000) by (bit_vector);
    }
    word & 0x0FFF
}

/// The write-then-read transaction that reads one byte of `register`.
pub open spec fn read_byte_tx(device: u8, register: Register, byte: u8) -> Transaction {
    Transaction::WriteRead {
        device,
        request: seq![register.spec_address()],
        response: seq![byte],
    }
}

/// The write-then-read transaction that reads the 16-bit word of `register`
/// as two big-endian bytes.
pub open spec fn read_word_tx(device: u8, register: Register, word: u16) -> Transaction {
    Transaction::WriteRead {
        device,
        request: seq![register.spec_address()],
        response: seq![spec_be_hi(word), spec_be_lo(word)],
    }
}

/// The write transaction that writes the 16-bit word of `register` as two
/// big-endian bytes after the address byte.
pub open spec fn write_word_tx(device: u8, register: Register, word: u16) -> Transaction {
    Transaction::Write {
        device,
        payload: seq![register.spec_address(), spec_be_hi(word), spec_be_lo(word)],
    }
}

/// The write transaction that issues a burn command byte to the burn
/// register.
pub open spec fn burn_tx(device: u8, command: u8) -> Transaction {
    Transaction::Write { device, payload: seq![Register::Burn.spec_address(), command] }
}

/// Merge the reserved bits of a freshly read configuration word into a newly
/// encoded one: the read-modify-write policy for writing the configuration
/// register, so that factory data in the two high bits is never overwritten.
pub fn merge_reserved_bits(encoded: u16, current: u16) -> (word: u16)
    ensures
        word == encoded | (current & 0xC000),
{
    encoded | (current & 0xC000)
}

/// Decide a request to burn the maximum angle and configuration registers,
/// from a fresh read of the dedicated persist counter: the operation is
/// available exactly once, so any nonzero count exhausts it.
pub fn config_persist_decision<E>(zmco: u8) -> (decision: Result<(), Error<E>>)
    ensures
        decision is Ok <==> zmco == 0,
        zmco != 0 ==> decision == Err::<(), Error<E>>(Error::MangConfigPersistenceExhausted),
{
    if zmco != 0 {
        Err(Error::MangConfigPersistenceExhausted)
    } else {
        Ok(())
    }
}

/// Decide a request to burn the position settings, from fresh reads of the
/// persist counter and the magnet status: at most three burns are allowed,
/// and a detected magnet is required.
pub fn position_persist_decision<E>(zmco: u8, status: Status) -> (decision: Result<(), Error<E>>)
    ensures
        decision is Ok <==> (zmco < 3 && status == Status::MagnetDetected),
        zmco >= 3 ==> decision == Err::<(), Error<E>>(Error::MaximumPositionPersistsReached),
        zmco < 3 && status != Status::MagnetDetected ==> decision == Err::<(), Error<E>>(
            Error::MagnetRequired,
        ),
{
    if zmco >= 3 {
        return Err(Error::MaximumPositionPersistsReached);
    }
    if status != Status::MagnetDetected {
        return Err(Error::MagnetRequired);
    }
    Ok(())
}

/// Driver instance for the device, owning the bus handle exclusively.
pub struct As5600<I> {
    address: u8,
    bus: I,
}

impl<I: I2cBus> As5600<I> {
    /// The 7-bit bus address this driver talks to.
    pub closed spec fn spec_device_address(&self) -> u8 {
        self.address
    }

    /// The transactions completed on the owned bus handle, oldest first.
    pub closed spec fn transactions(&self) -> Seq<Transaction> {
        self.bus.transactions()
    }

    /// Create a driver instance with the default device address.
    pub fn new(bus: I) -> (driver: As5600<I>)
        ensures
            driver.spec_device_address() == DEFAULT_I2C_ADDRESS,
            driver.transactions() == bus.transactions(),
    {
        Self::with_address(DEFAULT_I2C_ADDRESS, bus)
    }

    /// Create a driver instance with the given device address.
    pub fn with_address(address: u8, bus: I) -> (driver: As5600<I>)
        ensures
            driver.spec_device_address() == address,
            driver.transactions() == bus.transactions(),
    {
        As5600 { address, bus }
    }

    /// Release the bus handle, consuming the driver, without side effects.
    pub fn release(self) -> (bus: I)
        ensures
            bus.transactions() == self.transactions(),
    {
        self.bus
    }

    /// Read one byte of `register` in a single write-then-read transaction.
    fn read_byte(&mut self, register: Register) -> (result: Result<u8, Error<I::BusError>>)
        ensures
            final (self).spec_device_address() == old(self).spec_device_address(),
            result matches Ok(byte) ==> final (self).transactions() == old(
                self,
            ).transactions().push(read_byte_tx(old(self).spec_device_address(), register, byte)),
            result matches Err(error) ==> error is Communication && final (self).transactions()
                == old(self).transactions(),
    {
        let request: Vec<u8> = vec![register.address_of()];
        let response = match self.bus.bus_write_read(self.address, &request, 1) {
            Ok(response) => response,
            Err(error) => {
                return Err(Error::Communication(error));
            },
        };
        let byte = response[0];
        proof {
            assert(request@ =~= seq![register.spec_address()]);
            assert(response@ =~= seq![byte]);
        }
        Ok(byte)
    }

    /// Read the 16-bit word of `register`, transferred big-endian, in a
    /// single write-then-read transaction.
    fn read_word(&mut self, register: Register) -> (result: Result<u16, Error<I::BusError>>)
        ensures
            final (self).spec_device_address() == old(self).spec_device_address(),
            result matches Ok(word) ==> final (self).transactions() == old(
                self,
            ).transactions().push(read_word_tx(old(self).spec_device_address(), register, word)),
            result matches Err(error) ==> error is Communication && final (self).transactions()
                == old(self).transactions(),
    {
        let request: Vec<u8> = vec![register.address_of()];
        let response = match self.bus.bus_write_read(self.address, &request, 2) {
            Ok(response) => response,
            Err(error) => {
                return Err(Error::Communication(error));
            },
        };
        let hi = response[0];
        let lo = response[1];
        let word = word_from_be_bytes(hi, lo);
        proof {
            lemma_word_be_bytes(hi, lo);
            assert(request@ =~= seq![register.spec_address()]);
            assert(response@ =~= seq![spec_be_hi(word), spec_be_lo(word)]);
        }
        Ok(word)
    }

    /// Get the value of the raw angle register: the unfiltered measured
    /// angle, masked to its low 12 bits.
    pub fn raw_angle(&mut self) -> (result: Result<u16, Error<I::BusError>>)
        ensures
            final (self).spec_device_address() == old(self).spec_device_address(),
            result matches Ok(angle) ==> exists|word: u16|
                final (self).transactions() == old(self).transactions().push(
                    read_word_tx(old(self).spec_device_address(), Register::RawAngle, word),
                ) && angle == spec_mask12(word),
            result matches Err(error) ==> error is Communication && final (self).transactions()
                == old(self).transactions(),
    {
        match self.read_word(Register::RawAngle) {
            Ok(word) => Ok(mask_to_12_bits(word)),
            Err(error) => Err(error),
        }
    }

    /// Get the value of the angle register: the filtered measured angle,
    /// masked to its low 12 bits.
    pub fn angle(&mut self) -> (result: Result<u16, Error<I::BusError>>)
        ensures
            final (self).spec_device_address() == old(self).spec_device_address(),
            result matches Ok(angle) ==> exists|word: u16|
                final (self).transactions() == old(self).transactions().push(
                    read_word_tx(old(self).spec_device_address(), Register::Angle, word),
                ) && angle == spec_mask12(word),
            result matches Err(error) ==> error is Communication && final (self).transactions()
                == old(self).transactions(),
    {
        match self.read_word(Register::Angle) {
            Ok(word) => Ok(mask_to_12_bits(word)),
            Err(error) => Err(error),
        }
    }

    /// Get the value of the persist counter register: how many times the
    /// position settings have been burned, a two-bit count.
    pub fn zmco(&mut self) -> (result: Result<u8, Error<I::BusError>>)
        ensures
            final (self).spec_device_address() == old(self).spec_device_address(),
            result matches Ok(count) ==> count <= 3 && exists|byte: u8|
                final (self).transactions() == old(self).transactions().push(
                    read_byte_tx(old(self).spec_device_address(), Register::Zmco, byte),
                ) && count == byte & 3,
            result matches Err(error) ==> error is Communication && final (self).transactions()
                == old(self).transactions(),
    {
        match self.read_byte(Register::Zmco) {
            Ok(byte) => {
                proof {
                    assert(byte & 3 <= 3) by (bit_vector);
                }
                Ok(byte & 3)
            },
            Err(error) => Err(error),
        }
    }

    /// Get the magnet detection status, decoded from the status register.
    pub fn magnet_status(&mut self) -> (result: Result<Status, Error<I::BusError>>)
        ensures
            final (self).spec_device_address() == old(self).spec_device_address(),
            result matches Ok(status) ==> exists|byte: u8|
                final (self).transactions() == old(self).transactions().push(
                    read_byte_tx(old(self).spec_device_address(), Register::Status, byte),
                ) && Status::spec_decode(byte) == Ok::<Status, crate::status::Error>(status),
            result matches Err(error) ==> match error {
                Error::Communication(_) => final (self).transactions() == old(
                    self,
                ).transactions(),
                Error::Status(status_error) => exists|byte: u8|
                    final (self).transactions() == old(self).transactions().push(
                        read_byte_tx(old(self).spec_device_address(), Register::Status, byte),
                    ) && Status::spec_decode(byte) == Err::<Status, crate::status::Error>(
                        status_error,
                    ),
                _ => false,
            },
    {
        let byte = match self.read_byte(Register::Status) {
            Ok(byte) => byte,
            Err(error) => {
                return Err(error);
            },
        };
        match Status::decode(byte) {
            Ok(status) => Ok(status),
            Err(error) => Err(Error::Status(error)),
        }
    }

    /// Get the value of the zero position register, masked to its low 12
    /// bits.
    pub fn zero_position(&mut self) -> (result: Result<u16, Error<I::BusError>>)
        ensures
            final (self).spec_device_address() == old(self).spec_device_address(),
            result matches Ok(position) ==> exists|word: u16|
                final (self).transactions() == old(self).transactions().push(
                    read_word_tx(old(self).spec_device_address(), Register::Zpos, word),
                ) && position == spec_mask12(word),
            result matches Err(error) ==> error is Communication && final (self).transactions()
                == old(self).transactions(),
    {
        match self.read_word(Register::Zpos) {
            Ok(word) => Ok(mask_to_12_bits(word)),
            Err(error) => Err(error),
        }
    }

    /// Set the value of the zero position register; the value is restricted
    /// to its low 12 bits before it goes on the wire.
    pub fn set_zero_position(&mut self, bytes: u16) -> (result: Result<(), Error<I::BusError>>)
        ensures
            final (self).spec_device_address() == old(self).spec_device_address(),
            result is Ok ==> final (self).transactions() == old(self).transactions().push(
                write_word_tx(old(self).spec_device_address(), Register::Zpos, spec_mask12(bytes)),
            ),
            result matches Err(error) ==> error is Communication && final (self).transactions()
                == old(self).transactions(),
    {
        let masked = mask_to_12_bits(bytes);
        self.write_word(Register::Zpos, masked)
    }

    /// Get the value of the maximum position register, masked to its low 12
    /// bits.
    pub fn maximum_position(&mut self) -> (result: Result<u16, Error<I::BusError>>)
        ensures
            final (self).spec_device_address() == old(self).spec_device_address(),
            result matches Ok(position) ==> exists|word: u16|
                final (self).transactions() == old(self).transactions().push(
                    read_word_tx(old(self).spec_device_address(), Register::Mpos, word),
                ) && position == spec_mask12(word),
            result matches Err(error) ==> error is Communication && final (self).transactions()
                == old(self).transactions(),
    {
        match self.read_word(Register::Mpos) {
            Ok(word) => Ok(mask_to_12_bits(word)),
            Err(error) => Err(error),
        }
    }

    /// Set the value of the maximum position register; the value is
    /// restricted to its low 12 bits before it goes on the wire.
    pub fn set_maximum_position(&mut self, bytes: u16) -> (result: Result<(), Error<I::BusError>>)
        ensures
            final (self).spec_device_address() == old(self).spec_device_address(),
            result is Ok ==> final (self).transactions() == old(self).transactions().push(
                write_word_tx(old(self).spec_device_address(), Register::Mpos, spec_mask12(bytes)),
            ),
            result matches Err(error) ==> error is Communication && final (self).transactions()
                == old(self).transactions(),
    {
        let masked = mask_to_12_bits(bytes);
        self.write_word(Register::Mpos, masked)
    }

    /// Get the value of the maximum angle register, masked to its low 12
    /// bits.
    pub fn maximum_angle(&mut self) -> (result: Result<u16, Error<I::BusError>>)
        ensures
            final (self).spec_device_address() == old(self).spec_device_address(),
            result matches Ok(angle) ==> exists|word: u16|
                final (self).transactions() == old(self).transactions().push(
                    read_word_tx(old(self).spec_device_address(), Register::Mang, word),
                ) && angle == spec_mask12(word),
            result matches Err(error) ==> error is Communication && final (self).transactions()
                == old(self).transactions(),
    {
        match self.read_word(Register::Mang) {
            Ok(word) => Ok(mask_to_12_bits(word)),
            Err(error) => Err(error),
        }
    }

    /// Set the value of the maximum angle register; the value is restricted
    /// to its low 12 bits before it goes on the wire.
    pub fn set_maximum_angle(&mut self, bytes: u16) -> (result: Result<(), Error<I::BusError>>)
        ensures
            final (self).spec_device_address() == old(self).spec_device_address(),
            result is Ok ==> final (self).transactions() == old(self).transactions().push(
                write_word_tx(old(self).spec_device_address(), Register::Mang, spec_mask12(bytes)),
            ),
            result matches Err(error) ==> error is Communication && final (self).transactions()
                == old(self).transactions(),
    {
        let masked = mask_to_12_bits(bytes);
        self.write_word(Register::Mang, masked)
    }

    /// Get the value of the automatic gain control register. The value
    /// differs depending on the supply voltage; see the device documentation.
    pub fn automatic_gain_control(&mut self) -> (result: Result<u8, Error<I::BusError>>)
        ensures
            final (self).spec_device_address() == old(self).spec_device_address(),
            result matches Ok(gain) ==> final (self).transactions() == old(
                self,
            ).transactions().push(
                read_byte_tx(old(self).spec_device_address(), Register::Agc, gain),
            ),
            result matches Err(error) ==> error is Communication && final (self).transactions()
                == old(self).transactions(),
    {
        self.read_byte(Register::Agc)
    }

    /// Get the value of the magnitude register, masked to its low 12 bits.
    pub fn magnitude(&mut self) -> (result: Result<u16, Error<I::BusError>>)
        ensures
            final (self).spec_device_address() == old(self).spec_device_address(),
            result matches Ok(magnitude) ==> exists|word: u16|
                final (self).transactions() == old(self).transactions().push(
                    read_word_tx(old(self).spec_device_address(), Register::Magnitude, word),
                ) && magnitude == spec_mask12(word),
            result matches Err(error) ==> error is Communication && final (self).transactions()
                == old(self).transactions(),
    {
        match self.read_word(Register::Magnitude) {
            Ok(word) => Ok(mask_to_12_bits(word)),
            Err(error) => Err(error),
        }
    }

    /// Get the value of the configuration register, parsed into its typed
    /// bitfields.
    pub fn config(&mut self) -> (result: Result<Configuration, Error<I::BusError>>)
        ensures
            final (self).spec_device_address() == old(self).spec_device_address(),
            result matches Ok(config) ==> exists|word: u16|
                final (self).transactions() == old(self).transactions().push(
                    read_word_tx(old(self).spec_device_address(), Register::Conf, word),
                ) && Configuration::spec_decode(word) == Ok::<
                    Configuration,
                    crate::configuration::Error,
                >(config),
            result matches Err(error) ==> match error {
                Error::Communication(_) => final (self).transactions() == old(
                    self,
                ).transactions(),
                Error::Configuration(config_error) => exists|word: u16|
                    final (self).transactions() == old(self).transactions().push(
                        read_word_tx(old(self).spec_device_address(), Register::Conf, word),
                    ) && Configuration::spec_decode(word) == Err::<
                        Configuration,
                        crate::configuration::Error,
                    >(config_error),
                _ => false,
            },
    {
        let word = match self.read_word(Register::Conf) {
            Ok(word) => word,
            Err(error) => {
                return Err(error);
            },
        };
        match Configuration::decode(word) {
            Ok(config) => Ok(config),
            Err(error) => Err(Error::Configuration(error)),
        }
    }

    /// Set the value of the configuration register.
    ///
    /// The device may store factory settings in the two reserved high bits,
    /// so the current word is re-read first and its reserved bits are merged
    /// into the newly encoded word; the snapshot carried by `config` itself
    /// may be stale.
    pub fn set_config(&mut self, config: Configuration) -> (result: Result<(), Error<I::BusError>>)
        ensures
            final (self).spec_device_address() == old(self).spec_device_address(),
            result is Ok ==> exists|current: u16|
                final (self).transactions() == old(self).transactions().push(
                    read_word_tx(old(self).spec_device_address(), Register::Conf, current),
                ).push(
                    write_word_tx(
                        old(self).spec_device_address(),
                        Register::Conf,
                        config.spec_encode() | (current & 0xC000),
                    ),
                ),
            result matches Err(error) ==> error is Communication && (final (self).transactions()
                == old(self).transactions() || exists|current: u16|
                final (self).transactions() == old(self).transactions().push(
                    read_word_tx(old(self).spec_device_address(), Register::Conf, current),
                )),
    {
        let current_config = match self.read_word(Register::Conf) {
            Ok(word) => word,
            Err(error) => {
                return Err(error);
            },
        };
        let bytes = merge_reserved_bits(config.encode(), current_config);
        self.write_word(Register::Conf, bytes)
    }

    /// Burn the maximum angle and configuration registers to the device's
    /// persistent memory.
    ///
    /// This operation is irreversible and available only once: it proceeds
    /// only if the persist counter, re-read fresh, is zero, and otherwise
    /// fails without issuing any bus write. On success the burn command is
    /// followed by a settle delay of at least one millisecond.
    pub fn persist_maximum_angle_and_config_settings<D: DelayProvider>(
        &mut self,
        delay: &mut D,
    ) -> (result: Result<(), Error<I::BusError>>)
        ensures
            final (self).spec_device_address() == old(self).spec_device_address(),
            result is Ok ==> final (delay).delays_ms() == old(delay).delays_ms().push(1)
                && exists|count: u8|
                count & 3 == 0 && final (self).transactions() == old(self).transactions().push(
                    read_byte_tx(old(self).spec_device_address(), Register::Zmco, count),
                ).push(burn_tx(old(self).spec_device_address(), 0x40)),
            result is Err ==> crate::bus::no_writes_after(
                old(self).transactions(),
                final (self).transactions(),
            ),
            result matches Err(error) ==> final (delay).delays_ms() == old(delay).delays_ms()
                && match error {
                Error::MangConfigPersistenceExhausted => exists|count: u8|
                    count & 3 != 0 && final (self).transactions() == old(
                        self,
                    ).transactions().push(
                        read_byte_tx(old(self).spec_device_address(), Register::Zmco, count),
                    ),
                Error::Communication(_) => final (self).transactions() == old(
                    self,
                ).transactions() || exists|count: u8|
                    count & 3 == 0 && final (self).transactions() == old(
                        self,
                    ).transactions().push(
                        read_byte_tx(old(self).spec_device_address(), Register::Zmco, count),
                    ),
                _ => false,
            },
    {
        let zmco = match self.zmco() {
            Ok(count) => count,
            Err(error) => {
                return Err(error);
            },
        };
        match config_persist_decision::<I::BusError>(zmco) {
            Ok(()) => {},
            Err(error) => {
                return Err(error);
            },
        }
        let payload: Vec<u8> = vec![Register::Burn.address_of(), 0x40];
        match self.bus.bus_write(self.address, &payload) {
            Ok(()) => {
                proof {
                    assert(payload@ =~= seq![Register::Burn.spec_address(), 0x40u8]);
                }
            },
            Err(error) => {
                return Err(Error::Communication(error));
            },
        }
        delay.delay_ms(1);
        Ok(())
    }

    /// Burn the zero position and maximum position registers to the device's
    /// persistent memory.
    ///
    /// This operation is irreversible and available at most three times: it
    /// proceeds only if the persist counter, re-read fresh, is below three
    /// and the magnet status, also re-read fresh, reports a detected magnet;
    /// otherwise it fails without issuing the burn command. On success the
    /// burn command is followed by a settle delay of at least one
    /// millisecond.
    pub fn persist_position_settings<D: DelayProvider>(&mut self, delay: &mut D) -> (result:
        Result<(), Error<I::BusError>>)
        ensures
            final (self).spec_device_address() == old(self).spec_device_address(),
            result is Ok ==> final (delay).delays_ms() == old(delay).delays_ms().push(1)
                && exists|count: u8, status_byte: u8|
                count & 3 < 3 && Status::spec_decode(status_byte) == Ok::<
                    Status,
                    crate::status::Error,
                >(Status::MagnetDetected) && final (self).transactions() == old(
                    self,
                ).transactions().push(
                    read_byte_tx(old(self).spec_device_address(), Register::Zmco, count),
                ).push(
                    read_byte_tx(old(self).spec_device_address(), Register::Status, status_byte),
                ).push(burn_tx(old(self).spec_device_address(), 0x80)),
            result is Err ==> crate::bus::no_writes_after(
                old(self).transactions(),
                final (self).transactions(),
            ),
            result matches Err(error) ==> final (delay).delays_ms() == old(delay).delays_ms()
                && match error {
                Error::MaximumPositionPersistsReached => exists|count: u8|
                    count & 3 == 3 && final (self).transactions() == old(
                        self,
                    ).transactions().push(
                        read_byte_tx(old(self).spec_device_address(), Register::Zmco, count),
                    ),
                Error::MagnetRequired => exists|count: u8, status_byte: u8|
                    count & 3 < 3 && (Status::spec_decode(status_byte) matches Ok(status)
                        && status != Status::MagnetDetected) && final (self).transactions() == old(
                        self,
                    ).transactions().push(
                        read_byte_tx(old(self).spec_device_address(), Register::Zmco, count),
                    ).push(
                        read_byte_tx(
                            old(self).spec_device_address(),
                            Register::Status,
                            status_byte,
                        ),
                    ),
                Error::Status(status_error) => exists|count: u8, status_byte: u8|
                    count & 3 < 3 && Status::spec_decode(status_byte) == Err::<
                        Status,
                        crate::status::Error,
                    >(status_error) && final (self).transactions() == old(
                        self,
                    ).transactions().push(
                        read_byte_tx(old(self).spec_device_address(), Register::Zmco, count),
                    ).push(
                        read_byte_tx(
                            old(self).spec_device_address(),
                            Register::Status,
                            status_byte,
                        ),
                    ),
                Error::Communication(_) => final (self).transactions() == old(
                    self,
                ).transactions() || (exists|count: u8|
                    count & 3 < 3 && final (self).transactions() == old(self).transactions().push(
                        read_byte_tx(old(self).spec_device_address(), Register::Zmco, count),
                    )) || (exists|count: u8, status_byte: u8|
                    count & 3 < 3 && Status::spec_decode(status_byte) == Ok::<
                        Status,
                        crate::status::Error,
                    >(Status::MagnetDetected) && final (self).transactions() == old(
                        self,
                    ).transactions().push(
                        read_byte_tx(old(self).spec_device_address(), Register::Zmco, count),
                    ).push(
                        read_byte_tx(
                            old(self).spec_device_address(),
                            Register::Status,
                            status_byte,
                        ),
                    )),
                _ => false,
            },
    {
        let zmco = match self.zmco() {
            Ok(count) => count,
            Err(error) => {
                return Err(error);
            },
        };
        if zmco >= 3 {
            return Err(Error::MaximumPositionPersistsReached);
        }
        let status = match self.magnet_status() {
            Ok(status) => status,
            Err(error) => {
                return Err(error);
            },
        };
        match position_persist_decision::<I::BusError>(zmco, status) {
            Ok(()) => {},
            Err(error) => {
                return Err(error);
            },
        }
        let payload: Vec<u8> = vec![Register::Burn.address_of(), 0x80];
        match self.bus.bus_write(self.address, &payload) {
            Ok(()) => {
                proof {
                    assert(payload@ =~= seq![Register::Burn.spec_address(), 0x80u8]);
                }
            },
            Err(error) => {
                return Err(Error::Communication(error));
            },
        }
        delay.delay_ms(1);
        Ok(())
    }

    /// Write the 16-bit word of `register`, transferred big-endian, in a
    /// single write transaction.
    fn write_word(&mut self, register: Register, word: u16) -> (result: Result<
        (),
        Error<I::BusError>,
    >)
        ensures
            final (self).spec_device_address() == old(self).spec_device_address(),
            result is Ok ==> final (self).transactions() == old(self).transactions().push(
                write_word_tx(old(self).spec_device_address(), register, word),
            ),
            result matches Err(error) ==> error is Communication && final (self).transactions()
                == old(self).transactions(),
    {
        let payload: Vec<u8> = vec![register.address_of(), (word >> 8) as u8, word as u8];
        match self.bus.bus_write(self.address, &payload) {
            Ok(()) => {
                proof {
                    assert(payload@ =~= seq![
                        register.spec_address(),
                        spec_be_hi(word),
                        spec_be_lo(word),
                    ]);
                }
                Ok(())
            },
            Err(error) => Err(Error::Communication(error)),
        }
    }
}

} // verus!
