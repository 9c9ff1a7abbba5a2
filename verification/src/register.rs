//! The register address map of the device.

use vstd::prelude::*;

verus! {

/// Failure to map a wire address byte back to a register.
#[derive(Debug, Clone, Copy, PartialEq, Eq, Structural)]
pub enum Error {
    /// The byte is not the wire address of any defined register.
    UnknownRegister(u8),
}

/// The logical registers of the device, each bound to one fixed wire address.
#[derive(Debug, Clone, Copy, PartialEq, Eq, Structural)]
pub enum Register {
    /// Number of persistent burns of the angle and configuration registers.
    Zmco,
    /// Programmed zero position.
    Zpos,
    /// Programmed maximum position.
    Mpos,
    /// Programmed maximum angle.
    Mang,
    /// Configuration bitfields.
    Conf,
    /// Unfiltered, unprocessed measured angle.
    RawAngle,
    /// Filtered measured angle.
    Angle,
    /// Magnet detection status.
    Status,
    /// Current automatic gain control value.
    Agc,
    /// Measured magnitude of the applied magnetic field.
    Magnitude,
    /// Write-only command register for persistence ("burn") operations.
    Burn,
}

impl Register {
    /// The wire address of this register.
    pub open spec fn spec_address(self) -> u8 {
        match self {
            Register::Zmco => 0x00,
            Register::Zpos => 0x01,
            Register::Mpos => 0x03,
            Register::Mang => 0x05,
            Register::Conf => 0x07,
            Register::Status => 0x0B,
            Register::RawAngle => 0x0C,
            Register::Angle => 0x0E,
            Register::Agc => 0x1A,
            Register::Magnitude => 0x1B,
            Register::Burn => 0xFF,
        }
    }

    /// The register bound to a wire address byte, if the byte is defined.
    pub open spec fn spec_register_of(byte: u8) -> Result<Register, Error> {
        if byte == 0x00 {
            Ok(Register::Zmco)
        } else if byte == 0x01 {
            Ok(Register::Zpos)
        } else if byte == 0x03 {
            Ok(Register::Mpos)
        } else if byte == 0x05 {
            Ok(Register::Mang)
        } else if byte == 0x07 {
            Ok(Register::Conf)
        } else if byte == 0x0B {
            Ok(Register::Status)
        } else if byte == 0x0C {
            Ok(Register::RawAngle)
        } else if byte == 0x0E {
            Ok(Register::Angle)
        } else if byte == 0x1A {
            Ok(Register::Agc)
        } else if byte == 0x1B {
            Ok(Register::Magnitude)
        } else if byte == 0xFF {
            Ok(Register::Burn)
        } else {
            Err(Error::UnknownRegister(byte))
        }
    }

    /// Map this register to its wire address.
    pub fn address_of(self) -> (address: u8)
        ensures
            address == self.spec_address(),
    {
        match self {
            Register::Zmco => 0x00,
            Register::Zpos => 0x01,
            Register::Mpos => 0x03,
            Register::Mang => 0x05,
            Register::Conf => 0x07,
            Register::Status => 0x0B,
            Register::RawAngle => 0x0C,
            Register::Angle => 0x0E,
            Register::Agc => 0x1A,
            Register::Magnitude => 0x1B,
            Register::Burn => 0xFF,
        }
    }

    /// Map a wire address byte to its register; any byte outside the defined
    /// address set is rejected, never silently coerced.
    pub fn register_of(byte: u8) -> (result: Result<Register, Error>)
        ensures
            result == Self::spec_register_of(byte),
    {
        match byte {
            0x00 => Ok(Register::Zmco),
            0x01 => Ok(Register::Zpos),
            0x03 => Ok(Register::Mpos),
            0x05 => Ok(Register::Mang),
            0x07 => Ok(Register::Conf),
            0x0B => Ok(Register::Status),
            0x0C => Ok(Register::RawAngle),
            0x0E => Ok(Register::Angle),
            0x1A => Ok(Register::Agc),
            0x1B => Ok(Register::Magnitude),
            0xFF => Ok(Register::Burn),
            _ => Err(Error::UnknownRegister(byte)),
        }
    }
}

/// The address map is a bijection between registers and the defined address
/// bytes: every register's address maps back to that register, every byte
/// accepted by the reverse map is reproduced by the forward map, and the
/// reverse map accepts exactly the bytes that are some register's address.
pub proof fn lemma_register_address_bijective()
    ensures
        forall|register: Register|
            Register::spec_register_of(#[trigger] register.spec_address()) == Ok::<Register, Error>(register),
        forall|byte: u8|
            #[trigger] Register::spec_register_of(byte) matches Ok(register)
                ==> register.spec_address() == byte,
        forall|byte: u8|
            #[trigger] Register::spec_register_of(byte) is Ok <==> (exists|register: Register|
                (#[trigger] register.spec_address()) == byte),
{
    assert forall|byte: u8| #[trigger] Register::spec_register_of(byte) is Ok implies (
    exists|register: Register| (#[trigger] register.spec_address()) == byte) by {
        let register = Register::spec_register_of(byte)->Ok_0;
        assert(register.spec_address() == byte);
    }
    assert forall|byte: u8|
        (exists|register: Register| (#[trigger] register.spec_address()) == byte) implies #[trigger] Register::spec_register_of(
        byte,
    ) is Ok by {
        let register = choose|register: Register| register.spec_address() == byte;
        assert(Register::spec_register_of(register.spec_address()) == Ok::<Register, Error>(
            register,
        ));
    }
}

} // verus!
