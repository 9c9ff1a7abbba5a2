//! The magnet detection status codec.

use vstd::prelude::*;

verus! {

/// Failure to parse a status byte.
///
/// The carried byte is the masked bit pattern (bits 3 to 5 of the status
/// byte), not the raw register byte, so that the diagnostic names exactly the
/// field that was invalid.
#[derive(Debug, Clone, Copy, PartialEq, Eq, Structural)]
pub enum Error {
    /// Bit pattern not valid for magnet detection status.
    InvalidBitPattern(u8),
}

/// Magnet detection status: the three-bit field in bits 3 to 5 of the status
/// byte. Read-only telemetry, recomputed on every read.
#[derive(Debug, Clone, Copy, PartialEq, Eq, Structural)]
pub enum Status {
    /// Magnet too close.
    MagnetHigh,
    /// Magnet too far.
    MagnetLow,
    /// Magnet detected.
    MagnetDetected,
    /// Magnet detected, but close.
    MagnetDetectedHigh,
    /// Magnet detected, but low.
    MagnetDetectedLow,
}

impl Status {
    /// The status byte that encodes this status, with all bits outside the
    /// magnet detection field clear.
    pub open spec fn spec_encode(self) -> u8 {
        match self {
            Status::MagnetHigh => 0x08,
            Status::MagnetLow => 0x10,
            Status::MagnetDetected => 0x20,
            Status::MagnetDetectedHigh => 0x28,
            Status::MagnetDetectedLow => 0x30,
        }
    }

    /// The status decoded from a raw status byte: bits 3 to 5 are masked and
    /// matched against the defined values; any other masked value fails with
    /// that masked value.
    pub open spec fn spec_decode(byte: u8) -> Result<Status, Error> {
        let masked = byte & 0x38;
        if masked == 0x08 {
            Ok(Status::MagnetHigh)
        } else if masked == 0x10 {
            Ok(Status::MagnetLow)
        } else if masked == 0x20 {
            Ok(Status::MagnetDetected)
        } else if masked == 0x28 {
            Ok(Status::MagnetDetectedHigh)
        } else if masked == 0x30 {
            Ok(Status::MagnetDetectedLow)
        } else {
            Err(Error::InvalidBitPattern(masked))
        }
    }

    /// Encode this status as a status byte.
    pub fn encode(self) -> (byte: u8)
        ensures
            byte == self.spec_encode(),
    {
        match self {
            Status::MagnetHigh => 0x08,
            Status::MagnetLow => 0x10,
            Status::MagnetDetected => 0x20,
            Status::MagnetDetectedHigh => 0x28,
            Status::MagnetDetectedLow => 0x30,
        }
    }

    /// Decode a raw status byte.
    pub fn decode(byte: u8) -> (result: Result<Status, Error>)
        ensures
            result == Self::spec_decode(byte),
    {
        let masked = byte & 0x38;
        match masked {
            0x08 => Ok(Status::MagnetHigh),
            0x10 => Ok(Status::MagnetLow),
            0x20 => Ok(Status::MagnetDetected),
            0x28 => Ok(Status::MagnetDetectedHigh),
            0x30 => Ok(Status::MagnetDetectedLow),
            _ => Err(Error::InvalidBitPattern(masked)),
        }
    }
}

/// Decode and encode of the status field are exact inverses: every defined
/// status decodes back from its own byte, every byte that decodes
/// successfully re-encodes to its masked magnet detection field, and every
/// byte that fails is reported as its masked field.
pub proof fn lemma_status_round_trip()
    ensures
        forall|status: Status|
            Status::spec_decode(#[trigger] status.spec_encode()) == Ok::<Status, Error>(status),
        forall|byte: u8|
            #[trigger] Status::spec_decode(byte) matches Ok(status)
                ==> status.spec_encode() == byte & 0x38,
        forall|byte: u8|
            #[trigger] Status::spec_decode(byte) is Err ==> Status::spec_decode(byte) == Err::<
                Status,
                Error,
            >(Error::InvalidBitPattern(byte & 0x38)),
{
    assert(0x08u8 & 0x38 == 0x08 && 0x10u8 & 0x38 == 0x10 && 0x20u8 & 0x38 == 0x20 && 0x28u8 & 0x38
        == 0x28 && 0x30u8 & 0x38 == 0x30) by (bit_vector);
}

} // verus!
