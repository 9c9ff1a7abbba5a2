//! The configuration bitfield codec: a 16-bit word logically partitioned into
//! seven disjoint bitfields plus two undefined high bits.
//!
//! The two high bits are reserved: the device may store factory calibration
//! data there, so a decoded configuration carries its last-seen raw word and
//! re-encoding restores those bits verbatim instead of zeroing them.

use vstd::prelude::*;

verus! {

/// Failure to parse a configuration word.
#[derive(Debug, Clone, Copy, PartialEq, Eq, Structural)]
pub enum Error {
    /// The output stage bitfield holds the one undefined two-bit pattern.
    OutputStageBitPattern(u8),
}

/// Power mode (bits 0 to 1).
#[derive(Debug, Clone, Copy, PartialEq, Eq, Structural)]
pub enum PowerMode {
    /// Normal operation.
    Nom,
    /// Low power mode 1.
    Lpm1,
    /// Low power mode 2.
    Lpm2,
    /// Low power mode 3.
    Lpm3,
}

/// Hysteresis (bits 2 to 3).
#[derive(Debug, Clone, Copy, PartialEq, Eq, Structural)]
pub enum Hysteresis {
    /// Hysteresis off.
    Off,
    /// One least significant bit.
    Lsb1,
    /// Two least significant bits.
    Lsb2,
    /// Three least significant bits.
    Lsb3,
}

/// Output stage (bits 4 to 5). Only three of the four two-bit patterns are
/// defined; the fourth is rejected at decode time.
#[derive(Debug, Clone, Copy, PartialEq, Eq, Structural)]
pub enum OutputStage {
    /// Analog output, full range.
    Analog,
    /// Analog output, reduced range.
    ReducedAnalog,
    /// Digital PWM output.
    DigitalPwm,
}

/// PWM frequency (bits 6 to 7). Each variant names its frequency in Hz.
#[derive(Debug, Clone, Copy, PartialEq, Eq, Structural)]
pub enum PwmFreq {
    /// 115 Hz.
    PwmF1,
    /// 230 Hz.
    PwmF2,
    /// 460 Hz.
    PwmF3,
    /// 920 Hz.
    PwmF4,
}

/// Slow filter (bits 8 to 9).
#[derive(Debug, Clone, Copy, PartialEq, Eq, Structural)]
pub enum SlowFilter {
    /// 16x.
    X16,
    /// 8x.
    X8,
    /// 4x.
    X4,
    /// 2x.
    X2,
}

/// Fast filter threshold (bits 10 to 12).
#[derive(Debug, Clone, Copy, PartialEq, Eq, Structural)]
pub enum FastFilterThreshold {
    /// Slow filter only.
    SlowFilterOnly,
    /// 6 least significant bits.
    Lsb6,
    /// 7 least significant bits.
    Lsb7,
    /// 9 least significant bits.
    Lsb9,
    /// 18 least significant bits.
    Lsb18,
    /// 21 least significant bits.
    Lsb21,
    /// 24 least significant bits.
    Lsb24,
    /// 10 least significant bits.
    Lsb10,
}

/// Watchdog state (bit 13).
#[derive(Debug, Clone, Copy, PartialEq, Eq, Structural)]
pub enum WatchdogState {
    /// Watchdog on.
    On,
    /// Watchdog off.
    Off,
}

impl PowerMode {
    /// The power mode encoded by the low two bits of `bits`.
    pub open spec fn spec_from_bits(bits: u8) -> PowerMode {
        if bits & 3 == 0 {
            PowerMode::Nom
        } else if bits & 3 == 1 {
            PowerMode::Lpm1
        } else if bits & 3 == 2 {
            PowerMode::Lpm2
        } else {
            PowerMode::Lpm3
        }
    }

    /// The two-bit code of this power mode.
    pub open spec fn spec_to_bits(self) -> u8 {
        match self {
            PowerMode::Nom => 0,
            PowerMode::Lpm1 => 1,
            PowerMode::Lpm2 => 2,
            PowerMode::Lpm3 => 3,
        }
    }

    /// Decode the low two bits of `bits`; total, no invalid pattern exists.
    pub fn from_bits(bits: u8) -> (mode: PowerMode)
        ensures
            mode == Self::spec_from_bits(bits),
    {
        match bits & 3 {
            0 => PowerMode::Nom,
            1 => PowerMode::Lpm1,
            2 => PowerMode::Lpm2,
            _ => PowerMode::Lpm3,
        }
    }

    /// Encode this power mode as its two-bit code.
    pub fn to_bits(self) -> (bits: u8)
        ensures
            bits == self.spec_to_bits(),
    {
        match self {
            PowerMode::Nom => 0,
            PowerMode::Lpm1 => 1,
            PowerMode::Lpm2 => 2,
            PowerMode::Lpm3 => 3,
        }
    }
}

impl Hysteresis {
    /// The hysteresis encoded by the low two bits of `bits`.
    pub open spec fn spec_from_bits(bits: u8) -> Hysteresis {
        if bits & 3 == 0 {
            Hysteresis::Off
        } else if bits & 3 == 1 {
            Hysteresis::Lsb1
        } else if bits & 3 == 2 {
            Hysteresis::Lsb2
        } else {
            Hysteresis::Lsb3
        }
    }

    /// The two-bit code of this hysteresis.
    pub open spec fn spec_to_bits(self) -> u8 {
        match self {
            Hysteresis::Off => 0,
            Hysteresis::Lsb1 => 1,
            Hysteresis::Lsb2 => 2,
            Hysteresis::Lsb3 => 3,
        }
    }

    /// Decode the low two bits of `bits`; total, no invalid pattern exists.
    pub fn from_bits(bits: u8) -> (hysteresis: Hysteresis)
        ensures
            hysteresis == Self::spec_from_bits(bits),
    {
        match bits & 3 {
            0 => Hysteresis::Off,
            1 => Hysteresis::Lsb1,
            2 => Hysteresis::Lsb2,
            _ => Hysteresis::Lsb3,
        }
    }

    /// Encode this hysteresis as its two-bit code.
    pub fn to_bits(self) -> (bits: u8)
        ensures
            bits == self.spec_to_bits(),
    {
        match self {
            Hysteresis::Off => 0,
            Hysteresis::Lsb1 => 1,
            Hysteresis::Lsb2 => 2,
            Hysteresis::Lsb3 => 3,
        }
    }
}

impl OutputStage {
    /// The output stage encoded by the low two bits of `bits`, or the decode
    /// error for the one undefined pattern. The error carries the rejected
    /// argument, never a silently remapped value.
    pub open spec fn spec_try_from_bits(bits: u8) -> Result<OutputStage, Error> {
        if bits & 3 == 0 {
            Ok(OutputStage::Analog)
        } else if bits & 3 == 1 {
            Ok(OutputStage::ReducedAnalog)
        } else if bits & 3 == 2 {
            Ok(OutputStage::DigitalPwm)
        } else {
            Err(Error::OutputStageBitPattern(bits))
        }
    }

    /// The two-bit code of this output stage.
    pub open spec fn spec_to_bits(self) -> u8 {
        match self {
            OutputStage::Analog => 0,
            OutputStage::ReducedAnalog => 1,
            OutputStage::DigitalPwm => 2,
        }
    }

    /// Decode the low two bits of `bits`, rejecting the undefined pattern.
    pub fn try_from_bits(bits: u8) -> (result: Result<OutputStage, Error>)
        ensures
            result == Self::spec_try_from_bits(bits),
    {
        match bits & 3 {
            0 => Ok(OutputStage::Analog),
            1 => Ok(OutputStage::ReducedAnalog),
            2 => Ok(OutputStage::DigitalPwm),
            _ => Err(Error::OutputStageBitPattern(bits)),
        }
    }

    /// Encode this output stage as its two-bit code.
    pub fn to_bits(self) -> (bits: u8)
        ensures
            bits == self.spec_to_bits(),
    {
        match self {
            OutputStage::Analog => 0,
            OutputStage::ReducedAnalog => 1,
            OutputStage::DigitalPwm => 2,
        }
    }
}

impl PwmFreq {
    /// The PWM frequency encoded by the low two bits of `bits`.
    pub open spec fn spec_from_bits(bits: u8) -> PwmFreq {
        if bits & 3 == 0 {
            PwmFreq::PwmF1
        } else if bits & 3 == 1 {
            PwmFreq::PwmF2
        } else if bits & 3 == 2 {
            PwmFreq::PwmF3
        } else {
            PwmFreq::PwmF4
        }
    }

    /// The two-bit code of this PWM frequency.
    pub open spec fn spec_to_bits(self) -> u8 {
        match self {
            PwmFreq::PwmF1 => 0,
            PwmFreq::PwmF2 => 1,
            PwmFreq::PwmF3 => 2,
            PwmFreq::PwmF4 => 3,
        }
    }

    /// The frequency in Hz that this setting selects.
    pub open spec fn spec_hz(self) -> usize {
        match self {
            PwmFreq::PwmF1 => 115,
            PwmFreq::PwmF2 => 230,
            PwmFreq::PwmF3 => 460,
            PwmFreq::PwmF4 => 920,
        }
    }

    /// Decode the low two bits of `bits`; total, no invalid pattern exists.
    pub fn from_bits(bits: u8) -> (freq: PwmFreq)
        ensures
            freq == Self::spec_from_bits(bits),
    {
        match bits & 3 {
            0 => PwmFreq::PwmF1,
            1 => PwmFreq::PwmF2,
            2 => PwmFreq::PwmF3,
            _ => PwmFreq::PwmF4,
        }
    }

    /// Encode this PWM frequency as its two-bit code.
    pub fn to_bits(self) -> (bits: u8)
        ensures
            bits == self.spec_to_bits(),
    {
        match self {
            PwmFreq::PwmF1 => 0,
            PwmFreq::PwmF2 => 1,
            PwmFreq::PwmF3 => 2,
            PwmFreq::PwmF4 => 3,
        }
    }

    /// The frequency in Hz that this setting selects.
    pub fn to_hz(&self) -> (hz: usize)
        ensures
            hz == self.spec_hz(),
    {
        match self {
            PwmFreq::PwmF1 => 115,
            PwmFreq::PwmF2 => 230,
            PwmFreq::PwmF3 => 460,
            PwmFreq::PwmF4 => 920,
        }
    }
}

impl SlowFilter {
    /// The slow filter encoded by the low two bits of `bits`.
    pub open spec fn spec_from_bits(bits: u8) -> SlowFilter {
        if bits & 3 == 0 {
            SlowFilter::X16
        } else if bits & 3 == 1 {
            SlowFilter::X8
        } else if bits & 3 == 2 {
            SlowFilter::X4
        } else {
            SlowFilter::X2
        }
    }

    /// The two-bit code of this slow filter.
    pub open spec fn spec_to_bits(self) -> u8 {
        match self {
            SlowFilter::X16 => 0,
            SlowFilter::X8 => 1,
            SlowFilter::X4 => 2,
            SlowFilter::X2 => 3,
        }
    }

    /// Decode the low two bits of `bits`; total, no invalid pattern exists.
    pub fn from_bits(bits: u8) -> (filter: SlowFilter)
        ensures
            filter == Self::spec_from_bits(bits),
    {
        match bits & 3 {
            0 => SlowFilter::X16,
            1 => SlowFilter::X8,
            2 => SlowFilter::X4,
            _ => SlowFilter::X2,
        }
    }

    /// Encode this slow filter as its two-bit code.
    pub fn to_bits(self) -> (bits: u8)
        ensures
            bits == self.spec_to_bits(),
    {
        match self {
            SlowFilter::X16 => 0,
            SlowFilter::X8 => 1,
            SlowFilter::X4 => 2,
            SlowFilter::X2 => 3,
        }
    }
}

impl FastFilterThreshold {
    /// The fast filter threshold encoded by the low three bits of `bits`.
    pub open spec fn spec_from_bits(bits: u8) -> FastFilterThreshold {
        if bits & 7 == 0 {
            FastFilterThreshold::SlowFilterOnly
        } else if bits & 7 == 1 {
            FastFilterThreshold::Lsb6
        } else if bits & 7 == 2 {
            FastFilterThreshold::Lsb7
        } else if bits & 7 == 3 {
            FastFilterThreshold::Lsb9
        } else if bits & 7 == 4 {
            FastFilterThreshold::Lsb18
        } else if bits & 7 == 5 {
            FastFilterThreshold::Lsb21
        } else if bits & 7 == 6 {
            FastFilterThreshold::Lsb24
        } else {
            FastFilterThreshold::Lsb10
        }
    }

    /// The three-bit code of this fast filter threshold.
    pub open spec fn spec_to_bits(self) -> u8 {
        match self {
            FastFilterThreshold::SlowFilterOnly => 0,
            FastFilterThreshold::Lsb6 => 1,
            FastFilterThreshold::Lsb7 => 2,
            FastFilterThreshold::Lsb9 => 3,
            FastFilterThreshold::Lsb18 => 4,
            FastFilterThreshold::Lsb21 => 5,
            FastFilterThreshold::Lsb24 => 6,
            FastFilterThreshold::Lsb10 => 7,
        }
    }

    /// Decode the low three bits of `bits`; total, no invalid pattern exists.
    pub fn from_bits(bits: u8) -> (threshold: FastFilterThreshold)
        ensures
            threshold == Self::spec_from_bits(bits),
    {
        match bits & 7 {
            0 => FastFilterThreshold::SlowFilterOnly,
            1 => FastFilterThreshold::Lsb6,
            2 => FastFilterThreshold::Lsb7,
            3 => FastFilterThreshold::Lsb9,
            4 => FastFilterThreshold::Lsb18,
            5 => FastFilterThreshold::Lsb21,
            6 => FastFilterThreshold::Lsb24,
            _ => FastFilterThreshold::Lsb10,
        }
    }

    /// Encode this fast filter threshold as its three-bit code.
    pub fn to_bits(self) -> (bits: u8)
        ensures
            bits == self.spec_to_bits(),
    {
        match self {
            FastFilterThreshold::SlowFilterOnly => 0,
            FastFilterThreshold::Lsb6 => 1,
            FastFilterThreshold::Lsb7 => 2,
            FastFilterThreshold::Lsb9 => 3,
            FastFilterThreshold::Lsb18 => 4,
            FastFilterThreshold::Lsb21 => 5,
            FastFilterThreshold::Lsb24 => 6,
            FastFilterThreshold::Lsb10 => 7,
        }
    }
}

impl WatchdogState {
    /// The watchdog state encoded by the low bit of `bits`.
    pub open spec fn spec_from_bits(bits: u8) -> WatchdogState {
        if bits & 1 == 0 {
            WatchdogState::Off
        } else {
            WatchdogState::On
        }
    }

    /// The one-bit code of this watchdog state.
    pub open spec fn spec_to_bits(self) -> u8 {
        match self {
            WatchdogState::Off => 0,
            WatchdogState::On => 1,
        }
    }

    /// Decode the low bit of `bits`; total, no invalid pattern exists.
    pub fn from_bits(bits: u8) -> (state: WatchdogState)
        ensures
            state == Self::spec_from_bits(bits),
    {
        match bits & 1 {
            0 => WatchdogState::Off,
            _ => WatchdogState::On,
        }
    }

    /// Encode this watchdog state as its one-bit code.
    pub fn to_bits(self) -> (bits: u8)
        ensures
            bits == self.spec_to_bits(),
    {
        match self {
            WatchdogState::Off => 0,
            WatchdogState::On => 1,
        }
    }
}

/// A decoded configuration word: the seven defined bitfields, plus the raw
/// word they were decoded from so that the two reserved high bits can be
/// restored verbatim on encode.
#[derive(Debug, Clone, Copy)]
pub struct Configuration {
    /// Power mode (bits 0 to 1).
    pub power_mode: PowerMode,
    /// Hysteresis (bits 2 to 3).
    pub hysteresis: Hysteresis,
    /// Output stage (bits 4 to 5).
    pub output_stage: OutputStage,
    /// PWM frequency (bits 6 to 7).
    pub pwm_frequency: PwmFreq,
    /// Slow filter (bits 8 to 9).
    pub slow_filter: SlowFilter,
    /// Fast filter threshold (bits 10 to 12).
    pub fast_filter_threshold: FastFilterThreshold,
    /// Watchdog state (bit 13).
    pub watchdog_state: WatchdogState,
    /// The raw word this configuration was constructed with; only its two
    /// high (reserved) bits matter, and they are carried through encode.
    pub fields: u16,
}

impl Configuration {
    /// The configuration decoded from a 16-bit word: each field is extracted
    /// at its offset, and the whole word is kept for the reserved bits.
    /// Decoding is total except for the undefined output stage pattern.
    pub open spec fn spec_decode(word: u16) -> Result<Configuration, Error> {
        match OutputStage::spec_try_from_bits(((word >> 4) & 3) as u8) {
            Ok(output_stage) => Ok(
                Configuration {
                    power_mode: PowerMode::spec_from_bits((word & 3) as u8),
                    hysteresis: Hysteresis::spec_from_bits(((word >> 2) & 3) as u8),
                    output_stage,
                    pwm_frequency: PwmFreq::spec_from_bits(((word >> 6) & 3) as u8),
                    slow_filter: SlowFilter::spec_from_bits(((word >> 8) & 3) as u8),
                    fast_filter_threshold: FastFilterThreshold::spec_from_bits(
                        ((word >> 10) & 7) as u8,
                    ),
                    watchdog_state: WatchdogState::spec_from_bits(((word >> 13) & 1) as u8),
                    fields: word,
                },
            ),
            Err(error) => Err(error),
        }
    }

    /// The 16-bit word that encodes this configuration: each field's code
    /// shifted to its offset, with the two reserved bits of the carried raw
    /// word restored verbatim.
    pub open spec fn spec_encode(self) -> u16 {
        (self.power_mode.spec_to_bits() as u16) | ((self.hysteresis.spec_to_bits() as u16) << 2) | (
        (self.output_stage.spec_to_bits() as u16) << 4) | ((self.pwm_frequency.spec_to_bits()
            as u16) << 6) | ((self.slow_filter.spec_to_bits() as u16) << 8) | ((
        self.fast_filter_threshold.spec_to_bits() as u16) << 10) | ((
        self.watchdog_state.spec_to_bits() as u16) << 13) | (self.fields & 0xC000)
    }

    /// Two configurations are equal when the seven defined fields and the two
    /// reserved bits agree; the other bits of the carried raw words are
    /// transient and never compared.
    pub open spec fn spec_eq(self, other: Configuration) -> bool {
        &&& self.power_mode == other.power_mode
        &&& self.hysteresis == other.hysteresis
        &&& self.output_stage == other.output_stage
        &&& self.pwm_frequency == other.pwm_frequency
        &&& self.slow_filter == other.slow_filter
        &&& self.fast_filter_threshold == other.fast_filter_threshold
        &&& self.watchdog_state == other.watchdog_state
        &&& self.fields & 0xC000 == other.fields & 0xC000
    }

    /// Decode a 16-bit configuration word.
    pub fn decode(word: u16) -> (result: Result<Configuration, Error>)
        ensures
            result == Self::spec_decode(word),
    {
        let output_stage = match OutputStage::try_from_bits(((word >> 4) & 3) as u8) {
            Ok(stage) => stage,
            Err(error) => {
                return Err(error);
            },
        };
        Ok(
            Configuration {
                power_mode: PowerMode::from_bits((word & 3) as u8),
                hysteresis: Hysteresis::from_bits(((word >> 2) & 3) as u8),
                output_stage,
                pwm_frequency: PwmFreq::from_bits(((word >> 6) & 3) as u8),
                slow_filter: SlowFilter::from_bits(((word >> 8) & 3) as u8),
                fast_filter_threshold: FastFilterThreshold::from_bits(((word >> 10) & 7) as u8),
                watchdog_state: WatchdogState::from_bits(((word >> 13) & 1) as u8),
                fields: word,
            },
        )
    }

    /// Encode this configuration as a 16-bit word.
    pub fn encode(self) -> (word: u16)
        ensures
            word == self.spec_encode(),
    {
        let mut word: u16 = self.power_mode.to_bits() as u16;
        word = word | ((self.hysteresis.to_bits() as u16) << 2);
        word = word | ((self.output_stage.to_bits() as u16) << 4);
        word = word | ((self.pwm_frequency.to_bits() as u16) << 6);
        word = word | ((self.slow_filter.to_bits() as u16) << 8);
        word = word | ((self.fast_filter_threshold.to_bits() as u16) << 10);
        word = word | ((self.watchdog_state.to_bits() as u16) << 13);
        word = word | (self.fields & 0xC000);
        word
    }
}

impl vstd::std_specs::cmp::PartialEqSpecImpl for Configuration {
    open spec fn obeys_eq_spec() -> bool {
        true
    }

    open spec fn eq_spec(&self, other: &Configuration) -> bool {
        self.spec_eq(*other)
    }
}

impl PartialEq for Configuration {
    fn eq(&self, other: &Configuration) -> (equal: bool) {
        self.power_mode == other.power_mode && self.hysteresis == other.hysteresis
            && self.output_stage == other.output_stage && self.pwm_frequency
            == other.pwm_frequency && self.slow_filter == other.slow_filter
            && self.fast_filter_threshold == other.fast_filter_threshold && self.watchdog_state
            == other.watchdog_state && (self.fields & 0xC000) == (other.fields & 0xC000)
    }
}

/// Bounds of the masked bitfield codes.
proof fn lemma_mask_bounds(bits: u8)
    ensures
        bits & 3 < 4,
        bits & 7 < 8,
        bits & 1 < 2,
{
    assert(bits & 3 < 4 && bits & 7 < 8 && bits & 1 < 2) by (bit_vector);
}

/// The masked values of the small constant codes, so that decoding a
/// constant field code can be evaluated.
proof fn lemma_small_code_masks()
    ensures
        0u8 & 3 == 0 && 1u8 & 3 == 1 && 2u8 & 3 == 2 && 3u8 & 3 == 3,
        0u8 & 7 == 0 && 1u8 & 7 == 1 && 2u8 & 7 == 2 && 3u8 & 7 == 3 && 4u8 & 7 == 4 && 5u8 & 7
            == 5 && 6u8 & 7 == 6 && 7u8 & 7 == 7,
        0u8 & 1 == 0 && 1u8 & 1 == 1,
{
    assert((0u8 & 3 == 0 && 1u8 & 3 == 1 && 2u8 & 3 == 2 && 3u8 & 3 == 3) && (0u8 & 7 == 0 && 1u8
        & 7 == 1 && 2u8 & 7 == 2 && 3u8 & 7 == 3 && 4u8 & 7 == 4 && 5u8 & 7 == 5 && 6u8 & 7 == 6
        && 7u8 & 7 == 7) && (0u8 & 1 == 0 && 1u8 & 1 == 1)) by (bit_vector);
}

/// The power mode field is a total mapping on its two-bit codes: decoding any
/// byte and re-encoding yields the byte's low two bits, and every mode
/// decodes back from its own code.
pub proof fn lemma_power_mode_bits_round_trip()
    ensures
        forall|bits: u8| (#[trigger] PowerMode::spec_from_bits(bits)).spec_to_bits() == bits & 3,
        forall|mode: PowerMode| PowerMode::spec_from_bits(#[trigger] mode.spec_to_bits()) == mode,
{
    lemma_small_code_masks();
    assert forall|bits: u8| (#[trigger] PowerMode::spec_from_bits(bits)).spec_to_bits() == bits
        & 3 by {
        lemma_mask_bounds(bits);
    }
}

/// The hysteresis field is a total mapping on its two-bit codes.
pub proof fn lemma_hysteresis_bits_round_trip()
    ensures
        forall|bits: u8| (#[trigger] Hysteresis::spec_from_bits(bits)).spec_to_bits() == bits & 3,
        forall|hysteresis: Hysteresis|
            Hysteresis::spec_from_bits(#[trigger] hysteresis.spec_to_bits()) == hysteresis,
{
    lemma_small_code_masks();
    assert forall|bits: u8| (#[trigger] Hysteresis::spec_from_bits(bits)).spec_to_bits() == bits
        & 3 by {
        lemma_mask_bounds(bits);
    }
}

/// The output stage field round-trips on its three defined codes: decoding
/// succeeds exactly when the low two bits are not the undefined pattern, and
/// then re-encoding yields them; every stage decodes back from its own code.
pub proof fn lemma_output_stage_bits_round_trip()
    ensures
        forall|bits: u8| #[trigger] OutputStage::spec_try_from_bits(bits) is Ok <==> bits & 3 != 3,
        forall|bits: u8|
            #[trigger] OutputStage::spec_try_from_bits(bits) matches Ok(stage)
                ==> stage.spec_to_bits() == bits & 3,
        forall|stage: OutputStage|
            OutputStage::spec_try_from_bits(#[trigger] stage.spec_to_bits()) == Ok::<
                OutputStage,
                Error,
            >(stage),
{
    lemma_small_code_masks();
    assert forall|bits: u8|
        (#[trigger] OutputStage::spec_try_from_bits(bits) is Ok <==> bits & 3 != 3)
            && (OutputStage::spec_try_from_bits(bits) matches Ok(stage) ==> stage.spec_to_bits()
            == bits & 3) by {
        lemma_mask_bounds(bits);
    }
}

/// The PWM frequency field is a total mapping on its two-bit codes.
pub proof fn lemma_pwm_freq_bits_round_trip()
    ensures
        forall|bits: u8| (#[trigger] PwmFreq::spec_from_bits(bits)).spec_to_bits() == bits & 3,
        forall|freq: PwmFreq| PwmFreq::spec_from_bits(#[trigger] freq.spec_to_bits()) == freq,
{
    lemma_small_code_masks();
    assert forall|bits: u8| (#[trigger] PwmFreq::spec_from_bits(bits)).spec_to_bits() == bits
        & 3 by {
        lemma_mask_bounds(bits);
    }
}

/// The slow filter field is a total mapping on its two-bit codes.
pub proof fn lemma_slow_filter_bits_round_trip()
    ensures
        forall|bits: u8| (#[trigger] SlowFilter::spec_from_bits(bits)).spec_to_bits() == bits & 3,
        forall|filter: SlowFilter|
            SlowFilter::spec_from_bits(#[trigger] filter.spec_to_bits()) == filter,
{
    lemma_small_code_masks();
    assert forall|bits: u8| (#[trigger] SlowFilter::spec_from_bits(bits)).spec_to_bits() == bits
        & 3 by {
        lemma_mask_bounds(bits);
    }
}

/// The fast filter threshold field is a total mapping on its three-bit codes.
pub proof fn lemma_fast_filter_threshold_bits_round_trip()
    ensures
        forall|bits: u8|
            (#[trigger] FastFilterThreshold::spec_from_bits(bits)).spec_to_bits() == bits & 7,
        forall|threshold: FastFilterThreshold|
            FastFilterThreshold::spec_from_bits(#[trigger] threshold.spec_to_bits()) == threshold,
{
    lemma_small_code_masks();
    assert forall|bits: u8|
        (#[trigger] FastFilterThreshold::spec_from_bits(bits)).spec_to_bits() == bits & 7 by {
        lemma_mask_bounds(bits);
    }
}

/// The watchdog field is a total mapping on its one-bit codes.
pub proof fn lemma_watchdog_bits_round_trip()
    ensures
        forall|bits: u8| (#[trigger] WatchdogState::spec_from_bits(bits)).spec_to_bits() == bits
            & 1,
        forall|state: WatchdogState|
            WatchdogState::spec_from_bits(#[trigger] state.spec_to_bits()) == state,
{
    lemma_small_code_masks();
    assert forall|bits: u8| (#[trigger] WatchdogState::spec_from_bits(bits)).spec_to_bits() == bits
        & 1 by {
        lemma_mask_bounds(bits);
    }
}

/// Decoding fails exactly when bits 4 to 5 of the word hold the undefined
/// output stage pattern, regardless of all other bits, and then the error
/// carries that two-bit field value.
pub proof fn lemma_decode_fails_only_on_output_stage(word: u16)
    ensures
        Configuration::spec_decode(word) is Err <==> (word >> 4) & 3 == 3,
        Configuration::spec_decode(word) is Err ==> Configuration::spec_decode(word) == Err::<
            Configuration,
            Error,
        >(Error::OutputStageBitPattern(((word >> 4) & 3) as u8)),
{
    assert((((word >> 4) & 3) as u8) & 3 == ((word >> 4) & 3) as u8 && (((word >> 4) & 3) as u8)
        < 4 && ((((word >> 4) & 3) as u8) == 3 <==> (word >> 4) & 3 == 3)) by (bit_vector);
}

/// Decoding a word and re-encoding the result reproduces the word bit for
/// bit, the two reserved bits included.
pub proof fn lemma_decode_encode_identity(word: u16)
    ensures
        Configuration::spec_decode(word) matches Ok(config) ==> config.spec_encode() == word,
{
    if Configuration::spec_decode(word) is Ok {
        lemma_power_mode_bits_round_trip();
        lemma_hysteresis_bits_round_trip();
        lemma_output_stage_bits_round_trip();
        lemma_pwm_freq_bits_round_trip();
        lemma_slow_filter_bits_round_trip();
        lemma_fast_filter_threshold_bits_round_trip();
        lemma_watchdog_bits_round_trip();
        assert(((((word & 3) as u8) & 3) as u16) | ((((((word >> 2) & 3) as u8) & 3) as u16) << 2)
            | ((((((word >> 4) & 3) as u8) & 3) as u16) << 4) | ((((((word >> 6) & 3) as u8)
            & 3) as u16) << 6) | ((((((word >> 8) & 3) as u8) & 3) as u16) << 8) | ((((((word
            >> 10) & 7) as u8) & 7) as u16) << 10) | ((((((word >> 13) & 1) as u8) & 1) as u16)
            << 13) | (word & 0xC000) == word) by (bit_vector);
    }
}

/// Encoding any configuration and decoding the result reproduces every
/// defined field and the reserved bits: the decoded value is equal to the
/// original under the configuration equality.
pub proof fn lemma_encode_decode_identity(config: Configuration)
    ensures
        Configuration::spec_decode(config.spec_encode()) matches Ok(decoded)
            && decoded.spec_eq(config),
{
    lemma_power_mode_bits_round_trip();
    lemma_hysteresis_bits_round_trip();
    lemma_output_stage_bits_round_trip();
    lemma_pwm_freq_bits_round_trip();
    lemma_slow_filter_bits_round_trip();
    lemma_fast_filter_threshold_bits_round_trip();
    lemma_watchdog_bits_round_trip();
    let p = config.power_mode.spec_to_bits();
    let h = config.hysteresis.spec_to_bits();
    let o = config.output_stage.spec_to_bits();
    let q = config.pwm_frequency.spec_to_bits();
    let s = config.slow_filter.spec_to_bits();
    let f = config.fast_filter_threshold.spec_to_bits();
    let d = config.watchdog_state.spec_to_bits();
    let r = config.fields;
    assert(p < 4 && h < 4 && o < 3 && q < 4 && s < 4 && f < 8 && d < 2);
    let w = config.spec_encode();
    assert(w == (p as u16) | ((h as u16) << 2) | ((o as u16) << 4) | ((q as u16) << 6) | ((
    s as u16) << 8) | ((f as u16) << 10) | ((d as u16) << 13) | (r & 0xC000));
    assert(((w & 3) as u8 == p && ((w >> 2) & 3) as u8 == h && ((w >> 4) & 3) as u8 == o && ((w
        >> 6) & 3) as u8 == q && ((w >> 8) & 3) as u8 == s && ((w >> 10) & 7) as u8 == f && ((w
        >> 13) & 1) as u8 == d && (w & 0xC000) == (r & 0xC000))) by (bit_vector)
        requires
            p < 4,
            h < 4,
            o < 3,
            q < 4,
            s < 4,
            f < 8,
            d < 2,
            w == (p as u16) | ((h as u16) << 2) | ((o as u16) << 4) | ((q as u16) << 6) | ((
            s as u16) << 8) | ((f as u16) << 10) | ((d as u16) << 13) | (r & 0xC000),
    ;
}

} // verus!
