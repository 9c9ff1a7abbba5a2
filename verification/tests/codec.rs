//! Tests of the codecs, the register map, and the persistence guard
//! scenarios, with exact expected values.

use as5600::bus::{DelayProvider, I2cBus};
use as5600::configuration::{
    self, Configuration, FastFilterThreshold, Hysteresis, OutputStage, PowerMode, PwmFreq,
    SlowFilter, WatchdogState,
};
use as5600::driver::{config_persist_decision, mask_to_12_bits, position_persist_decision,
    word_from_be_bytes};
use as5600::error::Error;
use as5600::register::{self, Register};
use as5600::status::{self, Status};
use as5600::As5600;
use embedded_hal::i2c::{ErrorKind, I2c};
use embedded_hal_mock::eh1::i2c::{Mock, Transaction};

struct MockBus {
    inner: Mock,
}

impl I2cBus for MockBus {
    type BusError = ErrorKind;

    fn transactions(&self) -> vstd::prelude::Seq<as5600::bus::Transaction> {
        unreachable!()
    }

    fn bus_write(&mut self, device: u8, payload: &Vec<u8>) -> Result<(), ErrorKind> {
        self.inner.write(device, payload.as_slice())
    }

    fn bus_write_read(
        &mut self,
        device: u8,
        request: &Vec<u8>,
        read_count: usize,
    ) -> Result<Vec<u8>, ErrorKind> {
        let mut buffer = vec![0u8; read_count];
        self.inner
            .write_read(device, request.as_slice(), &mut buffer)?;
        Ok(buffer)
    }
}

/// Records every requested delay, in milliseconds.
struct RecordingDelay {
    recorded: Vec<u32>,
}

impl DelayProvider for RecordingDelay {
    fn delays_ms(&self) -> vstd::prelude::Seq<u32> {
        unreachable!()
    }

    fn delay_ms(&mut self, ms: u32) {
        self.recorded.push(ms);
    }
}

#[test]
fn config_decode_then_encode_reproduces_word() {
    let word: u16 = 0b1110_0011_1010_1100;
    let config = Configuration::decode(word).unwrap();
    assert_eq!(PowerMode::Nom, config.power_mode);
    assert_eq!(Hysteresis::Lsb3, config.hysteresis);
    assert_eq!(OutputStage::DigitalPwm, config.output_stage);
    assert_eq!(PwmFreq::PwmF3, config.pwm_frequency);
    assert_eq!(SlowFilter::X2, config.slow_filter);
    assert_eq!(FastFilterThreshold::SlowFilterOnly, config.fast_filter_threshold);
    assert_eq!(WatchdogState::On, config.watchdog_state);
    assert_eq!(word, config.encode());

    // The reserved bits 14 to 15 round-trip too, whatever they hold.
    for word in [0x0000u16, 0x4000, 0x8000, 0xC000, 0x812A, 0x3FCF] {
        let config = Configuration::decode(word).unwrap();
        assert_eq!(word, config.encode());
    }
}

#[test]
fn config_encode_then_decode_reproduces_config() {
    let config = Configuration {
        power_mode: PowerMode::Lpm2,
        hysteresis: Hysteresis::Lsb1,
        output_stage: OutputStage::ReducedAnalog,
        pwm_frequency: PwmFreq::PwmF4,
        slow_filter: SlowFilter::X4,
        fast_filter_threshold: FastFilterThreshold::Lsb24,
        watchdog_state: WatchdogState::Off,
        fields: 0x8000,
    };
    assert_eq!(config, Configuration::decode(config.encode()).unwrap());

    let config = Configuration {
        power_mode: PowerMode::Lpm3,
        hysteresis: Hysteresis::Off,
        output_stage: OutputStage::Analog,
        pwm_frequency: PwmFreq::PwmF1,
        slow_filter: SlowFilter::X16,
        fast_filter_threshold: FastFilterThreshold::Lsb10,
        watchdog_state: WatchdogState::On,
        fields: 0xC000,
    };
    assert_eq!(config, Configuration::decode(config.encode()).unwrap());
}

#[test]
fn config_equality_ignores_transient_word_bits() {
    // Two raw words that decode to the same fields and the same reserved
    // bits compare equal even though the carried words differ.
    let first = Configuration::decode(0b0000_0011_1010_1100).unwrap();
    let mut second = first;
    second.fields = 0b0011_1111_1111_1111;
    assert_eq!(first, second);
    // A difference in the reserved bits makes them unequal.
    second.fields = 0b0100_0011_1010_1100;
    assert_ne!(first, second);
}

#[test]
fn config_decode_rejects_undefined_output_stage() {
    // Bits 4 to 5 equal to the undefined pattern fail, whatever the rest.
    for word in [0x0030u16, 0xFFFF, 0x0031, 0b1010_1010_0011_0101, 0xC030] {
        assert_eq!(
            Err(configuration::Error::OutputStageBitPattern(0b11)),
            Configuration::decode(word)
        );
    }
    // Any other output stage pattern decodes, whatever the rest.
    for word in [0x0000u16, 0xFFCF, 0x0010, 0x0020, 0b1111_1111_1110_1111] {
        assert!(Configuration::decode(word).is_ok());
    }
}

#[test]
fn pwm_freq_names_its_frequency() {
    assert_eq!(115, PwmFreq::PwmF1.to_hz());
    assert_eq!(230, PwmFreq::PwmF2.to_hz());
    assert_eq!(460, PwmFreq::PwmF3.to_hz());
    assert_eq!(920, PwmFreq::PwmF4.to_hz());
}

#[test]
fn register_map_round_trips() {
    let defined: [u8; 11] = [
        0x00, 0x01, 0x03, 0x05, 0x07, 0x0B, 0x0C, 0x0E, 0x1A, 0x1B, 0xFF,
    ];
    for byte in 0..=255u8 {
        match Register::register_of(byte) {
            Ok(reg) => {
                assert!(defined.contains(&byte));
                assert_eq!(byte, reg.address_of());
            }
            Err(error) => {
                assert!(!defined.contains(&byte));
                assert_eq!(register::Error::UnknownRegister(byte), error);
            }
        }
    }
}

#[test]
fn status_codec_round_trips() {
    let all = [
        (Status::MagnetHigh, 0x08u8),
        (Status::MagnetLow, 0x10),
        (Status::MagnetDetected, 0x20),
        (Status::MagnetDetectedHigh, 0x28),
        (Status::MagnetDetectedLow, 0x30),
    ];
    for (status, byte) in all {
        assert_eq!(byte, status.encode());
        assert_eq!(Ok(status), Status::decode(byte));
    }
    // Bits outside the magnet detection field are ignored.
    assert_eq!(Ok(Status::MagnetDetected), Status::decode(0x67));
    // Any other masked value fails with the masked byte.
    assert_eq!(
        Err(status::Error::InvalidBitPattern(0x18)),
        Status::decode(0x18)
    );
    assert_eq!(
        Err(status::Error::InvalidBitPattern(0x00)),
        Status::decode(0x47)
    );
    assert_eq!(
        Err(status::Error::InvalidBitPattern(0x38)),
        Status::decode(0xF8)
    );
}

#[test]
fn word_helpers_compute_exact_values() {
    assert_eq!(0x1234, word_from_be_bytes(0x12, 0x34));
    assert_eq!(0x0123, mask_to_12_bits(0xF123));
    assert_eq!(0x0FFF, mask_to_12_bits(0xFFFF));
}

#[test]
fn persist_decisions_follow_the_guard_rules() {
    assert_eq!(Ok(()), config_persist_decision::<ErrorKind>(0));
    for count in 1..=3u8 {
        assert_eq!(
            Err(Error::MangConfigPersistenceExhausted),
            config_persist_decision::<ErrorKind>(count)
        );
    }
    assert_eq!(
        Ok(()),
        position_persist_decision::<ErrorKind>(2, Status::MagnetDetected)
    );
    assert_eq!(
        Err(Error::MaximumPositionPersistsReached),
        position_persist_decision::<ErrorKind>(3, Status::MagnetDetected)
    );
    assert_eq!(
        Err(Error::MagnetRequired),
        position_persist_decision::<ErrorKind>(0, Status::MagnetLow)
    );
}

#[test]
fn config_persist_with_counter_one_writes_nothing() {
    // The persist counter reads one: the attempt fails and issues no bus
    // write; the only transaction is the counter read.
    let i2c = Mock::new(&[Transaction::write_read(0x36, vec![0x00], vec![0b0000_0001])]);
    let mut delay = RecordingDelay { recorded: vec![] };
    let mut as5600 = As5600::new(MockBus { inner: i2c });
    assert_eq!(
        Err(Error::MangConfigPersistenceExhausted),
        as5600.persist_maximum_angle_and_config_settings(&mut delay)
    );
    assert!(delay.recorded.is_empty());
    as5600.release().inner.done();
}

#[test]
fn position_persist_without_magnet_writes_nothing() {
    // The persist counter reads two and the status reads magnet-low: the
    // attempt fails without writing the burn command.
    let i2c = Mock::new(&[
        Transaction::write_read(0x36, vec![0x00], vec![0b0000_0010]),
        Transaction::write_read(0x36, vec![0x0b], vec![0x10]),
    ]);
    let mut delay = RecordingDelay { recorded: vec![] };
    let mut as5600 = As5600::new(MockBus { inner: i2c });
    assert_eq!(
        Err(Error::MagnetRequired),
        as5600.persist_position_settings(&mut delay)
    );
    assert!(delay.recorded.is_empty());
    as5600.release().inner.done();
}

#[test]
fn position_persist_with_magnet_burns_then_waits() {
    // The persist counter reads zero and a magnet is detected: the burn
    // command goes to the burn register and the settle delay follows.
    let i2c = Mock::new(&[
        Transaction::write_read(0x36, vec![0x00], vec![0b0000_0000]),
        Transaction::write_read(0x36, vec![0x0b], vec![0x20]),
        Transaction::write(0x36, vec![0xFF, 0x80]),
    ]);
    let mut delay = RecordingDelay { recorded: vec![] };
    let mut as5600 = As5600::new(MockBus { inner: i2c });
    assert_eq!(Ok(()), as5600.persist_position_settings(&mut delay));
    assert_eq!(vec![1u32], delay.recorded);
    as5600.release().inner.done();
}

#[test]
fn config_read_with_undefined_output_stage_fails() {
    let i2c = Mock::new(&[Transaction::write_read(
        0x36,
        vec![0x07],
        vec![0b0000_0000, 0b0011_0000],
    )]);
    let mut as5600 = As5600::new(MockBus { inner: i2c });
    assert_eq!(
        Err(Error::Configuration(configuration::Error::OutputStageBitPattern(0b11))),
        as5600.config()
    );
    as5600.release().inner.done();
}
