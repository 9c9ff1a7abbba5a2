//! Tests of the typed register accessors, against a scripted bus mock.

use as5600::bus::I2cBus;
use as5600::configuration::{
    Configuration, FastFilterThreshold, Hysteresis, OutputStage, PowerMode, PwmFreq, SlowFilter,
    WatchdogState,
};
use as5600::error::Error;
use as5600::status::{self, Status};
use as5600::As5600;
use embedded_hal::i2c::{ErrorKind, I2c};
use embedded_hal_mock::eh1::i2c::{Mock, Transaction};

struct MockBus {
    inner: Mock,
}

impl I2cBus for MockBus {
    type BusError = ErrorKind;

    fn transactions(&self) -> vstd::prelude::Seq<as5600::bus::Transaction> {
        unreachable!()
    }

    fn bus_write(&mut self, device: u8, payload: &Vec<u8>) -> Result<(), ErrorKind> {
        self.inner.write(device, payload.as_slice())
    }

    fn bus_write_read(
        &mut self,
        device: u8,
        request: &Vec<u8>,
        read_count: usize,
    ) -> Result<Vec<u8>, ErrorKind> {
        let mut buffer = vec![0u8; read_count];
        self.inner
            .write_read(device, request.as_slice(), &mut buffer)?;
        Ok(buffer)
    }
}

#[test]
fn construct_then_release_is_noop() {
    let i2c = Mock::new(&[]);
    let as5600 = As5600::with_address(12, MockBus { inner: i2c });
    let mut i2c = as5600.release();
    i2c.inner.done();
}

#[test]
fn test_detects_magnet() {
    let i2c = Mock::new(&[
        Transaction::write_read(0x36, vec![0x0b], vec![0x10]),
        Transaction::write_read(0x36, vec![0x0b], vec![0x8]),
        Transaction::write_read(0x36, vec![0x0b], vec![0x28]),
        Transaction::write_read(0x36, vec![0x0b], vec![0x20]),
        Transaction::write_read(0x36, vec![0x0b], vec![0x40]),
        Transaction::write_read(0x36, vec![0x0b], vec![0x18]),
        Transaction::write_read(0x36, vec![0x0b], vec![0x20]),
        Transaction::write_read(0x36, vec![0x0b], vec![0x30]),
        Transaction::write_read(0x36, vec![0x0b], vec![0x38]),
        Transaction::write_read(0x36, vec![0x0b], vec![0x20]),
    ]);
    let expected_status: [Result<Status, Error<ErrorKind>>; 10] = [
        Ok(Status::MagnetLow),
        Ok(Status::MagnetHigh),
        Ok(Status::MagnetDetectedHigh),
        Ok(Status::MagnetDetected),
        Err(Error::Status(status::Error::InvalidBitPattern(0))),
        Err(Error::Status(status::Error::InvalidBitPattern(0x18))),
        Ok(Status::MagnetDetected),
        Ok(Status::MagnetDetectedLow),
        Err(Error::Status(status::Error::InvalidBitPattern(0x38))),
        Ok(Status::MagnetDetected),
    ];
    let mut as5600 = As5600::with_address(0x36, MockBus { inner: i2c });

    for expected in expected_status {
        assert_eq!(expected, as5600.magnet_status());
    }

    let mut i2c = as5600.release();
    i2c.inner.done();
}

#[test]
fn get_zmco() {
    let i2c = Mock::new(&[
        Transaction::write_read(0x36, vec![0x00], vec![0b0000_0000]),
        Transaction::write_read(0x36, vec![0x00], vec![0b0000_0001]),
        Transaction::write_read(0x36, vec![0x00], vec![0b0000_0010]),
        Transaction::write_read(0x36, vec![0x00], vec![0b0000_0011]),
        Transaction::write_read(0x36, vec![0x00], vec![0b0000_0100]),
    ]);

    let expected_status = [0, 1, 2, 3, 0];
    let mut as5600 = As5600::with_address(0x36, MockBus { inner: i2c });

    for expected in expected_status {
        assert_eq!(Ok(expected), as5600.zmco());
    }

    let mut i2c = as5600.release();
    i2c.inner.done();
}

#[test]
fn get_zero_position() {
    let i2c = Mock::new(&[Transaction::write_read(
        0x36,
        vec![0x01],
        vec![0b1001_1010, 0b1010_1111],
    )]);

    let mut as5600 = As5600::with_address(0x36, MockBus { inner: i2c });

    assert_eq!(0b0000_1010_1010_1111, as5600.zero_position().unwrap());

    let mut i2c = as5600.release();
    i2c.inner.done();
}

#[test]
fn get_maximum_position() {
    let i2c = Mock::new(&[Transaction::write_read(
        0x36,
        vec![0x03],
        vec![0b1101_0010, 0b0010_1010],
    )]);

    let mut as5600 = As5600::with_address(0x36, MockBus { inner: i2c });

    assert_eq!(0b0000_0010_0010_1010, as5600.maximum_position().unwrap());

    let mut i2c = as5600.release();
    i2c.inner.done();
}

#[test]
fn get_maximum_angle() {
    let i2c = Mock::new(&[Transaction::write_read(
        0x36,
        vec![0x05],
        vec![0b0001_1110, 0b1010_1011],
    )]);

    let mut as5600 = As5600::with_address(0x36, MockBus { inner: i2c });

    assert_eq!(0b0000_1110_1010_1011, as5600.maximum_angle().unwrap());

    let mut i2c = as5600.release();
    i2c.inner.done();
}

#[test]
fn get_config() {
    let i2c = Mock::new(&[Transaction::write_read(
        0x36,
        vec![0x07],
        vec![0b1110_0011, 0b1010_1100],
    )]);

    let expected_config = Configuration {
        power_mode: PowerMode::Nom,
        hysteresis: Hysteresis::Lsb3,
        output_stage: OutputStage::DigitalPwm,
        pwm_frequency: PwmFreq::PwmF3,
        slow_filter: SlowFilter::X2,
        fast_filter_threshold: FastFilterThreshold::SlowFilterOnly,
        watchdog_state: WatchdogState::On,
        fields: 0b1110_0011_1010_1100,
    };

    let mut as5600 = As5600::with_address(0x36, MockBus { inner: i2c });

    assert_eq!(expected_config, as5600.config().unwrap());

    let mut i2c = as5600.release();
    i2c.inner.done();
}

#[test]
fn get_raw_angle() {
    let i2c = Mock::new(&[Transaction::write_read(
        0x36,
        vec![0x0c],
        vec![0b1110_0001, 0b0010_0011],
    )]);

    let expected_angle = 0x0123;

    let mut as5600 = As5600::with_address(0x36, MockBus { inner: i2c });

    assert_eq!(expected_angle, as5600.raw_angle().unwrap());

    let mut i2c = as5600.release();
    i2c.inner.done();
}

#[test]
fn get_angle() {
    let i2c = Mock::new(&[Transaction::write_read(
        0x36,
        vec![0x0e],
        vec![0b1110_1000, 0b0100_0010],
    )]);

    let expected_angle = 0x0842;

    let mut as5600 = As5600::with_address(0x36, MockBus { inner: i2c });

    assert_eq!(expected_angle, as5600.angle().unwrap());

    let mut i2c = as5600.release();
    i2c.inner.done();
}

#[test]
fn get_automatic_gain_control() {
    let i2c = Mock::new(&[Transaction::write_read(0x36, vec![0x1a], vec![0b0101_1010])]);

    let expected_agc = 0b0101_1010;

    let mut as5600 = As5600::with_address(0x36, MockBus { inner: i2c });

    assert_eq!(expected_agc, as5600.automatic_gain_control().unwrap());

    let mut i2c = as5600.release();
    i2c.inner.done();
}

#[test]
fn get_magnitude() {
    let i2c = Mock::new(&[Transaction::write_read(
        0x36,
        vec![0x1b],
        vec![0b0101_1010, 0b1101_0101],
    )]);

    let expected_magnitude = 0b0000_1010_1101_0101;

    let mut as5600 = As5600::with_address(0x36, MockBus { inner: i2c });

    assert_eq!(expected_magnitude, as5600.magnitude().unwrap());

    let mut i2c = as5600.release();
    i2c.inner.done();
}
