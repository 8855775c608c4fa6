use as5600::as5600::As5600;
use as5600::configuration::{
    Configuration, FastFilterThreshold, Hysteresis, OutputStage, PowerMode, PwmFreq,
    SlowFilterMode, WatchdogState,
};
use as5600::error::Error;
use as5600::register::DEFAULT_I2C_ADDRESS;
use as5600::status::Status;
use embedded_hal::delay::DelayNs;
use embedded_hal::i2c::{ErrorKind, ErrorType, I2c, Operation};

/// A device with a flat register file that logs every transaction.
#[derive(Debug, PartialEq, Eq)]
struct MockBus {
    regs: Vec<u8>,
    writes: Vec<Vec<u8>>,
    reads: Vec<u8>,
    addresses: Vec<u8>,
    failure: Option<ErrorKind>,
}

impl MockBus {
    fn new() -> Self {
        MockBus { regs: vec![0; 256], writes: Vec::new(), reads: Vec::new(), addresses: Vec::new(), failure: None }
    }

    fn with(pairs: &[(u8, u8)]) -> Self {
        let mut bus = MockBus::new();
        for &(register, value) in pairs {
            bus.regs[register as usize] = value;
        }
        bus
    }
}

impl ErrorType for MockBus {
    type Error = ErrorKind;
}

impl I2c for MockBus {
    fn transaction(&mut self, address: u8, operations: &mut [Operation<'_>]) -> Result<(), ErrorKind> {
        self.addresses.push(address);
        if let Some(kind) = self.failure {
            return Err(kind);
        }
        let mut pointer = 0usize;
        for op in operations.iter_mut() {
            match op {
                Operation::Write(bytes) => {
                    pointer = bytes[0] as usize;
                    if bytes.len() > 1 {
                        self.writes.push(bytes.to_vec());
                        for (i, b) in bytes[1..].iter().enumerate() {
                            self.regs[(pointer + i) % 256] = *b;
                        }
                    }
                }
                Operation::Read(buffer) => {
                    self.reads.push(pointer as u8);
                    for (i, b) in buffer.iter_mut().enumerate() {
                        *b = self.regs[(pointer + i) % 256];
                    }
                }
            }
        }
        Ok(())
    }
}

#[derive(Default)]
struct MockDelay {
    ns: u64,
}

impl DelayNs for MockDelay {
    fn delay_ns(&mut self, ns: u32) {
        self.ns += ns as u64;
    }
}

const ZMCO: u8 = 0x00;
const ZPOS: u8 = 0x01;
const MPOS: u8 = 0x03;
const MANG: u8 = 0x05;
const CONF: u8 = 0x07;
const RAW_ANGLE: u8 = 0x0C;
const STATUS: u8 = 0x0B;
const ANGLE: u8 = 0x0E;
const AGC: u8 = 0x1A;
const MAGNITUDE: u8 = 0x1B;
const BURN: u8 = 0xFF;

#[test]
fn angle_masks_to_twelve_bits() {
    let mut dev = As5600::new(MockBus::with(&[(ANGLE, 0x0F), (ANGLE + 1, 0xFF)]));
    assert_eq!(dev.angle(), Ok(0x0FFF));
    assert_eq!(dev.angle(), Ok(4095));
    let bus = dev.release();
    assert_eq!(bus.reads, vec![ANGLE, ANGLE]);
    assert_eq!(bus.addresses, vec![DEFAULT_I2C_ADDRESS, DEFAULT_I2C_ADDRESS]);
}

#[test]
fn twelve_bit_getters_clear_top_bits() {
    let mut dev = As5600::new(MockBus::with(&[
        (RAW_ANGLE, 0xF1),
        (RAW_ANGLE + 1, 0x23),
        (ZPOS, 0xA4),
        (ZPOS + 1, 0x56),
        (MPOS, 0xFF),
        (MPOS + 1, 0xFF),
        (MANG, 0x37),
        (MANG + 1, 0x89),
        (MAGNITUDE, 0x8A),
        (MAGNITUDE + 1, 0xBC),
    ]));
    assert_eq!(dev.raw_angle(), Ok(0x0123));
    assert_eq!(dev.zero_position(), Ok(0x0456));
    assert_eq!(dev.maximum_position(), Ok(0x0FFF));
    assert_eq!(dev.maximum_angle(), Ok(0x0789));
    assert_eq!(dev.magnitude(), Ok(0x0ABC));
}

#[test]
fn with_address_uses_that_address() {
    let mut dev = As5600::with_address(0x40, MockBus::with(&[(AGC, 0x80)]));
    assert_eq!(dev.automatic_gain_control(), Ok(0x80));
    let bus = dev.release();
    assert_eq!(bus.addresses, vec![0x40]);
    assert_eq!(bus.reads, vec![AGC]);
}

#[test]
fn zmco_keeps_two_bits() {
    let mut dev = As5600::new(MockBus::with(&[(ZMCO, 0b1111_1110)]));
    assert_eq!(dev.zmco(), Ok(2));
}

#[test]
fn setters_write_big_endian_twelve_bits() {
    let mut dev = As5600::new(MockBus::new());
    assert_eq!(dev.set_zero_position(0xF123), Ok(()));
    assert_eq!(dev.set_maximum_position(0x0ABC), Ok(()));
    assert_eq!(dev.set_maximum_angle(0xFFFF), Ok(()));
    let bus = dev.release();
    assert_eq!(bus.writes, vec![vec![ZPOS, 0x01, 0x23], vec![MPOS, 0x0A, 0xBC], vec![MANG, 0x0F, 0xFF]]);
}

#[test]
fn magnet_status_decodes() {
    let mut dev = As5600::new(MockBus::with(&[(STATUS, 0b0010_0111)]));
    assert_eq!(dev.magnet_status(), Ok(Status::MagnetDetected));
    let mut dev = As5600::new(MockBus::with(&[(STATUS, 0b0011_1000)]));
    assert_eq!(
        dev.magnet_status(),
        Err(Error::Status(as5600::status::error::Error::BitPattern(0b0011_1000)))
    );
}

#[test]
fn config_reads_and_decodes() {
    // watchdog on, threshold 0b011, slow filter 0b01, pwm 0b10, output 0b10, hysteresis 0b01, power 0b10
    let raw: u16 = 0b11_1_011_01_10_10_01_10;
    let mut dev = As5600::new(MockBus::with(&[(CONF, (raw >> 8) as u8), (CONF + 1, raw as u8)]));
    let expected = Configuration {
        power_mode: PowerMode::Lpm2,
        hysteresis: Hysteresis::Lsb1,
        output_stage: OutputStage::DigitalPwm,
        pwm_frequency: PwmFreq::PwmF3,
        slow_filter: SlowFilterMode::X8,
        fast_filter_threshold: FastFilterThreshold::Lsb9,
        watchdog_state: WatchdogState::On,
    };
    assert_eq!(dev.config(), Ok(expected));
}

#[test]
fn config_with_invalid_output_stage_fails() {
    let raw: u16 = 0b0000_0000_0011_0000;
    let mut dev = As5600::new(MockBus::with(&[(CONF, (raw >> 8) as u8), (CONF + 1, raw as u8)]));
    assert_eq!(
        dev.config(),
        Err(Error::Configuration(as5600::configuration::error::Error::OutputStageBitPattern(3)))
    );
}

#[test]
fn set_config_keeps_factory_bits() {
    let raw: u16 = 0b11_00_01_10_10_01_011_1;
    let mut dev = As5600::new(MockBus::with(&[(CONF, (raw >> 8) as u8), (CONF + 1, raw as u8)]));
    let config = Configuration {
        power_mode: PowerMode::Lpm1,
        hysteresis: Hysteresis::Off,
        output_stage: OutputStage::Analog,
        pwm_frequency: PwmFreq::PwmF1,
        slow_filter: SlowFilterMode::X16,
        fast_filter_threshold: FastFilterThreshold::SlowFilterOnly,
        watchdog_state: WatchdogState::Off,
    };
    assert_eq!(dev.set_config(config), Ok(()));
    let bus = dev.release();
    assert_eq!(bus.reads, vec![CONF]);
    assert_eq!(bus.writes, vec![vec![CONF, 0b1100_0000, 0b0000_0001]]);
    assert_eq!(bus.writes[0][1] >> 6, 0b11);
}

#[test]
fn set_config_clears_factory_bits_that_were_clear() {
    let mut dev = As5600::new(MockBus::with(&[(CONF, 0x3F), (CONF + 1, 0xFF)]));
    let config = Configuration {
        power_mode: PowerMode::Lpm3,
        hysteresis: Hysteresis::Lsb3,
        output_stage: OutputStage::ReducedAnalog,
        pwm_frequency: PwmFreq::PwmF4,
        slow_filter: SlowFilterMode::X2,
        fast_filter_threshold: FastFilterThreshold::Lsb10,
        watchdog_state: WatchdogState::On,
    };
    assert_eq!(dev.set_config(config), Ok(()));
    assert_eq!(dev.release().writes, vec![vec![CONF, 0x3F, 0xDF]]);
}

#[test]
fn bus_failure_is_communication_error() {
    let mut bus = MockBus::new();
    bus.failure = Some(ErrorKind::Other);
    let mut dev = As5600::new(bus);
    assert_eq!(dev.angle(), Err(Error::Communication(ErrorKind::Other)));
    assert_eq!(dev.set_zero_position(1), Err(Error::Communication(ErrorKind::Other)));
    let mut delay = MockDelay::default();
    assert_eq!(dev.persist_position_settings(&mut delay), Err(Error::Communication(ErrorKind::Other)));
    assert_eq!(delay.ns, 0);
}

#[test]
fn position_burn_refused_at_three_persists() {
    let mut dev = As5600::new(MockBus::with(&[(ZMCO, 3), (STATUS, 0b0010_0000)]));
    let mut delay = MockDelay::default();
    assert_eq!(dev.persist_position_settings(&mut delay), Err(Error::MaximumPositionPersistsReached));
    let bus = dev.release();
    assert!(bus.writes.is_empty());
    assert_eq!(bus.reads, vec![ZMCO]);
    assert_eq!(delay.ns, 0);
}

#[test]
fn position_burn_needs_magnet_but_angle_burn_does_not() {
    let mut dev = As5600::new(MockBus::with(&[(ZMCO, 0), (STATUS, 0)]));
    let mut delay = MockDelay::default();
    assert_eq!(dev.persist_position_settings(&mut delay), Err(Error::MagnetRequired));
    assert_eq!(delay.ns, 0);
    assert_eq!(dev.persist_maximum_angle_and_config_settings(&mut delay), Ok(()));
    assert!(delay.ns >= 1_000_000);
    let bus = dev.release();
    assert_eq!(bus.writes, vec![vec![BURN, 0x40]]);
    assert_eq!(bus.reads, vec![ZMCO, STATUS, ZMCO]);
}

#[test]
fn position_burn_with_magnet_below_limit() {
    for zmco in 0u8..3 {
        let mut dev = As5600::new(MockBus::with(&[(ZMCO, zmco), (STATUS, 0b0010_0000)]));
        let mut delay = MockDelay::default();
        assert_eq!(dev.persist_position_settings(&mut delay), Ok(()));
        assert!(delay.ns >= 1_000_000);
        let bus = dev.release();
        assert_eq!(bus.writes, vec![vec![BURN, 0x80]]);
        assert_eq!(bus.reads, vec![ZMCO, STATUS]);
    }
}

#[test]
fn position_burn_with_weak_magnet_is_refused() {
    let mut dev = As5600::new(MockBus::with(&[(ZMCO, 1), (STATUS, 0b0011_0000)]));
    let mut delay = MockDelay::default();
    assert_eq!(dev.persist_position_settings(&mut delay), Err(Error::MagnetRequired));
    assert!(dev.release().writes.is_empty());
}

#[test]
fn angle_config_burn_refused_after_any_position_burn() {
    for zmco in 1u8..4 {
        let mut dev = As5600::new(MockBus::with(&[(ZMCO, zmco)]));
        let mut delay = MockDelay::default();
        assert_eq!(
            dev.persist_maximum_angle_and_config_settings(&mut delay),
            Err(Error::MangConfigPersistenceExhausted)
        );
        assert!(dev.release().writes.is_empty());
        assert_eq!(delay.ns, 0);
    }
}

#[test]
fn bus_error_kind_is_passed_on() {
    let mut bus = MockBus::with(&[(ZMCO, 0)]);
    bus.failure = Some(ErrorKind::Overrun);
    let mut dev = As5600::with_address(0x41, bus);
    let mut delay = MockDelay::default();
    assert_eq!(dev.config(), Err(Error::Communication(ErrorKind::Overrun)));
    assert_eq!(dev.zmco(), Err(Error::Communication(ErrorKind::Overrun)));
    assert_eq!(dev.magnet_status(), Err(Error::Communication(ErrorKind::Overrun)));
    assert_eq!(
        dev.persist_maximum_angle_and_config_settings(&mut delay),
        Err(Error::Communication(ErrorKind::Overrun))
    );
    assert_eq!(delay.ns, 0);
    let bus = dev.release();
    assert!(bus.writes.is_empty());
    assert_eq!(bus.addresses, vec![0x41; 4]);
}

#[test]
fn burn_goes_to_the_handle_address() {
    let mut dev = As5600::with_address(0x2A, MockBus::with(&[(ZMCO, 1), (STATUS, 0b0010_0000)]));
    let mut delay = MockDelay::default();
    assert_eq!(dev.persist_position_settings(&mut delay), Ok(()));
    let bus = dev.release();
    assert_eq!(bus.addresses, vec![0x2A, 0x2A, 0x2A]);
    assert_eq!(bus.writes, vec![vec![BURN, 0x80]]);
}
