use as5600::configuration::error::Error;
use as5600::configuration::{
    Configuration, FastFilterThreshold, Hysteresis, OutputStage, PowerMode, PwmFreq,
    SlowFilterMode, WatchdogState,
};
use as5600::error::Error as DriverError;
use as5600::persistence::{angle_config_guard, position_counter_guard, position_guard};
use as5600::register::Register;
use as5600::status::Status;
use as5600::wire::{from_be_bytes, low_12_bits, to_be_bytes};

const POWER: [PowerMode; 4] = [PowerMode::Nom, PowerMode::Lpm1, PowerMode::Lpm2, PowerMode::Lpm3];
const HYST: [Hysteresis; 4] = [Hysteresis::Off, Hysteresis::Lsb1, Hysteresis::Lsb2, Hysteresis::Lsb3];
const OUTPUT: [OutputStage; 3] = [OutputStage::Analog, OutputStage::ReducedAnalog, OutputStage::DigitalPwm];
const PWM: [PwmFreq; 4] = [PwmFreq::PwmF1, PwmFreq::PwmF2, PwmFreq::PwmF3, PwmFreq::PwmF4];
const SLOW: [SlowFilterMode; 4] = [SlowFilterMode::X16, SlowFilterMode::X8, SlowFilterMode::X4, SlowFilterMode::X2];
const FAST: [FastFilterThreshold; 8] = [
    FastFilterThreshold::SlowFilterOnly,
    FastFilterThreshold::Lsb6,
    FastFilterThreshold::Lsb7,
    FastFilterThreshold::Lsb9,
    FastFilterThreshold::Lsb18,
    FastFilterThreshold::Lsb21,
    FastFilterThreshold::Lsb24,
    FastFilterThreshold::Lsb10,
];
const WATCHDOG: [WatchdogState; 2] = [WatchdogState::Off, WatchdogState::On];

fn all_configurations() -> Vec<Configuration> {
    let mut all = Vec::new();
    for &power_mode in &POWER {
        for &hysteresis in &HYST {
            for &output_stage in &OUTPUT {
                for &pwm_frequency in &PWM {
                    for &slow_filter in &SLOW {
                        for &fast_filter_threshold in &FAST {
                            for &watchdog_state in &WATCHDOG {
                                all.push(Configuration {
                                    power_mode,
                                    hysteresis,
                                    output_stage,
                                    pwm_frequency,
                                    slow_filter,
                                    fast_filter_threshold,
                                    watchdog_state,
                                });
                            }
                        }
                    }
                }
            }
        }
    }
    all
}

#[test]
fn every_configuration_round_trips() {
    let all = all_configurations();
    assert_eq!(all.len(), 4 * 4 * 3 * 4 * 4 * 8 * 2);
    for c in all {
        let raw = c.encode();
        assert_eq!(raw & 0xC000, 0);
        assert_eq!(Configuration::decode(raw), Ok(c));
    }
}

#[test]
fn decode_ignores_factory_bits() {
    for c in all_configurations() {
        assert_eq!(Configuration::decode(c.encode() | 0xC000), Ok(c));
        assert_eq!(Configuration::decode(c.encode() | 0x4000), Ok(c));
    }
}

#[test]
fn output_stage_three_fails_closed() {
    for raw in 0..=u16::MAX {
        let r = Configuration::decode(raw);
        if (raw >> 4) & 0b11 == 0b11 {
            assert_eq!(r, Err(Error::OutputStageBitPattern(3)));
        } else {
            assert_eq!(r.unwrap().encode(), raw & 0x3FFF);
        }
    }
}

#[test]
fn encode_places_each_field() {
    let c = Configuration {
        power_mode: PowerMode::Lpm3,
        hysteresis: Hysteresis::Off,
        output_stage: OutputStage::Analog,
        pwm_frequency: PwmFreq::PwmF1,
        slow_filter: SlowFilterMode::X16,
        fast_filter_threshold: FastFilterThreshold::SlowFilterOnly,
        watchdog_state: WatchdogState::Off,
    };
    assert_eq!(c.encode(), 0b11);
    let c2 = Configuration { hysteresis: Hysteresis::Lsb2, ..c };
    assert_eq!(c2.encode(), 0b10_11);
    let c3 = Configuration { output_stage: OutputStage::DigitalPwm, ..c };
    assert_eq!(c3.encode(), 0b10_00_11);
    let c4 = Configuration { pwm_frequency: PwmFreq::PwmF2, ..c };
    assert_eq!(c4.encode(), 0b01_00_00_11);
    let c5 = Configuration { slow_filter: SlowFilterMode::X2, ..c };
    assert_eq!(c5.encode(), 0b11_00_00_00_11);
    let c6 = Configuration { fast_filter_threshold: FastFilterThreshold::Lsb24, ..c };
    assert_eq!(c6.encode(), 0b110_00_00_00_00_11);
    let c7 = Configuration { watchdog_state: WatchdogState::On, ..c };
    assert_eq!(c7.encode(), 0b1_000_00_00_00_00_11);
}

#[test]
fn merged_with_keeps_top_bits() {
    let current: u16 = 0b11_00_01_10_10_01_011_1;
    let c = Configuration {
        power_mode: PowerMode::Lpm1,
        hysteresis: Hysteresis::Off,
        output_stage: OutputStage::Analog,
        pwm_frequency: PwmFreq::PwmF1,
        slow_filter: SlowFilterMode::X16,
        fast_filter_threshold: FastFilterThreshold::SlowFilterOnly,
        watchdog_state: WatchdogState::Off,
    };
    let merged = c.merged_with(current);
    assert_eq!(merged >> 14, 0b11);
    assert_eq!(merged, 0xC001);
    for top in 0u16..4 {
        for cfg in all_configurations().into_iter().step_by(97) {
            let r = cfg.merged_with((top << 14) | 0x1234);
            assert_eq!(r >> 14, top);
            assert_eq!(r & 0x3FFF, cfg.encode());
        }
    }
}

#[test]
fn field_patterns_map_both_ways() {
    assert_eq!(PowerMode::from_bits(2), Some(PowerMode::Lpm2));
    assert_eq!(PowerMode::from_bits(4), None);
    assert_eq!(OutputStage::from_bits(3), None);
    assert_eq!(FastFilterThreshold::from_bits(7), Some(FastFilterThreshold::Lsb10));
    assert_eq!(FastFilterThreshold::from_bits(8), None);
    assert_eq!(WatchdogState::from_bits(2), None);
    assert_eq!(SlowFilterMode::X4.bits(), 2);
    assert_eq!(Hysteresis::Lsb3.bits(), 3);
}

#[test]
fn pwm_frequencies_in_hz() {
    assert_eq!(PwmFreq::PwmF1.to_hz(), 115);
    assert_eq!(PwmFreq::PwmF2.to_hz(), 230);
    assert_eq!(PwmFreq::PwmF3.to_hz(), 460);
    assert_eq!(PwmFreq::PwmF4.to_hz(), 920);
}

#[test]
fn status_patterns() {
    assert_eq!(Status::decode([0b0000_0000]), Ok(Status::MagnetNotDetected));
    assert_eq!(Status::decode([0b0010_0000]), Ok(Status::MagnetDetected));
    assert_eq!(Status::decode([0b0010_1000]), Ok(Status::MagnetTooStrong));
    assert_eq!(Status::decode([0b0011_0000]), Ok(Status::MagnetTooWeak));
    assert_eq!(Status::decode([0b1100_0111]), Ok(Status::MagnetNotDetected));
    for byte in [0b0000_1000u8, 0b0001_0000, 0b0001_1000, 0b0011_1000, 0b1011_1001] {
        assert_eq!(Status::decode([byte]), Err(as5600::status::error::Error::BitPattern(byte)));
    }
}

#[test]
fn twelve_bit_mask_over_all_values() {
    for raw in 0..=u16::MAX {
        let v = low_12_bits(raw);
        assert_eq!(v & 0xF000, 0);
        assert_eq!(v, raw % 4096);
    }
}

#[test]
fn big_endian_bytes() {
    assert_eq!(from_be_bytes([0x0F, 0xFF]), 0x0FFF);
    assert_eq!(from_be_bytes([0x12, 0x34]), 0x1234);
    assert_eq!(to_be_bytes(0xABCD), [0xAB, 0xCD]);
    assert_eq!(low_12_bits(from_be_bytes([0x0F, 0xFF])), 4095);
}

#[test]
fn register_addresses() {
    assert_eq!(Register::Zmco.address(), 0x00);
    assert_eq!(Register::Zpos.address(), 0x01);
    assert_eq!(Register::Mpos.address(), 0x03);
    assert_eq!(Register::Mang.address(), 0x05);
    assert_eq!(Register::Conf.address(), 0x07);
    assert_eq!(Register::RawAngle.address(), 0x0C);
    assert_eq!(Register::Status.address(), 0x0B);
    assert_eq!(Register::Angle.address(), 0x0E);
    assert_eq!(Register::Agc.address(), 0x1A);
    assert_eq!(Register::Magnitude.address(), 0x1B);
    assert_eq!(Register::Burn.address(), 0xFF);
}

#[test]
fn guard_thresholds() {
    assert_eq!(angle_config_guard(0), Ok(()));
    for zmco in 1u8..=3 {
        assert_eq!(angle_config_guard(zmco), Err(DriverError::MangConfigPersistenceExhausted));
    }
    for zmco in 0u8..3 {
        assert_eq!(position_counter_guard(zmco), Ok(()));
        assert_eq!(position_guard(zmco, Status::MagnetDetected), Ok(()));
        assert_eq!(position_guard(zmco, Status::MagnetNotDetected), Err(DriverError::MagnetRequired));
        assert_eq!(position_guard(zmco, Status::MagnetTooWeak), Err(DriverError::MagnetRequired));
        assert_eq!(position_guard(zmco, Status::MagnetTooStrong), Err(DriverError::MagnetRequired));
    }
    assert_eq!(position_counter_guard(3), Err(DriverError::MaximumPositionPersistsReached));
    for status in [Status::MagnetDetected, Status::MagnetNotDetected, Status::MagnetTooWeak] {
        assert_eq!(position_guard(3, status), Err(DriverError::MaximumPositionPersistsReached));
    }
}
