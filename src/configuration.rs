//! The `CONF` register: seven sub-fields packed into its low 14 bits.
//!
//! Bit layout (bit 0 is the least significant):
//! power mode 1:0, hysteresis 3:2, output stage 5:4, PWM frequency 7:6,
//! slow filter 9:8, fast filter threshold 12:10, watchdog 13.
//! Bits 15:14 are factory bits that this module never interprets.

use vstd::prelude::*;

/// Errors
pub mod error;

use self::error::Error;

verus! {

/// Mask of the bits that the seven configuration fields occupy.
pub const FIELD_BITS: u16 = 0x3FFF;

/// Mask of the two factory bits above the configuration fields.
pub const RESERVED_BITS: u16 = 0xC000;

/// The `width_mask`-wide field of `raw` that starts at bit `shift`.
pub open spec fn field(raw: u16, shift: u16, width_mask: u16) -> u16 {
    (raw >> shift) & width_mask
}

/// Power mode.
#[derive(Debug, PartialEq, Eq, Copy, Clone, Structural)]
pub enum PowerMode {
    /// Normal power.
    Nom,
    /// Low Power Mode 1.
    Lpm1,
    /// Low Power Mode 2.
    Lpm2,
    /// Low Power Mode 3.
    Lpm3,
}

impl PowerMode {
    pub open spec fn spec_bits(self) -> u16 {
        match self {
            PowerMode::Nom => 0,
            PowerMode::Lpm1 => 1,
            PowerMode::Lpm2 => 2,
            PowerMode::Lpm3 => 3,
        }
    }

    pub open spec fn spec_from_bits(b: u16) -> Option<PowerMode> {
        if b == 0 {
            Some(PowerMode::Nom)
        } else if b == 1 {
            Some(PowerMode::Lpm1)
        } else if b == 2 {
            Some(PowerMode::Lpm2)
        } else if b == 3 {
            Some(PowerMode::Lpm3)
        } else {
            None
        }
    }

    /// The field's bit pattern.
    pub fn bits(self) -> (r: u16)
        ensures
            r == self.spec_bits(),
    {
        match self {
            PowerMode::Nom => 0,
            PowerMode::Lpm1 => 1,
            PowerMode::Lpm2 => 2,
            PowerMode::Lpm3 => 3,
        }
    }

    /// The mode a bit pattern stands for, if any.
    pub fn from_bits(b: u16) -> (r: Option<PowerMode>)
        ensures
            r == Self::spec_from_bits(b),
    {
        match b {
            0 => Some(PowerMode::Nom),
            1 => Some(PowerMode::Lpm1),
            2 => Some(PowerMode::Lpm2),
            3 => Some(PowerMode::Lpm3),
            _ => None,
        }
    }
}

/// Hysteresis mode.
#[derive(Debug, PartialEq, Eq, Copy, Clone, Structural)]
pub enum Hysteresis {
    /// No hysteresis.
    Off,
    /// 1 least significant bit hysteresis.
    Lsb1,
    /// 2 least significant bit hysteresis.
    Lsb2,
    /// 3 least significant bit hysteresis.
    Lsb3,
}

impl Hysteresis {
    pub open spec fn spec_bits(self) -> u16 {
        match self {
            Hysteresis::Off => 0,
            Hysteresis::Lsb1 => 1,
            Hysteresis::Lsb2 => 2,
            Hysteresis::Lsb3 => 3,
        }
    }

    pub open spec fn spec_from_bits(b: u16) -> Option<Hysteresis> {
        if b == 0 {
            Some(Hysteresis::Off)
        } else if b == 1 {
            Some(Hysteresis::Lsb1)
        } else if b == 2 {
            Some(Hysteresis::Lsb2)
        } else if b == 3 {
            Some(Hysteresis::Lsb3)
        } else {
            None
        }
    }

    /// The field's bit pattern.
    pub fn bits(self) -> (r: u16)
        ensures
            r == self.spec_bits(),
    {
        match self {
            Hysteresis::Off => 0,
            Hysteresis::Lsb1 => 1,
            Hysteresis::Lsb2 => 2,
            Hysteresis::Lsb3 => 3,
        }
    }

    /// The hysteresis setting a bit pattern stands for, if any.
    pub fn from_bits(b: u16) -> (r: Option<Hysteresis>)
        ensures
            r == Self::spec_from_bits(b),
    {
        match b {
            0 => Some(Hysteresis::Off),
            1 => Some(Hysteresis::Lsb1),
            2 => Some(Hysteresis::Lsb2),
            3 => Some(Hysteresis::Lsb3),
            _ => None,
        }
    }
}

/// Output stage mode.
/// Apart from digital i2c output, analog modes or PWM could be generated by the module.
#[derive(Debug, PartialEq, Eq, Copy, Clone, Structural)]
pub enum OutputStage {
    /// Full-range analog output (0..VDD).
    Analog,
    /// Reduced-range analog output (10% VDD..90% VDD).
    ReducedAnalog,
    /// PWM output at frequency given by [`PwmFreq`].
    DigitalPwm,
}

impl OutputStage {
    pub open spec fn spec_bits(self) -> u16 {
        match self {
            OutputStage::Analog => 0,
            OutputStage::ReducedAnalog => 1,
            OutputStage::DigitalPwm => 2,
        }
    }

    pub open spec fn spec_from_bits(b: u16) -> Option<OutputStage> {
        if b == 0 {
            Some(OutputStage::Analog)
        } else if b == 1 {
            Some(OutputStage::ReducedAnalog)
        } else if b == 2 {
            Some(OutputStage::DigitalPwm)
        } else {
            None
        }
    }

    /// The field's bit pattern.
    pub fn bits(self) -> (r: u16)
        ensures
            r == self.spec_bits(),
    {
        match self {
            OutputStage::Analog => 0,
            OutputStage::ReducedAnalog => 1,
            OutputStage::DigitalPwm => 2,
        }
    }

    /// The output stage a bit pattern stands for, if any.
    pub fn from_bits(b: u16) -> (r: Option<OutputStage>)
        ensures
            r == Self::spec_from_bits(b),
    {
        match b {
            0 => Some(OutputStage::Analog),
            1 => Some(OutputStage::ReducedAnalog),
            2 => Some(OutputStage::DigitalPwm),
            _ => None,
        }
    }
}

/// PWM frequency.
#[derive(Debug, PartialEq, Eq, Copy, Clone, Structural)]
pub enum PwmFreq {
    /// Frequency 1: 115Hz.
    PwmF1,
    /// Frequency 2: 230Hz.
    PwmF2,
    /// Frequency 3: 460Hz.
    PwmF3,
    /// Frequency 4: 920Hz.
    PwmF4,
}

impl PwmFreq {
    pub open spec fn spec_bits(self) -> u16 {
        match self {
            PwmFreq::PwmF1 => 0,
            PwmFreq::PwmF2 => 1,
            PwmFreq::PwmF3 => 2,
            PwmFreq::PwmF4 => 3,
        }
    }

    pub open spec fn spec_from_bits(b: u16) -> Option<PwmFreq> {
        if b == 0 {
            Some(PwmFreq::PwmF1)
        } else if b == 1 {
            Some(PwmFreq::PwmF2)
        } else if b == 2 {
            Some(PwmFreq::PwmF3)
        } else if b == 3 {
            Some(PwmFreq::PwmF4)
        } else {
            None
        }
    }

    /// The field's bit pattern.
    pub fn bits(self) -> (r: u16)
        ensures
            r == self.spec_bits(),
    {
        match self {
            PwmFreq::PwmF1 => 0,
            PwmFreq::PwmF2 => 1,
            PwmFreq::PwmF3 => 2,
            PwmFreq::PwmF4 => 3,
        }
    }

    /// The frequency a bit pattern stands for, if any.
    pub fn from_bits(b: u16) -> (r: Option<PwmFreq>)
        ensures
            r == Self::spec_from_bits(b),
    {
        match b {
            0 => Some(PwmFreq::PwmF1),
            1 => Some(PwmFreq::PwmF2),
            2 => Some(PwmFreq::PwmF3),
            3 => Some(PwmFreq::PwmF4),
            _ => None,
        }
    }
}

/// Slow filter mode.
#[derive(Debug, PartialEq, Eq, Copy, Clone, Structural)]
pub enum SlowFilterMode {
    /// 16x filter.
    X16,
    /// 8x filter.
    X8,
    /// 4x filter.
    X4,
    /// 2x filter.
    X2,
}

impl SlowFilterMode {
    pub open spec fn spec_bits(self) -> u16 {
        match self {
            SlowFilterMode::X16 => 0,
            SlowFilterMode::X8 => 1,
            SlowFilterMode::X4 => 2,
            SlowFilterMode::X2 => 3,
        }
    }

    pub open spec fn spec_from_bits(b: u16) -> Option<SlowFilterMode> {
        if b == 0 {
            Some(SlowFilterMode::X16)
        } else if b == 1 {
            Some(SlowFilterMode::X8)
        } else if b == 2 {
            Some(SlowFilterMode::X4)
        } else if b == 3 {
            Some(SlowFilterMode::X2)
        } else {
            None
        }
    }

    /// The field's bit pattern.
    pub fn bits(self) -> (r: u16)
        ensures
            r == self.spec_bits(),
    {
        match self {
            SlowFilterMode::X16 => 0,
            SlowFilterMode::X8 => 1,
            SlowFilterMode::X4 => 2,
            SlowFilterMode::X2 => 3,
        }
    }

    /// The filter mode a bit pattern stands for, if any.
    pub fn from_bits(b: u16) -> (r: Option<SlowFilterMode>)
        ensures
            r == Self::spec_from_bits(b),
    {
        match b {
            0 => Some(SlowFilterMode::X16),
            1 => Some(SlowFilterMode::X8),
            2 => Some(SlowFilterMode::X4),
            3 => Some(SlowFilterMode::X2),
            _ => None,
        }
    }
}

/// Fast filter threshold.
#[derive(Debug, PartialEq, Eq, Copy, Clone, Structural)]
pub enum FastFilterThreshold {
    /// No fast filter.
    SlowFilterOnly,
    /// Fast filter at 6 LSB.
    Lsb6,
    /// Fast filter at 7 LSB.
    Lsb7,
    /// Fast filter at 9 LSB.
    Lsb9,
    /// Fast filter at 18 LSB.
    Lsb18,
    /// Fast filter at 21 LSB.
    Lsb21,
    /// Fast filter at 24 LSB.
    Lsb24,
    /// Fast filter at 10 LSB.
    Lsb10,
}

impl FastFilterThreshold {
    pub open spec fn spec_bits(self) -> u16 {
        match self {
            FastFilterThreshold::SlowFilterOnly => 0,
            FastFilterThreshold::Lsb6 => 1,
            FastFilterThreshold::Lsb7 => 2,
            FastFilterThreshold::Lsb9 => 3,
            FastFilterThreshold::Lsb18 => 4,
            FastFilterThreshold::Lsb21 => 5,
            FastFilterThreshold::Lsb24 => 6,
            FastFilterThreshold::Lsb10 => 7,
        }
    }

    pub open spec fn spec_from_bits(b: u16) -> Option<FastFilterThreshold> {
        if b == 0 {
            Some(FastFilterThreshold::SlowFilterOnly)
        } else if b == 1 {
            Some(FastFilterThreshold::Lsb6)
        } else if b == 2 {
            Some(FastFilterThreshold::Lsb7)
        } else if b == 3 {
            Some(FastFilterThreshold::Lsb9)
        } else if b == 4 {
            Some(FastFilterThreshold::Lsb18)
        } else if b == 5 {
            Some(FastFilterThreshold::Lsb21)
        } else if b == 6 {
            Some(FastFilterThreshold::Lsb24)
        } else if b == 7 {
            Some(FastFilterThreshold::Lsb10)
        } else {
            None
        }
    }

    /// The field's bit pattern.
    pub fn bits(self) -> (r: u16)
        ensures
            r == self.spec_bits(),
    {
        match self {
            FastFilterThreshold::SlowFilterOnly => 0,
            FastFilterThreshold::Lsb6 => 1,
            FastFilterThreshold::Lsb7 => 2,
            FastFilterThreshold::Lsb9 => 3,
            FastFilterThreshold::Lsb18 => 4,
            FastFilterThreshold::Lsb21 => 5,
            FastFilterThreshold::Lsb24 => 6,
            FastFilterThreshold::Lsb10 => 7,
        }
    }

    /// The threshold a bit pattern stands for, if any.
    pub fn from_bits(b: u16) -> (r: Option<FastFilterThreshold>)
        ensures
            r == Self::spec_from_bits(b),
    {
        match b {
            0 => Some(FastFilterThreshold::SlowFilterOnly),
            1 => Some(FastFilterThreshold::Lsb6),
            2 => Some(FastFilterThreshold::Lsb7),
            3 => Some(FastFilterThreshold::Lsb9),
            4 => Some(FastFilterThreshold::Lsb18),
            5 => Some(FastFilterThreshold::Lsb21),
            6 => Some(FastFilterThreshold::Lsb24),
            7 => Some(FastFilterThreshold::Lsb10),
            _ => None,
        }
    }
}

/// Watchdog state.
#[derive(Debug, PartialEq, Eq, Copy, Clone, Structural)]
pub enum WatchdogState {
    /// Watchdog off.
    Off,
    /// Watchdog on.
    On,
}

impl WatchdogState {
    pub open spec fn spec_bits(self) -> u16 {
        match self {
            WatchdogState::Off => 0,
            WatchdogState::On => 1,
        }
    }

    pub open spec fn spec_from_bits(b: u16) -> Option<WatchdogState> {
        if b == 0 {
            Some(WatchdogState::Off)
        } else if b == 1 {
            Some(WatchdogState::On)
        } else {
            None
        }
    }

    /// The field's bit pattern.
    pub fn bits(self) -> (r: u16)
        ensures
            r == self.spec_bits(),
    {
        match self {
            WatchdogState::Off => 0,
            WatchdogState::On => 1,
        }
    }

    /// The state a bit pattern stands for, if any.
    pub fn from_bits(b: u16) -> (r: Option<WatchdogState>)
        ensures
            r == Self::spec_from_bits(b),
    {
        match b {
            0 => Some(WatchdogState::Off),
            1 => Some(WatchdogState::On),
            _ => None,
        }
    }
}

impl PwmFreq {
    pub open spec fn spec_hz(self) -> usize {
        match self {
            PwmFreq::PwmF1 => 115,
            PwmFreq::PwmF2 => 230,
            PwmFreq::PwmF3 => 460,
            PwmFreq::PwmF4 => 920,
        }
    }

    /// Get the frequency for this [`PwmFreq`] setting in Hz.
    pub fn to_hz(&self) -> (r: usize)
        ensures
            r == self.spec_hz(),
    {
        match self {
            PwmFreq::PwmF1 => 115,
            PwmFreq::PwmF2 => 230,
            PwmFreq::PwmF3 => 460,
            PwmFreq::PwmF4 => 920,
        }
    }
}

/// As5600 configuration.
#[derive(Debug, Copy, Clone, PartialEq, Eq, Structural)]
pub struct Configuration {
    /// Power mode.
    pub power_mode: PowerMode,
    /// Hysteresis.
    pub hysteresis: Hysteresis,
    /// Output stage.
    pub output_stage: OutputStage,
    /// PWM frequency.
    pub pwm_frequency: PwmFreq,
    /// Slow filter mode.
    pub slow_filter: SlowFilterMode,
    /// Fast filter threshold.
    pub fast_filter_threshold: FastFilterThreshold,
    /// Watchdog state.
    pub watchdog_state: WatchdogState,
}

/// Packs the seven field patterns at their positions in the register.
pub open spec fn pack(pm: u16, hy: u16, os: u16, pwm: u16, sf: u16, fth: u16, wd: u16) -> u16 {
    pm | (hy << 2) | (os << 4) | (pwm << 6) | (sf << 8) | (fth << 10) | (wd << 13)
}

/// Reading each field back out of a packing returns it.
proof fn lemma_unpack(pm: u16, hy: u16, os: u16, pwm: u16, sf: u16, fth: u16, wd: u16)
    requires
        pm < 4, hy < 4, os < 4, pwm < 4, sf < 4, fth < 8, wd < 2,
    ensures
        field(pack(pm, hy, os, pwm, sf, fth, wd), 0, 3) == pm,
        field(pack(pm, hy, os, pwm, sf, fth, wd), 2, 3) == hy,
        field(pack(pm, hy, os, pwm, sf, fth, wd), 4, 3) == os,
        field(pack(pm, hy, os, pwm, sf, fth, wd), 6, 3) == pwm,
        field(pack(pm, hy, os, pwm, sf, fth, wd), 8, 3) == sf,
        field(pack(pm, hy, os, pwm, sf, fth, wd), 10, 7) == fth,
        field(pack(pm, hy, os, pwm, sf, fth, wd), 13, 1) == wd,
        pack(pm, hy, os, pwm, sf, fth, wd) & FIELD_BITS == pack(pm, hy, os, pwm, sf, fth, wd),
{
    let p = pack(pm, hy, os, pwm, sf, fth, wd);
    assert(
        (p >> 0) & 3 == pm && (p >> 2) & 3 == hy && (p >> 4) & 3 == os && (p >> 6) & 3 == pwm
        && (p >> 8) & 3 == sf && (p >> 10) & 7 == fth && (p >> 13) & 1 == wd && p & 0x3FFF == p
    ) by (bit_vector)
        requires
            pm < 4, hy < 4, os < 4, pwm < 4, sf < 4, fth < 8, wd < 2,
            p == pm | (hy << 2) | (os << 4) | (pwm << 6) | (sf << 8) | (fth << 10) | (wd << 13),
    ;
}

/// The fields of any register value are in range, and packing them again gives
/// back the value without its factory bits.
proof fn lemma_fields(raw: u16)
    ensures
        field(raw, 0, 3) == raw & 3,
        field(raw, 0, 3) < 4, field(raw, 2, 3) < 4, field(raw, 4, 3) < 4, field(raw, 6, 3) < 4,
        field(raw, 8, 3) < 4, field(raw, 10, 7) < 8, field(raw, 13, 1) < 2,
        pack(
            field(raw, 0, 3),
            field(raw, 2, 3),
            field(raw, 4, 3),
            field(raw, 6, 3),
            field(raw, 8, 3),
            field(raw, 10, 7),
            field(raw, 13, 1),
        ) == raw & FIELD_BITS,
{
    assert(
        (raw >> 0) & 3 == raw & 3 && (raw >> 0) & 3 < 4 && (raw >> 2) & 3 < 4 && (raw >> 4) & 3 < 4
        && (raw >> 6) & 3 < 4 && (raw >> 8) & 3 < 4 && (raw >> 10) & 7 < 8 && (raw >> 13) & 1 < 2
        && ((raw >> 0) & 3) | (((raw >> 2) & 3) << 2) | (((raw >> 4) & 3) << 4)
        | (((raw >> 6) & 3) << 6) | (((raw >> 8) & 3) << 8) | (((raw >> 10) & 7) << 10)
        | (((raw >> 13) & 1) << 13) == raw & 0x3FFF
    ) by (bit_vector);
}

impl Configuration {
    /// The register value (factory bits clear) that stands for this configuration.
    pub open spec fn spec_encode(self) -> u16 {
        pack(
            self.power_mode.spec_bits(),
            self.hysteresis.spec_bits(),
            self.output_stage.spec_bits(),
            self.pwm_frequency.spec_bits(),
            self.slow_filter.spec_bits(),
            self.fast_filter_threshold.spec_bits(),
            self.watchdog_state.spec_bits(),
        )
    }

    /// The configuration that a register value holds; each field is read from its
    /// bit range in turn, and the first pattern that names no setting is the error.
    pub open spec fn spec_decode(raw: u16) -> Result<Configuration, Error> {
        let pm = PowerMode::spec_from_bits(field(raw, 0, 3));
        let hy = Hysteresis::spec_from_bits(field(raw, 2, 3));
        let os = OutputStage::spec_from_bits(field(raw, 4, 3));
        let pwm = PwmFreq::spec_from_bits(field(raw, 6, 3));
        let sf = SlowFilterMode::spec_from_bits(field(raw, 8, 3));
        let fth = FastFilterThreshold::spec_from_bits(field(raw, 10, 7));
        let wd = WatchdogState::spec_from_bits(field(raw, 13, 1));
        if pm is None {
            Err(Error::PowerModeBitPattern(field(raw, 0, 3) as u8))
        } else if hy is None {
            Err(Error::HysteresisBitPattern(field(raw, 2, 3) as u8))
        } else if os is None {
            Err(Error::OutputStageBitPattern(field(raw, 4, 3) as u8))
        } else if pwm is None {
            Err(Error::PwmFreqBitPattern(field(raw, 6, 3) as u8))
        } else if sf is None {
            Err(Error::SlowFilterModeBitPattern(field(raw, 8, 3) as u8))
        } else if fth is None {
            Err(Error::FastFilterThresholdBitPattern(field(raw, 10, 7) as u8))
        } else if wd is None {
            Err(Error::WatchdogState(field(raw, 13, 1) as u8))
        } else {
            Ok(
                Configuration {
                    power_mode: pm.unwrap(),
                    hysteresis: hy.unwrap(),
                    output_stage: os.unwrap(),
                    pwm_frequency: pwm.unwrap(),
                    slow_filter: sf.unwrap(),
                    fast_filter_threshold: fth.unwrap(),
                    watchdog_state: wd.unwrap(),
                },
            )
        }
    }

    /// Encodes the configuration into the low 14 bits of a register value.
    pub fn encode(&self) -> (r: u16)
        ensures
            r == self.spec_encode(),
            r & RESERVED_BITS == 0,
    {
        let pm = self.power_mode.bits();
        let hy = self.hysteresis.bits();
        let os = self.output_stage.bits();
        let pwm = self.pwm_frequency.bits();
        let sf = self.slow_filter.bits();
        let fth = self.fast_filter_threshold.bits();
        let wd = self.watchdog_state.bits();
        let r = pm | (hy << 2) | (os << 4) | (pwm << 6) | (sf << 8) | (fth << 10) | (wd << 13);
        proof {
            lemma_unpack(pm, hy, os, pwm, sf, fth, wd);
            let p = r;
            assert(p & 0xC000 == 0) by (bit_vector)
                requires
                    p & 0x3FFF == p,
            ;
        }
        r
    }

    /// The value to write to the register so that it holds this configuration,
    /// given the value it holds now: the factory bits of `current` are kept as
    /// they are, and the encoding of the configuration fills the bits below them.
    pub fn merged_with(&self, current: u16) -> (r: u16)
        ensures
            r == (current & RESERVED_BITS) | self.spec_encode(),
            r & RESERVED_BITS == current & RESERVED_BITS,
            r & FIELD_BITS == self.spec_encode(),
            Self::spec_decode(r) == Ok::<Configuration, Error>(*self),
    {
        let encoded = self.encode();
        let r = (current & RESERVED_BITS) | encoded;
        assert(r & 0xC000 == current & 0xC000 && r & 0x3FFF == encoded) by (bit_vector)
            requires
                encoded & 0xC000 == 0,
                r == (current & 0xC000) | encoded,
        ;
        assert(
            (r >> 0) & 3 == (encoded >> 0) & 3 && (r >> 2) & 3 == (encoded >> 2) & 3
            && (r >> 4) & 3 == (encoded >> 4) & 3 && (r >> 6) & 3 == (encoded >> 6) & 3
            && (r >> 8) & 3 == (encoded >> 8) & 3 && (r >> 10) & 7 == (encoded >> 10) & 7
            && (r >> 13) & 1 == (encoded >> 13) & 1
        ) by (bit_vector)
            requires
                r & 0x3FFF == encoded,
        ;
        proof {
            lemma_round_trip(*self);
        }
        r
    }

    /// Decodes a register value; the factory bits 15:14 are ignored.
    pub fn decode(raw: u16) -> (r: Result<Configuration, Error>)
        ensures
            r == Self::spec_decode(raw),
            r is Err <==> field(raw, 4, 3) == 3,
            r matches Err(e) ==> e == Error::OutputStageBitPattern(3),
            r matches Ok(c) ==> c.spec_encode() == raw & FIELD_BITS,
    {
        proof {
            lemma_fields(raw);
        }
        let pm_bits = raw & 0b11;
        let power_mode = match PowerMode::from_bits(pm_bits) {
            Some(v) => v,
            None => return Err(Error::PowerModeBitPattern(pm_bits as u8)),
        };
        let hy_bits = (raw >> 2) & 0b11;
        let hysteresis = match Hysteresis::from_bits(hy_bits) {
            Some(v) => v,
            None => return Err(Error::HysteresisBitPattern(hy_bits as u8)),
        };
        let os_bits = (raw >> 4) & 0b11;
        let output_stage = match OutputStage::from_bits(os_bits) {
            Some(v) => v,
            None => return Err(Error::OutputStageBitPattern(os_bits as u8)),
        };
        let pwm_bits = (raw >> 6) & 0b11;
        let pwm_frequency = match PwmFreq::from_bits(pwm_bits) {
            Some(v) => v,
            None => return Err(Error::PwmFreqBitPattern(pwm_bits as u8)),
        };
        let sf_bits = (raw >> 8) & 0b11;
        let slow_filter = match SlowFilterMode::from_bits(sf_bits) {
            Some(v) => v,
            None => return Err(Error::SlowFilterModeBitPattern(sf_bits as u8)),
        };
        let fth_bits = (raw >> 10) & 0b111;
        let fast_filter_threshold = match FastFilterThreshold::from_bits(fth_bits) {
            Some(v) => v,
            None => return Err(Error::FastFilterThresholdBitPattern(fth_bits as u8)),
        };
        let wd_bits = (raw >> 13) & 0b1;
        let watchdog_state = match WatchdogState::from_bits(wd_bits) {
            Some(v) => v,
            None => return Err(Error::WatchdogState(wd_bits as u8)),
        };
        Ok(
            Configuration {
                power_mode,
                hysteresis,
                output_stage,
                pwm_frequency,
                slow_filter,
                fast_filter_threshold,
                watchdog_state,
            },
        )
    }
}

/// Decoding the encoding of a configuration gives that configuration back.
pub proof fn lemma_round_trip(c: Configuration)
    ensures
        Configuration::spec_decode(c.spec_encode()) == Ok::<Configuration, Error>(c),
{
    lemma_unpack(
        c.power_mode.spec_bits(),
        c.hysteresis.spec_bits(),
        c.output_stage.spec_bits(),
        c.pwm_frequency.spec_bits(),
        c.slow_filter.spec_bits(),
        c.fast_filter_threshold.spec_bits(),
        c.watchdog_state.spec_bits(),
    );
}

} // verus!
