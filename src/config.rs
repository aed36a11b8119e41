//! Bus-wide and per-transfer configuration, and the pure computations that turn
//! them into register field values.
use vstd::prelude::*;

use crate::pins::{cs_line, pin_cs_line, AfPin, HwChipSelectId, SpiId};
use crate::Sealed;

verus! {

/// FIFO half-depth used to prime the transmit FIFO of an exchange.
pub const FIFO_HALF_DEPTH: usize = 8;

/// Clock prescale written when the bus is brought up without a transfer
/// configuration.
pub const DEFAULT_CLK_PRESCALE: u32 = 2;

/// A frequency in hertz.
#[derive(Debug, Clone, Copy, PartialEq, Eq, Structural)]
pub struct Hertz(pub u32);

/// Clock polarity and phase combination.
#[derive(Debug, Clone, Copy, PartialEq, Eq, Structural)]
pub enum Mode {
    /// Clock idles low, data captured on the leading edge.
    Mode0,
    /// Clock idles low, data captured on the trailing edge.
    Mode1,
    /// Clock idles high, data captured on the leading edge.
    Mode2,
    /// Clock idles high, data captured on the trailing edge.
    Mode3,
}

/// Clock polarity bit of a mode (set: clock idles high).
pub open spec fn mode_polarity(m: Mode) -> bool {
    m == Mode::Mode2 || m == Mode::Mode3
}

/// Clock phase bit of a mode (set: data captured on the trailing edge).
pub open spec fn mode_phase(m: Mode) -> bool {
    m == Mode::Mode1 || m == Mode::Mode3
}

impl Mode {
    /// The (polarity, phase) bits of the mode.
    pub fn polarity_phase(self) -> (r: (bool, bool))
        ensures
            r == (mode_polarity(self), mode_phase(self)),
            self == Mode::Mode0 ==> r == (false, false),
            self == Mode::Mode1 ==> r == (false, true),
            self == Mode::Mode2 ==> r == (true, false),
            self == Mode::Mode3 ==> r == (true, true),
    {
        match self {
            Mode::Mode0 => (false, false),
            Mode::Mode1 => (false, true),
            Mode::Mode2 => (true, false),
            Mode::Mode3 => (true, true),
        }
    }
}

/// Word sizes the peripheral supports.
#[derive(Debug, Clone, Copy, PartialEq, Eq, Structural)]
pub enum WordSize {
    OneBit,
    FourBits,
    EightBits,
    SixteenBits,
}

/// The data-size field value of a word size.
pub open spec fn word_size_code(w: WordSize) -> u8 {
    match w {
        WordSize::OneBit => 0x00,
        WordSize::FourBits => 0x03,
        WordSize::EightBits => 0x07,
        WordSize::SixteenBits => 0x0f,
    }
}

impl WordSize {
    /// The data-size field value.
    pub fn code(self) -> (r: u8)
        ensures
            r == word_size_code(self),
    {
        match self {
            WordSize::OneBit => 0x00,
            WordSize::FourBits => 0x03,
            WordSize::EightBits => 0x07,
            WordSize::SixteenBits => 0x0f,
        }
    }
}

/// A word type the bus can move: `u8` or `u16`.
pub trait Word: Sealed + Copy {
    /// The data-size field value for this word type.
    spec fn size_code() -> u8;

    fn word_reg() -> (r: u8)
        ensures
            r == Self::size_code(),
    ;
}

impl Sealed for u8 {}

impl Sealed for u16 {}

impl Word for u8 {
    open spec fn size_code() -> u8 {
        word_size_code(WordSize::EightBits)
    }

    fn word_reg() -> (r: u8) {
        WordSize::EightBits.code()
    }
}

impl Word for u16 {
    open spec fn size_code() -> u8 {
        word_size_code(WordSize::SixteenBits)
    }

    fn word_reg() -> (r: u8) {
        WordSize::SixteenBits.code()
    }
}

/// Clock prescale that yields `spi_clk` from `sys_clk` with serial clock rate
/// divider `scrdv`, rounded down.
pub open spec fn prescale_for(sys_clk: u32, spi_clk: u32, scrdv: u8) -> int {
    sys_clk as int / (spi_clk as int * (scrdv as int + 1))
}

/// Computes `sys_clk / (spi_clk * (scrdv + 1))`.
pub fn clk_prescale(sys_clk: Hertz, spi_clk: Hertz, scrdv: u8) -> (r: u32)
    requires
        spi_clk.0 > 0,
    ensures
        r as int == prescale_for(sys_clk.0, spi_clk.0, scrdv),
{
    let clk: u64 = spi_clk.0 as u64;
    let steps: u64 = scrdv as u64 + 1;
    assert(1 <= clk * steps <= 0xffff_ffff * 256) by (nonlinear_arith)
        requires
            1 <= clk <= 0xffff_ffff,
            1 <= steps <= 256,
    ;
    let div: u64 = clk * steps;
    let q: u64 = (sys_clk.0 as u64) / div;
    assert(q <= sys_clk.0) by (nonlinear_arith)
        requires
            div >= 1,
            q == sys_clk.0 as u64 / div,
    ;
    q as u32
}

/// Errors in assembling a bus from pins.
#[derive(Debug, Clone, Copy, PartialEq, Eq, Structural)]
pub enum ConfigError {
    /// The clock pin is not a clock pin of this peripheral.
    SckPin,
    /// The data-in pin is not a data-in pin of this peripheral.
    MisoPin,
    /// The data-out pin is not a data-out pin of this peripheral.
    MosiPin,
    /// The chip-select pin drives no chip-select line of this peripheral.
    ChipSelectPin,
}

/// The chip-select line an optional chip-select pin resolves to for `spi`: the
/// sentinel `Invalid` when none is bound, nothing when the pin is not registered.
pub open spec fn resolved_cs(spi: SpiId, hw_cs: Option<AfPin>) -> Option<HwChipSelectId> {
    match hw_cs {
        None => Some(HwChipSelectId::Invalid),
        Some(pin) => cs_line(spi, pin),
    }
}

/// Resolves an optional chip-select pin for `spi`.
pub fn resolve_cs(spi: SpiId, hw_cs: Option<AfPin>) -> (r: Result<HwChipSelectId, ConfigError>)
    ensures
        resolved_cs(spi, hw_cs) is Some ==> r == Ok::<HwChipSelectId, ConfigError>(
            resolved_cs(spi, hw_cs)->0,
        ),
        resolved_cs(spi, hw_cs) is None ==> r == Err::<HwChipSelectId, ConfigError>(
            ConfigError::ChipSelectPin,
        ),
        hw_cs is None ==> r == Ok::<HwChipSelectId, ConfigError>(HwChipSelectId::Invalid),
{
    match hw_cs {
        None => Ok(HwChipSelectId::Invalid),
        Some(pin) => match pin_cs_line(spi, pin) {
            Some(id) => Ok(id),
            None => Err(ConfigError::ChipSelectPin),
        },
    }
}

} // verus!
