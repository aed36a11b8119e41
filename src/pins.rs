//! Capability registry: which pin, in which alternate function, may act as clock,
//! data-out, data-in or hardware chip-select for which SPI peripheral.
use vstd::prelude::*;

verus! {

/// The SPI peripherals of the device.
#[derive(Debug, Clone, Copy, PartialEq, Eq, Structural)]
pub enum SpiId {
    SpiA,
    SpiB,
    SpiC,
}

/// GPIO port of a pin.
#[derive(Debug, Clone, Copy, PartialEq, Eq, Structural)]
pub enum Port {
    PortA,
    PortB,
}

/// Alternate function a pin has been switched to.
#[derive(Debug, Clone, Copy, PartialEq, Eq, Structural)]
pub enum AltFunc {
    AltFunc1,
    AltFunc2,
    AltFunc3,
}

/// A pin already switched to an alternate function: port, pin number within the
/// port, and the function.
#[derive(Debug, Clone, Copy, PartialEq, Eq, Structural)]
pub struct AfPin {
    pub port: Port,
    pub num: u8,
    pub func: AltFunc,
}

/// Signal role of a data pin.
#[derive(Debug, Clone, Copy, PartialEq, Eq, Structural)]
pub enum Role {
    Sck,
    Mosi,
    Miso,
}

/// Hardware chip-select line driven by the peripheral. `Invalid` stands for "no
/// hardware chip-select": selection is then up to the caller.
#[derive(Debug, Clone, Copy, PartialEq, Eq, Structural)]
pub enum HwChipSelectId {
    Id0,
    Id1,
    Id2,
    Id3,
    Id4,
    Id5,
    Id6,
    Id7,
    Invalid,
}

/// The value of the slave-select field for a chip-select line; `Invalid` is 0xff.
pub open spec fn cs_code(id: HwChipSelectId) -> u8 {
    match id {
        HwChipSelectId::Id0 => 0,
        HwChipSelectId::Id1 => 1,
        HwChipSelectId::Id2 => 2,
        HwChipSelectId::Id3 => 3,
        HwChipSelectId::Id4 => 4,
        HwChipSelectId::Id5 => 5,
        HwChipSelectId::Id6 => 6,
        HwChipSelectId::Id7 => 7,
        HwChipSelectId::Invalid => 0xff,
    }
}

impl HwChipSelectId {
    /// Numeric select-line identifier.
    pub fn code(self) -> (r: u8)
        ensures
            r == cs_code(self),
    {
        match self {
            HwChipSelectId::Id0 => 0,
            HwChipSelectId::Id1 => 1,
            HwChipSelectId::Id2 => 2,
            HwChipSelectId::Id3 => 3,
            HwChipSelectId::Id4 => 4,
            HwChipSelectId::Id5 => 5,
            HwChipSelectId::Id6 => 6,
            HwChipSelectId::Id7 => 7,
            HwChipSelectId::Invalid => 0xff,
        }
    }
}

/// The data role that `pin` may take for peripheral `spi`, if any.
pub open spec fn data_role(spi: SpiId, pin: AfPin) -> Option<Role> {
    match (spi, pin.port, pin.func, pin.num) {
        (SpiId::SpiA, Port::PortA, AltFunc::AltFunc1, 31) => Some(Role::Sck),
        (SpiId::SpiA, Port::PortA, AltFunc::AltFunc1, 30) => Some(Role::Mosi),
        (SpiId::SpiA, Port::PortA, AltFunc::AltFunc1, 29) => Some(Role::Miso),
        (SpiId::SpiA, Port::PortB, AltFunc::AltFunc2, 9) => Some(Role::Sck),
        (SpiId::SpiA, Port::PortB, AltFunc::AltFunc2, 8) => Some(Role::Mosi),
        (SpiId::SpiA, Port::PortB, AltFunc::AltFunc2, 7) => Some(Role::Miso),
        (SpiId::SpiB, Port::PortA, AltFunc::AltFunc2, 20) => Some(Role::Sck),
        (SpiId::SpiB, Port::PortA, AltFunc::AltFunc2, 19) => Some(Role::Mosi),
        (SpiId::SpiB, Port::PortA, AltFunc::AltFunc2, 18) => Some(Role::Miso),
        (SpiId::SpiB, Port::PortB, AltFunc::AltFunc1, 19) => Some(Role::Sck),
        (SpiId::SpiB, Port::PortB, AltFunc::AltFunc1, 18) => Some(Role::Mosi),
        (SpiId::SpiB, Port::PortB, AltFunc::AltFunc1, 17) => Some(Role::Miso),
        (SpiId::SpiB, Port::PortB, AltFunc::AltFunc1, 5) => Some(Role::Sck),
        (SpiId::SpiB, Port::PortB, AltFunc::AltFunc1, 4) => Some(Role::Mosi),
        (SpiId::SpiB, Port::PortB, AltFunc::AltFunc1, 3) => Some(Role::Miso),
        _ => None,
    }
}

/// Looks up the data role of `pin` for peripheral `spi`.
pub fn pin_role(spi: SpiId, pin: AfPin) -> (r: Option<Role>)
    ensures
        r == data_role(spi, pin),
{
    match (spi, pin.port, pin.func, pin.num) {
        (SpiId::SpiA, Port::PortA, AltFunc::AltFunc1, 31) => Some(Role::Sck),
        (SpiId::SpiA, Port::PortA, AltFunc::AltFunc1, 30) => Some(Role::Mosi),
        (SpiId::SpiA, Port::PortA, AltFunc::AltFunc1, 29) => Some(Role::Miso),
        (SpiId::SpiA, Port::PortB, AltFunc::AltFunc2, 9) => Some(Role::Sck),
        (SpiId::SpiA, Port::PortB, AltFunc::AltFunc2, 8) => Some(Role::Mosi),
        (SpiId::SpiA, Port::PortB, AltFunc::AltFunc2, 7) => Some(Role::Miso),
        (SpiId::SpiB, Port::PortA, AltFunc::AltFunc2, 20) => Some(Role::Sck),
        (SpiId::SpiB, Port::PortA, AltFunc::AltFunc2, 19) => Some(Role::Mosi),
        (SpiId::SpiB, Port::PortA, AltFunc::AltFunc2, 18) => Some(Role::Miso),
        (SpiId::SpiB, Port::PortB, AltFunc::AltFunc1, 19) => Some(Role::Sck),
        (SpiId::SpiB, Port::PortB, AltFunc::AltFunc1, 18) => Some(Role::Mosi),
        (SpiId::SpiB, Port::PortB, AltFunc::AltFunc1, 17) => Some(Role::Miso),
        (SpiId::SpiB, Port::PortB, AltFunc::AltFunc1, 5) => Some(Role::Sck),
        (SpiId::SpiB, Port::PortB, AltFunc::AltFunc1, 4) => Some(Role::Mosi),
        (SpiId::SpiB, Port::PortB, AltFunc::AltFunc1, 3) => Some(Role::Miso),
        _ => None,
    }
}

/// The hardware chip-select line that `pin` drives for peripheral `spi`, if any.
pub open spec fn cs_line(spi: SpiId, pin: AfPin) -> Option<HwChipSelectId> {
    match (spi, pin.port, pin.func, pin.num) {
        (SpiId::SpiA, Port::PortA, AltFunc::AltFunc1, 28) => Some(HwChipSelectId::Id0),
        (SpiId::SpiA, Port::PortA, AltFunc::AltFunc1, 27) => Some(HwChipSelectId::Id1),
        (SpiId::SpiA, Port::PortA, AltFunc::AltFunc1, 26) => Some(HwChipSelectId::Id2),
        (SpiId::SpiA, Port::PortA, AltFunc::AltFunc1, 25) => Some(HwChipSelectId::Id3),
        (SpiId::SpiA, Port::PortA, AltFunc::AltFunc1, 24) => Some(HwChipSelectId::Id4),
        (SpiId::SpiA, Port::PortA, AltFunc::AltFunc1, 23) => Some(HwChipSelectId::Id5),
        (SpiId::SpiA, Port::PortA, AltFunc::AltFunc1, 22) => Some(HwChipSelectId::Id6),
        (SpiId::SpiA, Port::PortA, AltFunc::AltFunc1, 21) => Some(HwChipSelectId::Id7),
        (SpiId::SpiA, Port::PortB, AltFunc::AltFunc2, 6) => Some(HwChipSelectId::Id0),
        (SpiId::SpiA, Port::PortB, AltFunc::AltFunc2, 5) => Some(HwChipSelectId::Id6),
        (SpiId::SpiA, Port::PortB, AltFunc::AltFunc2, 4) => Some(HwChipSelectId::Id5),
        (SpiId::SpiA, Port::PortB, AltFunc::AltFunc2, 3) => Some(HwChipSelectId::Id4),
        (SpiId::SpiA, Port::PortB, AltFunc::AltFunc2, 2) => Some(HwChipSelectId::Id3),
        (SpiId::SpiA, Port::PortB, AltFunc::AltFunc2, 1) => Some(HwChipSelectId::Id2),
        (SpiId::SpiA, Port::PortB, AltFunc::AltFunc2, 0) => Some(HwChipSelectId::Id1),
        (SpiId::SpiB, Port::PortB, AltFunc::AltFunc1, 16) => Some(HwChipSelectId::Id0),
        (SpiId::SpiB, Port::PortB, AltFunc::AltFunc1, 15) => Some(HwChipSelectId::Id1),
        (SpiId::SpiB, Port::PortB, AltFunc::AltFunc1, 14) => Some(HwChipSelectId::Id2),
        (SpiId::SpiB, Port::PortB, AltFunc::AltFunc1, 13) => Some(HwChipSelectId::Id3),
        (SpiId::SpiB, Port::PortB, AltFunc::AltFunc1, 12) => Some(HwChipSelectId::Id4),
        (SpiId::SpiB, Port::PortB, AltFunc::AltFunc1, 11) => Some(HwChipSelectId::Id5),
        (SpiId::SpiB, Port::PortB, AltFunc::AltFunc1, 10) => Some(HwChipSelectId::Id6),
        (SpiId::SpiB, Port::PortB, AltFunc::AltFunc1, 2) => Some(HwChipSelectId::Id0),
        (SpiId::SpiB, Port::PortB, AltFunc::AltFunc1, 1) => Some(HwChipSelectId::Id1),
        (SpiId::SpiB, Port::PortB, AltFunc::AltFunc1, 0) => Some(HwChipSelectId::Id2),
        (SpiId::SpiB, Port::PortB, AltFunc::AltFunc2, 12) => Some(HwChipSelectId::Id0),
        (SpiId::SpiB, Port::PortB, AltFunc::AltFunc2, 11) => Some(HwChipSelectId::Id1),
        (SpiId::SpiB, Port::PortB, AltFunc::AltFunc2, 10) => Some(HwChipSelectId::Id2),
        (SpiId::SpiB, Port::PortA, AltFunc::AltFunc2, 17) => Some(HwChipSelectId::Id0),
        (SpiId::SpiB, Port::PortA, AltFunc::AltFunc2, 16) => Some(HwChipSelectId::Id1),
        (SpiId::SpiB, Port::PortA, AltFunc::AltFunc2, 15) => Some(HwChipSelectId::Id2),
        (SpiId::SpiB, Port::PortA, AltFunc::AltFunc2, 14) => Some(HwChipSelectId::Id3),
        (SpiId::SpiB, Port::PortA, AltFunc::AltFunc2, 13) => Some(HwChipSelectId::Id4),
        (SpiId::SpiB, Port::PortA, AltFunc::AltFunc2, 12) => Some(HwChipSelectId::Id5),
        (SpiId::SpiB, Port::PortA, AltFunc::AltFunc2, 11) => Some(HwChipSelectId::Id6),
        (SpiId::SpiB, Port::PortA, AltFunc::AltFunc2, 10) => Some(HwChipSelectId::Id7),
        (SpiId::SpiB, Port::PortA, AltFunc::AltFunc2, 23) => Some(HwChipSelectId::Id5),
        (SpiId::SpiB, Port::PortA, AltFunc::AltFunc2, 22) => Some(HwChipSelectId::Id6),
        (SpiId::SpiB, Port::PortA, AltFunc::AltFunc2, 21) => Some(HwChipSelectId::Id7),
        (SpiId::SpiC, Port::PortB, AltFunc::AltFunc3, 9) => Some(HwChipSelectId::Id1),
        (SpiId::SpiC, Port::PortB, AltFunc::AltFunc3, 8) => Some(HwChipSelectId::Id2),
        (SpiId::SpiC, Port::PortB, AltFunc::AltFunc3, 7) => Some(HwChipSelectId::Id3),
        (SpiId::SpiC, Port::PortB, AltFunc::AltFunc3, 22) => Some(HwChipSelectId::Id1),
        (SpiId::SpiC, Port::PortB, AltFunc::AltFunc3, 23) => Some(HwChipSelectId::Id2),
        (SpiId::SpiC, Port::PortA, AltFunc::AltFunc1, 20) => Some(HwChipSelectId::Id1),
        (SpiId::SpiC, Port::PortA, AltFunc::AltFunc1, 19) => Some(HwChipSelectId::Id2),
        (SpiId::SpiC, Port::PortB, AltFunc::AltFunc1, 18) => Some(HwChipSelectId::Id3),
        (SpiId::SpiC, Port::PortA, AltFunc::AltFunc3, 23) => Some(HwChipSelectId::Id1),
        (SpiId::SpiC, Port::PortA, AltFunc::AltFunc3, 22) => Some(HwChipSelectId::Id2),
        (SpiId::SpiC, Port::PortA, AltFunc::AltFunc3, 21) => Some(HwChipSelectId::Id3),
        (SpiId::SpiC, Port::PortA, AltFunc::AltFunc3, 20) => Some(HwChipSelectId::Id4),
        _ => None,
    }
}

/// Looks up the hardware chip-select line that `pin` drives for peripheral `spi`.
pub fn pin_cs_line(spi: SpiId, pin: AfPin) -> (r: Option<HwChipSelectId>)
    ensures
        r == cs_line(spi, pin),
{
    match (spi, pin.port, pin.func, pin.num) {
        (SpiId::SpiA, Port::PortA, AltFunc::AltFunc1, 28) => Some(HwChipSelectId::Id0),
        (SpiId::SpiA, Port::PortA, AltFunc::AltFunc1, 27) => Some(HwChipSelectId::Id1),
        (SpiId::SpiA, Port::PortA, AltFunc::AltFunc1, 26) => Some(HwChipSelectId::Id2),
        (SpiId::SpiA, Port::PortA, AltFunc::AltFunc1, 25) => Some(HwChipSelectId::Id3),
        (SpiId::SpiA, Port::PortA, AltFunc::AltFunc1, 24) => Some(HwChipSelectId::Id4),
        (SpiId::SpiA, Port::PortA, AltFunc::AltFunc1, 23) => Some(HwChipSelectId::Id5),
        (SpiId::SpiA, Port::PortA, AltFunc::AltFunc1, 22) => Some(HwChipSelectId::Id6),
        (SpiId::SpiA, Port::PortA, AltFunc::AltFunc1, 21) => Some(HwChipSelectId::Id7),
        (SpiId::SpiA, Port::PortB, AltFunc::AltFunc2, 6) => Some(HwChipSelectId::Id0),
        (SpiId::SpiA, Port::PortB, AltFunc::AltFunc2, 5) => Some(HwChipSelectId::Id6),
        (SpiId::SpiA, Port::PortB, AltFunc::AltFunc2, 4) => Some(HwChipSelectId::Id5),
        (SpiId::SpiA, Port::PortB, AltFunc::AltFunc2, 3) => Some(HwChipSelectId::Id4),
        (SpiId::SpiA, Port::PortB, AltFunc::AltFunc2, 2) => Some(HwChipSelectId::Id3),
        (SpiId::SpiA, Port::PortB, AltFunc::AltFunc2, 1) => Some(HwChipSelectId::Id2),
        (SpiId::SpiA, Port::PortB, AltFunc::AltFunc2, 0) => Some(HwChipSelectId::Id1),
        (SpiId::SpiB, Port::PortB, AltFunc::AltFunc1, 16) => Some(HwChipSelectId::Id0),
        (SpiId::SpiB, Port::PortB, AltFunc::AltFunc1, 15) => Some(HwChipSelectId::Id1),
        (SpiId::SpiB, Port::PortB, AltFunc::AltFunc1, 14) => Some(HwChipSelectId::Id2),
        (SpiId::SpiB, Port::PortB, AltFunc::AltFunc1, 13) => Some(HwChipSelectId::Id3),
        (SpiId::SpiB, Port::PortB, AltFunc::AltFunc1, 12) => Some(HwChipSelectId::Id4),
        (SpiId::SpiB, Port::PortB, AltFunc::AltFunc1, 11) => Some(HwChipSelectId::Id5),
        (SpiId::SpiB, Port::PortB, AltFunc::AltFunc1, 10) => Some(HwChipSelectId::Id6),
        (SpiId::SpiB, Port::PortB, AltFunc::AltFunc1, 2) => Some(HwChipSelectId::Id0),
        (SpiId::SpiB, Port::PortB, AltFunc::AltFunc1, 1) => Some(HwChipSelectId::Id1),
        (SpiId::SpiB, Port::PortB, AltFunc::AltFunc1, 0) => Some(HwChipSelectId::Id2),
        (SpiId::SpiB, Port::PortB, AltFunc::AltFunc2, 12) => Some(HwChipSelectId::Id0),
        (SpiId::SpiB, Port::PortB, AltFunc::AltFunc2, 11) => Some(HwChipSelectId::Id1),
        (SpiId::SpiB, Port::PortB, AltFunc::AltFunc2, 10) => Some(HwChipSelectId::Id2),
        (SpiId::SpiB, Port::PortA, AltFunc::AltFunc2, 17) => Some(HwChipSelectId::Id0),
        (SpiId::SpiB, Port::PortA, AltFunc::AltFunc2, 16) => Some(HwChipSelectId::Id1),
        (SpiId::SpiB, Port::PortA, AltFunc::AltFunc2, 15) => Some(HwChipSelectId::Id2),
        (SpiId::SpiB, Port::PortA, AltFunc::AltFunc2, 14) => Some(HwChipSelectId::Id3),
        (SpiId::SpiB, Port::PortA, AltFunc::AltFunc2, 13) => Some(HwChipSelectId::Id4),
        (SpiId::SpiB, Port::PortA, AltFunc::AltFunc2, 12) => Some(HwChipSelectId::Id5),
        (SpiId::SpiB, Port::PortA, AltFunc::AltFunc2, 11) => Some(HwChipSelectId::Id6),
        (SpiId::SpiB, Port::PortA, AltFunc::AltFunc2, 10) => Some(HwChipSelectId::Id7),
        (SpiId::SpiB, Port::PortA, AltFunc::AltFunc2, 23) => Some(HwChipSelectId::Id5),
        (SpiId::SpiB, Port::PortA, AltFunc::AltFunc2, 22) => Some(HwChipSelectId::Id6),
        (SpiId::SpiB, Port::PortA, AltFunc::AltFunc2, 21) => Some(HwChipSelectId::Id7),
        (SpiId::SpiC, Port::PortB, AltFunc::AltFunc3, 9) => Some(HwChipSelectId::Id1),
        (SpiId::SpiC, Port::PortB, AltFunc::AltFunc3, 8) => Some(HwChipSelectId::Id2),
        (SpiId::SpiC, Port::PortB, AltFunc::AltFunc3, 7) => Some(HwChipSelectId::Id3),
        (SpiId::SpiC, Port::PortB, AltFunc::AltFunc3, 22) => Some(HwChipSelectId::Id1),
        (SpiId::SpiC, Port::PortB, AltFunc::AltFunc3, 23) => Some(HwChipSelectId::Id2),
        (SpiId::SpiC, Port::PortA, AltFunc::AltFunc1, 20) => Some(HwChipSelectId::Id1),
        (SpiId::SpiC, Port::PortA, AltFunc::AltFunc1, 19) => Some(HwChipSelectId::Id2),
        (SpiId::SpiC, Port::PortB, AltFunc::AltFunc1, 18) => Some(HwChipSelectId::Id3),
        (SpiId::SpiC, Port::PortA, AltFunc::AltFunc3, 23) => Some(HwChipSelectId::Id1),
        (SpiId::SpiC, Port::PortA, AltFunc::AltFunc3, 22) => Some(HwChipSelectId::Id2),
        (SpiId::SpiC, Port::PortA, AltFunc::AltFunc3, 21) => Some(HwChipSelectId::Id3),
        (SpiId::SpiC, Port::PortA, AltFunc::AltFunc3, 20) => Some(HwChipSelectId::Id4),
        _ => None,
    }
}

} // verus!
