//! Driver layer for the SPI peripherals of the VA108xx microcontroller family.
//!
//! The library computes everything the driver decides: which pins may serve which
//! signal role, the contents of the control registers, the order in which they are
//! written, and the FIFO schedule of a blocking full-duplex exchange. Touching the
//! memory-mapped registers themselves is left to the caller, which applies the
//! register writes that a handle hands out and runs the exchange schedule against
//! the data and status registers.
use vstd::prelude::*;

pub mod config;
pub mod engine;
pub mod pins;
pub mod spi;

verus! {

/// Marker for traits whose set of implementations is closed.
pub trait Sealed {}

} // verus!
