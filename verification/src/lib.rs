//! Driver for chains of MAX7219 LED display controllers.
//!
//! Every operation of the driver is turned into one or more frames of
//! two bytes per chained chip. The contracts say exactly which frames are
//! handed to the bus, in which order, and which error is returned when.

use vstd::prelude::*;

pub mod bus;
pub mod driver;
pub mod error;
pub mod frame;
pub mod registers;

verus! {

/// Maximum number of daisy-chained displays supported.
pub const MAX_DISPLAYS: usize = 8;

/// Number of digits (0 to 7) controlled by one MAX7219.
pub const NUM_DIGITS: u8 = 8;

/// Size of the transmit buffer: two bytes for each display of the longest chain.
pub const BUFFER_LEN: usize = 16;

} // verus!
