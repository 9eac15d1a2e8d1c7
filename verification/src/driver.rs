//! The chain driver.

pub mod max7219;
