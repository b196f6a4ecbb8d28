//! The board's fixed clock and bus settings.
use vstd::prelude::*;

verus! {

/// Frequency of the external crystal oscillator, in hertz.
pub const HSE_HZ: u32 = 8_000_000;

/// Target core clock, in hertz.
pub const SYSCLK_HZ: u32 = 72_000_000;

/// Target clock of the low-speed peripheral bus, in hertz.
pub const PCLK1_HZ: u32 = 36_000_000;

/// Clock rate of the SPI bus to the card, in hertz.
pub const SPI_CLOCK_HZ: u32 = 16_000_000;

/// The SPI clock idles high (`false`: it idles low).
pub const SPI_IDLE_HIGH: bool = false;

/// Data is captured on the second clock transition (`false`: on the first).
pub const SPI_CAPTURE_ON_SECOND: bool = false;

} // verus!
