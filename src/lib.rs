//! A driver for ST7735 / ST7789 TFT display panels.
//!
//! The driver turns drawing requests into the panel's command/data protocol.
//! Each request becomes a program of wire operations (pin levels, byte
//! transmissions and delays) that an [`exchange::Exchange`] hands out one at
//! a time to whatever owns the hardware, stopping at the first failure.

pub mod instruction;
pub mod instruction_st7789;
pub mod wire;
pub mod exchange;
pub mod driver;
