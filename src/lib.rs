//! Verified model of a small board's firmware: the choice of logging backend
//! and the panic strategy it links, the logging facade over that backend,
//! take-once ownership of the peripherals, the LED pin, and its blink schedule.

pub mod backend;
pub mod blink;
pub mod board;
pub mod logger;
