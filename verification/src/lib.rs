//! Character-echo logic for a serial (UART) link.
//!
//! Given one received byte, the library decides which bytes to transmit
//! back: printable ASCII and a few control characters are echoed
//! unchanged, backspace and delete become the three-byte erase sequence,
//! and every other byte is dropped from the echo stream. A controller
//! tracks how many bytes it has processed and carries the configured
//! baud rate, clamped to the supported range. The surrounding I/O loop
//! that owns the hardware feeds bytes in and transmits whatever comes
//! back.

pub mod config;
pub mod uart;
