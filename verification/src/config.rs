//! Configuration constants for the UART link: the default baud rate,
//! the bounds it is clamped to, and the control bytes the echo logic
//! treats specially.

use vstd::prelude::*;

verus! {

/// Default UART baud rate in bits per second.
pub const UART_BAUD_RATE: u32 = 115200;

/// Lowest baud rate the link may be configured with; lower requests
/// are clamped up to this value.
pub const MIN_BAUD: u32 = 9600;

/// Highest baud rate the link may be configured with; higher requests
/// are clamped down to this value.
pub const MAX_BAUD: u32 = 921600;

/// Backspace control code, the usual byte a terminal sends to erase.
pub const BACKSPACE: u8 = 0x08;

/// Delete control code; some terminals send DEL instead of backspace.
pub const DELETE: u8 = 0x7F;

/// Space character, transmitted between the two backspaces of the
/// erase sequence to blank the erased position.
pub const SPACE: u8 = 0x20;

/// Erase sequence: backspace, space, backspace. Echoed to a terminal
/// it visually deletes the previously displayed character.
pub const BACKSPACE_SEQ: [u8; 3] = [0x08, 0x20, 0x08];

} // verus!
