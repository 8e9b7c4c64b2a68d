//! The echo engine: classifies each received byte, returns the bytes
//! to transmit back, and keeps the processed-byte count and the
//! configured baud rate.

use vstd::prelude::*;

use crate::config::{BACKSPACE, BACKSPACE_SEQ, DELETE, MAX_BAUD, MIN_BAUD, SPACE, UART_BAUD_RATE};

verus! {

/// True of the ASCII letters `A`-`Z` and `a`-`z`.
pub open spec fn is_letter(ch: u8) -> bool {
    (0x41 <= ch && ch <= 0x5A) || (0x61 <= ch && ch <= 0x7A)
}

/// True of the ASCII digits `0`-`9`.
pub open spec fn is_digit(ch: u8) -> bool {
    0x30 <= ch && ch <= 0x39
}

/// True of space and the ASCII punctuation and symbol characters:
/// `! " # $ % & ' ( ) * + , - . /`, `: ; < = > ? @`, `[ \ ] ^ _ \``
/// and `{ | } ~`. Together with the letters and digits these are
/// exactly the printable ASCII bytes.
pub open spec fn is_punctuation(ch: u8) -> bool {
    (0x20 <= ch && ch <= 0x2F) || (0x3A <= ch && ch <= 0x40) || (0x5B <= ch && ch <= 0x60)
        || (0x7B <= ch && ch <= 0x7E)
}

/// True of the control characters that are echoed unchanged:
/// newline, carriage return and tab.
pub open spec fn is_line_control(ch: u8) -> bool {
    ch == 0x0A || ch == 0x0D || ch == 0x09
}

/// True of the two codes a terminal sends to erase a character:
/// backspace and delete.
pub open spec fn is_erase(ch: u8) -> bool {
    ch == BACKSPACE || ch == DELETE
}

/// True of every byte that is echoed back unchanged.
pub open spec fn is_echoed(ch: u8) -> bool {
    is_letter(ch) || is_digit(ch) || is_punctuation(ch) || is_line_control(ch)
}

/// The bytes transmitted back for one received byte: the erase
/// sequence for backspace and delete, the byte itself when it is
/// echoed, and nothing at all for any other byte.
pub open spec fn echo_output(ch: u8) -> Seq<u8> {
    if is_erase(ch) {
        seq![BACKSPACE, SPACE, BACKSPACE]
    } else if is_echoed(ch) {
        seq![ch]
    } else {
        Seq::<u8>::empty()
    }
}

/// Result of clamping a requested baud rate to the supported range.
pub open spec fn clamped(rate: u32) -> u32 {
    if rate < MIN_BAUD {
        MIN_BAUD
    } else if rate > MAX_BAUD {
        MAX_BAUD
    } else {
        rate
    }
}

/// Clamps a requested baud rate into `[MIN_BAUD, MAX_BAUD]`:
/// out-of-range requests are moved to the bound they exceed, in-range
/// requests are returned unchanged.
pub fn clamp_baud_rate(rate: u32) -> (r: u32)
    ensures
        r == clamped(rate),
        rate < MIN_BAUD ==> r == MIN_BAUD,
        rate > MAX_BAUD ==> r == MAX_BAUD,
        MIN_BAUD <= rate <= MAX_BAUD ==> r == rate,
        MIN_BAUD <= r <= MAX_BAUD,
{
    if rate < MIN_BAUD {
        MIN_BAUD
    } else if rate > MAX_BAUD {
        MAX_BAUD
    } else {
        rate
    }
}

/// Mathematical model of a [`UartController`]: the number of bytes
/// processed so far and the configured baud rate.
pub struct ControllerModel {
    pub echo_count: nat,
    pub baud_rate: u32,
}

/// A controller state is valid when its baud rate lies in the
/// supported range; constructors and the setter establish this and
/// every method preserves it.
pub open spec fn valid(m: ControllerModel) -> bool {
    MIN_BAUD <= m.baud_rate <= MAX_BAUD
}

/// The model after processing one byte: the count goes up by exactly
/// one — whichever output the byte maps to — and the baud rate is
/// untouched.
pub open spec fn step(m: ControllerModel, ch: u8) -> ControllerModel {
    ControllerModel { echo_count: m.echo_count + 1, baud_rate: m.baud_rate }
}

/// The model after processing a whole sequence of bytes, first byte
/// first.
pub open spec fn run(m: ControllerModel, inputs: Seq<u8>) -> ControllerModel
    decreases inputs.len(),
{
    if inputs.len() == 0 {
        m
    } else {
        run(step(m, inputs[0]), inputs.subrange(1, inputs.len() as int))
    }
}

/// UART controller with echo tracking: counts the bytes it has
/// processed and holds the configured baud rate.
#[derive(Clone, Copy, Debug, PartialEq, Eq, Structural)]
pub struct UartController {
    echo_count: u64,
    baud_rate: u32,
}

impl View for UartController {
    type V = ControllerModel;

    closed spec fn view(&self) -> ControllerModel {
        ControllerModel { echo_count: self.echo_count as nat, baud_rate: self.baud_rate }
    }
}

impl Default for UartController {
    /// Same controller as [`UartController::new`] returns.
    fn default() -> (c: Self)
        ensures
            c@.echo_count == 0,
            c@.baud_rate == UART_BAUD_RATE,
            valid(c@),
    {
        Self::new()
    }
}

impl UartController {
    /// Creates a controller with default settings: nothing processed
    /// yet and the default baud rate.
    pub fn new() -> (c: Self)
        ensures
            c@.echo_count == 0,
            c@.baud_rate == UART_BAUD_RATE,
            valid(c@),
    {
        UartController { echo_count: 0, baud_rate: UART_BAUD_RATE }
    }

    /// Creates a controller with nothing processed yet and the given
    /// baud rate, clamped to the supported range.
    pub fn with_baud_rate(rate: u32) -> (c: Self)
        ensures
            c@.echo_count == 0,
            c@.baud_rate == clamped(rate),
            valid(c@),
    {
        UartController { echo_count: 0, baud_rate: clamp_baud_rate(rate) }
    }

    /// Processes one received byte and returns the bytes to echo
    /// back: the erase sequence for backspace or delete, the byte
    /// itself for printable ASCII, newline, carriage return and tab,
    /// and nothing for any other byte. Every call — including those
    /// that return nothing — counts as one processed byte.
    pub fn process_char(&mut self, ch: u8) -> (out: Vec<u8>)
        requires
            old(self)@.echo_count < u64::MAX,
        ensures
            final(self)@ == step(old(self)@, ch),
            out@ == echo_output(ch),
    {
        self.echo_count = self.echo_count + 1;
        if ch == BACKSPACE || ch == DELETE {
            let mut out: Vec<u8> = Vec::new();
            out.push(BACKSPACE);
            out.push(SPACE);
            out.push(BACKSPACE);
            out
        } else if (0x41 <= ch && ch <= 0x5A) || (0x61 <= ch && ch <= 0x7A)
            || (0x30 <= ch && ch <= 0x39) || (0x20 <= ch && ch <= 0x2F)
            || (0x3A <= ch && ch <= 0x40) || (0x5B <= ch && ch <= 0x60)
            || (0x7B <= ch && ch <= 0x7E) || ch == 0x0A || ch == 0x0D || ch == 0x09 {
            let mut out: Vec<u8> = Vec::new();
            out.push(ch);
            out
        } else {
            let out: Vec<u8> = Vec::new();
            out
        }
    }

    /// Returns how many bytes this controller has processed.
    pub fn echo_count(&self) -> (n: u64)
        ensures
            n == self@.echo_count,
    {
        self.echo_count
    }

    /// Returns the configured baud rate.
    pub fn baud_rate(&self) -> (r: u32)
        ensures
            r == self@.baud_rate,
    {
        self.baud_rate
    }

    /// Reconfigures the baud rate, clamping the request to the
    /// supported range; the processed-byte count is untouched.
    pub fn set_baud_rate(&mut self, rate: u32)
        ensures
            final(self)@.baud_rate == clamped(rate),
            final(self)@.echo_count == old(self)@.echo_count,
            valid(final(self)@),
    {
        self.baud_rate = clamp_baud_rate(rate);
    }
}

/// Backspace and delete both map to the three-byte erase sequence.
pub proof fn lemma_erase_bytes(ch: u8)
    requires
        is_erase(ch),
    ensures
        echo_output(ch) == seq![BACKSPACE, SPACE, BACKSPACE],
{
}

/// Every letter, digit, punctuation character, newline, carriage
/// return and tab is echoed back as itself alone.
pub proof fn lemma_echoed_bytes(ch: u8)
    requires
        is_echoed(ch),
    ensures
        echo_output(ch) == seq![ch],
{
}

/// Every byte that is neither an erase code nor echoed produces no
/// output at all: it is silently dropped from the echo stream.
pub proof fn lemma_dropped_bytes(ch: u8)
    requires
        !is_erase(ch),
        !is_echoed(ch),
    ensures
        echo_output(ch) == Seq::<u8>::empty(),
{
}

/// Processing any sequence of bytes raises the processed-byte count
/// by exactly the sequence's length — dropped bytes included — and
/// leaves the baud rate untouched.
pub proof fn lemma_run_counts_every_byte(m: ControllerModel, inputs: Seq<u8>)
    ensures
        run(m, inputs).echo_count == m.echo_count + inputs.len(),
        run(m, inputs).baud_rate == m.baud_rate,
    decreases inputs.len(),
{
    if inputs.len() > 0 {
        lemma_run_counts_every_byte(step(m, inputs[0]), inputs.subrange(1, inputs.len() as int));
    }
}

/// The erase output and the published [`BACKSPACE_SEQ`] constant are
/// the same three bytes.
pub proof fn lemma_erase_matches_backspace_seq(ch: u8)
    requires
        is_erase(ch),
    ensures
        echo_output(ch) == BACKSPACE_SEQ@,
{
}

/// Clamping is idempotent: clamping an already clamped rate changes
/// nothing.
pub proof fn lemma_clamp_idempotent(rate: u32)
    ensures
        clamped(clamped(rate)) == clamped(rate),
{
}

/// The default baud rate lies strictly inside the supported range.
pub proof fn lemma_default_baud_in_range()
    ensures
        MIN_BAUD < UART_BAUD_RATE < MAX_BAUD,
{
}

} // verus!
