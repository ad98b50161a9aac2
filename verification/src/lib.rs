//! Polled driver logic for a 16550-family UART: typed bit-field codecs for
//! the registers, the get/set protocol for line configuration — including
//! the save/set/restore discipline around the divisor-latch-access mode bit
//! that multiplexes two register addresses — and best-effort polled byte
//! transfer gated on the line-status flags.

use vstd::prelude::*;

mod blocking;
mod register;

pub use crate::blocking::BlockingUart;
pub use crate::blocking::blocking_flash;
pub use crate::blocking::blocking_read;
pub use crate::blocking::blocking_write;
pub use crate::register::IerDlh;
pub use crate::register::Lcr;
pub use crate::register::Lsr;
pub use crate::register::Parity;
pub use crate::register::RbrThrDll;
pub use crate::register::RegisterBlock;
pub use crate::register::StopBits;
pub use crate::register::WordLength;
pub use crate::register::lcr_divisor_latch;
pub use crate::register::lcr_parity_enabled;
pub use crate::register::lcr_parity_select;
pub use crate::register::lcr_stick_parity;
pub use crate::register::lcr_stop_bits;
pub use crate::register::lcr_word_length;
pub use crate::register::lsr_at;
pub use crate::register::lsr_data_ready;
pub use crate::register::lsr_thr_empty;
pub use crate::register::lsr_transmitter_empty;
pub use crate::register::rx_byte;
pub use crate::register::stream_after;

verus! {

/// The 16-bit divisor held as two latched bytes, combined little-endian.
pub open spec fn spec_divisor(dll: u8, dlh: u8) -> u16 {
    (dll + dlh * 256) as u16
}

/// The parity mode encoded by the three parity flags of a line-control byte:
/// enable off means none, whatever the other two flags hold; with enable on,
/// the stick flag picks computed (even/odd) or forced (low/high) parity, and
/// the select flag picks which of the pair.
pub open spec fn lcr_parity_mode(b: u8) -> ParityMode {
    if !crate::register::lcr_parity_enabled(b) {
        ParityMode::Disabled
    } else if !crate::register::lcr_stick_parity(b) {
        if crate::register::lcr_parity_select(b) == Parity::Even {
            ParityMode::Even
        } else {
            ParityMode::Odd
        }
    } else {
        if crate::register::lcr_parity_select(b) == Parity::Odd {
            ParityMode::High
        } else {
            ParityMode::Low
        }
    }
}

/// Configuration of the serial line: divisor, parity mode, stop bits and
/// word length. A plain value; the divisor is optional, and construction of
/// a handle applies it only when present.
#[derive(Clone, Copy, Debug, PartialEq, Eq)]
pub struct Config {
    /// The divisor value for baud rate generation, if one is to be applied.
    pub divisor: Option<u16>,
    /// The parity checking mode.
    pub parity_mode: ParityMode,
    /// Number of stop bits.
    pub stop_bits: StopBits,
    /// Length of data words.
    pub word_length: WordLength,
}

impl Config {
    /// The default configuration: no divisor, no parity, one stop bit,
    /// 8-bit words.
    pub fn new() -> (r: Self)
        ensures
            r.divisor is None,
            r.parity_mode == ParityMode::Disabled,
            r.stop_bits == StopBits::Bit1,
            r.word_length == WordLength::Bits8,
    {
        Config {
            divisor: None,
            parity_mode: ParityMode::Disabled,
            stop_bits: StopBits::Bit1,
            word_length: WordLength::Bits8,
        }
    }

    /// Sets the divisor value.
    pub fn set_divisor(self, divisor: u16) -> (r: Self)
        ensures
            r.divisor == Some(divisor),
            r.parity_mode == self.parity_mode,
            r.stop_bits == self.stop_bits,
            r.word_length == self.word_length,
    {
        Config { divisor: Some(divisor), ..self }
    }

    /// Sets the parity mode.
    pub fn set_parity_mode(self, parity_mode: ParityMode) -> (r: Self)
        ensures
            r.divisor == self.divisor,
            r.parity_mode == parity_mode,
            r.stop_bits == self.stop_bits,
            r.word_length == self.word_length,
    {
        Config { parity_mode, ..self }
    }

    /// Sets the number of stop bits.
    pub fn set_stop_bits(self, stop_bits: StopBits) -> (r: Self)
        ensures
            r.divisor == self.divisor,
            r.parity_mode == self.parity_mode,
            r.stop_bits == stop_bits,
            r.word_length == self.word_length,
    {
        Config { stop_bits, ..self }
    }

    /// Sets the word length.
    pub fn set_word_length(self, word_length: WordLength) -> (r: Self)
        ensures
            r.divisor == self.divisor,
            r.parity_mode == self.parity_mode,
            r.stop_bits == self.stop_bits,
            r.word_length == word_length,
    {
        Config { word_length, ..self }
    }
}

/// Splitting a divisor into its low and high bytes and combining them
/// little-endian yields the divisor back: writing `d` through the latch and
/// then reading it returns `d`.
pub proof fn lemma_divisor_round_trip(d: u16)
    ensures
        spec_divisor((d & 0xff) as u8, (d >> 8) as u8) == d,
{
    assert(((d & 0xff) as u8) + ((d >> 8) as u8) * 256 == d) by (bit_vector);
}

/// Reads the latched divisor through the multiplexed registers: saves line
/// control, enables latch access, reads the two divisor bytes, and restores
/// the saved line-control value, closing the critical section before any
/// data-path caller can observe the latch mode.
pub fn divisor(uart: &mut RegisterBlock) -> (r: u16)
    ensures
        r == spec_divisor(old(uart).dll, old(uart).dlh),
        final(uart).lcr == old(uart).lcr,
        final(uart).lsr_base == old(uart).lsr_base,
        final(uart).lsr_polls@ == old(uart).lsr_polls@,
        final(uart).dll == old(uart).dll,
        final(uart).dlh == old(uart).dlh,
        final(uart).ier == old(uart).ier,
        final(uart).rx@ == old(uart).rx@,
        final(uart).tx@ == old(uart).tx@,
{
    let lcr = uart.read_lcr();
    uart.write_lcr(lcr.enable_divisor_latch_access());
    let dll = uart.read_rbr_thr_dll().divisor_latch_low_byte();
    let dlh = uart.read_ier_dlh().divisor_latch_high_byte();
    uart.write_lcr(lcr);
    (dll as u16) + (dlh as u16) * 256
}

/// Writes the divisor through the multiplexed registers: saves line control,
/// enables latch access, stores the low and high bytes, and writes back the
/// saved line-control value, closing the critical section.
pub fn set_divisor(uart: &mut RegisterBlock, divisor: u16)
    ensures
        spec_divisor(final(uart).dll, final(uart).dlh) == divisor,
        final(uart).dll == (divisor & 0xff) as u8,
        final(uart).dlh == (divisor >> 8) as u8,
        final(uart).lcr == old(uart).lcr,
        final(uart).lsr_base == old(uart).lsr_base,
        final(uart).lsr_polls@ == old(uart).lsr_polls@,
        final(uart).ier == old(uart).ier,
        final(uart).rx@ == old(uart).rx@,
        final(uart).tx@ == old(uart).tx@,
{
    let lcr = uart.read_lcr();
    let divisor_low: u8 = (divisor & 0xff) as u8;
    let divisor_high: u8 = (divisor >> 8) as u8;
    uart.write_lcr(lcr.enable_divisor_latch_access());
    let dll = uart.read_rbr_thr_dll().set_divisor_latch_low_byte(divisor_low);
    let dlh = uart.read_ier_dlh().set_divisor_latch_high_byte(divisor_high);
    uart.write_rbr_thr_dll(dll);
    uart.write_ier_dlh(dlh);
    uart.write_lcr(lcr);
    proof {
        lemma_divisor_round_trip(divisor);
    }
}

/// Decodes the current parity mode from the three line-control parity flags.
pub fn parity_mode(uart: &RegisterBlock) -> (r: ParityMode)
    ensures
        r == lcr_parity_mode(uart.lcr),
{
    let lcr = uart.read_lcr();
    let flags = (lcr.is_parity_enabled(), lcr.parity(), lcr.is_stick_parity_enabled());
    match flags {
        (false, _, _) => ParityMode::Disabled,
        (true, Parity::Even, false) => ParityMode::Even,
        (true, Parity::Odd, false) => ParityMode::Odd,
        (true, Parity::Odd, true) => ParityMode::High,
        (true, Parity::Even, true) => ParityMode::Low,
    }
}

/// Writes the three line-control parity flags for the given mode, leaving
/// the other line-control fields and the rest of the register state as they
/// were. Reading the mode back afterwards returns `parity`, and the
/// stick-parity flag is never left set with parity disabled: disabling
/// clears both flags' effect, stick included.
pub fn set_parity_mode(uart: &mut RegisterBlock, parity: ParityMode)
    ensures
        lcr_parity_mode(final(uart).lcr) == parity,
        lcr_word_length(final(uart).lcr) == lcr_word_length(old(uart).lcr),
        lcr_stop_bits(final(uart).lcr) == lcr_stop_bits(old(uart).lcr),
        lcr_divisor_latch(final(uart).lcr) == lcr_divisor_latch(old(uart).lcr),
        lcr_parity_enabled(final(uart).lcr) || !lcr_stick_parity(final(uart).lcr),
        parity == ParityMode::Disabled ==> !lcr_stick_parity(final(uart).lcr)
            && lcr_parity_select(final(uart).lcr) == lcr_parity_select(old(uart).lcr),
        final(uart).lsr_base == old(uart).lsr_base,
        final(uart).lsr_polls@ == old(uart).lsr_polls@,
        final(uart).dll == old(uart).dll,
        final(uart).dlh == old(uart).dlh,
        final(uart).ier == old(uart).ier,
        final(uart).rx@ == old(uart).rx@,
        final(uart).tx@ == old(uart).tx@,
{
    let lcr = uart.read_lcr();
    let lcr = match parity {
        ParityMode::Disabled => lcr.disable_parity().disable_stick_parity(),
        ParityMode::Odd => lcr.enable_parity().disable_stick_parity().set_parity(Parity::Odd),
        ParityMode::Even => lcr.enable_parity().disable_stick_parity().set_parity(Parity::Even),
        ParityMode::High => lcr.enable_parity().enable_stick_parity().set_parity(Parity::Odd),
        ParityMode::Low => lcr.enable_parity().enable_stick_parity().set_parity(Parity::Even),
    };
    uart.write_lcr(lcr);
}

/// Reads the stop-bit setting from line control.
pub fn stop_bits(uart: &RegisterBlock) -> (r: StopBits)
    ensures
        r == lcr_stop_bits(uart.lcr),
{
    uart.read_lcr().stop_bits()
}

/// Rewrites the stop-bit field of line control, leaving every other field
/// and the rest of the register state as they were.
pub fn set_stop_bits(uart: &mut RegisterBlock, stop_bits: StopBits)
    ensures
        lcr_stop_bits(final(uart).lcr) == stop_bits,
        lcr_word_length(final(uart).lcr) == lcr_word_length(old(uart).lcr),
        lcr_parity_mode(final(uart).lcr) == lcr_parity_mode(old(uart).lcr),
        lcr_parity_enabled(final(uart).lcr) == lcr_parity_enabled(old(uart).lcr),
        lcr_parity_select(final(uart).lcr) == lcr_parity_select(old(uart).lcr),
        lcr_stick_parity(final(uart).lcr) == lcr_stick_parity(old(uart).lcr),
        lcr_divisor_latch(final(uart).lcr) == lcr_divisor_latch(old(uart).lcr),
        final(uart).lsr_base == old(uart).lsr_base,
        final(uart).lsr_polls@ == old(uart).lsr_polls@,
        final(uart).dll == old(uart).dll,
        final(uart).dlh == old(uart).dlh,
        final(uart).ier == old(uart).ier,
        final(uart).rx@ == old(uart).rx@,
        final(uart).tx@ == old(uart).tx@,
{
    let lcr = uart.read_lcr().set_stop_bits(stop_bits);
    uart.write_lcr(lcr);
}

/// Reads the word-length setting from line control.
pub fn word_length(uart: &RegisterBlock) -> (r: WordLength)
    ensures
        r == lcr_word_length(uart.lcr),
{
    uart.read_lcr().word_length()
}

/// Rewrites the word-length field of line control, leaving every other field
/// and the rest of the register state as they were.
pub fn set_word_length(uart: &mut RegisterBlock, word_length: WordLength)
    ensures
        lcr_word_length(final(uart).lcr) == word_length,
        lcr_stop_bits(final(uart).lcr) == lcr_stop_bits(old(uart).lcr),
        lcr_parity_mode(final(uart).lcr) == lcr_parity_mode(old(uart).lcr),
        lcr_parity_enabled(final(uart).lcr) == lcr_parity_enabled(old(uart).lcr),
        lcr_parity_select(final(uart).lcr) == lcr_parity_select(old(uart).lcr),
        lcr_stick_parity(final(uart).lcr) == lcr_stick_parity(old(uart).lcr),
        lcr_divisor_latch(final(uart).lcr) == lcr_divisor_latch(old(uart).lcr),
        final(uart).lsr_base == old(uart).lsr_base,
        final(uart).lsr_polls@ == old(uart).lsr_polls@,
        final(uart).dll == old(uart).dll,
        final(uart).dlh == old(uart).dlh,
        final(uart).ier == old(uart).ier,
        final(uart).rx@ == old(uart).rx@,
        final(uart).tx@ == old(uart).tx@,
{
    let lcr = uart.read_lcr().set_word_length(word_length);
    uart.write_lcr(lcr);
}

/// Polls line status once and reports whether a received byte is waiting.
pub fn read_ready(uart: &mut RegisterBlock) -> (r: bool)
    ensures
        r == lsr_data_ready(lsr_at(old(uart).lsr_polls@, old(uart).lsr_base, 0)),
        final(uart).lsr_polls@ == stream_after(old(uart).lsr_polls@, 1),
        final(uart).lcr == old(uart).lcr,
        final(uart).lsr_base == old(uart).lsr_base,
        final(uart).dll == old(uart).dll,
        final(uart).dlh == old(uart).dlh,
        final(uart).ier == old(uart).ier,
        final(uart).rx@ == old(uart).rx@,
        final(uart).tx@ == old(uart).tx@,
{
    uart.read_lsr().is_data_ready()
}

/// Polls line status once and reports whether the transmit holding slot can
/// accept a byte.
pub fn write_ready(uart: &mut RegisterBlock) -> (r: bool)
    ensures
        r == lsr_thr_empty(lsr_at(old(uart).lsr_polls@, old(uart).lsr_base, 0)),
        final(uart).lsr_polls@ == stream_after(old(uart).lsr_polls@, 1),
        final(uart).lcr == old(uart).lcr,
        final(uart).lsr_base == old(uart).lsr_base,
        final(uart).dll == old(uart).dll,
        final(uart).dlh == old(uart).dlh,
        final(uart).ier == old(uart).ier,
        final(uart).rx@ == old(uart).rx@,
        final(uart).tx@ == old(uart).tx@,
{
    uart.read_lsr().is_transmitter_fifo_empty()
}

/// Polls line status once and reports whether the transmitter has fully
/// drained, holding slot and shift register both.
pub fn transmitter_empty(uart: &mut RegisterBlock) -> (r: bool)
    ensures
        r == lsr_transmitter_empty(lsr_at(old(uart).lsr_polls@, old(uart).lsr_base, 0)),
        final(uart).lsr_polls@ == stream_after(old(uart).lsr_polls@, 1),
        final(uart).lcr == old(uart).lcr,
        final(uart).lsr_base == old(uart).lsr_base,
        final(uart).dll == old(uart).dll,
        final(uart).dlh == old(uart).dlh,
        final(uart).ier == old(uart).ier,
        final(uart).rx@ == old(uart).rx@,
        final(uart).tx@ == old(uart).tx@,
{
    uart.read_lsr().is_transmitter_empty()
}

/// Parity checking mode of the serial line.
#[derive(Debug, Clone, Copy, PartialEq, Eq, Structural)]
pub enum ParityMode {
    /// No parity checking.
    Disabled,
    /// Odd parity checking.
    Odd,
    /// Even parity checking.
    Even,
    /// Force parity bit high.
    High,
    /// Force parity bit low.
    Low,
}

} // verus!
