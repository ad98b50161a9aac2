//! Typed bit-field codecs for the 16550 registers, and the register block
//! itself: line control, line status, and the two multiplexed registers whose
//! meaning depends on the divisor-latch-access bit of line control.

use vstd::prelude::*;

verus! {

/// Number of data bits in each transmitted word, a 2-bit line-control field.
#[derive(Clone, Copy, Debug, PartialEq, Eq, Structural)]
pub enum WordLength {
    /// 5 data bits.
    Bits5,
    /// 6 data bits.
    Bits6,
    /// 7 data bits.
    Bits7,
    /// 8 data bits.
    Bits8,
}

/// Stop-bit selection, a single line-control flag. `Bit2` selects 1.5 stop
/// bits when the word length is 5 bits and 2 stop bits otherwise.
#[derive(Clone, Copy, Debug, PartialEq, Eq, Structural)]
pub enum StopBits {
    /// One stop bit.
    Bit1,
    /// 1.5 or 2 stop bits, depending on word length.
    Bit2,
}

/// Parity-select flag: the parity the generator computes when stick parity is off.
#[derive(Clone, Copy, Debug, PartialEq, Eq, Structural)]
pub enum Parity {
    /// Odd parity.
    Odd,
    /// Even parity.
    Even,
}

/// Word length encoded in the two lowest line-control bits.
pub open spec fn lcr_word_length(b: u8) -> WordLength {
    if b & 0x03 == 0 {
        WordLength::Bits5
    } else if b & 0x03 == 1 {
        WordLength::Bits6
    } else if b & 0x03 == 2 {
        WordLength::Bits7
    } else {
        WordLength::Bits8
    }
}

/// Stop-bit flag, line-control bit 2.
pub open spec fn lcr_stop_bits(b: u8) -> StopBits {
    if b & 0x04 == 0 {
        StopBits::Bit1
    } else {
        StopBits::Bit2
    }
}

/// Parity-enable flag, line-control bit 3.
pub open spec fn lcr_parity_enabled(b: u8) -> bool {
    b & 0x08 != 0
}

/// Parity-select flag, line-control bit 4 (set means even).
pub open spec fn lcr_parity_select(b: u8) -> Parity {
    if b & 0x10 == 0 {
        Parity::Odd
    } else {
        Parity::Even
    }
}

/// Stick-parity flag, line-control bit 5.
pub open spec fn lcr_stick_parity(b: u8) -> bool {
    b & 0x20 != 0
}

/// Divisor-latch-access flag, line-control bit 7: the mode bit that switches
/// the two multiplexed registers to their divisor-byte roles.
pub open spec fn lcr_divisor_latch(b: u8) -> bool {
    b & 0x80 != 0
}

/// Data-ready flag, line-status bit 0.
pub open spec fn lsr_data_ready(b: u8) -> bool {
    b & 0x01 != 0
}

/// Transmit-holding-empty flag, line-status bit 5: the holding slot can accept a byte.
pub open spec fn lsr_thr_empty(b: u8) -> bool {
    b & 0x20 != 0
}

/// Transmit-empty flag, line-status bit 6: holding slot and shift register both drained.
pub open spec fn lsr_transmitter_empty(b: u8) -> bool {
    b & 0x40 != 0
}

/// Value of the line-control register, as read or about to be written.
#[derive(Clone, Copy, Debug, PartialEq, Eq, Structural)]
pub struct Lcr {
    /// The raw register byte.
    pub bits: u8,
}

impl Lcr {
    /// Decodes the word-length field.
    pub fn word_length(self) -> (r: WordLength)
        ensures
            r == lcr_word_length(self.bits),
    {
        let f = self.bits & 0x03;
        if f == 0 {
            WordLength::Bits5
        } else if f == 1 {
            WordLength::Bits6
        } else if f == 2 {
            WordLength::Bits7
        } else {
            WordLength::Bits8
        }
    }

    /// Replaces the word-length field, leaving every other field as it was.
    pub fn set_word_length(self, word_length: WordLength) -> (r: Lcr)
        ensures
            lcr_word_length(r.bits) == word_length,
            lcr_stop_bits(r.bits) == lcr_stop_bits(self.bits),
            lcr_parity_enabled(r.bits) == lcr_parity_enabled(self.bits),
            lcr_parity_select(r.bits) == lcr_parity_select(self.bits),
            lcr_stick_parity(r.bits) == lcr_stick_parity(self.bits),
            lcr_divisor_latch(r.bits) == lcr_divisor_latch(self.bits),
    {
        let b = self.bits;
        let code: u8 = match word_length {
            WordLength::Bits5 => 0,
            WordLength::Bits6 => 1,
            WordLength::Bits7 => 2,
            WordLength::Bits8 => 3,
        };
        let nb: u8 = (b & 0xfc) | code;
        proof {
            assert(nb & 0x03 == code && nb & 0x04 == b & 0x04 && nb & 0x08 == b & 0x08
                && nb & 0x10 == b & 0x10 && nb & 0x20 == b & 0x20 && nb & 0x80 == b & 0x80)
                by (bit_vector)
                requires
                    nb == (b & 0xfc) | code,
                    code <= 3,
            ;
        }
        Lcr { bits: nb }
    }

    /// Decodes the stop-bit flag.
    pub fn stop_bits(self) -> (r: StopBits)
        ensures
            r == lcr_stop_bits(self.bits),
    {
        if self.bits & 0x04 == 0 {
            StopBits::Bit1
        } else {
            StopBits::Bit2
        }
    }

    /// Replaces the stop-bit flag, leaving every other field as it was.
    pub fn set_stop_bits(self, stop_bits: StopBits) -> (r: Lcr)
        ensures
            lcr_stop_bits(r.bits) == stop_bits,
            lcr_word_length(r.bits) == lcr_word_length(self.bits),
            lcr_parity_enabled(r.bits) == lcr_parity_enabled(self.bits),
            lcr_parity_select(r.bits) == lcr_parity_select(self.bits),
            lcr_stick_parity(r.bits) == lcr_stick_parity(self.bits),
            lcr_divisor_latch(r.bits) == lcr_divisor_latch(self.bits),
    {
        let b = self.bits;
        match stop_bits {
            StopBits::Bit1 => {
                let nb: u8 = b & 0xfb;
                proof {
                    assert(nb & 0x04 == 0 && nb & 0x03 == b & 0x03 && nb & 0x08 == b & 0x08
                        && nb & 0x10 == b & 0x10 && nb & 0x20 == b & 0x20 && nb & 0x80 == b & 0x80)
                        by (bit_vector)
                        requires
                            nb == b & 0xfb,
                    ;
                }
                Lcr { bits: nb }
            },
            StopBits::Bit2 => {
                let nb: u8 = b | 0x04;
                proof {
                    assert(nb & 0x04 != 0 && nb & 0x03 == b & 0x03 && nb & 0x08 == b & 0x08
                        && nb & 0x10 == b & 0x10 && nb & 0x20 == b & 0x20 && nb & 0x80 == b & 0x80)
                        by (bit_vector)
                        requires
                            nb == b | 0x04,
                    ;
                }
                Lcr { bits: nb }
            },
        }
    }

    /// Reads the parity-enable flag.
    pub fn is_parity_enabled(self) -> (r: bool)
        ensures
            r == lcr_parity_enabled(self.bits),
    {
        self.bits & 0x08 != 0
    }

    /// Sets the parity-enable flag, leaving every other field as it was.
    pub fn enable_parity(self) -> (r: Lcr)
        ensures
            lcr_parity_enabled(r.bits),
            lcr_word_length(r.bits) == lcr_word_length(self.bits),
            lcr_stop_bits(r.bits) == lcr_stop_bits(self.bits),
            lcr_parity_select(r.bits) == lcr_parity_select(self.bits),
            lcr_stick_parity(r.bits) == lcr_stick_parity(self.bits),
            lcr_divisor_latch(r.bits) == lcr_divisor_latch(self.bits),
    {
        let b = self.bits;
        let nb: u8 = b | 0x08;
        proof {
            assert(nb & 0x08 != 0 && nb & 0x03 == b & 0x03 && nb & 0x04 == b & 0x04
                && nb & 0x10 == b & 0x10 && nb & 0x20 == b & 0x20 && nb & 0x80 == b & 0x80)
                by (bit_vector)
                requires
                    nb == b | 0x08,
            ;
        }
        Lcr { bits: nb }
    }

    /// Clears the parity-enable flag, leaving every other field as it was.
    pub fn disable_parity(self) -> (r: Lcr)
        ensures
            !lcr_parity_enabled(r.bits),
            lcr_word_length(r.bits) == lcr_word_length(self.bits),
            lcr_stop_bits(r.bits) == lcr_stop_bits(self.bits),
            lcr_parity_select(r.bits) == lcr_parity_select(self.bits),
            lcr_stick_parity(r.bits) == lcr_stick_parity(self.bits),
            lcr_divisor_latch(r.bits) == lcr_divisor_latch(self.bits),
    {
        let b = self.bits;
        let nb: u8 = b & 0xf7;
        proof {
            assert(nb & 0x08 == 0 && nb & 0x03 == b & 0x03 && nb & 0x04 == b & 0x04
                && nb & 0x10 == b & 0x10 && nb & 0x20 == b & 0x20 && nb & 0x80 == b & 0x80)
                by (bit_vector)
                requires
                    nb == b & 0xf7,
            ;
        }
        Lcr { bits: nb }
    }

    /// Reads the parity-select flag.
    pub fn parity(self) -> (r: Parity)
        ensures
            r == lcr_parity_select(self.bits),
    {
        if self.bits & 0x10 == 0 {
            Parity::Odd
        } else {
            Parity::Even
        }
    }

    /// Replaces the parity-select flag, leaving every other field as it was.
    pub fn set_parity(self, parity: Parity) -> (r: Lcr)
        ensures
            lcr_parity_select(r.bits) == parity,
            lcr_word_length(r.bits) == lcr_word_length(self.bits),
            lcr_stop_bits(r.bits) == lcr_stop_bits(self.bits),
            lcr_parity_enabled(r.bits) == lcr_parity_enabled(self.bits),
            lcr_stick_parity(r.bits) == lcr_stick_parity(self.bits),
            lcr_divisor_latch(r.bits) == lcr_divisor_latch(self.bits),
    {
        let b = self.bits;
        match parity {
            Parity::Odd => {
                let nb: u8 = b & 0xef;
                proof {
                    assert(nb & 0x10 == 0 && nb & 0x03 == b & 0x03 && nb & 0x04 == b & 0x04
                        && nb & 0x08 == b & 0x08 && nb & 0x20 == b & 0x20 && nb & 0x80 == b & 0x80)
                        by (bit_vector)
                        requires
                            nb == b & 0xef,
                    ;
                }
                Lcr { bits: nb }
            },
            Parity::Even => {
                let nb: u8 = b | 0x10;
                proof {
                    assert(nb & 0x10 != 0 && nb & 0x03 == b & 0x03 && nb & 0x04 == b & 0x04
                        && nb & 0x08 == b & 0x08 && nb & 0x20 == b & 0x20 && nb & 0x80 == b & 0x80)
                        by (bit_vector)
                        requires
                            nb == b | 0x10,
                    ;
                }
                Lcr { bits: nb }
            },
        }
    }

    /// Reads the stick-parity flag.
    pub fn is_stick_parity_enabled(self) -> (r: bool)
        ensures
            r == lcr_stick_parity(self.bits),
    {
        self.bits & 0x20 != 0
    }

    /// Sets the stick-parity flag, leaving every other field as it was.
    pub fn enable_stick_parity(self) -> (r: Lcr)
        ensures
            lcr_stick_parity(r.bits),
            lcr_word_length(r.bits) == lcr_word_length(self.bits),
            lcr_stop_bits(r.bits) == lcr_stop_bits(self.bits),
            lcr_parity_enabled(r.bits) == lcr_parity_enabled(self.bits),
            lcr_parity_select(r.bits) == lcr_parity_select(self.bits),
            lcr_divisor_latch(r.bits) == lcr_divisor_latch(self.bits),
    {
        let b = self.bits;
        let nb: u8 = b | 0x20;
        proof {
            assert(nb & 0x20 != 0 && nb & 0x03 == b & 0x03 && nb & 0x04 == b & 0x04
                && nb & 0x08 == b & 0x08 && nb & 0x10 == b & 0x10 && nb & 0x80 == b & 0x80)
                by (bit_vector)
                requires
                    nb == b | 0x20,
            ;
        }
        Lcr { bits: nb }
    }

    /// Clears the stick-parity flag, leaving every other field as it was.
    pub fn disable_stick_parity(self) -> (r: Lcr)
        ensures
            !lcr_stick_parity(r.bits),
            lcr_word_length(r.bits) == lcr_word_length(self.bits),
            lcr_stop_bits(r.bits) == lcr_stop_bits(self.bits),
            lcr_parity_enabled(r.bits) == lcr_parity_enabled(self.bits),
            lcr_parity_select(r.bits) == lcr_parity_select(self.bits),
            lcr_divisor_latch(r.bits) == lcr_divisor_latch(self.bits),
    {
        let b = self.bits;
        let nb: u8 = b & 0xdf;
        proof {
            assert(nb & 0x20 == 0 && nb & 0x03 == b & 0x03 && nb & 0x04 == b & 0x04
                && nb & 0x08 == b & 0x08 && nb & 0x10 == b & 0x10 && nb & 0x80 == b & 0x80)
                by (bit_vector)
                requires
                    nb == b & 0xdf,
            ;
        }
        Lcr { bits: nb }
    }

    /// Reads the divisor-latch-access flag.
    pub fn is_divisor_latch_accessible(self) -> (r: bool)
        ensures
            r == lcr_divisor_latch(self.bits),
    {
        self.bits & 0x80 != 0
    }

    /// Sets the divisor-latch-access flag, leaving every other field as it was.
    /// While the flag is set, the multiplexed registers carry the divisor bytes.
    pub fn enable_divisor_latch_access(self) -> (r: Lcr)
        ensures
            lcr_divisor_latch(r.bits),
            lcr_word_length(r.bits) == lcr_word_length(self.bits),
            lcr_stop_bits(r.bits) == lcr_stop_bits(self.bits),
            lcr_parity_enabled(r.bits) == lcr_parity_enabled(self.bits),
            lcr_parity_select(r.bits) == lcr_parity_select(self.bits),
            lcr_stick_parity(r.bits) == lcr_stick_parity(self.bits),
    {
        let b = self.bits;
        let nb: u8 = b | 0x80;
        proof {
            assert(nb & 0x80 != 0 && nb & 0x03 == b & 0x03 && nb & 0x04 == b & 0x04
                && nb & 0x08 == b & 0x08 && nb & 0x10 == b & 0x10 && nb & 0x20 == b & 0x20)
                by (bit_vector)
                requires
                    nb == b | 0x80,
            ;
        }
        Lcr { bits: nb }
    }
}

/// Value of the read-only line-status register.
#[derive(Clone, Copy, Debug, PartialEq, Eq, Structural)]
pub struct Lsr {
    /// The raw register byte.
    pub bits: u8,
}

impl Lsr {
    /// True when a received byte is waiting in the receive buffer.
    pub fn is_data_ready(self) -> (r: bool)
        ensures
            r == lsr_data_ready(self.bits),
    {
        self.bits & 0x01 != 0
    }

    /// True when the transmit holding slot can accept a byte.
    pub fn is_transmitter_fifo_empty(self) -> (r: bool)
        ensures
            r == lsr_thr_empty(self.bits),
    {
        self.bits & 0x20 != 0
    }

    /// True when the holding slot and the shift register have both drained.
    pub fn is_transmitter_empty(self) -> (r: bool)
        ensures
            r == lsr_transmitter_empty(self.bits),
    {
        self.bits & 0x40 != 0
    }
}

/// Value of multiplexed register A: receive buffer on read, transmit holding
/// on write, or the divisor low byte while latch access is enabled.
#[derive(Clone, Copy, Debug, PartialEq, Eq, Structural)]
pub struct RbrThrDll {
    /// The raw register byte.
    pub bits: u8,
}

impl RbrThrDll {
    /// The received byte, when read with latch access disabled.
    pub fn receiver_data(self) -> (r: u8)
        ensures
            r == self.bits,
    {
        self.bits
    }

    /// Builds the value that enqueues `data` for transmission.
    pub fn set_transmitter_data(self, data: u8) -> (r: RbrThrDll)
        ensures
            r.bits == data,
    {
        RbrThrDll { bits: data }
    }

    /// The divisor low byte, when read with latch access enabled.
    pub fn divisor_latch_low_byte(self) -> (r: u8)
        ensures
            r == self.bits,
    {
        self.bits
    }

    /// Builds the value that stores `data` as the divisor low byte.
    pub fn set_divisor_latch_low_byte(self, data: u8) -> (r: RbrThrDll)
        ensures
            r.bits == data,
    {
        RbrThrDll { bits: data }
    }
}

impl Default for RbrThrDll {
    /// An all-zero register value.
    fn default() -> (r: Self)
        ensures
            r.bits == 0,
    {
        RbrThrDll { bits: 0 }
    }
}

/// Value of multiplexed register B: interrupt enable, or the divisor high
/// byte while latch access is enabled.
#[derive(Clone, Copy, Debug, PartialEq, Eq, Structural)]
pub struct IerDlh {
    /// The raw register byte.
    pub bits: u8,
}

impl IerDlh {
    /// The divisor high byte, when read with latch access enabled.
    pub fn divisor_latch_high_byte(self) -> (r: u8)
        ensures
            r == self.bits,
    {
        self.bits
    }

    /// Builds the value that stores `data` as the divisor high byte.
    pub fn set_divisor_latch_high_byte(self, data: u8) -> (r: IerDlh)
        ensures
            r.bits == data,
    {
        IerDlh { bits: data }
    }
}

/// The status byte that the `i`-th line-status poll observes, counting from
/// the current state: the scheduled observations in order, then the resting
/// value once the schedule is exhausted.
pub open spec fn lsr_at(polls: Seq<u8>, base: u8, i: int) -> u8 {
    if 0 <= i < polls.len() {
        polls[i]
    } else {
        base
    }
}

/// A consumed-front-first byte stream after `n` items have been taken.
pub open spec fn stream_after(polls: Seq<u8>, n: int) -> Seq<u8> {
    if n <= polls.len() {
        polls.skip(n)
    } else {
        Seq::empty()
    }
}

/// The byte the `i`-th receive-buffer read delivers: the pending bytes in
/// order, then zero once they are exhausted.
pub open spec fn rx_byte(rx: Seq<u8>, i: int) -> u8 {
    if 0 <= i < rx.len() {
        rx[i]
    } else {
        0
    }
}

/// One UART's register state, addressed at fixed offsets: the line-control
/// and line-status registers and the two multiplexed registers, together
/// with the byte streams they observe and produce. Line-status reads
/// consume `lsr_polls` first and observe `lsr_base` once it is exhausted;
/// data-path reads of register A consume `rx`; data-path writes of register
/// A append to `tx`.
pub struct RegisterBlock {
    /// Line-control register byte.
    pub lcr: u8,
    /// Resting line-status byte, observed once the schedule is exhausted.
    pub lsr_base: u8,
    /// Scheduled line-status observations, consumed front first.
    pub lsr_polls: Vec<u8>,
    /// Divisor low byte, behind multiplexed register A.
    pub dll: u8,
    /// Divisor high byte, behind multiplexed register B.
    pub dlh: u8,
    /// Interrupt-enable byte, behind multiplexed register B.
    pub ier: u8,
    /// Received bytes not yet consumed, front first.
    pub rx: Vec<u8>,
    /// Bytes written for transmission, in order.
    pub tx: Vec<u8>,
}

impl RegisterBlock {
    /// Builds a register block in the given state, with nothing transmitted yet.
    pub fn new(lcr: u8, lsr_base: u8, lsr_polls: Vec<u8>, dll: u8, dlh: u8, ier: u8, rx: Vec<u8>)
        -> (r: RegisterBlock)
        ensures
            r.lcr == lcr,
            r.lsr_base == lsr_base,
            r.lsr_polls@ == lsr_polls@,
            r.dll == dll,
            r.dlh == dlh,
            r.ier == ier,
            r.rx@ == rx@,
            r.tx@ == Seq::<u8>::empty(),
    {
        RegisterBlock { lcr, lsr_base, lsr_polls, dll, dlh, ier, rx, tx: Vec::new() }
    }

    /// Reads the line-control register.
    pub fn read_lcr(&self) -> (r: Lcr)
        ensures
            r.bits == self.lcr,
    {
        Lcr { bits: self.lcr }
    }

    /// Writes the line-control register.
    pub fn write_lcr(&mut self, v: Lcr)
        ensures
            final(self).lcr == v.bits,
            final(self).lsr_base == old(self).lsr_base,
            final(self).lsr_polls@ == old(self).lsr_polls@,
            final(self).dll == old(self).dll,
            final(self).dlh == old(self).dlh,
            final(self).ier == old(self).ier,
            final(self).rx@ == old(self).rx@,
            final(self).tx@ == old(self).tx@,
    {
        self.lcr = v.bits;
    }

    /// Reads the line-status register, consuming the next scheduled
    /// observation, or observing the resting value if none is scheduled.
    pub fn read_lsr(&mut self) -> (r: Lsr)
        ensures
            r.bits == lsr_at(old(self).lsr_polls@, old(self).lsr_base, 0),
            final(self).lsr_polls@ == stream_after(old(self).lsr_polls@, 1),
            final(self).lcr == old(self).lcr,
            final(self).lsr_base == old(self).lsr_base,
            final(self).dll == old(self).dll,
            final(self).dlh == old(self).dlh,
            final(self).ier == old(self).ier,
            final(self).rx@ == old(self).rx@,
            final(self).tx@ == old(self).tx@,
    {
        if self.lsr_polls.len() > 0 {
            let b = self.lsr_polls.remove(0);
            proof {
                assert(self.lsr_polls@ =~= stream_after(old(self).lsr_polls@, 1));
            }
            Lsr { bits: b }
        } else {
            proof {
                assert(self.lsr_polls@ =~= stream_after(old(self).lsr_polls@, 1));
            }
            Lsr { bits: self.lsr_base }
        }
    }

    /// Reads multiplexed register A. With latch access enabled it observes
    /// the divisor low byte and touches nothing; with it disabled it
    /// consumes the next received byte, or observes zero if none is pending.
    pub fn read_rbr_thr_dll(&mut self) -> (r: RbrThrDll)
        ensures
            lcr_divisor_latch(old(self).lcr) ==> r.bits == old(self).dll
                && final(self).rx@ == old(self).rx@,
            !lcr_divisor_latch(old(self).lcr) ==> r.bits == rx_byte(old(self).rx@, 0)
                && final(self).rx@ == (if old(self).rx@.len() > 0 {
                    old(self).rx@.skip(1)
                } else {
                    old(self).rx@
                }),
            final(self).lcr == old(self).lcr,
            final(self).lsr_base == old(self).lsr_base,
            final(self).lsr_polls@ == old(self).lsr_polls@,
            final(self).dll == old(self).dll,
            final(self).dlh == old(self).dlh,
            final(self).ier == old(self).ier,
            final(self).tx@ == old(self).tx@,
    {
        if self.lcr & 0x80 != 0 {
            RbrThrDll { bits: self.dll }
        } else if self.rx.len() > 0 {
            let b = self.rx.remove(0);
            proof {
                assert(self.rx@ =~= old(self).rx@.skip(1));
            }
            RbrThrDll { bits: b }
        } else {
            RbrThrDll { bits: 0 }
        }
    }

    /// Writes multiplexed register A. With latch access enabled it stores
    /// the divisor low byte; with it disabled it enqueues the byte for
    /// transmission.
    pub fn write_rbr_thr_dll(&mut self, v: RbrThrDll)
        ensures
            lcr_divisor_latch(old(self).lcr) ==> final(self).dll == v.bits
                && final(self).tx@ == old(self).tx@,
            !lcr_divisor_latch(old(self).lcr) ==> final(self).dll == old(self).dll
                && final(self).tx@ == old(self).tx@.push(v.bits),
            final(self).lcr == old(self).lcr,
            final(self).lsr_base == old(self).lsr_base,
            final(self).lsr_polls@ == old(self).lsr_polls@,
            final(self).dlh == old(self).dlh,
            final(self).ier == old(self).ier,
            final(self).rx@ == old(self).rx@,
    {
        if self.lcr & 0x80 != 0 {
            self.dll = v.bits;
        } else {
            self.tx.push(v.bits);
        }
    }

    /// Reads multiplexed register B: the divisor high byte with latch access
    /// enabled, the interrupt-enable byte with it disabled.
    pub fn read_ier_dlh(&self) -> (r: IerDlh)
        ensures
            r.bits == (if lcr_divisor_latch(self.lcr) {
                self.dlh
            } else {
                self.ier
            }),
    {
        if self.lcr & 0x80 != 0 {
            IerDlh { bits: self.dlh }
        } else {
            IerDlh { bits: self.ier }
        }
    }

    /// Writes multiplexed register B: the divisor high byte with latch access
    /// enabled, the interrupt-enable byte with it disabled.
    pub fn write_ier_dlh(&mut self, v: IerDlh)
        ensures
            lcr_divisor_latch(old(self).lcr) ==> final(self).dlh == v.bits
                && final(self).ier == old(self).ier,
            !lcr_divisor_latch(old(self).lcr) ==> final(self).ier == v.bits
                && final(self).dlh == old(self).dlh,
            final(self).lcr == old(self).lcr,
            final(self).lsr_base == old(self).lsr_base,
            final(self).lsr_polls@ == old(self).lsr_polls@,
            final(self).dll == old(self).dll,
            final(self).rx@ == old(self).rx@,
            final(self).tx@ == old(self).tx@,
    {
        if self.lcr & 0x80 != 0 {
            self.dlh = v.bits;
        } else {
            self.ier = v.bits;
        }
    }
}

} // verus!
