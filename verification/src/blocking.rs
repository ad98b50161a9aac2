//! Polled byte transfer gated on the line-status flags, and the owning
//! handle that applies a configuration at construction and exposes the
//! transfer primitives.

use vstd::pervasive::VecAdditionalExecFns;
use vstd::prelude::*;

use crate::Config;
use crate::ParityMode;
use crate::lcr_parity_mode;
use crate::register::RbrThrDll;
use crate::register::RegisterBlock;
use crate::register::StopBits;
use crate::register::WordLength;
use crate::register::lcr_divisor_latch;
use crate::register::lcr_stop_bits;
use crate::register::lcr_word_length;
use crate::register::lsr_at;
use crate::register::lsr_data_ready;
use crate::register::lsr_thr_empty;
use crate::register::lsr_transmitter_empty;
use crate::register::rx_byte;
use crate::register::stream_after;
use crate::spec_divisor;

verus! {

/// How consuming the front of a stream composes: one more item taken from
/// `stream_after(s, k)` is `stream_after(s, k + 1)`, and the front of
/// `stream_after(s, k)` is `s[k]` while `k` is in range.
proof fn lemma_stream_after_step(s: Seq<u8>, k: int)
    requires
        0 <= k,
    ensures
        stream_after(stream_after(s, k), 1) == stream_after(s, k + 1),
        stream_after(s, k).len() == (if k <= s.len() {
            s.len() - k
        } else {
            0
        }),
        k < s.len() ==> stream_after(s, k)[0] == s[k],
{
    assert(stream_after(stream_after(s, k), 1) =~= stream_after(s, k + 1));
}

/// Number of status polls a flush performs against this schedule: one for
/// each leading observation without transmit-empty, then the one that
/// observes it (the resting status, if the schedule runs out first).
pub open spec fn flush_polls(polls: Seq<u8>) -> nat
    decreases polls.len(),
{
    if polls.len() == 0 {
        1
    } else if lsr_transmitter_empty(polls[0]) {
        1
    } else {
        1 + flush_polls(polls.skip(1))
    }
}

/// A flush against a schedule that somewhere observes transmit-empty stops
/// within the schedule; against any schedule it stops after at most one
/// poll beyond it.
proof fn lemma_flush_polls_bound(polls: Seq<u8>)
    ensures
        1 <= flush_polls(polls) <= polls.len() + 1,
        (exists|i: int| 0 <= i < polls.len() && lsr_transmitter_empty(polls[i]))
            ==> flush_polls(polls) <= polls.len(),
    decreases polls.len(),
{
    if polls.len() == 0 {
    } else if lsr_transmitter_empty(polls[0]) {
    } else {
        lemma_flush_polls_bound(polls.skip(1));
        if exists|i: int| 0 <= i < polls.len() && lsr_transmitter_empty(polls[i]) {
            let iw = choose|i: int| 0 <= i < polls.len() && lsr_transmitter_empty(polls[i]);
            assert(polls.skip(1)[iw - 1] == polls[iw]);
            assert(exists|i: int|
                0 <= i < polls.skip(1).len() && lsr_transmitter_empty(polls.skip(1)[i]));
        }
    }
}

/// Relies on core::hint::spin_loop: a scheduling hint with no observable effect.
#[verifier::external_body]
fn spin_hint() {
    core::hint::spin_loop();
}

/// Best-effort burst read. For each destination slot in order it polls line
/// status once; while data-ready is observed it consumes one received byte
/// into the slot, and it stops at the first poll that reports otherwise,
/// leaving the remaining slots untouched. Never waits; returns the count of
/// slots filled.
pub fn blocking_read(uart: &mut RegisterBlock, buf: &mut Vec<u8>) -> (r: usize)
    requires
        !lcr_divisor_latch(old(uart).lcr),
    ensures
        r <= old(buf)@.len(),
        forall|i: int|
            0 <= i < r ==> lsr_data_ready(
                lsr_at(old(uart).lsr_polls@, old(uart).lsr_base, i),
            ),
        r < old(buf)@.len() ==> !lsr_data_ready(
            lsr_at(old(uart).lsr_polls@, old(uart).lsr_base, r as int),
        ),
        final(buf)@.len() == old(buf)@.len(),
        forall|i: int| 0 <= i < r ==> final(buf)@[i] == rx_byte(old(uart).rx@, i),
        forall|i: int| r <= i < final(buf)@.len() ==> final(buf)@[i] == old(buf)@[i],
        final(uart).rx@ == stream_after(old(uart).rx@, r as int),
        final(uart).lsr_polls@ == stream_after(
            old(uart).lsr_polls@,
            if r < old(buf)@.len() {
                r + 1
            } else {
                r as int
            },
        ),
        final(uart).lcr == old(uart).lcr,
        final(uart).lsr_base == old(uart).lsr_base,
        final(uart).dll == old(uart).dll,
        final(uart).dlh == old(uart).dlh,
        final(uart).ier == old(uart).ier,
        final(uart).tx@ == old(uart).tx@,
{
    let n = buf.len();
    let mut count: usize = 0;
    let mut blocked = false;
    while count < n && !blocked
        invariant
            count <= n,
            n == old(buf)@.len(),
            buf@.len() == n,
            !lcr_divisor_latch(uart.lcr),
            uart.lcr == old(uart).lcr,
            uart.lsr_base == old(uart).lsr_base,
            uart.dll == old(uart).dll,
            uart.dlh == old(uart).dlh,
            uart.ier == old(uart).ier,
            uart.tx@ == old(uart).tx@,
            uart.rx@ == stream_after(old(uart).rx@, count as int),
            uart.lsr_polls@ == stream_after(
                old(uart).lsr_polls@,
                count + (if blocked {
                    1int
                } else {
                    0int
                }),
            ),
            forall|i: int|
                0 <= i < count ==> lsr_data_ready(
                    lsr_at(old(uart).lsr_polls@, old(uart).lsr_base, i),
                ),
            blocked ==> count < n && !lsr_data_ready(
                lsr_at(old(uart).lsr_polls@, old(uart).lsr_base, count as int),
            ),
            forall|i: int| 0 <= i < count ==> buf@[i] == rx_byte(old(uart).rx@, i),
            forall|i: int| count <= i < n ==> buf@[i] == old(buf)@[i],
        decreases (n - count) + (if blocked {
            0int
        } else {
            1int
        }),
    {
        proof {
            lemma_stream_after_step(old(uart).lsr_polls@, count as int);
            lemma_stream_after_step(old(uart).rx@, count as int);
        }
        let lsr = uart.read_lsr();
        if lsr.is_data_ready() {
            let b = uart.read_rbr_thr_dll().receiver_data();
            buf.set(count, b);
            count = count + 1;
        } else {
            blocked = true;
        }
    }
    count
}

/// Best-effort burst write. For each source byte in order it polls line
/// status once; while transmit-holding-empty is observed it enqueues the
/// byte for transmission, and it stops at the first poll that reports
/// otherwise. Never waits; returns the count of bytes enqueued.
pub fn blocking_write(uart: &mut RegisterBlock, buf: &Vec<u8>) -> (r: usize)
    requires
        !lcr_divisor_latch(old(uart).lcr),
    ensures
        r <= buf@.len(),
        forall|i: int|
            0 <= i < r ==> lsr_thr_empty(
                lsr_at(old(uart).lsr_polls@, old(uart).lsr_base, i),
            ),
        r < buf@.len() ==> !lsr_thr_empty(
            lsr_at(old(uart).lsr_polls@, old(uart).lsr_base, r as int),
        ),
        final(uart).tx@ == old(uart).tx@ + buf@.take(r as int),
        final(uart).lsr_polls@ == stream_after(
            old(uart).lsr_polls@,
            if r < buf@.len() {
                r + 1
            } else {
                r as int
            },
        ),
        final(uart).lcr == old(uart).lcr,
        final(uart).lsr_base == old(uart).lsr_base,
        final(uart).dll == old(uart).dll,
        final(uart).dlh == old(uart).dlh,
        final(uart).ier == old(uart).ier,
        final(uart).rx@ == old(uart).rx@,
{
    let n = buf.len();
    let mut count: usize = 0;
    let mut blocked = false;
    while count < n && !blocked
        invariant
            count <= n,
            n == buf@.len(),
            !lcr_divisor_latch(uart.lcr),
            uart.lcr == old(uart).lcr,
            uart.lsr_base == old(uart).lsr_base,
            uart.dll == old(uart).dll,
            uart.dlh == old(uart).dlh,
            uart.ier == old(uart).ier,
            uart.rx@ == old(uart).rx@,
            uart.tx@ == old(uart).tx@ + buf@.take(count as int),
            uart.lsr_polls@ == stream_after(
                old(uart).lsr_polls@,
                count + (if blocked {
                    1int
                } else {
                    0int
                }),
            ),
            forall|i: int|
                0 <= i < count ==> lsr_thr_empty(
                    lsr_at(old(uart).lsr_polls@, old(uart).lsr_base, i),
                ),
            blocked ==> count < n && !lsr_thr_empty(
                lsr_at(old(uart).lsr_polls@, old(uart).lsr_base, count as int),
            ),
        decreases (n - count) + (if blocked {
            0int
        } else {
            1int
        }),
    {
        proof {
            lemma_stream_after_step(old(uart).lsr_polls@, count as int);
        }
        let lsr = uart.read_lsr();
        if lsr.is_transmitter_fifo_empty() {
            let thr = RbrThrDll::default().set_transmitter_data(buf[count]);
            uart.write_rbr_thr_dll(thr);
            proof {
                assert(uart.tx@ =~= old(uart).tx@ + buf@.take(count + 1));
            }
            count = count + 1;
        } else {
            blocked = true;
        }
    }
    count
}

/// Spins until a line-status poll observes transmit-empty, yielding a spin
/// hint each unsuccessful iteration: every byte written before the call has
/// fully left the shift register when it returns. There is no timeout, so
/// the caller must know that transmit-empty is eventually observed — a
/// permanently stalled transmitter would hang the spin forever.
pub fn blocking_flash(uart: &mut RegisterBlock)
    requires
        lsr_transmitter_empty(old(uart).lsr_base) || exists|i: int|
            0 <= i < old(uart).lsr_polls@.len() && lsr_transmitter_empty(old(uart).lsr_polls@[i]),
    ensures
        final(uart).lsr_polls@ == stream_after(
            old(uart).lsr_polls@,
            flush_polls(old(uart).lsr_polls@) as int,
        ),
        final(uart).lcr == old(uart).lcr,
        final(uart).lsr_base == old(uart).lsr_base,
        final(uart).dll == old(uart).dll,
        final(uart).dlh == old(uart).dlh,
        final(uart).ier == old(uart).ier,
        final(uart).rx@ == old(uart).rx@,
        final(uart).tx@ == old(uart).tx@,
{
    proof {
        lemma_flush_polls_bound(old(uart).lsr_polls@);
    }
    let ghost p0 = uart.lsr_polls@;
    let mut done = false;
    let ghost mut j: int = 0;
    while !done
        invariant
            uart.lcr == old(uart).lcr,
            uart.lsr_base == old(uart).lsr_base,
            uart.dll == old(uart).dll,
            uart.dlh == old(uart).dlh,
            uart.ier == old(uart).ier,
            uart.rx@ == old(uart).rx@,
            uart.tx@ == old(uart).tx@,
            p0 == old(uart).lsr_polls@,
            0 <= j,
            uart.lsr_polls@ == stream_after(p0, j),
            lsr_transmitter_empty(old(uart).lsr_base) || flush_polls(p0) <= p0.len(),
            !done ==> j + flush_polls(uart.lsr_polls@) == flush_polls(p0),
            done ==> j == flush_polls(p0),
        decreases uart.lsr_polls@.len() + (if done {
            0int
        } else {
            1int
        }),
    {
        proof {
            lemma_stream_after_step(p0, j);
            lemma_flush_polls_bound(uart.lsr_polls@);
        }
        let lsr = uart.read_lsr();
        proof {
            j = j + 1;
        }
        if lsr.is_transmitter_empty() {
            done = true;
        } else {
            spin_hint();
        }
    }
}

/// An owning handle for one UART: it holds the register block exclusively,
/// applies an initial configuration at construction, and exposes the polled
/// transfer primitives and configuration introspection.
pub struct BlockingUart {
    /// The register block this handle exclusively owns.
    pub uart: RegisterBlock,
}

impl BlockingUart {
    /// The handle's well-formedness: the divisor-latch-access window is
    /// closed, so the multiplexed registers carry their data-path meaning.
    /// Construction establishes it and every operation preserves it.
    pub open spec fn wf(&self) -> bool {
        !lcr_divisor_latch(self.uart.lcr)
    }

    /// Takes exclusive ownership of the register block and applies the
    /// configuration, divisor first (the one setting that opens the
    /// multiplexed-register critical section), then parity, stop bits and
    /// word length. The divisor is applied only when the caller supplied
    /// one; the latched divisor is left as it was otherwise.
    pub fn new(uart: RegisterBlock, config: Config) -> (r: BlockingUart)
        requires
            !lcr_divisor_latch(uart.lcr),
        ensures
            r.wf(),
            lcr_word_length(r.uart.lcr) == config.word_length,
            lcr_stop_bits(r.uart.lcr) == config.stop_bits,
            lcr_parity_mode(r.uart.lcr) == config.parity_mode,
            config.divisor matches Some(d) ==> spec_divisor(r.uart.dll, r.uart.dlh) == d,
            config.divisor is None ==> r.uart.dll == uart.dll && r.uart.dlh == uart.dlh,
            r.uart.lsr_base == uart.lsr_base,
            r.uart.lsr_polls@ == uart.lsr_polls@,
            r.uart.ier == uart.ier,
            r.uart.rx@ == uart.rx@,
            r.uart.tx@ == uart.tx@,
    {
        let mut uart = uart;
        if let Some(divisor) = config.divisor {
            crate::set_divisor(&mut uart, divisor);
        }
        crate::set_parity_mode(&mut uart, config.parity_mode);
        crate::set_stop_bits(&mut uart, config.stop_bits);
        crate::set_word_length(&mut uart, config.word_length);
        BlockingUart { uart }
    }

    /// Reconstructs the current configuration from the registers. The
    /// divisor is always reported, whether or not construction set one:
    /// the hardware always has some value latched.
    pub fn config(&mut self) -> (r: Config)
        ensures
            r.divisor == Some(spec_divisor(old(self).uart.dll, old(self).uart.dlh)),
            r.parity_mode == lcr_parity_mode(old(self).uart.lcr),
            r.stop_bits == lcr_stop_bits(old(self).uart.lcr),
            r.word_length == lcr_word_length(old(self).uart.lcr),
            final(self).uart.lcr == old(self).uart.lcr,
            final(self).uart.lsr_base == old(self).uart.lsr_base,
            final(self).uart.lsr_polls@ == old(self).uart.lsr_polls@,
            final(self).uart.dll == old(self).uart.dll,
            final(self).uart.dlh == old(self).uart.dlh,
            final(self).uart.ier == old(self).uart.ier,
            final(self).uart.rx@ == old(self).uart.rx@,
            final(self).uart.tx@ == old(self).uart.tx@,
    {
        let divisor = Some(crate::divisor(&mut self.uart));
        let parity_mode = crate::parity_mode(&self.uart);
        let stop_bits = crate::stop_bits(&self.uart);
        let word_length = crate::word_length(&self.uart);
        Config { divisor, parity_mode, stop_bits, word_length }
    }

    /// Reads into the buffer as long as data-ready is observed; see
    /// `blocking_read`. Returns the number of slots filled.
    pub fn read(&mut self, buf: &mut Vec<u8>) -> (r: usize)
        requires
            old(self).wf(),
        ensures
            final(self).wf(),
            r <= old(buf)@.len(),
            forall|i: int|
                0 <= i < r ==> lsr_data_ready(
                    lsr_at(old(self).uart.lsr_polls@, old(self).uart.lsr_base, i),
                ),
            r < old(buf)@.len() ==> !lsr_data_ready(
                lsr_at(old(self).uart.lsr_polls@, old(self).uart.lsr_base, r as int),
            ),
            final(buf)@.len() == old(buf)@.len(),
            forall|i: int| 0 <= i < r ==> final(buf)@[i] == rx_byte(old(self).uart.rx@, i),
            forall|i: int| r <= i < final(buf)@.len() ==> final(buf)@[i] == old(buf)@[i],
            final(self).uart.rx@ == stream_after(old(self).uart.rx@, r as int),
            final(self).uart.lsr_polls@ == stream_after(
                old(self).uart.lsr_polls@,
                if r < old(buf)@.len() {
                    r + 1
                } else {
                    r as int
                },
            ),
            final(self).uart.lcr == old(self).uart.lcr,
            final(self).uart.lsr_base == old(self).uart.lsr_base,
            final(self).uart.dll == old(self).uart.dll,
            final(self).uart.dlh == old(self).uart.dlh,
            final(self).uart.ier == old(self).uart.ier,
            final(self).uart.tx@ == old(self).uart.tx@,
    {
        blocking_read(&mut self.uart, buf)
    }

    /// Writes from the buffer as long as transmit-holding-empty is
    /// observed; see `blocking_write`. Returns the number of bytes enqueued.
    pub fn write(&mut self, buf: &Vec<u8>) -> (r: usize)
        requires
            old(self).wf(),
        ensures
            final(self).wf(),
            r <= buf@.len(),
            forall|i: int|
                0 <= i < r ==> lsr_thr_empty(
                    lsr_at(old(self).uart.lsr_polls@, old(self).uart.lsr_base, i),
                ),
            r < buf@.len() ==> !lsr_thr_empty(
                lsr_at(old(self).uart.lsr_polls@, old(self).uart.lsr_base, r as int),
            ),
            final(self).uart.tx@ == old(self).uart.tx@ + buf@.take(r as int),
            final(self).uart.lsr_polls@ == stream_after(
                old(self).uart.lsr_polls@,
                if r < buf@.len() {
                    r + 1
                } else {
                    r as int
                },
            ),
            final(self).uart.lcr == old(self).uart.lcr,
            final(self).uart.lsr_base == old(self).uart.lsr_base,
            final(self).uart.dll == old(self).uart.dll,
            final(self).uart.dlh == old(self).uart.dlh,
            final(self).uart.ier == old(self).uart.ier,
            final(self).uart.rx@ == old(self).uart.rx@,
    {
        blocking_write(&mut self.uart, buf)
    }

    /// Spins until transmit-empty is observed; see `blocking_flash`.
    pub fn flash(&mut self)
        requires
            lsr_transmitter_empty(old(self).uart.lsr_base) || exists|i: int|
                0 <= i < old(self).uart.lsr_polls@.len() && lsr_transmitter_empty(
                    old(self).uart.lsr_polls@[i],
                ),
        ensures
            final(self).uart.lsr_polls@ == stream_after(
                old(self).uart.lsr_polls@,
                flush_polls(old(self).uart.lsr_polls@) as int,
            ),
            final(self).uart.lcr == old(self).uart.lcr,
            final(self).uart.lsr_base == old(self).uart.lsr_base,
            final(self).uart.dll == old(self).uart.dll,
            final(self).uart.dlh == old(self).uart.dlh,
            final(self).uart.ier == old(self).uart.ier,
            final(self).uart.rx@ == old(self).uart.rx@,
            final(self).uart.tx@ == old(self).uart.tx@,
    {
        blocking_flash(&mut self.uart)
    }
}

} // verus!
