use uart16550::BlockingUart;
use uart16550::Config;
use uart16550::Lcr;
use uart16550::Parity;
use uart16550::ParityMode;
use uart16550::RegisterBlock;
use uart16550::StopBits;
use uart16550::WordLength;
use uart16550::blocking_flash;
use uart16550::blocking_read;
use uart16550::blocking_write;
use uart16550::divisor;
use uart16550::parity_mode;
use uart16550::read_ready;
use uart16550::set_divisor;
use uart16550::set_parity_mode;
use uart16550::set_stop_bits;
use uart16550::set_word_length;
use uart16550::stop_bits;
use uart16550::word_length;
use uart16550::write_ready;

fn quiet_block(lcr: u8) -> RegisterBlock {
    RegisterBlock::new(lcr, 0, Vec::new(), 0, 0, 0, Vec::new())
}

#[test]
fn divisor_round_trip_all_shapes() {
    let mut rb = quiet_block(0);
    for d in [0u16, 1, 0x00ff, 0xff00, 0x1234, 0xffff] {
        set_divisor(&mut rb, d);
        assert_eq!(divisor(&mut rb), d);
    }
}

#[test]
fn divisor_access_restores_line_control() {
    let lcr0 = 0x2b; // parity flags, stop bit and word length all set
    let mut rb = quiet_block(lcr0);
    set_divisor(&mut rb, 9600 / 300);
    assert_eq!(rb.lcr, lcr0);
    let _ = divisor(&mut rb);
    assert_eq!(rb.lcr, lcr0);
}

#[test]
fn divisor_access_leaves_data_path_alone() {
    let mut rb = RegisterBlock::new(0, 0, Vec::new(), 0, 0, 0x5a, vec![0xaa, 0xbb]);
    set_divisor(&mut rb, 0x0102);
    let _ = divisor(&mut rb);
    // the critical section never consumed a received byte, enqueued a
    // transmit byte, or touched interrupt enable
    assert_eq!(rb.rx, vec![0xaa, 0xbb]);
    assert_eq!(rb.tx, Vec::<u8>::new());
    assert_eq!(rb.ier, 0x5a);
    assert_eq!(rb.dll, 0x02);
    assert_eq!(rb.dlh, 0x01);
}

#[test]
fn parity_round_trip_all_modes() {
    let mut rb = quiet_block(0);
    for p in [
        ParityMode::Disabled,
        ParityMode::Odd,
        ParityMode::Even,
        ParityMode::High,
        ParityMode::Low,
    ] {
        set_parity_mode(&mut rb, p);
        assert_eq!(parity_mode(&rb), p);
    }
}

#[test]
fn parity_setting_preserves_other_fields() {
    let mut rb = quiet_block(0);
    set_word_length(&mut rb, WordLength::Bits6);
    set_stop_bits(&mut rb, StopBits::Bit2);
    set_parity_mode(&mut rb, ParityMode::Low);
    assert_eq!(word_length(&rb), WordLength::Bits6);
    assert_eq!(stop_bits(&rb), StopBits::Bit2);
    assert_eq!(parity_mode(&rb), ParityMode::Low);
}

#[test]
fn disabling_parity_clears_stick_parity() {
    // the stick flag must never be left set with parity disabled: disabling
    // after a forced-parity mode clears it rather than stranding it
    let mut rb = quiet_block(0);
    set_parity_mode(&mut rb, ParityMode::High);
    assert!(Lcr { bits: rb.lcr }.is_stick_parity_enabled());
    set_parity_mode(&mut rb, ParityMode::Disabled);
    assert!(!Lcr { bits: rb.lcr }.is_stick_parity_enabled());
    assert!(!Lcr { bits: rb.lcr }.is_parity_enabled());
    assert_eq!(parity_mode(&rb), ParityMode::Disabled);
}

#[test]
fn stop_bits_round_trip() {
    let mut rb = quiet_block(0);
    set_stop_bits(&mut rb, StopBits::Bit2);
    assert_eq!(stop_bits(&rb), StopBits::Bit2);
    set_stop_bits(&mut rb, StopBits::Bit1);
    assert_eq!(stop_bits(&rb), StopBits::Bit1);
}

#[test]
fn word_length_round_trip() {
    let mut rb = quiet_block(0);
    for wl in [WordLength::Bits5, WordLength::Bits6, WordLength::Bits7, WordLength::Bits8] {
        set_word_length(&mut rb, wl);
        assert_eq!(word_length(&rb), wl);
    }
}

#[test]
fn lcr_codec_preserves_unrelated_flags() {
    let lcr = Lcr { bits: 0 }
        .enable_parity()
        .enable_stick_parity()
        .set_parity(Parity::Even)
        .set_word_length(WordLength::Bits7)
        .set_stop_bits(StopBits::Bit2);
    assert!(lcr.is_parity_enabled());
    assert!(lcr.is_stick_parity_enabled());
    assert_eq!(lcr.parity(), Parity::Even);
    assert_eq!(lcr.word_length(), WordLength::Bits7);
    assert_eq!(lcr.stop_bits(), StopBits::Bit2);
    assert!(!lcr.is_divisor_latch_accessible());
    let latched = lcr.enable_divisor_latch_access();
    assert!(latched.is_divisor_latch_accessible());
    assert_eq!(latched.word_length(), WordLength::Bits7);
}

#[test]
fn read_fills_exactly_the_ready_slots() {
    // data-ready for exactly 3 of the polls, then not ready
    let polls = vec![0x01, 0x01, 0x01, 0x00];
    let mut rb = RegisterBlock::new(0, 0, polls, 0, 0, 0, vec![10, 20, 30]);
    let mut buf = vec![99u8; 5];
    let n = blocking_read(&mut rb, &mut buf);
    assert_eq!(n, 3);
    assert_eq!(buf, vec![10, 20, 30, 99, 99]);
    assert_eq!(rb.rx, Vec::<u8>::new());
    // three successful polls and the failing one were consumed
    assert_eq!(rb.lsr_polls, Vec::<u8>::new());
}

#[test]
fn read_returns_zero_when_nothing_ready() {
    let mut rb = RegisterBlock::new(0, 0, vec![0x00], 0, 0, 0, vec![10]);
    let mut buf = vec![7u8, 7u8];
    let n = blocking_read(&mut rb, &mut buf);
    assert_eq!(n, 0);
    assert_eq!(buf, vec![7u8, 7u8]);
    assert_eq!(rb.rx, vec![10]);
}

#[test]
fn read_stops_at_full_buffer_without_an_extra_poll() {
    let mut rb = RegisterBlock::new(0, 0, vec![0x01, 0x01, 0x01], 0, 0, 0, vec![1, 2, 3]);
    let mut buf = vec![0u8; 2];
    let n = blocking_read(&mut rb, &mut buf);
    assert_eq!(n, 2);
    assert_eq!(buf, vec![1, 2]);
    // only two polls were consumed: the buffer ran out first
    assert_eq!(rb.lsr_polls, vec![0x01]);
    assert_eq!(rb.rx, vec![3]);
}

#[test]
fn read_with_empty_buffer_polls_nothing() {
    let mut rb = RegisterBlock::new(0, 0, vec![0x01], 0, 0, 0, vec![10]);
    let mut buf: Vec<u8> = Vec::new();
    let n = blocking_read(&mut rb, &mut buf);
    assert_eq!(n, 0);
    assert_eq!(rb.lsr_polls, vec![0x01]);
    assert_eq!(rb.rx, vec![10]);
}

#[test]
fn write_sends_exactly_the_accepted_bytes() {
    // transmit-holding-empty for exactly 2 of the polls
    let polls = vec![0x20, 0x20, 0x00];
    let mut rb = RegisterBlock::new(0, 0, polls, 0, 0, 0, Vec::new());
    let buf = vec![5u8, 6, 7];
    let n = blocking_write(&mut rb, &buf);
    assert_eq!(n, 2);
    assert_eq!(rb.tx, vec![5, 6]);
    assert_eq!(rb.lsr_polls, Vec::<u8>::new());
}

#[test]
fn write_sends_everything_while_holding_stays_empty() {
    let mut rb = RegisterBlock::new(0, 0x20, Vec::new(), 0, 0, 0, Vec::new());
    let buf = vec![1u8, 2, 3, 4];
    let n = blocking_write(&mut rb, &buf);
    assert_eq!(n, 4);
    assert_eq!(rb.tx, vec![1, 2, 3, 4]);
}

#[test]
fn write_returns_zero_when_holding_full() {
    let mut rb = RegisterBlock::new(0, 0, Vec::new(), 0, 0, 0, Vec::new());
    let n = blocking_write(&mut rb, &vec![9u8]);
    assert_eq!(n, 0);
    assert_eq!(rb.tx, Vec::<u8>::new());
}

#[test]
fn flash_polls_until_transmitter_empty() {
    // transmit-empty false for the first 2 polls, true on the third: the
    // spin performs exactly 3 polls and leaves the rest of the schedule
    let polls = vec![0x00, 0x00, 0x40, 0x77];
    let mut rb = RegisterBlock::new(0, 0, polls, 0, 0, 0, Vec::new());
    blocking_flash(&mut rb);
    assert_eq!(rb.lsr_polls, vec![0x77]);
}

#[test]
fn flash_returns_at_once_when_already_drained() {
    let mut rb = RegisterBlock::new(0, 0, vec![0x40, 0x11], 0, 0, 0, Vec::new());
    blocking_flash(&mut rb);
    assert_eq!(rb.lsr_polls, vec![0x11]);
}

#[test]
fn flash_falls_back_to_resting_status() {
    let mut rb = RegisterBlock::new(0, 0x40, vec![0x00, 0x00], 0, 0, 0, Vec::new());
    blocking_flash(&mut rb);
    assert_eq!(rb.lsr_polls, Vec::<u8>::new());
}

#[test]
fn readiness_queries_consume_one_poll_each() {
    let mut rb = RegisterBlock::new(0, 0, vec![0x01, 0x20], 0, 0, 0, Vec::new());
    assert!(read_ready(&mut rb));
    assert!(write_ready(&mut rb));
    // the schedule is exhausted; the resting status reports neither
    assert!(!read_ready(&mut rb));
    assert!(!write_ready(&mut rb));
}

#[test]
fn default_config_reports_preexisting_divisor() {
    // divisor unset in the configuration: construction must leave the
    // latched value alone and introspection must report it
    let rb = RegisterBlock::new(0, 0, Vec::new(), 0x34, 0x12, 0, Vec::new());
    let mut uart = BlockingUart::new(rb, Config::new());
    let cfg = uart.config();
    assert_eq!(cfg.divisor, Some(0x1234));
    assert_eq!(cfg.parity_mode, ParityMode::Disabled);
    assert_eq!(cfg.stop_bits, StopBits::Bit1);
    assert_eq!(cfg.word_length, WordLength::Bits8);
}

#[test]
fn explicit_config_round_trips_through_construction() {
    let rb = quiet_block(0);
    let wanted = Config::new()
        .set_divisor(417)
        .set_parity_mode(ParityMode::Even)
        .set_stop_bits(StopBits::Bit2)
        .set_word_length(WordLength::Bits5);
    let mut uart = BlockingUart::new(rb, wanted);
    let got = uart.config();
    assert_eq!(got, wanted.set_divisor(417));
    assert_eq!(got.divisor, Some(417));
}

#[test]
fn config_builder_defaults_and_setters() {
    let c = Config::new();
    assert_eq!(c.divisor, None);
    assert_eq!(c.parity_mode, ParityMode::Disabled);
    assert_eq!(c.stop_bits, StopBits::Bit1);
    assert_eq!(c.word_length, WordLength::Bits8);
    let c2 = c.set_parity_mode(ParityMode::Odd);
    assert_eq!(c2.parity_mode, ParityMode::Odd);
    assert_eq!(c2.divisor, None);
    assert_eq!(c2.stop_bits, StopBits::Bit1);
    assert_eq!(c2.word_length, WordLength::Bits8);
}

#[test]
fn handle_moves_bytes_both_ways() {
    let polls = vec![0x01, 0x00, 0x20, 0x20, 0x40];
    let rb = RegisterBlock::new(0, 0, polls, 0, 0, 0, vec![0xab]);
    let mut uart = BlockingUart::new(rb, Config::new());
    let mut buf = vec![0u8; 4];
    assert_eq!(uart.read(&mut buf), 1);
    assert_eq!(buf[0], 0xab);
    assert_eq!(uart.write(&vec![0x11, 0x22]), 2);
    uart.flash();
    assert_eq!(uart.uart.tx, vec![0x11, 0x22]);
    assert_eq!(uart.uart.lsr_polls, Vec::<u8>::new());
}

#[test]
fn latched_register_a_reads_divisor_not_data() {
    // with latch access enabled the multiplexed registers do not carry
    // data-path meaning: a read observes the divisor byte and consumes
    // no received byte
    let mut rb = RegisterBlock::new(0x80, 0, Vec::new(), 0x42, 0, 0, vec![0x99]);
    let a = rb.read_rbr_thr_dll();
    assert_eq!(a.divisor_latch_low_byte(), 0x42);
    assert_eq!(rb.rx, vec![0x99]);
}
