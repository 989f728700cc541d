use awproto::bits::{BitCursor, BitWriter};
use awproto::varnum::{get_number, get_size, write_varnum_full, write_varnum_wide, VarNumError};

fn roundtrip_wide(v: i64, k: usize) -> i64 {
    let mut w = BitWriter::new();
    write_varnum_wide(&mut w, v, k);
    let bytes = w.finish();
    let mut cur = BitCursor::new(&bytes);
    get_number::<8>(&mut cur).unwrap()
}

fn roundtrip_full(v: i64, max_bytes: usize) -> i64 {
    let mut w = BitWriter::new();
    write_varnum_full(&mut w, v, max_bytes);
    let bytes = w.finish();
    let mut cur = BitCursor::new(&bytes);
    match max_bytes {
        1 => get_number::<1>(&mut cur).unwrap(),
        2 => get_number::<2>(&mut cur).unwrap(),
        4 => get_number::<4>(&mut cur).unwrap(),
        _ => get_number::<8>(&mut cur).unwrap(),
    }
}

#[test]
fn varnum_roundtrip_every_width() {
    // Nibble width (run 0): values representable in 4 signed bits.
    for v in -8i64..8 {
        assert_eq!(roundtrip_wide(v, 0), v);
    }
    // 8-bit width.
    for v in [-128i64, -1, 0, 1, 127] {
        assert_eq!(roundtrip_wide(v, 1), v);
    }
    // 16-bit width.
    for v in [-32768i64, -300, 0, 299, 32767] {
        assert_eq!(roundtrip_wide(v, 2), v);
    }
    // 32-bit width.
    for v in [i32::MIN as i64, -70000, 0, 70000, i32::MAX as i64] {
        assert_eq!(roundtrip_wide(v, 4), v);
    }
    // 64-bit width.
    for v in [i64::MIN, -5_000_000_000, 0, 5_000_000_000, i64::MAX] {
        assert_eq!(roundtrip_wide(v, 8), v);
    }
}

#[test]
fn varnum_full_roundtrip_every_cap() {
    for v in [-128i64, -1, 0, 127] {
        assert_eq!(roundtrip_full(v, 1), v);
    }
    for v in [-32768i64, 0, 32767] {
        assert_eq!(roundtrip_full(v, 2), v);
    }
    for v in [i32::MIN as i64, -1, 0, i32::MAX as i64] {
        assert_eq!(roundtrip_full(v, 4), v);
    }
    for v in [i64::MIN, -1, 0, i64::MAX] {
        assert_eq!(roundtrip_full(v, 8), v);
    }
}

#[test]
fn narrow_and_wide_encodings_agree() {
    // The full-width form (selector 0) and the wide form whose run
    // selects the same width (selector 1, run = cap) decode alike.
    for v in [i32::MIN as i64, -4096, -1, 0, 1, 4096, i32::MAX as i64] {
        assert_eq!(roundtrip_full(v, 4), roundtrip_wide(v, 4));
    }
    for v in [i64::MIN, -1, 0, i64::MAX] {
        assert_eq!(roundtrip_full(v, 8), roundtrip_wide(v, 8));
    }
}

#[test]
fn nibble_is_sign_extended() {
    // 1011_1100: selector 1, empty run, terminator, value 1111 = -1.
    let bytes = [0xBCu8];
    let mut cur = BitCursor::new(&bytes);
    assert_eq!(get_number::<4>(&mut cur), Ok(-1));
    assert_eq!(cur.position(), 6);
}

#[test]
fn full_width_value_parses_after_clear_selector() {
    // 0 selector, then 32 bits holding 18, shifted one bit by the
    // selector.
    let bytes = [0x00u8, 0x00, 0x00, 0x09, 0x00];
    let mut cur = BitCursor::new(&bytes);
    assert_eq!(get_number::<4>(&mut cur), Ok(18));
    assert_eq!(cur.position(), 33);
}

#[test]
fn varnum_eof_on_empty_stream() {
    let bytes: [u8; 0] = [];
    let mut cur = BitCursor::new(&bytes);
    assert_eq!(get_number::<4>(&mut cur), Err(VarNumError::UnexpectedEof));
    assert_eq!(cur.position(), 0);
}

#[test]
fn varnum_eof_on_truncated_value() {
    // Selector 1, run 1, terminator, then only 4 of 8 value bits.
    let bytes = [0xC0u8];
    let mut cur = BitCursor::new(&bytes);
    assert_eq!(get_number::<4>(&mut cur), Err(VarNumError::UnexpectedEof));
    assert_eq!(cur.position(), 0);
}

#[test]
fn varnum_rejects_over_long_run() {
    // A run of six set bits under a 1-byte cap.
    let bytes = [0xFEu8];
    let mut cur = BitCursor::new(&bytes);
    assert_eq!(get_number::<1>(&mut cur), Err(VarNumError::WidthExceedsMax));
    assert_eq!(cur.position(), 0);
}

#[test]
fn varnum_rejects_undefined_width() {
    // A run of three set bits selects 24 bits: undefined.
    let bytes = [0xF0u8, 0x00, 0x00, 0x00];
    let mut cur = BitCursor::new(&bytes);
    assert_eq!(get_number::<4>(&mut cur), Err(VarNumError::UnsupportedWidth(24)));
    assert_eq!(cur.position(), 0);
}

#[test]
fn get_size_reads_the_indicator() {
    // Run of two ones, terminator: 16-bit width; indicator is 3 bits.
    let bytes = [0b1100_0000u8, 0, 0];
    let mut cur = BitCursor::new(&bytes);
    assert_eq!(get_size::<4>(&mut cur), Ok(16));
    assert_eq!(cur.position(), 3);
}

#[test]
fn cursor_reads_advance_monotonically() {
    let bytes = [0xA5u8, 0x0F];
    let mut cur = BitCursor::new(&bytes);
    assert_eq!(cur.position(), 0);
    assert_eq!(cur.read_bit(), Some(true));
    assert_eq!(cur.position(), 1);
    assert_eq!(cur.read_bit(), Some(false));
    assert_eq!(cur.position(), 2);
    assert_eq!(cur.read_bits(6), Some(0b100101));
    assert_eq!(cur.position(), 8);
    assert_eq!(cur.read_bits(8), Some(0x0F));
    assert_eq!(cur.position(), 16);
    // A failing read does not move the cursor.
    assert_eq!(cur.read_bit(), None);
    assert_eq!(cur.position(), 16);
    assert_eq!(cur.read_bits(4), None);
    assert_eq!(cur.position(), 16);
}

#[test]
fn peek_does_not_advance() {
    let bytes = [0b1110_0000u8];
    let cur = BitCursor::new(&bytes);
    assert_eq!(cur.peek_run_of_ones(8), 3);
    assert_eq!(cur.peek_run_of_ones(2), 2);
    assert_eq!(cur.position(), 0);
}

#[test]
fn skip_advances_by_the_given_bits() {
    let bytes = [0xFFu8, 0x00];
    let mut cur = BitCursor::new(&bytes);
    cur.skip(5);
    assert_eq!(cur.position(), 5);
    cur.skip(3);
    assert_eq!(cur.position(), 8);
    assert_eq!(cur.read_bit(), Some(false));
}

#[test]
fn reads_are_msb_first() {
    let bytes = [0b1000_0001u8, 0b0100_0000];
    let mut cur = BitCursor::new(&bytes);
    assert_eq!(cur.read_bits(16), Some(0x8140));
}

#[test]
fn writer_packs_msb_first() {
    let mut w = BitWriter::new();
    w.push_bits(0xAB, 8);
    assert_eq!(w.finish(), vec![0xABu8]);

    let mut w = BitWriter::new();
    w.push_bit(true);
    assert_eq!(w.finish(), vec![0x80u8]);

    let mut w = BitWriter::new();
    w.push_bit(false);
    w.push_bit(true);
    assert_eq!(w.finish(), vec![0x40u8]);

    let mut w = BitWriter::new();
    w.push_bits(0x5, 3);
    w.push_bits(0x1FF, 9);
    assert_eq!(w.finish(), vec![0b1011_1111u8, 0b1111_0000]);
}

#[test]
fn writer_reader_roundtrip_bits() {
    let mut w = BitWriter::new();
    w.push_bits(0x2A, 7);
    w.push_bits(0x1234, 16);
    let bytes = w.finish();
    let mut cur = BitCursor::new(&bytes);
    assert_eq!(cur.read_bits(7), Some(0x2A));
    assert_eq!(cur.read_bits(16), Some(0x1234));
}
