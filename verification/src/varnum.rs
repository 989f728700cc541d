//! The variable-width signed integer encoding.
//!
//! A value starts with one selector bit.  Selector 0 is followed by the
//! value in exactly `MAX_BYTES * 8` bits.  Selector 1 is followed by a
//! unary run of `k` set bits and a clear terminator; the run selects
//! the value width: 4 bits for `k = 0`, otherwise `8 * k` bits, of
//! which only 8, 16, 32 and 64 are defined.  The value bits follow
//! immediately, MSB first, and are sign-extended to 64 bits.

use vstd::prelude::*;
use vstd::arithmetic::power2::{pow2, lemma2_to64, lemma2_to64_rest};
use vstd::arithmetic::div_mod::{lemma_small_mod, lemma_mod_add_multiples_vanish};
use crate::bits::{
    BitCursor, BitWriter, be_value, be_bits, sign_val, sign_bits, fits_signed, ones_run,
    lemma_sign_val_by_value, lemma_sign_bits_val, lemma_ones_run_is, lemma_ones_run_props,
    lemma_be_value_bound, WRITER_MAX_BYTES,
};

verus! {

/// Decode fault of the variable-width integer codec.
#[derive(Debug, Clone, Copy, PartialEq, Eq, Structural)]
pub enum VarNumError {
    /// The stream ended before the selector, the width indicator or
    /// the value was complete.
    UnexpectedEof,
    /// The unary width run was longer than the codec's byte cap.
    WidthExceedsMax,
    /// The width indicator selected a width outside {4, 8, 16, 32, 64};
    /// carries that width, in bits.
    UnsupportedWidth(u32),
}

/// Outcome of decoding one variable-width integer at a bit position
/// (specification level).
pub enum VarNumOutcome {
    /// The decoded value and the bit position right after it.
    Value { v: i64, next: int },
    /// The stream ended too early.
    Eof,
    /// The unary run exceeded the byte cap.
    TooWide,
    /// An undefined width was selected; `bits` is that width.
    BadWidth { bits: int },
}

/// Bit width selected by a unary run of `k` set bits.
pub open spec fn width_of_run(k: int) -> int {
    if k == 0 {
        4
    } else {
        8 * k
    }
}

/// Whether a run of `k` set bits selects a defined width.
pub open spec fn run_supported(k: int) -> bool {
    k == 0 || k == 1 || k == 2 || k == 4 || k == 8
}

/// Reading the value part: `w` bits at `start`, as a signed integer.
pub open spec fn spec_varnum_value(bits: Seq<bool>, start: int, w: int) -> VarNumOutcome
    recommends
        0 <= start,
        1 <= w <= 64,
{
    if start + w > bits.len() {
        VarNumOutcome::Eof
    } else {
        VarNumOutcome::Value {
            v: sign_val(bits.subrange(start, start + w)) as i64,
            next: start + w,
        }
    }
}

/// Decoding one variable-width integer at bit `pos` of `bits`, with
/// byte cap `max_bytes`.
pub open spec fn spec_varnum(bits: Seq<bool>, pos: int, max_bytes: int) -> VarNumOutcome
    recommends
        0 <= pos <= bits.len(),
        max_bytes == 1 || max_bytes == 2 || max_bytes == 4 || max_bytes == 8,
{
    if pos + 1 > bits.len() {
        VarNumOutcome::Eof
    } else if !bits[pos] {
        spec_varnum_value(bits, pos + 1, 8 * max_bytes)
    } else {
        let k = ones_run(bits, pos + 1);
        if k > max_bytes {
            VarNumOutcome::TooWide
        } else if pos + 1 + k >= bits.len() {
            VarNumOutcome::Eof
        } else if !run_supported(k) {
            VarNumOutcome::BadWidth { bits: 8 * k }
        } else {
            spec_varnum_value(bits, pos + 2 + k, width_of_run(k))
        }
    }
}

/// A decoded value always lies strictly ahead of where it started and
/// within the stream: every successful read advances the cursor.
pub proof fn lemma_varnum_advances(bits: Seq<bool>, pos: int, max_bytes: int)
    requires
        0 <= pos <= bits.len(),
        max_bytes == 1 || max_bytes == 2 || max_bytes == 4 || max_bytes == 8,
        spec_varnum(bits, pos, max_bytes) matches VarNumOutcome::Value { .. },
    ensures
        (spec_varnum(bits, pos, max_bytes) matches VarNumOutcome::Value { next, .. }
            && pos < next <= bits.len()),
{
    if pos + 1 <= bits.len() && bits[pos] {
        lemma_ones_run_props(bits, pos + 1);
    }
}

/// Read the width indicator: the unary run of set bits and its clear
/// terminator, giving the selected value width in bits.  The run is
/// measured before anything is consumed; on a fault the cursor does
/// not move.
pub fn get_size<const MAX_BYTES: usize>(cur: &mut BitCursor) -> (r: Result<usize, VarNumError>)
    requires
        old(cur).wf(),
        1 <= MAX_BYTES <= 8,
    ensures
        final(cur).wf(),
        final(cur).bits() == old(cur).bits(),
        ({
            let k = ones_run(old(cur).bits(), old(cur).pos());
            &&& (k > MAX_BYTES ==> r == Err::<usize, VarNumError>(VarNumError::WidthExceedsMax)
                && final(cur).pos() == old(cur).pos())
            &&& (k <= MAX_BYTES && old(cur).pos() + k >= old(cur).bits().len() ==> r == Err::<
                usize,
                VarNumError,
            >(VarNumError::UnexpectedEof) && final(cur).pos() == old(cur).pos())
            &&& (k <= MAX_BYTES && old(cur).pos() + k < old(cur).bits().len() ==> r == Ok::<
                usize,
                VarNumError,
            >(width_of_run(k) as usize) && final(cur).pos() == old(cur).pos() + k + 1)
        }),
{
    proof {
        cur.lemma_wf_bounds();
        lemma_ones_run_props(old(cur).bits(), old(cur).pos());
    }
    let k = cur.peek_run_of_ones(MAX_BYTES + 1);
    if k > MAX_BYTES {
        return Err(VarNumError::WidthExceedsMax);
    }
    if cur.remaining() < k + 1 {
        return Err(VarNumError::UnexpectedEof);
    }
    cur.skip(k + 1);
    Ok(if k == 0 {
        4
    } else {
        8 * k
    })
}

fn to_signed(u: u64, w: usize) -> (v: i64)
    requires
        w == 4 || w == 8 || w == 16 || w == 32 || w == 64,
        u < pow2(w as nat),
    ensures
        v == if u >= pow2((w - 1) as nat) {
            u - pow2(w as nat)
        } else {
            u as int
        },
{
    proof {
        lemma2_to64();
        lemma2_to64_rest();
    }
    if w == 64 {
        if u >= 0x8000_0000_0000_0000u64 {
            let d = u - 0x8000_0000_0000_0000u64;
            (d as i64) + i64::MIN
        } else {
            u as i64
        }
    } else {
        let (half, full): (u64, i64) = match w {
            4 => (0x8, 0x10),
            8 => (0x80, 0x100),
            16 => (0x8000, 0x1_0000),
            _ => (0x8000_0000, 0x1_0000_0000),
        };
        if u >= half {
            (u as i64) - full
        } else {
            u as i64
        }
    }
}

/// Read one variable-width signed integer.  The result and the final
/// cursor position follow `spec_varnum` exactly; on a fault the cursor
/// does not move.
pub fn get_number<const MAX_BYTES: usize>(cur: &mut BitCursor) -> (r: Result<i64, VarNumError>)
    requires
        old(cur).wf(),
        MAX_BYTES == 1 || MAX_BYTES == 2 || MAX_BYTES == 4 || MAX_BYTES == 8,
    ensures
        final(cur).wf(),
        final(cur).bits() == old(cur).bits(),
        (match spec_varnum(old(cur).bits(), old(cur).pos(), MAX_BYTES as int) {
            VarNumOutcome::Value { v, next } => r == Ok::<i64, VarNumError>(v) && final(cur).pos()
                == next,
            VarNumOutcome::Eof => r == Err::<i64, VarNumError>(VarNumError::UnexpectedEof)
                && final(cur).pos() == old(cur).pos(),
            VarNumOutcome::TooWide => r == Err::<i64, VarNumError>(VarNumError::WidthExceedsMax)
                && final(cur).pos() == old(cur).pos(),
            VarNumOutcome::BadWidth { bits } => r == Err::<i64, VarNumError>(
                VarNumError::UnsupportedWidth(bits as u32),
            ) && final(cur).pos() == old(cur).pos(),
        }),
{
    let ghost bits0 = old(cur).bits();
    let ghost pos0 = old(cur).pos();
    proof {
        cur.lemma_wf_bounds();
    }
    let saved = *cur;
    let sel = match cur.read_bit() {
        Some(b) => b,
        None => {
            return Err(VarNumError::UnexpectedEof);
        },
    };
    let ghost kk = ones_run(bits0, pos0 + 1);
    let w: usize;
    if sel {
        match get_size::<MAX_BYTES>(cur) {
            Ok(width) => {
                w = width;
            },
            Err(e) => {
                *cur = saved;
                return Err(e);
            },
        }
        proof {
            assert(0 <= kk <= MAX_BYTES) by {
                lemma_ones_run_props(bits0, pos0 + 1);
            }
            assert(w == width_of_run(kk));
            assert((w == 4 || w == 8 || w == 16 || w == 32 || w == 64) <==> run_supported(kk));
        }
        if !(w == 4 || w == 8 || w == 16 || w == 32 || w == 64) {
            let bad = w;
            *cur = saved;
            return Err(VarNumError::UnsupportedWidth(bad as u32));
        }
    } else {
        w = 8 * MAX_BYTES;
    }
    let ghost vstart = cur.pos();
    let u = match cur.read_bits(w) {
        Some(u) => u,
        None => {
            *cur = saved;
            return Err(VarNumError::UnexpectedEof);
        },
    };
    proof {
        let sub = bits0.subrange(vstart, vstart + w);
        assert(u == be_value(sub));
        lemma_be_value_bound(sub);
        lemma_sign_val_by_value(sub);
        lemma2_to64();
        lemma2_to64_rest();
    }
    let v = to_signed(u, w);
    Ok(v)
}

/// The full-width encoding: selector 0, then the value in
/// `8 * max_bytes` bits.
pub open spec fn spec_varnum_encode_full(v: i64, max_bytes: int) -> Seq<bool>
    recommends
        max_bytes == 1 || max_bytes == 2 || max_bytes == 4 || max_bytes == 8,
        fits_signed(v as int, (8 * max_bytes) as nat),
{
    seq![false] + sign_bits(v as int, (8 * max_bytes) as nat)
}

/// The wide encoding: selector 1, a unary run of `k` set bits, a clear
/// terminator, then the value in `width_of_run(k)` bits.
pub open spec fn spec_varnum_encode_wide(v: i64, k: int) -> Seq<bool>
    recommends
        run_supported(k),
        fits_signed(v as int, width_of_run(k) as nat),
{
    seq![true] + Seq::new(k as nat, |i: int| true) + seq![false] + sign_bits(
        v as int,
        width_of_run(k) as nat,
    )
}

/// Length in bits of the wide encoding with run length `k`.
pub open spec fn wide_len(k: int) -> int {
    2 + k + width_of_run(k)
}

/// Round trip of the wide encoding: wherever a stream carries the wide
/// encoding of a representable value, decoding at that position under
/// any byte cap admitting the run yields that value back and stops
/// right after it.
pub proof fn lemma_varnum_wide_roundtrip(
    stream: Seq<bool>,
    pos: int,
    v: i64,
    k: int,
    max_bytes: int,
)
    requires
        run_supported(k),
        max_bytes == 1 || max_bytes == 2 || max_bytes == 4 || max_bytes == 8,
        k <= max_bytes,
        fits_signed(v as int, width_of_run(k) as nat),
        0 <= pos,
        pos + wide_len(k) <= stream.len(),
        stream.subrange(pos, pos + wide_len(k)) == spec_varnum_encode_wide(v, k),
    ensures
        spec_varnum(stream, pos, max_bytes) == (VarNumOutcome::Value {
            v,
            next: pos + wide_len(k),
        }),
{
    let w = width_of_run(k);
    let enc = spec_varnum_encode_wide(v, k);
    lemma_sign_bits_val(v as int, w as nat);
    assert(enc.len() == wide_len(k));
    assert forall|j: int| 0 <= j < wide_len(k) implies stream[pos + j] == enc[j] by {
        assert(stream.subrange(pos, pos + wide_len(k))[j] == stream[pos + j]);
    }
    assert(stream[pos] == enc[0]);
    assert(enc[0]);
    assert forall|i: int| pos + 1 <= i < pos + 1 + k implies stream[i] by {
        assert(enc[i - pos] == true);
    }
    assert(enc[1 + k] == false);
    assert(!stream[pos + 1 + k]);
    lemma_ones_run_is(stream, pos + 1, k);
    let start = pos + 2 + k;
    let sb = sign_bits(v as int, w as nat);
    assert(stream.subrange(start, start + w) =~= sb) by {
        assert forall|j: int| 0 <= j < w implies stream.subrange(start, start + w)[j] == sb[j] by {
            assert(stream[start + j] == enc[2 + k + j]);
            assert(enc[2 + k + j] == sb[j]);
        }
    }
}

/// Round trip of the full-width encoding: wherever a stream carries
/// the full-width encoding of a representable value, decoding at that
/// position yields that value back and stops right after it.
pub proof fn lemma_varnum_full_roundtrip(stream: Seq<bool>, pos: int, v: i64, max_bytes: int)
    requires
        max_bytes == 1 || max_bytes == 2 || max_bytes == 4 || max_bytes == 8,
        fits_signed(v as int, (8 * max_bytes) as nat),
        0 <= pos,
        pos + 1 + 8 * max_bytes <= stream.len(),
        stream.subrange(pos, pos + 1 + 8 * max_bytes) == spec_varnum_encode_full(v, max_bytes),
    ensures
        spec_varnum(stream, pos, max_bytes) == (VarNumOutcome::Value {
            v,
            next: pos + 1 + 8 * max_bytes,
        }),
{
    let w = 8 * max_bytes;
    let enc = spec_varnum_encode_full(v, max_bytes);
    lemma_sign_bits_val(v as int, w as nat);
    assert forall|j: int| 0 <= j < 1 + w implies stream[pos + j] == enc[j] by {
        assert(stream.subrange(pos, pos + 1 + w)[j] == stream[pos + j]);
    }
    assert(stream[pos] == enc[0]);
    assert(!enc[0]);
    let sb = sign_bits(v as int, w as nat);
    assert(stream.subrange(pos + 1, pos + 1 + w) =~= sb) by {
        assert forall|j: int| 0 <= j < w implies stream.subrange(pos + 1, pos + 1 + w)[j] == sb[
            j
        ] by {
            assert(stream[pos + 1 + j] == enc[1 + j]);
            assert(enc[1 + j] == sb[j]);
        }
    }
}

/// The full-width encoding (selector 0) and the wide encoding whose
/// run selects the same width (selector 1, run of `max_bytes` ones)
/// decode to the same integer, wherever each stands in a stream.
pub proof fn lemma_varnum_encodings_agree(
    stream_full: Seq<bool>,
    pos_full: int,
    stream_wide: Seq<bool>,
    pos_wide: int,
    v: i64,
    max_bytes: int,
)
    requires
        max_bytes == 1 || max_bytes == 2 || max_bytes == 4 || max_bytes == 8,
        fits_signed(v as int, (8 * max_bytes) as nat),
        0 <= pos_full,
        pos_full + 1 + 8 * max_bytes <= stream_full.len(),
        stream_full.subrange(pos_full, pos_full + 1 + 8 * max_bytes) == spec_varnum_encode_full(
            v,
            max_bytes,
        ),
        0 <= pos_wide,
        pos_wide + wide_len(max_bytes) <= stream_wide.len(),
        stream_wide.subrange(pos_wide, pos_wide + wide_len(max_bytes)) == spec_varnum_encode_wide(
            v,
            max_bytes,
        ),
    ensures
        (spec_varnum(stream_full, pos_full, max_bytes) matches VarNumOutcome::Value {
            v: v_full,
            ..
        } && v_full == v),
        (spec_varnum(stream_wide, pos_wide, max_bytes) matches VarNumOutcome::Value {
            v: v_wide,
            ..
        } && v_wide == v),
{
    lemma_varnum_full_roundtrip(stream_full, pos_full, v, max_bytes);
    lemma_varnum_wide_roundtrip(stream_wide, pos_wide, v, max_bytes, max_bytes);
}

fn unsigned_pattern(v: i64, w: usize) -> (u: u64)
    requires
        w == 4 || w == 8 || w == 16 || w == 32 || w == 64,
        fits_signed(v as int, w as nat),
    ensures
        u < pow2(w as nat),
        u as nat == (v as int % pow2(w as nat) as int) as nat,
{
    proof {
        lemma2_to64();
        lemma2_to64_rest();
    }
    if v >= 0 {
        proof {
            lemma_small_mod(v as nat, pow2(w as nat));
        }
        v as u64
    } else {
        proof {
            lemma_mod_add_multiples_vanish(v as int, pow2(w as nat) as int);
            lemma_small_mod((v + pow2(w as nat)) as nat, pow2(w as nat));
        }
        if w == 64 {
            let d = v - i64::MIN;
            (d as u64) + 0x8000_0000_0000_0000u64
        } else {
            let full: i64 = match w {
                4 => 0x10,
                8 => 0x100,
                16 => 0x1_0000,
                _ => 0x1_0000_0000,
            };
            (v + full) as u64
        }
    }
}

/// Append the wide encoding of `v` with run length `k`.
pub fn write_varnum_wide(out: &mut BitWriter, v: i64, k: usize)
    requires
        old(out).wf(),
        run_supported(k as int),
        fits_signed(v as int, width_of_run(k as int) as nat),
        old(out).bits().len() + wide_len(k as int) + 9 <= 8 * WRITER_MAX_BYTES,
    ensures
        final(out).wf(),
        final(out).bits() == old(out).bits() + spec_varnum_encode_wide(v, k as int),
{
    let ghost base = old(out).bits();
    let ghost enc = spec_varnum_encode_wide(v, k as int);
    out.push_bit(true);
    let mut i: usize = 0;
    while i < k
        invariant
            out.wf(),
            i <= k <= 8,
            base.len() + wide_len(k as int) + 9 <= 8 * WRITER_MAX_BYTES,
            out.bits() == base + seq![true] + Seq::new(i as nat, |j: int| true),
        decreases k - i,
    {
        proof {
            assert((base + seq![true] + Seq::new(i as nat, |j: int| true)).push(true) =~= base
                + seq![true] + Seq::new((i + 1) as nat, |j: int| true));
        }
        out.push_bit(true);
        i = i + 1;
    }
    out.push_bit(false);
    let w: usize = if k == 0 {
        4
    } else {
        8 * k
    };
    let u = unsigned_pattern(v, w);
    out.push_bits(u, w);
    proof {
        assert(final(out).bits() == base + seq![true] + Seq::new(k as nat, |j: int| true) + seq![
            false
        ] + be_bits(u as nat, w as nat));
        assert(be_bits(u as nat, w as nat) == sign_bits(v as int, w as nat));
        assert(base + seq![true] + Seq::new(k as nat, |j: int| true) + seq![false] + sign_bits(
            v as int,
            w as nat,
        ) =~= base + enc);
    }
}

/// Append the full-width encoding of `v` under byte cap `max_bytes`.
pub fn write_varnum_full(out: &mut BitWriter, v: i64, max_bytes: usize)
    requires
        old(out).wf(),
        max_bytes == 1 || max_bytes == 2 || max_bytes == 4 || max_bytes == 8,
        fits_signed(v as int, (8 * max_bytes) as nat),
        old(out).bits().len() + 1 + 8 * max_bytes + 9 <= 8 * WRITER_MAX_BYTES,
    ensures
        final(out).wf(),
        final(out).bits() == old(out).bits() + spec_varnum_encode_full(v, max_bytes as int),
{
    let ghost base = old(out).bits();
    out.push_bit(false);
    let w: usize = 8 * max_bytes;
    let u = unsigned_pattern(v, w);
    out.push_bits(u, w);
    proof {
        assert(be_bits(u as nat, w as nat) == sign_bits(v as int, w as nat));
        assert(base + seq![false] + sign_bits(v as int, w as nat) =~= base
            + spec_varnum_encode_full(v, max_bytes as int));
    }
}

} // verus!
