//! Bit-level model of byte buffers and the executable cursor and
//! writer over them.
//!
//! A byte buffer carries a bit-stream, MSB-first within each byte:
//! wire bit 0 is the most significant bit of the first byte.  All
//! parsing primitives of this crate work on that stream through a
//! [`BitCursor`], and frames are assembled through a [`BitWriter`].

use vstd::prelude::*;
use vstd::arithmetic::power2::{
    pow2, lemma2_to64, lemma2_to64_rest, lemma_pow2_unfold, lemma_pow2_strictly_increases,
    lemma_pow2_pos,
};
use vstd::arithmetic::div_mod::{
    lemma_mod_breakdown, lemma_div_denominator, lemma_small_mod, lemma_mod_add_multiples_vanish,
    lemma_mod_division_less_than_divisor,
};
use vstd::slice::slice_index_get;

verus! {

/// Weight of the bit at offset `off` within one byte, MSB first:
/// offset 0 names the most significant bit.
pub open spec fn bit_weight(off: int) -> u8 {
    if off == 0 {
        128
    } else if off == 1 {
        64
    } else if off == 2 {
        32
    } else if off == 3 {
        16
    } else if off == 4 {
        8
    } else if off == 5 {
        4
    } else if off == 6 {
        2
    } else {
        1
    }
}

pub proof fn lemma_bit_weight_pow2(off: int)
    requires
        0 <= off < 8,
    ensures
        bit_weight(off) == pow2((7 - off) as nat),
{
    lemma2_to64();
}

/// Bit `i` of the stream carried by `bytes`, MSB-first within each byte.
pub open spec fn stream_bit(bytes: Seq<u8>, i: int) -> bool
    recommends
        0 <= i < 8 * bytes.len(),
{
    (bytes[i / 8] as int / bit_weight(i % 8) as int) % 2 == 1
}

/// The bit-stream carried by `bytes`: 8 bits per byte, MSB first.
pub open spec fn stream_bits(bytes: Seq<u8>) -> Seq<bool> {
    Seq::new((8 * bytes.len()) as nat, |i: int| stream_bit(bytes, i))
}

/// Big-endian (MSB-first) unsigned value of a bit string.
pub open spec fn be_value(bits: Seq<bool>) -> nat
    decreases bits.len(),
{
    if bits.len() == 0 {
        0
    } else {
        2 * be_value(bits.drop_last()) + (if bits.last() {
            1nat
        } else {
            0nat
        })
    }
}

/// The `n`-bit big-endian bit string holding the low `n` bits of `v`.
pub open spec fn be_bits(v: nat, n: nat) -> Seq<bool> {
    Seq::new(n, |j: int| (v / pow2((n - 1 - j) as nat)) % 2 == 1)
}

/// Signed (two's-complement) value of a non-empty bit string:
/// a set leading bit subtracts one full power of two.
pub open spec fn sign_val(bits: Seq<bool>) -> int
    recommends
        bits.len() > 0,
{
    if bits.len() > 0 && bits[0] {
        be_value(bits) - pow2(bits.len())
    } else {
        be_value(bits) as int
    }
}

/// Whether `v` is representable as a `w`-bit two's-complement integer.
pub open spec fn fits_signed(v: int, w: nat) -> bool
    recommends
        w >= 1,
{
    -pow2((w - 1) as nat) <= v < pow2((w - 1) as nat)
}

/// The `w`-bit two's-complement bit string of `v`.
pub open spec fn sign_bits(v: int, w: nat) -> Seq<bool>
    recommends
        w >= 1,
        fits_signed(v, w),
{
    be_bits((v % pow2(w) as int) as nat, w)
}

/// Length of the run of set bits starting at `pos`, up to the end of
/// the stream.
pub open spec fn ones_run(bits: Seq<bool>, pos: int) -> int
    recommends
        0 <= pos <= bits.len(),
    decreases bits.len() - pos
        when 0 <= pos <= bits.len()
{
    if pos >= bits.len() || !bits[pos] {
        0
    } else {
        1 + ones_run(bits, pos + 1)
    }
}

pub proof fn lemma_be_value_bound(bits: Seq<bool>)
    ensures
        be_value(bits) < pow2(bits.len()),
    decreases bits.len(),
{
    if bits.len() == 0 {
        lemma2_to64();
    } else {
        lemma_be_value_bound(bits.drop_last());
        lemma_pow2_unfold(bits.len());
    }
}

/// Splitting a non-empty bit string at its most significant bit.
pub proof fn lemma_be_value_msb(bits: Seq<bool>)
    requires
        bits.len() > 0,
    ensures
        be_value(bits) == (if bits[0] {
            pow2((bits.len() - 1) as nat)
        } else {
            0nat
        }) + be_value(bits.skip(1)),
    decreases bits.len(),
{
    if bits.len() == 1 {
        assert(bits.drop_last() =~= Seq::<bool>::empty());
        assert(bits.skip(1) =~= Seq::<bool>::empty());
        lemma2_to64();
    } else {
        let dl = bits.drop_last();
        lemma_be_value_msb(dl);
        assert(dl.skip(1) =~= bits.skip(1).drop_last());
        assert(bits.skip(1).last() == bits.last());
        lemma_pow2_unfold((bits.len() - 1) as nat);
    }
}

/// A non-empty bit string starts with a set bit exactly when its value
/// reaches the next-lower power of two; this pins `sign_val` as a
/// function of `be_value`.
pub proof fn lemma_sign_val_by_value(bits: Seq<bool>)
    requires
        bits.len() > 0,
    ensures
        be_value(bits) < pow2(bits.len()),
        bits[0] <==> be_value(bits) >= pow2((bits.len() - 1) as nat),
        sign_val(bits) == if be_value(bits) >= pow2((bits.len() - 1) as nat) {
            be_value(bits) - pow2(bits.len())
        } else {
            be_value(bits) as int
        },
{
    lemma_be_value_bound(bits);
    lemma_be_value_msb(bits);
    lemma_be_value_bound(bits.skip(1));
    lemma_pow2_unfold(bits.len());
}

/// Dropping the last bit of `be_bits` divides the value by two.
pub proof fn lemma_be_bits_drop_last(v: nat, n: nat)
    requires
        n > 0,
    ensures
        be_bits(v, n).drop_last() =~= be_bits(v / 2, (n - 1) as nat),
        be_bits(v, n).last() == (v % 2 == 1),
{
    assert forall|j: int| 0 <= j < n - 1 implies be_bits(v, n)[j] == be_bits(
        v / 2,
        (n - 1) as nat,
    )[j] by {
        let e = (n - 2 - j) as nat;
        lemma_pow2_unfold((e + 1) as nat);
        lemma_pow2_pos(e);
        lemma_div_denominator(v as int, 2, pow2(e) as int);
        assert((v as int / 2) / pow2(e) as int == v as int / (2 * pow2(e) as int));
    }
    lemma2_to64();
    vstd::arithmetic::div_mod::lemma_div_basics(v as int);
}

pub proof fn lemma_be_bits_value(v: nat, n: nat)
    ensures
        be_value(be_bits(v, n)) == v % pow2(n),
    decreases n,
{
    if n == 0 {
        lemma2_to64();
        assert(be_bits(v, 0) =~= Seq::<bool>::empty());
        lemma_small_mod(0, 1);
        lemma_mod_division_less_than_divisor(v as int, 1);
    } else {
        lemma_be_bits_value(v / 2, (n - 1) as nat);
        lemma_be_bits_drop_last(v, n);
        lemma_pow2_unfold(n);
        lemma_pow2_pos((n - 1) as nat);
        lemma_mod_breakdown(v as int, 2, pow2((n - 1) as nat) as int);
    }
}

/// `be_bits` inverts `be_value`: re-encoding the value of a bit string
/// at its own length gives the string back.
pub proof fn lemma_be_bits_of_value(bits: Seq<bool>)
    ensures
        be_bits(be_value(bits), bits.len()) =~= bits,
    decreases bits.len(),
{
    if bits.len() > 0 {
        let v = be_value(bits);
        let b = if bits.last() {
            1int
        } else {
            0int
        };
        lemma_be_bits_of_value(bits.drop_last());
        lemma_be_bits_drop_last(v, bits.len());
        assert(v == 2 * be_value(bits.drop_last()) + b);
        assert(v as int / 2 == be_value(bits.drop_last()) && v as int % 2 == b) by {
            vstd::arithmetic::div_mod::lemma_fundamental_div_mod_converse(
                v as int,
                2,
                be_value(bits.drop_last()) as int,
                b,
            );
        }
        let n = bits.len();
        assert forall|j: int| 0 <= j < n implies be_bits(v, n)[j] == bits[j] by {
            if j < n - 1 {
                assert(be_bits(v, n).drop_last()[j] == be_bits(v / 2, (n - 1) as nat)[j]);
                assert(be_bits(be_value(bits.drop_last()), (n - 1) as nat)[j] == bits.drop_last()[
                    j
                ]);
            } else {
                assert(be_bits(v, n).last() == (v % 2 == 1));
                assert(bits.last() == bits[n - 1]);
            }
        }
    }
}

/// Two's-complement encoding round-trips through `sign_val` for every
/// representable value.
pub proof fn lemma_sign_bits_val(v: int, w: nat)
    requires
        w >= 1,
        fits_signed(v, w),
    ensures
        sign_bits(v, w).len() == w,
        sign_val(sign_bits(v, w)) == v,
{
    let p = pow2(w) as int;
    let h = pow2((w - 1) as nat) as int;
    lemma_pow2_unfold(w);
    lemma_pow2_pos((w - 1) as nat);
    let u = (v % p) as nat;
    if v >= 0 {
        lemma_small_mod(v as nat, p as nat);
        assert(u == v);
    } else {
        lemma_mod_add_multiples_vanish(v, p);
        lemma_small_mod((v + p) as nat, p as nat);
        assert(u == v + p);
    }
    lemma_be_bits_value(u, w);
    lemma_small_mod(u, p as nat);
    lemma_sign_val_by_value(be_bits(u, w));
}

/// Appending one byte appends its eight bits to the stream.
pub proof fn lemma_stream_bits_push(bytes: Seq<u8>, x: u8)
    ensures
        stream_bits(bytes.push(x)) =~= stream_bits(bytes) + be_bits(x as nat, 8),
{
    assert forall|i: int| 0 <= i < 8 * bytes.len() implies stream_bits(bytes.push(x))[i]
        == stream_bits(bytes)[i] by {
        assert(bytes.push(x)[i / 8] == bytes[i / 8]);
    }
    assert forall|i: int| 8 * bytes.len() <= i < 8 * (bytes.len() + 1) implies stream_bits(
        bytes.push(x),
    )[i] == be_bits(x as nat, 8)[i - 8 * bytes.len()] by {
        let n = bytes.len() as int;
        let j = i - 8 * n;
        assert(i / 8 == n && i % 8 == j) by {
            vstd::arithmetic::div_mod::lemma_fundamental_div_mod_converse(i, 8, n, j);
        }
        assert(bytes.push(x)[n] == x);
        lemma_bit_weight_pow2(j);
    }
}

/// The run of ones is at least `k` when the first `k` bits from `pos`
/// are set.
pub proof fn lemma_ones_run_at_least(bits: Seq<bool>, pos: int, k: int)
    requires
        0 <= pos,
        0 <= k,
        pos + k <= bits.len(),
        forall|i: int| pos <= i < pos + k ==> bits[i],
    ensures
        ones_run(bits, pos) >= k,
    decreases k,
{
    if k > 0 {
        assert(bits[pos]);
        lemma_ones_run_at_least(bits, pos + 1, k - 1);
    } else {
        lemma_ones_run_props(bits, pos);
    }
}

/// The run of ones is exactly `k` when the first `k` bits from `pos`
/// are set and the run then ends (by a clear bit or the stream's end).
pub proof fn lemma_ones_run_is(bits: Seq<bool>, pos: int, k: int)
    requires
        0 <= pos,
        0 <= k,
        pos + k <= bits.len(),
        forall|i: int| pos <= i < pos + k ==> bits[i],
        pos + k == bits.len() || !bits[pos + k],
    ensures
        ones_run(bits, pos) == k,
    decreases k,
{
    if k == 0 {
    } else {
        assert(bits[pos + 0]);
        lemma_ones_run_is(bits, pos + 1, k - 1);
    }
}

/// Elementary properties of the run of ones starting at `pos`.
pub proof fn lemma_ones_run_props(bits: Seq<bool>, pos: int)
    requires
        0 <= pos <= bits.len(),
    ensures
        0 <= ones_run(bits, pos) <= bits.len() - pos,
        forall|i: int| pos <= i < pos + ones_run(bits, pos) ==> bits[i],
        pos + ones_run(bits, pos) < bits.len() ==> !bits[pos + ones_run(bits, pos)],
    decreases bits.len() - pos,
{
    if pos < bits.len() && bits[pos] {
        lemma_ones_run_props(bits, pos + 1);
        assert forall|i: int| pos <= i < pos + ones_run(bits, pos) implies bits[i] by {
            if i > pos {
                assert(pos + 1 <= i < (pos + 1) + ones_run(bits, pos + 1));
            }
        }
    }
}

fn weight_of(off: usize) -> (w: u8)
    requires
        off < 8,
    ensures
        w == bit_weight(off as int),
        w > 0,
{
    match off {
        0 => 128,
        1 => 64,
        2 => 32,
        3 => 16,
        4 => 8,
        5 => 4,
        6 => 2,
        _ => 1,
    }
}

fn bit_at(bytes: &[u8], i: usize) -> (b: bool)
    requires
        i < 8 * bytes@.len(),
    ensures
        b == stream_bit(bytes@, i as int),
{
    let idx = i / 8;
    let off = i % 8;
    proof {
        assert(idx < bytes@.len() && off < 8) by (nonlinear_arith)
            requires
                i < 8 * bytes@.len(),
                idx == i / 8,
                off == i % 8,
        ;
    }
    let w = weight_of(off);
    let byte = *slice_index_get(bytes, idx);
    (byte / w) % 2 == 1
}

/// A read-only view over a byte slice paired with a bit offset.
///
/// The offset never exceeds the number of bits in the slice; reads
/// that would pass the end fail and leave the cursor unmoved.
#[derive(Clone, Copy)]
pub struct BitCursor<'a> {
    bytes: &'a [u8],
    pos: usize,
}

impl<'a> BitCursor<'a> {
    /// The bit-stream this cursor reads.
    pub closed spec fn bits(&self) -> Seq<bool> {
        stream_bits(self.bytes@)
    }

    /// The current bit offset.
    pub closed spec fn pos(&self) -> int {
        self.pos as int
    }

    /// The cursor's internal invariant.
    pub closed spec fn wf(&self) -> bool {
        self.pos <= 8 * self.bytes@.len() && 8 * self.bytes@.len() <= usize::MAX
    }

    /// The invariant keeps the offset inside the stream.
    pub proof fn lemma_wf_bounds(&self)
        requires
            self.wf(),
        ensures
            0 <= self.pos() <= self.bits().len(),
    {
    }

    /// A cursor at bit offset 0 of `bytes`.
    pub fn new(bytes: &'a [u8]) -> (c: BitCursor<'a>)
        requires
            8 * bytes@.len() <= usize::MAX,
        ensures
            c.wf(),
            c.bits() == stream_bits(bytes@),
            c.pos() == 0,
    {
        BitCursor { bytes, pos: 0 }
    }

    /// The current bit offset.
    pub fn position(&self) -> (p: usize)
        ensures
            p == self.pos(),
    {
        self.pos
    }

    /// How many bits remain from the current offset to the end.
    pub fn remaining(&self) -> (n: usize)
        requires
            self.wf(),
        ensures
            n == self.bits().len() - self.pos(),
    {
        8 * self.bytes.len() - self.pos
    }

    /// Read a single bit and advance by one; fails at the end of the
    /// stream, leaving the cursor unmoved.
    pub fn read_bit(&mut self) -> (r: Option<bool>)
        requires
            old(self).wf(),
        ensures
            final(self).wf(),
            final(self).bits() == old(self).bits(),
            old(self).pos() + 1 <= old(self).bits().len() ==> r == Some(
                old(self).bits()[old(self).pos()],
            ) && final(self).pos() == old(self).pos() + 1,
            old(self).pos() + 1 > old(self).bits().len() ==> r is None && final(self).pos()
                == old(self).pos(),
    {
        if self.pos < 8 * self.bytes.len() {
            let b = bit_at(self.bytes, self.pos);
            self.pos = self.pos + 1;
            Some(b)
        } else {
            None
        }
    }

    /// Read `n` bits (1 to 64) MSB-first as an unsigned value and
    /// advance by `n`; fails if fewer than `n` bits remain, leaving
    /// the cursor unmoved.
    pub fn read_bits(&mut self, n: usize) -> (r: Option<u64>)
        requires
            old(self).wf(),
            1 <= n <= 64,
        ensures
            final(self).wf(),
            final(self).bits() == old(self).bits(),
            old(self).pos() + n <= old(self).bits().len() ==> {
                &&& r matches Some(v)
                &&& v == be_value(old(self).bits().subrange(old(self).pos(), old(self).pos() + n))
                &&& final(self).pos() == old(self).pos() + n
            },
            old(self).pos() + n > old(self).bits().len() ==> r is None && final(self).pos()
                == old(self).pos(),
    {
        let bitlen = 8 * self.bytes.len();
        if bitlen < n || self.pos > bitlen - n {
            return None;
        }
        let ghost p0 = self.pos as int;
        let ghost all = self.bits();
        let mut acc: u64 = 0;
        let mut i: usize = 0;
        while i < n
            invariant
                self.wf(),
                self.bits() == all,
                self.bytes@ == old(self).bytes@,
                i <= n <= 64,
                0 <= p0,
                p0 + n <= all.len(),
                self.pos == p0 + i,
                acc == be_value(all.subrange(p0, p0 + i)),
            decreases n - i,
        {
            let b = bit_at(self.bytes, self.pos);
            proof {
                lemma_be_value_bound(all.subrange(p0, p0 + i));
                lemma_pow2_strictly_increases(i as nat, 64);
                lemma2_to64();
                lemma2_to64_rest();
                assert(all.subrange(p0, p0 + i + 1).drop_last() =~= all.subrange(p0, p0 + i));
                assert(all.subrange(p0, p0 + i + 1).last() == all[p0 + i]);
            }
            acc = acc * 2 + (if b {
                1
            } else {
                0
            });
            self.pos = self.pos + 1;
            i = i + 1;
        }
        Some(acc)
    }

    /// Count consecutive set bits from the cursor without advancing,
    /// capped at `max`.
    pub fn peek_run_of_ones(&self, max: usize) -> (k: usize)
        requires
            self.wf(),
    ensures
            k <= max,
            k == if ones_run(self.bits(), self.pos()) <= max {
                ones_run(self.bits(), self.pos())
            } else {
                max as int
            },
    {
        let bitlen = 8 * self.bytes.len();
        proof {
            lemma_ones_run_props(self.bits(), self.pos());
        }
        let mut k: usize = 0;
        loop
            invariant
                self.wf(),
                k <= max,
                self.pos + k <= bitlen,
                bitlen == self.bits().len(),
                forall|i: int| self.pos() <= i < self.pos() + k ==> self.bits()[i],
            decreases bitlen - self.pos - k,
        {
            if k == max {
                proof {
                    lemma_ones_run_at_least(self.bits(), self.pos(), k as int);
                }
                return k;
            }
            if self.pos + k == bitlen {
                proof {
                    lemma_ones_run_is(self.bits(), self.pos(), k as int);
                }
                return k;
            }
            if !bit_at(self.bytes, self.pos + k) {
                proof {
                    lemma_ones_run_is(self.bits(), self.pos(), k as int);
                }
                return k;
            }
            k = k + 1;
        }
    }

    /// Advance by `n` bits; the caller must know that `n` bits remain.
    pub fn skip(&mut self, n: usize)
        requires
            old(self).wf(),
            old(self).pos() + n <= old(self).bits().len(),
        ensures
            final(self).wf(),
            final(self).bits() == old(self).bits(),
            final(self).pos() == old(self).pos() + n,
    {
        self.pos = self.pos + n;
    }
}

fn pow2_u64(k: usize) -> (p: u64)
    requires
        k < 64,
    ensures
        p == pow2(k as nat),
{
    let mut p: u64 = 1;
    let mut i: usize = 0;
    proof {
        lemma2_to64();
    }
    while i < k
        invariant
            i <= k < 64,
            p == pow2(i as nat),
        decreases k - i,
    {
        proof {
            lemma_pow2_unfold((i + 1) as nat);
            lemma_pow2_strictly_increases((i + 1) as nat, 64);
            lemma2_to64_rest();
        }
        p = p * 2;
        i = i + 1;
    }
    p
}


/// Capacity cap of a [`BitWriter`], in bytes; it keeps all offset
/// arithmetic within `usize` on every platform.
pub const WRITER_MAX_BYTES: usize = 0x0400_0000;

/// An append-only bit buffer that packs bits into bytes, MSB first.
pub struct BitWriter {
    bytes: Vec<u8>,
    pending: Vec<bool>,
}

impl BitWriter {
    /// The bits written so far.
    pub closed spec fn bits(&self) -> Seq<bool> {
        stream_bits(self.bytes@) + self.pending@
    }

    /// The writer's internal invariant.
    pub closed spec fn wf(&self) -> bool {
        &&& self.pending@.len() < 8
        &&& self.bytes@.len() < WRITER_MAX_BYTES
        &&& (self.pending@.len() != 0 ==> self.bytes@.len() + 2 <= WRITER_MAX_BYTES)
    }

    /// An empty bit buffer.
    pub fn new() -> (w: BitWriter)
        ensures
            w.wf(),
            w.bits() == Seq::<bool>::empty(),
    {
        let w = BitWriter { bytes: Vec::new(), pending: Vec::new() };
        proof {
            assert(w.bits() =~= Seq::<bool>::empty());
        }
        w
    }

    /// The number of bits written so far.
    pub fn len_bits(&self) -> (n: usize)
        requires
            self.wf(),
        ensures
            n == self.bits().len(),
    {
        8 * self.bytes.len() + self.pending.len()
    }

    /// Append one bit.
    pub fn push_bit(&mut self, b: bool)
        requires
            old(self).wf(),
            old(self).bits().len() + 9 <= 8 * WRITER_MAX_BYTES,
        ensures
            final(self).wf(),
            final(self).bits() == old(self).bits().push(b),
    {
        self.pending.push(b);
        if self.pending.len() == 8 {
            let mut acc: u8 = 0;
            let mut i: usize = 0;
            while i < 8
                invariant
                    i <= 8,
                    self.pending@.len() == 8,
                    self.bytes@ == old(self).bytes@,
                    self.pending@ == old(self).pending@.push(b),
                    acc == be_value(self.pending@.subrange(0, i as int)),
                decreases 8 - i,
            {
                proof {
                    lemma_be_value_bound(self.pending@.subrange(0, i as int));
                    lemma2_to64();
                    if i < 7 {
                        lemma_pow2_strictly_increases(i as nat, 7);
                    }
                    assert(self.pending@.subrange(0, i + 1).drop_last() =~= self.pending@.subrange(
                        0,
                        i as int,
                    ));
                }
                let bi = self.pending[i];
                acc = acc * 2 + (if bi {
                    1
                } else {
                    0
                });
                i = i + 1;
            }
            proof {
                assert(self.pending@.subrange(0, 8) =~= self.pending@);
                lemma_stream_bits_push(self.bytes@, acc);
                lemma_be_value_bound(self.pending@);
                lemma2_to64();
                lemma_be_bits_of_value(self.pending@);
            }
            self.bytes.push(acc);
            self.pending = Vec::new();
            proof {
                assert(self.bits() =~= old(self).bits().push(b));
            }
        } else {
            proof {
                assert(self.bits() =~= old(self).bits().push(b));
            }
        }
    }

    /// Append the low `n` bits of `v`, MSB first.
    pub fn push_bits(&mut self, v: u64, n: usize)
        requires
            old(self).wf(),
            n <= 64,
            v < pow2(n as nat),
            old(self).bits().len() + n + 9 <= 8 * WRITER_MAX_BYTES,
        ensures
            final(self).wf(),
            final(self).bits() == old(self).bits() + be_bits(v as nat, n as nat),
    {
        let ghost base = old(self).bits();
        let mut j: usize = 0;
        while j < n
            invariant
                self.wf(),
                j <= n <= 64,
                v < pow2(n as nat),
                base.len() + n + 9 <= 8 * WRITER_MAX_BYTES,
                self.bits() == base + be_bits(v as nat, n as nat).subrange(0, j as int),
            decreases n - j,
        {
            let p = pow2_u64(n - 1 - j);
            proof {
                lemma_pow2_pos((n - 1 - j) as nat);
            }
            let b = (v / p) % 2 == 1;
            proof {
                assert(be_bits(v as nat, n as nat)[j as int] == b);
                assert((base + be_bits(v as nat, n as nat).subrange(0, j as int)).push(b) =~= base
                    + be_bits(v as nat, n as nat).subrange(0, j + 1));
            }
            self.push_bit(b);
            j = j + 1;
        }
        proof {
            assert(be_bits(v as nat, n as nat).subrange(0, n as int) =~= be_bits(
                v as nat,
                n as nat,
            ));
        }
    }

    /// Close the buffer: pad the last byte with clear bits and hand the
    /// bytes out.  The written bits form a prefix of the returned
    /// byte-stream and the padding bits are all clear.
    pub fn finish(self) -> (out: Vec<u8>)
        requires
            self.wf(),
        ensures
            self.bits().len() <= 8 * out@.len() < self.bits().len() + 8,
            stream_bits(out@).subrange(0, self.bits().len() as int) == self.bits(),
            forall|i: int| self.bits().len() <= i < 8 * out@.len() ==> !stream_bits(out@)[i],
    {
        let ghost bytes0 = self.bytes@;
        let ghost orig = self.bits();
        let mut w = self;
        if w.pending.len() != 0 {
            let ghost pend0 = w.pending@;
            let mut t = w.pending.len();
            while t < 8
                invariant
                    t == w.pending@.len(),
                    t <= 8,
                    w.bytes@ == bytes0,
                    1 <= pend0.len() <= t,
                    w.pending@.subrange(0, pend0.len() as int) == pend0,
                    forall|i: int| pend0.len() <= i < t ==> !w.pending@[i],
                decreases 8 - t,
            {
                w.pending.push(false);
                proof {
                    assert(w.pending@.subrange(0, pend0.len() as int) =~= pend0);
                }
                t = t + 1;
            }
            let mut acc: u8 = 0;
            let mut i: usize = 0;
            while i < 8
                invariant
                    i <= 8,
                    w.pending@.len() == 8,
                    w.bytes@ == bytes0,
                    1 <= pend0.len() <= 8,
                    w.pending@.subrange(0, pend0.len() as int) == pend0,
                    forall|i2: int| pend0.len() <= i2 < 8 ==> !w.pending@[i2],
                    acc == be_value(w.pending@.subrange(0, i as int)),
                decreases 8 - i,
            {
                proof {
                    lemma_be_value_bound(w.pending@.subrange(0, i as int));
                    lemma2_to64();
                    if i < 7 {
                        lemma_pow2_strictly_increases(i as nat, 7);
                    }
                    assert(w.pending@.subrange(0, i + 1).drop_last() =~= w.pending@.subrange(
                        0,
                        i as int,
                    ));
                }
                let bi = w.pending[i];
                acc = acc * 2 + (if bi {
                    1
                } else {
                    0
                });
                i = i + 1;
            }
            proof {
                assert(w.pending@.subrange(0, 8) =~= w.pending@);
                lemma_stream_bits_push(bytes0, acc);
                lemma_be_value_bound(w.pending@);
                lemma2_to64();
                lemma_be_bits_of_value(w.pending@);
            }
            let ghost pend8 = w.pending@;
            w.bytes.push(acc);
            w.pending = Vec::new();
            proof {
                assert(stream_bits(w.bytes@) =~= stream_bits(bytes0) + pend8);
                assert forall|j: int| 0 <= j < orig.len() implies stream_bits(w.bytes@)[j] == orig[
                    j
                ] by {
                    if j >= 8 * bytes0.len() {
                        assert(pend8[j - 8 * bytes0.len()] == pend0[j - 8 * bytes0.len()]) by {
                            assert(pend8.subrange(0, pend0.len() as int)[j - 8 * bytes0.len()]
                                == pend0[j - 8 * bytes0.len()]);
                        }
                    }
                }
                assert(stream_bits(w.bytes@).subrange(0, orig.len() as int) =~= orig);
            }
        } else {
            proof {
                assert(stream_bits(w.bytes@).subrange(0, orig.len() as int) =~= orig);
            }
        }
        w.bytes
    }
}

} // verus!
