use vstd::prelude::*;
use vstd::endian::{endianness, Endian};
use vstd::std_specs::convert::FromSpecImpl;

verus! {

// ---------------------------------------------------------------------------
// Bytes and 16-bit words
// ---------------------------------------------------------------------------

/// The word whose low byte is `lo` and whose high byte is `hi`.
pub open spec fn word(lo: u8, hi: u8) -> u16 {
    (lo as u16) | ((hi as u16) << 8u16)
}

/// The low byte of `x`.
pub open spec fn lo_byte(x: u16) -> u8 {
    (x & 0xffu16) as u8
}

/// The high byte of `x`.
pub open spec fn hi_byte(x: u16) -> u8 {
    (x >> 8u16) as u8
}

/// The word that the two bytes `b0, b1`, in this order in memory, hold in the
/// byte order of the target.
pub open spec fn ne_word(b0: u8, b1: u8) -> u16 {
    match endianness() {
        Endian::Little => word(b0, b1),
        Endian::Big => word(b1, b0),
    }
}

/// The first byte in memory of `x` in the byte order of the target.
pub open spec fn ne_byte0(x: u16) -> u8 {
    match endianness() {
        Endian::Little => lo_byte(x),
        Endian::Big => hi_byte(x),
    }
}

/// The second byte in memory of `x` in the byte order of the target.
pub open spec fn ne_byte1(x: u16) -> u8 {
    match endianness() {
        Endian::Little => hi_byte(x),
        Endian::Big => lo_byte(x),
    }
}

/// Splitting a word into bytes and joining them back gives the word back.
pub proof fn lemma_word_bytes(x: u16)
    ensures
        word(lo_byte(x), hi_byte(x)) == x,
        ne_word(ne_byte0(x), ne_byte1(x)) == x,
{
    assert(((x & 0xffu16) as u8 as u16) | (((x >> 8u16) as u8 as u16) << 8u16) == x)
        by (bit_vector);
}

/// Joining two bytes into a word and splitting it gives the bytes back.
pub proof fn lemma_bytes_word(b0: u8, b1: u8)
    ensures
        lo_byte(word(b0, b1)) == b0,
        hi_byte(word(b0, b1)) == b1,
        ne_byte0(ne_word(b0, b1)) == b0,
        ne_byte1(ne_word(b0, b1)) == b1,
{
    assert((((b0 as u16) | ((b1 as u16) << 8u16)) & 0xffu16) as u8 == b0) by (bit_vector);
    assert((((b0 as u16) | ((b1 as u16) << 8u16)) >> 8u16) as u8 == b1) by (bit_vector);
    assert((((b1 as u16) | ((b0 as u16) << 8u16)) & 0xffu16) as u8 == b1) by (bit_vector);
    assert((((b1 as u16) | ((b0 as u16) << 8u16)) >> 8u16) as u8 == b0) by (bit_vector);
}

/// `u16::to_ne_bytes`: the bytes of `x` in the byte order of the target
/// (std documents it as `to_le_bytes` on a little-endian target and
/// `to_be_bytes` on a big-endian one).
#[verifier::external_body]
pub(crate) fn u16_to_ne_bytes(x: u16) -> (bytes: [u8; 2])
    ensures
        bytes[0] == ne_byte0(x),
        bytes[1] == ne_byte1(x),
{
    x.to_ne_bytes()
}

/// `u16::from_ne_bytes`: the word that `bytes` hold in the byte order of the
/// target.
#[verifier::external_body]
pub(crate) fn u16_from_ne_bytes(bytes: [u8; 2]) -> (x: u16)
    ensures
        x == ne_word(bytes[0], bytes[1]),
{
    u16::from_ne_bytes(bytes)
}

/// `u16::to_le_bytes`: the low byte of `x`, then its high byte.
#[verifier::external_body]
pub(crate) fn u16_to_le_bytes(x: u16) -> (bytes: [u8; 2])
    ensures
        bytes[0] == lo_byte(x),
        bytes[1] == hi_byte(x),
{
    x.to_le_bytes()
}

/// `u16::from_le_bytes`: the word whose low byte is `bytes[0]` and whose high
/// byte is `bytes[1]`.
#[verifier::external_body]
pub(crate) fn u16_from_le_bytes(bytes: [u8; 2]) -> (x: u16)
    ensures
        x == word(bytes[0], bytes[1]),
{
    u16::from_le_bytes(bytes)
}

// ---------------------------------------------------------------------------
// General purpose register pairs
// ---------------------------------------------------------------------------

/// A general purpose register pair (BC, DE or HL): two bytes, the first of
/// which is addressed as the pair's first register (B, D or H) and the second
/// as its second register (C, E or L).  As a word, the pair is read in the
/// byte order of the target.
#[derive(Clone, Copy)]
pub struct GPReg(pub [u8; 2]);

impl GPReg {
    /// The pair read as a word.
    pub open spec fn value(self) -> u16 {
        ne_word(self.0[0], self.0[1])
    }

    /// The pair that holds `x` as a word.
    pub open spec fn of_word(x: u16) -> GPReg {
        GPReg([ne_byte0(x), ne_byte1(x)])
    }
}

impl From<u16> for GPReg {
    fn from(x: u16) -> (r: Self) {
        let r = GPReg(u16_to_ne_bytes(x));
        assert(r.0 =~= GPReg::of_word(x).0);
        r
    }
}

impl FromSpecImpl<u16> for GPReg {
    open spec fn obeys_from_spec() -> bool {
        true
    }

    open spec fn from_spec(x: u16) -> GPReg {
        GPReg::of_word(x)
    }
}

impl From<GPReg> for u16 {
    fn from(x: GPReg) -> (r: u16) {
        u16_from_ne_bytes(x.0)
    }
}

impl FromSpecImpl<GPReg> for u16 {
    open spec fn obeys_from_spec() -> bool {
        true
    }

    open spec fn from_spec(x: GPReg) -> u16 {
        x.value()
    }
}

impl GPReg {
    /// The pair plus `n`, modulo 2^16.
    pub fn wrapping_add(&self, n: u16) -> (r: Self)
        ensures
            r == GPReg::of_word(self.value().wrapping_add(n)),
    {
        let x: u16 = u16::from(*self).wrapping_add(n);
        GPReg::from(x)
    }

    /// The pair minus `n`, modulo 2^16.
    pub fn wrapping_sub(&self, n: u16) -> (r: Self)
        ensures
            r == GPReg::of_word(self.value().wrapping_sub(n)),
    {
        let x: u16 = u16::from(*self).wrapping_sub(n);
        GPReg::from(x)
    }
}

/// A pair built from a word reads back as that word, and a pair read as a
/// word and rebuilt from it is the same pair.
pub proof fn gpreg_round_trip(x: u16, r: GPReg)
    ensures
        GPReg::of_word(x).value() == x,
        GPReg::of_word(r.value()) == r,
{
    lemma_word_bytes(x);
    lemma_bytes_word(r.0[0], r.0[1]);
    assert(GPReg::of_word(r.value()).0 =~= r.0);
}

/// Adding `n` to a pair and then taking `n` away gives the pair back.
pub proof fn gpreg_add_sub(r: GPReg, n: u16)
    ensures
        GPReg::of_word(GPReg::of_word(r.value().wrapping_add(n)).value().wrapping_sub(n)) == r,
{
    gpreg_round_trip(r.value().wrapping_add(n), r);
    gpreg_round_trip(r.value(), r);
}

// ---------------------------------------------------------------------------
// Accumulator and flags
// ---------------------------------------------------------------------------

/// Mask of the zero flag in F.
pub const FLAG_Z: u8 = 0x80;
/// Mask of the subtract flag in F.
pub const FLAG_N: u8 = 0x40;
/// Mask of the half-carry flag in F.
pub const FLAG_H: u8 = 0x20;
/// Mask of the carry flag in F.
pub const FLAG_C: u8 = 0x10;

/// One of the four flag masks.
pub open spec fn is_flag(mask: u8) -> bool {
    mask == FLAG_Z || mask == FLAG_N || mask == FLAG_H || mask == FLAG_C
}

/// Whether the flag `mask` is set in `f`.
pub open spec fn has_flag(f: u8, mask: u8) -> bool {
    f & mask != 0
}

/// `f` with the flag `mask` set to `on`.
pub open spec fn put_flag(f: u8, mask: u8, on: bool) -> u8 {
    if on {
        f | mask
    } else {
        f & !mask
    }
}

/// The flags byte that keeps the low nibble of `f` and has its four flags
/// set to `z`, `n`, `h` and `c`.
pub open spec fn with_flags(f: u8, z: bool, n: bool, h: bool, c: bool) -> u8 {
    (f & 0x0f) | (if z { FLAG_Z } else { 0 }) | (if n { FLAG_N } else { 0 }) | (if h {
        FLAG_H
    } else {
        0
    }) | (if c { FLAG_C } else { 0 })
}

/// Every flags byte is its low nibble together with its four flags, and
/// setting one flag of such a byte replaces that flag and keeps the rest.
pub proof fn lemma_with_flags(f: u8, z: bool, n: bool, h: bool, c: bool, v: bool)
    ensures
        f == with_flags(f, has_flag(f, FLAG_Z), has_flag(f, FLAG_N), has_flag(f, FLAG_H), has_flag(f, FLAG_C)),
        put_flag(with_flags(f, z, n, h, c), FLAG_Z, v) == with_flags(f, v, n, h, c),
        put_flag(with_flags(f, z, n, h, c), FLAG_N, v) == with_flags(f, z, v, h, c),
        put_flag(with_flags(f, z, n, h, c), FLAG_H, v) == with_flags(f, z, n, v, c),
        put_flag(with_flags(f, z, n, h, c), FLAG_C, v) == with_flags(f, z, n, h, v),
        has_flag(with_flags(f, z, n, h, c), FLAG_Z) == z,
        has_flag(with_flags(f, z, n, h, c), FLAG_N) == n,
        has_flag(with_flags(f, z, n, h, c), FLAG_H) == h,
        has_flag(with_flags(f, z, n, h, c), FLAG_C) == c,
{
    let zb: u8 = if z { 0x80u8 } else { 0u8 };
    let nb: u8 = if n { 0x40u8 } else { 0u8 };
    let hb: u8 = if h { 0x20u8 } else { 0u8 };
    let cb: u8 = if c { 0x10u8 } else { 0u8 };
    let vz: u8 = if v { 0x80u8 } else { 0u8 };
    let vn: u8 = if v { 0x40u8 } else { 0u8 };
    let vh: u8 = if v { 0x20u8 } else { 0u8 };
    let vc: u8 = if v { 0x10u8 } else { 0u8 };
    assert(f == (f & 0x0f) | (if f & 0x80 != 0 { 0x80u8 } else { 0u8 }) | (if f & 0x40 != 0 {
        0x40u8
    } else {
        0u8
    }) | (if f & 0x20 != 0 { 0x20u8 } else { 0u8 }) | (if f & 0x10 != 0 { 0x10u8 } else { 0u8 }))
        by (bit_vector);
    let w: u8 = (f & 0x0f) | zb | nb | hb | cb;
    assert(w == with_flags(f, z, n, h, c));
    assert((if v { w | 0x80 } else { w & !0x80u8 }) == (f & 0x0f) | vz | nb | hb | cb
        && (if v { w | 0x40 } else { w & !0x40u8 }) == (f & 0x0f) | zb | vn | hb | cb
        && (if v { w | 0x20 } else { w & !0x20u8 }) == (f & 0x0f) | zb | nb | vh | cb
        && (if v { w | 0x10 } else { w & !0x10u8 }) == (f & 0x0f) | zb | nb | hb | vc
        && (w & 0x80 != 0) == (zb == 0x80) && (w & 0x40 != 0) == (nb == 0x40)
        && (w & 0x20 != 0) == (hb == 0x20) && (w & 0x10 != 0) == (cb == 0x10)) by (bit_vector)
        requires
            w == (f & 0x0f) | zb | nb | hb | cb,
            zb == 0x80 || zb == 0,
            nb == 0x40 || nb == 0,
            hb == 0x20 || hb == 0,
            cb == 0x10 || cb == 0,
            (vz == 0x80 && vn == 0x40 && vh == 0x20 && vc == 0x10 && v) || (vz == 0 && vn == 0
                && vh == 0 && vc == 0 && !v);
}

/// Reading a flag after writing it gives the value written; the other flags
/// and the low nibble are unchanged.
pub proof fn flag_read_after_write(f: u8, mask: u8, other: u8, on: bool)
    requires
        is_flag(mask),
        is_flag(other),
    ensures
        has_flag(put_flag(f, mask, on), mask) == on,
        other != mask ==> has_flag(put_flag(f, mask, on), other) == has_flag(f, other),
        put_flag(f, mask, on) & 0x0f == f & 0x0f,
{
    assert(has_flag(f | mask, mask) && !has_flag(f & !mask, mask)
        && (other != mask ==> (has_flag(f | mask, other) == has_flag(f, other)
        && has_flag(f & !mask, other) == has_flag(f, other)))
        && (f | mask) & 0x0f == f & 0x0f && (f & !mask) & 0x0f == f & 0x0f) by (bit_vector)
        requires
            mask == 0x80u8 || mask == 0x40u8 || mask == 0x20u8 || mask == 0x10u8,
            other == 0x80u8 || other == 0x40u8 || other == 0x20u8 || other == 0x10u8;
}

/// Each flag mask is its bit of F: Z is bit 7, N bit 6, H bit 5, C bit 4.
proof fn lemma_flag_bit(f: u8)
    ensures
        has_flag(f, FLAG_Z) == ((f >> 7u8) & 1 == 1),
        has_flag(f, FLAG_N) == ((f >> 6u8) & 1 == 1),
        has_flag(f, FLAG_H) == ((f >> 5u8) & 1 == 1),
        has_flag(f, FLAG_C) == ((f >> 4u8) & 1 == 1),
{
    assert((f & 0x80 != 0) == ((f >> 7u8) & 1 == 1) && (f & 0x40 != 0) == ((f >> 6u8) & 1 == 1)
        && (f & 0x20 != 0) == ((f >> 5u8) & 1 == 1) && (f & 0x10 != 0) == ((f >> 4u8) & 1 == 1))
        by (bit_vector);
}

/// Putting a flag sets its bit of F to the value put and keeps every other
/// bit.
proof fn lemma_put_flag_bit(f: u8, on: bool)
    ensures
        ((put_flag(f, FLAG_Z, on) >> 7u8) & 1 == 1) == on,
        put_flag(f, FLAG_Z, on) & !0x80u8 == f & !0x80u8,
        ((put_flag(f, FLAG_N, on) >> 6u8) & 1 == 1) == on,
        put_flag(f, FLAG_N, on) & !0x40u8 == f & !0x40u8,
        ((put_flag(f, FLAG_H, on) >> 5u8) & 1 == 1) == on,
        put_flag(f, FLAG_H, on) & !0x20u8 == f & !0x20u8,
        ((put_flag(f, FLAG_C, on) >> 4u8) & 1 == 1) == on,
        put_flag(f, FLAG_C, on) & !0x10u8 == f & !0x10u8,
{
    assert(((f | 0x80) >> 7u8) & 1 == 1 && ((f & !0x80u8) >> 7u8) & 1 == 0 && (f | 0x80) & !0x80u8
        == f & !0x80u8 && (f & !0x80u8) & !0x80u8 == f & !0x80u8) by (bit_vector);
    assert(((f | 0x40) >> 6u8) & 1 == 1 && ((f & !0x40u8) >> 6u8) & 1 == 0 && (f | 0x40) & !0x40u8
        == f & !0x40u8 && (f & !0x40u8) & !0x40u8 == f & !0x40u8) by (bit_vector);
    assert(((f | 0x20) >> 5u8) & 1 == 1 && ((f & !0x20u8) >> 5u8) & 1 == 0 && (f | 0x20) & !0x20u8
        == f & !0x20u8 && (f & !0x20u8) & !0x20u8 == f & !0x20u8) by (bit_vector);
    assert(((f | 0x10) >> 4u8) & 1 == 1 && ((f & !0x10u8) >> 4u8) & 1 == 0 && (f | 0x10) & !0x10u8
        == f & !0x10u8 && (f & !0x10u8) & !0x10u8 == f & !0x10u8) by (bit_vector);
}

/// The accumulator and flags pair AF: byte 0 is the accumulator A, byte 1 is
/// F, whose bits 4 to 7 are the carry (C), half-carry (H), subtract (N) and
/// zero (Z) flags and whose low nibble is unused.  As a word, the pair is
/// read in the byte order of the target.
#[derive(Clone, Copy)]
pub struct AFReg {
    pub bytes: [u8; 2],
}

impl AFReg {
    /// The pair read as a word.
    pub open spec fn value(self) -> u16 {
        ne_word(self.bytes[0], self.bytes[1])
    }

    /// The pair that holds the two bytes `a` and `f`.
    pub open spec fn of_bytes(a: u8, f: u8) -> AFReg {
        AFReg { bytes: [a, f] }
    }

    /// The pair that holds `x` as a word.
    pub open spec fn of_word(x: u16) -> AFReg {
        AFReg::of_bytes(ne_byte0(x), ne_byte1(x))
    }

    /// The pair made of `bytes`.
    pub fn from_bytes(bytes: [u8; 2]) -> (r: Self)
        ensures
            r.bytes == bytes,
    {
        AFReg { bytes }
    }

    /// The two bytes of the pair.
    pub fn into_bytes(self) -> (r: [u8; 2])
        ensures
            r == self.bytes,
    {
        self.bytes
    }

    /// The accumulator.
    pub fn a(&self) -> (r: u8)
        ensures
            r == self.bytes[0],
    {
        self.bytes[0]
    }

    /// Sets the accumulator; F is unchanged.
    pub fn set_a(&mut self, val: u8)
        ensures
            *final(self) == AFReg::of_bytes(val, old(self).bytes[1]),
    {
        let r = AFReg { bytes: [val, self.bytes[1]] };
        assert(r.bytes =~= AFReg::of_bytes(val, self.bytes[1]).bytes);
        *self = r;
    }

    /// The flags register F.
    pub fn f(&self) -> (r: u8)
        ensures
            r == self.bytes[1],
    {
        self.into_bytes()[1]
    }

    fn put(&mut self, mask: u8, on: bool)
        ensures
            *final(self) == AFReg::of_bytes(old(self).bytes[0], put_flag(old(self).bytes[1], mask, on)),
    {
        let f: u8 = if on {
            self.bytes[1] | mask
        } else {
            self.bytes[1] & !mask
        };
        let r = AFReg { bytes: [self.bytes[0], f] };
        assert(r.bytes =~= AFReg::of_bytes(self.bytes[0], put_flag(self.bytes[1], mask, on)).bytes);
        *self = r;
    }

    /// The zero flag.
    pub fn z(&self) -> (r: bool)
        ensures
            r == has_flag(self.bytes[1], FLAG_Z),
            r == ((self.bytes[1] >> 7u8) & 1 == 1),
    {
        proof {
            lemma_flag_bit(self.bytes[1]);
        }
        self.bytes[1] & FLAG_Z != 0
    }

    /// The subtract flag.
    pub fn n(&self) -> (r: bool)
        ensures
            r == has_flag(self.bytes[1], FLAG_N),
            r == ((self.bytes[1] >> 6u8) & 1 == 1),
    {
        proof {
            lemma_flag_bit(self.bytes[1]);
        }
        self.bytes[1] & FLAG_N != 0
    }

    /// The half-carry flag.
    pub fn h(&self) -> (r: bool)
        ensures
            r == has_flag(self.bytes[1], FLAG_H),
            r == ((self.bytes[1] >> 5u8) & 1 == 1),
    {
        proof {
            lemma_flag_bit(self.bytes[1]);
        }
        self.bytes[1] & FLAG_H != 0
    }

    /// The carry flag.
    pub fn c(&self) -> (r: bool)
        ensures
            r == has_flag(self.bytes[1], FLAG_C),
            r == ((self.bytes[1] >> 4u8) & 1 == 1),
    {
        proof {
            lemma_flag_bit(self.bytes[1]);
        }
        self.bytes[1] & FLAG_C != 0
    }

    /// Sets the zero flag; A and the other bits of F are unchanged.
    pub fn set_z(&mut self, on: bool)
        ensures
            *final(self) == AFReg::of_bytes(old(self).bytes[0], put_flag(old(self).bytes[1], FLAG_Z, on)),
            ((final(self).bytes[1] >> 7u8) & 1 == 1) == on,
            final(self).bytes[1] & !0x80u8 == old(self).bytes[1] & !0x80u8,
            final(self).bytes[0] == old(self).bytes[0],
    {
        proof {
            lemma_put_flag_bit(old(self).bytes[1], on);
        }
        self.put(FLAG_Z, on)
    }

    /// Sets the subtract flag; A and the other bits of F are unchanged.
    pub fn set_n(&mut self, on: bool)
        ensures
            *final(self) == AFReg::of_bytes(old(self).bytes[0], put_flag(old(self).bytes[1], FLAG_N, on)),
            ((final(self).bytes[1] >> 6u8) & 1 == 1) == on,
            final(self).bytes[1] & !0x40u8 == old(self).bytes[1] & !0x40u8,
            final(self).bytes[0] == old(self).bytes[0],
    {
        proof {
            lemma_put_flag_bit(old(self).bytes[1], on);
        }
        self.put(FLAG_N, on)
    }

    /// Sets the half-carry flag; A and the other bits of F are unchanged.
    pub fn set_h(&mut self, on: bool)
        ensures
            *final(self) == AFReg::of_bytes(old(self).bytes[0], put_flag(old(self).bytes[1], FLAG_H, on)),
            ((final(self).bytes[1] >> 5u8) & 1 == 1) == on,
            final(self).bytes[1] & !0x20u8 == old(self).bytes[1] & !0x20u8,
            final(self).bytes[0] == old(self).bytes[0],
    {
        proof {
            lemma_put_flag_bit(old(self).bytes[1], on);
        }
        self.put(FLAG_H, on)
    }

    /// Sets the carry flag; A and the other bits of F are unchanged.
    pub fn set_c(&mut self, on: bool)
        ensures
            *final(self) == AFReg::of_bytes(old(self).bytes[0], put_flag(old(self).bytes[1], FLAG_C, on)),
            ((final(self).bytes[1] >> 4u8) & 1 == 1) == on,
            final(self).bytes[1] & !0x10u8 == old(self).bytes[1] & !0x10u8,
            final(self).bytes[0] == old(self).bytes[0],
    {
        proof {
            lemma_put_flag_bit(old(self).bytes[1], on);
        }
        self.put(FLAG_C, on)
    }

    /// Clears the four flags; A and the low nibble of F are unchanged.
    pub fn reset_flags(&mut self)
        ensures
            *final(self) == AFReg::of_bytes(old(self).bytes[0], with_flags(old(self).bytes[1], false, false, false, false)),
    {
        let ghost f = self.bytes[1];
        let ghost (z, n, h) = (has_flag(f, FLAG_Z), has_flag(f, FLAG_N), has_flag(f, FLAG_H));
        proof {
            lemma_with_flags(f, z, n, h, has_flag(f, FLAG_C), false);
            lemma_with_flags(f, z, n, h, false, false);
            lemma_with_flags(f, z, n, false, false, false);
            lemma_with_flags(f, z, false, false, false, false);
        }
        self.set_c(false);
        self.set_h(false);
        self.set_n(false);
        self.set_z(false);
    }
}

impl From<u16> for AFReg {
    fn from(x: u16) -> (r: Self) {
        let r = Self::from_bytes(u16_to_ne_bytes(x));
        assert(r.bytes =~= AFReg::of_word(x).bytes);
        r
    }
}

impl FromSpecImpl<u16> for AFReg {
    open spec fn obeys_from_spec() -> bool {
        true
    }

    open spec fn from_spec(x: u16) -> AFReg {
        AFReg::of_word(x)
    }
}

impl From<AFReg> for u16 {
    fn from(x: AFReg) -> (r: u16) {
        u16_from_ne_bytes(x.into_bytes())
    }
}

impl FromSpecImpl<AFReg> for u16 {
    open spec fn obeys_from_spec() -> bool {
        true
    }

    open spec fn from_spec(x: AFReg) -> u16 {
        x.value()
    }
}

/// A pair built from a word reads back as that word, and a pair read as a
/// word and rebuilt from it is the same pair.
pub proof fn afreg_round_trip(x: u16, r: AFReg)
    ensures
        AFReg::of_word(x).value() == x,
        AFReg::of_word(r.value()) == r,
{
    lemma_word_bytes(x);
    lemma_bytes_word(r.bytes[0], r.bytes[1]);
    assert(AFReg::of_word(r.value()).bytes =~= r.bytes);
}

} // verus!
