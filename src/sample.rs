//! The 9-byte burst read of the data registers and its 5-byte packed form.
//!
//! A raw response is: a discarded status byte, then X, Y and Z as (low byte,
//! high byte), then a fixed trailer pattern, then a byte whose bits 0..6 hold
//! the device FIFO depth. Each high byte carries 5 significant bits, and its
//! top four bits must be a uniform sign extension.

use vstd::prelude::*;

verus! {

/// Length of a burst read of the data registers, status byte included.
pub const RAW_LEN: usize = 9;

/// Length of one packed sample.
pub const PACKED_LEN: usize = 5;

/// The value the trailer byte must hold for a response to be trusted.
pub const TRAILER_PATTERN: u8 = 0x90;

/// Largest FIFO depth the device can report.
pub const FIFO_CAPACITY: u8 = 32;

/// The top nibble of a high byte is a valid sign extension.
pub open spec fn high_ok(h: u8) -> bool {
    (h & 0xf0) == 0 || (h & 0xf0) == 0xf0
}

/// The FIFO depth field of a trailer byte.
pub open spec fn fifo_field(t: u8) -> u8 {
    t & 0x7f
}

/// A 9-byte response whose axes, trailer and FIFO depth all check out.
pub open spec fn raw_valid(d: Seq<u8>) -> bool {
    &&& d.len() == RAW_LEN
    &&& high_ok(d[2])
    &&& high_ok(d[4])
    &&& high_ok(d[6])
    &&& d[7] == TRAILER_PATTERN
    &&& fifo_field(d[8]) <= FIFO_CAPACITY
}

/// The packed layout of bytes 1..6 of a raw response: three low bytes, then
/// X's and Y's 5 high bits, with Z's 5 high bits split 3 + 2 above them.
pub open spec fn pack_spec(d: Seq<u8>) -> Seq<u8> {
    seq![
        d[1],
        d[3],
        d[5],
        (d[2] & 0x1f) | (d[6] << 5u8),
        (d[4] & 0x1f) | ((d[6] << 2u8) & 0x60),
    ]
}

/// Placeholder packed in place of a response that fails validation.
pub open spec fn sentinel() -> Seq<u8> {
    pack_spec(seq![0xffu8, 0xff, 0xff, 0xff, 0xff, 0xff, 0xff])
}

/// What a response contributes to the stream: its packed form when valid,
/// the sentinel otherwise.
pub open spec fn sample_of(d: Seq<u8>) -> Seq<u8> {
    if raw_valid(d) {
        pack_spec(d)
    } else {
        sentinel()
    }
}

/// The FIFO depth a response reports, or 0 when it fails validation.
pub open spec fn fifo_of(d: Seq<u8>) -> u8 {
    if raw_valid(d) {
        fifo_field(d[8])
    } else {
        0
    }
}

/// The signed reading held in a low byte and a sign-extended high byte.
pub open spec fn axis_value(lo: u8, hi: u8) -> int {
    (hi as i8) as int * 256 + lo as int
}

/// The 13-bit two's-complement value of 5 high bits and a low byte.
pub open spec fn field13(lo: u8, hi5: u8) -> int {
    if hi5 & 0x10 == 0 {
        (hi5 & 0x1f) as int * 256 + lo as int
    } else {
        (hi5 & 0x1f) as int * 256 + lo as int - 8192
    }
}

/// Z's 5 high bits, reassembled from the two packed bytes that carry them.
pub open spec fn packed_z_high(b3: u8, b4: u8) -> u8 {
    (b3 >> 5u8) | ((b4 >> 2u8) & 0x18)
}

/// The X, Y and Z readings of a packed sample.
pub open spec fn unpack_spec(p: Seq<u8>) -> (int, int, int) {
    (field13(p[0], p[3] & 0x1f), field13(p[1], p[4] & 0x1f), field13(p[2], packed_z_high(p[3], p[4])))
}

/// The X, Y and Z readings of a raw response.
pub open spec fn raw_axes(d: Seq<u8>) -> (int, int, int) {
    (axis_value(d[1], d[2]), axis_value(d[3], d[4]), axis_value(d[5], d[6]))
}

proof fn lemma_axis_field(lo: u8, hi: u8)
    requires
        high_ok(hi),
    ensures
        field13(lo, hi & 0x1f) == axis_value(lo, hi),
{
    assert((hi & 0xf0) == 0 ==> (hi as i8) as int == (hi & 0x1f) as int && (hi & 0x1f) & 0x10 == 0)
        by (bit_vector);
    assert((hi & 0xf0) == 0xf0 ==> (hi as i8) as int == (hi & 0x1f) as int - 32 && (hi & 0x1f) & 0x10
        != 0) by (bit_vector);
    assert((hi & 0x1f) & 0x1f == hi & 0x1f) by (bit_vector);
}

/// Packing a valid response and unpacking the result gives back its X, Y and
/// Z readings exactly.
pub proof fn lemma_pack_round_trip(d: Seq<u8>)
    requires
        raw_valid(d),
    ensures
        unpack_spec(pack_spec(d)) == raw_axes(d),
{
    let (x_hi, y_hi, z_hi) = (d[2], d[4], d[6]);
    let p = pack_spec(d);
    let b3 = (x_hi & 0x1f) | (z_hi << 5u8);
    let b4 = (y_hi & 0x1f) | ((z_hi << 2u8) & 0x60);
    assert(b3 & 0x1f == x_hi & 0x1f) by (bit_vector)
        requires
            b3 == (x_hi & 0x1f) | (z_hi << 5u8),
    ;
    assert(b4 & 0x1f == y_hi & 0x1f) by (bit_vector)
        requires
            b4 == (y_hi & 0x1f) | ((z_hi << 2u8) & 0x60),
    ;
    assert(packed_z_high(b3, b4) == z_hi & 0x1f) by (bit_vector)
        requires
            b3 == (x_hi & 0x1f) | (z_hi << 5u8),
            b4 == (y_hi & 0x1f) | ((z_hi << 2u8) & 0x60),
    ;
    lemma_axis_field(d[1], x_hi);
    lemma_axis_field(d[3], y_hi);
    lemma_axis_field(d[5], z_hi);
}

/// Every response that fails validation, whatever the reason, contributes the
/// same bytes: the sentinel, `ff ff ff ff 7f`.
pub proof fn lemma_sentinel_stable(a: Seq<u8>, b: Seq<u8>)
    requires
        a.len() == RAW_LEN,
        b.len() == RAW_LEN,
        !raw_valid(a),
        !raw_valid(b),
    ensures
        sample_of(a) == sample_of(b),
        sample_of(a) == seq![0xffu8, 0xff, 0xff, 0xff, 0x7f],
{
    assert((0xffu8 & 0x1f) | (0xffu8 << 5u8) == 0xff) by (bit_vector);
    assert((0xffu8 & 0x1f) | ((0xffu8 << 2u8) & 0x60) == 0x7f) by (bit_vector);
    assert(sentinel() =~= seq![0xffu8, 0xff, 0xff, 0xff, 0x7f]);
}

/// Checks a 9-byte response: sign extensions, trailer pattern, FIFO depth.
pub fn is_valid(d: &[u8]) -> (r: bool)
    requires
        d@.len() == RAW_LEN,
    ensures
        r == raw_valid(d@),
{
    let ok_hi = |h: u8| -> (r: bool)
        ensures
            r == high_ok(h),
        { (h & 0xf0) == 0 || (h & 0xf0) == 0xf0 };
    ok_hi(d[2]) && ok_hi(d[4]) && ok_hi(d[6]) && d[7] == TRAILER_PATTERN && (d[8] & 0x7f)
        <= FIFO_CAPACITY
}

/// The FIFO depth a response reports, 0 when it fails validation.
pub fn fifo_depth(d: &[u8]) -> (r: u8)
    requires
        d@.len() == RAW_LEN,
    ensures
        r == fifo_of(d@),
{
    if is_valid(d) {
        d[8] & 0x7f
    } else {
        0
    }
}

fn sign_extend13(lo: u8, hi5: u8) -> (r: i16)
    requires
        hi5 < 32,
    ensures
        r as int == field13(lo, hi5),
{
    assert(hi5 & 0x1f == hi5) by (bit_vector)
        requires
            hi5 < 32,
    ;
    let v: i16 = (hi5 as i16) * 256 + (lo as i16);
    if hi5 & 0x10 == 0 {
        v
    } else {
        v - 8192
    }
}

/// Recovers the X, Y and Z readings from a packed sample.
pub fn unpack(p: &[u8]) -> (r: (i16, i16, i16))
    requires
        p@.len() == PACKED_LEN,
    ensures
        (r.0 as int, r.1 as int, r.2 as int) == unpack_spec(p@),
{
    let (b3, b4) = (p[3], p[4]);
    assert(b3 & 0x1f < 32 && b4 & 0x1f < 32 && packed_z_high(b3, b4) < 32) by (bit_vector);
    let x = sign_extend13(p[0], b3 & 0x1f);
    let y = sign_extend13(p[1], b4 & 0x1f);
    let z = sign_extend13(p[2], (b3 >> 5) | ((b4 >> 2) & 0x18));
    (x, y, z)
}

} // verus!
