//! Wire codec: byte-order-aware encoding and decoding of 8/16/32-bit
//! integers and computation of 4-byte alignment padding. This layer has
//! no protocol knowledge.
#[allow(unused_imports)]
use vstd::prelude::*;

verus! {

use crate::types::ByteOrder;

/// The number of zero bytes that round a byte count of `n` up to the
/// next multiple of 4.
pub open spec fn spec_pad(n: int) -> int {
    (4 - (n % 4)) % 4
}

/// Returns the number of zero bytes required after a field of `val`
/// bytes so that the next field begins on a 4-byte boundary.
pub fn pad(val: usize) -> (r: usize)
    ensures
        r == spec_pad(val as int),
        (val as int + r as int) % 4 == 0,
        r < 4,
{
    proof {
        lemma_pad_properties(val as int);
    }
    (4 - (val % 4)) % 4
}

/// Padding rounds any non-negative byte count up to a multiple of 4 and
/// never adds 4 or more bytes.
pub proof fn lemma_pad_properties(n: int)
    requires
        n >= 0,
    ensures
        0 <= spec_pad(n) < 4,
        (n + spec_pad(n)) % 4 == 0,
{
    let m = n % 4;
    assert(0 <= m < 4);
    if m == 0 {
        assert((n + spec_pad(n)) % 4 == 0);
    } else {
        assert(spec_pad(n) == 4 - m);
        assert((n + (4 - m)) % 4 == 0) by {
            vstd::arithmetic::div_mod::lemma_add_mod_noop(n, 4 - m, 4);
            assert((4 - m) % 4 == 4 - m);
            assert((m + (4 - m)) % 4 == 0);
        }
    }
}

/// The wire form of an 8-bit value: a single byte, the same under
/// either order.
pub open spec fn spec_u8_bytes(v: u8) -> Seq<u8> {
    seq![v]
}

/// The wire form of a 16-bit value under `order`: least-significant
/// byte first for `LsbFirst`, most-significant byte first for
/// `MsbFirst`.
pub open spec fn spec_u16_bytes(v: u16, order: ByteOrder) -> Seq<u8> {
    let le = vstd::bytes::spec_u16_to_le_bytes(v);
    match order {
        ByteOrder::LsbFirst => le,
        ByteOrder::MsbFirst => seq![le[1], le[0]],
    }
}

/// The 16-bit value that a two-byte wire sequence denotes under `order`.
pub open spec fn spec_u16_value(b: Seq<u8>, order: ByteOrder) -> u16
    recommends
        b.len() == 2,
{
    match order {
        ByteOrder::LsbFirst => vstd::bytes::spec_u16_from_le_bytes(b),
        ByteOrder::MsbFirst => vstd::bytes::spec_u16_from_le_bytes(seq![b[1], b[0]]),
    }
}

/// The wire form of a 32-bit value under `order`.
pub open spec fn spec_u32_bytes(v: u32, order: ByteOrder) -> Seq<u8> {
    let le = vstd::bytes::spec_u32_to_le_bytes(v);
    match order {
        ByteOrder::LsbFirst => le,
        ByteOrder::MsbFirst => seq![le[3], le[2], le[1], le[0]],
    }
}

/// The 32-bit value that a four-byte wire sequence denotes under `order`.
pub open spec fn spec_u32_value(b: Seq<u8>, order: ByteOrder) -> u32
    recommends
        b.len() == 4,
{
    match order {
        ByteOrder::LsbFirst => vstd::bytes::spec_u32_from_le_bytes(b),
        ByteOrder::MsbFirst => vstd::bytes::spec_u32_from_le_bytes(
            seq![b[3], b[2], b[1], b[0]],
        ),
    }
}

/// Encoding then decoding any 16-bit value under a fixed order returns
/// the original value.
pub proof fn lemma_u16_round_trip(v: u16, order: ByteOrder)
    ensures
        spec_u16_bytes(v, order).len() == 2,
        spec_u16_value(spec_u16_bytes(v, order), order) == v,
{
    vstd::bytes::lemma_auto_spec_u16_to_from_le_bytes();
    let le = vstd::bytes::spec_u16_to_le_bytes(v);
    match order {
        ByteOrder::LsbFirst => {
        },
        ByteOrder::MsbFirst => {
            let b = seq![le[1], le[0]];
            assert(seq![b[1], b[0]] =~= le);
        },
    }
}

/// Encoding then decoding any 32-bit value under a fixed order returns
/// the original value.
pub proof fn lemma_u32_round_trip(v: u32, order: ByteOrder)
    ensures
        spec_u32_bytes(v, order).len() == 4,
        spec_u32_value(spec_u32_bytes(v, order), order) == v,
{
    vstd::bytes::lemma_auto_spec_u32_to_from_le_bytes();
    let le = vstd::bytes::spec_u32_to_le_bytes(v);
    match order {
        ByteOrder::LsbFirst => {
        },
        ByteOrder::MsbFirst => {
            let b = seq![le[3], le[2], le[1], le[0]];
            assert(seq![b[3], b[2], b[1], b[0]] =~= le);
        },
    }
}

/// Emits the wire bytes of an 8-bit value. The order is accepted for
/// uniformity with the wider encoders; a single byte has only one form.
pub fn encode_u8(value: u8, order: ByteOrder) -> (r: Vec<u8>)
    ensures
        r@ == spec_u8_bytes(value),
{
    let _ = order;
    let mut r: Vec<u8> = Vec::new();
    r.push(value);
    proof {
        assert(r@ =~= seq![value]);
    }
    r
}

/// Emits the two wire bytes of a 16-bit value under `order`.
pub fn encode_u16(value: u16, order: ByteOrder) -> (r: Vec<u8>)
    ensures
        r@ == spec_u16_bytes(value, order),
        r@.len() == 2,
{
    let le = vstd::bytes::u16_to_le_bytes(value);
    match order {
        ByteOrder::LsbFirst => le,
        ByteOrder::MsbFirst => {
            let mut r: Vec<u8> = Vec::new();
            r.push(le[1]);
            r.push(le[0]);
            proof {
                assert(r@ =~= seq![le@[1], le@[0]]);
            }
            r
        },
    }
}

/// Emits the four wire bytes of a 32-bit value under `order`.
pub fn encode_u32(value: u32, order: ByteOrder) -> (r: Vec<u8>)
    ensures
        r@ == spec_u32_bytes(value, order),
        r@.len() == 4,
{
    let le = vstd::bytes::u32_to_le_bytes(value);
    match order {
        ByteOrder::LsbFirst => le,
        ByteOrder::MsbFirst => {
            let mut r: Vec<u8> = Vec::new();
            r.push(le[3]);
            r.push(le[2]);
            r.push(le[1]);
            r.push(le[0]);
            proof {
                assert(r@ =~= seq![le@[3], le@[2], le@[1], le@[0]]);
            }
            r
        },
    }
}

/// Relies on byteorder::LittleEndian::read_u16: it reads the first two
/// bytes of `buf` as a little-endian unsigned integer, and panics only
/// when `buf.len() < 2`.
#[verifier::external_body]
fn le_read_u16(buf: &[u8]) -> (r: u16)
    requires
        buf@.len() >= 2,
    ensures
        r == vstd::bytes::spec_u16_from_le_bytes(buf@.subrange(0, 2)),
{
    <byteorder::LittleEndian as byteorder::ByteOrder>::read_u16(buf)
}

/// Relies on byteorder::BigEndian::read_u16: it reads the first two
/// bytes of `buf` with the first byte most significant, and panics only
/// when `buf.len() < 2`.
#[verifier::external_body]
fn be_read_u16(buf: &[u8]) -> (r: u16)
    requires
        buf@.len() >= 2,
    ensures
        r == vstd::bytes::spec_u16_from_le_bytes(seq![buf@[1], buf@[0]]),
{
    <byteorder::BigEndian as byteorder::ByteOrder>::read_u16(buf)
}

/// Relies on byteorder::LittleEndian::read_u32: it reads the first four
/// bytes of `buf` as a little-endian unsigned integer, and panics only
/// when `buf.len() < 4`.
#[verifier::external_body]
fn le_read_u32(buf: &[u8]) -> (r: u32)
    requires
        buf@.len() >= 4,
    ensures
        r == vstd::bytes::spec_u32_from_le_bytes(buf@.subrange(0, 4)),
{
    <byteorder::LittleEndian as byteorder::ByteOrder>::read_u32(buf)
}

/// Relies on byteorder::BigEndian::read_u32: it reads the first four
/// bytes of `buf` with the first byte most significant, and panics only
/// when `buf.len() < 4`.
#[verifier::external_body]
fn be_read_u32(buf: &[u8]) -> (r: u32)
    requires
        buf@.len() >= 4,
    ensures
        r == vstd::bytes::spec_u32_from_le_bytes(seq![buf@[3], buf@[2], buf@[1], buf@[0]]),
{
    <byteorder::BigEndian as byteorder::ByteOrder>::read_u32(buf)
}

/// Reads the 16-bit field that begins at byte `i` of `bytes`.
pub fn u16_at(bytes: &[u8], i: usize, order: ByteOrder) -> (r: u16)
    requires
        i + 2 <= bytes@.len(),
    ensures
        r == spec_u16_value(bytes@.subrange(i as int, i as int + 2), order),
{
    let _len: usize = bytes.len();
    let sub = vstd::slice::slice_subrange(bytes, i, i + 2);
    proof {
        assert(sub@.subrange(0, 2) =~= sub@);
    }
    match order {
        ByteOrder::LsbFirst => le_read_u16(sub),
        ByteOrder::MsbFirst => be_read_u16(sub),
    }
}

/// Reads the 32-bit field that begins at byte `i` of `bytes`.
pub fn u32_at(bytes: &[u8], i: usize, order: ByteOrder) -> (r: u32)
    requires
        i + 4 <= bytes@.len(),
    ensures
        r == spec_u32_value(bytes@.subrange(i as int, i as int + 4), order),
{
    let _len: usize = bytes.len();
    let sub = vstd::slice::slice_subrange(bytes, i, i + 4);
    proof {
        assert(sub@.subrange(0, 4) =~= sub@);
    }
    match order {
        ByteOrder::LsbFirst => le_read_u32(sub),
        ByteOrder::MsbFirst => be_read_u32(sub),
    }
}

/// A failure of the codec alone: the bytes on hand end before the width
/// of the field being decoded.
#[derive(Clone, Copy, Debug, PartialEq, Eq, Structural)]
pub enum WireError {
    TruncatedRead { expected: usize, available: usize },
}

/// Decodes the 8-bit field at the front of `bytes`. The order is
/// accepted for uniformity; a single byte has only one reading.
pub fn decode_u8(bytes: &[u8], order: ByteOrder) -> (r: Result<u8, WireError>)
    ensures
        bytes@.len() >= 1 ==> r == Ok::<u8, WireError>(bytes@[0]),
        bytes@.len() == 0 ==> r == Err::<u8, WireError>(
            WireError::TruncatedRead { expected: 1, available: 0 },
        ),
{
    let _ = order;
    if bytes.len() >= 1 {
        Ok(*vstd::slice::slice_index_get(bytes, 0))
    } else {
        Err(WireError::TruncatedRead { expected: 1, available: 0 })
    }
}

/// Decodes the 16-bit field at the front of `bytes` under `order`;
/// inverse of `encode_u16`.
pub fn decode_u16(bytes: &[u8], order: ByteOrder) -> (r: Result<u16, WireError>)
    ensures
        bytes@.len() >= 2 ==> r == Ok::<u16, WireError>(
            spec_u16_value(bytes@.subrange(0, 2), order),
        ),
        bytes@.len() < 2 ==> r == Err::<u16, WireError>(
            WireError::TruncatedRead { expected: 2, available: bytes@.len() as usize },
        ),
{
    if bytes.len() >= 2 {
        Ok(u16_at(bytes, 0, order))
    } else {
        Err(WireError::TruncatedRead { expected: 2, available: bytes.len() })
    }
}

/// Decodes the 32-bit field at the front of `bytes` under `order`;
/// inverse of `encode_u32`.
pub fn decode_u32(bytes: &[u8], order: ByteOrder) -> (r: Result<u32, WireError>)
    ensures
        bytes@.len() >= 4 ==> r == Ok::<u32, WireError>(
            spec_u32_value(bytes@.subrange(0, 4), order),
        ),
        bytes@.len() < 4 ==> r == Err::<u32, WireError>(
            WireError::TruncatedRead { expected: 4, available: bytes@.len() as usize },
        ),
{
    if bytes.len() >= 4 {
        Ok(u32_at(bytes, 0, order))
    } else {
        Err(WireError::TruncatedRead { expected: 4, available: bytes.len() })
    }
}

/// Returns `n` zero bytes: the padding and reserved filler of the wire
/// format.
pub fn zero_bytes(n: usize) -> (r: Vec<u8>)
    ensures
        r@ =~= Seq::new(n as nat, |i: int| 0u8),
{
    let mut r: Vec<u8> = Vec::new();
    let mut k: usize = 0;
    while k < n
        invariant
            k <= n,
            r@ =~= Seq::new(k as nat, |i: int| 0u8),
        decreases n - k,
    {
        r.push(0u8);
        k = k + 1;
        proof {
            assert(r@ =~= Seq::new(k as nat, |i: int| 0u8));
        }
    }
    r
}

} // verus!
