//! Integers as the bytes they occupy in a buffer.
//!
//! Data that is uploaded to the GPU is handed over as raw bytes in the
//! machine's own byte order. This module says what those bytes are and
//! obtains them.

use vstd::prelude::*;

verus! {

/// The order in which the bytes of an integer lie in memory.
#[derive(Clone, Copy, Debug, PartialEq, Eq, Structural)]
pub enum ByteOrder {
    /// Least significant byte first.
    LittleEndian,
    /// Most significant byte first.
    BigEndian,
}

/// The value of a one in the byte of significance `k`, for `k` from 0 to 3.
pub open spec fn weight(k: int) -> int {
    if k == 0 {
        1
    } else if k == 1 {
        0x100
    } else if k == 2 {
        0x1_0000
    } else {
        0x100_0000
    }
}

/// The byte of `value` with significance `k`, where 0 is the least
/// significant.
pub open spec fn byte_at(value: int, k: int) -> u8 {
    ((value / weight(k)) % 256) as u8
}

/// The significance of the byte at position `p` of an integer that is
/// `width` bytes wide.
pub open spec fn significance(order: ByteOrder, width: int, p: int) -> int {
    match order {
        ByteOrder::LittleEndian => p,
        ByteOrder::BigEndian => width - 1 - p,
    }
}

/// The bytes of a run of 16-bit integers, two for each, in the given order.
pub open spec fn encode_u16s(values: Seq<u16>, order: ByteOrder) -> Seq<u8> {
    Seq::new(
        2 * values.len(),
        |i: int| byte_at(values[i / 2] as int, significance(order, 2, i % 2)),
    )
}

/// The bytes of a run of 32-bit integers, four for each, in the given order.
pub open spec fn encode_u32s(values: Seq<u32>, order: ByteOrder) -> Seq<u8> {
    Seq::new(
        4 * values.len(),
        |i: int| byte_at(values[i / 4] as int, significance(order, 4, i % 4)),
    )
}

/// The 16-bit integer that two bytes in the given order stand for.
pub open spec fn decode_u16(bytes: Seq<u8>, start: int, order: ByteOrder) -> int {
    bytes[start] * weight(significance(order, 2, 0)) + bytes[start + 1] * weight(
        significance(order, 2, 1),
    )
}

/// The 32-bit integer that four bytes in the given order stand for.
pub open spec fn decode_u32(bytes: Seq<u8>, start: int, order: ByteOrder) -> int {
    bytes[start] * weight(significance(order, 4, 0)) + bytes[start + 1] * weight(
        significance(order, 4, 1),
    ) + bytes[start + 2] * weight(significance(order, 4, 2)) + bytes[start + 3] * weight(
        significance(order, 4, 3),
    )
}

/// Reading an encoded run of 16-bit integers back gives the integers.
pub proof fn lemma_decode_encode_u16s(values: Seq<u16>, order: ByteOrder, j: int)
    requires
        0 <= j < values.len(),
    ensures
        decode_u16(encode_u16s(values, order), 2 * j, order) == values[j],
{
    let bytes = encode_u16s(values, order);
    let v = values[j] as int;
    assert((2 * j) / 2 == j && (2 * j) % 2 == 0);
    assert((2 * j + 1) / 2 == j && (2 * j + 1) % 2 == 1);
    assert(bytes[2 * j] == byte_at(v, significance(order, 2, 0)));
    assert(bytes[2 * j + 1] == byte_at(v, significance(order, 2, 1)));
    assert(v == (v % 256) + 0x100 * ((v / 0x100) % 256));
}

/// Reading an encoded run of 32-bit integers back gives the integers.
pub proof fn lemma_decode_encode_u32s(values: Seq<u32>, order: ByteOrder, j: int)
    requires
        0 <= j < values.len(),
    ensures
        decode_u32(encode_u32s(values, order), 4 * j, order) == values[j],
{
    let bytes = encode_u32s(values, order);
    let v = values[j] as int;
    assert((4 * j) / 4 == j && (4 * j) % 4 == 0);
    assert((4 * j + 1) / 4 == j && (4 * j + 1) % 4 == 1);
    assert((4 * j + 2) / 4 == j && (4 * j + 2) % 4 == 2);
    assert((4 * j + 3) / 4 == j && (4 * j + 3) % 4 == 3);
    assert(bytes[4 * j] == byte_at(v, significance(order, 4, 0)));
    assert(bytes[4 * j + 1] == byte_at(v, significance(order, 4, 1)));
    assert(bytes[4 * j + 2] == byte_at(v, significance(order, 4, 2)));
    assert(bytes[4 * j + 3] == byte_at(v, significance(order, 4, 3)));
    assert(v == (v % 256) + 0x100 * ((v / 0x100) % 256) + 0x1_0000 * ((v / 0x1_0000) % 256)
        + 0x100_0000 * ((v / 0x100_0000) % 256));
}

/// `bytes` holds the 16-bit integers `values` in one of the two byte orders.
pub open spec fn holds_u16s(bytes: Seq<u8>, values: Seq<u16>) -> bool {
    bytes == encode_u16s(values, ByteOrder::LittleEndian) || bytes == encode_u16s(
        values,
        ByteOrder::BigEndian,
    )
}

/// `bytes` holds the 32-bit integers `values` in one of the two byte orders.
pub open spec fn holds_u32s(bytes: Seq<u8>, values: Seq<u32>) -> bool {
    bytes == encode_u32s(values, ByteOrder::LittleEndian) || bytes == encode_u32s(
        values,
        ByteOrder::BigEndian,
    )
}

/// The memory of a slice of 16-bit integers, copied out byte by byte.
///
/// Calls `bytemuck::cast_slice` from `u16` to `u8`, which views the same
/// memory as bytes; the cast to bytes cannot fail. Trusted: the result has
/// two bytes for each integer, and they are the integer's bytes in the byte
/// order of the machine, which is the same for all of them.
#[verifier::external_body]
pub(crate) fn cast_u16s(values: &[u16]) -> (bytes: Vec<u8>)
    ensures
        holds_u16s(bytes@, values@),
{
    bytemuck::cast_slice::<u16, u8>(values).to_vec()
}

/// The memory of a slice of 32-bit integers, copied out byte by byte.
///
/// Calls `bytemuck::cast_slice` from `u32` to `u8`, which views the same
/// memory as bytes; the cast to bytes cannot fail. Trusted: the result has
/// four bytes for each integer, and they are the integer's bytes in the byte
/// order of the machine, which is the same for all of them.
#[verifier::external_body]
pub(crate) fn cast_u32s(values: &[u32]) -> (bytes: Vec<u8>)
    ensures
        holds_u32s(bytes@, values@),
{
    bytemuck::cast_slice::<u32, u8>(values).to_vec()
}

} // verus!
