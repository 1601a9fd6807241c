//! The binary value codec: byte-exact encoding of [`AMQPValue`]s into a
//! caller-supplied buffer of fixed size.
//!
//! Integers are written big-endian; `Float`/`Double` write their IEEE-754 bit
//! patterns. Field arrays and field tables carry a 4-byte length prefix that
//! equals the exact byte count of the payload written after it; the encoder
//! reserves those 4 bytes, encodes the payload, then patches the reserved
//! position once the true length is known (position-based backpatch, which the
//! mutable random-access buffer makes natural).
//!
//! Every generator returns the position after what it wrote, or
//! [`GenError::BufferTooSmall`] exactly when the value does not fit at the
//! given position. Encoding a short string longer than 255 bytes is a caller
//! contract violation surfaced as the distinct hard failure
//! [`GenError::StringTooLong`], never by truncating.

use vstd::prelude::*;
use vstd::utf8::encode_utf8;

use crate::flags::{flags_bytes, AMQPFlags};
use crate::types::{AMQPType, DecimalValue};
use crate::value::{
    entry_key_bytes, lemma_table_map_determines_entries, sorted_keys, AMQPValue, FieldTable,
};

verus! {

/// Why an encoding call failed.
#[derive(Clone, Copy, Debug, PartialEq, Eq, Structural)]
pub enum GenError {
    /// The value does not fit in the buffer at the given position; the caller
    /// may retry with a larger buffer.
    BufferTooSmall,
    /// A short string was longer than 255 bytes: a caller contract violation,
    /// not a transient status.
    StringTooLong,
}

/// `orig` with `s` written at `pos`: everything before `pos` and after
/// `pos + s.len()` keeps its old bytes.
pub open spec fn spliced(orig: Seq<u8>, pos: int, s: Seq<u8>) -> Seq<u8> {
    orig.take(pos) + s + orig.skip(pos + s.len())
}

/// Writing `s1` at `pos` and then `s2` right after it writes `s1 + s2` at
/// `pos`.
pub proof fn lemma_spliced_concat(orig: Seq<u8>, pos: int, s1: Seq<u8>, s2: Seq<u8>)
    requires
        0 <= pos,
        pos + s1.len() + s2.len() <= orig.len(),
    ensures
        spliced(spliced(orig, pos, s1), pos + s1.len(), s2) == spliced(orig, pos, s1 + s2),
{
    assert(spliced(spliced(orig, pos, s1), pos + s1.len(), s2) =~= spliced(orig, pos, s1 + s2));
}

/// Everything strictly before `pos` keeps its old bytes: what a failed
/// write promises about the buffer (a composite value may have been partly
/// written at and after `pos` before the buffer ran out).
pub open spec fn frame_before(orig: Seq<u8>, now: Seq<u8>, pos: int) -> bool {
    forall|k: int| 0 <= k < pos && k < orig.len() ==> now[k] == orig[k]
}

/// The unsigned two's-complement image of a signed byte.
pub open spec fn u8_of_i8(x: i8) -> u8 {
    if x >= 0 {
        x as u8
    } else {
        (x + 0x100) as u8
    }
}

/// The unsigned two's-complement image of a signed 16-bit integer.
pub open spec fn u16_of_i16(x: i16) -> u16 {
    if x >= 0 {
        x as u16
    } else {
        (x + 0x10000) as u16
    }
}

/// The unsigned two's-complement image of a signed 32-bit integer.
pub open spec fn u32_of_i32(x: i32) -> u32 {
    if x >= 0 {
        x as u32
    } else {
        (x + 0x100000000) as u32
    }
}

/// The unsigned two's-complement image of a signed 64-bit integer.
pub open spec fn u64_of_i64(x: i64) -> u64 {
    if x >= 0 {
        x as u64
    } else {
        (x + 0x10000000000000000) as u64
    }
}

/// Big-endian bytes of a 16-bit integer.
pub open spec fn be16(x: u16) -> Seq<u8> {
    seq![(x / 0x100) as u8, (x % 0x100) as u8]
}

/// Big-endian bytes of a 32-bit integer.
pub open spec fn be32(x: u32) -> Seq<u8> {
    seq![
        (x / 0x1000000) as u8,
        ((x / 0x10000) % 0x100) as u8,
        ((x / 0x100) % 0x100) as u8,
        (x % 0x100) as u8,
    ]
}

/// Big-endian bytes of a 64-bit integer.
pub open spec fn be64(x: u64) -> Seq<u8> {
    seq![
        (x / 0x100000000000000) as u8,
        ((x / 0x1000000000000) % 0x100) as u8,
        ((x / 0x10000000000) % 0x100) as u8,
        ((x / 0x100000000) % 0x100) as u8,
        ((x / 0x1000000) % 0x100) as u8,
        ((x / 0x10000) % 0x100) as u8,
        ((x / 0x100) % 0x100) as u8,
        (x % 0x100) as u8,
    ]
}

/// The value a 4-byte big-endian prefix denotes.
pub open spec fn be32_value(s: Seq<u8>) -> int {
    s[0] * 0x1000000 + s[1] * 0x10000 + s[2] * 0x100 + s[3]
}

/// The 4-byte big-endian form is exact: it denotes the integer it was built
/// from.
pub proof fn lemma_be32_value(x: u32)
    ensures
        be32(x).len() == 4,
        be32_value(be32(x)) == x,
{
}

/// The wire byte of a value tag.
pub open spec fn tag_byte(t: AMQPType) -> u8 {
    t.spec_id() as u8
}

/// The wire form of a short string: a 1-byte length then the raw UTF-8
/// bytes. Meaningful only for strings of at most 255 bytes; longer ones are
/// rejected, never truncated.
pub open spec fn short_string_bytes(s: Seq<char>) -> Seq<u8> {
    seq![(encode_utf8(s).len() % 0x100) as u8] + encode_utf8(s)
}

/// The wire form of a long string: a 4-byte length then the raw UTF-8 bytes.
pub open spec fn long_string_bytes(s: Seq<char>) -> Seq<u8> {
    be32((encode_utf8(s).len() % 0x100000000) as u32) + encode_utf8(s)
}

/// The untyped wire bytes of a value: the payload only, no tag byte.
pub open spec fn untyped_bytes(v: AMQPValue) -> Seq<u8>
    decreases v, 0int,
{
    match v {
        AMQPValue::Boolean(b) => seq![
            if b {
                1u8
            } else {
                0u8
            },
        ],
        AMQPValue::ShortShortInt(i) => seq![u8_of_i8(i)],
        AMQPValue::ShortShortUInt(u) => seq![u],
        AMQPValue::ShortInt(i) => be16(u16_of_i16(i)),
        AMQPValue::ShortUInt(u) => be16(u),
        AMQPValue::LongInt(i) => be32(u32_of_i32(i)),
        AMQPValue::LongUInt(u) => be32(u),
        AMQPValue::LongLongInt(i) => be64(u64_of_i64(i)),
        AMQPValue::LongLongUInt(u) => be64(u),
        AMQPValue::Float(bits) => be32(bits),
        AMQPValue::Double(bits) => be64(bits),
        AMQPValue::DecimalValue(d) => seq![d.scale] + be32(d.value),
        AMQPValue::LongString(s) => long_string_bytes(s@),
        AMQPValue::FieldArray(a) => be32((arr_payload(a, 0).len() % 0x100000000) as u32)
            + arr_payload(a, 0),
        AMQPValue::Timestamp(t) => be64(t),
        AMQPValue::FieldTable(t) => be32((table_payload(t.entries, 0).len() % 0x100000000) as u32)
            + table_payload(t.entries, 0),
        AMQPValue::ByteArray(b) => be32((b@.len() % 0x100000000) as u32) + b@,
        AMQPValue::Void => Seq::empty(),
    }
}

/// The tagged wire bytes of a value: the 1-byte type tag, then the untyped
/// payload.
pub open spec fn tagged_bytes(v: AMQPValue) -> Seq<u8>
    decreases v, 1int,
{
    seq![tag_byte(v.spec_get_type())] + untyped_bytes(v)
}

/// The payload of a field array from element `i` on: each element
/// tag-encoded, in the given order.
pub open spec fn arr_payload(a: Vec<AMQPValue>, i: int) -> Seq<u8>
    decreases a, a.len() - i,
{
    if i < 0 || i >= a.len() {
        Seq::empty()
    } else {
        tagged_bytes(a[i]) + arr_payload(a, i + 1)
    }
}

/// The wire bytes of one field-table entry: the short-string key, then the
/// tag-encoded value.
pub open spec fn entry_bytes(e: (String, AMQPValue)) -> Seq<u8>
    decreases e, 1int,
{
    short_string_bytes(e.0@) + tagged_bytes(e.1)
}

/// The payload of a field table from entry `i` on, in entry order.
pub open spec fn table_payload(es: Vec<(String, AMQPValue)>, i: int) -> Seq<u8>
    decreases es, es.len() - i,
{
    if i < 0 || i >= es.len() {
        Seq::empty()
    } else {
        entry_bytes(es[i]) + table_payload(es, i + 1)
    }
}

/// A value the wire format can carry exactly: strings, byte arrays and
/// nested payloads fit their length prefixes, and table keys are unique,
/// sorted and at most 255 bytes (the shape [`FieldTable::insert`] builds).
pub open spec fn value_wf(v: AMQPValue) -> bool
    decreases v, 2int,
{
    match v {
        AMQPValue::LongString(s) => encode_utf8(s@).len() <= 0xffffffff,
        AMQPValue::ByteArray(b) => b@.len() <= 0xffffffff,
        AMQPValue::FieldArray(a) => arr_payload(a, 0).len() <= 0xffffffff && (forall|i: int|
            0 <= i < a.len() ==> value_wf(#[trigger] a[i])),
        AMQPValue::FieldTable(t) => sorted_keys(t.entries@) && table_payload(t.entries, 0).len()
            <= 0xffffffff && (forall|i: int|
            0 <= i < t.entries.len() ==> value_wf(#[trigger] t.entries[i].1)),
        _ => true,
    }
}

/// Writes one byte at `pos`.
fn write_u8(buf: &mut Vec<u8>, pos: usize, b: u8) -> (r: Result<usize, GenError>)
    ensures
        final(buf)@.len() == old(buf)@.len(),
        r is Ok <==> pos + 1 <= old(buf)@.len(),
        r matches Ok(end) ==> end == pos + 1 && final(buf)@ == spliced(
            old(buf)@,
            pos as int,
            seq![b],
        ),
        r is Err ==> r == Err::<usize, GenError>(GenError::BufferTooSmall) && final(buf)@ == old(
            buf,
        )@,
{
    if pos < buf.len() {
        buf[pos] = b;
        proof {
            assert(buf@ =~= spliced(old(buf)@, pos as int, seq![b]));
        }
        Ok(pos + 1)
    } else {
        Err(GenError::BufferTooSmall)
    }
}

/// Writes a byte slice at `pos`.
fn write_slice(buf: &mut Vec<u8>, pos: usize, src: &[u8]) -> (r: Result<usize, GenError>)
    ensures
        final(buf)@.len() == old(buf)@.len(),
        r is Ok <==> pos + src@.len() <= old(buf)@.len(),
        r matches Ok(end) ==> end == pos + src@.len() && final(buf)@ == spliced(
            old(buf)@,
            pos as int,
            src@,
        ),
        r is Err ==> r == Err::<usize, GenError>(GenError::BufferTooSmall) && final(buf)@ == old(
            buf,
        )@,
{
    if pos > buf.len() || buf.len() - pos < src.len() {
        return Err(GenError::BufferTooSmall);
    }
    let ghost orig = buf@;
    let n = buf.len();
    let mut j: usize = 0;
    while j < src.len()
        invariant
            buf@.len() == orig.len(),
            orig.len() == n,
            pos + src@.len() <= orig.len(),
            j <= src@.len(),
            buf@ == orig.take(pos as int) + src@.take(j as int) + orig.skip(pos + j),
        decreases src@.len() - j,
    {
        buf[pos + j] = src[j];
        proof {
            assert(buf@ =~= orig.take(pos as int) + src@.take(j + 1) + orig.skip(pos + j + 1));
        }
        j = j + 1;
    }
    proof {
        assert(src@.take(src@.len() as int) =~= src@);
        assert(buf@ =~= spliced(orig, pos as int, src@));
    }
    Ok(pos + src.len())
}

/// Writes a 16-bit integer big-endian at `pos`.
fn write_be16(buf: &mut Vec<u8>, pos: usize, x: u16) -> (r: Result<usize, GenError>)
    ensures
        final(buf)@.len() == old(buf)@.len(),
        r is Ok <==> pos + 2 <= old(buf)@.len(),
        r matches Ok(end) ==> end == pos + 2 && final(buf)@ == spliced(
            old(buf)@,
            pos as int,
            be16(x),
        ),
        r is Err ==> r == Err::<usize, GenError>(GenError::BufferTooSmall) && final(buf)@ == old(
            buf,
        )@,
{
    if pos > buf.len() || buf.len() - pos < 2 {
        return Err(GenError::BufferTooSmall);
    }
    buf[pos] = (x / 0x100) as u8;
    buf[pos + 1] = (x % 0x100) as u8;
    proof {
        assert(buf@ =~= spliced(old(buf)@, pos as int, be16(x)));
    }
    Ok(pos + 2)
}

/// Writes a 32-bit integer big-endian at `pos`.
fn write_be32(buf: &mut Vec<u8>, pos: usize, x: u32) -> (r: Result<usize, GenError>)
    ensures
        final(buf)@.len() == old(buf)@.len(),
        r is Ok <==> pos + 4 <= old(buf)@.len(),
        r matches Ok(end) ==> end == pos + 4 && final(buf)@ == spliced(
            old(buf)@,
            pos as int,
            be32(x),
        ),
        r is Err ==> r == Err::<usize, GenError>(GenError::BufferTooSmall) && final(buf)@ == old(
            buf,
        )@,
{
    if pos > buf.len() || buf.len() - pos < 4 {
        return Err(GenError::BufferTooSmall);
    }
    buf[pos] = (x / 0x1000000) as u8;
    buf[pos + 1] = ((x / 0x10000) % 0x100) as u8;
    buf[pos + 2] = ((x / 0x100) % 0x100) as u8;
    buf[pos + 3] = (x % 0x100) as u8;
    proof {
        assert(buf@ =~= spliced(old(buf)@, pos as int, be32(x)));
    }
    Ok(pos + 4)
}

/// Writes a 64-bit integer big-endian at `pos`.
fn write_be64(buf: &mut Vec<u8>, pos: usize, x: u64) -> (r: Result<usize, GenError>)
    ensures
        final(buf)@.len() == old(buf)@.len(),
        r is Ok <==> pos + 8 <= old(buf)@.len(),
        r matches Ok(end) ==> end == pos + 8 && final(buf)@ == spliced(
            old(buf)@,
            pos as int,
            be64(x),
        ),
        r is Err ==> r == Err::<usize, GenError>(GenError::BufferTooSmall) && final(buf)@ == old(
            buf,
        )@,
{
    if pos > buf.len() || buf.len() - pos < 8 {
        return Err(GenError::BufferTooSmall);
    }
    buf[pos] = (x / 0x100000000000000) as u8;
    buf[pos + 1] = ((x / 0x1000000000000) % 0x100) as u8;
    buf[pos + 2] = ((x / 0x10000000000) % 0x100) as u8;
    buf[pos + 3] = ((x / 0x100000000) % 0x100) as u8;
    buf[pos + 4] = ((x / 0x1000000) % 0x100) as u8;
    buf[pos + 5] = ((x / 0x10000) % 0x100) as u8;
    buf[pos + 6] = ((x / 0x100) % 0x100) as u8;
    buf[pos + 7] = (x % 0x100) as u8;
    proof {
        assert(buf@ =~= spliced(old(buf)@, pos as int, be64(x)));
    }
    Ok(pos + 8)
}

/// Emits the 1-byte tag of a type.
pub fn gen_type(buf: &mut Vec<u8>, pos: usize, t: AMQPType) -> (r: Result<usize, GenError>)
    ensures
        final(buf)@.len() == old(buf)@.len(),
        r is Ok <==> pos + 1 <= old(buf)@.len(),
        r matches Ok(end) ==> end == pos + 1 && final(buf)@ == spliced(
            old(buf)@,
            pos as int,
            seq![tag_byte(t)],
        ),
        r is Err ==> r == Err::<usize, GenError>(GenError::BufferTooSmall) && final(buf)@ == old(
            buf,
        )@,
{
    let id = t.get_id();
    write_u8(buf, pos, id as u8)
}

/// Emits a class or method id: a 16-bit big-endian integer.
pub fn gen_id(buf: &mut Vec<u8>, pos: usize, id: u16) -> (r: Result<usize, GenError>)
    ensures
        final(buf)@.len() == old(buf)@.len(),
        r is Ok <==> pos + 2 <= old(buf)@.len(),
        r matches Ok(end) ==> end == pos + 2 && final(buf)@ == spliced(
            old(buf)@,
            pos as int,
            be16(id),
        ),
        r is Err ==> r == Err::<usize, GenError>(GenError::BufferTooSmall) && final(buf)@ == old(
            buf,
        )@,
{
    write_be16(buf, pos, id)
}

/// Emits a boolean: one byte, 1 for true and 0 for false.
pub fn gen_boolean(buf: &mut Vec<u8>, pos: usize, b: bool) -> (r: Result<usize, GenError>)
    ensures
        final(buf)@.len() == old(buf)@.len(),
        r is Ok <==> pos + 1 <= old(buf)@.len(),
        r matches Ok(end) ==> end == pos + 1 && final(buf)@ == spliced(
            old(buf)@,
            pos as int,
            untyped_bytes(AMQPValue::Boolean(b)),
        ),
        r is Err ==> r == Err::<usize, GenError>(GenError::BufferTooSmall) && final(buf)@ == old(
            buf,
        )@,
{
    write_u8(
        buf,
        pos,
        if b {
            1
        } else {
            0
        },
    )
}

/// Emits a signed byte.
pub fn gen_short_short_int(buf: &mut Vec<u8>, pos: usize, i: i8) -> (r: Result<usize, GenError>)
    ensures
        final(buf)@.len() == old(buf)@.len(),
        r is Ok <==> pos + 1 <= old(buf)@.len(),
        r matches Ok(end) ==> end == pos + 1 && final(buf)@ == spliced(
            old(buf)@,
            pos as int,
            untyped_bytes(AMQPValue::ShortShortInt(i)),
        ),
        r is Err ==> r == Err::<usize, GenError>(GenError::BufferTooSmall) && final(buf)@ == old(
            buf,
        )@,
{
    let u: u8 = if i >= 0 {
        i as u8
    } else {
        ((i as i16) + 0x100) as u8
    };
    write_u8(buf, pos, u)
}

/// Emits an unsigned byte.
pub fn gen_short_short_uint(buf: &mut Vec<u8>, pos: usize, u: u8) -> (r: Result<usize, GenError>)
    ensures
        final(buf)@.len() == old(buf)@.len(),
        r is Ok <==> pos + 1 <= old(buf)@.len(),
        r matches Ok(end) ==> end == pos + 1 && final(buf)@ == spliced(
            old(buf)@,
            pos as int,
            untyped_bytes(AMQPValue::ShortShortUInt(u)),
        ),
        r is Err ==> r == Err::<usize, GenError>(GenError::BufferTooSmall) && final(buf)@ == old(
            buf,
        )@,
{
    write_u8(buf, pos, u)
}

/// Emits a signed 16-bit integer big-endian.
pub fn gen_short_int(buf: &mut Vec<u8>, pos: usize, i: i16) -> (r: Result<usize, GenError>)
    ensures
        final(buf)@.len() == old(buf)@.len(),
        r is Ok <==> pos + 2 <= old(buf)@.len(),
        r matches Ok(end) ==> end == pos + 2 && final(buf)@ == spliced(
            old(buf)@,
            pos as int,
            untyped_bytes(AMQPValue::ShortInt(i)),
        ),
        r is Err ==> r == Err::<usize, GenError>(GenError::BufferTooSmall) && final(buf)@ == old(
            buf,
        )@,
{
    let u: u16 = if i >= 0 {
        i as u16
    } else {
        ((i as i32) + 0x10000) as u16
    };
    write_be16(buf, pos, u)
}

/// Emits an unsigned 16-bit integer big-endian.
pub fn gen_short_uint(buf: &mut Vec<u8>, pos: usize, u: u16) -> (r: Result<usize, GenError>)
    ensures
        final(buf)@.len() == old(buf)@.len(),
        r is Ok <==> pos + 2 <= old(buf)@.len(),
        r matches Ok(end) ==> end == pos + 2 && final(buf)@ == spliced(
            old(buf)@,
            pos as int,
            untyped_bytes(AMQPValue::ShortUInt(u)),
        ),
        r is Err ==> r == Err::<usize, GenError>(GenError::BufferTooSmall) && final(buf)@ == old(
            buf,
        )@,
{
    write_be16(buf, pos, u)
}

/// Emits a signed 32-bit integer big-endian.
pub fn gen_long_int(buf: &mut Vec<u8>, pos: usize, i: i32) -> (r: Result<usize, GenError>)
    ensures
        final(buf)@.len() == old(buf)@.len(),
        r is Ok <==> pos + 4 <= old(buf)@.len(),
        r matches Ok(end) ==> end == pos + 4 && final(buf)@ == spliced(
            old(buf)@,
            pos as int,
            untyped_bytes(AMQPValue::LongInt(i)),
        ),
        r is Err ==> r == Err::<usize, GenError>(GenError::BufferTooSmall) && final(buf)@ == old(
            buf,
        )@,
{
    let u: u32 = if i >= 0 {
        i as u32
    } else {
        ((i as i64) + 0x100000000) as u32
    };
    write_be32(buf, pos, u)
}

/// Emits an unsigned 32-bit integer big-endian.
pub fn gen_long_uint(buf: &mut Vec<u8>, pos: usize, u: u32) -> (r: Result<usize, GenError>)
    ensures
        final(buf)@.len() == old(buf)@.len(),
        r is Ok <==> pos + 4 <= old(buf)@.len(),
        r matches Ok(end) ==> end == pos + 4 && final(buf)@ == spliced(
            old(buf)@,
            pos as int,
            untyped_bytes(AMQPValue::LongUInt(u)),
        ),
        r is Err ==> r == Err::<usize, GenError>(GenError::BufferTooSmall) && final(buf)@ == old(
            buf,
        )@,
{
    write_be32(buf, pos, u)
}

/// Emits a signed 64-bit integer big-endian.
pub fn gen_long_long_int(buf: &mut Vec<u8>, pos: usize, i: i64) -> (r: Result<usize, GenError>)
    ensures
        final(buf)@.len() == old(buf)@.len(),
        r is Ok <==> pos + 8 <= old(buf)@.len(),
        r matches Ok(end) ==> end == pos + 8 && final(buf)@ == spliced(
            old(buf)@,
            pos as int,
            untyped_bytes(AMQPValue::LongLongInt(i)),
        ),
        r is Err ==> r == Err::<usize, GenError>(GenError::BufferTooSmall) && final(buf)@ == old(
            buf,
        )@,
{
    let u: u64 = if i >= 0 {
        i as u64
    } else {
        ((i as i128) + 0x10000000000000000) as u64
    };
    write_be64(buf, pos, u)
}

/// Emits an unsigned 64-bit integer big-endian.
pub fn gen_long_long_uint(buf: &mut Vec<u8>, pos: usize, u: u64) -> (r: Result<usize, GenError>)
    ensures
        final(buf)@.len() == old(buf)@.len(),
        r is Ok <==> pos + 8 <= old(buf)@.len(),
        r matches Ok(end) ==> end == pos + 8 && final(buf)@ == spliced(
            old(buf)@,
            pos as int,
            untyped_bytes(AMQPValue::LongLongUInt(u)),
        ),
        r is Err ==> r == Err::<usize, GenError>(GenError::BufferTooSmall) && final(buf)@ == old(
            buf,
        )@,
{
    write_be64(buf, pos, u)
}

/// Emits a single-precision float as its IEEE-754 bit pattern, big-endian.
pub fn gen_float(buf: &mut Vec<u8>, pos: usize, bits: u32) -> (r: Result<usize, GenError>)
    ensures
        final(buf)@.len() == old(buf)@.len(),
        r is Ok <==> pos + 4 <= old(buf)@.len(),
        r matches Ok(end) ==> end == pos + 4 && final(buf)@ == spliced(
            old(buf)@,
            pos as int,
            untyped_bytes(AMQPValue::Float(bits)),
        ),
        r is Err ==> r == Err::<usize, GenError>(GenError::BufferTooSmall) && final(buf)@ == old(
            buf,
        )@,
{
    write_be32(buf, pos, bits)
}

/// Emits a double-precision float as its IEEE-754 bit pattern, big-endian.
pub fn gen_double(buf: &mut Vec<u8>, pos: usize, bits: u64) -> (r: Result<usize, GenError>)
    ensures
        final(buf)@.len() == old(buf)@.len(),
        r is Ok <==> pos + 8 <= old(buf)@.len(),
        r matches Ok(end) ==> end == pos + 8 && final(buf)@ == spliced(
            old(buf)@,
            pos as int,
            untyped_bytes(AMQPValue::Double(bits)),
        ),
        r is Err ==> r == Err::<usize, GenError>(GenError::BufferTooSmall) && final(buf)@ == old(
            buf,
        )@,
{
    write_be64(buf, pos, bits)
}

/// Emits a timestamp: an unsigned 64-bit integer, no range validation.
pub fn gen_timestamp(buf: &mut Vec<u8>, pos: usize, t: u64) -> (r: Result<usize, GenError>)
    ensures
        final(buf)@.len() == old(buf)@.len(),
        r is Ok <==> pos + 8 <= old(buf)@.len(),
        r matches Ok(end) ==> end == pos + 8 && final(buf)@ == spliced(
            old(buf)@,
            pos as int,
            untyped_bytes(AMQPValue::Timestamp(t)),
        ),
        r is Err ==> r == Err::<usize, GenError>(GenError::BufferTooSmall) && final(buf)@ == old(
            buf,
        )@,
{
    write_be64(buf, pos, t)
}

/// Emits a decimal value: the 1-byte scale, then the 4-byte unsigned
/// mantissa.
pub fn gen_decimal_value(buf: &mut Vec<u8>, pos: usize, d: &DecimalValue) -> (r: Result<
    usize,
    GenError,
>)
    ensures
        final(buf)@.len() == old(buf)@.len(),
        r is Ok <==> pos + 5 <= old(buf)@.len(),
        r matches Ok(end) ==> end == pos + 5 && final(buf)@ == spliced(
            old(buf)@,
            pos as int,
            untyped_bytes(AMQPValue::DecimalValue(*d)),
        ),
        r is Err ==> r == Err::<usize, GenError>(GenError::BufferTooSmall) && frame_before(
            old(buf)@,
            final(buf)@,
            pos as int,
        ),
{
    let p = match write_u8(buf, pos, d.scale) {
        Ok(p) => p,
        Err(e) => {
            return Err(e);
        },
    };
    match write_be32(buf, p, d.value) {
        Ok(end) => {
            proof {
                lemma_spliced_concat(old(buf)@, pos as int, seq![d.scale], be32(d.value));
            }
            Ok(end)
        },
        Err(e) => Err(e),
    }
}

/// Packs a flag group and emits its bytes.
pub fn gen_flags(buf: &mut Vec<u8>, pos: usize, f: &AMQPFlags) -> (r: Result<usize, GenError>)
    ensures
        final(buf)@.len() == old(buf)@.len(),
        r is Ok <==> pos + flags_bytes(f.spec_bools()).len() <= old(buf)@.len(),
        r matches Ok(end) ==> end == pos + flags_bytes(f.spec_bools()).len() && final(buf)@
            == spliced(old(buf)@, pos as int, flags_bytes(f.spec_bools())),
        r is Err ==> r == Err::<usize, GenError>(GenError::BufferTooSmall) && final(buf)@ == old(
            buf,
        )@,
{
    let bytes = f.get_bytes();
    write_slice(buf, pos, bytes.as_slice())
}

/// Emits a short string: a 1-byte length, then the raw UTF-8 bytes. A string
/// longer than 255 bytes is rejected with [`GenError::StringTooLong`], never
/// truncated.
pub fn gen_short_string(buf: &mut Vec<u8>, pos: usize, s: &str) -> (r: Result<usize, GenError>)
    ensures
        final(buf)@.len() == old(buf)@.len(),
        r == Err::<usize, GenError>(GenError::StringTooLong) <==> encode_utf8(s@).len() > 255,
        r is Ok <==> encode_utf8(s@).len() <= 255 && pos + short_string_bytes(s@).len() <= old(
            buf,
        )@.len(),
        r matches Ok(end) ==> end == pos + short_string_bytes(s@).len() && final(buf)@ == spliced(
            old(buf)@,
            pos as int,
            short_string_bytes(s@),
        ),
        r is Err ==> frame_before(old(buf)@, final(buf)@, pos as int),
{
    let b = s.as_bytes();
    if b.len() > 255 {
        return Err(GenError::StringTooLong);
    }
    let p = match write_u8(buf, pos, b.len() as u8) {
        Ok(p) => p,
        Err(e) => {
            return Err(e);
        },
    };
    match write_slice(buf, p, b) {
        Ok(end) => {
            proof {
                lemma_spliced_concat(
                    old(buf)@,
                    pos as int,
                    seq![(encode_utf8(s@).len() % 0x100) as u8],
                    encode_utf8(s@),
                );
            }
            Ok(end)
        },
        Err(e) => Err(e),
    }
}

/// Emits a long string: a 4-byte length, then the raw UTF-8 bytes.
pub fn gen_long_string(buf: &mut Vec<u8>, pos: usize, s: &str) -> (r: Result<usize, GenError>)
    requires
        encode_utf8(s@).len() <= 0xffffffff,
    ensures
        final(buf)@.len() == old(buf)@.len(),
        r is Ok <==> pos + long_string_bytes(s@).len() <= old(buf)@.len(),
        r matches Ok(end) ==> end == pos + long_string_bytes(s@).len() && final(buf)@ == spliced(
            old(buf)@,
            pos as int,
            long_string_bytes(s@),
        ),
        r is Err ==> r == Err::<usize, GenError>(GenError::BufferTooSmall) && frame_before(
            old(buf)@,
            final(buf)@,
            pos as int,
        ),
{
    let b = s.as_bytes();
    let p = match write_be32(buf, pos, b.len() as u32) {
        Ok(p) => p,
        Err(e) => {
            return Err(e);
        },
    };
    match write_slice(buf, p, b) {
        Ok(end) => {
            proof {
                lemma_spliced_concat(
                    old(buf)@,
                    pos as int,
                    be32((encode_utf8(s@).len() % 0x100000000) as u32),
                    encode_utf8(s@),
                );
            }
            Ok(end)
        },
        Err(e) => Err(e),
    }
}

/// Emits a byte array: a 4-byte length, then the raw bytes, opaque.
pub fn gen_byte_array(buf: &mut Vec<u8>, pos: usize, a: &Vec<u8>) -> (r: Result<usize, GenError>)
    requires
        a@.len() <= 0xffffffff,
    ensures
        final(buf)@.len() == old(buf)@.len(),
        r is Ok <==> pos + untyped_bytes(AMQPValue::ByteArray(*a)).len() <= old(buf)@.len(),
        r matches Ok(end) ==> end == pos + untyped_bytes(AMQPValue::ByteArray(*a)).len() && final(buf)@ == spliced(old(buf)@, pos as int, untyped_bytes(AMQPValue::ByteArray(*a))),
        r is Err ==> r == Err::<usize, GenError>(GenError::BufferTooSmall) && frame_before(
            old(buf)@,
            final(buf)@,
            pos as int,
        ),
{
    let p = match write_be32(buf, pos, a.len() as u32) {
        Ok(p) => p,
        Err(e) => {
            return Err(e);
        },
    };
    match write_slice(buf, p, a.as_slice()) {
        Ok(end) => {
            proof {
                lemma_spliced_concat(
                    old(buf)@,
                    pos as int,
                    be32((a@.len() % 0x100000000) as u32),
                    a@,
                );
            }
            Ok(end)
        },
        Err(e) => Err(e),
    }
}

/// Emits the payload of a value, with no tag byte: used where grammar
/// position already fixes the type. A zero-byte value (`Void`) succeeds at
/// any position, the buffer untouched; everything else succeeds exactly when
/// it fits.
pub fn gen_raw_value(buf: &mut Vec<u8>, pos: usize, v: &AMQPValue) -> (r: Result<usize, GenError>)
    requires
        value_wf(*v),
    ensures
        final(buf)@.len() == old(buf)@.len(),
        r is Ok <==> untyped_bytes(*v).len() == 0 || pos + untyped_bytes(*v).len() <= old(
            buf,
        )@.len(),
        r matches Ok(end) ==> end == pos + untyped_bytes(*v).len() && (pos + untyped_bytes(
            *v,
        ).len() <= old(buf)@.len() ==> final(buf)@ == spliced(
            old(buf)@,
            pos as int,
            untyped_bytes(*v),
        )),
        untyped_bytes(*v).len() == 0 ==> final(buf)@ == old(buf)@,
        r is Err ==> r == Err::<usize, GenError>(GenError::BufferTooSmall) && frame_before(
            old(buf)@,
            final(buf)@,
            pos as int,
        ),
    decreases *v, 1int,
{
    match v {
        AMQPValue::Boolean(b) => gen_boolean(buf, pos, *b),
        AMQPValue::ShortShortInt(i) => gen_short_short_int(buf, pos, *i),
        AMQPValue::ShortShortUInt(u) => gen_short_short_uint(buf, pos, *u),
        AMQPValue::ShortInt(i) => gen_short_int(buf, pos, *i),
        AMQPValue::ShortUInt(u) => gen_short_uint(buf, pos, *u),
        AMQPValue::LongInt(i) => gen_long_int(buf, pos, *i),
        AMQPValue::LongUInt(u) => gen_long_uint(buf, pos, *u),
        AMQPValue::LongLongInt(i) => gen_long_long_int(buf, pos, *i),
        AMQPValue::LongLongUInt(u) => gen_long_long_uint(buf, pos, *u),
        AMQPValue::Float(bits) => gen_float(buf, pos, *bits),
        AMQPValue::Double(bits) => gen_double(buf, pos, *bits),
        AMQPValue::DecimalValue(d) => gen_decimal_value(buf, pos, d),
        AMQPValue::LongString(s) => gen_long_string(buf, pos, s.as_str()),
        AMQPValue::FieldArray(a) => gen_field_array(buf, pos, a),
        AMQPValue::Timestamp(t) => gen_timestamp(buf, pos, *t),
        AMQPValue::FieldTable(t) => gen_field_table(buf, pos, t),
        AMQPValue::ByteArray(b) => gen_byte_array(buf, pos, b),
        AMQPValue::Void => {
            proof {
                if pos <= buf.len() {
                    assert(spliced(buf@, pos as int, Seq::<u8>::empty()) =~= buf@);
                }
            }
            Ok(pos)
        },
    }
}

/// Emits the 1-byte type tag, then the value's payload: used where the type
/// is not already known from grammar position.
pub fn gen_value(buf: &mut Vec<u8>, pos: usize, v: &AMQPValue) -> (r: Result<usize, GenError>)
    requires
        value_wf(*v),
    ensures
        final(buf)@.len() == old(buf)@.len(),
        r is Ok <==> pos + tagged_bytes(*v).len() <= old(buf)@.len(),
        r matches Ok(end) ==> end == pos + tagged_bytes(*v).len() && final(buf)@ == spliced(
            old(buf)@,
            pos as int,
            tagged_bytes(*v),
        ),
        r is Err ==> r == Err::<usize, GenError>(GenError::BufferTooSmall) && frame_before(
            old(buf)@,
            final(buf)@,
            pos as int,
        ),
    decreases *v, 2int,
{
    let t = v.get_type();
    let p = match gen_type(buf, pos, t) {
        Ok(p) => p,
        Err(e) => {
            return Err(e);
        },
    };
    match gen_raw_value(buf, p, v) {
        Ok(end) => {
            proof {
                lemma_spliced_concat(
                    old(buf)@,
                    pos as int,
                    seq![tag_byte(v.spec_get_type())],
                    untyped_bytes(*v),
                );
            }
            Ok(end)
        },
        Err(e) => Err(e),
    }
}

/// Emits one field-table entry: the short-string key, then the tag-encoded
/// value.
fn gen_field_entry(buf: &mut Vec<u8>, pos: usize, e: &(String, AMQPValue)) -> (r: Result<
    usize,
    GenError,
>)
    requires
        entry_key_bytes(*e).len() <= 255,
        value_wf(e.1),
    ensures
        final(buf)@.len() == old(buf)@.len(),
        r is Ok <==> pos + entry_bytes(*e).len() <= old(buf)@.len(),
        r matches Ok(end) ==> end == pos + entry_bytes(*e).len() && final(buf)@ == spliced(
            old(buf)@,
            pos as int,
            entry_bytes(*e),
        ),
        r is Err ==> r == Err::<usize, GenError>(GenError::BufferTooSmall) && frame_before(
            old(buf)@,
            final(buf)@,
            pos as int,
        ),
    decreases *e, 0int,
{
    let p = match gen_short_string(buf, pos, e.0.as_str()) {
        Ok(p) => p,
        Err(err) => {
            return Err(err);
        },
    };
    match gen_value(buf, p, &e.1) {
        Ok(end) => {
            proof {
                lemma_spliced_concat(
                    old(buf)@,
                    pos as int,
                    short_string_bytes(e.0@),
                    tagged_bytes(e.1),
                );
            }
            Ok(end)
        },
        Err(err) => Err(err),
    }
}

/// Emits a field array: a 4-byte payload-length prefix, then each element
/// tag-encoded in the given order. The prefix position is reserved first and
/// patched once the payload's true length is known.
pub fn gen_field_array(buf: &mut Vec<u8>, pos: usize, a: &Vec<AMQPValue>) -> (r: Result<
    usize,
    GenError,
>)
    requires
        forall|i: int| 0 <= i < a.len() ==> value_wf(#[trigger] (*a)[i]),
        arr_payload(*a, 0).len() <= 0xffffffff,
    ensures
        final(buf)@.len() == old(buf)@.len(),
        r is Ok <==> pos + untyped_bytes(AMQPValue::FieldArray(*a)).len() <= old(buf)@.len(),
        r matches Ok(end) ==> end == pos + untyped_bytes(AMQPValue::FieldArray(*a)).len() && final(buf)@ == spliced(old(buf)@, pos as int, untyped_bytes(AMQPValue::FieldArray(*a))),
        r is Err ==> r == Err::<usize, GenError>(GenError::BufferTooSmall) && frame_before(
            old(buf)@,
            final(buf)@,
            pos as int,
        ),
    decreases *a, 0int,
{
    let ghost orig = buf@;
    let n = buf.len();
    if pos > n || n - pos < 4 {
        return Err(GenError::BufferTooSmall);
    }
    let mut p: usize = pos + 4;
    let mut i: usize = 0;
    proof {
        assert(buf@.subrange(pos + 4, pos + 4) =~= Seq::<u8>::empty());
    }
    while i < a.len()
        invariant
            orig == old(buf)@,
            buf@.len() == orig.len(),
            orig.len() == n,
            pos + 4 <= p <= n,
            i <= a.len(),
            forall|k: int| 0 <= k < a.len() ==> value_wf(#[trigger] (*a)[k]),
            arr_payload(*a, 0).len() <= 0xffffffff,
            buf@.take(pos + 4) == orig.take(pos + 4),
            buf@.skip(p as int) == orig.skip(p as int),
            arr_payload(*a, 0) == buf@.subrange(pos + 4, p as int) + arr_payload(*a, i as int),
        decreases a.len() - i,
    {
        let ghost before = buf@;
        match gen_value(buf, p, &a[i]) {
            Ok(np) => {
                proof {
                    assert(buf@ == spliced(before, p as int, tagged_bytes((*a)[i as int])));
                    assert(buf@.take(pos + 4) =~= orig.take(pos + 4));
                    assert forall|k: int| np <= k < buf@.len() implies buf@[k] == orig[k] by {
                        assert(before.skip(p as int)[k - p] == before[k]);
                        assert(orig.skip(p as int)[k - p] == orig[k]);
                        assert(buf@[k] == before.skip(np as int)[k - np]);
                        assert(before.skip(np as int)[k - np] == before[k]);
                    }
                    assert(buf@.skip(np as int) =~= orig.skip(np as int));
                    assert(arr_payload(*a, i as int) == tagged_bytes((*a)[i as int]) + arr_payload(
                        *a,
                        i + 1,
                    ));
                    assert(buf@.subrange(pos + 4, np as int) =~= before.subrange(pos + 4, p as int)
                        + tagged_bytes((*a)[i as int]));
                    assert(arr_payload(*a, 0) == buf@.subrange(pos + 4, np as int) + arr_payload(
                        *a,
                        i + 1,
                    ));
                }
                p = np;
                i = i + 1;
            },
            Err(e) => {
                proof {
                    assert(arr_payload(*a, i as int) == tagged_bytes((*a)[i as int]) + arr_payload(
                        *a,
                        i + 1,
                    ));
                    assert(arr_payload(*a, 0).len() == (p - pos - 4) + arr_payload(
                        *a,
                        i as int,
                    ).len());
                    assert forall|k: int| 0 <= k < pos && k < orig.len() implies buf@[k]
                        == orig[k] by {
                        assert(before.take(pos + 4)[k] == orig.take(pos + 4)[k]);
                        assert(before[k] == orig[k]);
                        assert(buf@[k] == before[k]);
                    }
                }
                return Err(e);
            },
        }
    }
    proof {
        assert(arr_payload(*a, i as int) == Seq::<u8>::empty());
        assert(arr_payload(*a, 0) =~= buf@.subrange(pos + 4, p as int));
    }
    let plen = p - pos - 4;
    let ghost loop_buf = buf@;
    match write_be32(buf, pos, plen as u32) {
        Ok(_) => {
            proof {
                let whole = untyped_bytes(AMQPValue::FieldArray(*a));
                assert(whole == be32(plen as u32) + arr_payload(*a, 0));
                assert forall|k: int| 0 <= k < buf@.len() implies buf@[k] == spliced(
                    orig,
                    pos as int,
                    whole,
                )[k] by {
                    if k < pos {
                        assert(buf@[k] == loop_buf[k]);
                        assert(loop_buf[k] == loop_buf.take(pos + 4)[k]);
                    } else if k < pos + 4 {
                        assert(buf@[k] == be32(plen as u32)[k - pos]);
                    } else if k < p {
                        assert(buf@[k] == loop_buf[k]);
                        assert(loop_buf.subrange(pos + 4, p as int)[k - pos - 4] == loop_buf[k]);
                    } else {
                        assert(buf@[k] == loop_buf[k]);
                        assert(loop_buf.skip(p as int)[k - p] == loop_buf[k]);
                        assert(orig.skip(p as int)[k - p] == orig[k]);
                    }
                }
                assert(buf@ =~= spliced(orig, pos as int, whole));
            }
            Ok(p)
        },
        Err(e) => {
            proof {
                assert(false);
            }
            Err(e)
        },
    }
}

/// Emits a field table: a 4-byte payload-length prefix, then each entry
/// (short-string key, then tag-encoded value) in ascending key-byte order,
/// which is the order a well-formed table stores. The prefix position is
/// reserved first and patched once the payload's true length is known.
pub fn gen_field_table(buf: &mut Vec<u8>, pos: usize, t: &FieldTable) -> (r: Result<
    usize,
    GenError,
>)
    requires
        sorted_keys(t.entries@),
        forall|i: int| 0 <= i < t.entries.len() ==> value_wf(#[trigger] t.entries[i].1),
        table_payload(t.entries, 0).len() <= 0xffffffff,
    ensures
        final(buf)@.len() == old(buf)@.len(),
        r is Ok <==> pos + untyped_bytes(AMQPValue::FieldTable(*t)).len() <= old(buf)@.len(),
        r matches Ok(end) ==> end == pos + untyped_bytes(AMQPValue::FieldTable(*t)).len() && final(buf)@ == spliced(old(buf)@, pos as int, untyped_bytes(AMQPValue::FieldTable(*t))),
        r is Err ==> r == Err::<usize, GenError>(GenError::BufferTooSmall) && frame_before(
            old(buf)@,
            final(buf)@,
            pos as int,
        ),
    decreases *t, 0int,
{
    let ghost orig = buf@;
    let n = buf.len();
    if pos > n || n - pos < 4 {
        return Err(GenError::BufferTooSmall);
    }
    let mut p: usize = pos + 4;
    let mut i: usize = 0;
    proof {
        assert(buf@.subrange(pos + 4, pos + 4) =~= Seq::<u8>::empty());
    }
    while i < t.entries.len()
        invariant
            orig == old(buf)@,
            buf@.len() == orig.len(),
            orig.len() == n,
            pos + 4 <= p <= n,
            i <= t.entries.len(),
            sorted_keys(t.entries@),
            forall|k: int| 0 <= k < t.entries.len() ==> value_wf(#[trigger] t.entries[k].1),
            table_payload(t.entries, 0).len() <= 0xffffffff,
            buf@.take(pos + 4) == orig.take(pos + 4),
            buf@.skip(p as int) == orig.skip(p as int),
            table_payload(t.entries, 0) == buf@.subrange(pos + 4, p as int) + table_payload(
                t.entries,
                i as int,
            ),
        decreases t.entries.len() - i,
    {
        let ghost before = buf@;
        proof {
            assert(entry_key_bytes(t.entries[i as int]).len() <= 255);
        }
        match gen_field_entry(buf, p, &t.entries[i]) {
            Ok(np) => {
                proof {
                    assert(buf@ == spliced(before, p as int, entry_bytes(t.entries[i as int])));
                    assert(buf@.take(pos + 4) =~= orig.take(pos + 4));
                    assert forall|k: int| np <= k < buf@.len() implies buf@[k] == orig[k] by {
                        assert(before.skip(p as int)[k - p] == before[k]);
                        assert(orig.skip(p as int)[k - p] == orig[k]);
                        assert(buf@[k] == before.skip(np as int)[k - np]);
                        assert(before.skip(np as int)[k - np] == before[k]);
                    }
                    assert(buf@.skip(np as int) =~= orig.skip(np as int));
                    assert(table_payload(t.entries, i as int) == entry_bytes(t.entries[i as int])
                        + table_payload(t.entries, i + 1));
                    assert(buf@.subrange(pos + 4, np as int) =~= before.subrange(pos + 4, p as int)
                        + entry_bytes(t.entries[i as int]));
                    assert(table_payload(t.entries, 0) == buf@.subrange(pos + 4, np as int)
                        + table_payload(t.entries, i + 1));
                }
                p = np;
                i = i + 1;
            },
            Err(e) => {
                proof {
                    assert(table_payload(t.entries, i as int) == entry_bytes(t.entries[i as int])
                        + table_payload(t.entries, i + 1));
                    assert(table_payload(t.entries, 0).len() == (p - pos - 4) + table_payload(
                        t.entries,
                        i as int,
                    ).len());
                    assert forall|k: int| 0 <= k < pos && k < orig.len() implies buf@[k]
                        == orig[k] by {
                        assert(before.take(pos + 4)[k] == orig.take(pos + 4)[k]);
                        assert(before[k] == orig[k]);
                        assert(buf@[k] == before[k]);
                    }
                }
                return Err(e);
            },
        }
    }
    proof {
        assert(table_payload(t.entries, i as int) == Seq::<u8>::empty());
        assert(table_payload(t.entries, 0) =~= buf@.subrange(pos + 4, p as int));
    }
    let plen = p - pos - 4;
    let ghost loop_buf = buf@;
    match write_be32(buf, pos, plen as u32) {
        Ok(_) => {
            proof {
                let whole = untyped_bytes(AMQPValue::FieldTable(*t));
                assert(whole == be32(plen as u32) + table_payload(t.entries, 0));
                assert forall|k: int| 0 <= k < buf@.len() implies buf@[k] == spliced(
                    orig,
                    pos as int,
                    whole,
                )[k] by {
                    if k < pos {
                        assert(buf@[k] == loop_buf[k]);
                        assert(loop_buf[k] == loop_buf.take(pos + 4)[k]);
                    } else if k < pos + 4 {
                        assert(buf@[k] == be32(plen as u32)[k - pos]);
                    } else if k < p {
                        assert(buf@[k] == loop_buf[k]);
                        assert(loop_buf.subrange(pos + 4, p as int)[k - pos - 4] == loop_buf[k]);
                    } else {
                        assert(buf@[k] == loop_buf[k]);
                        assert(loop_buf.skip(p as int)[k - p] == loop_buf[k]);
                        assert(orig.skip(p as int)[k - p] == orig[k]);
                    }
                }
                assert(buf@ =~= spliced(orig, pos as int, whole));
            }
            Ok(p)
        },
        Err(e) => {
            proof {
                assert(false);
            }
            Err(e)
        },
    }
}

/// Length-prefix law for field arrays: the 4-byte prefix of the encoded form
/// denotes exactly the byte length of the payload written after it.
pub proof fn lemma_array_length_prefix(a: Vec<AMQPValue>)
    requires
        arr_payload(a, 0).len() <= 0xffffffff,
    ensures
        untyped_bytes(AMQPValue::FieldArray(a)).len() == 4 + arr_payload(a, 0).len(),
        untyped_bytes(AMQPValue::FieldArray(a)).skip(4) == arr_payload(a, 0),
        be32_value(untyped_bytes(AMQPValue::FieldArray(a)).take(4)) == arr_payload(a, 0).len(),
{
    let whole = untyped_bytes(AMQPValue::FieldArray(a));
    let x = (arr_payload(a, 0).len() % 0x100000000) as u32;
    lemma_be32_value(x);
    assert(whole.take(4) =~= be32(x));
    assert(whole.skip(4) =~= arr_payload(a, 0));
}

/// Length-prefix law for field tables: the 4-byte prefix of the encoded form
/// denotes exactly the byte length of the payload written after it.
pub proof fn lemma_table_length_prefix(t: FieldTable)
    requires
        table_payload(t.entries, 0).len() <= 0xffffffff,
    ensures
        untyped_bytes(AMQPValue::FieldTable(t)).len() == 4 + table_payload(t.entries, 0).len(),
        untyped_bytes(AMQPValue::FieldTable(t)).skip(4) == table_payload(t.entries, 0),
        be32_value(untyped_bytes(AMQPValue::FieldTable(t)).take(4)) == table_payload(
            t.entries,
            0,
        ).len(),
{
    let whole = untyped_bytes(AMQPValue::FieldTable(t));
    let x = (table_payload(t.entries, 0).len() % 0x100000000) as u32;
    lemma_be32_value(x);
    assert(whole.take(4) =~= be32(x));
    assert(whole.skip(4) =~= table_payload(t.entries, 0));
}

/// A table's payload depends on its entries only through their key bytes and
/// values.
proof fn lemma_table_payload_congruence(
    e1: Vec<(String, AMQPValue)>,
    e2: Vec<(String, AMQPValue)>,
    i: int,
)
    requires
        0 <= i,
        e1.len() == e2.len(),
        forall|j: int|
            0 <= j < e1.len() ==> entry_key_bytes(#[trigger] e1[j]) == entry_key_bytes(e2[j])
                && e1[j].1 == e2[j].1,
    ensures
        table_payload(e1, i) == table_payload(e2, i),
    decreases e1.len() - i,
{
    if i < e1.len() {
        assert(entry_bytes(e1[i]) == entry_bytes(e2[i]));
        lemma_table_payload_congruence(e1, e2, i + 1);
    }
}

/// Key-ordering law: the wire form of a field table depends only on the
/// mapping it holds. Two well-formed tables holding the same mapping encode
/// to identical bytes, whatever order their entries were inserted in.
pub proof fn lemma_table_encoding_insertion_order(t1: FieldTable, t2: FieldTable)
    requires
        t1.wf_keys(),
        t2.wf_keys(),
        t1.spec_map() == t2.spec_map(),
    ensures
        untyped_bytes(AMQPValue::FieldTable(t1)) == untyped_bytes(AMQPValue::FieldTable(t2)),
{
    lemma_table_map_determines_entries(t1.entries@, t2.entries@);
    lemma_table_payload_congruence(t1.entries, t2.entries, 0);
}

} // verus!
