//! Canonical encoder for protocol primitives: booleans, fixed-width integers,
//! CompactSize variable-length integers, and length-prefixed UTF-8 strings.
//!
//! All integers are written little-endian. The sink is a caller-supplied byte
//! vector; appending to it cannot fail, so every encoder here returns `Ok`.

use vstd::bytes::{
    spec_u16_to_le_bytes, spec_u32_to_le_bytes, spec_u64_to_le_bytes, u16_to_le_bytes,
    u32_to_le_bytes, u64_to_le_bytes,
};
use vstd::prelude::*;
use vstd::utf8::encode_utf8;

verus! {

/// Declares `std::io::Error` so that it can stand in result and field types.
/// Nothing is assumed of its values; the crate never constructs one, since a
/// byte-vector sink cannot fail.
#[verifier::external_type_specification]
#[verifier::external_body]
pub struct ExIoError(std::io::Error);

/// A tagged primitive value, one variant per wire form.
pub enum EncodeLiteralType {
    Bool(bool),
    I32(i32),
    U32(u32),
    I64(i64),
    U64(u64),
    VariableUint(u64),
    String(String),
}

/// The two's-complement bit pattern of a signed 32-bit value.
pub open spec fn spec_i32_bits(v: i32) -> u32 {
    if v >= 0 {
        v as u32
    } else {
        (v + 0x1_0000_0000) as u32
    }
}

/// The two's-complement bit pattern of a signed 64-bit value.
pub open spec fn spec_i64_bits(v: i64) -> u64 {
    if v >= 0 {
        v as u64
    } else {
        (v + 0x1_0000_0000_0000_0000) as u64
    }
}

/// The CompactSize encoding of `v`: the shortest of four little-endian forms,
/// chosen by magnitude.
pub open spec fn var_uint_bytes(v: u64) -> Seq<u8> {
    if v < 0xFD {
        seq![v as u8]
    } else if v <= 0xFFFF {
        seq![0xFDu8] + spec_u16_to_le_bytes(v as u16)
    } else if v <= 0xFFFF_FFFF {
        seq![0xFEu8] + spec_u32_to_le_bytes(v as u32)
    } else {
        seq![0xFFu8] + spec_u64_to_le_bytes(v)
    }
}

/// The byte length of a UTF-8 encoding, clipped to the machine word as
/// `str::len` returns it.
pub open spec fn spec_byte_len_u64(bytes: Seq<u8>) -> u64 {
    (bytes.len() as usize) as u64
}

/// The wire bytes of one tagged primitive value.
pub open spec fn literal_bytes(element: EncodeLiteralType) -> Seq<u8> {
    match element {
        EncodeLiteralType::Bool(value) => seq![if value { 1u8 } else { 0u8 }],
        EncodeLiteralType::I32(value) => spec_u32_to_le_bytes(spec_i32_bits(value)),
        EncodeLiteralType::U32(value) => spec_u32_to_le_bytes(value),
        EncodeLiteralType::I64(value) => spec_u64_to_le_bytes(spec_i64_bits(value)),
        EncodeLiteralType::U64(value) => spec_u64_to_le_bytes(value),
        EncodeLiteralType::VariableUint(value) => var_uint_bytes(value),
        EncodeLiteralType::String(value) => var_uint_bytes(
            spec_byte_len_u64(encode_utf8(value@)),
        ) + encode_utf8(value@),
    }
}

/// The wire bytes of a sequence of tagged primitive values, in order.
pub open spec fn literals_bytes(elements: Seq<EncodeLiteralType>) -> Seq<u8>
    decreases elements.len(),
{
    if elements.len() == 0 {
        Seq::empty()
    } else {
        literal_bytes(elements[0]) + literals_bytes(elements.drop_first())
    }
}

/// CompactSize always picks the shortest of its four forms, by magnitude:
/// one byte below 0xFD; tag 0xFD plus two little-endian bytes through 0xFFFF;
/// tag 0xFE plus four bytes through 0xFFFFFFFF; tag 0xFF plus eight bytes
/// above that.
pub proof fn lemma_var_uint_forms(v: u64)
    ensures
        v < 0xFD ==> var_uint_bytes(v) == seq![v as u8] && var_uint_bytes(v).len() == 1,
        0xFD <= v <= 0xFFFF ==> var_uint_bytes(v) == seq![0xFDu8] + spec_u16_to_le_bytes(
            v as u16,
        ) && var_uint_bytes(v).len() == 3,
        0xFFFF < v <= 0xFFFF_FFFF ==> var_uint_bytes(v) == seq![0xFEu8] + spec_u32_to_le_bytes(
            v as u32,
        ) && var_uint_bytes(v).len() == 5,
        0xFFFF_FFFF < v ==> var_uint_bytes(v) == seq![0xFFu8] + spec_u64_to_le_bytes(v)
            && var_uint_bytes(v).len() == 9,
{
    vstd::bytes::lemma_auto_spec_u16_to_from_le_bytes();
    vstd::bytes::lemma_auto_spec_u32_to_from_le_bytes();
    vstd::bytes::lemma_auto_spec_u64_to_from_le_bytes();
}

/// Unfolds [`literals_bytes`] for a single value.
pub proof fn lemma_literals_bytes_one(a: EncodeLiteralType)
    ensures
        literals_bytes(seq![a]) == literal_bytes(a),
{
    let s = seq![a];
    assert(s.len() == 1);
    assert(s[0] == a);
    assert(s.drop_first() =~= Seq::<EncodeLiteralType>::empty());
    assert(literals_bytes(s) == literal_bytes(s[0]) + literals_bytes(s.drop_first()));
    assert(literals_bytes(Seq::<EncodeLiteralType>::empty()) == Seq::<u8>::empty());
    assert(literals_bytes(s) =~= literal_bytes(a));
}

/// Unfolds [`literals_bytes`] for three values.
pub proof fn lemma_literals_bytes_three(
    a: EncodeLiteralType,
    b: EncodeLiteralType,
    c: EncodeLiteralType,
)
    ensures
        literals_bytes(seq![a, b, c]) == literal_bytes(a) + literal_bytes(b) + literal_bytes(c),
{
    let s = seq![a, b, c];
    let t = seq![b, c];
    assert(s.drop_first() =~= t);
    assert(t.drop_first() =~= seq![c]);
    assert(literals_bytes(s) == literal_bytes(s[0]) + literals_bytes(s.drop_first()));
    assert(literals_bytes(t) == literal_bytes(t[0]) + literals_bytes(t.drop_first()));
    lemma_literals_bytes_one(seq![c][0]);
    assert(literals_bytes(s) =~= literal_bytes(a) + literal_bytes(b) + literal_bytes(c));
}

fn i32_bits(v: i32) -> (r: u32)
    ensures
        r == spec_i32_bits(v),
{
    if v >= 0 {
        v as u32
    } else {
        let w: i64 = (v as i64) + 0x1_0000_0000;
        w as u32
    }
}

fn i64_bits(v: i64) -> (r: u64)
    ensures
        r == spec_i64_bits(v),
{
    if v >= 0 {
        v as u64
    } else {
        let m: i64 = -(v + 1);
        u64::MAX - (m as u64)
    }
}

/// Appends the CompactSize encoding of `value`.
fn encode_var_uint(writer: &mut Vec<u8>, value: u64)
    ensures
        final(writer)@ == old(writer)@ + var_uint_bytes(value),
{
    if value < 0xFD {
        writer.push(value as u8);
        assert(writer@ =~= old(writer)@ + var_uint_bytes(value));
    } else if value <= 0xFFFF {
        writer.push(0xFD);
        let mut tail = u16_to_le_bytes(value as u16);
        writer.append(&mut tail);
        assert(writer@ =~= old(writer)@ + var_uint_bytes(value));
    } else if value <= 0xFFFF_FFFF {
        writer.push(0xFE);
        let mut tail = u32_to_le_bytes(value as u32);
        writer.append(&mut tail);
        assert(writer@ =~= old(writer)@ + var_uint_bytes(value));
    } else {
        writer.push(0xFF);
        let mut tail = u64_to_le_bytes(value);
        writer.append(&mut tail);
        assert(writer@ =~= old(writer)@ + var_uint_bytes(value));
    }
}

/// Appends the wire bytes of one tagged primitive value.
///
/// The byte-vector sink cannot reject a write, so the result is always `Ok`;
/// the `Result` mirrors the failure channel a fallible sink would use.
pub fn encode_literal(writer: &mut Vec<u8>, element: EncodeLiteralType) -> (r: Result<
    (),
    std::io::Error,
>)
    ensures
        r is Ok,
        final(writer)@ == old(writer)@ + literal_bytes(element),
{
    match element {
        EncodeLiteralType::Bool(value) => {
            writer.push(if value { 0x01 } else { 0x00 });
            assert(writer@ =~= old(writer)@ + literal_bytes(element));
        },
        EncodeLiteralType::I32(value) => {
            let mut tail = u32_to_le_bytes(i32_bits(value));
            writer.append(&mut tail);
        },
        EncodeLiteralType::U32(value) => {
            let mut tail = u32_to_le_bytes(value);
            writer.append(&mut tail);
        },
        EncodeLiteralType::I64(value) => {
            let mut tail = u64_to_le_bytes(i64_bits(value));
            writer.append(&mut tail);
        },
        EncodeLiteralType::U64(value) => {
            let mut tail = u64_to_le_bytes(value);
            writer.append(&mut tail);
        },
        EncodeLiteralType::VariableUint(value) => {
            encode_var_uint(writer, value);
        },
        EncodeLiteralType::String(value) => {
            let len: u64 = value.as_str().len() as u64;
            encode_var_uint(writer, len);
            writer.extend_from_slice(value.as_str().as_bytes());
            assert(writer@ =~= old(writer)@ + literal_bytes(element));
        },
    }
    Ok(())
}

/// Appends the wire bytes of each value in order, stopping at the first
/// failure; with a byte-vector sink no write fails, so all values are
/// written and the result is always `Ok`.
pub fn encode_literals(writer: &mut Vec<u8>, values: Vec<EncodeLiteralType>) -> (r: Result<
    (),
    std::io::Error,
>)
    ensures
        r is Ok,
        final(writer)@ == old(writer)@ + literals_bytes(values@),
{
    let ghost all_values: Seq<EncodeLiteralType> = values@;
    let mut values = values;
    while values.len() > 0
        invariant
            writer@ + literals_bytes(values@) == old(writer)@ + literals_bytes(all_values),
        decreases values.len(),
    {
        let ghost before: Seq<EncodeLiteralType> = values@;
        let element = values.remove(0);
        let result = encode_literal(writer, element);
        if let Err(error) = result {
            return Err(error);
        }
        proof {
            assert(values@ =~= before.drop_first());
            assert(writer@ + literals_bytes(values@) =~= old(writer)@ + literals_bytes(
                all_values,
            ));
        }
    }
    proof {
        assert(writer@ + literals_bytes(values@) =~= writer@);
    }
    Ok(())
}

} // verus!
