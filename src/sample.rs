use vstd::prelude::*;

use crate::bits::{take_spec, yields, yields_as, BitCursor};
use crate::error::DecodeError;
use crate::field::Constraint;
use crate::record::{
    decode_record, layout_ok, lemma_record_framing, map_record, record_spec, FieldDef,
};

verus! {

/// A 3-bit sequence number.
#[derive(Debug, Clone, Copy, PartialEq, Eq, Structural)]
pub struct SeqNum(pub u16);

/// A 6-bit field.
#[derive(Debug, Clone, Copy, PartialEq, Eq, Structural)]
pub struct Field6(pub u8);

/// Two unused bits.
#[derive(Debug, Clone, Copy, PartialEq, Eq, Structural)]
pub struct Unused2(pub u8);

/// Reads a SeqNum of 3 bits.
pub fn parse_seqnum<'a>(input: BitCursor<'a>) -> (r: Result<(BitCursor<'a>, SeqNum), DecodeError>)
    requires
        input.wf(),
    ensures
        yields_as(r, input, take_spec(input.buffer@, input.bit_offset as int, 3), |v: u64| SeqNum(v as u16)),
{
    let (c, v) = input.take(3)?;
    Ok((c, SeqNum(v as u16)))
}

/// Reads a Field6 of 6 bits.
pub fn parse_field6<'a>(input: BitCursor<'a>) -> (r: Result<(BitCursor<'a>, Field6), DecodeError>)
    requires
        input.wf(),
    ensures
        yields_as(r, input, take_spec(input.buffer@, input.bit_offset as int, 6), |v: u64| Field6(v as u8)),
{
    let (c, v) = input.take(6)?;
    Ok((c, Field6(v as u8)))
}

/// Reads a Unused2 of 2 bits.
pub fn parse_unused2<'a>(input: BitCursor<'a>) -> (r: Result<(BitCursor<'a>, Unused2), DecodeError>)
    requires
        input.wf(),
    ensures
        yields_as(r, input, take_spec(input.buffer@, input.bit_offset as int, 2), |v: u64| Unused2(v as u8)),
{
    let (c, v) = input.take(2)?;
    Ok((c, Unused2(v as u8)))
}

/// A sequence number, a 6-bit field and two unused bits.
#[derive(Debug, Clone, Copy, PartialEq, Eq, Structural)]
pub struct SmallStruct {
    pub seq: SeqNum,
    pub f6: Field6,
    pub unused: Unused2,
}

/// The layout of a sequence number, a 6-bit field and two unused bits.
pub open spec fn small_struct_layout() -> Seq<FieldDef<'static>> {
    seq![
        FieldDef { width: 3, constraint: Constraint::Unconstrained },
        FieldDef { width: 6, constraint: Constraint::Unconstrained },
        FieldDef { width: 2, constraint: Constraint::Unconstrained },
    ]
}

fn small_struct_fields() -> (r: Vec<FieldDef<'static>>)
    ensures
        r@ == small_struct_layout(),
        layout_ok(r@),
{
    let r = vec![
        FieldDef { width: 3, constraint: Constraint::Unconstrained },
        FieldDef { width: 6, constraint: Constraint::Unconstrained },
        FieldDef { width: 2, constraint: Constraint::Unconstrained },
    ];
    assert(r@ =~= small_struct_layout());
    r
}

/// The record built from the field values of [`small_struct_layout`].
pub open spec fn small_struct_from(vs: Seq<u64>) -> SmallStruct {
    SmallStruct { seq: SeqNum(vs[0] as u16), f6: Field6(vs[1] as u8), unused: Unused2(vs[2] as u8) }
}

/// Decoding a sequence number, a 6-bit field and two unused bits at bit `pos`.
pub open spec fn small_struct_spec(bytes: Seq<u8>, pos: int) -> Result<(int, SmallStruct), DecodeError> {
    map_record(record_spec(bytes, pos, small_struct_layout()), |vs: Seq<u64>| small_struct_from(vs))
}

/// Decodes the three fields of a small struct in order.
pub fn parse_small_struct<'a>(input: BitCursor<'a>) -> (r: Result<(BitCursor<'a>, SmallStruct), DecodeError>)
    requires
        input.wf(),
    ensures
        yields(r, input, small_struct_spec(input.buffer@, input.bit_offset as int)),
{
    let fields = small_struct_fields();
    let (c, vs) = decode_record(&input, fields.as_slice())?;
    proof {
        lemma_record_framing(input.buffer@, input.bit_offset as int, small_struct_layout());
    }
    Ok((c, SmallStruct { seq: SeqNum(vs[0] as u16), f6: Field6(vs[1] as u8), unused: Unused2(vs[2] as u8) }))
}

/// A closed set of fruit, coded in two bits.
#[derive(Debug, Clone, Copy, PartialEq, Eq, Structural)]
pub enum Fruits {
    Orange,
    Mango,
    Lychee,
    Cherry,
}

/// The fruit that code `v` stands for, where `v` is one of the four codes.
pub open spec fn fruit_of(v: u64) -> Fruits {
    if v == 0 {
        Fruits::Orange
    } else if v == 1 {
        Fruits::Mango
    } else if v == 2 {
        Fruits::Lychee
    } else {
        Fruits::Cherry
    }
}

/// Decoding a fruit code at bit `pos`: codes outside the set are an
/// `UnknownDiscriminant`, never a default.
pub open spec fn fruits_spec(bytes: Seq<u8>, pos: int) -> Result<(int, Fruits), DecodeError> {
    match take_spec(bytes, pos, 2) {
        Ok((p, v)) => if v <= 3 {
            Ok((p, fruit_of(v)))
        } else {
            Err(DecodeError::UnknownDiscriminant { bit_offset: pos as usize })
        },
        Err(e) => Err(e),
    }
}

/// Decodes a two-bit fruit code.
pub fn parse_fruits<'a>(input: BitCursor<'a>) -> (r: Result<(BitCursor<'a>, Fruits), DecodeError>)
    requires
        input.wf(),
    ensures
        yields(r, input, fruits_spec(input.buffer@, input.bit_offset as int)),
{
    let (c, v) = input.take(2)?;
    match v {
        0 => Ok((c, Fruits::Orange)),
        1 => Ok((c, Fruits::Mango)),
        2 => Ok((c, Fruits::Lychee)),
        3 => Ok((c, Fruits::Cherry)),
        _ => Err(DecodeError::UnknownDiscriminant { bit_offset: input.bit_offset }),
    }
}

/// Decoding a field at bit `pos` that may only hold the code 2, which
/// stands for a mango here; any other code is a `ConstraintViolation`.
pub open spec fn mango_spec(bytes: Seq<u8>, pos: int) -> Result<(int, Fruits), DecodeError> {
    match take_spec(bytes, pos, 2) {
        Ok((p, v)) => if v == 2 {
            Ok((p, Fruits::Mango))
        } else {
            Err(DecodeError::ConstraintViolation { bit_offset: pos as usize })
        },
        Err(e) => Err(e),
    }
}

/// Decodes a two-bit field that must hold the code 2, a mango.
pub fn parse_mango<'a>(input: BitCursor<'a>) -> (r: Result<(BitCursor<'a>, Fruits), DecodeError>)
    requires
        input.wf(),
    ensures
        yields(r, input, mango_spec(input.buffer@, input.bit_offset as int)),
{
    let (c, v) = input.take(2)?;
    if v == 2 {
        Ok((c, Fruits::Mango))
    } else {
        Err(DecodeError::ConstraintViolation { bit_offset: input.bit_offset })
    }
}

/// A mango marker, a sequence number, a 6-bit field and a nested small
/// struct.
#[derive(Debug, Clone, Copy, PartialEq, Eq, Structural)]
pub struct TestStruct {
    pub fruit: Fruits,
    pub seq: SeqNum,
    pub f6: Field6,
    pub smallstruct: SmallStruct,
}

/// Decoding a test struct at bit `pos`: its fields in order, the last one a
/// nested record.
pub open spec fn test_struct_spec(bytes: Seq<u8>, pos: int) -> Result<(int, TestStruct), DecodeError> {
    match mango_spec(bytes, pos) {
        Ok((p1, fruit)) => match take_spec(bytes, p1, 3) {
            Ok((p2, seq)) => match take_spec(bytes, p2, 6) {
                Ok((p3, f6)) => match small_struct_spec(bytes, p3) {
                    Ok((p4, smallstruct)) => Ok(
                        (
                            p4,
                            TestStruct {
                                fruit,
                                seq: SeqNum(seq as u16),
                                f6: Field6(f6 as u8),
                                smallstruct,
                            },
                        ),
                    ),
                    Err(e) => Err(e),
                },
                Err(e) => Err(e),
            },
            Err(e) => Err(e),
        },
        Err(e) => Err(e),
    }
}

/// Decodes a test struct: the mango marker, the sequence number, the 6-bit
/// field and the nested small struct, in order.
pub fn parse_test_struct<'a>(input: BitCursor<'a>) -> (r: Result<(BitCursor<'a>, TestStruct), DecodeError>)
    requires
        input.wf(),
    ensures
        yields(r, input, test_struct_spec(input.buffer@, input.bit_offset as int)),
{
    let (c1, fruit) = parse_mango(input)?;
    let (c2, seq) = parse_seqnum(c1)?;
    let (c3, f6) = parse_field6(c2)?;
    let (c4, smallstruct) = parse_small_struct(c3)?;
    Ok((c4, TestStruct { fruit, seq, f6, smallstruct }))
}

} // verus!
