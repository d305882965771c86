use vstd::prelude::*;

use crate::bits::{take_spec, yields, yields_as, BitCursor};
use crate::error::DecodeError;
use crate::field::Constraint;
use crate::record::{
    decode_record, layout_ok, lemma_record_framing, map_record, record_spec, FieldDef,
};

verus! {

/// A 2-bit field.
#[derive(Debug, Clone, Copy, PartialEq, Eq, Structural)]
pub struct Field2(pub u8);

/// A 30-bit field.
#[derive(Debug, Clone, Copy, PartialEq, Eq, Structural)]
pub struct Field30(pub u32);

/// A 64-bit field.
#[derive(Debug, Clone, Copy, PartialEq, Eq, Structural)]
pub struct Field64(pub u64);

/// A 48-bit field.
#[derive(Debug, Clone, Copy, PartialEq, Eq, Structural)]
pub struct Field48(pub u64);

/// A 8-bit field.
#[derive(Debug, Clone, Copy, PartialEq, Eq, Structural)]
pub struct Field8(pub u8);

/// A 32-bit field that follows a byte.
#[derive(Debug, Clone, Copy, PartialEq, Eq, Structural)]
pub struct OptionalField(pub u32);

/// Reads a 2-bit field.
pub fn parse_field2<'a>(input: BitCursor<'a>) -> (r: Result<(BitCursor<'a>, Field2), DecodeError>)
    requires
        input.wf(),
    ensures
        yields_as(r, input, take_spec(input.buffer@, input.bit_offset as int, 2), |v: u64| Field2(v as u8)),
{
    let (c, v) = input.take(2)?;
    Ok((c, Field2(v as u8)))
}

/// Reads a 30-bit field.
pub fn parse_field30<'a>(input: BitCursor<'a>) -> (r: Result<(BitCursor<'a>, Field30), DecodeError>)
    requires
        input.wf(),
    ensures
        yields_as(r, input, take_spec(input.buffer@, input.bit_offset as int, 30), |v: u64| Field30(v as u32)),
{
    let (c, v) = input.take(30)?;
    Ok((c, Field30(v as u32)))
}

/// Reads a 64-bit field.
pub fn parse_field64<'a>(input: BitCursor<'a>) -> (r: Result<(BitCursor<'a>, Field64), DecodeError>)
    requires
        input.wf(),
    ensures
        yields_as(r, input, take_spec(input.buffer@, input.bit_offset as int, 64), |v: u64| Field64(v as u64)),
{
    let (c, v) = input.take(64)?;
    Ok((c, Field64(v as u64)))
}

/// Reads a 48-bit field.
pub fn parse_field48<'a>(input: BitCursor<'a>) -> (r: Result<(BitCursor<'a>, Field48), DecodeError>)
    requires
        input.wf(),
    ensures
        yields_as(r, input, take_spec(input.buffer@, input.bit_offset as int, 48), |v: u64| Field48(v as u64)),
{
    let (c, v) = input.take(48)?;
    Ok((c, Field48(v as u64)))
}

/// Reads a 8-bit field.
pub fn parse_field8<'a>(input: BitCursor<'a>) -> (r: Result<(BitCursor<'a>, Field8), DecodeError>)
    requires
        input.wf(),
    ensures
        yields_as(r, input, take_spec(input.buffer@, input.bit_offset as int, 8), |v: u64| Field8(v as u8)),
{
    let (c, v) = input.take(8)?;
    Ok((c, Field8(v as u8)))
}

/// Reads a 32-bit field.
pub fn parse_optionalfield<'a>(input: BitCursor<'a>) -> (r: Result<(BitCursor<'a>, OptionalField), DecodeError>)
    requires
        input.wf(),
    ensures
        yields_as(r, input, take_spec(input.buffer@, input.bit_offset as int, 32), |v: u64| OptionalField(v as u32)),
{
    let (c, v) = input.take(32)?;
    Ok((c, OptionalField(v as u32)))
}

/// A format of five fixed-width fields, 152 bits in all.
#[derive(Debug, Clone, Copy, PartialEq, Eq, Structural)]
pub struct FixedWidthFieldFormat {
    pub field2: Field2,
    pub field30: Field30,
    pub field64: Field64,
    pub field48: Field48,
    pub field8: Field8,
}

/// The layout of a format of five fixed-width fields, 152 bits in all.
pub open spec fn fixed_width_field_format_layout() -> Seq<FieldDef<'static>> {
    seq![
        FieldDef { width: 2, constraint: Constraint::Unconstrained },
        FieldDef { width: 30, constraint: Constraint::Unconstrained },
        FieldDef { width: 64, constraint: Constraint::Unconstrained },
        FieldDef { width: 48, constraint: Constraint::Unconstrained },
        FieldDef { width: 8, constraint: Constraint::Unconstrained },
    ]
}

fn fixed_width_field_format_fields() -> (r: Vec<FieldDef<'static>>)
    ensures
        r@ == fixed_width_field_format_layout(),
        layout_ok(r@),
{
    let r = vec![
        FieldDef { width: 2, constraint: Constraint::Unconstrained },
        FieldDef { width: 30, constraint: Constraint::Unconstrained },
        FieldDef { width: 64, constraint: Constraint::Unconstrained },
        FieldDef { width: 48, constraint: Constraint::Unconstrained },
        FieldDef { width: 8, constraint: Constraint::Unconstrained },
    ];
    assert(r@ =~= fixed_width_field_format_layout());
    r
}

/// The record built from the field values of [`fixed_width_field_format_layout`].
pub open spec fn fixed_width_field_format_from(vs: Seq<u64>) -> FixedWidthFieldFormat {
    FixedWidthFieldFormat { field2: Field2(vs[0] as u8), field30: Field30(vs[1] as u32), field64: Field64(vs[2] as u64), field48: Field48(vs[3] as u64), field8: Field8(vs[4] as u8) }
}

/// Decoding a format of five fixed-width fields, 152 bits in all at bit `pos`.
pub open spec fn fixed_width_field_format_spec(bytes: Seq<u8>, pos: int) -> Result<(int, FixedWidthFieldFormat), DecodeError> {
    map_record(record_spec(bytes, pos, fixed_width_field_format_layout()), |vs: Seq<u64>| fixed_width_field_format_from(vs))
}

/// Decodes the five fixed-width fields in order.
pub fn parse_fixed_width_field_format<'a>(input: BitCursor<'a>) -> (r: Result<(BitCursor<'a>, FixedWidthFieldFormat), DecodeError>)
    requires
        input.wf(),
    ensures
        yields(r, input, fixed_width_field_format_spec(input.buffer@, input.bit_offset as int)),
{
    let fields = fixed_width_field_format_fields();
    let (c, vs) = decode_record(&input, fields.as_slice())?;
    proof {
        lemma_record_framing(input.buffer@, input.bit_offset as int, fixed_width_field_format_layout());
    }
    Ok((c, FixedWidthFieldFormat { field2: Field2(vs[0] as u8), field30: Field30(vs[1] as u32), field64: Field64(vs[2] as u64), field48: Field48(vs[3] as u64), field8: Field8(vs[4] as u8) }))
}

/// A byte followed by a 32-bit field.
#[derive(Debug, Clone, Copy, PartialEq, Eq, Structural)]
pub struct OptionalFieldFormat {
    pub field8: Field8,
    pub optionalfield: OptionalField,
}

/// The layout of a byte followed by a 32-bit field.
pub open spec fn optional_field_format_layout() -> Seq<FieldDef<'static>> {
    seq![
        FieldDef { width: 8, constraint: Constraint::Unconstrained },
        FieldDef { width: 32, constraint: Constraint::Unconstrained },
    ]
}

fn optional_field_format_fields() -> (r: Vec<FieldDef<'static>>)
    ensures
        r@ == optional_field_format_layout(),
        layout_ok(r@),
{
    let r = vec![
        FieldDef { width: 8, constraint: Constraint::Unconstrained },
        FieldDef { width: 32, constraint: Constraint::Unconstrained },
    ];
    assert(r@ =~= optional_field_format_layout());
    r
}

/// The record built from the field values of [`optional_field_format_layout`].
pub open spec fn optional_field_format_from(vs: Seq<u64>) -> OptionalFieldFormat {
    OptionalFieldFormat { field8: Field8(vs[0] as u8), optionalfield: OptionalField(vs[1] as u32) }
}

/// Decoding a byte followed by a 32-bit field at bit `pos`.
pub open spec fn optional_field_format_spec(bytes: Seq<u8>, pos: int) -> Result<(int, OptionalFieldFormat), DecodeError> {
    map_record(record_spec(bytes, pos, optional_field_format_layout()), |vs: Seq<u64>| optional_field_format_from(vs))
}

/// Decodes the byte and then the 32-bit field.
pub fn parse_optional_field_format<'a>(input: BitCursor<'a>) -> (r: Result<(BitCursor<'a>, OptionalFieldFormat), DecodeError>)
    requires
        input.wf(),
    ensures
        yields(r, input, optional_field_format_spec(input.buffer@, input.bit_offset as int)),
{
    let fields = optional_field_format_fields();
    let (c, vs) = decode_record(&input, fields.as_slice())?;
    proof {
        lemma_record_framing(input.buffer@, input.bit_offset as int, optional_field_format_layout());
    }
    Ok((c, OptionalFieldFormat { field8: Field8(vs[0] as u8), optionalfield: OptionalField(vs[1] as u32) }))
}

} // verus!
