use vstd::arithmetic::power2::lemma2_to64;
use vstd::prelude::*;

use crate::bits::{bits_value, bytes_spec, lemma_bits_value_bound, take_spec, yields, BitCursor};
use crate::error::DecodeError;
use crate::field::Constraint;
use crate::record::{
    decode_record, layout_bits, layout_ok, lemma_record_field_at, lemma_record_framing,
    lemma_record_ok_unconstrained, map_record, record_spec, FieldDef,
};

verus! {

/// Six fields read back to back.
#[derive(Debug, Clone, Copy, PartialEq, Eq, Structural)]
pub struct TestStruct {
    pub f1: u8,
    pub f2: u8,
    pub f3: u16,
    pub f4: u8,
    pub f5: u8,
    pub f6: u8,
}

/// The layout of a chained struct: fields of 1, 2, 9, 4, 3 and 5 bits, 24
/// bits in all.
pub open spec fn chain_layout() -> Seq<FieldDef<'static>> {
    seq![
        FieldDef { width: 1, constraint: Constraint::Unconstrained },
        FieldDef { width: 2, constraint: Constraint::Unconstrained },
        FieldDef { width: 9, constraint: Constraint::Unconstrained },
        FieldDef { width: 4, constraint: Constraint::Unconstrained },
        FieldDef { width: 3, constraint: Constraint::Unconstrained },
        FieldDef { width: 5, constraint: Constraint::Unconstrained },
    ]
}

fn chain_fields() -> (r: Vec<FieldDef<'static>>)
    ensures
        r@ == chain_layout(),
        layout_ok(r@),
{
    let r = vec![
        FieldDef { width: 1, constraint: Constraint::Unconstrained },
        FieldDef { width: 2, constraint: Constraint::Unconstrained },
        FieldDef { width: 9, constraint: Constraint::Unconstrained },
        FieldDef { width: 4, constraint: Constraint::Unconstrained },
        FieldDef { width: 3, constraint: Constraint::Unconstrained },
        FieldDef { width: 5, constraint: Constraint::Unconstrained },
    ];
    assert(r@ =~= chain_layout());
    r
}

/// The chained struct built from the values of [`chain_layout`].
pub open spec fn chain_from(vs: Seq<u64>) -> TestStruct {
    TestStruct {
        f1: vs[0] as u8,
        f2: vs[1] as u8,
        f3: vs[2] as u16,
        f4: vs[3] as u8,
        f5: vs[4] as u8,
        f6: vs[5] as u8,
    }
}

/// Decoding a chained struct at bit `pos`.
pub open spec fn chain_parsing_spec(bytes: Seq<u8>, pos: int) -> Result<(int, TestStruct), DecodeError> {
    map_record(record_spec(bytes, pos, chain_layout()), |vs: Seq<u64>| chain_from(vs))
}

/// Decodes six fields of 1, 2, 9, 4, 3 and 5 bits back to back, 24 bits in
/// all; no bit between them is skipped.
pub fn chain_parsing<'a>(input: BitCursor<'a>) -> (r: Result<(BitCursor<'a>, TestStruct), DecodeError>)
    requires
        input.wf(),
    ensures
        yields(r, input, chain_parsing_spec(input.buffer@, input.bit_offset as int)),
{
    let fields = chain_fields();
    let (c, vs) = decode_record(&input, fields.as_slice())?;
    proof {
        lemma_record_framing(input.buffer@, input.bit_offset as int, chain_layout());
    }
    Ok((
        c,
        TestStruct {
            f1: vs[0] as u8,
            f2: vs[1] as u8,
            f3: vs[2] as u16,
            f4: vs[3] as u8,
            f5: vs[4] as u8,
            f6: vs[5] as u8,
        },
    ))
}

/// Decoding a single bit at bit `pos`.
pub open spec fn take_1_bit_spec(bytes: Seq<u8>, pos: int) -> Result<(int, u8), DecodeError> {
    match take_spec(bytes, pos, 1) {
        Ok((p, v)) => Ok((p, v as u8)),
        Err(e) => Err(e),
    }
}

/// Reads a single bit.
pub fn take_1_bit<'a>(input: BitCursor<'a>) -> (r: Result<(BitCursor<'a>, u8), DecodeError>)
    requires
        input.wf(),
    ensures
        yields(r, input, take_1_bit_spec(input.buffer@, input.bit_offset as int)),
{
    let (c, v) = input.take(1)?;
    Ok((c, v as u8))
}

/// Decoding at bit `pos` fields of one, two and seven bits back to back.
pub open spec fn take_3_spec(bytes: Seq<u8>, pos: int) -> Result<(int, (u8, u8, u8)), DecodeError> {
    match take_spec(bytes, pos, 1) {
        Ok((p1, a)) => match take_spec(bytes, p1, 2) {
            Ok((p2, b)) => match take_spec(bytes, p2, 7) {
                Ok((p3, c)) => Ok((p3, (a as u8, b as u8, c as u8))),
                Err(e) => Err(e),
            },
            Err(e) => Err(e),
        },
        Err(e) => Err(e),
    }
}

/// Reads fields of one, two and seven bits back to back.
pub fn take_3<'a>(input: BitCursor<'a>) -> (r: Result<(BitCursor<'a>, (u8, u8, u8)), DecodeError>)
    requires
        input.wf(),
    ensures
        yields(r, input, take_3_spec(input.buffer@, input.bit_offset as int)),
{
    let (c1, a) = input.take(1)?;
    let (c2, b) = c1.take(2)?;
    let (c3, c) = c2.take(7)?;
    Ok((c3, (a as u8, b as u8, c as u8)))
}

/// Decoding at bit `pos` an 8-bit field that must hold the pattern `0b0010`.
pub open spec fn search_pattern_spec(bytes: Seq<u8>, pos: int) -> Result<(int, u8), DecodeError> {
    match take_spec(bytes, pos, 8) {
        Ok((p, v)) => if v == 2 {
            Ok((p, v as u8))
        } else {
            Err(DecodeError::ConstraintViolation { bit_offset: pos as usize })
        },
        Err(e) => Err(e),
    }
}

/// Reads an 8-bit field that must hold the pattern `0b0010`; any other
/// value is a `ConstraintViolation`.
pub fn search_pattern<'a>(input: BitCursor<'a>) -> (r: Result<(BitCursor<'a>, u8), DecodeError>)
    requires
        input.wf(),
    ensures
        yields(r, input, search_pattern_spec(input.buffer@, input.bit_offset as int)),
{
    let (c, v) = input.take(8)?;
    if v == 2 {
        Ok((c, v as u8))
    } else {
        Err(DecodeError::ConstraintViolation { bit_offset: input.bit_offset })
    }
}

/// Takes one whole byte and returns it as a slice of the buffer.
pub fn get_single_bit<'a>(input: BitCursor<'a>) -> (r: Result<(BitCursor<'a>, &'a [u8]), DecodeError>)
    requires
        input.wf(),
    ensures
        match (r, bytes_spec(input.buffer@, input.bit_offset as int, 1)) {
            (Ok((c, b)), Ok((p, w))) => c.buffer == input.buffer && c.bit_offset == p && c.wf()
                && b@ == w,
            (Err(e), Err(f)) => e == f,
            _ => false,
        },
{
    input.take_bytes(1)
}

/// Decoding at bit `pos` a length byte and then as many bytes as it counts.
pub open spec fn len_parser_spec(bytes: Seq<u8>, pos: int) -> Result<(int, Seq<u8>), DecodeError> {
    match bytes_spec(bytes, pos, 1) {
        Ok((p, n)) => bytes_spec(bytes, p, n[0] as nat),
        Err(e) => Err(e),
    }
}

/// Reads a length byte and returns the bytes it counts, which follow it.
pub fn len_parser<'a>(input: BitCursor<'a>) -> (r: Result<(BitCursor<'a>, &'a [u8]), DecodeError>)
    requires
        input.wf(),
    ensures
        match (r, len_parser_spec(input.buffer@, input.bit_offset as int)) {
            (Ok((c, b)), Ok((p, w))) => c.buffer == input.buffer && c.bit_offset == p && c.wf()
                && b@ == w,
            (Err(e), Err(f)) => e == f,
            _ => false,
        },
{
    let (c, n) = input.take_bytes(1)?;
    c.take_bytes(n[0] as usize)
}


/// A chained struct decodes wherever 24 bits remain, takes exactly those 24
/// bits, and reads each field at its global position: bits 0, 1 to 2, 3 to
/// 11, 12 to 15, 16 to 18 and 19 to 23 after the start.
pub proof fn lemma_chain_contiguous(bytes: Seq<u8>, pos: int)
    requires
        0 <= pos,
    ensures
        chain_parsing_spec(bytes, pos) is Ok <==> pos + 24 <= bytes.len() * 8,
        chain_parsing_spec(bytes, pos) is Ok ==> ({
            let (q, t) = chain_parsing_spec(bytes, pos)->Ok_0;
            &&& q == pos + 24
            &&& t.f1 == bits_value(bytes, pos, 1)
            &&& t.f2 == bits_value(bytes, pos + 1, 2)
            &&& t.f3 == bits_value(bytes, pos + 3, 9)
            &&& t.f4 == bits_value(bytes, pos + 12, 4)
            &&& t.f5 == bits_value(bytes, pos + 16, 3)
            &&& t.f6 == bits_value(bytes, pos + 19, 5)
        }),
{
    let l = chain_layout();
    reveal_with_fuel(layout_bits, 7);
    assert(l.take(0) =~= seq![]);
    assert(l.take(1) =~= seq![l[0]]);
    assert(l.take(2) =~= seq![l[0], l[1]]);
    assert(l.take(3) =~= seq![l[0], l[1], l[2]]);
    assert(l.take(4) =~= seq![l[0], l[1], l[2], l[3]]);
    assert(l.take(5) =~= seq![l[0], l[1], l[2], l[3], l[4]]);
    assert(layout_bits(l) == 24);
    if record_spec(bytes, pos, l) is Ok {
        lemma_record_framing(bytes, pos, l);
        lemma_record_field_at(bytes, pos, l, 0);
        lemma_record_field_at(bytes, pos, l, 1);
        lemma_record_field_at(bytes, pos, l, 2);
        lemma_record_field_at(bytes, pos, l, 3);
        lemma_record_field_at(bytes, pos, l, 4);
        lemma_record_field_at(bytes, pos, l, 5);
        lemma_bits_value_bound(bytes, pos, 1);
        lemma_bits_value_bound(bytes, pos + 1, 2);
        lemma_bits_value_bound(bytes, pos + 3, 9);
        lemma_bits_value_bound(bytes, pos + 12, 4);
        lemma_bits_value_bound(bytes, pos + 16, 3);
        lemma_bits_value_bound(bytes, pos + 19, 5);
        lemma2_to64();
    }
    if pos + 24 <= bytes.len() * 8 {
        lemma_record_ok_unconstrained(bytes, pos, l);
    }
}

} // verus!
