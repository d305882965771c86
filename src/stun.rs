use vstd::prelude::*;

use crate::bits::{bit_at, bits_value, take_spec, yields, yields_as, BitCursor};
use crate::error::DecodeError;
use crate::field::Constraint;
use crate::record::{
    decode_record, layout_bits, layout_ok, lemma_record_field_at, lemma_record_framing,
    lemma_record_ok_unconstrained, lemma_unit_layout_bits, map_record, record_spec, FieldDef,
};

verus! {

/// A single bit.
#[derive(Debug, Clone, Copy, PartialEq, Eq, Structural)]
pub struct BitString1(pub u8);

/// Reads a single bit.
pub fn parse_bitstring1<'a>(input: BitCursor<'a>) -> (r: Result<(BitCursor<'a>, BitString1), DecodeError>)
    requires
        input.wf(),
    ensures
        yields_as(r, input, take_spec(input.buffer@, input.bit_offset as int, 1), |v: u64| BitString1(v as u8)),
{
    let (c, v) = input.take(1)?;
    Ok((c, BitString1(v as u8)))
}

/// The fourteen bits of a STUN message type, method and class bits interleaved.
#[derive(Debug, Clone, Copy, PartialEq, Eq, Structural)]
pub struct StunMessageTypeSplit {
    pub m11: BitString1,
    pub m10: BitString1,
    pub m9: BitString1,
    pub m8: BitString1,
    pub m7: BitString1,
    pub c1: BitString1,
    pub m6: BitString1,
    pub m5: BitString1,
    pub m4: BitString1,
    pub c0: BitString1,
    pub m3: BitString1,
    pub m2: BitString1,
    pub m1: BitString1,
    pub m0: BitString1,
}

/// The layout of the fourteen bits of a STUN message type, method and class bits interleaved.
pub open spec fn stun_message_type_layout() -> Seq<FieldDef<'static>> {
    seq![
        FieldDef { width: 1, constraint: Constraint::Unconstrained },
        FieldDef { width: 1, constraint: Constraint::Unconstrained },
        FieldDef { width: 1, constraint: Constraint::Unconstrained },
        FieldDef { width: 1, constraint: Constraint::Unconstrained },
        FieldDef { width: 1, constraint: Constraint::Unconstrained },
        FieldDef { width: 1, constraint: Constraint::Unconstrained },
        FieldDef { width: 1, constraint: Constraint::Unconstrained },
        FieldDef { width: 1, constraint: Constraint::Unconstrained },
        FieldDef { width: 1, constraint: Constraint::Unconstrained },
        FieldDef { width: 1, constraint: Constraint::Unconstrained },
        FieldDef { width: 1, constraint: Constraint::Unconstrained },
        FieldDef { width: 1, constraint: Constraint::Unconstrained },
        FieldDef { width: 1, constraint: Constraint::Unconstrained },
        FieldDef { width: 1, constraint: Constraint::Unconstrained },
    ]
}

fn stun_message_type_fields() -> (r: Vec<FieldDef<'static>>)
    ensures
        r@ == stun_message_type_layout(),
        layout_ok(r@),
{
    let r = vec![
        FieldDef { width: 1, constraint: Constraint::Unconstrained },
        FieldDef { width: 1, constraint: Constraint::Unconstrained },
        FieldDef { width: 1, constraint: Constraint::Unconstrained },
        FieldDef { width: 1, constraint: Constraint::Unconstrained },
        FieldDef { width: 1, constraint: Constraint::Unconstrained },
        FieldDef { width: 1, constraint: Constraint::Unconstrained },
        FieldDef { width: 1, constraint: Constraint::Unconstrained },
        FieldDef { width: 1, constraint: Constraint::Unconstrained },
        FieldDef { width: 1, constraint: Constraint::Unconstrained },
        FieldDef { width: 1, constraint: Constraint::Unconstrained },
        FieldDef { width: 1, constraint: Constraint::Unconstrained },
        FieldDef { width: 1, constraint: Constraint::Unconstrained },
        FieldDef { width: 1, constraint: Constraint::Unconstrained },
        FieldDef { width: 1, constraint: Constraint::Unconstrained },
    ];
    assert(r@ =~= stun_message_type_layout());
    r
}

/// The record built from the field values of [`stun_message_type_layout`].
pub open spec fn stun_message_type_from(vs: Seq<u64>) -> StunMessageTypeSplit {
    StunMessageTypeSplit { m11: BitString1(vs[0] as u8), m10: BitString1(vs[1] as u8), m9: BitString1(vs[2] as u8), m8: BitString1(vs[3] as u8), m7: BitString1(vs[4] as u8), c1: BitString1(vs[5] as u8), m6: BitString1(vs[6] as u8), m5: BitString1(vs[7] as u8), m4: BitString1(vs[8] as u8), c0: BitString1(vs[9] as u8), m3: BitString1(vs[10] as u8), m2: BitString1(vs[11] as u8), m1: BitString1(vs[12] as u8), m0: BitString1(vs[13] as u8) }
}

/// Decoding the fourteen bits of a STUN message type, method and class bits interleaved at bit `pos`.
pub open spec fn stun_message_type_spec(bytes: Seq<u8>, pos: int) -> Result<(int, StunMessageTypeSplit), DecodeError> {
    map_record(record_spec(bytes, pos, stun_message_type_layout()), |vs: Seq<u64>| stun_message_type_from(vs))
}

/// Decodes the fourteen bits, unchecked.
fn decode_stun_message_type_bits<'a>(input: BitCursor<'a>) -> (r: Result<(BitCursor<'a>, StunMessageTypeSplit), DecodeError>)
    requires
        input.wf(),
    ensures
        yields(r, input, stun_message_type_spec(input.buffer@, input.bit_offset as int)),
{
    let fields = stun_message_type_fields();
    let (c, vs) = decode_record(&input, fields.as_slice())?;
    proof {
        lemma_record_framing(input.buffer@, input.bit_offset as int, stun_message_type_layout());
    }
    Ok((c, StunMessageTypeSplit { m11: BitString1(vs[0] as u8), m10: BitString1(vs[1] as u8), m9: BitString1(vs[2] as u8), m8: BitString1(vs[3] as u8), m7: BitString1(vs[4] as u8), c1: BitString1(vs[5] as u8), m6: BitString1(vs[6] as u8), m5: BitString1(vs[7] as u8), m4: BitString1(vs[8] as u8), c0: BitString1(vs[9] as u8), m3: BitString1(vs[10] as u8), m2: BitString1(vs[11] as u8), m1: BitString1(vs[12] as u8), m0: BitString1(vs[13] as u8) }))
}

/// Decoding a STUN message type at bit `pos`: its bits, of which `m1` and
/// `c1` must both be set, else a `ConstraintViolation` at the start.
pub open spec fn stun_messagetype_split_spec(bytes: Seq<u8>, pos: int) -> Result<
    (int, StunMessageTypeSplit),
    DecodeError,
> {
    match stun_message_type_spec(bytes, pos) {
        Ok((p, m)) => if m.m1.0 == 1 && m.c1.0 == 1 {
            Ok((p, m))
        } else {
            Err(DecodeError::ConstraintViolation { bit_offset: pos as usize })
        },
        Err(e) => Err(e),
    }
}

/// Decodes a STUN message type and checks that its `m1` and `c1` bits are
/// both set.
pub fn parse_stun_messagetype_split<'a>(input: BitCursor<'a>) -> (r: Result<
    (BitCursor<'a>, StunMessageTypeSplit),
    DecodeError,
>)
    requires
        input.wf(),
    ensures
        yields(r, input, stun_messagetype_split_spec(input.buffer@, input.bit_offset as int)),
{
    let (c, m) = decode_stun_message_type_bits(input)?;
    if m.m1.0 == 1 && m.c1.0 == 1 {
        Ok((c, m))
    } else {
        Err(DecodeError::ConstraintViolation { bit_offset: input.bit_offset })
    }
}


/// Decoding a whole message of `declared` bits that is one STUN message
/// type: the message type and the bits left after it, which must be none.
pub open spec fn stun_message_spec(bytes: Seq<u8>, declared: int) -> Result<
    (StunMessageTypeSplit, int),
    DecodeError,
> {
    match stun_messagetype_split_spec(bytes, 0) {
        Ok((q, m)) => if q != declared {
            Err(DecodeError::LengthMismatch { consumed: q as usize, declared: declared as usize })
        } else {
            Ok((m, declared - q))
        },
        Err(e) => Err(e),
    }
}

/// Decodes a whole message of `declared_bits` bits, read from the start of
/// `buffer`, as one STUN message type. The format has no payload field, so a
/// declared length other than its fourteen bits is a `LengthMismatch`.
pub fn decode_stun_message_type(buffer: &[u8], declared_bits: usize) -> (r: Result<
    (StunMessageTypeSplit, usize),
    DecodeError,
>)
    requires
        buffer@.len() * 8 <= usize::MAX,
    ensures
        match (r, stun_message_spec(buffer@, declared_bits as int)) {
            (Ok((m, rest)), Ok((w, wrest))) => m == w && rest == wrest,
            (Err(e), Err(f)) => e == f,
            _ => false,
        },
{
    let (end, m) = parse_stun_messagetype_split(BitCursor::new(buffer))?;
    if end.bit_offset != declared_bits {
        return Err(DecodeError::LengthMismatch { consumed: end.bit_offset, declared: declared_bits });
    }
    Ok((m, declared_bits - end.bit_offset))
}

/// Every field of the message type layout is one unconstrained bit.
proof fn lemma_stun_layout_units()
    ensures
        stun_message_type_layout().len() == 14,
        forall|i: int|
            0 <= i < 14 ==> #[trigger] stun_message_type_layout()[i] == (FieldDef {
                width: 1,
                constraint: Constraint::Unconstrained,
            }),
        layout_bits(stun_message_type_layout()) == 14,
        forall|i: int| 0 <= i <= 14 ==> #[trigger] layout_bits(stun_message_type_layout().take(i)) == i,
{
    let l = stun_message_type_layout();
    let u = FieldDef { width: 1, constraint: Constraint::Unconstrained };
    assert(l =~= Seq::new(14, |i: int| u));
    lemma_unit_layout_bits(l);
    assert forall|i: int| 0 <= i <= 14 implies #[trigger] layout_bits(l.take(i)) == i by {
        lemma_unit_layout_bits(l.take(i));
    }
}

/// A STUN message type takes exactly fourteen bits.
pub proof fn lemma_stun_framing(bytes: Seq<u8>, pos: int)
    requires
        0 <= pos,
        stun_messagetype_split_spec(bytes, pos) is Ok,
    ensures
        stun_messagetype_split_spec(bytes, pos)->Ok_0.0 == pos + 14,
        pos + 14 <= bytes.len() * 8,
{
    lemma_stun_layout_units();
    lemma_record_framing(bytes, pos, stun_message_type_layout());
    lemma_record_field_at(bytes, pos, stun_message_type_layout(), 13);
}

/// Wherever fourteen bits remain, a STUN message type decodes exactly when
/// its `c1` bit (the sixth) and its `m1` bit (the thirteenth) are both set;
/// otherwise it is a `ConstraintViolation` at its start, whatever the other
/// twelve bits hold.
pub proof fn lemma_stun_class_bits(bytes: Seq<u8>, pos: int)
    requires
        0 <= pos,
        pos + 14 <= bytes.len() * 8,
    ensures
        stun_messagetype_split_spec(bytes, pos) is Ok <==> (bit_at(bytes, pos + 5) == 1 && bit_at(
            bytes,
            pos + 12,
        ) == 1),
        !(bit_at(bytes, pos + 5) == 1 && bit_at(bytes, pos + 12) == 1)
            ==> stun_messagetype_split_spec(bytes, pos) == Err::<
            (int, StunMessageTypeSplit),
            DecodeError,
        >(DecodeError::ConstraintViolation { bit_offset: pos as usize }),
{
    let l = stun_message_type_layout();
    lemma_stun_layout_units();
    lemma_record_ok_unconstrained(bytes, pos, l);
    lemma_record_field_at(bytes, pos, l, 5);
    lemma_record_field_at(bytes, pos, l, 12);
    reveal_with_fuel(bits_value, 2);
}

} // verus!
