use vstd::arithmetic::power2::{lemma2_to64, lemma_pow2_strictly_increases, pow2};
use vstd::prelude::*;

use crate::bits::{lemma_bits_value_bound, take_spec, BitCursor};
use crate::error::DecodeError;
use crate::field::{decode_field, field_spec, Constraint};

verus! {

/// One field of a record layout: its width in bits and its constraint.
#[derive(Clone, Copy)]
pub struct FieldDef<'c> {
    pub width: usize,
    pub constraint: Constraint<'c>,
}

/// Every field of the layout is at most 64 bits wide.
pub open spec fn layout_ok(fields: Seq<FieldDef>) -> bool {
    forall|i: int| 0 <= i < fields.len() ==> #[trigger] fields[i].width <= 64
}

/// The sum of the widths of `fields`.
pub open spec fn layout_bits(fields: Seq<FieldDef>) -> int
    decreases fields.len(),
{
    if fields.len() == 0 {
        0
    } else {
        fields[0].width + layout_bits(fields.drop_first())
    }
}

/// Decoding the fields of `fields` in order from bit `pos`: the end position
/// and the value of each field, or the first field's failure.
pub open spec fn record_spec(bytes: Seq<u8>, pos: int, fields: Seq<FieldDef>) -> Result<
    (int, Seq<u64>),
    DecodeError,
>
    decreases fields.len(),
{
    if fields.len() == 0 {
        Ok((pos, Seq::empty()))
    } else {
        match field_spec(bytes, pos, fields[0].width as nat, fields[0].constraint) {
            Ok((p, v)) => match record_spec(bytes, p, fields.drop_first()) {
                Ok((q, vs)) => Ok((q, seq![v] + vs)),
                Err(e) => Err(e),
            },
            Err(e) => Err(e),
        }
    }
}

/// The record decoded by `r`, built by `f` from its field values.
pub open spec fn map_record<T>(r: Result<(int, Seq<u64>), DecodeError>, f: spec_fn(Seq<u64>) -> T) -> Result<
    (int, T),
    DecodeError,
> {
    match r {
        Ok((p, vs)) => Ok((p, f(vs))),
        Err(e) => Err(e),
    }
}

/// `r` with `prefix` put before the values it holds.
pub open spec fn prepend(prefix: Seq<u64>, r: Result<(int, Seq<u64>), DecodeError>) -> Result<
    (int, Seq<u64>),
    DecodeError,
> {
    match r {
        Ok((q, vs)) => Ok((q, prefix + vs)),
        Err(e) => Err(e),
    }
}

/// A decoded record spans exactly the sum of its fields' widths and holds one
/// value per field.
pub proof fn lemma_record_framing(bytes: Seq<u8>, pos: int, fields: Seq<FieldDef>)
    requires
        record_spec(bytes, pos, fields) is Ok,
    ensures
        record_spec(bytes, pos, fields)->Ok_0.0 == pos + layout_bits(fields),
        record_spec(bytes, pos, fields)->Ok_0.1.len() == fields.len(),
    decreases fields.len(),
{
    if fields.len() > 0 {
        let (p, _) = field_spec(bytes, pos, fields[0].width as nat, fields[0].constraint)->Ok_0;
        lemma_record_framing(bytes, p, fields.drop_first());
    }
}

/// Each decoded value fits in its field's width.
pub proof fn lemma_record_values_bound(bytes: Seq<u8>, pos: int, fields: Seq<FieldDef>)
    requires
        record_spec(bytes, pos, fields) is Ok,
        layout_ok(fields),
    ensures
        forall|i: int|
            0 <= i < fields.len() ==> (#[trigger] record_spec(bytes, pos, fields)->Ok_0.1[i] as nat)
                < pow2(fields[i].width as nat),
    decreases fields.len(),
{
    if fields.len() > 0 {
        lemma_record_framing(bytes, pos, fields);
        let w = fields[0].width as nat;
        let (p, v) = field_spec(bytes, pos, w, fields[0].constraint)->Ok_0;
        lemma_bits_value_bound(bytes, pos, w);
        lemma2_to64();
        if w < 64 {
            lemma_pow2_strictly_increases(w, 64);
        }
        let rest = fields.drop_first();
        assert(layout_ok(rest)) by {
            assert forall|i: int| 0 <= i < rest.len() implies #[trigger] rest[i].width <= 64 by {
                assert(rest[i] == fields[i + 1]);
            }
        }
        lemma_record_values_bound(bytes, p, rest);
        let vs = record_spec(bytes, pos, fields)->Ok_0.1;
        let ws = record_spec(bytes, p, rest)->Ok_0.1;
        assert(vs == seq![v] + ws);
        assert forall|i: int| 0 <= i < fields.len() implies (#[trigger] vs[i] as nat) < pow2(
            fields[i].width as nat,
        ) by {
            if i > 0 {
                assert(vs[i] == ws[i - 1]);
                assert(fields[i] == rest[i - 1]);
            }
        }
    }
}

/// Decodes the fields of `fields` in order; the first failure ends the decode
/// and is returned unchanged.
pub fn decode_record<'a>(cursor: &BitCursor<'a>, fields: &[FieldDef]) -> (r: Result<
    (BitCursor<'a>, Vec<u64>),
    DecodeError,
>)
    requires
        cursor.wf(),
        layout_ok(fields@),
    ensures
        match (r, record_spec(cursor.buffer@, cursor.bit_offset as int, fields@)) {
            (Ok((c, vs)), Ok((p, ws))) => c.buffer == cursor.buffer && c.bit_offset == p && vs@
                == ws && c.wf(),
            (Err(e), Err(f)) => e == f,
            _ => false,
        },
{
    let mut values: Vec<u64> = Vec::new();
    let mut at = *cursor;
    let mut i: usize = 0;
    proof {
        assert(fields@.skip(0) =~= fields@);
        match record_spec(cursor.buffer@, cursor.bit_offset as int, fields@) {
            Ok((q, vs)) => {
                assert(values@ + vs =~= vs);
            },
            Err(_) => {},
        }
    }
    while i < fields.len()
        invariant
            i <= fields@.len(),
            layout_ok(fields@),
            at.wf(),
            at.buffer == cursor.buffer,
            record_spec(cursor.buffer@, cursor.bit_offset as int, fields@) == prepend(
                values@,
                record_spec(cursor.buffer@, at.bit_offset as int, fields@.skip(i as int)),
            ),
        decreases fields@.len() - i,
    {
        let f = fields[i];
        assert(fields@.skip(i as int)[0] == f);
        assert(fields@.skip(i as int).drop_first() =~= fields@.skip(i + 1));
        assert(f.width <= 64);
        let ghost before = values@;
        match decode_field(&at, f.width, f.constraint) {
            Ok((next, v)) => {
                values.push(v);
                proof {
                    let rest = record_spec(cursor.buffer@, next.bit_offset as int, fields@.skip(i + 1));
                    match rest {
                        Ok((q, vs)) => {
                            assert(before + (seq![v] + vs) =~= values@ + vs);
                        },
                        Err(_) => {},
                    }
                }
                at = next;
            },
            Err(e) => {
                return Err(e);
            },
        }
        i = i + 1;
    }
    assert(fields@.skip(i as int) =~= Seq::<FieldDef>::empty());
    assert(values@ + Seq::<u64>::empty() =~= values@);
    Ok((at, values))
}


/// A literal-constrained field that reads anything but its literal makes the
/// whole record a `ConstraintViolation` at that field, whatever the fields
/// around it hold, provided the fields before it decode.
pub proof fn lemma_literal_enforced(bytes: Seq<u8>, pos: int, fields: Seq<FieldDef>, i: int, x: u64)
    requires
        0 <= i < fields.len(),
        fields[i].constraint == Constraint::Literal(x),
        record_spec(bytes, pos, fields.take(i)) is Ok,
        take_spec(
            bytes,
            record_spec(bytes, pos, fields.take(i))->Ok_0.0,
            fields[i].width as nat,
        ) is Ok,
        take_spec(
            bytes,
            record_spec(bytes, pos, fields.take(i))->Ok_0.0,
            fields[i].width as nat,
        )->Ok_0.1 != x,
    ensures
        record_spec(bytes, pos, fields) == Err::<(int, Seq<u64>), DecodeError>(
            DecodeError::ConstraintViolation {
                bit_offset: record_spec(bytes, pos, fields.take(i))->Ok_0.0 as usize,
            },
        ),
    decreases i,
{
    if i == 0 {
        assert(fields.take(0) =~= Seq::<FieldDef>::empty());
    } else {
        let rest = fields.drop_first();
        assert(fields.take(i).drop_first() =~= rest.take(i - 1));
        assert(fields.take(i)[0] == fields[0]);
        let (p, v) = field_spec(bytes, pos, fields[0].width as nat, fields[0].constraint)->Ok_0;
        assert(rest[i - 1] == fields[i]);
        lemma_literal_enforced(bytes, p, rest, i - 1, x);
    }
}


/// Decoding a whole message of `declared` bits that is one record of layout
/// `fields`: its values and the bits left after it, which must be none.
pub open spec fn message_spec(bytes: Seq<u8>, declared: int, fields: Seq<FieldDef>) -> Result<
    (Seq<u64>, int),
    DecodeError,
> {
    match record_spec(bytes, 0, fields) {
        Ok((q, vs)) => if q != declared {
            Err(DecodeError::LengthMismatch { consumed: q as usize, declared: declared as usize })
        } else {
            Ok((vs, declared - q))
        },
        Err(e) => Err(e),
    }
}

/// Decodes a whole message of `declared_bits` bits that is one record of
/// layout `fields`, read from the start of `buffer`. A record that ends
/// before or after the declared length is a `LengthMismatch`, even where
/// every field decoded.
pub fn decode_fixed_message(buffer: &[u8], declared_bits: usize, fields: &[FieldDef]) -> (r: Result<
    (Vec<u64>, usize),
    DecodeError,
>)
    requires
        buffer@.len() * 8 <= usize::MAX,
        layout_ok(fields@),
    ensures
        match (r, message_spec(buffer@, declared_bits as int, fields@)) {
            (Ok((vs, rest)), Ok((ws, wrest))) => vs@ == ws && rest == wrest,
            (Err(e), Err(f)) => e == f,
            _ => false,
        },
{
    let start = BitCursor::new(buffer);
    let (end, vs) = decode_record(&start, fields)?;
    if end.bit_offset != declared_bits {
        return Err(DecodeError::LengthMismatch { consumed: end.bit_offset, declared: declared_bits });
    }
    Ok((vs, declared_bits - end.bit_offset))
}


/// A whole message decoded as one record consumes exactly the sum of its
/// fields' widths, and that sum is the declared length less what is left.
pub proof fn lemma_message_framing(bytes: Seq<u8>, declared: int, fields: Seq<FieldDef>)
    requires
        message_spec(bytes, declared, fields) is Ok,
    ensures
        layout_bits(fields) == declared - message_spec(bytes, declared, fields)->Ok_0.1,
        message_spec(bytes, declared, fields)->Ok_0.1 == 0,
        message_spec(bytes, declared, fields)->Ok_0.0.len() == fields.len(),
{
    lemma_record_framing(bytes, 0, fields);
}


/// A layout's width is never negative.
pub proof fn lemma_layout_bits_nonneg(fields: Seq<FieldDef>)
    ensures
        layout_bits(fields) >= 0,
    decreases fields.len(),
{
    if fields.len() > 0 {
        lemma_layout_bits_nonneg(fields.drop_first());
    }
}

/// A layout of one-bit fields is as wide as it has fields.
pub proof fn lemma_unit_layout_bits(fields: Seq<FieldDef>)
    requires
        forall|i: int| 0 <= i < fields.len() ==> #[trigger] fields[i].width == 1,
    ensures
        layout_bits(fields) == fields.len(),
    decreases fields.len(),
{
    if fields.len() > 0 {
        let rest = fields.drop_first();
        assert forall|i: int| 0 <= i < rest.len() implies #[trigger] rest[i].width == 1 by {
            assert(rest[i] == fields[i + 1]);
        }
        lemma_unit_layout_bits(rest);
    }
}

/// Field `i` of a decoded record holds the bits at its global position: the
/// record's start plus the widths of the fields before it.
pub proof fn lemma_record_field_at(bytes: Seq<u8>, pos: int, fields: Seq<FieldDef>, i: int)
    requires
        record_spec(bytes, pos, fields) is Ok,
        0 <= i < fields.len(),
    ensures
        take_spec(bytes, pos + layout_bits(fields.take(i)), fields[i].width as nat) is Ok,
        record_spec(bytes, pos, fields)->Ok_0.1[i] == take_spec(
            bytes,
            pos + layout_bits(fields.take(i)),
            fields[i].width as nat,
        )->Ok_0.1,
    decreases i,
{
    let (p, v) = field_spec(bytes, pos, fields[0].width as nat, fields[0].constraint)->Ok_0;
    let rest = fields.drop_first();
    lemma_record_framing(bytes, pos, fields);
    if i == 0 {
        assert(fields.take(0) =~= Seq::<FieldDef>::empty());
    } else {
        assert(fields.take(i).drop_first() =~= rest.take(i - 1));
        assert(fields.take(i)[0] == fields[0]);
        assert(rest[i - 1] == fields[i]);
        lemma_record_field_at(bytes, p, rest, i - 1);
        let vs = record_spec(bytes, pos, fields)->Ok_0.1;
        let ws = record_spec(bytes, p, rest)->Ok_0.1;
        assert(vs == seq![v] + ws);
        assert(vs[i] == ws[i - 1]);
    }
}

/// A record of unconstrained fields decodes wherever the buffer holds all
/// its bits.
pub proof fn lemma_record_ok_unconstrained(bytes: Seq<u8>, pos: int, fields: Seq<FieldDef>)
    requires
        0 <= pos,
        pos + layout_bits(fields) <= bytes.len() * 8,
        forall|i: int|
            0 <= i < fields.len() ==> #[trigger] fields[i].constraint == Constraint::Unconstrained,
    ensures
        record_spec(bytes, pos, fields) is Ok,
    decreases fields.len(),
{
    if fields.len() > 0 {
        let rest = fields.drop_first();
        lemma_layout_bits_nonneg(rest);
        assert forall|i: int| 0 <= i < rest.len() implies #[trigger] rest[i].constraint
            == Constraint::Unconstrained by {
            assert(rest[i] == fields[i + 1]);
        }
        assert(fields[0].constraint == Constraint::Unconstrained);
        lemma_record_ok_unconstrained(bytes, pos + fields[0].width, rest);
    }
}

} // verus!
