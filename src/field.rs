use vstd::prelude::*;

use crate::bits::{take_spec, yields, BitCursor};
use crate::error::DecodeError;

verus! {

/// The bytes that follow a header, borrowed from the decoded buffer.
#[derive(Debug, Clone, Copy, PartialEq, Eq)]
pub struct Payload<'a>(pub &'a [u8]);

/// What a decoded field's value must satisfy.
#[derive(Clone, Copy)]
pub enum Constraint<'c> {
    /// Any value.
    Unconstrained,
    /// Exactly this value; another is a `ConstraintViolation`.
    Literal(u64),
    /// One of these discriminants; another is an `UnknownDiscriminant`.
    OneOf(&'c [u64]),
}

/// The outcome of checking `value`, read from the field that starts at bit
/// `pos`, against `c`.
pub open spec fn check_spec(c: Constraint, pos: int, value: u64) -> Result<u64, DecodeError> {
    match c {
        Constraint::Unconstrained => Ok(value),
        Constraint::Literal(x) => if value == x {
            Ok(value)
        } else {
            Err(DecodeError::ConstraintViolation { bit_offset: pos as usize })
        },
        Constraint::OneOf(allowed) => if allowed@.contains(value) {
            Ok(value)
        } else {
            Err(DecodeError::UnknownDiscriminant { bit_offset: pos as usize })
        },
    }
}

/// Decoding a field of `width` bits at bit `pos` under constraint `c`.
pub open spec fn field_spec(bytes: Seq<u8>, pos: int, width: nat, c: Constraint) -> Result<
    (int, u64),
    DecodeError,
> {
    match take_spec(bytes, pos, width) {
        Ok((end, v)) => match check_spec(c, pos, v) {
            Ok(v) => Ok((end, v)),
            Err(e) => Err(e),
        },
        Err(e) => Err(e),
    }
}

/// Whether `value` is one of `allowed`.
pub fn contains_value(allowed: &[u64], value: u64) -> (r: bool)
    ensures
        r == allowed@.contains(value),
{
    let mut i: usize = 0;
    while i < allowed.len()
        invariant
            i <= allowed@.len(),
            forall|j: int| 0 <= j < i ==> allowed@[j] != value,
        decreases allowed@.len() - i,
    {
        if allowed[i] == value {
            assert(allowed@[i as int] == value);
            return true;
        }
        i = i + 1;
    }
    false
}

/// Checks `value`, read from the field that starts at bit `pos`, against `c`.
pub fn check(c: Constraint, pos: usize, value: u64) -> (r: Result<u64, DecodeError>)
    ensures
        r == check_spec(c, pos as int, value),
{
    match c {
        Constraint::Unconstrained => Ok(value),
        Constraint::Literal(x) => if value == x {
            Ok(value)
        } else {
            Err(DecodeError::ConstraintViolation { bit_offset: pos })
        },
        Constraint::OneOf(allowed) => if contains_value(allowed, value) {
            Ok(value)
        } else {
            Err(DecodeError::UnknownDiscriminant { bit_offset: pos })
        },
    }
}

/// Decodes one field of `width` bits and applies `c` to its value.
pub fn decode_field<'a>(cursor: &BitCursor<'a>, width: usize, c: Constraint) -> (r: Result<
    (BitCursor<'a>, u64),
    DecodeError,
>)
    requires
        cursor.wf(),
        width <= 64,
    ensures
        yields(r, *cursor, field_spec(cursor.buffer@, cursor.bit_offset as int, width as nat, c)),
        r is Ok ==> r->Ok_0.0.wf(),
{
    let (next, v) = cursor.take(width)?;
    let v = check(c, cursor.bit_offset, v)?;
    Ok((next, v))
}

} // verus!
