use vstd::prelude::*;

use crate::sample::SeqNum;

verus! {

/// A sequence number carried in a field wide enough for any transport.
#[derive(Debug, Clone, Copy, PartialEq, Eq, Structural)]
pub struct SeqNumTrans(pub u32);

/// The red component of a colour.
#[derive(Debug, Clone, Copy, PartialEq, Eq, Structural)]
pub struct Red(pub u8);

/// The green component of a colour.
#[derive(Debug, Clone, Copy, PartialEq, Eq, Structural)]
pub struct Green(pub u8);

/// The blue component of a colour.
#[derive(Debug, Clone, Copy, PartialEq, Eq, Structural)]
pub struct Blue(pub u8);

/// Three colour components packed into one 24-bit value.
#[derive(Debug, Clone, Copy, PartialEq, Eq, Structural)]
pub struct CombinedVar(pub u32);

/// Widens a decoded sequence number, keeping its value.
pub fn transform_seq(seq: SeqNum) -> (r: SeqNumTrans)
    ensures
        r.0 == seq.0,
{
    SeqNumTrans(seq.0 as u32)
}

/// Packs three colour components, red in the high byte and blue in the low
/// byte of a 24-bit value.
pub fn test_function(red: Red, green: Green, blue: Blue) -> (r: CombinedVar)
    ensures
        r.0 == red.0 * 65536 + green.0 * 256 + blue.0,
{
    CombinedVar((red.0 as u32) * 65536 + (green.0 as u32) * 256 + (blue.0 as u32))
}

} // verus!
