use vstd::prelude::*;

verus! {

/// Why a decode failed.
///
/// Offsets are global bit positions in the buffer that was being decoded.
#[derive(Debug, Clone, Copy, PartialEq, Eq, Structural)]
pub enum DecodeError {
    /// A read would run past the end of the buffer or of the current budget.
    InsufficientData { bit_offset: usize },
    /// A value broke a literal or cross-field constraint.
    ConstraintViolation { bit_offset: usize },
    /// A discriminant held a value outside its closed set.
    UnknownDiscriminant { bit_offset: usize },
    /// No candidate format of a dispatcher matched.
    NoMatchingVariant,
    /// The bits consumed by a top-level decode differ from the declared length.
    LengthMismatch { consumed: usize, declared: usize },
    /// A field asked for a context value that nothing had stored.
    InternalDefinitionError,
}

} // verus!
