use vstd::prelude::*;

verus! {

/// Why a value could not be read from its string or byte form.
#[derive(Debug, Clone, Copy, PartialEq, Eq)]
pub enum TypeError {
    /// The text is malformed: the `0x` prefix is missing, or what follows is not hex.
    ParseError,
    /// The bytes are well formed but are not as many as the type holds.
    SizeMismatch,
    /// The number does not fit the width of its field.
    RangeError,
}

} // verus!
