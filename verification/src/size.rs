//! Font sizes and pixel coverages.
//!
//! Both are real numbers to the backend that draws with them. The descriptor
//! never computes with either: it keeps a size and hands it on, and a coverage
//! only passes from the backend to the sink. So each is held here as the bit
//! pattern of its IEEE 754 encoding, which loses nothing and compares exactly.

use vstd::prelude::*;

verus! {

/// The bit pattern of the binary64 number one.
pub const UNIT_SIZE_BITS: u64 = 0x3FF0_0000_0000_0000;

/// A font size: a binary64 number, held as its bit pattern.
///
/// Sizes are positive by convention. Nothing here enforces that: every bit
/// pattern is stored and handed to the backend as it is.
#[derive(Clone, Copy, PartialEq, Eq, Debug, Structural)]
pub struct FontSize {
    pub bits: u64,
}

impl FontSize {
    /// The size one, as a specification value.
    pub open spec fn spec_unit() -> Self {
        FontSize { bits: UNIT_SIZE_BITS }
    }

    /// The size one: what a descriptor made from a bare name gets.
    #[verifier::when_used_as_spec(spec_unit)]
    pub fn unit() -> (size: Self)
        ensures
            size == Self::spec_unit(),
    {
        FontSize { bits: UNIT_SIZE_BITS }
    }
}

/// How much of one pixel the glyphs cover: a binary32 number between zero and
/// one, held as its bit pattern.
#[derive(Clone, Copy, PartialEq, Eq, Debug, Structural)]
pub struct Coverage {
    pub bits: u32,
}

} // verus!
