use vstd::prelude::*;

verus! {

/// Why a buffer cannot be reinterpreted. Each variant carries the sizes and counts that broke the
/// rule, so that a caller can report the mismatch.
#[derive(Clone, Copy, Debug, PartialEq, Eq, Structural)]
pub enum ReinterpretError {
    /// Exactly one of the two element types is zero-sized.
    ZeroSizedMismatch { size_source: usize, size_dest: usize },
    /// The byte length of the elements is not a multiple of the destination element size.
    MisalignedSize { count: usize, size_source: usize, size_dest: usize },
    /// The byte length of an owned buffer's capacity is not a multiple of the destination
    /// element size.
    MisalignedCapacity { capacity: usize, size_source: usize, size_dest: usize },
    /// `count * size_source` bytes do not fit in `usize`.
    ByteLengthOverflow { count: usize, size_source: usize },
}

} // verus!
