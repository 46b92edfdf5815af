//! Where the indices of one object lie in the shared index buffer.

use vstd::prelude::*;

verus! {

/// The bytes that one index of the index buffer takes.
pub const INDEX_BYTES: usize = 4;

/// A run of indices in the index buffer: where it starts, counted in
/// indices, and how many indices it has.
#[derive(Clone, Copy, Debug, PartialEq, Eq, Structural)]
pub struct GeometryIndices {
    offset: usize,
    size: i32,
}

impl GeometryIndices {
    /// Where the run starts, counted in indices.
    pub closed spec fn spec_offset(&self) -> usize {
        self.offset
    }

    /// How many indices the run has.
    pub closed spec fn spec_size(&self) -> i32 {
        self.size
    }

    /// The run of `size` indices that starts at index `offset`.
    pub fn new(offset: usize, size: i32) -> (indices: GeometryIndices)
        ensures
            indices.spec_offset() == offset,
            indices.spec_size() == size,
    {
        GeometryIndices { offset: offset, size: size }
    }

    /// Where the run starts, counted in indices.
    #[verifier::when_used_as_spec(spec_offset)]
    pub fn offset(&self) -> (offset: usize)
        ensures
            offset == self.spec_offset(),
    {
        self.offset
    }

    /// How many indices the run has.
    #[verifier::when_used_as_spec(spec_size)]
    pub fn size(&self) -> (size: i32)
        ensures
            size == self.spec_size(),
    {
        self.size
    }

    /// Where the run starts, counted in bytes. The product wraps around
    /// where it does not fit.
    pub fn byte_offset(&self) -> (bytes: usize)
        ensures
            bytes == (self.spec_offset() * INDEX_BYTES) % (usize::MAX + 1),
    {
        self.offset.wrapping_mul(INDEX_BYTES)
    }
}

} // verus!
