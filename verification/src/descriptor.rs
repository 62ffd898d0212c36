//! Where a descriptor lies in its heap, and how large a constant buffer is made.

use vstd::prelude::*;

verus! {

/// The place of the texture's shader resource view in the shader-visible heap.
pub const TEXTURE_VIEW_SLOT: u32 = 0;

/// The place of the constant buffer's view in the shader-visible heap.
pub const CONSTANT_VIEW_SLOT: u32 = 1;

/// The number of descriptors in the shader-visible heap.
pub const VIEW_COUNT: u32 = 2;

/// The multiple of bytes that the size of a constant buffer is rounded up to.
pub const CONSTANT_BUFFER_ALIGNMENT: usize = 256;

/// The handle of descriptor `index` in a heap that starts at `start` and whose
/// descriptors lie `increment` apart.
pub open spec fn handle_at(start: usize, increment: u32, index: u32) -> int {
    start + index * increment
}

/// The handle of descriptor `index` in a heap that starts at `start` and whose
/// descriptors lie `increment` apart: `start + index * increment`.
///
/// `None` exactly where that is no address.
pub fn descriptor_handle(start: usize, increment: u32, index: u32) -> (handle: Option<usize>)
    ensures
        handle is Some <==> handle_at(start, increment, index) <= usize::MAX,
        handle matches Some(h) ==> h == handle_at(start, increment, index),
{
    assert(index * increment <= 0xFFFF_FFFF * 0xFFFF_FFFF) by (nonlinear_arith)
        requires
            index <= 0xFFFF_FFFF,
            increment <= 0xFFFF_FFFF,
    ;
    let offset: u64 = index as u64 * increment as u64;
    if offset > usize::MAX as u64 {
        return None;
    }
    start.checked_add(offset as usize)
}

/// Descriptors that differ in their index differ in their handle, and the one
/// with the greater index has the greater handle.
pub proof fn lemma_handles_apart(start: usize, increment: u32, lower: u32, upper: u32)
    requires
        increment > 0,
        lower < upper,
    ensures
        handle_at(start, increment, lower) + increment <= handle_at(start, increment, upper),
{
    assert(lower * increment + increment <= upper * increment) by (nonlinear_arith)
        requires
            lower + 1 <= upper,
            increment > 0,
    ;
}

} // verus!
