use vstd::layout::size_of;
use vstd::prelude::*;

use crate::error::ReinterpretError;

verus! {

/// The number of bytes taken by `count` elements of `size` bytes each.
pub open spec fn byte_len(count: int, size: int) -> int {
    count * size
}

/// The sizing rule: what `count` elements of `size_source` bytes become when read as elements of
/// `size_dest` bytes.
///
/// Zero-sized elements only ever become zero-sized elements, one for one. Otherwise the bytes
/// must fit in `usize` and split evenly into destination elements.
pub open spec fn count_outcome(count: usize, size_source: usize, size_dest: usize) -> Result<
    usize,
    ReinterpretError,
> {
    if (size_source == 0) != (size_dest == 0) {
        Err(ReinterpretError::ZeroSizedMismatch { size_source, size_dest })
    } else if size_source == 0 {
        Ok(count)
    } else if byte_len(count as int, size_source as int) > usize::MAX {
        Err(ReinterpretError::ByteLengthOverflow { count, size_source })
    } else if byte_len(count as int, size_source as int) % (size_dest as int) != 0 {
        Err(ReinterpretError::MisalignedSize { count, size_source, size_dest })
    } else {
        Ok((byte_len(count as int, size_source as int) / (size_dest as int)) as usize)
    }
}

/// Computes how many elements of `size_dest` bytes the `source_count` elements of `size_source`
/// bytes make up, or why they cannot be read that way.
pub fn compute_count(source_count: usize, size_source: usize, size_dest: usize) -> (r: Result<
    usize,
    ReinterpretError,
>)
    ensures
        r == count_outcome(source_count, size_source, size_dest),
{
    if (size_source == 0) != (size_dest == 0) {
        return Err(ReinterpretError::ZeroSizedMismatch { size_source, size_dest });
    }
    if size_source == 0 {
        return Ok(source_count);
    }
    match source_count.checked_mul(size_source) {
        None => Err(ReinterpretError::ByteLengthOverflow { count: source_count, size_source }),
        Some(bytes) => {
            if bytes % size_dest != 0 {
                Err(ReinterpretError::MisalignedSize { count: source_count, size_source, size_dest })
            } else {
                Ok(bytes / size_dest)
            }
        },
    }
}

/// The rule applied to a slice of `T` read as a slice of `S`: the count that the view of `S` has.
pub open spec fn view_outcome<T, S>(len: usize) -> Result<usize, ReinterpretError> {
    count_outcome(len, size_of::<T>() as usize, size_of::<S>() as usize)
}

/// Computes the length that `slice` has when its bytes are viewed as elements of `S`, shared or
/// exclusive alike, or why they cannot be.
pub fn view_len<T, S>(slice: &[T]) -> (r: Result<usize, ReinterpretError>)
    ensures
        r == view_outcome::<T, S>(slice@.len() as usize),
{
    compute_count(slice.len(), core::mem::size_of::<T>(), core::mem::size_of::<S>())
}

} // verus!
