use vstd::layout::size_of;
use vstd::prelude::*;

use crate::error::ReinterpretError;
use crate::laws::lemma_transfer_keeps_len_within_capacity;
use crate::sizing::{compute_count, count_outcome, view_outcome};

verus! {

/// The length and capacity of an owned buffer, both counted in elements.
#[derive(Clone, Copy, Debug, PartialEq, Eq, Structural)]
pub struct OwnedLayout {
    pub len: usize,
    pub capacity: usize,
}

impl OwnedLayout {
    /// An owned buffer never holds more elements than it has room for.
    pub open spec fn wf(self) -> bool {
        self.len <= self.capacity
    }
}

/// The rule for handing an owned buffer over to another element type: the length and the
/// capacity are each sized by `count_outcome`, the length first. A capacity whose bytes do not
/// split evenly is reported as such, even where the length passed.
pub open spec fn transfer_outcome(
    len: usize,
    capacity: usize,
    size_source: usize,
    size_dest: usize,
) -> Result<OwnedLayout, ReinterpretError> {
    match count_outcome(len, size_source, size_dest) {
        Err(e) => Err(e),
        Ok(new_len) => match count_outcome(capacity, size_source, size_dest) {
            Ok(new_capacity) => Ok(OwnedLayout { len: new_len, capacity: new_capacity }),
            Err(ReinterpretError::MisalignedSize { .. }) => Err(
                ReinterpretError::MisalignedCapacity { capacity, size_source, size_dest },
            ),
            Err(e) => Err(e),
        },
    }
}

/// Computes the length and capacity, in elements of `size_dest` bytes, of an owned buffer of
/// `len` elements of `size_source` bytes with room for `capacity` of them, or why the buffer
/// cannot change hands that way.
pub fn transfer_layout(len: usize, capacity: usize, size_source: usize, size_dest: usize) -> (r:
    Result<OwnedLayout, ReinterpretError>)
    ensures
        r == transfer_outcome(len, capacity, size_source, size_dest),
        len <= capacity && r is Ok ==> r->Ok_0.wf(),
{
    let new_len = match compute_count(len, size_source, size_dest) {
        Ok(n) => n,
        Err(e) => return Err(e),
    };
    let new_capacity = match compute_count(capacity, size_source, size_dest) {
        Ok(n) => n,
        Err(ReinterpretError::MisalignedSize { .. }) => {
            return Err(ReinterpretError::MisalignedCapacity { capacity, size_source, size_dest });
        },
        Err(e) => return Err(e),
    };
    proof {
        if len <= capacity {
            lemma_transfer_keeps_len_within_capacity(len, capacity, size_source, size_dest);
        }
    }
    Ok(OwnedLayout { len: new_len, capacity: new_capacity })
}

/// Relies on `Vec::capacity`: a vector always has room for at least the elements it holds.
#[verifier::external_body]
fn capacity_of<T>(vec: &Vec<T>) -> (r: usize)
    ensures
        r >= vec@.len(),
{
    vec.capacity()
}

/// The rule applied to a vector of `T` handed over as a vector of `S`.
pub open spec fn vec_outcome<T, S>(len: usize, capacity: usize) -> Result<
    OwnedLayout,
    ReinterpretError,
> {
    transfer_outcome(len, capacity, size_of::<T>() as usize, size_of::<S>() as usize)
}

/// Computes the length and capacity that `vec` has once its allocation holds elements of `S`,
/// or why it cannot. Whatever capacity the allocator gave, the result follows the rule for it,
/// and a layout that is returned keeps its length within its capacity. The length is sized as a
/// view of the elements would be, and its failure is reported whatever the capacity.
pub fn vec_layout<T, S>(vec: &Vec<T>) -> (r: Result<OwnedLayout, ReinterpretError>)
    ensures
        view_outcome::<T, S>(vec@.len() as usize) is Err ==> r == Err::<
            OwnedLayout,
            ReinterpretError,
        >(view_outcome::<T, S>(vec@.len() as usize)->Err_0),
        r is Ok ==> view_outcome::<T, S>(vec@.len() as usize) == Ok::<usize, ReinterpretError>(
            r->Ok_0.len,
        ),
        exists|capacity: usize|
            capacity >= vec@.len() && r == #[trigger] vec_outcome::<T, S>(
                vec@.len() as usize,
                capacity,
            ),
        r is Ok ==> r->Ok_0.wf(),
{
    let capacity = capacity_of(vec);
    let r = transfer_layout(
        vec.len(),
        capacity,
        core::mem::size_of::<T>(),
        core::mem::size_of::<S>(),
    );
    assert(r == vec_outcome::<T, S>(vec@.len() as usize, capacity));
    r
}

} // verus!
