use vstd::arithmetic::div_mod::{
    lemma_div_is_ordered, lemma_div_multiples_vanish, lemma_fundamental_div_mod,
    lemma_mod_multiples_basic,
};
use vstd::arithmetic::mul::{lemma_mul_inequality, lemma_mul_is_commutative};
use vstd::prelude::*;

use crate::error::ReinterpretError;
use crate::sizing::{byte_len, count_outcome};
use crate::transfer::{transfer_outcome, OwnedLayout};

verus! {

/// Sizing an owned buffer whose length is within its capacity gives a length within the new
/// capacity.
pub proof fn lemma_transfer_keeps_len_within_capacity(
    len: usize,
    capacity: usize,
    size_source: usize,
    size_dest: usize,
)
    requires
        len <= capacity,
        count_outcome(len, size_source, size_dest) is Ok,
        count_outcome(capacity, size_source, size_dest) is Ok,
    ensures
        count_outcome(len, size_source, size_dest)->Ok_0 <= count_outcome(
            capacity,
            size_source,
            size_dest,
        )->Ok_0,
{
    if size_source != 0 {
        lemma_mul_inequality(len as int, capacity as int, size_source as int);
        lemma_div_is_ordered(
            byte_len(len as int, size_source as int),
            byte_len(capacity as int, size_source as int),
            size_dest as int,
        );
    }
}

/// Size law: a successful reinterpretation keeps the byte length, and keeps the count when both
/// element types are zero-sized.
pub proof fn lemma_size_law(count: usize, size_source: usize, size_dest: usize)
    requires
        count_outcome(count, size_source, size_dest) is Ok,
    ensures
        byte_len(count_outcome(count, size_source, size_dest)->Ok_0 as int, size_dest as int)
            == byte_len(count as int, size_source as int),
        size_source == 0 ==> count_outcome(count, size_source, size_dest)->Ok_0 == count,
{
    if size_source != 0 {
        let bytes = byte_len(count as int, size_source as int);
        lemma_fundamental_div_mod(bytes, size_dest as int);
        lemma_mul_is_commutative(size_dest as int, bytes / (size_dest as int));
    }
}

/// Round trip: where a count of source elements can be read as destination elements, the result
/// can always be read back, and gives the original count.
pub proof fn lemma_round_trip(count: usize, size_source: usize, size_dest: usize)
    requires
        count_outcome(count, size_source, size_dest) is Ok,
    ensures
        count_outcome(count_outcome(count, size_source, size_dest)->Ok_0, size_dest, size_source)
            == Ok::<usize, ReinterpretError>(count),
{
    lemma_size_law(count, size_source, size_dest);
    if size_source != 0 {
        let bytes = byte_len(count as int, size_source as int);
        lemma_mul_is_commutative(count as int, size_source as int);
        lemma_mod_multiples_basic(count as int, size_source as int);
        lemma_div_multiples_vanish(count as int, size_source as int);
        assert(bytes % (size_source as int) == 0);
        assert(bytes / (size_source as int) == count);
    }
}

/// Size law for owned buffers: a successful transfer keeps the byte length of both the elements
/// and the capacity, and keeps both counts when both element types are zero-sized.
pub proof fn lemma_transfer_size_law(
    len: usize,
    capacity: usize,
    size_source: usize,
    size_dest: usize,
)
    requires
        transfer_outcome(len, capacity, size_source, size_dest) is Ok,
    ensures
        ({
            let out = transfer_outcome(len, capacity, size_source, size_dest)->Ok_0;
            &&& byte_len(out.len as int, size_dest as int) == byte_len(len as int, size_source as int)
            &&& byte_len(out.capacity as int, size_dest as int) == byte_len(
                capacity as int,
                size_source as int,
            )
            &&& size_source == 0 ==> out.len == len && out.capacity == capacity
        }),
{
    lemma_size_law(len, size_source, size_dest);
    lemma_size_law(capacity, size_source, size_dest);
}

/// Round trip for owned buffers: a buffer that was handed over can always be handed back, and
/// then has its original length and capacity.
pub proof fn lemma_transfer_round_trip(
    len: usize,
    capacity: usize,
    size_source: usize,
    size_dest: usize,
)
    requires
        transfer_outcome(len, capacity, size_source, size_dest) is Ok,
    ensures
        ({
            let out = transfer_outcome(len, capacity, size_source, size_dest)->Ok_0;
            transfer_outcome(out.len, out.capacity, size_dest, size_source) == Ok::<
                OwnedLayout,
                ReinterpretError,
            >(OwnedLayout { len, capacity })
        }),
{
    lemma_round_trip(len, size_source, size_dest);
    lemma_round_trip(capacity, size_source, size_dest);
}

/// Zero-size symmetry: where exactly one of the two element types is zero-sized, every view and
/// every transfer fails with `ZeroSizedMismatch`, whatever the count and capacity.
pub proof fn lemma_zero_size_symmetry(
    len: usize,
    capacity: usize,
    size_source: usize,
    size_dest: usize,
)
    requires
        (size_source == 0) != (size_dest == 0),
    ensures
        count_outcome(len, size_source, size_dest) == Err::<usize, ReinterpretError>(
            ReinterpretError::ZeroSizedMismatch { size_source, size_dest },
        ),
        transfer_outcome(len, capacity, size_source, size_dest) == Err::<
            OwnedLayout,
            ReinterpretError,
        >(ReinterpretError::ZeroSizedMismatch { size_source, size_dest }),
{
}

/// Zero-sized elements read as zero-sized elements keep their count, and an owned buffer of them
/// keeps its capacity as it stands, whatever value its allocation reports.
pub proof fn lemma_zero_sized_pass_through(len: usize, capacity: usize)
    ensures
        count_outcome(len, 0, 0) == Ok::<usize, ReinterpretError>(len),
        transfer_outcome(len, capacity, 0, 0) == Ok::<OwnedLayout, ReinterpretError>(
            OwnedLayout { len, capacity },
        ),
{
}

/// Capacity independence: an owned buffer whose length splits evenly into destination elements
/// but whose capacity does not fails with `MisalignedCapacity`, though its length alone passes.
pub proof fn lemma_capacity_independence(
    len: usize,
    capacity: usize,
    size_source: usize,
    size_dest: usize,
)
    requires
        len <= capacity,
        size_source != 0,
        size_dest != 0,
        byte_len(capacity as int, size_source as int) <= usize::MAX,
        byte_len(len as int, size_source as int) % (size_dest as int) == 0,
        byte_len(capacity as int, size_source as int) % (size_dest as int) != 0,
    ensures
        count_outcome(len, size_source, size_dest) is Ok,
        transfer_outcome(len, capacity, size_source, size_dest) == Err::<
            OwnedLayout,
            ReinterpretError,
        >(ReinterpretError::MisalignedCapacity { capacity, size_source, size_dest }),
{
    lemma_mul_inequality(len as int, capacity as int, size_source as int);
}

} // verus!
