use reinterpret::{compute_count, transfer_layout, vec_layout, view_len, OwnedLayout, ReinterpretError};

#[derive(Debug, Clone, PartialEq)]
struct Pair {
    a: (),
    b: (),
}

#[test]
fn three_wide_records_flatten_to_nine_scalars() {
    assert_eq!(compute_count(3, 24, 8), Ok(9));
    let records: Vec<[f64; 3]> = vec![[0.1, 1.0, 2.0], [1.2, 1.4, 2.1], [0.5, 3.2, 4.0]];
    assert_eq!(view_len::<[f64; 3], f64>(records.as_slice()), Ok(9));
    let ints: Vec<[u64; 3]> = vec![[1, 2, 3], [4, 5, 6], [7, 8, 9]];
    assert_eq!(view_len::<[u64; 3], u64>(ints.as_slice()), Ok(9));
}

#[test]
fn scalars_group_back_into_records() {
    let flat: Vec<f64> = vec![0.1, 1.0, 2.0, 1.2, 1.4, 2.1, 0.5, 3.2, 4.0];
    assert_eq!(view_len::<f64, [f64; 3]>(flat.as_slice()), Ok(3));
}

#[test]
fn four_small_elements_make_two_wide_ones() {
    assert_eq!(compute_count(4, 4, 8), Ok(2));
    let words: [u32; 4] = [1, 2, 3, 4];
    assert_eq!(view_len::<u32, u64>(&words), Ok(2));
}

#[test]
fn two_bytes_do_not_split_into_eight() {
    assert_eq!(
        compute_count(1, 2, 8),
        Err(ReinterpretError::MisalignedSize { count: 1, size_source: 2, size_dest: 8 })
    );
    let one: [u16; 1] = [7];
    assert_eq!(
        view_len::<u16, u64>(&one),
        Err(ReinterpretError::MisalignedSize { count: 1, size_source: 2, size_dest: 8 })
    );
}

#[test]
fn owned_length_misaligned_fails_on_length() {
    assert_eq!(
        transfer_layout(5, 5, 2, 8),
        Err(ReinterpretError::MisalignedSize { count: 5, size_source: 2, size_dest: 8 })
    );
}

#[test]
fn owned_capacity_misaligned_fails_on_capacity() {
    assert_eq!(compute_count(4, 2, 8), Ok(1));
    assert_eq!(
        transfer_layout(4, 5, 2, 8),
        Err(ReinterpretError::MisalignedCapacity { capacity: 5, size_source: 2, size_dest: 8 })
    );
}

#[test]
fn vec_with_misaligned_capacity_fails_on_capacity() {
    let mut v: Vec<u16> = Vec::with_capacity(5);
    v.extend([1u16, 2, 3, 4]);
    assert_eq!(v.capacity(), 5);
    assert_eq!(
        vec_layout::<u16, u64>(&v),
        Err(ReinterpretError::MisalignedCapacity { capacity: 5, size_source: 2, size_dest: 8 })
    );
}

#[test]
fn vec_capacity_is_sized_apart_from_length() {
    let mut v: Vec<u16> = Vec::with_capacity(10);
    v.push(1);
    v.push(2);
    assert_eq!(v.capacity(), 10);
    assert_eq!(vec_layout::<u16, u32>(&v), Ok(OwnedLayout { len: 1, capacity: 5 }));
}

#[test]
fn vec_of_triples_becomes_vec_of_scalars() {
    let v: Vec<[f64; 3]> = vec![[0.5, 1.0, 2.0], [1.2, 1.4, 2.1], [0.5, 3.2, 4.0]];
    let layout = vec_layout::<[f64; 3], f64>(&v).unwrap();
    assert_eq!(layout.len, 9);
    assert_eq!(layout.capacity, v.capacity() * 3);
}

#[test]
fn zero_sized_elements_keep_count_and_capacity() {
    let units = vec![(), ()];
    assert_eq!(view_len::<(), Pair>(units.as_slice()), Ok(2));
    assert_eq!(
        vec_layout::<(), Pair>(&units),
        Ok(OwnedLayout { len: 2, capacity: usize::MAX })
    );
    let pairs = vec![Pair { a: (), b: () }, Pair { a: (), b: () }];
    assert_eq!(view_len::<Pair, ()>(pairs.as_slice()), Ok(2));
    assert_eq!(
        vec_layout::<Pair, ()>(&pairs),
        Ok(OwnedLayout { len: 2, capacity: usize::MAX })
    );
    assert_eq!(transfer_layout(2, usize::MAX, 0, 0), Ok(OwnedLayout { len: 2, capacity: usize::MAX }));
}

#[test]
fn zero_sized_and_sized_never_mix() {
    assert_eq!(
        compute_count(7, 0, 4),
        Err(ReinterpretError::ZeroSizedMismatch { size_source: 0, size_dest: 4 })
    );
    assert_eq!(
        compute_count(7, 4, 0),
        Err(ReinterpretError::ZeroSizedMismatch { size_source: 4, size_dest: 0 })
    );
    assert_eq!(
        compute_count(0, 4, 0),
        Err(ReinterpretError::ZeroSizedMismatch { size_source: 4, size_dest: 0 })
    );
    let units = vec![(), (), ()];
    assert_eq!(
        view_len::<(), u8>(units.as_slice()),
        Err(ReinterpretError::ZeroSizedMismatch { size_source: 0, size_dest: 1 })
    );
    let bytes: Vec<u8> = vec![1, 2];
    assert_eq!(
        vec_layout::<u8, ()>(&bytes),
        Err(ReinterpretError::ZeroSizedMismatch { size_source: 1, size_dest: 0 })
    );
}

#[test]
fn round_trip_gives_back_the_count() {
    let there = compute_count(6, 4, 8).unwrap();
    assert_eq!(there, 3);
    assert_eq!(compute_count(there, 8, 4), Ok(6));
    let owned = transfer_layout(6, 10, 4, 8).unwrap();
    assert_eq!(owned, OwnedLayout { len: 3, capacity: 5 });
    assert_eq!(
        transfer_layout(owned.len, owned.capacity, 8, 4),
        Ok(OwnedLayout { len: 6, capacity: 10 })
    );
}

#[test]
fn size_law_holds_on_a_success() {
    let n = compute_count(10, 12, 8).unwrap();
    assert_eq!(n, 15);
    assert_eq!(n * 8, 10 * 12);
}

#[test]
fn empty_buffer_passes_for_any_sized_pair() {
    assert_eq!(compute_count(0, 3, 8), Ok(0));
    let empty: Vec<u8> = Vec::new();
    assert_eq!(view_len::<u8, [u8; 3]>(empty.as_slice()), Ok(0));
}

#[test]
fn byte_length_past_usize_is_refused() {
    assert_eq!(
        compute_count(usize::MAX, 2, 1),
        Err(ReinterpretError::ByteLengthOverflow { count: usize::MAX, size_source: 2 })
    );
    assert_eq!(
        transfer_layout(1, usize::MAX, 2, 2),
        Err(ReinterpretError::ByteLengthOverflow { count: usize::MAX, size_source: 2 })
    );
    assert_eq!(compute_count(usize::MAX, 1, 1), Ok(usize::MAX));
}
