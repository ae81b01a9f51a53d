use ez_err::err::ErrorType;
use ez_err::slice_ext::{SliceExt, SliceExtMut};

#[test]
fn end_to_end_scenario() {
    let v = [10, 40, 30];

    assert_eq!(Ok(&40), v.eget(1));
    assert_eq!(Ok(&[10, 40][..]), v.eget(0..2));
    assert_eq!(&ErrorType::IndexOutOfBounds(3, 3), v.eget(3).err().unwrap().ty());
    assert_eq!(&ErrorType::RangeOutOfBounds(0, 4, 3), v.eget(0..4).err().unwrap().ty());
    assert_eq!(&ErrorType::RangeOutOfBounds(1, 4, 3), v.eget(1..=3).err().unwrap().ty());
}

#[test]
fn reversed_range_is_invalid() {
    let v = [10, 40, 30];
    assert_eq!(&ErrorType::InvalidRange, v.eget(2..1).err().unwrap().ty());
    let m = &mut [10, 40, 30];
    assert_eq!(&ErrorType::InvalidRange, m.eget_mut(2..1).err().unwrap().ty());
}

#[test]
fn inclusive_end_at_max_is_invalid() {
    let v = [10, 40, 30];
    assert_eq!(&ErrorType::InvalidRange, v.eget(0..=usize::MAX).err().unwrap().ty());
    assert_eq!(&ErrorType::InvalidRange, v.eget(..=usize::MAX).err().unwrap().ty());

    let empty: [i32; 0] = [];
    assert_eq!(&ErrorType::InvalidRange, empty.eget(0..=usize::MAX).err().unwrap().ty());
}

#[test]
fn full_range_on_empty_sequence() {
    let empty: [i32; 0] = [];
    assert_eq!(Ok(&[][..]), empty.eget(..));
}

#[test]
fn empty_range_in_the_middle_succeeds() {
    let v = [10, 40, 30];
    assert_eq!(Ok(&[][..]), v.eget(1..1));
    assert_eq!(Ok(&[][..]), v.eget(0..0));
}

// The bounded-range policy rejects an empty range that starts exactly at the
// end of the sequence, although the same empty range is accepted anywhere
// else; kept as observed.
#[test]
fn empty_range_at_end_is_out_of_bounds() {
    let v = [10, 40, 30];
    assert_eq!(&ErrorType::RangeOutOfBounds(3, 3, 3), v.eget(3..3).err().unwrap().ty());

    let empty: [i32; 0] = [];
    assert_eq!(&ErrorType::RangeOutOfBounds(0, 0, 0), empty.eget(0..0).err().unwrap().ty());
}

#[test]
fn access_errors_carry_no_call_sites() {
    let v = [10, 40, 30];
    assert!(v.eget(5).err().unwrap().frames().is_empty());
    assert!(v.eget(0..9).err().unwrap().frames().is_empty());
}

#[test]
fn index_at_largest_value() {
    let v = [10, 40, 30];
    assert_eq!(
        &ErrorType::IndexOutOfBounds(usize::MAX, 3),
        v.eget(usize::MAX).err().unwrap().ty()
    );
}

#[test]
fn mutation_through_access() {
    let x = &mut [0, 1, 2];

    if let Ok(elem) = x.eget_mut(1) {
        *elem = 42;
    }
    assert_eq!(x, &[0, 42, 2]);

    if let Ok(tail) = x.eget_mut(1..) {
        tail[0] = 7;
        tail[1] = 8;
    }
    assert_eq!(x, &[0, 7, 8]);
}
