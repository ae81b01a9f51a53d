use ez_err::slice_ext::{SliceExt, SliceExtMut};

#[test]
fn plain_index() {
    let arr = [6, 12, 5];

    assert_eq!(Ok(&6), arr.eget(0));
    assert_eq!(Ok(&12), arr.eget(1));
    assert_eq!(Ok(&5), arr.eget(2));
    assert!(arr.eget(3).is_err());
}

#[test]
fn plain_index_ref() {
    let arr = &[6, 12, 5];

    assert_eq!(Ok(&6), arr.eget(0));
    assert_eq!(Ok(&12), arr.eget(1));
    assert_eq!(Ok(&5), arr.eget(2));
    assert!(arr.eget(3).is_err());
}

#[test]
fn plain_index_mut() {
    let arr = &mut [6, 12, 5];

    assert_eq!(Ok(&mut 6), arr.eget_mut(0));
    assert_eq!(Ok(&mut 12), arr.eget_mut(1));
    assert_eq!(Ok(&mut 5), arr.eget_mut(2));
    assert!(arr.eget_mut(3).is_err());
}

#[test]
fn range() {
    let arr = [6, 12, 5];

    assert_eq!(Ok(&arr[0..2]), arr.eget(0..2));
    assert_eq!(Ok(&arr[1..3]), arr.eget(1..3));
    assert!(arr.eget(1..4).is_err());
}

#[test]
fn range_ref() {
    let arr = &[6, 12, 5];

    assert_eq!(Ok(&arr[0..2]), arr.eget(0..2));
    assert_eq!(Ok(&arr[1..3]), arr.eget(1..3));
    assert!(arr.eget(1..4).is_err());
}

#[test]
fn range_mut() {
    let arr = &mut [6, 12, 5];
    let clone = &mut [6, 12, 5];

    assert_eq!(Ok(&mut clone[0..2]), arr.eget_mut(0..2));
    assert_eq!(Ok(&mut clone[1..3]), arr.eget_mut(1..3));
    assert!(arr.eget_mut(1..4).is_err());
}

#[test]
fn range_to() {
    let arr = [6, 12, 5];

    assert_eq!(Ok(&arr[..2]), arr.eget(..2));
    assert_eq!(Ok(&arr[..3]), arr.eget(..3));
    assert!(arr.eget(..4).is_err());
}

#[test]
fn range_to_ref() {
    let arr = &[6, 12, 5];

    assert_eq!(Ok(&arr[..2]), arr.eget(..2));
    assert_eq!(Ok(&arr[..3]), arr.eget(..3));
    assert!(arr.eget(..4).is_err());
}

#[test]
fn range_to_mut() {
    let arr = &mut [6, 12, 5];
    let clone = &mut [6, 12, 5];

    assert_eq!(Ok(&mut clone[..2]), arr.eget_mut(..2));
    assert_eq!(Ok(&mut clone[..3]), arr.eget_mut(..3));
    assert!(arr.eget_mut(..4).is_err());
}

#[test]
fn range_from() {
    let arr = [6, 12, 5];

    assert_eq!(Ok(&arr[1..]), arr.eget(1..));
    assert_eq!(Ok(&arr[2..]), arr.eget(2..));
    assert!(arr.eget(3..).is_err());
}

#[test]
fn range_from_ref() {
    let arr = &[6, 12, 5];

    assert_eq!(Ok(&arr[1..]), arr.eget(1..));
    assert_eq!(Ok(&arr[2..]), arr.eget(2..));
    assert!(arr.eget(3..).is_err());
}

#[test]
fn range_from_mut() {
    let arr = &mut [6, 12, 5];
    let clone = &mut [6, 12, 5];

    assert_eq!(Ok(&mut clone[1..]), arr.eget_mut(1..));
    assert_eq!(Ok(&mut clone[2..]), arr.eget_mut(2..));
    assert!(arr.eget_mut(3..).is_err());
}

#[test]
fn range_full() {
    let arr = [6, 12, 5];

    assert_eq!(Ok(&arr[..]), arr.eget(..));
}

#[test]
fn range_full_ref() {
    let arr = &[6, 12, 5];

    assert_eq!(Ok(&arr[..]), arr.eget(..));
}

#[test]
fn range_full_mut() {
    let arr = &mut [6, 12, 5];
    let clone = &mut [6, 12, 5];

    assert_eq!(Ok(&mut clone[..]), arr.eget_mut(..));
}

#[test]
fn range_inclusive() {
    let arr = [6, 12, 5];

    assert_eq!(Ok(&arr[0..=1]), arr.eget(0..=1));
    assert_eq!(Ok(&arr[1..=2]), arr.eget(1..=2));
    assert!(arr.eget(1..=3).is_err());
}

#[test]
fn range_inclusive_ref() {
    let arr = &[6, 12, 5];

    assert_eq!(Ok(&arr[0..=1]), arr.eget(0..=1));
    assert_eq!(Ok(&arr[1..=2]), arr.eget(1..=2));
    assert!(arr.eget(1..=3).is_err());
}

#[test]
fn range_inclusive_mut() {
    let arr = &mut [6, 12, 5];
    let clone = &mut [6, 12, 5];

    assert_eq!(Ok(&mut clone[0..=1]), arr.eget_mut(0..=1));
    assert_eq!(Ok(&mut clone[1..=2]), arr.eget_mut(1..=2));
    assert!(arr.eget_mut(1..=3).is_err());
}

#[test]
fn range_to_inclusive() {
    let arr = [6, 12, 5];

    assert_eq!(Ok(&arr[..=1]), arr.eget(..=1));
    assert_eq!(Ok(&arr[..=2]), arr.eget(..=2));
    assert!(arr.eget(..=3).is_err());
}

#[test]
fn range_to_inclusive_ref() {
    let arr = &[6, 12, 5];

    assert_eq!(Ok(&arr[..=1]), arr.eget(..=1));
    assert_eq!(Ok(&arr[..=2]), arr.eget(..=2));
    assert!(arr.eget(..=3).is_err());
}

#[test]
fn range_to_inclusive_mut() {
    let arr = &mut [6, 12, 5];
    let clone = &mut [6, 12, 5];

    assert_eq!(Ok(&mut clone[..=1]), arr.eget_mut(..=1));
    assert_eq!(Ok(&mut clone[..=2]), arr.eget_mut(..=2));
    assert!(arr.eget_mut(..=3).is_err());
}
