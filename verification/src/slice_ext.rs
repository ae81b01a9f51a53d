//! Bounds-checked slice access that reports failures through [`EzError`]
//! instead of aborting.
//!
//! Every range shape is normalized to the canonical half-open `[start, end)`
//! form and checked by one policy: a malformed range (`start > end`, or an
//! inclusive range whose end cannot be converted to an exclusive one) is
//! [`ErrorType::InvalidRange`]; a range whose start reaches the length or
//! whose end passes it is [`ErrorType::RangeOutOfBounds`].

use crate::err::{ConstLocation, ErrorType, EzError};
use vstd::prelude::*;
use vstd::slice::slice_index_get;
use vstd::slice::slice_subrange;

verus! {

/// Declares std's `RangeTo` so it can stand in signatures here.
#[verifier::external_type_specification]
#[verifier::reject_recursive_types(Idx)]
pub struct ExRangeTo<Idx>(std::ops::RangeTo<Idx>);

/// Declares std's `RangeFrom` so it can stand in signatures here.
#[verifier::external_type_specification]
#[verifier::reject_recursive_types(Idx)]
pub struct ExRangeFrom<Idx>(std::ops::RangeFrom<Idx>);

/// Declares std's `RangeFull` so it can stand in signatures here.
#[verifier::external_type_specification]
pub struct ExRangeFull(std::ops::RangeFull);

/// Declares std's `RangeToInclusive` so it can stand in signatures here.
#[verifier::external_type_specification]
#[verifier::reject_recursive_types(Idx)]
pub struct ExRangeToInclusive<Idx>(std::ops::RangeToInclusive<Idx>);

/// Relies on std's `RangeInclusive::start`: the lower bound of the range.
pub assume_specification<Idx>[ std::ops::RangeInclusive::<Idx>::start ](
    r: &std::ops::RangeInclusive<Idx>,
) -> (s: &Idx)
    ensures
        *s == r@.start,
;

/// Relies on std's `RangeInclusive::end`: the upper bound of the range.
pub assume_specification<Idx>[ std::ops::RangeInclusive::<Idx>::end ](
    r: &std::ops::RangeInclusive<Idx>,
) -> (e: &Idx)
    ensures
        *e == r@.end,
;

/// Extension trait for slices: fallible access.
pub trait SliceExt<I, O: ?Sized> {
    /// Returns a reference to an element or subslice depending on the type
    /// of index.
    ///
    /// - If given a position, returns a reference to the element at that
    ///   position or `Err(_)` if out of bounds.
    /// - If given a range, returns the subslice corresponding to that range,
    ///   or `Err(_)` if out of bounds.
    fn eget(&self, index: I) -> Result<&O, EzError>;
}

/// Mutable version of [`SliceExt`].
pub trait SliceExtMut<I, O: ?Sized> {
    /// Returns a mutable reference to an element or subslice depending on
    /// the type of index (see [`SliceExt::eget`]) or `Err(_)` if the index
    /// is out of bounds.
    fn eget_mut(&mut self, index: I) -> Result<&mut O, EzError>;
}

/// An error freshly constructed by the access layer: the given kind, with
/// no call sites recorded yet.
pub open spec fn fresh_err(e: EzError, ty: ErrorType) -> bool {
    e.ty_spec() == ty && e.frames_spec() == Seq::<ConstLocation>::empty()
}

/// The verdict of the canonical bounded-range check for `[start, end)`
/// against a sequence of length `len`: `Ok(())` when the subslice may be
/// taken, otherwise the kind of the failure.
pub open spec fn range_verdict(start: usize, end: usize, len: nat) -> Result<(), ErrorType> {
    if start > end {
        Err(ErrorType::InvalidRange)
    } else if start >= len || end > len {
        Err(ErrorType::RangeOutOfBounds(start, end, len as usize))
    } else {
        Ok(())
    }
}

/// Relies on std's mutable slice indexing: a mutable borrow of the element
/// at the given in-bounds position.
#[verifier::external_body]
fn slice_index_get_mut<T>(slice: &mut [T], i: usize) -> (p: &mut T)
    requires
        i < old(slice)@.len(),
    ensures
        *p == old(slice)@[i as int],
        final(slice)@ == old(slice)@.update(i as int, *final(p)),
{
    &mut slice[i]
}

/// Relies on std's mutable range indexing: a mutable borrow of the subslice
/// at the given in-bounds positions. Writes through the borrow replace that
/// segment of the slice; its length cannot change.
#[verifier::external_body]
fn slice_subrange_mut<T>(slice: &mut [T], i: usize, j: usize) -> (out: &mut [T])
    requires
        i <= j <= old(slice)@.len(),
    ensures
        out@ == old(slice)@.subrange(i as int, j as int),
        final(out)@.len() == j - i,
        final(slice)@ == old(slice)@.subrange(0, i as int) + final(out)@ + old(slice)@.subrange(
            j as int,
            old(slice)@.len() as int,
        ),
{
    &mut slice[i..j]
}

impl<T> SliceExt<usize, T> for [T] {
    fn eget(&self, index: usize) -> (r: Result<&T, EzError>)
        ensures
            index < self@.len() ==> (r matches Ok(v) && *v == self@[index as int]),
            index >= self@.len() ==> (r matches Err(e) && fresh_err(
                e,
                ErrorType::IndexOutOfBounds(index, self@.len() as usize),
            )),
    {
        if index < self.len() {
            Ok(slice_index_get(self, index))
        } else {
            Err(EzError::new(ErrorType::IndexOutOfBounds(index, self.len())))
        }
    }
}

impl<T> SliceExtMut<usize, T> for [T] {
    fn eget_mut(&mut self, index: usize) -> (r: Result<&mut T, EzError>)
        ensures
            index < old(self)@.len() ==> (r matches Ok(p) && *p == old(self)@[index as int]
                && final(self)@ == old(self)@.update(index as int, *final(p))),
            index >= old(self)@.len() ==> final(self)@ == old(self)@ && (r matches Err(e)
                && fresh_err(e, ErrorType::IndexOutOfBounds(index, old(self)@.len() as usize))),
    {
        let n: usize = self.len();
        if index < n {
            Ok(slice_index_get_mut(self, index))
        } else {
            Err(EzError::new(ErrorType::IndexOutOfBounds(index, n)))
        }
    }
}

impl<T> SliceExt<std::ops::Range<usize>, [T]> for [T] {
    fn eget(&self, index: std::ops::Range<usize>) -> (r: Result<&[T], EzError>)
        ensures
            range_verdict(index.start, index.end, self@.len()) matches Err(ty) ==> (r matches Err(
                e,
            ) && fresh_err(e, ty)),
            range_verdict(index.start, index.end, self@.len()) is Ok ==> (r matches Ok(v) && v@
                == self@.subrange(index.start as int, index.end as int)),
    {
        if index.start > index.end {
            Err(EzError::new(ErrorType::InvalidRange))
        } else if index.start >= self.len() || index.end > self.len() {
            Err(EzError::new(ErrorType::RangeOutOfBounds(index.start, index.end, self.len())))
        } else {
            Ok(slice_subrange(self, index.start, index.end))
        }
    }
}

impl<T> SliceExtMut<std::ops::Range<usize>, [T]> for [T] {
    fn eget_mut(&mut self, index: std::ops::Range<usize>) -> (r: Result<&mut [T], EzError>)
        ensures
            range_verdict(index.start, index.end, old(self)@.len()) matches Err(ty) ==> final(self)@ == old(self)@ && (r matches Err(e) && fresh_err(e, ty)),
            range_verdict(index.start, index.end, old(self)@.len()) is Ok ==> (r matches Ok(v) && v@
                == old(self)@.subrange(index.start as int, index.end as int) && final(v)@.len()
                == index.end - index.start && final(self)@ == old(self)@.subrange(
                0,
                index.start as int,
            ) + final(v)@ + old(self)@.subrange(index.end as int, old(self)@.len() as int)),
    {
        let n: usize = self.len();
        if index.start > index.end {
            Err(EzError::new(ErrorType::InvalidRange))
        } else if index.start >= n || index.end > n {
            Err(EzError::new(ErrorType::RangeOutOfBounds(index.start, index.end, n)))
        } else {
            Ok(slice_subrange_mut(self, index.start, index.end))
        }
    }
}

impl<T> SliceExt<std::ops::RangeTo<usize>, [T]> for [T] {
    fn eget(&self, index: std::ops::RangeTo<usize>) -> (r: Result<&[T], EzError>)
        ensures
            range_verdict(0, index.end, self@.len()) matches Err(ty) ==> (r matches Err(e)
                && fresh_err(e, ty)),
            range_verdict(0, index.end, self@.len()) is Ok ==> (r matches Ok(v) && v@
                == self@.subrange(0, index.end as int)),
    {
        self.eget(0..index.end)
    }
}

impl<T> SliceExtMut<std::ops::RangeTo<usize>, [T]> for [T] {
    fn eget_mut(&mut self, index: std::ops::RangeTo<usize>) -> (r: Result<&mut [T], EzError>)
        ensures
            range_verdict(0, index.end, old(self)@.len()) matches Err(ty) ==> final(self)@ == old(self)@ && (r matches Err(e) && fresh_err(e, ty)),
            range_verdict(0, index.end, old(self)@.len()) is Ok ==> (r matches Ok(v) && v@ == old(self)@.subrange(0, index.end as int) && final(v)@.len() == index.end && final(self)@
                == final(v)@ + old(self)@.subrange(index.end as int, old(self)@.len() as int)),
    {
        let r = self.eget_mut(0..index.end);
        proof {
            if range_verdict(0, index.end, old(self)@.len()) is Ok {
                assert(old(self)@.subrange(0, 0) + final(r->Ok_0)@ =~= final(r->Ok_0)@);
            }
        }
        r
    }
}

impl<T> SliceExt<std::ops::RangeFrom<usize>, [T]> for [T] {
    fn eget(&self, index: std::ops::RangeFrom<usize>) -> (r: Result<&[T], EzError>)
        ensures
            range_verdict(index.start, self@.len() as usize, self@.len()) matches Err(ty) ==> (
            r matches Err(e) && fresh_err(e, ty)),
            range_verdict(index.start, self@.len() as usize, self@.len()) is Ok ==> (r matches Ok(v)
                && v@ == self@.subrange(index.start as int, self@.len() as int)),
    {
        self.eget(index.start..self.len())
    }
}

impl<T> SliceExtMut<std::ops::RangeFrom<usize>, [T]> for [T] {
    fn eget_mut(&mut self, index: std::ops::RangeFrom<usize>) -> (r: Result<&mut [T], EzError>)
        ensures
            range_verdict(index.start, old(self)@.len() as usize, old(self)@.len()) matches Err(ty)
                ==> final(self)@ == old(self)@ && (r matches Err(e) && fresh_err(e, ty)),
            range_verdict(index.start, old(self)@.len() as usize, old(self)@.len()) is Ok ==> (
            r matches Ok(v) && v@ == old(self)@.subrange(index.start as int, old(self)@.len() as int)
                && final(v)@.len() == old(self)@.len() - index.start && final(self)@ == old(self)@.subrange(0, index.start as int) + final(v)@),
    {
        let n: usize = self.len();
        let r = self.eget_mut(index.start..n);
        proof {
            if range_verdict(index.start, old(self)@.len() as usize, old(self)@.len()) is Ok {
                assert(old(self)@.subrange(0, index.start as int) + final(r->Ok_0)@ + old(self)@.subrange(old(self)@.len() as int, old(self)@.len() as int) =~= old(self)@.subrange(0, index.start as int) + final(r->Ok_0)@);
            }
        }
        r
    }
}

impl<T> SliceExt<std::ops::RangeFull, [T]> for [T] {
    fn eget(&self, _index: std::ops::RangeFull) -> (r: Result<&[T], EzError>)
        ensures
            r matches Ok(v) && v@ == self@,
    {
        Ok(self)
    }
}

impl<T> SliceExtMut<std::ops::RangeFull, [T]> for [T] {
    fn eget_mut(&mut self, _index: std::ops::RangeFull) -> (r: Result<&mut [T], EzError>)
        ensures
            r matches Ok(v) && v@ == old(self)@ && final(self)@ == final(v)@,
    {
        Ok(self)
    }
}

impl<T> SliceExt<std::ops::RangeInclusive<usize>, [T]> for [T] {
    fn eget(&self, index: std::ops::RangeInclusive<usize>) -> (r: Result<&[T], EzError>)
        ensures
            index@.end == usize::MAX ==> (r matches Err(e) && fresh_err(
                e,
                ErrorType::InvalidRange,
            )),
            index@.end < usize::MAX ==> {
                &&& range_verdict(index@.start, (index@.end + 1) as usize, self@.len()) matches Err(
                    ty,
                ) ==> (r matches Err(e) && fresh_err(e, ty))
                &&& range_verdict(index@.start, (index@.end + 1) as usize, self@.len()) is Ok ==> (
                r matches Ok(v) && v@ == self@.subrange(index@.start as int, index@.end + 1))
            },
    {
        let start: usize = *index.start();
        let end: usize = *index.end();
        if end == usize::MAX {
            Err(EzError::new(ErrorType::InvalidRange))
        } else {
            self.eget(start..end + 1)
        }
    }
}

impl<T> SliceExtMut<std::ops::RangeInclusive<usize>, [T]> for [T] {
    fn eget_mut(&mut self, index: std::ops::RangeInclusive<usize>) -> (r: Result<
        &mut [T],
        EzError,
    >)
        ensures
            index@.end == usize::MAX ==> final(self)@ == old(self)@ && (r matches Err(e)
                && fresh_err(e, ErrorType::InvalidRange)),
            index@.end < usize::MAX ==> {
                &&& range_verdict(index@.start, (index@.end + 1) as usize, old(self)@.len())
                    matches Err(ty) ==> final(self)@ == old(self)@ && (r matches Err(e) && fresh_err(
                    e,
                    ty,
                ))
                &&& range_verdict(index@.start, (index@.end + 1) as usize, old(self)@.len()) is Ok
                    ==> (r matches Ok(v) && v@ == old(self)@.subrange(
                    index@.start as int,
                    index@.end + 1,
                ) && final(v)@.len() == index@.end + 1 - index@.start && final(self)@ == old(self)@.subrange(0, index@.start as int) + final(v)@ + old(self)@.subrange(
                    index@.end + 1,
                    old(self)@.len() as int,
                ))
            },
    {
        let start: usize = *index.start();
        let end: usize = *index.end();
        if end == usize::MAX {
            Err(EzError::new(ErrorType::InvalidRange))
        } else {
            self.eget_mut(start..end + 1)
        }
    }
}

impl<T> SliceExt<std::ops::RangeToInclusive<usize>, [T]> for [T] {
    fn eget(&self, index: std::ops::RangeToInclusive<usize>) -> (r: Result<&[T], EzError>)
        ensures
            index.end == usize::MAX ==> (r matches Err(e) && fresh_err(e, ErrorType::InvalidRange)),
            index.end < usize::MAX ==> {
                &&& range_verdict(0, (index.end + 1) as usize, self@.len()) matches Err(ty) ==> (
                r matches Err(e) && fresh_err(e, ty))
                &&& range_verdict(0, (index.end + 1) as usize, self@.len()) is Ok ==> (r matches Ok(
                    v,
                ) && v@ == self@.subrange(0, index.end + 1))
            },
    {
        if index.end == usize::MAX {
            Err(EzError::new(ErrorType::InvalidRange))
        } else {
            self.eget(0..index.end + 1)
        }
    }
}

impl<T> SliceExtMut<std::ops::RangeToInclusive<usize>, [T]> for [T] {
    fn eget_mut(&mut self, index: std::ops::RangeToInclusive<usize>) -> (r: Result<
        &mut [T],
        EzError,
    >)
        ensures
            index.end == usize::MAX ==> final(self)@ == old(self)@ && (r matches Err(e)
                && fresh_err(e, ErrorType::InvalidRange)),
            index.end < usize::MAX ==> {
                &&& range_verdict(0, (index.end + 1) as usize, old(self)@.len()) matches Err(ty)
                    ==> final(self)@ == old(self)@ && (r matches Err(e) && fresh_err(e, ty))
                &&& range_verdict(0, (index.end + 1) as usize, old(self)@.len()) is Ok ==> (
                r matches Ok(v) && v@ == old(self)@.subrange(0, index.end + 1) && final(v)@.len()
                    == index.end + 1 && final(self)@ == final(v)@ + old(self)@.subrange(
                    index.end + 1,
                    old(self)@.len() as int,
                ))
            },
    {
        if index.end == usize::MAX {
            Err(EzError::new(ErrorType::InvalidRange))
        } else {
            let r = self.eget_mut(0..index.end + 1);
            proof {
                if range_verdict(0, (index.end + 1) as usize, old(self)@.len()) is Ok {
                    assert(old(self)@.subrange(0, 0) + final(r->Ok_0)@ =~= final(r->Ok_0)@);
                }
            }
            r
        }
    }
}

} // verus!
