use vstd::prelude::*;
use core::ops::{Bound, RangeBounds, Range, RangeFrom, RangeFull, RangeInclusive, RangeTo, RangeToInclusive};

verus! {

/// Makes `core::ops::RangeFrom` known to Verus, with its public fields.
#[verifier::external_type_specification]
#[verifier::reject_recursive_types(Idx)]
pub struct ExRangeFrom<Idx>(RangeFrom<Idx>);

/// Makes `core::ops::RangeTo` known to Verus, with its public fields.
#[verifier::external_type_specification]
#[verifier::reject_recursive_types(Idx)]
pub struct ExRangeTo<Idx>(RangeTo<Idx>);

/// Makes `core::ops::RangeToInclusive` known to Verus, with its public fields.
#[verifier::external_type_specification]
#[verifier::reject_recursive_types(Idx)]
pub struct ExRangeToInclusive<Idx>(RangeToInclusive<Idx>);

/// Makes `core::ops::RangeFull` known to Verus.
#[verifier::external_type_specification]
pub struct ExRangeFull(RangeFull);

/// `RangeInclusive::start` returns the range's lower bound.
pub assume_specification<Idx>[ RangeInclusive::<Idx>::start ](r: &RangeInclusive<Idx>) -> (s: &Idx)
    ensures
        *s == r@.start,
;

/// Makes `core::ops::Bound` known to Verus, with its variants.
#[verifier::external_type_specification]
#[verifier::reject_recursive_types(T)]
pub struct ExBound<T>(Bound<T>);

/// `<RangeInclusive as RangeBounds>::end_bound` reports the upper bound as
/// included, or as excluded once iteration has exhausted the range.
pub assume_specification<Idx>[ <RangeInclusive<Idx> as RangeBounds<Idx>>::end_bound ](
    r: &RangeInclusive<Idx>,
) -> (b: Bound<&Idx>)
    ensures
        b == (if r@.exhausted {
            Bound::Excluded(&r@.end)
        } else {
            Bound::Included(&r@.end)
        }),
;

/// One end of a range of byte positions.
#[derive(Clone, Copy, Debug)]
pub enum Endpoint {
    /// The position itself belongs to the range.
    Included(usize),
    /// The range stops just before the position (or starts just after it).
    Excluded(usize),
    /// The range extends to the end of the slice (or from its start).
    Unbounded,
}

/// The first position that a start endpoint admits, if it is a `usize`.
pub open spec fn first_position(start: Endpoint) -> Option<int> {
    match start {
        Endpoint::Included(n) => Some(n as int),
        Endpoint::Excluded(n) => if n < usize::MAX { Some(n + 1) } else { None },
        Endpoint::Unbounded => Some(0),
    }
}

/// The position just past the last one that an end endpoint admits, if it
/// is a `usize`; an unbounded end stops at `len`.
pub open spec fn stop_position(end: Endpoint, len: int) -> Option<int> {
    match end {
        Endpoint::Included(n) => if n < usize::MAX { Some(n + 1) } else { None },
        Endpoint::Excluded(n) => Some(n as int),
        Endpoint::Unbounded => Some(len),
    }
}

/// The positions `begin .. end` that the endpoints select in a slice of
/// `len` bytes, or `None` when they do not describe a valid sub-range.
pub open spec fn resolve_range(start: Endpoint, end: Endpoint, len: int) -> Option<(int, int)> {
    match (first_position(start), stop_position(end, len)) {
        (Some(b), Some(e)) => if b <= e <= len { Some((b, e)) } else { None },
        _ => None,
    }
}

/// A range of byte positions that [`crate::ByteSlice::slice`] accepts: the
/// standard range types over `usize`.
pub trait SliceRange {
    /// The start endpoint.
    spec fn start_point(&self) -> Endpoint;

    /// The end endpoint.
    spec fn end_point(&self) -> Endpoint;

    /// Returns the start endpoint.
    fn start_endpoint(&self) -> (e: Endpoint)
        ensures
            e == self.start_point(),
    ;

    /// Returns the end endpoint.
    fn end_endpoint(&self) -> (e: Endpoint)
        ensures
            e == self.end_point(),
    ;
}

impl SliceRange for Range<usize> {
    open spec fn start_point(&self) -> Endpoint {
        Endpoint::Included(self.start)
    }

    open spec fn end_point(&self) -> Endpoint {
        Endpoint::Excluded(self.end)
    }

    fn start_endpoint(&self) -> (e: Endpoint) {
        Endpoint::Included(self.start)
    }

    fn end_endpoint(&self) -> (e: Endpoint) {
        Endpoint::Excluded(self.end)
    }
}

impl SliceRange for RangeInclusive<usize> {
    open spec fn start_point(&self) -> Endpoint {
        Endpoint::Included(self@.start)
    }

    open spec fn end_point(&self) -> Endpoint {
        if self@.exhausted {
            Endpoint::Excluded(self@.end)
        } else {
            Endpoint::Included(self@.end)
        }
    }

    fn start_endpoint(&self) -> (e: Endpoint) {
        Endpoint::Included(*self.start())
    }

    fn end_endpoint(&self) -> (e: Endpoint) {
        match self.end_bound() {
            Bound::Included(n) => Endpoint::Included(*n),
            Bound::Excluded(n) => Endpoint::Excluded(*n),
            Bound::Unbounded => Endpoint::Unbounded,
        }
    }
}

impl SliceRange for RangeFrom<usize> {
    open spec fn start_point(&self) -> Endpoint {
        Endpoint::Included(self.start)
    }

    open spec fn end_point(&self) -> Endpoint {
        Endpoint::Unbounded
    }

    fn start_endpoint(&self) -> (e: Endpoint) {
        Endpoint::Included(self.start)
    }

    fn end_endpoint(&self) -> (e: Endpoint) {
        Endpoint::Unbounded
    }
}

impl SliceRange for RangeTo<usize> {
    open spec fn start_point(&self) -> Endpoint {
        Endpoint::Unbounded
    }

    open spec fn end_point(&self) -> Endpoint {
        Endpoint::Excluded(self.end)
    }

    fn start_endpoint(&self) -> (e: Endpoint) {
        Endpoint::Unbounded
    }

    fn end_endpoint(&self) -> (e: Endpoint) {
        Endpoint::Excluded(self.end)
    }
}

impl SliceRange for RangeToInclusive<usize> {
    open spec fn start_point(&self) -> Endpoint {
        Endpoint::Unbounded
    }

    open spec fn end_point(&self) -> Endpoint {
        Endpoint::Included(self.end)
    }

    fn start_endpoint(&self) -> (e: Endpoint) {
        Endpoint::Unbounded
    }

    fn end_endpoint(&self) -> (e: Endpoint) {
        Endpoint::Included(self.end)
    }
}

impl SliceRange for RangeFull {
    open spec fn start_point(&self) -> Endpoint {
        Endpoint::Unbounded
    }

    open spec fn end_point(&self) -> Endpoint {
        Endpoint::Unbounded
    }

    fn start_endpoint(&self) -> (e: Endpoint) {
        Endpoint::Unbounded
    }

    fn end_endpoint(&self) -> (e: Endpoint) {
        Endpoint::Unbounded
    }
}

impl SliceRange for (Endpoint, Endpoint) {
    open spec fn start_point(&self) -> Endpoint {
        self.0
    }

    open spec fn end_point(&self) -> Endpoint {
        self.1
    }

    fn start_endpoint(&self) -> (e: Endpoint) {
        self.0
    }

    fn end_endpoint(&self) -> (e: Endpoint) {
        self.1
    }
}

/// The endpoint that a std `Bound` stands for.
pub open spec fn endpoint_of(b: Bound<usize>) -> Endpoint {
    match b {
        Bound::Included(n) => Endpoint::Included(n),
        Bound::Excluded(n) => Endpoint::Excluded(n),
        Bound::Unbounded => Endpoint::Unbounded,
    }
}

/// Returns the endpoint that a std `Bound` stands for.
fn to_endpoint(b: &Bound<usize>) -> (e: Endpoint)
    ensures
        e == endpoint_of(*b),
{
    match b {
        Bound::Included(n) => Endpoint::Included(*n),
        Bound::Excluded(n) => Endpoint::Excluded(*n),
        Bound::Unbounded => Endpoint::Unbounded,
    }
}

impl SliceRange for (Bound<usize>, Bound<usize>) {
    open spec fn start_point(&self) -> Endpoint {
        endpoint_of(self.0)
    }

    open spec fn end_point(&self) -> Endpoint {
        endpoint_of(self.1)
    }

    fn start_endpoint(&self) -> (e: Endpoint) {
        to_endpoint(&self.0)
    }

    fn end_endpoint(&self) -> (e: Endpoint) {
        to_endpoint(&self.1)
    }
}

/// `a..b` selects the positions `a .. b`, when `a <= b <= len`.
pub proof fn lemma_range_positions(r: Range<usize>, len: int)
    ensures
        resolve_range(r.start_point(), r.end_point(), len) == (if r.start <= r.end <= len {
            Some((r.start as int, r.end as int))
        } else {
            None
        }),
{
}

/// `a..=b` selects the positions `a .. b + 1`; once iteration has
/// exhausted it, it selects `a .. b`.
pub proof fn lemma_range_inclusive_positions(r: RangeInclusive<usize>, len: int)
    ensures
        !r@.exhausted ==> resolve_range(r.start_point(), r.end_point(), len) == (if r@.end
            < usize::MAX && r@.start <= r@.end + 1 <= len {
            Some((r@.start as int, r@.end + 1))
        } else {
            None
        }),
        r@.exhausted ==> resolve_range(r.start_point(), r.end_point(), len) == (if r@.start
            <= r@.end <= len {
            Some((r@.start as int, r@.end as int))
        } else {
            None
        }),
{
}

/// `a..` selects the positions `a .. len`, and `..` all of them.
pub proof fn lemma_open_end_positions(r: RangeFrom<usize>, full: RangeFull, len: int)
    requires
        len >= 0,
    ensures
        resolve_range(r.start_point(), r.end_point(), len) == (if r.start <= len {
            Some((r.start as int, len))
        } else {
            None
        }),
        resolve_range(full.start_point(), full.end_point(), len) == Some((0int, len)),
{
}

/// `..b` selects the positions `0 .. b`, and `..=b` the positions `0 .. b + 1`.
pub proof fn lemma_open_start_positions(r: RangeTo<usize>, q: RangeToInclusive<usize>, len: int)
    ensures
        resolve_range(r.start_point(), r.end_point(), len) == (if r.end <= len {
            Some((0int, r.end as int))
        } else {
            None
        }),
        resolve_range(q.start_point(), q.end_point(), len) == (if q.end < usize::MAX && q.end
            + 1 <= len {
            Some((0int, q.end + 1))
        } else {
            None
        }),
{
}

/// A pair of std bounds selects what std's slicing rules give: an included
/// start `i` begins at `i`, an excluded one at `i + 1`, a missing one at 0;
/// an excluded end `j` stops before `j`, an included one after `j`, a missing
/// one at `len`. So `(Included(i), Excluded(j))` selects what `i..j` selects.
pub proof fn lemma_bound_pair_positions(i: usize, j: usize, len: int)
    requires
        len >= 0,
    ensures
        resolve_range(
            (Bound::Included(i), Bound::Excluded(j)).start_point(),
            (Bound::Included(i), Bound::Excluded(j)).end_point(),
            len,
        ) == (if i <= j <= len {
            Some((i as int, j as int))
        } else {
            None
        }),
        resolve_range(
            (Bound::Included(i), Bound::Included(j)).start_point(),
            (Bound::Included(i), Bound::Included(j)).end_point(),
            len,
        ) == (if j < usize::MAX && i <= j + 1 <= len {
            Some((i as int, j + 1))
        } else {
            None
        }),
        resolve_range(
            (Bound::Excluded(i), Bound::Excluded(j)).start_point(),
            (Bound::Excluded(i), Bound::Excluded(j)).end_point(),
            len,
        ) == (if i < usize::MAX && i + 1 <= j <= len {
            Some((i + 1, j as int))
        } else {
            None
        }),
        resolve_range(
            (Bound::Excluded(i), Bound::Included(j)).start_point(),
            (Bound::Excluded(i), Bound::Included(j)).end_point(),
            len,
        ) == (if i < usize::MAX && j < usize::MAX && i + 1 <= j + 1 <= len {
            Some((i + 1, j + 1))
        } else {
            None
        }),
        resolve_range(
            (Bound::Included(i), Bound::<usize>::Unbounded).start_point(),
            (Bound::Included(i), Bound::<usize>::Unbounded).end_point(),
            len,
        ) == (if i <= len {
            Some((i as int, len))
        } else {
            None
        }),
        resolve_range(
            (Bound::<usize>::Unbounded, Bound::Excluded(j)).start_point(),
            (Bound::<usize>::Unbounded, Bound::Excluded(j)).end_point(),
            len,
        ) == (if j <= len {
            Some((0int, j as int))
        } else {
            None
        }),
        resolve_range(
            (Bound::<usize>::Unbounded, Bound::Included(j)).start_point(),
            (Bound::<usize>::Unbounded, Bound::Included(j)).end_point(),
            len,
        ) == (if j < usize::MAX && j + 1 <= len {
            Some((0int, j + 1))
        } else {
            None
        }),
        resolve_range(
            (Bound::<usize>::Unbounded, Bound::<usize>::Unbounded).start_point(),
            (Bound::<usize>::Unbounded, Bound::<usize>::Unbounded).end_point(),
            len,
        ) == Some((0int, len)),
{
}

/// Returns the positions `begin .. end` that `range` selects in a slice of
/// `len` bytes.
pub(crate) fn resolve<R: SliceRange>(range: &R, len: usize) -> (r: (usize, usize))
    requires
        resolve_range(range.start_point(), range.end_point(), len as int) is Some,
    ensures
        resolve_range(range.start_point(), range.end_point(), len as int) == Some(
            (r.0 as int, r.1 as int),
        ),
{
    let begin = match range.start_endpoint() {
        Endpoint::Included(n) => n,
        Endpoint::Excluded(n) => n + 1,
        Endpoint::Unbounded => 0,
    };
    let end = match range.end_endpoint() {
        Endpoint::Included(n) => n + 1,
        Endpoint::Excluded(n) => n,
        Endpoint::Unbounded => len,
    };
    (begin, end)
}

} // verus!
