use vstd::prelude::*;

verus! {

/// The length of an inline slice: a number from 0 to 20.
///
/// Being an enum, it leaves the byte values above 20 unused, so that the
/// slice's representation can tell its two forms apart without a separate tag.
#[derive(Clone, Copy, Debug)]
pub(crate) enum InlineLen {
    Len0,
    Len1,
    Len2,
    Len3,
    Len4,
    Len5,
    Len6,
    Len7,
    Len8,
    Len9,
    Len10,
    Len11,
    Len12,
    Len13,
    Len14,
    Len15,
    Len16,
    Len17,
    Len18,
    Len19,
    Len20,
}

impl InlineLen {
    /// The number this length stands for.
    pub(crate) open spec fn value(self) -> nat {
        match self {
            InlineLen::Len0 => 0,
            InlineLen::Len1 => 1,
            InlineLen::Len2 => 2,
            InlineLen::Len3 => 3,
            InlineLen::Len4 => 4,
            InlineLen::Len5 => 5,
            InlineLen::Len6 => 6,
            InlineLen::Len7 => 7,
            InlineLen::Len8 => 8,
            InlineLen::Len9 => 9,
            InlineLen::Len10 => 10,
            InlineLen::Len11 => 11,
            InlineLen::Len12 => 12,
            InlineLen::Len13 => 13,
            InlineLen::Len14 => 14,
            InlineLen::Len15 => 15,
            InlineLen::Len16 => 16,
            InlineLen::Len17 => 17,
            InlineLen::Len18 => 18,
            InlineLen::Len19 => 19,
            InlineLen::Len20 => 20,
        }
    }

    /// Returns the number this length stands for.
    pub(crate) fn get(self) -> (n: usize)
        ensures
            n == self.value(),
            n <= 20,
    {
        match self {
            InlineLen::Len0 => 0,
            InlineLen::Len1 => 1,
            InlineLen::Len2 => 2,
            InlineLen::Len3 => 3,
            InlineLen::Len4 => 4,
            InlineLen::Len5 => 5,
            InlineLen::Len6 => 6,
            InlineLen::Len7 => 7,
            InlineLen::Len8 => 8,
            InlineLen::Len9 => 9,
            InlineLen::Len10 => 10,
            InlineLen::Len11 => 11,
            InlineLen::Len12 => 12,
            InlineLen::Len13 => 13,
            InlineLen::Len14 => 14,
            InlineLen::Len15 => 15,
            InlineLen::Len16 => 16,
            InlineLen::Len17 => 17,
            InlineLen::Len18 => 18,
            InlineLen::Len19 => 19,
            InlineLen::Len20 => 20,
        }
    }

    /// The length that stands for `n`.
    pub(crate) fn new(n: usize) -> (len: InlineLen)
        requires
            n <= 20,
        ensures
            len.value() == n,
    {
        if n == 0 {
            InlineLen::Len0
        } else if n == 1 {
            InlineLen::Len1
        } else if n == 2 {
            InlineLen::Len2
        } else if n == 3 {
            InlineLen::Len3
        } else if n == 4 {
            InlineLen::Len4
        } else if n == 5 {
            InlineLen::Len5
        } else if n == 6 {
            InlineLen::Len6
        } else if n == 7 {
            InlineLen::Len7
        } else if n == 8 {
            InlineLen::Len8
        } else if n == 9 {
            InlineLen::Len9
        } else if n == 10 {
            InlineLen::Len10
        } else if n == 11 {
            InlineLen::Len11
        } else if n == 12 {
            InlineLen::Len12
        } else if n == 13 {
            InlineLen::Len13
        } else if n == 14 {
            InlineLen::Len14
        } else if n == 15 {
            InlineLen::Len15
        } else if n == 16 {
            InlineLen::Len16
        } else if n == 17 {
            InlineLen::Len17
        } else if n == 18 {
            InlineLen::Len18
        } else if n == 19 {
            InlineLen::Len19
        } else {
            InlineLen::Len20
        }
    }
}

} // verus!
