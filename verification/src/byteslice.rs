use vstd::prelude::*;
use vstd::slice::{slice_subrange, slice_to_vec};
use std::sync::Arc;
use crate::inline_len::InlineLen;
use crate::buffer::{holder_count, share_buffer};
use crate::range::{resolve, resolve_range, SliceRange};
use crate::order::{byte_or_zero, leading_word, radix_power, window_word};

verus! {

/// The longest slice that is stored inline, without a heap buffer.
pub const INLINE_CAPACITY: usize = 20;

/// The number of leading bytes that comparisons look at first.
pub const PREFIX_SIZE: usize = 4;

/// The three forms of a slice: the bytes themselves, padded with zeros; a
/// window into a heap buffer that is shared by reference counting; or a
/// view, whose bytes are owned by this value alone and never shared.
#[derive(Debug)]
enum Repr {
    Inline { size: InlineLen, data: [u8; 20] },
    Shared { buf: Arc<Vec<u8>>, offset: u32, len: u32 },
    View { bytes: Box<Vec<u8>> },
}

/// An immutable byte slice with small-string optimization and
/// prefix-accelerated comparison.
#[derive(Debug)]
pub struct ByteSlice {
    repr: Repr,
}

impl View for ByteSlice {
    type V = Seq<u8>;

    /// The bytes of the slice.
    closed spec fn view(&self) -> Seq<u8> {
        match self.repr {
            Repr::Inline { size, data } => data@.take(size.value() as int),
            Repr::Shared { buf, offset, len } => buf@.subrange(offset as int, offset + len),
            Repr::View { bytes } => bytes@,
        }
    }
}

impl ByteSlice {
    /// A slice is inline exactly when it is at most `INLINE_CAPACITY` bytes
    /// long; an inline slice pads its buffer with zeros, and a shared one
    /// stays inside a buffer whose length fits in a `u32`.
    #[verifier::type_invariant]
    spec fn well_formed(self) -> bool {
        match self.repr {
            Repr::Inline { size, data } => forall|i: int|
                size.value() <= i < 20 ==> #[trigger] data@[i] == 0u8,
            Repr::Shared { buf, offset, len } => {
                &&& len > INLINE_CAPACITY
                &&& offset + len <= buf@.len()
                &&& buf@.len() <= u32::MAX
            },
            Repr::View { bytes } => INLINE_CAPACITY < bytes@.len() <= u32::MAX,
        }
    }

    /// Whether the bytes are held in the value itself.
    pub closed spec fn stored_inline(&self) -> bool {
        self.repr is Inline
    }

    /// For a slice on a shared heap buffer: the bytes of the whole buffer and
    /// the position in it where the slice's window starts. `None` for inline
    /// slices and views, which hold no shared buffer.
    pub closed spec fn shared_window(&self) -> Option<(Seq<u8>, int)> {
        match self.repr {
            Repr::Shared { buf, offset, .. } => Some((buf@, offset as int)),
            _ => None,
        }
    }

    /// Whether the slice is a long view: its bytes are held by this value
    /// alone, so its reference count is always 1.
    pub closed spec fn is_view(&self) -> bool {
        self.repr is View
    }

    /// Creates a new empty slice.
    pub fn empty() -> (r: Self)
        ensures
            r@ == Seq::<u8>::empty(),
            r.stored_inline(),
    {
        let r = ByteSlice { repr: Repr::Inline { size: InlineLen::new(0), data: [0u8; 20] } };
        assert(r@ =~= Seq::<u8>::empty());
        r
    }

    /// Returns the length of the slice in bytes.
    pub fn len(&self) -> (n: usize)
        ensures
            n == self@.len(),
            n <= u32::MAX,
    {
        proof {
            use_type_invariant(self);
        }
        match &self.repr {
            Repr::Inline { size, .. } => size.get(),
            Repr::Shared { len, .. } => *len as usize,
            Repr::View { bytes } => bytes.len(),
        }
    }

    /// Returns true if the slice data is stored inline (no heap allocation).
    pub fn is_inline(&self) -> (b: bool)
        ensures
            b == (self@.len() <= INLINE_CAPACITY),
            b == self.stored_inline(),
    {
        proof {
            use_type_invariant(self);
        }
        self.len() <= INLINE_CAPACITY
    }

    /// Returns true if the slice is empty.
    pub fn is_empty(&self) -> (b: bool)
        ensures
            b == (self@.len() == 0),
    {
        self.len() == 0
    }

    /// Returns the bytes of the slice.
    pub fn as_slice(&self) -> (r: &[u8])
        ensures
            r@ == self@,
            r@.len() <= u32::MAX,
            self.shared_window() matches Some((buf, off)) ==> off + r@.len() <= buf.len()
                && r@ == buf.subrange(off, off + r@.len()),
    {
        proof {
            use_type_invariant(self);
        }
        match &self.repr {
            Repr::Inline { size, data } => {
                let s = slice_subrange(data.as_slice(), 0, size.get());
                assert(s@ =~= self@);
                s
            },
            Repr::Shared { buf, offset, len } => {
                slice_subrange(buf.as_slice(), *offset as usize, *offset as usize + *len as usize)
            },
            Repr::View { bytes } => bytes.as_slice(),
        }
    }

    /// Copies at most `INLINE_CAPACITY` bytes into an inline slice.
    fn inline_copy(src: &[u8]) -> (r: Self)
        requires
            src@.len() <= INLINE_CAPACITY,
        ensures
            r@ == src@,
            r.stored_inline(),
    {
        let src_len = src.len();
        let mut data = [0u8; 20];
        let mut i: usize = 0;
        while i < src_len
            invariant
                src_len == src@.len() <= 20,
                i <= src_len,
                forall|k: int| 0 <= k < i ==> data@[k] == src@[k],
                forall|k: int| src_len <= k < 20 ==> #[trigger] data@[k] == 0u8,
            decreases src_len - i,
        {
            data[i] = src[i];
            i = i + 1;
        }
        let r = ByteSlice { repr: Repr::Inline { size: InlineLen::new(src_len), data } };
        assert(r@ =~= src@);
        r
    }

    /// Creates a new slice from an existing byte slice.
    /// Inlines values of at most `INLINE_CAPACITY` bytes with zero allocations.
    pub fn from_slice(src: &[u8]) -> (r: Self)
        requires
            src@.len() <= u32::MAX,
        ensures
            r@ == src@,
            r.stored_inline() == (src@.len() <= INLINE_CAPACITY),
            !r.is_view(),
            src@.len() > INLINE_CAPACITY ==> r.shared_window() == Some((src@, 0int)),
            src@.len() <= INLINE_CAPACITY ==> r.shared_window() is None,
    {
        let src_len = src.len();
        if src_len <= INLINE_CAPACITY {
            Self::inline_copy(src)
        } else {
            let v = slice_to_vec(src);
            let r = ByteSlice { repr: Repr::Shared { buf: Arc::new(v), offset: 0, len: src_len as u32 } };
            assert(r@ =~= src@);
            r
        }
    }

    /// Creates a view of `src`: a slice of at most `INLINE_CAPACITY` bytes is
    /// inline, and a longer one owns a copy that it never shares.
    pub(crate) fn view_of(src: &[u8]) -> (r: Self)
        requires
            src@.len() <= u32::MAX,
        ensures
            r@ == src@,
            r.stored_inline() == (src@.len() <= INLINE_CAPACITY),
            r.is_view() == (src@.len() > INLINE_CAPACITY),
            r.shared_window() is None,
    {
        if src.len() <= INLINE_CAPACITY {
            Self::inline_copy(src)
        } else {
            ByteSlice { repr: Repr::View { bytes: Box::new(slice_to_vec(src)) } }
        }
    }

    /// The big-endian number spelled by the first four bytes, zero-padded:
    /// the key that comparisons look at before the bytes themselves.
    pub(crate) fn prefix_word(&self) -> (w: u32)
        ensures
            w == leading_word(self@),
    {
        proof {
            use_type_invariant(self);
        }
        let (b0, b1, b2, b3) = match &self.repr {
            Repr::Inline { data, .. } => (data[0], data[1], data[2], data[3]),
            Repr::Shared { buf, offset, .. } => {
                let o = *offset as usize;
                (buf[o], buf[o + 1], buf[o + 2], buf[o + 3])
            },
            Repr::View { bytes } => (bytes[0], bytes[1], bytes[2], bytes[3]),
        };
        proof {
            assert(b0 == byte_or_zero(self@, 0));
            assert(b1 == byte_or_zero(self@, 1));
            assert(b2 == byte_or_zero(self@, 2));
            assert(b3 == byte_or_zero(self@, 3));
            let s = self@;
            assert(radix_power(0) == 1);
            assert(radix_power(1) == 256);
            assert(radix_power(2) == 65536);
            assert(radix_power(3) == 16777216);
            assert(window_word(s, 4, 0) == 0);
            assert(window_word(s, 3, 1) == b3);
            assert(window_word(s, 2, 2) == b2 * 256 + b3);
            assert(window_word(s, 1, 3) == b1 * 65536 + b2 * 256 + b3);
            assert(window_word(s, 0, 4) == b0 * 16777216 + b1 * 65536 + b2 * 256 + b3);
        }
        (b0 as u32) * 16777216 + (b1 as u32) * 65536 + (b2 as u32) * 256 + (b3 as u32)
    }

    /// Returns the sub-slice that `range` selects. A result of at most
    /// `INLINE_CAPACITY` bytes is stored inline; a long sub-slice of a shared
    /// slice shares its buffer without copying, and a long sub-slice of a
    /// view is again a view.
    pub fn slice<R: SliceRange>(&self, range: R) -> (r: Self)
        requires
            resolve_range(range.start_point(), range.end_point(), self@.len() as int) is Some,
        ensures
            ({
                let (b, e) = resolve_range(
                    range.start_point(),
                    range.end_point(),
                    self@.len() as int,
                ).unwrap();
                &&& r@ == self@.subrange(b, e)
                &&& r.stored_inline() == (e - b <= INLINE_CAPACITY)
                &&& r.is_view() == (self.is_view() && e - b > INLINE_CAPACITY)
                &&& r.shared_window() == (match self.shared_window() {
                    Some((buf, off)) => if e - b > INLINE_CAPACITY {
                        Some((buf, off + b))
                    } else {
                        None
                    },
                    None => None,
                })
            }),
    {
        proof {
            use_type_invariant(self);
        }
        let self_len = self.len();
        let (begin, end) = resolve(&range, self_len);
        let sub_len = end - begin;
        if sub_len <= INLINE_CAPACITY {
            Self::inline_copy(slice_subrange(self.as_slice(), begin, end))
        } else {
            match &self.repr {
                Repr::Shared { buf, offset, .. } => {
                    let r = ByteSlice {
                        repr: Repr::Shared {
                            buf: share_buffer(buf),
                            offset: *offset + begin as u32,
                            len: sub_len as u32,
                        },
                    };
                    assert(r@ =~= self@.subrange(begin as int, end as int));
                    r
                },
                Repr::View { bytes } => {
                    let sub = slice_subrange(bytes.as_slice(), begin, end);
                    ByteSlice { repr: Repr::View { bytes: Box::new(slice_to_vec(sub)) } }
                },
                Repr::Inline { .. } => {
                    proof {
                        assert(false);
                    }
                    Self::empty()
                },
            }
        }
    }

    /// Returns the number of slices that share this slice's heap buffer
    /// (1 for inline data and for views).
    pub fn ref_count(&self) -> (n: u64)
        ensures
            n >= 1,
            self.stored_inline() ==> n == 1,
            self.is_view() ==> n == 1,
    {
        match &self.repr {
            Repr::Inline { .. } => 1,
            Repr::View { .. } => 1,
            Repr::Shared { buf, .. } => holder_count(buf),
        }
    }
}

impl Clone for ByteSlice {
    /// Copies an inline slice or a view; for a shared one, takes another
    /// handle to the same buffer.
    fn clone(&self) -> (r: Self)
        ensures
            r@ == self@,
            r.stored_inline() == self.stored_inline(),
            r.is_view() == self.is_view(),
            r.shared_window() == self.shared_window(),
    {
        proof {
            use_type_invariant(self);
        }
        match &self.repr {
            Repr::Inline { size, data } => ByteSlice { repr: Repr::Inline { size: *size, data: *data } },
            Repr::Shared { buf, offset, len } => ByteSlice {
                repr: Repr::Shared { buf: share_buffer(buf), offset: *offset, len: *len },
            },
            Repr::View { bytes } => ByteSlice {
                repr: Repr::View { bytes: Box::new(slice_to_vec(bytes.as_slice())) },
            },
        }
    }
}


/// Slicing a sub-slice selects the same bytes as slicing the original slice
/// at the shifted positions, which is how a shared sub-slice keeps its offset.
pub proof fn lemma_slice_of_slice(s: Seq<u8>, b1: int, e1: int, b2: int, e2: int)
    requires
        0 <= b1 <= e1 <= s.len(),
        0 <= b2 <= e2 <= e1 - b1,
    ensures
        s.subrange(b1, e1).subrange(b2, e2) == s.subrange(b1 + b2, b1 + e2),
{
    assert(s.subrange(b1, e1).subrange(b2, e2) =~= s.subrange(b1 + b2, b1 + e2));
}

} // verus!
