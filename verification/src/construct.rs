use vstd::prelude::*;
use vstd::slice::slice_subrange;
use vstd::std_specs::convert::FromSpecImpl;
use vstd::string::StringSliceAdditionalSpecFns;
use bytes::Bytes;
use crate::byteslice::{ByteSlice, INLINE_CAPACITY, PREFIX_SIZE};
use crate::interop::bytes_view;

verus! {

impl ByteSlice {
    /// Returns the leading bytes that comparisons look at first: the first
    /// `PREFIX_SIZE` bytes, or all of them for a shorter slice.
    pub fn prefix(&self) -> (r: &[u8])
        ensures
            r@ == self@.take(
                if self@.len() < PREFIX_SIZE {
                    self@.len() as int
                } else {
                    PREFIX_SIZE as int
                },
            ),
    {
        let len = self.len();
        let prefix_len = if len < PREFIX_SIZE {
            len
        } else {
            PREFIX_SIZE
        };
        slice_subrange(self.as_slice(), 0, prefix_len)
    }

    /// Creates a view of arbitrary bytes. The bytes are copied, so the view
    /// may outlive `src`; a long view owns its copy alone and always reports
    /// a reference count of 1, as do its clones and long sub-slices.
    pub fn from_borrowed_unchecked(src: &[u8]) -> (r: Self)
        requires
            src@.len() <= u32::MAX,
        ensures
            r@ == src@,
            r.stored_inline() == (src@.len() <= INLINE_CAPACITY),
            r.is_view() == (src@.len() > INLINE_CAPACITY),
    {
        Self::view_of(src)
    }

    /// Runs `f` on a view of `src` (see `from_borrowed_unchecked`), and
    /// returns what `f` returns. The view is scoped to the call.
    pub fn with_borrowed<F, R>(src: &[u8], f: F) -> (r: R) where F: FnOnce(&ByteSlice) -> R
        requires
            src@.len() <= u32::MAX,
            forall|v: ByteSlice| v@ == src@ ==> f.requires((&v,)),
        ensures
            exists|v: ByteSlice|
                {
                    &&& v@ == src@
                    &&& v.stored_inline() == (src@.len() <= INLINE_CAPACITY)
                    &&& v.is_view() == (src@.len() > INLINE_CAPACITY)
                    &&& f.ensures((&v,), r)
                },
    {
        let view = Self::view_of(src);
        f(&view)
    }

    /// Creates a slice from static bytes.
    pub fn from_static(src: &'static [u8]) -> (r: Self)
        requires
            src@.len() <= u32::MAX,
        ensures
            r@ == src@,
            src@.len() > INLINE_CAPACITY ==> r.shared_window() == Some((src@, 0int)),
            src@.len() <= INLINE_CAPACITY ==> r.shared_window() is None,
    {
        Self::from_slice(src)
    }

    /// Creates a slice holding the bytes of a `bytes::Bytes` buffer.
    pub fn from_bytes(b: &Bytes) -> (r: Self)
        requires
            bytes_view(*b).len() <= u32::MAX,
        ensures
            r@ == bytes_view(*b),
            bytes_view(*b).len() > INLINE_CAPACITY ==> r.shared_window() == Some(
                (bytes_view(*b), 0int),
            ),
            bytes_view(*b).len() <= INLINE_CAPACITY ==> r.shared_window() is None,
    {
        Self::from_slice(crate::interop::bytes_contents(b))
    }

    /// The slice of `src`, for the conversions, which take any input: a
    /// slice holds at most `u32::MAX` bytes, and a longer input gives the
    /// empty slice.
    fn from_any_slice(src: &[u8]) -> (r: Self)
        ensures
            src@.len() <= u32::MAX ==> r@ == src@,
            src@.len() > u32::MAX ==> r@ == Seq::<u8>::empty(),
    {
        if src.len() <= 0xffff_ffff {
            Self::from_slice(src)
        } else {
            Self::empty()
        }
    }
}

impl Default for ByteSlice {
    /// The empty slice.
    fn default() -> (r: Self)
        ensures
            r@ == Seq::<u8>::empty(),
    {
        Self::empty()
    }
}

impl core::ops::Deref for ByteSlice {
    type Target = [u8];

    fn deref(&self) -> (r: &[u8])
        ensures
            r@ == self@,
    {
        self.as_slice()
    }
}

impl AsRef<[u8]> for ByteSlice {
    fn as_ref(&self) -> (r: &[u8])
        ensures
            r@ == self@,
    {
        self.as_slice()
    }
}

impl core::borrow::Borrow<[u8]> for ByteSlice {
    fn borrow(&self) -> (r: &[u8])
        ensures
            <[u8] as View>::view(r) == self@,
    {
        self.as_slice()
    }
}

/// Calls `<[u8] as Hash>::hash`, which feeds the bytes to `state`. Nothing is
/// stated of the hasher's state.
#[verifier::external_body]
fn hash_bytes<H: core::hash::Hasher>(bytes: &[u8], state: &mut H) {
    core::hash::Hash::hash(bytes, state)
}

impl core::hash::Hash for ByteSlice {
    /// Hashes the bytes of the slice, so that equal slices hash alike
    /// whatever their form.
    fn hash<H: core::hash::Hasher>(&self, state: &mut H) {
        hash_bytes(self.as_slice(), state)
    }
}

impl<'a> From<&'a [u8]> for ByteSlice {
    /// The slice of the bytes of `s`.
    fn from(s: &'a [u8]) -> (r: Self)
        ensures
            s@.len() <= u32::MAX ==> r@ == s@,
            s@.len() > u32::MAX ==> r@ == Seq::<u8>::empty(),
    {
        Self::from_any_slice(s)
    }
}

impl<'a> FromSpecImpl<&'a [u8]> for ByteSlice {
    open spec fn obeys_from_spec() -> bool {
        false
    }

    open spec fn from_spec(v: &'a [u8]) -> Self {
        arbitrary()
    }
}

impl<'a> From<&'a str> for ByteSlice {
    /// The slice of the UTF-8 bytes of `s`.
    fn from(s: &'a str) -> (r: Self)
        ensures
            s.spec_bytes().len() <= u32::MAX ==> r@ == s.spec_bytes(),
            s.spec_bytes().len() > u32::MAX ==> r@ == Seq::<u8>::empty(),
    {
        Self::from_any_slice(s.as_bytes())
    }
}

impl<'a> FromSpecImpl<&'a str> for ByteSlice {
    open spec fn obeys_from_spec() -> bool {
        false
    }

    open spec fn from_spec(v: &'a str) -> Self {
        arbitrary()
    }
}

impl From<Vec<u8>> for ByteSlice {
    /// The slice of the bytes of `v`.
    fn from(v: Vec<u8>) -> (r: Self)
        ensures
            v@.len() <= u32::MAX ==> r@ == v@,
            v@.len() > u32::MAX ==> r@ == Seq::<u8>::empty(),
    {
        Self::from_any_slice(v.as_slice())
    }
}

impl FromSpecImpl<Vec<u8>> for ByteSlice {
    open spec fn obeys_from_spec() -> bool {
        false
    }

    open spec fn from_spec(v: Vec<u8>) -> Self {
        arbitrary()
    }
}

impl From<String> for ByteSlice {
    /// The slice of the UTF-8 bytes of `s`.
    fn from(s: String) -> (r: Self)
        ensures
            vstd::utf8::encode_utf8(s@).len() <= u32::MAX ==> r@ == vstd::utf8::encode_utf8(s@),
            vstd::utf8::encode_utf8(s@).len() > u32::MAX ==> r@ == Seq::<u8>::empty(),
    {
        Self::from_any_slice(s.as_str().as_bytes())
    }
}

impl FromSpecImpl<String> for ByteSlice {
    open spec fn obeys_from_spec() -> bool {
        false
    }

    open spec fn from_spec(v: String) -> Self {
        arbitrary()
    }
}

impl From<Bytes> for ByteSlice {
    /// The slice of the bytes that `b` holds.
    fn from(b: Bytes) -> (r: Self)
        ensures
            bytes_view(b).len() <= u32::MAX ==> r@ == bytes_view(b),
            bytes_view(b).len() > u32::MAX ==> r@ == Seq::<u8>::empty(),
    {
        Self::from_any_slice(crate::interop::bytes_contents(&b))
    }
}

impl FromSpecImpl<Bytes> for ByteSlice {
    open spec fn obeys_from_spec() -> bool {
        false
    }

    open spec fn from_spec(v: Bytes) -> Self {
        arbitrary()
    }
}

} // verus!
