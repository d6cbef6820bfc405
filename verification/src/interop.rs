use vstd::prelude::*;
use vstd::std_specs::cmp::PartialEqSpecImpl;
use vstd::string::StringSliceAdditionalSpecFns;
use bytes::Bytes;
use crate::byteslice::ByteSlice;
use crate::order::bytes_equal;

verus! {

/// Makes `bytes::Bytes` known to Verus as an opaque type.
#[verifier::external_type_specification]
#[verifier::external_body]
pub struct ExBytes(Bytes);

/// The bytes that a `bytes::Bytes` buffer holds.
pub uninterp spec fn bytes_view(b: Bytes) -> Seq<u8>;

/// Calls `<Bytes as AsRef<[u8]>>::as_ref`, which returns the buffer's bytes.
#[verifier::external_body]
pub(crate) fn bytes_contents(b: &Bytes) -> (r: &[u8])
    ensures
        r@ == bytes_view(*b),
{
    b.as_ref()
}

/// Returns the number of bytes that a `bytes::Bytes` buffer holds, so that a
/// caller can check the bound that [`ByteSlice::from_bytes`] requires.
pub fn bytes_len(b: &Bytes) -> (n: usize)
    ensures
        n == bytes_view(*b).len(),
{
    bytes_contents(b).len()
}

impl PartialEq<Vec<u8>> for ByteSlice {
    fn eq(&self, other: &Vec<u8>) -> (r: bool) {
        bytes_equal(self.as_slice(), other.as_slice())
    }
}

impl PartialEqSpecImpl<Vec<u8>> for ByteSlice {
    open spec fn obeys_eq_spec() -> bool {
        true
    }

    open spec fn eq_spec(&self, other: &Vec<u8>) -> bool {
        self@ == other@
    }
}

impl PartialEq<ByteSlice> for Vec<u8> {
    fn eq(&self, other: &ByteSlice) -> (r: bool) {
        bytes_equal(self.as_slice(), other.as_slice())
    }
}

impl PartialEqSpecImpl<ByteSlice> for Vec<u8> {
    open spec fn obeys_eq_spec() -> bool {
        true
    }

    open spec fn eq_spec(&self, other: &ByteSlice) -> bool {
        self@ == other@
    }
}

impl PartialEq<&Vec<u8>> for ByteSlice {
    fn eq(&self, other: &&Vec<u8>) -> (r: bool) {
        bytes_equal(self.as_slice(), other.as_slice())
    }
}

impl PartialEqSpecImpl<&Vec<u8>> for ByteSlice {
    open spec fn obeys_eq_spec() -> bool {
        true
    }

    open spec fn eq_spec(&self, other: &&Vec<u8>) -> bool {
        self@ == (**other)@
    }
}

impl PartialEq<ByteSlice> for &Vec<u8> {
    fn eq(&self, other: &ByteSlice) -> (r: bool) {
        bytes_equal(self.as_slice(), other.as_slice())
    }
}

impl PartialEqSpecImpl<ByteSlice> for &Vec<u8> {
    open spec fn obeys_eq_spec() -> bool {
        true
    }

    open spec fn eq_spec(&self, other: &ByteSlice) -> bool {
        (**self)@ == other@
    }
}

impl PartialEq<str> for ByteSlice {
    fn eq(&self, other: &str) -> (r: bool) {
        bytes_equal(self.as_slice(), other.as_bytes())
    }
}

impl PartialEqSpecImpl<str> for ByteSlice {
    open spec fn obeys_eq_spec() -> bool {
        true
    }

    open spec fn eq_spec(&self, other: &str) -> bool {
        self@ == other.spec_bytes()
    }
}

impl PartialEq<ByteSlice> for str {
    fn eq(&self, other: &ByteSlice) -> (r: bool) {
        bytes_equal(self.as_bytes(), other.as_slice())
    }
}

impl PartialEqSpecImpl<ByteSlice> for str {
    open spec fn obeys_eq_spec() -> bool {
        true
    }

    open spec fn eq_spec(&self, other: &ByteSlice) -> bool {
        self.spec_bytes() == other@
    }
}

impl PartialEq<&str> for ByteSlice {
    fn eq(&self, other: &&str) -> (r: bool) {
        bytes_equal(self.as_slice(), other.as_bytes())
    }
}

impl PartialEqSpecImpl<&str> for ByteSlice {
    open spec fn obeys_eq_spec() -> bool {
        true
    }

    open spec fn eq_spec(&self, other: &&str) -> bool {
        self@ == (*other).spec_bytes()
    }
}

impl PartialEq<ByteSlice> for &str {
    fn eq(&self, other: &ByteSlice) -> (r: bool) {
        bytes_equal(self.as_bytes(), other.as_slice())
    }
}

impl PartialEqSpecImpl<ByteSlice> for &str {
    open spec fn obeys_eq_spec() -> bool {
        true
    }

    open spec fn eq_spec(&self, other: &ByteSlice) -> bool {
        (*self).spec_bytes() == other@
    }
}

impl PartialEq<[u8]> for ByteSlice {
    fn eq(&self, other: &[u8]) -> (r: bool) {
        bytes_equal(self.as_slice(), other)
    }
}

impl PartialEqSpecImpl<[u8]> for ByteSlice {
    open spec fn obeys_eq_spec() -> bool {
        true
    }

    open spec fn eq_spec(&self, other: &[u8]) -> bool {
        self@ == other@
    }
}

impl PartialEq<ByteSlice> for [u8] {
    fn eq(&self, other: &ByteSlice) -> (r: bool) {
        bytes_equal(self, other.as_slice())
    }
}

impl PartialEqSpecImpl<ByteSlice> for [u8] {
    open spec fn obeys_eq_spec() -> bool {
        true
    }

    open spec fn eq_spec(&self, other: &ByteSlice) -> bool {
        self@ == other@
    }
}

impl PartialEq<&[u8]> for ByteSlice {
    fn eq(&self, other: &&[u8]) -> (r: bool) {
        bytes_equal(self.as_slice(), *other)
    }
}

impl PartialEqSpecImpl<&[u8]> for ByteSlice {
    open spec fn obeys_eq_spec() -> bool {
        true
    }

    open spec fn eq_spec(&self, other: &&[u8]) -> bool {
        self@ == (*other)@
    }
}

impl PartialEq<ByteSlice> for &[u8] {
    fn eq(&self, other: &ByteSlice) -> (r: bool) {
        bytes_equal(*self, other.as_slice())
    }
}

impl PartialEqSpecImpl<ByteSlice> for &[u8] {
    open spec fn obeys_eq_spec() -> bool {
        true
    }

    open spec fn eq_spec(&self, other: &ByteSlice) -> bool {
        (*self)@ == other@
    }
}

impl<const N: usize> PartialEq<[u8; N]> for ByteSlice {
    fn eq(&self, other: &[u8; N]) -> (r: bool) {
        bytes_equal(self.as_slice(), other.as_slice())
    }
}

impl<const N: usize> PartialEqSpecImpl<[u8; N]> for ByteSlice {
    open spec fn obeys_eq_spec() -> bool {
        true
    }

    open spec fn eq_spec(&self, other: &[u8; N]) -> bool {
        self@ == other@
    }
}

impl<const N: usize> PartialEq<ByteSlice> for [u8; N] {
    fn eq(&self, other: &ByteSlice) -> (r: bool) {
        bytes_equal(self.as_slice(), other.as_slice())
    }
}

impl<const N: usize> PartialEqSpecImpl<ByteSlice> for [u8; N] {
    open spec fn obeys_eq_spec() -> bool {
        true
    }

    open spec fn eq_spec(&self, other: &ByteSlice) -> bool {
        self@ == other@
    }
}

impl<const N: usize> PartialEq<&[u8; N]> for ByteSlice {
    fn eq(&self, other: &&[u8; N]) -> (r: bool) {
        bytes_equal(self.as_slice(), other.as_slice())
    }
}

impl<const N: usize> PartialEqSpecImpl<&[u8; N]> for ByteSlice {
    open spec fn obeys_eq_spec() -> bool {
        true
    }

    open spec fn eq_spec(&self, other: &&[u8; N]) -> bool {
        self@ == (*other)@
    }
}

impl<const N: usize> PartialEq<ByteSlice> for &[u8; N] {
    fn eq(&self, other: &ByteSlice) -> (r: bool) {
        bytes_equal(self.as_slice(), other.as_slice())
    }
}

impl<const N: usize> PartialEqSpecImpl<ByteSlice> for &[u8; N] {
    open spec fn obeys_eq_spec() -> bool {
        true
    }

    open spec fn eq_spec(&self, other: &ByteSlice) -> bool {
        (*self)@ == other@
    }
}

impl PartialEq<Bytes> for ByteSlice {
    fn eq(&self, other: &Bytes) -> (r: bool) {
        bytes_equal(self.as_slice(), bytes_contents(other))
    }
}

impl PartialEqSpecImpl<Bytes> for ByteSlice {
    open spec fn obeys_eq_spec() -> bool {
        true
    }

    open spec fn eq_spec(&self, other: &Bytes) -> bool {
        self@ == bytes_view(*other)
    }
}

impl PartialEq<ByteSlice> for Bytes {
    fn eq(&self, other: &ByteSlice) -> (r: bool) {
        bytes_equal(bytes_contents(self), other.as_slice())
    }
}

impl PartialEqSpecImpl<ByteSlice> for Bytes {
    open spec fn obeys_eq_spec() -> bool {
        true
    }

    open spec fn eq_spec(&self, other: &ByteSlice) -> bool {
        bytes_view(*self) == other@
    }
}

} // verus!
