use vstd::prelude::*;
use std::cmp::Ordering;
use vstd::std_specs::cmp::{PartialEqSpecImpl, PartialOrdSpecImpl};
use crate::byteslice::ByteSlice;

verus! {

/// The byte at position `i` of `s`, or zero past its end.
pub open spec fn byte_or_zero(s: Seq<u8>, i: int) -> int {
    if 0 <= i < s.len() { s[i] as int } else { 0 }
}

/// `256` raised to the power `n`.
pub open spec fn radix_power(n: int) -> int
    decreases n,
{
    if n <= 0 { 1 } else { 256 * radix_power(n - 1) }
}

/// The big-endian number spelled by the `n` bytes of `s` from position `i`
/// on, reading zero for each byte past the end of `s`.
pub open spec fn window_word(s: Seq<u8>, i: int, n: int) -> int
    decreases n,
{
    if n <= 0 {
        0
    } else {
        byte_or_zero(s, i) * radix_power(n - 1) + window_word(s, i + 1, n - 1)
    }
}

/// The big-endian number spelled by the first four bytes of `s`, padded with
/// zeros: the key that comparisons look at first.
pub open spec fn leading_word(s: Seq<u8>) -> int {
    window_word(s, 0, 4)
}

} // verus!
verus! {

/// Lexicographic comparison of `a` and `b` from position `i` on: the first
/// position where they differ decides, and a sequence that ends first is the
/// smaller.
pub open spec fn lex_order_from(a: Seq<u8>, b: Seq<u8>, i: int) -> Ordering
    decreases a.len() - i,
{
    if i >= a.len() {
        if i >= b.len() { Ordering::Equal } else { Ordering::Less }
    } else if i >= b.len() {
        Ordering::Greater
    } else if a[i] < b[i] {
        Ordering::Less
    } else if a[i] > b[i] {
        Ordering::Greater
    } else {
        lex_order_from(a, b, i + 1)
    }
}

/// Lexicographic order of byte sequences.
pub open spec fn lex_order(a: Seq<u8>, b: Seq<u8>) -> Ordering {
    lex_order_from(a, b, 0)
}

/// The word of `n` bytes lies in `0 .. 256^n`.
proof fn lemma_window_word_bounds(s: Seq<u8>, i: int, n: int)
    ensures
        0 <= window_word(s, i, n) < radix_power(n),
    decreases n,
{
    if n > 0 {
        let r = radix_power(n - 1);
        let h = byte_or_zero(s, i);
        let t = window_word(s, i + 1, n - 1);
        lemma_window_word_bounds(s, i + 1, n - 1);
        assert(0 <= h <= 255);
        assert(0 <= h * r + t < 256 * r) by (nonlinear_arith)
            requires
                0 <= h <= 255,
                0 <= t < r,
        ;
    }
}

/// A smaller word of leading bytes means a lexicographically smaller
/// sequence, from any starting position.
proof fn lemma_window_word_less(a: Seq<u8>, b: Seq<u8>, i: int, n: int)
    requires
        0 <= i,
        window_word(a, i, n) < window_word(b, i, n),
    ensures
        lex_order_from(a, b, i) == Ordering::Less,
    decreases n,
{
    if n > 0 {
        let r = radix_power(n - 1);
        let ha = byte_or_zero(a, i);
        let hb = byte_or_zero(b, i);
        let ta = window_word(a, i + 1, n - 1);
        let tb = window_word(b, i + 1, n - 1);
        lemma_window_word_bounds(a, i + 1, n - 1);
        lemma_window_word_bounds(b, i + 1, n - 1);
        if ha > hb {
            assert(ha * r + ta >= hb * r + tb) by (nonlinear_arith)
                requires
                    ha >= hb + 1,
                    0 <= ta,
                    tb < r,
                    r > 0,
            ;
        } else if ha == hb {
            assert(ta < tb);
            if i < a.len() && i < b.len() {
                lemma_window_word_less(a, b, i + 1, n - 1);
            } else if i >= b.len() {
                lemma_window_word_bounds(a, i, n);
                assert(window_word(b, i, n) == 0) by {
                    lemma_window_word_past_end(b, i, n);
                }
            }
        }
    }
}

/// Past the end of a sequence, every word is zero.
proof fn lemma_window_word_past_end(s: Seq<u8>, i: int, n: int)
    requires
        i >= s.len(),
    ensures
        window_word(s, i, n) == 0,
    decreases n,
{
    if n > 0 {
        lemma_window_word_past_end(s, i + 1, n - 1);
    }
}

} // verus!
verus! {

/// Comparing from position `i` gives `Equal` exactly when the two sequences
/// have the same length and agree from `i` on.
proof fn lemma_lex_from_equal(a: Seq<u8>, b: Seq<u8>, i: int)
    requires
        0 <= i <= a.len(),
        i <= b.len(),
    ensures
        lex_order_from(a, b, i) == Ordering::Equal <==> (a.len() == b.len() && forall|k: int|
            i <= k < a.len() ==> a[k] == b[k]),
    decreases a.len() - i,
{
    if i < a.len() && i < b.len() && a[i] == b[i] {
        lemma_lex_from_equal(a, b, i + 1);
        if lex_order_from(a, b, i) != Ordering::Equal && a.len() == b.len() {
            assert(exists|k: int| i + 1 <= k < a.len() && a[k] != b[k]);
        }
    }
}

/// Swapping the two sequences swaps `Less` and `Greater`.
proof fn lemma_lex_from_swap(a: Seq<u8>, b: Seq<u8>, i: int)
    ensures
        lex_order_from(a, b, i) == Ordering::Less <==> lex_order_from(b, a, i) == Ordering::Greater,
        lex_order_from(a, b, i) == Ordering::Greater <==> lex_order_from(b, a, i) == Ordering::Less,
        lex_order_from(a, b, i) == Ordering::Equal <==> lex_order_from(b, a, i) == Ordering::Equal,
    decreases a.len() - i,
{
    if i < a.len() && i < b.len() && a[i] == b[i] {
        lemma_lex_from_swap(a, b, i + 1);
    }
}

/// `Less` is transitive, from any position.
proof fn lemma_lex_from_less_trans(a: Seq<u8>, b: Seq<u8>, c: Seq<u8>, i: int)
    requires
        lex_order_from(a, b, i) == Ordering::Less,
        lex_order_from(b, c, i) == Ordering::Less,
    ensures
        lex_order_from(a, c, i) == Ordering::Less,
    decreases a.len() - i,
{
    if i < a.len() && i < b.len() && i < c.len() && a[i] == b[i] && b[i] == c[i] {
        lemma_lex_from_less_trans(a, b, c, i + 1);
    }
}

/// A larger word of leading bytes means a lexicographically larger sequence.
proof fn lemma_window_word_greater(a: Seq<u8>, b: Seq<u8>, i: int, n: int)
    requires
        0 <= i,
        window_word(a, i, n) > window_word(b, i, n),
    ensures
        lex_order_from(a, b, i) == Ordering::Greater,
{
    lemma_window_word_less(b, a, i, n);
    lemma_lex_from_swap(a, b, i);
}

/// Comparing the zero-padded four-byte prefixes as big-endian numbers agrees
/// with the lexicographic order whenever the prefixes differ.
pub proof fn lemma_leading_word_decides(a: Seq<u8>, b: Seq<u8>)
    ensures
        leading_word(a) < leading_word(b) ==> lex_order(a, b) == Ordering::Less,
        leading_word(a) > leading_word(b) ==> lex_order(a, b) == Ordering::Greater,
{
    if leading_word(a) < leading_word(b) {
        lemma_window_word_less(a, b, 0, 4);
    }
    if leading_word(a) > leading_word(b) {
        lemma_window_word_greater(a, b, 0, 4);
    }
}

/// Lexicographic order is `Equal` exactly on equal sequences.
pub proof fn lemma_lex_order_equal_iff(a: Seq<u8>, b: Seq<u8>)
    ensures
        lex_order(a, b) == Ordering::Equal <==> a == b,
{
    lemma_lex_from_equal(a, b, 0);
    if lex_order(a, b) == Ordering::Equal {
        assert(a =~= b);
    }
}

/// Lexicographic order is antisymmetric: swapping the arguments reverses it.
pub proof fn lemma_lex_order_antisymmetric(a: Seq<u8>, b: Seq<u8>)
    ensures
        lex_order(a, b) == Ordering::Less <==> lex_order(b, a) == Ordering::Greater,
        lex_order(a, b) == Ordering::Equal <==> lex_order(b, a) == Ordering::Equal,
{
    lemma_lex_from_swap(a, b, 0);
}

/// Lexicographic order is transitive.
pub proof fn lemma_lex_order_transitive(a: Seq<u8>, b: Seq<u8>, c: Seq<u8>)
    ensures
        lex_order(a, b) == Ordering::Less && lex_order(b, c) == Ordering::Less ==> lex_order(
            a,
            c,
        ) == Ordering::Less,
        lex_order(a, b) == Ordering::Greater && lex_order(b, c) == Ordering::Greater ==> lex_order(
            a,
            c,
        ) == Ordering::Greater,
{
    if lex_order(a, b) == Ordering::Less && lex_order(b, c) == Ordering::Less {
        lemma_lex_from_less_trans(a, b, c, 0);
    }
    if lex_order(a, b) == Ordering::Greater && lex_order(b, c) == Ordering::Greater {
        lemma_lex_from_swap(a, b, 0);
        lemma_lex_from_swap(b, c, 0);
        lemma_lex_from_swap(a, c, 0);
        lemma_lex_from_less_trans(c, b, a, 0);
    }
}

} // verus!
verus! {

/// Returns whether two byte slices hold the same bytes.
pub(crate) fn bytes_equal(a: &[u8], b: &[u8]) -> (r: bool)
    ensures
        r == (a@ == b@),
{
    let n = a.len();
    if n != b.len() {
        return false;
    }
    let mut i: usize = 0;
    while i < n
        invariant
            n == a@.len() == b@.len(),
            i <= n,
            forall|k: int| 0 <= k < i ==> a@[k] == b@[k],
        decreases n - i,
    {
        if a[i] != b[i] {
            return false;
        }
        i = i + 1;
    }
    assert(a@ =~= b@);
    true
}

/// Compares two byte slices lexicographically.
pub(crate) fn compare_bytes(a: &[u8], b: &[u8]) -> (o: Ordering)
    ensures
        o == lex_order(a@, b@),
{
    let n = a.len();
    let m = b.len();
    let mut i: usize = 0;
    let ghost mut pos: int = 0;
    while i < n && i < m
        invariant
            n == a@.len(),
            m == b@.len(),
            i <= n,
            i <= m,
            pos == i,
            lex_order(a@, b@) == lex_order_from(a@, b@, pos),
        decreases n - i,
    {
        if a[i] < b[i] {
            return Ordering::Less;
        } else if a[i] > b[i] {
            return Ordering::Greater;
        }
        i = i + 1;
        proof {
            pos = pos + 1;
        }
    }
    if n < m {
        Ordering::Less
    } else if n > m {
        Ordering::Greater
    } else {
        Ordering::Equal
    }
}

} // verus!

verus! {

impl ByteSlice {
    /// Compares two slices lexicographically by their bytes.
    ///
    /// The big-endian words of the zero-padded four-byte prefixes are compared
    /// first; only when they are equal are the full byte sequences compared.
    pub fn compare(&self, other: &Self) -> (o: Ordering)
        ensures
            o == lex_order(self@, other@),
    {
        let p_self = self.prefix_word();
        let p_other = other.prefix_word();
        if p_self != p_other {
            proof {
                lemma_leading_word_decides(self@, other@);
            }
            return if p_self < p_other {
                Ordering::Less
            } else {
                Ordering::Greater
            };
        }
        compare_bytes(self.as_slice(), other.as_slice())
    }
}

impl PartialEq for ByteSlice {
    /// Two slices are equal when they hold the same bytes. Slices of
    /// different lengths, and long slices whose prefixes differ, are told
    /// apart without reading the shared buffers.
    fn eq(&self, other: &Self) -> (r: bool) {
        if self.len() != other.len() {
            return false;
        }
        if self.is_inline() {
            return bytes_equal(self.as_slice(), other.as_slice());
        }
        if self.prefix_word() != other.prefix_word() {
            return false;
        }
        bytes_equal(self.as_slice(), other.as_slice())
    }
}

impl PartialEqSpecImpl for ByteSlice {
    open spec fn obeys_eq_spec() -> bool {
        true
    }

    open spec fn eq_spec(&self, other: &Self) -> bool {
        self@ == other@
    }
}

impl Eq for ByteSlice {}

impl PartialOrd for ByteSlice {
    fn partial_cmp(&self, other: &Self) -> (r: Option<Ordering>) {
        Some(self.compare(other))
    }
}

impl PartialOrdSpecImpl for ByteSlice {
    open spec fn obeys_partial_cmp_spec() -> bool {
        true
    }

    open spec fn partial_cmp_spec(&self, other: &Self) -> Option<Ordering> {
        Some(lex_order(self@, other@))
    }
}

impl Ord for ByteSlice {
    /// Calls `<[u8] as Ord>::cmp` on the bytes of the two slices, which std
    /// documents as the lexicographic order: the first differing byte
    /// decides, and a proper prefix comes first. (The prefix-first path is
    /// [`ByteSlice::compare`], whose contract states the same result.)
    #[verifier::external_body]
    fn cmp(&self, other: &Self) -> (r: Ordering)
        ensures
            r == lex_order(self@, other@),
    {
        self.as_slice().cmp(other.as_slice())
    }
}

} // verus!
