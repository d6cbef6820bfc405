use byteslice::{ByteSlice, Endpoint};
use std::cmp::Ordering;
use std::collections::HashSet;
use std::ops::Bound;

fn samples() -> Vec<Vec<u8>> {
    vec![
        b"".to_vec(),
        b"a".to_vec(),
        b"a\0".to_vec(),
        b"a\0\0\0".to_vec(),
        b"a\0\0\0\0".to_vec(),
        b"a\0\0\0z".to_vec(),
        b"ab".to_vec(),
        b"abcd".to_vec(),
        b"abcde".to_vec(),
        b"abcdefghijklmnopqrstu".to_vec(),
        b"abcdefghijklmnopqrstv".to_vec(),
        b"abcdefghijklmnopqrst".to_vec(),
        b"abcdefghijklmnopqrstuvwxyz".to_vec(),
        vec![0u8; 25],
        vec![0u8; 3],
        vec![255u8; 30],
        vec![255u8, 0, 0, 0],
        b"zz".to_vec(),
    ]
}

#[test]
fn compare_agrees_with_byte_order_on_all_sample_pairs() {
    let all = samples();
    for a in &all {
        for b in &all {
            let x = ByteSlice::from_slice(a);
            let y = ByteSlice::from_slice(b);
            assert_eq!(x.compare(&y), a.as_slice().cmp(b.as_slice()), "{:?} {:?}", a, b);
            assert_eq!(x.cmp(&y), a.as_slice().cmp(b.as_slice()));
            assert_eq!(x.partial_cmp(&y), Some(a.as_slice().cmp(b.as_slice())));
            assert_eq!(x == y, a == b);
        }
    }
}

#[test]
fn zero_padding_in_prefix_does_not_confuse_order() {
    let a = ByteSlice::from_slice(b"a");
    let a0 = ByteSlice::from_slice(b"a\0");
    assert_eq!(a.compare(&a0), Ordering::Less);
    assert_eq!(a0.compare(&a), Ordering::Greater);
    assert!(a != a0);
    let long_zero = ByteSlice::from_slice(&[0u8; 25]);
    let short_zero = ByteSlice::from_slice(&[0u8; 3]);
    assert_eq!(short_zero.compare(&long_zero), Ordering::Less);
}

#[test]
fn order_is_antisymmetric_and_transitive_on_examples() {
    let a = ByteSlice::from("apple");
    let b = ByteSlice::from("apples_and_oranges_forever");
    let c = ByteSlice::from("banana");
    assert_eq!(a.compare(&b), Ordering::Less);
    assert_eq!(b.compare(&a), Ordering::Greater);
    assert_eq!(b.compare(&c), Ordering::Less);
    assert_eq!(a.compare(&c), Ordering::Less);
    assert_eq!(a.compare(&a.clone()), Ordering::Equal);
}

#[test]
fn long_slices_with_equal_prefix_compare_by_later_bytes() {
    let x = ByteSlice::from("abcdefghijklmnopqrstuvwxyz");
    let y = ByteSlice::from("abcdefghijklmnopqrstuvwxyA");
    assert_eq!(x.compare(&y), Ordering::Greater);
    assert!(x != y);
}

#[test]
fn equality_across_forms_and_buffers() {
    let big = ByteSlice::from("0123456789_0123456789_0123456789");
    let sub = big.slice(11..32);
    let fresh = ByteSlice::from("0123456789_0123456789");
    assert_eq!(sub, fresh);
    let mut set = HashSet::new();
    set.insert(sub.clone());
    assert!(set.contains(&fresh));
}

#[test]
fn comparisons_with_other_byte_containers() {
    let s = ByteSlice::from("hello");
    let v: Vec<u8> = b"hello".to_vec();
    assert!(s == v);
    assert!(s == &v);
    assert!(v == s);
    assert!(&v == s);
    assert!(s == *"hello");
    assert!(s == "hello");
    assert!("hello" == s);
    assert!(*"hello" == s);
    let sl: &[u8] = b"hello";
    assert!(s == *sl);
    assert!(s == sl);
    assert!(sl == s);
    assert!(*sl == s);
    assert!(s == *b"hello");
    assert!(s == b"hello");
    assert!(*b"hello" == s);
    assert!(b"hello" == s);
    assert!(s != "hellO");
    assert!(s != b"hell");
    let b = bytes::Bytes::copy_from_slice(b"hello");
    assert!(s == b);
    assert!(b == s);
    assert!(s != bytes::Bytes::copy_from_slice(b"world"));
}

#[test]
fn conversions_keep_the_bytes() {
    let from_string = ByteSlice::from(String::from("a string that is rather long indeed"));
    assert_eq!(&*from_string, b"a string that is rather long indeed");
    let from_vec = ByteSlice::from(b"vec".to_vec());
    assert_eq!(&*from_vec, b"vec");
    let from_static = ByteSlice::from_static(b"static bytes");
    assert_eq!(from_static.as_ref(), b"static bytes");
    let b = bytes::Bytes::copy_from_slice(b"bytes buffer that is longer than twenty");
    let from_bytes = ByteSlice::from_bytes(&b);
    assert_eq!(&*from_bytes, b"bytes buffer that is longer than twenty");
    assert!(!from_bytes.is_inline());
    let borrowed: &[u8] = std::borrow::Borrow::borrow(&from_vec);
    assert_eq!(borrowed, b"vec");
}

#[test]
fn prefix_of_short_slices() {
    assert_eq!(ByteSlice::from("ab").prefix(), b"ab");
    assert_eq!(ByteSlice::from("abcd").prefix(), b"abcd");
    assert_eq!(ByteSlice::from("abcde").prefix(), b"abcd");
}

#[test]
fn slicing_with_every_range_form() {
    let s = ByteSlice::from("abcdefghijklmnopqrstuvwxyz_0123456789");
    assert_eq!(&*s.slice(..=4), b"abcde");
    assert_eq!(&*s.slice((Endpoint::Excluded(0), Endpoint::Included(2))), b"bc");
    assert_eq!(&*s.slice((Endpoint::Unbounded, Endpoint::Unbounded)), s.as_slice());
    let long = s.slice(2..30);
    assert!(!long.is_inline());
    assert_eq!(&*long, b"cdefghijklmnopqrstuvwxyz_012");
    let again = long.slice(1..23);
    assert!(!again.is_inline());
    assert_eq!(&*again, &s.as_slice()[3..25]);
    assert_eq!(again.prefix(), b"defg");
    let short_of_long = long.slice(5..8);
    assert!(short_of_long.is_inline());
    assert_eq!(&*short_of_long, b"hij");
    let inline = ByteSlice::from("short one");
    assert_eq!(&*inline.slice(6..), b"one");
}

#[test]
fn reference_counts_follow_sharing() {
    let s = ByteSlice::from("a heap allocated slice of some length");
    assert_eq!(s.ref_count(), 1);
    let c = s.clone();
    assert_eq!(s.ref_count(), 2);
    assert_eq!(c.ref_count(), 2);
    let sub = c.slice(1..30);
    assert_eq!(s.ref_count(), 3);
    drop(c);
    assert_eq!(sub.ref_count(), 2);
    drop(sub);
    assert_eq!(s.ref_count(), 1);
    let short = ByteSlice::from("tiny");
    let short_clone = short.clone();
    assert_eq!(short.ref_count(), 1);
    assert_eq!(short_clone, short);
}

#[test]
fn with_borrowed_hands_the_bytes_to_the_closure() {
    let n = ByteSlice::with_borrowed(b"some borrowed bytes that are long enough", |v| {
        assert_eq!(&**v, b"some borrowed bytes that are long enough");
        v.len()
    });
    assert_eq!(n, 40);
    let first = ByteSlice::with_borrowed(b"xy", |v| v.as_slice()[0]);
    assert_eq!(first, b'x');
}

#[test]
fn empty_and_default_agree() {
    let d = ByteSlice::default();
    assert!(d.is_empty());
    assert_eq!(d.ref_count(), 1);
    assert_eq!(d.compare(&ByteSlice::empty()), Ordering::Equal);
    assert_eq!(ByteSlice::empty().compare(&ByteSlice::from("a")), Ordering::Less);
}

#[test]
fn exhausted_inclusive_range_excludes_its_end() {
    let s = ByteSlice::from("abcdefghijklmnopqrstuvwxyz_0123456789");
    let mut r = 2usize..=4;
    for _ in &mut r {}
    let sub = s.slice(r);
    assert_eq!(sub.len(), 0);
    let mut r2 = 3usize..=9;
    r2.next();
    assert_eq!(&*s.slice(r2), b"efghij");
}

#[test]
fn bytes_len_reports_the_buffer_length() {
    let b = bytes::Bytes::copy_from_slice(b"twelve bytes");
    assert_eq!(byteslice::interop::bytes_len(&b), 12);
}

#[test]
fn cmp_with_zero_bytes() {
    assert_eq!(ByteSlice::from("a").cmp(&ByteSlice::from("a\0")), Ordering::Less);
    assert_eq!(ByteSlice::from("a\0").cmp(&ByteSlice::from("a")), Ordering::Greater);
    assert_eq!(ByteSlice::from("\0").cmp(&ByteSlice::empty()), Ordering::Greater);
    assert_eq!(ByteSlice::from("ab\0\0").cmp(&ByteSlice::from("ab\0\0\0")), Ordering::Less);
}

#[test]
fn views_keep_a_count_of_one() {
    let d = b"a_very_long_byte_slice_that_exceeds_inline_capacity_and_is_borrowed!";
    let view = ByteSlice::from_borrowed_unchecked(&d[..]);
    assert_eq!(view.ref_count(), 1);
    let c = view.clone();
    assert_eq!(c.ref_count(), 1);
    assert_eq!(view.ref_count(), 1);
    assert_eq!(c, view);
    let sub = view.slice(2..40);
    assert!(!sub.is_inline());
    assert_eq!(sub.ref_count(), 1);
    assert_eq!(&*sub, &d[2..40]);
    let short = view.slice(0..5);
    assert!(short.is_inline());
    assert_eq!(&*short, b"a_ver");
    let n = ByteSlice::with_borrowed(&d[..], |v| {
        let k = v.clone();
        (v.ref_count(), k.ref_count(), v.is_inline())
    });
    assert_eq!(n, (1, 1, false));
    let mut set = HashSet::new();
    set.insert(ByteSlice::from(&d[..]));
    assert!(set.contains(&view));
}

#[test]
fn slicing_with_std_bound_pairs() {
    let s = ByteSlice::from("abcdefghijklmnopqrstuvwxyz_0123456789");
    assert_eq!(&*s.slice((Bound::Excluded(1), Bound::Included(3))), b"cd");
    assert_eq!(&*s.slice((Bound::Included(30), Bound::Unbounded)), b"3456789");
    assert_eq!(s.slice((Bound::<usize>::Unbounded, Bound::Unbounded)), s);
}
