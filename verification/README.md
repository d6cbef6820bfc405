# byteslice

An immutable byte slice that fits in 24 bytes, with small-string optimization
and prefix-accelerated comparisons, verified with Verus.

- Slices of at most 20 bytes are stored inline, padded with zeros.
- Longer slices are windows into a heap buffer shared by `Arc`; sub-slicing a
  long slice shares the buffer, and a sub-slice of at most 20 bytes is stored
  inline again.
- Views (`from_borrowed_unchecked`, `with_borrowed`) longer than 20 bytes own
  a copy of their bytes that is never shared, so they, their clones and
  their long sub-slices always report a reference count of 1.
- Comparisons first compare the big-endian words of the zero-padded
  four-byte prefixes, and only then the bytes; `order.rs` proves that this
  agrees with the lexicographic order of the bytes.

Layout of `src/`:

- `byteslice.rs`: the type, its invariant, construction, `slice`, `clone`.
- `order.rs`: lexicographic order, its laws, `compare`, `==`, `<`.
- `range.rs`: the range forms that `slice` accepts.
- `construct.rs`: views, conversions, `prefix`, `Deref`, `Hash`.
- `interop.rs`: `bytes::Bytes` and comparisons with other byte containers.
- `buffer.rs`: the calls into `Arc`.

`app/` holds serde support and UTF-8 aware debug formatting.
