# cowbytes

A clone-on-write byte buffer, verified with Verus. `CowBytes<'a>` is either a borrowed
`&'a [u8]` or a shared, reference counted `bytes::Bytes`: cloning and slicing shared bytes are
reference count operations, and an arbitrary slice can be held without copying it.

Each value is modelled by the sequence of bytes it holds (`x@`). The operations state what they
do to that sequence and which variant they leave; equality, order and hashing go by the bytes
alone, and the byte-wise lexicographic order is proved to be a total order.

`slice` takes a `Range<usize>` (`a..b`); other range forms are written as the `Range` they
stand for, such as `1..bytes.len()` for `1..`. `CowBytes` has no `Ord` and no `IntoIterator`:
comparison goes through `PartialOrd`, and iteration through the slice that `Deref` gives.

Layout:

- `src/lib.rs`: the type, its view, and its inherent operations.
- `src/backing.rs`: the calls into `bytes` (and a few std functions), each with what it is
  trusted to do.
- `src/order.rs`: byte-wise lexicographic order, its laws, and the slice comparison that
  computes it.
- `src/compare.rs`: `PartialEq`, `PartialOrd` and `Hash`, on either side of a comparison.
- `src/convert.rs`: `From` conversions, and the round-trip laws.
- `src/buf.rs`, `src/iter.rs`: `Buf` and `FromIterator`.
- `app/lib.rs`: `serde` support, on a wrapper type.
- `tests/`: the tests, run against the compiled library.
