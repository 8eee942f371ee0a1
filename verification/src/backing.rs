//! The calls into the `bytes` crate that the buffer makes, and the few std functions that vstd
//! gives no specification, each with what it is trusted to do.
//!
//! A [`Bytes`] or [`BytesMut`] is declared without its fields; what a handle refers to is named by
//! [`shared_contents`] and [`exclusive_contents`], and each wrapper below says what the call
//! does to those contents, as the crate's source and documentation show it.

use vstd::prelude::*;

use bytes::{Buf, Bytes, BytesMut};

verus! {

#[verifier::external_type_specification]
#[verifier::external_body]
pub struct ExBytes(Bytes);

#[verifier::external_type_specification]
#[verifier::external_body]
pub struct ExBytesMut(BytesMut);

/// The bytes that a [`Bytes`] handle refers to.
pub uninterp spec fn shared_contents(b: Bytes) -> Seq<u8>;

/// The bytes that a [`BytesMut`] holds.
pub uninterp spec fn exclusive_contents(b: BytesMut) -> Seq<u8>;

/// Calls `<Bytes as Deref>::deref`, which hands out the bytes that the handle refers to.
#[verifier::external_body]
pub(crate) fn shared_as_slice(b: &Bytes) -> (r: &[u8])
    ensures
        r@ == shared_contents(*b),
{
    b
}

/// Calls `<BytesMut as Deref>::deref`, which hands out the bytes that the buffer holds.
#[verifier::external_body]
pub(crate) fn exclusive_as_slice(b: &BytesMut) -> (r: &[u8])
    ensures
        r@ == exclusive_contents(*b),
{
    b
}

/// Calls `Bytes::from_static`, which refers to the static slice itself, without copying.
#[verifier::external_body]
pub(crate) fn shared_from_static(s: &'static [u8]) -> (r: Bytes)
    ensures
        shared_contents(r) == s@,
{
    Bytes::from_static(s)
}

/// Calls `<Bytes as From<Vec<u8>>>::from`, which adopts the vector's allocation.
#[verifier::external_body]
pub(crate) fn shared_from_vec(v: Vec<u8>) -> (r: Bytes)
    ensures
        shared_contents(r) == v@,
{
    Bytes::from(v)
}

/// Calls `<Bytes as From<Box<[u8]>>>::from`, which adopts the boxed slice's allocation.
#[verifier::external_body]
pub(crate) fn shared_from_boxed(b: Box<[u8]>) -> (r: Bytes)
    ensures
        shared_contents(r) == b@,
{
    Bytes::from(b)
}

/// Calls `Bytes::copy_from_slice`, which copies the slice into a new buffer.
#[verifier::external_body]
pub(crate) fn shared_copy_from_slice(s: &[u8]) -> (r: Bytes)
    ensures
        shared_contents(r) == s@,
{
    Bytes::copy_from_slice(s)
}

/// Calls `<Bytes as Clone>::clone`, a new handle to the same bytes.
#[verifier::external_body]
pub(crate) fn shared_clone(b: &Bytes) -> (r: Bytes)
    ensures
        shared_contents(r) == shared_contents(*b),
{
    b.clone()
}

/// Calls `Bytes::slice` with `begin..end`, a handle to that part of the bytes. It panics unless
/// `begin <= end <= len`, which `requires` rules out.
#[verifier::external_body]
pub(crate) fn shared_slice(b: &Bytes, begin: usize, end: usize) -> (r: Bytes)
    requires
        begin <= end <= shared_contents(*b).len(),
    ensures
        shared_contents(r) == shared_contents(*b).subrange(begin as int, end as int),
{
    b.slice(begin..end)
}

/// Calls `Bytes::split_off`: the handle keeps `[0, at)` and the result holds `[at, len)`. It
/// panics if `at > len`, which `requires` rules out.
#[verifier::external_body]
pub(crate) fn shared_split_off(b: &mut Bytes, at: usize) -> (r: Bytes)
    requires
        at <= shared_contents(*old(b)).len(),
    ensures
        shared_contents(*final(b)) == shared_contents(*old(b)).take(at as int),
        shared_contents(r) == shared_contents(*old(b)).skip(at as int),
{
    b.split_off(at)
}

/// Calls `Bytes::split_to`: the handle keeps `[at, len)` and the result holds `[0, at)`. It
/// panics if `at > len`, which `requires` rules out.
#[verifier::external_body]
pub(crate) fn shared_split_to(b: &mut Bytes, at: usize) -> (r: Bytes)
    requires
        at <= shared_contents(*old(b)).len(),
    ensures
        shared_contents(*final(b)) == shared_contents(*old(b)).skip(at as int),
        shared_contents(r) == shared_contents(*old(b)).take(at as int),
{
    b.split_to(at)
}

/// Calls `Bytes::truncate`, which keeps the first `len` bytes, and does nothing where there are
/// no more than `len` of them.
#[verifier::external_body]
pub(crate) fn shared_truncate(b: &mut Bytes, len: usize)
    ensures
        len < shared_contents(*old(b)).len() ==> shared_contents(*final(b)) == shared_contents(
            *old(b),
        ).take(len as int),
        len >= shared_contents(*old(b)).len() ==> *final(b) == *old(b),
{
    b.truncate(len)
}

/// Calls `<Bytes as Buf>::advance`, which drops the first `cnt` bytes. It panics if `cnt > len`,
/// which `requires` rules out.
#[verifier::external_body]
pub(crate) fn shared_advance(b: &mut Bytes, cnt: usize)
    requires
        cnt <= shared_contents(*old(b)).len(),
    ensures
        shared_contents(*final(b)) == shared_contents(*old(b)).skip(cnt as int),
{
    b.advance(cnt)
}

/// Calls `<Bytes as Buf>::copy_to_bytes`, which for `Bytes` is `split_to`: the result holds the
/// first `len` bytes and the handle keeps the rest. It panics if `len` exceeds the length, which
/// `requires` rules out.
#[verifier::external_body]
pub(crate) fn shared_copy_to_bytes(b: &mut Bytes, len: usize) -> (r: Bytes)
    requires
        len <= shared_contents(*old(b)).len(),
    ensures
        shared_contents(*final(b)) == shared_contents(*old(b)).skip(len as int),
        shared_contents(r) == shared_contents(*old(b)).take(len as int),
{
    b.copy_to_bytes(len)
}

/// Calls `Bytes::try_into_mut`, which succeeds only where the handle is the one reference to its
/// whole buffer. Which way it goes depends on the reference counts at the time of the call, so
/// the contract says only that either way the bytes are the same.
#[verifier::external_body]
pub(crate) fn shared_try_into_mut(b: Bytes) -> (r: Result<BytesMut, Bytes>)
    ensures
        match r {
            Ok(m) => exclusive_contents(m) == shared_contents(b),
            Err(s) => shared_contents(s) == shared_contents(b),
        },
{
    b.try_into_mut()
}

/// Calls `<Vec<u8> as From<BytesMut>>::from`, which hands back the buffer as a vector.
#[verifier::external_body]
pub(crate) fn exclusive_into_vec(m: BytesMut) -> (r: Vec<u8>)
    ensures
        r@ == exclusive_contents(m),
{
    Vec::from(m)
}

/// Calls `BytesMut::freeze`, which turns the buffer into a shared handle to the same bytes.
#[verifier::external_body]
pub(crate) fn exclusive_freeze(m: BytesMut) -> (r: Bytes)
    ensures
        shared_contents(r) == exclusive_contents(m),
{
    m.freeze()
}

/// Calls `String::into_bytes`, which hands back the string's UTF-8 bytes without copying.
#[verifier::external_body]
pub(crate) fn string_into_bytes(s: String) -> (r: Vec<u8>)
    ensures
        r@ == vstd::utf8::encode_utf8(s@),
{
    s.into_bytes()
}

/// Calls `Vec::into_boxed_slice`, which keeps the vector's bytes.
#[verifier::external_body]
pub(crate) fn vec_into_boxed_slice(v: Vec<u8>) -> (r: Box<[u8]>)
    ensures
        r@ == v@,
{
    v.into_boxed_slice()
}

} // verus!
