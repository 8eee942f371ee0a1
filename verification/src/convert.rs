//! Conversions to and from [`CowBytes`].
//!
//! A conversion that borrows states its result exactly. One that makes a new shared handle
//! cannot: the handle is not a function of the argument alone. For those, `obeys_from_spec` is
//! false and each `from` states in its own `ensures` what the result holds.

use vstd::prelude::*;

use std::borrow::Cow;

use bytes::{Bytes, BytesMut};

use crate::backing::{
    exclusive_contents, exclusive_freeze, shared_contents, shared_copy_from_slice,
    shared_from_boxed, shared_from_vec, string_into_bytes, vec_into_boxed_slice,
};
use crate::CowBytes;

verus! {

impl<'a> From<&'a [u8]> for CowBytes<'a> {
    /// Borrows the slice.
    fn from(bytes: &'a [u8]) -> (r: Self)
        ensures
            r@ == bytes@,
            r is Borrowed,
    {
        CowBytes::Borrowed(bytes)
    }
}

impl<'a> vstd::std_specs::convert::FromSpecImpl<&'a [u8]> for CowBytes<'a> {
    open spec fn obeys_from_spec() -> bool {
        true
    }

    open spec fn from_spec(bytes: &'a [u8]) -> Self {
        CowBytes::Borrowed(bytes)
    }
}

impl<'a> From<&'a Vec<u8>> for CowBytes<'a> {
    /// Borrows the vector's bytes.
    fn from(bytes: &'a Vec<u8>) -> (r: Self)
        ensures
            r@ == bytes@,
            r is Borrowed,
    {
        CowBytes::Borrowed(bytes.as_slice())
    }
}

impl<'a> vstd::std_specs::convert::FromSpecImpl<&'a Vec<u8>> for CowBytes<'a> {
    open spec fn obeys_from_spec() -> bool {
        false
    }

    open spec fn from_spec(bytes: &'a Vec<u8>) -> Self {
        vstd::pervasive::arbitrary()
    }
}

impl<'a, const N: usize> From<&'a [u8; N]> for CowBytes<'a> {
    /// Borrows the array's bytes.
    fn from(bytes: &'a [u8; N]) -> (r: Self)
        ensures
            r@ == bytes@,
            r is Borrowed,
    {
        CowBytes::Borrowed(bytes.as_slice())
    }
}

impl<'a, const N: usize> vstd::std_specs::convert::FromSpecImpl<&'a [u8; N]> for CowBytes<'a> {
    open spec fn obeys_from_spec() -> bool {
        false
    }

    open spec fn from_spec(bytes: &'a [u8; N]) -> Self {
        vstd::pervasive::arbitrary()
    }
}

impl<'a> From<&'a str> for CowBytes<'a> {
    /// Borrows the string's UTF-8 bytes.
    fn from(bytes: &'a str) -> (r: Self)
        ensures
            r@ == vstd::utf8::encode_utf8(bytes@),
            r is Borrowed,
    {
        CowBytes::Borrowed(bytes.as_bytes())
    }
}

impl<'a> vstd::std_specs::convert::FromSpecImpl<&'a str> for CowBytes<'a> {
    open spec fn obeys_from_spec() -> bool {
        false
    }

    open spec fn from_spec(bytes: &'a str) -> Self {
        vstd::pervasive::arbitrary()
    }
}

impl<'a> From<&'a String> for CowBytes<'a> {
    /// Borrows the string's UTF-8 bytes.
    fn from(bytes: &'a String) -> (r: Self)
        ensures
            r@ == vstd::utf8::encode_utf8(bytes@),
            r is Borrowed,
    {
        CowBytes::Borrowed(bytes.as_str().as_bytes())
    }
}

impl<'a> vstd::std_specs::convert::FromSpecImpl<&'a String> for CowBytes<'a> {
    open spec fn obeys_from_spec() -> bool {
        false
    }

    open spec fn from_spec(bytes: &'a String) -> Self {
        vstd::pervasive::arbitrary()
    }
}

impl<'a> From<String> for CowBytes<'a> {
    /// Adopts the string's allocation without copying.
    fn from(bytes: String) -> (r: Self)
        ensures
            r@ == vstd::utf8::encode_utf8(bytes@),
            r is Shared,
    {
        CowBytes::Shared(shared_from_vec(string_into_bytes(bytes)))
    }
}

impl<'a> vstd::std_specs::convert::FromSpecImpl<String> for CowBytes<'a> {
    open spec fn obeys_from_spec() -> bool {
        false
    }

    open spec fn from_spec(bytes: String) -> Self {
        vstd::pervasive::arbitrary()
    }
}

impl<'a> From<Vec<u8>> for CowBytes<'a> {
    /// Adopts the vector's allocation without copying.
    fn from(bytes: Vec<u8>) -> (r: Self)
        ensures
            r@ == bytes@,
            r is Shared,
    {
        CowBytes::Shared(shared_from_vec(bytes))
    }
}

impl<'a> vstd::std_specs::convert::FromSpecImpl<Vec<u8>> for CowBytes<'a> {
    open spec fn obeys_from_spec() -> bool {
        false
    }

    open spec fn from_spec(bytes: Vec<u8>) -> Self {
        vstd::pervasive::arbitrary()
    }
}

impl<'a> From<Box<[u8]>> for CowBytes<'a> {
    /// Adopts the boxed slice's allocation without copying.
    fn from(bytes: Box<[u8]>) -> (r: Self)
        ensures
            r@ == bytes@,
            r is Shared,
    {
        CowBytes::Shared(shared_from_boxed(bytes))
    }
}

impl<'a> vstd::std_specs::convert::FromSpecImpl<Box<[u8]>> for CowBytes<'a> {
    open spec fn obeys_from_spec() -> bool {
        false
    }

    open spec fn from_spec(bytes: Box<[u8]>) -> Self {
        vstd::pervasive::arbitrary()
    }
}

impl<'a> From<Cow<'a, [u8]>> for CowBytes<'a> {
    /// Keeps a borrow borrowed, and adopts an owned vector without copying.
    fn from(bytes: Cow<'a, [u8]>) -> (r: Self)
        ensures
            r@ == bytes@,
            (r is Borrowed) == (bytes is Borrowed),
            bytes matches Cow::Borrowed(s) ==> r == CowBytes::Borrowed(s),
    {
        match bytes {
            Cow::Borrowed(bytes) => CowBytes::Borrowed(bytes),
            Cow::Owned(bytes) => CowBytes::Shared(shared_from_vec(bytes)),
        }
    }
}

impl<'a> vstd::std_specs::convert::FromSpecImpl<Cow<'a, [u8]>> for CowBytes<'a> {
    open spec fn obeys_from_spec() -> bool {
        false
    }

    open spec fn from_spec(bytes: Cow<'a, [u8]>) -> Self {
        vstd::pervasive::arbitrary()
    }
}

impl<'a> From<Cow<'a, str>> for CowBytes<'a> {
    /// Keeps a borrow borrowed, and adopts an owned string without copying.
    fn from(bytes: Cow<'a, str>) -> (r: Self)
        ensures
            r@ == vstd::utf8::encode_utf8(bytes@),
            (r is Borrowed) == (bytes is Borrowed),
    {
        match bytes {
            Cow::Borrowed(bytes) => CowBytes::Borrowed(bytes.as_bytes()),
            Cow::Owned(bytes) => CowBytes::Shared(shared_from_vec(string_into_bytes(bytes))),
        }
    }
}

impl<'a> vstd::std_specs::convert::FromSpecImpl<Cow<'a, str>> for CowBytes<'a> {
    open spec fn obeys_from_spec() -> bool {
        false
    }

    open spec fn from_spec(bytes: Cow<'a, str>) -> Self {
        vstd::pervasive::arbitrary()
    }
}

impl<'a> From<BytesMut> for CowBytes<'a> {
    /// Freezes the buffer into a shared handle without copying.
    fn from(bytes: BytesMut) -> (r: Self)
        ensures
            r@ == exclusive_contents(bytes),
            r is Shared,
    {
        CowBytes::Shared(exclusive_freeze(bytes))
    }
}

impl<'a> vstd::std_specs::convert::FromSpecImpl<BytesMut> for CowBytes<'a> {
    open spec fn obeys_from_spec() -> bool {
        false
    }

    open spec fn from_spec(bytes: BytesMut) -> Self {
        vstd::pervasive::arbitrary()
    }
}

impl<'a> From<Bytes> for CowBytes<'a> {
    /// Keeps the handle as it is.
    fn from(bytes: Bytes) -> (r: Self)
        ensures
            r@ == shared_contents(bytes),
            r is Shared,
    {
        CowBytes::Shared(bytes)
    }
}

impl<'a> vstd::std_specs::convert::FromSpecImpl<Bytes> for CowBytes<'a> {
    open spec fn obeys_from_spec() -> bool {
        true
    }

    open spec fn from_spec(bytes: Bytes) -> Self {
        CowBytes::Shared(bytes)
    }
}

impl<'a> From<CowBytes<'a>> for Cow<'a, [u8]> {
    /// Keeps a borrow borrowed; shared bytes become a vector, copied only if the buffer is
    /// shared with another handle.
    fn from(bytes: CowBytes<'a>) -> (r: Self)
        ensures
            r@ == bytes@,
            (r is Borrowed) == (bytes is Borrowed),
            bytes matches CowBytes::Borrowed(s) ==> r == Cow::<'a, [u8]>::Borrowed(s),
    {
        match bytes {
            CowBytes::Borrowed(bytes) => Cow::Borrowed(bytes),
            CowBytes::Shared(_) => Cow::Owned(bytes.into_vec()),
        }
    }
}

impl<'a> vstd::std_specs::convert::FromSpecImpl<CowBytes<'a>> for Cow<'a, [u8]> {
    open spec fn obeys_from_spec() -> bool {
        false
    }

    open spec fn from_spec(bytes: CowBytes<'a>) -> Self {
        vstd::pervasive::arbitrary()
    }
}

impl<'a> From<CowBytes<'a>> for Bytes {
    /// Copies borrowed bytes; keeps a shared handle as it is.
    fn from(bytes: CowBytes<'a>) -> (r: Self)
        ensures
            shared_contents(r) == bytes@,
            bytes matches CowBytes::Shared(b) ==> r == b,
    {
        match bytes {
            CowBytes::Borrowed(bytes) => shared_copy_from_slice(bytes),
            CowBytes::Shared(bytes) => bytes,
        }
    }
}

impl<'a> vstd::std_specs::convert::FromSpecImpl<CowBytes<'a>> for Bytes {
    open spec fn obeys_from_spec() -> bool {
        false
    }

    open spec fn from_spec(bytes: CowBytes<'a>) -> Self {
        vstd::pervasive::arbitrary()
    }
}

impl<'a> From<CowBytes<'a>> for Vec<u8> {
    /// The bytes as a vector, as [`CowBytes::into_vec`] makes it.
    fn from(bytes: CowBytes<'a>) -> (r: Self)
        ensures
            r@ == bytes@,
    {
        bytes.into_vec()
    }
}

impl<'a> vstd::std_specs::convert::FromSpecImpl<CowBytes<'a>> for Vec<u8> {
    open spec fn obeys_from_spec() -> bool {
        false
    }

    open spec fn from_spec(bytes: CowBytes<'a>) -> Self {
        vstd::pervasive::arbitrary()
    }
}

impl<'a> From<CowBytes<'a>> for Box<[u8]> {
    /// The bytes as a boxed slice, made from [`CowBytes::into_vec`].
    fn from(bytes: CowBytes<'a>) -> (r: Self)
        ensures
            r@ == bytes@,
    {
        vec_into_boxed_slice(bytes.into_vec())
    }
}

impl<'a> vstd::std_specs::convert::FromSpecImpl<CowBytes<'a>> for Box<[u8]> {
    open spec fn obeys_from_spec() -> bool {
        false
    }

    open spec fn from_spec(bytes: CowBytes<'a>) -> Self {
        vstd::pervasive::arbitrary()
    }
}

/// Converting a [`Cow`] into [`CowBytes`] and back keeps the bytes, and keeps a borrow a borrow.
pub proof fn law_cow_round_trip<'a>(cow: Cow<'a, [u8]>, bytes: CowBytes<'a>, back: Cow<'a, [u8]>)
    requires
        call_ensures(<CowBytes<'a> as From<Cow<'a, [u8]>>>::from, (cow,), bytes),
        call_ensures(<Cow<'a, [u8]> as From<CowBytes<'a>>>::from, (bytes,), back),
    ensures
        back@ == cow@,
        (back is Borrowed) == (cow is Borrowed),
{
}

/// A vector adopted as [`CowBytes`] comes back from [`CowBytes::into_vec`] with the same bytes.
pub proof fn law_vec_round_trip<'a>(v: Vec<u8>, bytes: CowBytes<'a>, back: Vec<u8>)
    requires
        call_ensures(<CowBytes<'a> as From<Vec<u8>>>::from, (v,), bytes),
        call_ensures(CowBytes::<'a>::into_vec, (bytes,), back),
    ensures
        back@ == v@,
{
}

} // verus!
