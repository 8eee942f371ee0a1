//! Collecting bytes into a [`CowBytes`].

use vstd::prelude::*;

use bytes::Bytes;

use crate::CowBytes;

verus! {

/// Collects the bytes into a new shared buffer.
impl<'a> FromIterator<u8> for CowBytes<'a> {
    /// Calls `<Bytes as FromIterator<u8>>::from_iter`, which collects the items into a new
    /// buffer, and holds the buffer as shared bytes. The items come from the caller's iterator,
    /// whose behaviour this crate does not model, so only the variant of the result is stated.
    #[verifier::external_body]
    fn from_iter<T: IntoIterator<Item = u8>>(iter: T) -> (r: Self)
        ensures
            r is Shared,
    {
        CowBytes::Shared(Bytes::from_iter(iter))
    }
}

} // verus!
