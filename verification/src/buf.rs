//! Reading [`CowBytes`] as a [`Buf`].

use vstd::prelude::*;

use bytes::{Buf, Bytes};

use crate::backing::{shared_advance, shared_contents, shared_copy_from_slice, shared_copy_to_bytes};
use crate::CowBytes;

verus! {

/// Reads the bytes as a [`Buf`], so that they can be handed to buffer-generic code without first
/// copying a borrow into a [`Bytes`].
impl<'a> Buf for CowBytes<'a> {
    fn remaining(&self) -> (r: usize)
        ensures
            r == self@.len(),
    {
        self.len()
    }

    fn chunk(&self) -> (r: &[u8])
        ensures
            r@ == self@,
    {
        self.as_slice()
    }

    /// Drops the first `cnt` bytes without copying. Advancing past the end would panic;
    /// `requires` rules it out.
    fn advance(&mut self, cnt: usize)
        requires
            cnt <= old(self)@.len(),
        ensures
            final(self)@ == old(self)@.skip(cnt as int),
            (*final(self) is Borrowed) == (*old(self) is Borrowed),
    {
        match self {
            CowBytes::Borrowed(bytes) => {
                *bytes = vstd::slice::slice_subrange(*bytes, cnt, bytes.len());
            },
            CowBytes::Shared(bytes) => shared_advance(bytes, cnt),
        }
    }

    /// Takes the first `len` bytes as a [`Bytes`]: borrowed bytes are copied, shared bytes are
    /// split off without copying. Taking more than there are would panic; `requires` rules it out.
    fn copy_to_bytes(&mut self, len: usize) -> (r: Bytes)
        requires
            len <= old(self)@.len(),
        ensures
            final(self)@ == old(self)@.skip(len as int),
            (*final(self) is Borrowed) == (*old(self) is Borrowed),
            shared_contents(r) == old(self)@.take(len as int),
    {
        match self {
            CowBytes::Borrowed(bytes) => {
                let (head, tail) = bytes.split_at(len);
                *bytes = tail;
                shared_copy_from_slice(head)
            },
            CowBytes::Shared(bytes) => shared_copy_to_bytes(bytes, len),
        }
    }
}

} // verus!
