//! A clone-on-write byte buffer whose owned side is a reference counted [`Bytes`].
//!
//! [`CowBytes`] is either a borrowed `&[u8]` or a shared [`Bytes`]. Unlike `Cow<[u8]>`, cloning
//! and slicing shared bytes are reference count operations rather than copies; unlike [`Bytes`],
//! an arbitrary slice can be held without copying it, at the cost of a lifetime.
//!
//! Every value is modelled by its view, the sequence of bytes it holds, whichever variant holds
//! them. The operations state what they do to that sequence, and which variant they leave;
//! equality, order and hashing go by the bytes alone.
//!
//! - [`backing`]: the calls into the `bytes` crate, with what each is trusted to do.
//! - [`order`]: byte-wise lexicographic order and its laws.
//! - [`compare`]: equality, order and hashing by contents.
//! - [`convert`]: conversions to and from other byte holders.

use vstd::prelude::*;

pub use bytes::{Buf, Bytes};

use core::borrow::Borrow;

pub mod backing;
mod buf;
pub mod compare;
pub mod convert;
mod iter;
pub mod order;

use backing::{
    exclusive_into_vec, shared_as_slice, shared_clone, shared_contents, shared_copy_from_slice,
    shared_from_static, shared_from_vec, shared_slice, shared_split_off, shared_split_to, shared_truncate,
    shared_try_into_mut,
};

verus! {

/// Bytes that are either borrowed from a caller or shared through a reference counted buffer.
#[derive(Debug)]
pub enum CowBytes<'a> {
    /// Bytes borrowed from an existing buffer.
    Borrowed(&'a [u8]),
    /// Bytes shared with a reference counted buffer.
    Shared(Bytes),
}

impl<'a> View for CowBytes<'a> {
    type V = Seq<u8>;

    /// The bytes held, whichever variant holds them.
    open spec fn view(&self) -> Seq<u8> {
        match self {
            CowBytes::Borrowed(b) => b@,
            CowBytes::Shared(b) => shared_contents(*b),
        }
    }
}

impl<'a> CowBytes<'a> {
    /// Creates empty bytes without allocating.
    pub fn new() -> (r: Self)
        ensures
            r@ == Seq::<u8>::empty(),
            r is Borrowed,
    {
        let empty: &[u8] = &[];
        CowBytes::Borrowed(empty)
    }

    /// Returns the bytes as a slice.
    pub fn as_slice(&self) -> (r: &[u8])
        ensures
            r@ == self@,
    {
        match self {
            CowBytes::Borrowed(b) => b,
            CowBytes::Shared(b) => shared_as_slice(b),
        }
    }

    /// Creates bytes that refer to a static slice, without copying or allocating.
    pub fn from_static(bytes: &'static [u8]) -> (r: Self)
        ensures
            r@ == bytes@,
            r is Shared,
    {
        CowBytes::Shared(shared_from_static(bytes))
    }

    /// Returns the number of bytes.
    pub fn len(&self) -> (r: usize)
        ensures
            r == self@.len(),
    {
        self.as_slice().len()
    }

    /// Returns true if there are no bytes.
    pub fn is_empty(&self) -> (r: bool)
        ensures
            r == (self@.len() == 0),
    {
        self.as_slice().len() == 0
    }

    /// Returns the bytes as a vector, copying only if they are borrowed or the shared buffer is
    /// not held by this handle alone; an unshared buffer is handed back as it is.
    pub fn into_vec(self) -> (r: Vec<u8>)
        ensures
            r@ == self@,
    {
        match self {
            CowBytes::Borrowed(bytes) => vstd::slice::slice_to_vec(bytes),
            CowBytes::Shared(bytes) => match shared_try_into_mut(bytes) {
                Ok(unique) => exclusive_into_vec(unique),
                Err(bytes) => vstd::slice::slice_to_vec(shared_as_slice(&bytes)),
            },
        }
    }

    /// Returns the bytes in `range` without copying them; borrowed bytes stay borrowed and
    /// shared bytes stay in the same buffer.
    ///
    /// A range out of bounds would panic; `requires` rules it out.
    pub fn slice(&self, range: core::ops::Range<usize>) -> (r: CowBytes<'a>)
        requires
            range.start <= range.end <= self@.len(),
        ensures
            r@ == self@.subrange(range.start as int, range.end as int),
            r is Borrowed <==> self is Borrowed,
    {
        match self {
            CowBytes::Borrowed(bytes) => CowBytes::Borrowed(
                vstd::slice::slice_subrange(*bytes, range.start, range.end),
            ),
            CowBytes::Shared(bytes) => CowBytes::Shared(shared_slice(bytes, range.start, range.end)),
        }
    }

    /// Splits the bytes at `at` without copying: `self` keeps `[0, at)` and the bytes from `at`
    /// on are returned.
    pub fn split_off(&mut self, at: usize) -> (r: CowBytes<'a>)
        requires
            at <= old(self)@.len(),
        ensures
            final(self)@ == old(self)@.take(at as int),
            r@ == old(self)@.skip(at as int),
            final(self)@ + r@ == old(self)@,
            (*final(self) is Borrowed) == (*old(self) is Borrowed),
            (r is Borrowed) == (*old(self) is Borrowed),
    {
        match self {
            CowBytes::Borrowed(bytes) => {
                let (head, tail) = bytes.split_at(at);
                *bytes = head;
                CowBytes::Borrowed(tail)
            },
            CowBytes::Shared(bytes) => CowBytes::Shared(shared_split_off(bytes, at)),
        }
    }

    /// Splits the bytes at `at` without copying: `self` keeps `[at, len)` and the bytes before
    /// `at` are returned.
    pub fn split_to(&mut self, at: usize) -> (r: CowBytes<'a>)
        requires
            at <= old(self)@.len(),
        ensures
            final(self)@ == old(self)@.skip(at as int),
            r@ == old(self)@.take(at as int),
            r@ + final(self)@ == old(self)@,
            (*final(self) is Borrowed) == (*old(self) is Borrowed),
            (r is Borrowed) == (*old(self) is Borrowed),
    {
        match self {
            CowBytes::Borrowed(bytes) => {
                let (head, tail) = bytes.split_at(at);
                *bytes = tail;
                CowBytes::Borrowed(head)
            },
            CowBytes::Shared(bytes) => CowBytes::Shared(shared_split_to(bytes, at)),
        }
    }

    /// Keeps the first `len` bytes without copying; does nothing where there are no more than
    /// `len` bytes.
    pub fn truncate(&mut self, len: usize)
        ensures
            len < old(self)@.len() ==> final(self)@ == old(self)@.take(len as int),
            len >= old(self)@.len() ==> *final(self) == *old(self),
            (*final(self) is Borrowed) == (*old(self) is Borrowed),
    {
        match self {
            CowBytes::Borrowed(bytes) => {
                if len < bytes.len() {
                    *bytes = vstd::slice::slice_subrange(*bytes, 0, len);
                }
            },
            CowBytes::Shared(bytes) => shared_truncate(bytes, len),
        }
    }

    /// Discards all of the bytes.
    pub fn clear(&mut self)
        ensures
            final(self)@ == Seq::<u8>::empty(),
            (*final(self) is Borrowed) == (*old(self) is Borrowed),
    {
        self.truncate(0);
    }

    /// Converts into bytes with no borrow, copying only if they are borrowed; shared bytes are
    /// kept as they are.
    pub fn into_static(self) -> (r: CowBytes<'static>)
        ensures
            r@ == self@,
            r is Shared,
            self matches CowBytes::Shared(b) ==> r == CowBytes::Shared(b),
    {
        match self {
            CowBytes::Borrowed(bytes) => CowBytes::Shared(shared_copy_from_slice(bytes)),
            CowBytes::Shared(bytes) => CowBytes::Shared(bytes),
        }
    }
}

impl<'a> CowBytes<'a> {
    /// Applies `f` to the bytes, copying them first where they are borrowed or shared, and
    /// returns what `f` returns. The bytes are left as `f` left them, whatever it returns.
    pub fn with_mut<R, F: FnOnce(&mut [u8]) -> R>(&mut self, f: F) -> (r: R)
        requires
            forall|b: &mut [u8]| b@ == old(self)@ ==> #[trigger] call_requires(f, (b,)),
        ensures
            exists|b: &mut [u8]|
                {
                    &&& b@ == old(self)@
                    &&& call_ensures(f, (b,), r)
                    &&& final(self)@ == final(b)@
                },
            *final(self) is Shared,
    {
        let mut taken = CowBytes::new();
        core::mem::swap(&mut taken, self);
        let mut bytes = taken.into_vec();
        let result = f(bytes.as_mut_slice());
        *self = CowBytes::Shared(shared_from_vec(bytes));
        result
    }
}

impl<'a> Default for CowBytes<'a> {
    /// Empty bytes, as [`CowBytes::new`] makes them.
    fn default() -> (r: Self)
        ensures
            r@ == Seq::<u8>::empty(),
            r is Borrowed,
    {
        CowBytes::new()
    }
}

impl<'a> Clone for CowBytes<'a> {
    /// Another value with the same bytes and variant; shared bytes are not copied.
    fn clone(&self) -> (r: Self)
        ensures
            r@ == self@,
            (r is Borrowed) == (self is Borrowed),
            self matches CowBytes::Borrowed(s) ==> r == CowBytes::Borrowed(s),
    {
        match self {
            CowBytes::Borrowed(bytes) => CowBytes::Borrowed(*bytes),
            CowBytes::Shared(bytes) => CowBytes::Shared(shared_clone(bytes)),
        }
    }
}

impl<'a> core::ops::Deref for CowBytes<'a> {
    type Target = [u8];

    fn deref(&self) -> (r: &[u8])
        ensures
            r@ == self@,
    {
        self.as_slice()
    }
}

impl<'a> AsRef<[u8]> for CowBytes<'a> {
    fn as_ref(&self) -> (r: &[u8])
        ensures
            r@ == self@,
    {
        self.as_slice()
    }
}

/// The bytes that a slice holds.
pub open spec fn slice_bytes(s: &[u8]) -> Seq<u8> {
    s@
}

impl<'a> Borrow<[u8]> for CowBytes<'a> {
    fn borrow(&self) -> (r: &[u8])
        ensures
            slice_bytes(r) == self@,
    {
        self.as_slice()
    }
}

} // verus!
