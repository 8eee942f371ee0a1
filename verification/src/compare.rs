//! Contents-based comparison and hashing of [`CowBytes`], against itself and against the other
//! types that hold bytes, on either side.

use vstd::prelude::*;

use core::cmp::Ordering;

use std::borrow::Cow;

use bytes::{Bytes, BytesMut};

use crate::backing::{exclusive_as_slice, exclusive_contents, shared_as_slice, shared_contents};
use crate::order::{
    compare_slices, law_first_difference_decides, law_proper_prefix_is_less, lemma_lex_ordering_reverses,
    lex_ordering, same_bytes, Precedence,
};
use crate::CowBytes;

verus! {

/// Values that hold a sequence of bytes, which [`CowBytes`] compares against by contents.
pub trait AsBytes {
    /// The bytes held.
    spec fn byte_view(&self) -> Seq<u8>;

    /// Returns the bytes held.
    fn byte_slice(&self) -> (r: &[u8])
        ensures
            r@ == self.byte_view(),
    ;
}

impl AsBytes for [u8] {
    open spec fn byte_view(&self) -> Seq<u8> {
        self@
    }

    fn byte_slice(&self) -> (r: &[u8]) {
        self
    }
}

impl<const N: usize> AsBytes for [u8; N] {
    open spec fn byte_view(&self) -> Seq<u8> {
        self@
    }

    fn byte_slice(&self) -> (r: &[u8]) {
        self.as_slice()
    }
}

impl AsBytes for Vec<u8> {
    open spec fn byte_view(&self) -> Seq<u8> {
        self@
    }

    fn byte_slice(&self) -> (r: &[u8]) {
        self.as_slice()
    }
}

impl AsBytes for str {
    /// The UTF-8 encoding of the characters.
    open spec fn byte_view(&self) -> Seq<u8> {
        vstd::utf8::encode_utf8(self@)
    }

    fn byte_slice(&self) -> (r: &[u8]) {
        self.as_bytes()
    }
}

impl AsBytes for String {
    /// The UTF-8 encoding of the characters.
    open spec fn byte_view(&self) -> Seq<u8> {
        vstd::utf8::encode_utf8(self@)
    }

    fn byte_slice(&self) -> (r: &[u8]) {
        self.as_str().as_bytes()
    }
}

impl AsBytes for Bytes {
    open spec fn byte_view(&self) -> Seq<u8> {
        shared_contents(*self)
    }

    fn byte_slice(&self) -> (r: &[u8]) {
        shared_as_slice(self)
    }
}

impl AsBytes for BytesMut {
    open spec fn byte_view(&self) -> Seq<u8> {
        exclusive_contents(*self)
    }

    fn byte_slice(&self) -> (r: &[u8]) {
        exclusive_as_slice(self)
    }
}

impl AsBytes for Box<[u8]> {
    open spec fn byte_view(&self) -> Seq<u8> {
        (**self)@
    }

    fn byte_slice(&self) -> (r: &[u8]) {
        &**self
    }
}

impl AsBytes for std::rc::Rc<[u8]> {
    open spec fn byte_view(&self) -> Seq<u8> {
        (**self)@
    }

    fn byte_slice(&self) -> (r: &[u8]) {
        &**self
    }
}

impl AsBytes for std::sync::Arc<[u8]> {
    open spec fn byte_view(&self) -> Seq<u8> {
        (**self)@
    }

    fn byte_slice(&self) -> (r: &[u8]) {
        &**self
    }
}

impl<'a> AsBytes for Cow<'a, [u8]> {
    open spec fn byte_view(&self) -> Seq<u8> {
        self@
    }

    fn byte_slice(&self) -> (r: &[u8]) {
        match self {
            Cow::Borrowed(bytes) => bytes,
            Cow::Owned(bytes) => bytes.as_slice(),
        }
    }
}

impl<'a> AsBytes for CowBytes<'a> {
    open spec fn byte_view(&self) -> Seq<u8> {
        self@
    }

    fn byte_slice(&self) -> (r: &[u8]) {
        self.as_slice()
    }
}

impl<'t, T: AsBytes + ?Sized> AsBytes for &'t T {
    open spec fn byte_view(&self) -> Seq<u8> {
        (**self).byte_view()
    }

    fn byte_slice(&self) -> (r: &[u8]) {
        (**self).byte_slice()
    }
}

/// Equality is by contents, whichever variant holds the bytes.
impl<'a, T: AsBytes + ?Sized> PartialEq<T> for CowBytes<'a> {
    fn eq(&self, other: &T) -> (r: bool) {
        same_bytes(self.as_slice(), other.byte_slice())
    }
}

impl<'a, T: AsBytes + ?Sized> vstd::std_specs::cmp::PartialEqSpecImpl<T> for CowBytes<'a> {
    open spec fn obeys_eq_spec() -> bool {
        true
    }

    open spec fn eq_spec(&self, other: &T) -> bool {
        self@ == other.byte_view()
    }
}

impl<'a> Eq for CowBytes<'a> {
}

/// Orders by contents, consistently with the contents-based equality.
impl<'a, T: AsBytes + ?Sized> PartialOrd<T> for CowBytes<'a> {
    fn partial_cmp(&self, other: &T) -> (r: Option<Ordering>) {
        match compare_slices(self.as_slice(), other.byte_slice()) {
            Precedence::Before => Some(Ordering::Less),
            Precedence::Same => Some(Ordering::Equal),
            Precedence::After => Some(Ordering::Greater),
        }
    }
}

impl<'a, T: AsBytes + ?Sized> vstd::std_specs::cmp::PartialOrdSpecImpl<T> for CowBytes<'a> {
    open spec fn obeys_partial_cmp_spec() -> bool {
        true
    }

    open spec fn partial_cmp_spec(&self, other: &T) -> Option<Ordering> {
        Some(lex_ordering(self@, other.byte_view()))
    }
}

/// `==` between a [`CowBytes`] and any byte holder answers whether the two hold the same bytes,
/// position by position, whichever variant holds them.
pub proof fn law_eq_is_byte_identity<'a, T: AsBytes + ?Sized>(x: &CowBytes<'a>, y: &T, r: bool)
    requires
        call_ensures(<CowBytes<'a> as PartialEq<T>>::eq, (x, y), r),
    ensures
        r == (x@.len() == y.byte_view().len() && forall|i: int|
            0 <= i < x@.len() ==> #[trigger] x@[i] == y.byte_view()[i]),
{
    if x@.len() == y.byte_view().len() && forall|i: int|
        0 <= i < x@.len() ==> #[trigger] x@[i] == y.byte_view()[i] {
        assert(x@ =~= y.byte_view());
    }
}

/// `partial_cmp` always answers, and answers `Equal` exactly when the bytes are the same.
pub proof fn law_partial_cmp_total<'a, T: AsBytes + ?Sized>(
    x: &CowBytes<'a>,
    y: &T,
    r: Option<Ordering>,
)
    requires
        call_ensures(PartialOrd::<T>::partial_cmp, (x, y), r),
    ensures
        r is Some,
        (r == Some(Ordering::Equal)) == (x@ == y.byte_view()),
{
    lemma_lex_ordering_reverses(x@, y.byte_view());
}

/// Where the bytes first differ, the smaller byte value comes first: `partial_cmp` answers
/// `Less` when `x` has the smaller byte there, and `Greater` when `y` has.
pub proof fn law_partial_cmp_first_difference<'a, T: AsBytes + ?Sized>(
    x: &CowBytes<'a>,
    y: &T,
    r: Option<Ordering>,
    i: int,
)
    requires
        call_ensures(PartialOrd::<T>::partial_cmp, (x, y), r),
        0 <= i < x@.len(),
        i < y.byte_view().len(),
        forall|j: int| 0 <= j < i ==> x@[j] == y.byte_view()[j],
        x@[i] != y.byte_view()[i],
    ensures
        x@[i] < y.byte_view()[i] ==> r == Some(Ordering::Less),
        y.byte_view()[i] < x@[i] ==> r == Some(Ordering::Greater),
{
    if x@[i] < y.byte_view()[i] {
        law_first_difference_decides(x@, y.byte_view(), i);
    } else {
        law_first_difference_decides(y.byte_view(), x@, i);
    }
}

/// Where one holds a proper prefix of the other's bytes, the shorter comes first.
pub proof fn law_partial_cmp_prefix<'a, T: AsBytes + ?Sized>(
    x: &CowBytes<'a>,
    y: &T,
    r: Option<Ordering>,
)
    requires
        call_ensures(PartialOrd::<T>::partial_cmp, (x, y), r),
    ensures
        x@.len() < y.byte_view().len() && (forall|j: int|
            0 <= j < x@.len() ==> x@[j] == y.byte_view()[j]) ==> r == Some(Ordering::Less),
        y.byte_view().len() < x@.len() && (forall|j: int|
            0 <= j < y.byte_view().len() ==> x@[j] == y.byte_view()[j]) ==> r == Some(
            Ordering::Greater,
        ),
{
    if x@.len() < y.byte_view().len() && (forall|j: int|
        0 <= j < x@.len() ==> x@[j] == y.byte_view()[j]) {
        law_proper_prefix_is_less(x@, y.byte_view());
    }
    if y.byte_view().len() < x@.len() && (forall|j: int|
        0 <= j < y.byte_view().len() ==> x@[j] == y.byte_view()[j]) {
        law_proper_prefix_is_less(y.byte_view(), x@);
    }
}

// Comparisons with a `CowBytes` on the right-hand side.

impl<'b> PartialEq<CowBytes<'b>> for [u8] {
    fn eq(&self, other: &CowBytes<'b>) -> (r: bool) {
        same_bytes(self.byte_slice(), other.as_slice())
    }
}

impl<'b> vstd::std_specs::cmp::PartialEqSpecImpl<CowBytes<'b>> for [u8] {
    open spec fn obeys_eq_spec() -> bool {
        true
    }

    open spec fn eq_spec(&self, other: &CowBytes<'b>) -> bool {
        self.byte_view() == other@
    }
}

impl<'b> PartialOrd<CowBytes<'b>> for [u8] {
    fn partial_cmp(&self, other: &CowBytes<'b>) -> (r: Option<Ordering>) {
        match compare_slices(self.byte_slice(), other.as_slice()) {
            Precedence::Before => Some(Ordering::Less),
            Precedence::Same => Some(Ordering::Equal),
            Precedence::After => Some(Ordering::Greater),
        }
    }
}

impl<'b> vstd::std_specs::cmp::PartialOrdSpecImpl<CowBytes<'b>> for [u8] {
    open spec fn obeys_partial_cmp_spec() -> bool {
        true
    }

    open spec fn partial_cmp_spec(&self, other: &CowBytes<'b>) -> Option<Ordering> {
        Some(lex_ordering(self.byte_view(), other@))
    }
}

impl<'x, 'b> PartialEq<CowBytes<'b>> for &'x [u8] {
    fn eq(&self, other: &CowBytes<'b>) -> (r: bool) {
        same_bytes(self.byte_slice(), other.as_slice())
    }
}

impl<'x, 'b> vstd::std_specs::cmp::PartialEqSpecImpl<CowBytes<'b>> for &'x [u8] {
    open spec fn obeys_eq_spec() -> bool {
        true
    }

    open spec fn eq_spec(&self, other: &CowBytes<'b>) -> bool {
        self.byte_view() == other@
    }
}

impl<'x, 'b> PartialOrd<CowBytes<'b>> for &'x [u8] {
    fn partial_cmp(&self, other: &CowBytes<'b>) -> (r: Option<Ordering>) {
        match compare_slices(self.byte_slice(), other.as_slice()) {
            Precedence::Before => Some(Ordering::Less),
            Precedence::Same => Some(Ordering::Equal),
            Precedence::After => Some(Ordering::Greater),
        }
    }
}

impl<'x, 'b> vstd::std_specs::cmp::PartialOrdSpecImpl<CowBytes<'b>> for &'x [u8] {
    open spec fn obeys_partial_cmp_spec() -> bool {
        true
    }

    open spec fn partial_cmp_spec(&self, other: &CowBytes<'b>) -> Option<Ordering> {
        Some(lex_ordering(self.byte_view(), other@))
    }
}

impl<'b> PartialEq<CowBytes<'b>> for str {
    fn eq(&self, other: &CowBytes<'b>) -> (r: bool) {
        same_bytes(self.byte_slice(), other.as_slice())
    }
}

impl<'b> vstd::std_specs::cmp::PartialEqSpecImpl<CowBytes<'b>> for str {
    open spec fn obeys_eq_spec() -> bool {
        true
    }

    open spec fn eq_spec(&self, other: &CowBytes<'b>) -> bool {
        self.byte_view() == other@
    }
}

impl<'b> PartialOrd<CowBytes<'b>> for str {
    fn partial_cmp(&self, other: &CowBytes<'b>) -> (r: Option<Ordering>) {
        match compare_slices(self.byte_slice(), other.as_slice()) {
            Precedence::Before => Some(Ordering::Less),
            Precedence::Same => Some(Ordering::Equal),
            Precedence::After => Some(Ordering::Greater),
        }
    }
}

impl<'b> vstd::std_specs::cmp::PartialOrdSpecImpl<CowBytes<'b>> for str {
    open spec fn obeys_partial_cmp_spec() -> bool {
        true
    }

    open spec fn partial_cmp_spec(&self, other: &CowBytes<'b>) -> Option<Ordering> {
        Some(lex_ordering(self.byte_view(), other@))
    }
}

impl<'x, 'b> PartialEq<CowBytes<'b>> for &'x str {
    fn eq(&self, other: &CowBytes<'b>) -> (r: bool) {
        same_bytes(self.byte_slice(), other.as_slice())
    }
}

impl<'x, 'b> vstd::std_specs::cmp::PartialEqSpecImpl<CowBytes<'b>> for &'x str {
    open spec fn obeys_eq_spec() -> bool {
        true
    }

    open spec fn eq_spec(&self, other: &CowBytes<'b>) -> bool {
        self.byte_view() == other@
    }
}

impl<'x, 'b> PartialOrd<CowBytes<'b>> for &'x str {
    fn partial_cmp(&self, other: &CowBytes<'b>) -> (r: Option<Ordering>) {
        match compare_slices(self.byte_slice(), other.as_slice()) {
            Precedence::Before => Some(Ordering::Less),
            Precedence::Same => Some(Ordering::Equal),
            Precedence::After => Some(Ordering::Greater),
        }
    }
}

impl<'x, 'b> vstd::std_specs::cmp::PartialOrdSpecImpl<CowBytes<'b>> for &'x str {
    open spec fn obeys_partial_cmp_spec() -> bool {
        true
    }

    open spec fn partial_cmp_spec(&self, other: &CowBytes<'b>) -> Option<Ordering> {
        Some(lex_ordering(self.byte_view(), other@))
    }
}

impl<'b> PartialEq<CowBytes<'b>> for Vec<u8> {
    fn eq(&self, other: &CowBytes<'b>) -> (r: bool) {
        same_bytes(self.byte_slice(), other.as_slice())
    }
}

impl<'b> vstd::std_specs::cmp::PartialEqSpecImpl<CowBytes<'b>> for Vec<u8> {
    open spec fn obeys_eq_spec() -> bool {
        true
    }

    open spec fn eq_spec(&self, other: &CowBytes<'b>) -> bool {
        self.byte_view() == other@
    }
}

impl<'b> PartialOrd<CowBytes<'b>> for Vec<u8> {
    fn partial_cmp(&self, other: &CowBytes<'b>) -> (r: Option<Ordering>) {
        match compare_slices(self.byte_slice(), other.as_slice()) {
            Precedence::Before => Some(Ordering::Less),
            Precedence::Same => Some(Ordering::Equal),
            Precedence::After => Some(Ordering::Greater),
        }
    }
}

impl<'b> vstd::std_specs::cmp::PartialOrdSpecImpl<CowBytes<'b>> for Vec<u8> {
    open spec fn obeys_partial_cmp_spec() -> bool {
        true
    }

    open spec fn partial_cmp_spec(&self, other: &CowBytes<'b>) -> Option<Ordering> {
        Some(lex_ordering(self.byte_view(), other@))
    }
}

impl<'x, 'b> PartialEq<CowBytes<'b>> for &'x Vec<u8> {
    fn eq(&self, other: &CowBytes<'b>) -> (r: bool) {
        same_bytes(self.byte_slice(), other.as_slice())
    }
}

impl<'x, 'b> vstd::std_specs::cmp::PartialEqSpecImpl<CowBytes<'b>> for &'x Vec<u8> {
    open spec fn obeys_eq_spec() -> bool {
        true
    }

    open spec fn eq_spec(&self, other: &CowBytes<'b>) -> bool {
        self.byte_view() == other@
    }
}

impl<'x, 'b> PartialOrd<CowBytes<'b>> for &'x Vec<u8> {
    fn partial_cmp(&self, other: &CowBytes<'b>) -> (r: Option<Ordering>) {
        match compare_slices(self.byte_slice(), other.as_slice()) {
            Precedence::Before => Some(Ordering::Less),
            Precedence::Same => Some(Ordering::Equal),
            Precedence::After => Some(Ordering::Greater),
        }
    }
}

impl<'x, 'b> vstd::std_specs::cmp::PartialOrdSpecImpl<CowBytes<'b>> for &'x Vec<u8> {
    open spec fn obeys_partial_cmp_spec() -> bool {
        true
    }

    open spec fn partial_cmp_spec(&self, other: &CowBytes<'b>) -> Option<Ordering> {
        Some(lex_ordering(self.byte_view(), other@))
    }
}

impl<'b> PartialEq<CowBytes<'b>> for String {
    fn eq(&self, other: &CowBytes<'b>) -> (r: bool) {
        same_bytes(self.byte_slice(), other.as_slice())
    }
}

impl<'b> vstd::std_specs::cmp::PartialEqSpecImpl<CowBytes<'b>> for String {
    open spec fn obeys_eq_spec() -> bool {
        true
    }

    open spec fn eq_spec(&self, other: &CowBytes<'b>) -> bool {
        self.byte_view() == other@
    }
}

impl<'b> PartialOrd<CowBytes<'b>> for String {
    fn partial_cmp(&self, other: &CowBytes<'b>) -> (r: Option<Ordering>) {
        match compare_slices(self.byte_slice(), other.as_slice()) {
            Precedence::Before => Some(Ordering::Less),
            Precedence::Same => Some(Ordering::Equal),
            Precedence::After => Some(Ordering::Greater),
        }
    }
}

impl<'b> vstd::std_specs::cmp::PartialOrdSpecImpl<CowBytes<'b>> for String {
    open spec fn obeys_partial_cmp_spec() -> bool {
        true
    }

    open spec fn partial_cmp_spec(&self, other: &CowBytes<'b>) -> Option<Ordering> {
        Some(lex_ordering(self.byte_view(), other@))
    }
}

impl<'x, 'b> PartialEq<CowBytes<'b>> for &'x String {
    fn eq(&self, other: &CowBytes<'b>) -> (r: bool) {
        same_bytes(self.byte_slice(), other.as_slice())
    }
}

impl<'x, 'b> vstd::std_specs::cmp::PartialEqSpecImpl<CowBytes<'b>> for &'x String {
    open spec fn obeys_eq_spec() -> bool {
        true
    }

    open spec fn eq_spec(&self, other: &CowBytes<'b>) -> bool {
        self.byte_view() == other@
    }
}

impl<'x, 'b> PartialOrd<CowBytes<'b>> for &'x String {
    fn partial_cmp(&self, other: &CowBytes<'b>) -> (r: Option<Ordering>) {
        match compare_slices(self.byte_slice(), other.as_slice()) {
            Precedence::Before => Some(Ordering::Less),
            Precedence::Same => Some(Ordering::Equal),
            Precedence::After => Some(Ordering::Greater),
        }
    }
}

impl<'x, 'b> vstd::std_specs::cmp::PartialOrdSpecImpl<CowBytes<'b>> for &'x String {
    open spec fn obeys_partial_cmp_spec() -> bool {
        true
    }

    open spec fn partial_cmp_spec(&self, other: &CowBytes<'b>) -> Option<Ordering> {
        Some(lex_ordering(self.byte_view(), other@))
    }
}

impl<'b> PartialEq<CowBytes<'b>> for Bytes {
    fn eq(&self, other: &CowBytes<'b>) -> (r: bool) {
        same_bytes(self.byte_slice(), other.as_slice())
    }
}

impl<'b> vstd::std_specs::cmp::PartialEqSpecImpl<CowBytes<'b>> for Bytes {
    open spec fn obeys_eq_spec() -> bool {
        true
    }

    open spec fn eq_spec(&self, other: &CowBytes<'b>) -> bool {
        self.byte_view() == other@
    }
}

impl<'b> PartialOrd<CowBytes<'b>> for Bytes {
    fn partial_cmp(&self, other: &CowBytes<'b>) -> (r: Option<Ordering>) {
        match compare_slices(self.byte_slice(), other.as_slice()) {
            Precedence::Before => Some(Ordering::Less),
            Precedence::Same => Some(Ordering::Equal),
            Precedence::After => Some(Ordering::Greater),
        }
    }
}

impl<'b> vstd::std_specs::cmp::PartialOrdSpecImpl<CowBytes<'b>> for Bytes {
    open spec fn obeys_partial_cmp_spec() -> bool {
        true
    }

    open spec fn partial_cmp_spec(&self, other: &CowBytes<'b>) -> Option<Ordering> {
        Some(lex_ordering(self.byte_view(), other@))
    }
}

impl<'x, 'b> PartialEq<CowBytes<'b>> for &'x Bytes {
    fn eq(&self, other: &CowBytes<'b>) -> (r: bool) {
        same_bytes(self.byte_slice(), other.as_slice())
    }
}

impl<'x, 'b> vstd::std_specs::cmp::PartialEqSpecImpl<CowBytes<'b>> for &'x Bytes {
    open spec fn obeys_eq_spec() -> bool {
        true
    }

    open spec fn eq_spec(&self, other: &CowBytes<'b>) -> bool {
        self.byte_view() == other@
    }
}

impl<'x, 'b> PartialOrd<CowBytes<'b>> for &'x Bytes {
    fn partial_cmp(&self, other: &CowBytes<'b>) -> (r: Option<Ordering>) {
        match compare_slices(self.byte_slice(), other.as_slice()) {
            Precedence::Before => Some(Ordering::Less),
            Precedence::Same => Some(Ordering::Equal),
            Precedence::After => Some(Ordering::Greater),
        }
    }
}

impl<'x, 'b> vstd::std_specs::cmp::PartialOrdSpecImpl<CowBytes<'b>> for &'x Bytes {
    open spec fn obeys_partial_cmp_spec() -> bool {
        true
    }

    open spec fn partial_cmp_spec(&self, other: &CowBytes<'b>) -> Option<Ordering> {
        Some(lex_ordering(self.byte_view(), other@))
    }
}

impl<'b> PartialEq<CowBytes<'b>> for BytesMut {
    fn eq(&self, other: &CowBytes<'b>) -> (r: bool) {
        same_bytes(self.byte_slice(), other.as_slice())
    }
}

impl<'b> vstd::std_specs::cmp::PartialEqSpecImpl<CowBytes<'b>> for BytesMut {
    open spec fn obeys_eq_spec() -> bool {
        true
    }

    open spec fn eq_spec(&self, other: &CowBytes<'b>) -> bool {
        self.byte_view() == other@
    }
}

impl<'b> PartialOrd<CowBytes<'b>> for BytesMut {
    fn partial_cmp(&self, other: &CowBytes<'b>) -> (r: Option<Ordering>) {
        match compare_slices(self.byte_slice(), other.as_slice()) {
            Precedence::Before => Some(Ordering::Less),
            Precedence::Same => Some(Ordering::Equal),
            Precedence::After => Some(Ordering::Greater),
        }
    }
}

impl<'b> vstd::std_specs::cmp::PartialOrdSpecImpl<CowBytes<'b>> for BytesMut {
    open spec fn obeys_partial_cmp_spec() -> bool {
        true
    }

    open spec fn partial_cmp_spec(&self, other: &CowBytes<'b>) -> Option<Ordering> {
        Some(lex_ordering(self.byte_view(), other@))
    }
}

impl<'x, 'b> PartialEq<CowBytes<'b>> for &'x BytesMut {
    fn eq(&self, other: &CowBytes<'b>) -> (r: bool) {
        same_bytes(self.byte_slice(), other.as_slice())
    }
}

impl<'x, 'b> vstd::std_specs::cmp::PartialEqSpecImpl<CowBytes<'b>> for &'x BytesMut {
    open spec fn obeys_eq_spec() -> bool {
        true
    }

    open spec fn eq_spec(&self, other: &CowBytes<'b>) -> bool {
        self.byte_view() == other@
    }
}

impl<'x, 'b> PartialOrd<CowBytes<'b>> for &'x BytesMut {
    fn partial_cmp(&self, other: &CowBytes<'b>) -> (r: Option<Ordering>) {
        match compare_slices(self.byte_slice(), other.as_slice()) {
            Precedence::Before => Some(Ordering::Less),
            Precedence::Same => Some(Ordering::Equal),
            Precedence::After => Some(Ordering::Greater),
        }
    }
}

impl<'x, 'b> vstd::std_specs::cmp::PartialOrdSpecImpl<CowBytes<'b>> for &'x BytesMut {
    open spec fn obeys_partial_cmp_spec() -> bool {
        true
    }

    open spec fn partial_cmp_spec(&self, other: &CowBytes<'b>) -> Option<Ordering> {
        Some(lex_ordering(self.byte_view(), other@))
    }
}

impl<'x, 'b> PartialEq<CowBytes<'b>> for Cow<'x, [u8]> {
    fn eq(&self, other: &CowBytes<'b>) -> (r: bool) {
        same_bytes(self.byte_slice(), other.as_slice())
    }
}

impl<'x, 'b> vstd::std_specs::cmp::PartialEqSpecImpl<CowBytes<'b>> for Cow<'x, [u8]> {
    open spec fn obeys_eq_spec() -> bool {
        true
    }

    open spec fn eq_spec(&self, other: &CowBytes<'b>) -> bool {
        self.byte_view() == other@
    }
}

impl<'x, 'b> PartialOrd<CowBytes<'b>> for Cow<'x, [u8]> {
    fn partial_cmp(&self, other: &CowBytes<'b>) -> (r: Option<Ordering>) {
        match compare_slices(self.byte_slice(), other.as_slice()) {
            Precedence::Before => Some(Ordering::Less),
            Precedence::Same => Some(Ordering::Equal),
            Precedence::After => Some(Ordering::Greater),
        }
    }
}

impl<'x, 'b> vstd::std_specs::cmp::PartialOrdSpecImpl<CowBytes<'b>> for Cow<'x, [u8]> {
    open spec fn obeys_partial_cmp_spec() -> bool {
        true
    }

    open spec fn partial_cmp_spec(&self, other: &CowBytes<'b>) -> Option<Ordering> {
        Some(lex_ordering(self.byte_view(), other@))
    }
}

impl<'x, 'b> PartialEq<CowBytes<'b>> for &'x Cow<'x, [u8]> {
    fn eq(&self, other: &CowBytes<'b>) -> (r: bool) {
        same_bytes(self.byte_slice(), other.as_slice())
    }
}

impl<'x, 'b> vstd::std_specs::cmp::PartialEqSpecImpl<CowBytes<'b>> for &'x Cow<'x, [u8]> {
    open spec fn obeys_eq_spec() -> bool {
        true
    }

    open spec fn eq_spec(&self, other: &CowBytes<'b>) -> bool {
        self.byte_view() == other@
    }
}

impl<'x, 'b> PartialOrd<CowBytes<'b>> for &'x Cow<'x, [u8]> {
    fn partial_cmp(&self, other: &CowBytes<'b>) -> (r: Option<Ordering>) {
        match compare_slices(self.byte_slice(), other.as_slice()) {
            Precedence::Before => Some(Ordering::Less),
            Precedence::Same => Some(Ordering::Equal),
            Precedence::After => Some(Ordering::Greater),
        }
    }
}

impl<'x, 'b> vstd::std_specs::cmp::PartialOrdSpecImpl<CowBytes<'b>> for &'x Cow<'x, [u8]> {
    open spec fn obeys_partial_cmp_spec() -> bool {
        true
    }

    open spec fn partial_cmp_spec(&self, other: &CowBytes<'b>) -> Option<Ordering> {
        Some(lex_ordering(self.byte_view(), other@))
    }
}

impl<'x, 'b> PartialEq<CowBytes<'b>> for &'x CowBytes<'x> {
    fn eq(&self, other: &CowBytes<'b>) -> (r: bool) {
        same_bytes(self.byte_slice(), other.as_slice())
    }
}

impl<'x, 'b> vstd::std_specs::cmp::PartialEqSpecImpl<CowBytes<'b>> for &'x CowBytes<'x> {
    open spec fn obeys_eq_spec() -> bool {
        true
    }

    open spec fn eq_spec(&self, other: &CowBytes<'b>) -> bool {
        self.byte_view() == other@
    }
}

impl<'x, 'b> PartialOrd<CowBytes<'b>> for &'x CowBytes<'x> {
    fn partial_cmp(&self, other: &CowBytes<'b>) -> (r: Option<Ordering>) {
        match compare_slices(self.byte_slice(), other.as_slice()) {
            Precedence::Before => Some(Ordering::Less),
            Precedence::Same => Some(Ordering::Equal),
            Precedence::After => Some(Ordering::Greater),
        }
    }
}

impl<'x, 'b> vstd::std_specs::cmp::PartialOrdSpecImpl<CowBytes<'b>> for &'x CowBytes<'x> {
    open spec fn obeys_partial_cmp_spec() -> bool {
        true
    }

    open spec fn partial_cmp_spec(&self, other: &CowBytes<'b>) -> Option<Ordering> {
        Some(lex_ordering(self.byte_view(), other@))
    }
}

impl<'b, const N: usize> PartialEq<CowBytes<'b>> for [u8; N] {
    fn eq(&self, other: &CowBytes<'b>) -> (r: bool) {
        same_bytes(self.byte_slice(), other.as_slice())
    }
}

impl<'b, const N: usize> vstd::std_specs::cmp::PartialEqSpecImpl<CowBytes<'b>> for [u8; N] {
    open spec fn obeys_eq_spec() -> bool {
        true
    }

    open spec fn eq_spec(&self, other: &CowBytes<'b>) -> bool {
        self.byte_view() == other@
    }
}

impl<'b, const N: usize> PartialOrd<CowBytes<'b>> for [u8; N] {
    fn partial_cmp(&self, other: &CowBytes<'b>) -> (r: Option<Ordering>) {
        match compare_slices(self.byte_slice(), other.as_slice()) {
            Precedence::Before => Some(Ordering::Less),
            Precedence::Same => Some(Ordering::Equal),
            Precedence::After => Some(Ordering::Greater),
        }
    }
}

impl<'b, const N: usize> vstd::std_specs::cmp::PartialOrdSpecImpl<CowBytes<'b>> for [u8; N] {
    open spec fn obeys_partial_cmp_spec() -> bool {
        true
    }

    open spec fn partial_cmp_spec(&self, other: &CowBytes<'b>) -> Option<Ordering> {
        Some(lex_ordering(self.byte_view(), other@))
    }
}

impl<'x, 'b, const N: usize> PartialEq<CowBytes<'b>> for &'x [u8; N] {
    fn eq(&self, other: &CowBytes<'b>) -> (r: bool) {
        same_bytes(self.byte_slice(), other.as_slice())
    }
}

impl<'x, 'b, const N: usize> vstd::std_specs::cmp::PartialEqSpecImpl<CowBytes<'b>> for &'x [u8; N] {
    open spec fn obeys_eq_spec() -> bool {
        true
    }

    open spec fn eq_spec(&self, other: &CowBytes<'b>) -> bool {
        self.byte_view() == other@
    }
}

impl<'x, 'b, const N: usize> PartialOrd<CowBytes<'b>> for &'x [u8; N] {
    fn partial_cmp(&self, other: &CowBytes<'b>) -> (r: Option<Ordering>) {
        match compare_slices(self.byte_slice(), other.as_slice()) {
            Precedence::Before => Some(Ordering::Less),
            Precedence::Same => Some(Ordering::Equal),
            Precedence::After => Some(Ordering::Greater),
        }
    }
}

impl<'x, 'b, const N: usize> vstd::std_specs::cmp::PartialOrdSpecImpl<CowBytes<'b>> for &'x [u8; N] {
    open spec fn obeys_partial_cmp_spec() -> bool {
        true
    }

    open spec fn partial_cmp_spec(&self, other: &CowBytes<'b>) -> Option<Ordering> {
        Some(lex_ordering(self.byte_view(), other@))
    }
}

/// Calls `<[u8] as Hash>::hash`, which feeds the length and then the bytes to `state`. What a
/// hasher makes of them is its own affair, so nothing is stated of `state` afterwards.
#[verifier::external_body]
fn hash_slice<H: core::hash::Hasher>(bytes: &[u8], state: &mut H) {
    core::hash::Hash::hash(bytes, state)
}

/// Hashes the bytes alone, whatever variant holds them, so that hashing agrees with the
/// contents-based equality.
impl<'a> core::hash::Hash for CowBytes<'a> {
    fn hash<H: core::hash::Hasher>(&self, state: &mut H) {
        hash_slice(self.as_slice(), state)
    }
}

} // verus!
