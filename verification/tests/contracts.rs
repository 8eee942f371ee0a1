//! Concrete cases of what the library's contracts state, for both variants.

use std::borrow::{Borrow, Cow};

use bytes::BytesMut;
use cowbytes::{Buf, Bytes, CowBytes};

#[test]
fn new_and_default_are_empty_borrows() {
    assert!(matches!(CowBytes::new(), CowBytes::Borrowed(_)));
    assert!(CowBytes::new().is_empty());
    assert!(matches!(CowBytes::default(), CowBytes::Borrowed(_)));
    assert_eq!(CowBytes::default().len(), 0);
}

#[test]
fn from_static_is_shared_with_the_same_bytes() {
    let bytes = CowBytes::from_static(b"static");
    assert!(matches!(bytes, CowBytes::Shared(_)));
    assert_eq!(bytes, *b"static");
}

#[test]
fn slice_of_shared_bytes_takes_the_range() {
    let bytes = CowBytes::from(vec![10u8, 20, 30, 40, 50]);
    let sliced = bytes.slice(1..4);
    assert!(matches!(sliced, CowBytes::Shared(_)));
    assert_eq!(sliced, [20u8, 30, 40]);
    assert_eq!(bytes.slice(2..2), [0u8; 0]);
    assert_eq!(bytes.slice(5..5).len(), 0);
}

#[test]
fn slice_of_borrowed_bytes_stays_borrowed() {
    let data = [10u8, 20, 30, 40, 50];
    let bytes = CowBytes::from(&data[..]);
    let sliced = bytes.slice(0..2);
    assert!(matches!(sliced, CowBytes::Borrowed(_)));
    assert_eq!(sliced, [10u8, 20]);
}

#[test]
fn split_off_at_the_ends() {
    let mut shared = CowBytes::from(vec![1u8, 2, 3]);
    let tail = shared.split_off(3);
    assert_eq!(shared, [1u8, 2, 3]);
    assert!(tail.is_empty());
    let tail = shared.split_off(0);
    assert!(shared.is_empty());
    assert_eq!(tail, [1u8, 2, 3]);

    let data = [1u8, 2, 3];
    let mut borrowed = CowBytes::from(&data);
    let tail = borrowed.split_off(2);
    assert!(matches!(tail, CowBytes::Borrowed(_)));
    assert_eq!(borrowed, [1u8, 2]);
    assert_eq!(tail, [3u8]);
}

#[test]
fn split_to_on_shared_bytes() {
    let mut shared = CowBytes::from(vec![1u8, 2, 3, 4]);
    let head = shared.split_to(3);
    assert!(matches!(head, CowBytes::Shared(_)));
    assert_eq!(head, [1u8, 2, 3]);
    assert_eq!(shared, [4u8]);
}

#[test]
fn split_halves_concatenate_to_the_whole() {
    let full = vec![5u8, 6, 7, 8, 9];
    for at in 0..=full.len() {
        let mut front = CowBytes::from(full.clone());
        let back = front.split_off(at);
        let mut joined = front.into_vec();
        joined.extend_from_slice(&back);
        assert_eq!(joined, full);

        let mut rest = CowBytes::from(&full[..]);
        let head = rest.split_to(at);
        let mut joined = head.into_vec();
        joined.extend_from_slice(&rest);
        assert_eq!(joined, full);
    }
}

#[test]
fn truncate_shared_bytes() {
    let mut shared = CowBytes::from(vec![1u8, 2, 3, 4]);
    shared.truncate(4);
    assert_eq!(shared, [1u8, 2, 3, 4]);
    shared.truncate(1);
    assert_eq!(shared, [1u8]);
    assert!(matches!(shared, CowBytes::Shared(_)));
}

#[test]
fn into_vec_of_each_variant() {
    let data = [1u8, 2, 3];
    assert_eq!(CowBytes::from(&data[..]).into_vec(), vec![1u8, 2, 3]);
    assert_eq!(CowBytes::from(vec![4u8, 5]).into_vec(), vec![4u8, 5]);

    // A buffer that another handle still shares is copied, with the same bytes.
    let shared = CowBytes::from(vec![6u8, 7, 8]);
    let other = shared.clone();
    assert_eq!(shared.into_vec(), vec![6u8, 7, 8]);
    assert_eq!(other, [6u8, 7, 8]);

    // A static buffer is copied too.
    assert_eq!(CowBytes::from_static(b"ab").into_vec(), b"ab".to_vec());
}

#[test]
fn into_static_of_a_borrow_copies_its_bytes() {
    let data = vec![1u8, 2, 3];
    let owned: CowBytes<'static> = CowBytes::from(&data).into_static();
    drop(data);
    assert!(matches!(owned, CowBytes::Shared(_)));
    assert_eq!(owned, [1u8, 2, 3]);
}

#[test]
fn with_mut_returns_what_the_closure_returns() {
    let mut bytes = CowBytes::from_static(b"abc");
    let first = bytes.with_mut(|b| {
        b[2] = b'z';
        b[0]
    });
    assert_eq!(first, b'a');
    assert_eq!(bytes, *b"abz");
    assert!(matches!(bytes, CowBytes::Shared(_)));
}

#[test]
fn clone_keeps_the_bytes_and_variant() {
    let data = [1u8, 2];
    let borrowed = CowBytes::from(&data[..]);
    assert!(matches!(borrowed.clone(), CowBytes::Borrowed(_)));
    let shared = CowBytes::from(vec![3u8, 4]);
    let copy = shared.clone();
    assert!(matches!(copy, CowBytes::Shared(_)));
    assert_eq!(copy, [3u8, 4]);
}

#[test]
fn deref_as_ref_and_borrow_give_the_bytes() {
    let bytes = CowBytes::from(vec![1u8, 2, 3]);
    assert_eq!(&*bytes, &[1u8, 2, 3][..]);
    assert_eq!(AsRef::<[u8]>::as_ref(&bytes), &[1u8, 2, 3][..]);
    let borrowed: &[u8] = bytes.borrow();
    assert_eq!(borrowed, &[1u8, 2, 3][..]);
}

#[test]
fn buf_on_a_borrow_copies_out_the_head() {
    let data = [1u8, 2, 3, 4, 5];
    let mut borrowed = CowBytes::from(&data[..]);
    let head = borrowed.copy_to_bytes(2);
    assert_eq!(&head[..], &[1u8, 2][..]);
    assert!(matches!(borrowed, CowBytes::Borrowed(_)));
    assert_eq!(borrowed, [3u8, 4, 5]);
    borrowed.advance(3);
    assert_eq!(borrowed.remaining(), 0);
}

#[test]
fn lexicographic_order_cases() {
    let a = CowBytes::from(&[1u8, 2, 3][..]);
    assert!(a < CowBytes::from(vec![1u8, 2, 4]));
    assert!(a > CowBytes::from(vec![1u8, 2]));
    assert!(a < CowBytes::from(vec![2u8]));
    assert!(CowBytes::new() < a);
    assert!(a <= CowBytes::from(vec![1u8, 2, 3]));
    assert!(a >= CowBytes::from(vec![1u8, 2, 3]));
    assert_eq!(a.partial_cmp(&CowBytes::from(vec![1u8, 2, 3])), Some(std::cmp::Ordering::Equal));
    assert_eq!(a.partial_cmp(&CowBytes::from(vec![0u8, 9])), Some(std::cmp::Ordering::Greater));
    assert_eq!(CowBytes::from(vec![255u8]).partial_cmp(&a), Some(std::cmp::Ordering::Greater));
}

#[test]
fn order_is_total_and_consistent_with_equality() {
    let values: Vec<CowBytes<'static>> = vec![
        CowBytes::from(vec![]),
        CowBytes::from(vec![0u8]),
        CowBytes::from(vec![0u8, 0]),
        CowBytes::from(vec![1u8]),
        CowBytes::from_static(&[1u8, 0]),
        CowBytes::from(vec![255u8]),
    ];
    for x in &values {
        for y in &values {
            let xy = x.partial_cmp(y).unwrap();
            let yx = y.partial_cmp(x).unwrap();
            assert_eq!(xy, yx.reverse());
            assert_eq!(xy == std::cmp::Ordering::Equal, x == y);
            for z in &values {
                if x < y && y < z {
                    assert!(x < z);
                }
            }
        }
    }
}

#[test]
fn comparisons_with_other_byte_holders() {
    let bytes = CowBytes::from("abc");
    assert!(matches!(bytes, CowBytes::Borrowed(_)));
    assert_eq!(bytes, "abc");
    assert_eq!(bytes, String::from("abc"));
    assert_eq!("abc", bytes);
    assert_eq!(String::from("abc"), bytes);
    assert_eq!(BytesMut::from(&b"abc"[..]), bytes);
    assert_eq!(Cow::Borrowed(&b"abc"[..]), bytes);
    assert_eq!(&bytes, bytes);
    assert!(b"abd" > &bytes);
    assert!("abb" < bytes);
    assert_ne!(bytes, *b"ab");
}

#[test]
fn conversions_keep_the_bytes() {
    let from_string = CowBytes::from(String::from("hé"));
    assert!(matches!(from_string, CowBytes::Shared(_)));
    assert_eq!(from_string, [b'h', 0xc3, 0xa9]);

    let name = String::from("xy");
    assert!(matches!(CowBytes::from(&name), CowBytes::Borrowed(_)));
    assert_eq!(CowBytes::from(&name), *b"xy");

    let owned: Cow<'_, str> = Cow::Owned(String::from("pq"));
    let converted = CowBytes::from(owned);
    assert!(matches!(converted, CowBytes::Shared(_)));
    assert_eq!(converted, *b"pq");
    assert!(matches!(CowBytes::from(Cow::Borrowed("pq")), CowBytes::Borrowed(_)));

    let owned: Cow<'_, [u8]> = Cow::Owned(vec![9u8, 8]);
    let converted = CowBytes::from(owned);
    assert!(matches!(converted, CowBytes::Shared(_)));
    assert!(matches!(Cow::<[u8]>::from(converted), Cow::Owned(ref v) if v == &[9u8, 8]));

    let frozen = CowBytes::from(BytesMut::from(&b"mut"[..]));
    assert!(matches!(frozen, CowBytes::Shared(_)));
    assert_eq!(frozen, *b"mut");

    let shared = CowBytes::from(Bytes::from_static(b"sh"));
    assert_eq!(shared, *b"sh");

    let boxed: Box<[u8]> = CowBytes::from(&[7u8, 6][..]).into();
    assert_eq!(&*boxed, &[7u8, 6][..]);
    let from_box = CowBytes::from(vec![5u8, 4].into_boxed_slice());
    assert_eq!(from_box, [5u8, 4]);

    let as_bytes: Bytes = CowBytes::from(&[3u8, 2][..]).into();
    assert_eq!(&as_bytes[..], &[3u8, 2][..]);
    let as_vec: Vec<u8> = CowBytes::from(vec![1u8]).into();
    assert_eq!(as_vec, vec![1u8]);

    let array = [4u8, 4];
    assert_eq!(CowBytes::from(&array), [4u8, 4]);
}

#[test]
fn collecting_makes_shared_bytes() {
    let collected: CowBytes<'_> = (1u8..=3).collect();
    assert!(matches!(collected, CowBytes::Shared(_)));
    assert_eq!(collected, [1u8, 2, 3]);
}

#[test]
fn into_static_keeps_a_shared_handle() {
    let shared = CowBytes::from(vec![1u8, 2, 3]);
    let ptr = shared.as_ptr() as usize;
    let kept = shared.into_static();
    assert_eq!(kept.as_ptr() as usize, ptr);
    assert_eq!(kept, [1u8, 2, 3]);
}

#[test]
fn truncate_beyond_the_length_keeps_the_handle() {
    let mut shared = CowBytes::from(vec![1u8, 2, 3]);
    let ptr = shared.as_ptr() as usize;
    shared.truncate(3);
    shared.truncate(10);
    assert_eq!(shared.as_ptr() as usize, ptr);
    assert_eq!(shared.len(), 3);
}

#[test]
fn bytes_from_shared_bytes_is_the_same_handle() {
    let shared = CowBytes::from(vec![4u8, 5]);
    let ptr = shared.as_ptr() as usize;
    let bytes: Bytes = shared.into();
    assert_eq!(bytes.as_ptr() as usize, ptr);
    assert_eq!(&bytes[..], &[4u8, 5][..]);

    let data = [6u8];
    let copied: Bytes = CowBytes::from(&data[..]).into();
    assert_ne!(copied.as_ptr() as usize, data.as_ptr() as usize);
}

#[test]
fn compares_with_boxed_and_counted_slices() {
    let bytes = CowBytes::from(vec![1u8, 2]);
    let boxed: Box<[u8]> = vec![1u8, 2].into_boxed_slice();
    let rc: std::rc::Rc<[u8]> = std::rc::Rc::from(&[1u8, 2][..]);
    let arc: std::sync::Arc<[u8]> = std::sync::Arc::from(&[1u8, 3][..]);
    assert_eq!(bytes, boxed);
    assert_eq!(bytes, rc);
    assert!(bytes < arc);
}
