use core::cmp::Ordering;
use std::collections::hash_map::DefaultHasher;
use std::hash::{Hash, Hasher};

use slice_n::{from_mut, Slice1, Slice1Mut, SliceN, SliceNMut};

fn hash_of<H: Hash + ?Sized>(h: &H) -> u64 {
    let mut s = DefaultHasher::new();
    h.hash(&mut s);
    s.finish()
}

/// Checks every relation between two views and the byte slices they span.
fn check_pair(a: &[u8], b: &[u8]) {
    let x = match Slice1::from_slice(a) {
        None => {
            assert_eq!(a.len(), 0);
            return;
        }
        Some(x) => x,
    };
    let y = match Slice1::from_slice(b) {
        None => {
            assert_eq!(b.len(), 0);
            return;
        }
        Some(y) => y,
    };
    assert!(std::ptr::eq(x.as_slice(), a));
    assert_eq!(x.len_(), a.len());
    assert_eq!(x.as_slice().len(), a.len());
    let x_unchecked = Slice1::from_slice_unchecked(a);
    assert!(std::ptr::eq(x_unchecked.as_slice(), x.as_slice()));
    assert_eq!(x_unchecked.len_(), x.len_());
    assert_eq!(x.first(), a.first().unwrap());
    assert_eq!(x.last(), a.last().unwrap());
    assert_eq!(x.split_first(), a.split_first().unwrap());
    assert_eq!(x.split_last(), a.split_last().unwrap());
    assert_eq!(AsRef::<[u8]>::as_ref(&x), a);
    assert_eq!(<Slice1<u8> as std::borrow::Borrow<[u8]>>::borrow(&x), a);
    assert_eq!(&*x, a);
    assert_eq!(x == y, a == b);
    assert_eq!(x != y, a != b);
    assert_eq!(x.partial_cmp(&y), a.partial_cmp(b));
    assert_eq!(x < y, a < b);
    assert_eq!(x <= y, a <= b);
    assert_eq!(x > y, a > b);
    assert_eq!(x >= y, a >= b);
    assert_eq!(x.cmp(&y), a.cmp(b));
    assert_eq!(hash_of(&x), hash_of(a));
}

#[test]
fn empty_slice_gives_no_view() {
    let a: [u8; 0] = [];
    assert!(Slice1::from_slice(&a[..]).is_none());
    let mut m: [u8; 0] = [];
    assert!(Slice1Mut::from_slice_mut(&mut m[..]).is_none());
}

#[test]
fn view_of_three_bytes() {
    let a = [5u8, 2, 9];
    let b = [5u8, 2, 9];
    let x = Slice1::from_slice(&a[..]).unwrap();
    let y = Slice1::from_slice(&b[..]).unwrap();
    assert!(x == y);
    assert_eq!(*x.first(), 5);
    assert_eq!(*x.last(), 9);
    let (head, tail) = x.split_first();
    assert_eq!(*head, 5);
    assert_eq!(tail, &[2u8, 9][..]);
    let (end, init) = x.split_last();
    assert_eq!(*end, 9);
    assert_eq!(init, &[5u8, 2][..]);
    check_pair(&a[..], &b[..]);
}

#[test]
fn pairs_agree_with_slices() {
    let cases: Vec<(Vec<u8>, Vec<u8>)> = vec![
        (vec![], vec![1]),
        (vec![1], vec![]),
        (vec![1], vec![1]),
        (vec![1], vec![2]),
        (vec![2], vec![1]),
        (vec![1, 2], vec![1]),
        (vec![1], vec![1, 2]),
        (vec![1, 2, 3], vec![1, 3]),
        (vec![255, 0], vec![255, 0, 0]),
        (vec![7, 7, 7, 7], vec![7, 7, 7, 7]),
        (vec![0, 9, 9], vec![1]),
    ];
    for (a, b) in cases.iter() {
        check_pair(&a[..], &b[..]);
        check_pair(&b[..], &a[..]);
    }
}

#[test]
fn longer_minimum_is_checked() {
    let a = [1u8, 2, 3];
    assert!(SliceN::<u8, 3>::from_slice(&a[..]).is_some());
    assert!(SliceN::<u8, 4>::from_slice(&a[..]).is_none());
    let v = SliceN::<u8, 3>::from_slice(&a[..]).unwrap();
    assert_eq!(v.as_slice(), &a[..]);
}

#[test]
fn views_of_different_minimums_compare_by_elements() {
    let a = [1u8, 2, 3];
    let b = [1u8, 2, 3];
    let c = [1u8, 2];
    let x = SliceN::<u8, 3>::from_slice(&a[..]).unwrap();
    let y = SliceN::<u8, 1>::from_slice(&b[..]).unwrap();
    let z = SliceN::<u8, 2>::from_slice(&c[..]).unwrap();
    assert!(x == y);
    assert!(y == x);
    assert!(x != z);
    assert!(x == [1u8, 2, 3]);
    assert!(x != [1u8, 2]);
    assert!(x == vec![1u8, 2, 3]);
    assert!(z != vec![1u8, 2, 4]);
}

#[test]
fn ordering_of_views() {
    let a = [1u8, 2];
    let b = [1u8, 3];
    let x = Slice1::from_slice(&a[..]).unwrap();
    let y = Slice1::from_slice(&b[..]).unwrap();
    assert_eq!(x.partial_cmp(&y), Some(Ordering::Less));
    assert_eq!(x.cmp(&y), Ordering::Less);
    assert_eq!(y.cmp(&x), Ordering::Greater);
    assert_eq!(x.cmp(&x), Ordering::Equal);
    assert!(x < y && x <= y && y > x && y >= x);
}

#[test]
fn single_element_view() {
    let a = [42u8];
    let x = Slice1::from_slice(&a[..]).unwrap();
    assert_eq!(x.len_(), 1);
    assert_eq!(*x.first(), 42);
    assert_eq!(*x.last(), 42);
    let (head, tail) = x.split_first();
    assert_eq!(*head, 42);
    assert!(tail.is_empty());
    let (end, init) = x.split_last();
    assert_eq!(*end, 42);
    assert!(init.is_empty());
}

#[test]
fn writes_through_exclusive_view() {
    let mut a = [5u8, 2, 9];
    {
        let mut v = Slice1Mut::from_slice_mut(&mut a[..]).unwrap();
        assert_eq!(v.len_(), 3);
        *v.first_mut() = 6;
        *v.last_mut() = 10;
    }
    assert_eq!(a, [6, 2, 10]);
    {
        let mut v = SliceNMut::<u8, 1>::from_slice_unchecked_mut(&mut a[..]);
        let (head, tail) = v.split_first_mut();
        *head = 1;
        tail[0] = 3;
    }
    assert_eq!(a, [1, 3, 10]);
    {
        let mut v = Slice1Mut::from_slice_mut(&mut a[..]).unwrap();
        let (end, init) = v.split_last_mut();
        *end = 0;
        init[0] = 8;
        assert_eq!(init.len(), 2);
    }
    assert_eq!(a, [8, 3, 0]);
    {
        let mut v = Slice1Mut::from_slice_mut(&mut a[..]).unwrap();
        v.as_mut_slice()[1] = 4;
        assert_eq!(v.as_slice(), &[8u8, 4, 0][..]);
    }
    assert_eq!(a, [8, 4, 0]);
}

#[test]
fn single_value_as_view() {
    let mut n = 7u32;
    {
        let mut v = from_mut(&mut n);
        assert_eq!(v.len_(), 1);
        assert_eq!(v.as_slice(), &[7u32][..]);
        *v.first_mut() = 8;
    }
    assert_eq!(n, 8);
}

#[test]
fn hash_matches_slice() {
    let a = [3u8, 1, 4, 1, 5];
    let x = Slice1::from_slice(&a[..]).unwrap();
    assert_eq!(hash_of(&x), hash_of(&a[..]));
}

#[test]
fn exclusive_view_reads_through_shared_view() {
    let mut a = [4u8, 8, 15];
    let b = [4u8, 8, 15];
    let v = Slice1Mut::from_slice_mut(&mut a[..]).unwrap();
    let shared = v.as_slice_n();
    assert_eq!(*shared.first(), 4);
    assert_eq!(*shared.last(), 15);
    assert_eq!(shared.split_first().1, &[8u8, 15][..]);
    assert_eq!(shared.split_last().1, &[4u8, 8][..]);
    let other = Slice1::from_slice(&b[..]).unwrap();
    assert!(shared == other);
    assert_eq!(hash_of(&shared), hash_of(&b[..]));
}
