use index_vec::{Idx, IndexType, IndexVec};

type Id = IndexType<u32, 20, { u32::MAX as usize }, true>;
type Tiny = IndexType<u8, 21, 3, true>;
type ByteLoose = IndexType<u8, 22, 255, false>;

fn ids(v: Vec<i32>) -> IndexVec<Id, i32> {
    IndexVec::from_vec(v)
}

#[test]
fn push_returns_the_index_of_the_element() {
    let mut a: IndexVec<Id, &str> = IndexVec::new();
    assert!(a.is_empty());
    assert_eq!(a.next_idx().index(), 0);
    let i = a.push("a");
    assert_eq!(i.index(), 0);
    assert_eq!(a.next_idx().index(), 1);
    let j = a.push("b");
    assert_eq!(j.index(), 1);
    assert_eq!(a.get(i), Some(&"a"));
    assert_eq!(a.get(j), Some(&"b"));
    assert_eq!(a.len(), 2);
    assert_eq!(a.last_idx(), j);
    for n in 2..50usize {
        let before = a.len();
        let k = a.push("x");
        assert_eq!(k.index(), before);
        assert_eq!(k.index(), n);
        assert_eq!(a.get(k), Some(&"x"));
    }
}

#[test]
fn push_asks_the_index_type_for_the_length() {
    let mut a: IndexVec<Tiny, u8> = IndexVec::new();
    for n in 0..4u8 {
        assert!(Tiny::is_admitted(a.len()));
        a.push(n);
    }
    assert_eq!(a.len(), 4);
    assert!(!Tiny::is_admitted(a.len()));
    assert!(Tiny::is_admitted(a.len() - 1));
    assert_eq!(a.last_idx().index(), 3);
}

#[test]
fn push_on_a_loose_index_type_wraps_the_index() {
    let mut a: IndexVec<ByteLoose, usize> = IndexVec::new();
    for n in 0..256usize {
        assert_eq!(a.push(n).index(), n);
    }
    let i = a.push(256);
    assert_eq!(i.index(), 0);
    assert_eq!(a.get(i), Some(&0));
    assert_eq!(a.len(), 257);
}

#[test]
fn pop_takes_the_last_element() {
    let mut a = ids(vec![1, 2]);
    assert_eq!(a.pop(), Some(2));
    assert_eq!(a, [1]);
    assert_eq!(a.pop(), Some(1));
    assert_eq!(a.pop(), None);
    assert!(a.is_empty());
}

#[test]
fn from_vec_round_trips_through_as_raw_slice() {
    let a = ids(vec![7, 8, 9]);
    assert_eq!(a.as_raw_slice(), &[7, 8, 9]);
    assert_eq!(a.as_vec(), &vec![7, 8, 9]);
    assert_eq!(a.vec, vec![7, 8, 9]);
    let e: IndexVec<Id, i32> = IndexVec::from_vec(Vec::new());
    assert_eq!(e.as_raw_slice(), &[] as &[i32]);
    let w: IndexVec<Id, i32> = IndexVec::with_capacity(10);
    assert!(w.is_empty());
    assert!(w.vec.capacity() >= 10);
}

#[test]
fn split_off_then_append_gives_the_array_back() {
    for m in 0..=4usize {
        let mut a = ids(vec![1, 2, 3, 4]);
        let mut tail = a.split_off(Id::new(m));
        assert_eq!(a.len(), m);
        assert_eq!(tail.len(), 4 - m);
        assert_eq!(a.as_raw_slice(), &[1, 2, 3, 4][..m]);
        assert_eq!(tail.as_raw_slice(), &[1, 2, 3, 4][m..]);
        a.append(&mut tail);
        assert_eq!(a, [1, 2, 3, 4]);
        assert!(tail.is_empty());
    }
}

#[test]
fn insert_and_remove_shift_the_rest() {
    let mut a = ids(vec![1, 2, 3]);
    a.insert(Id::new(1), 9);
    assert_eq!(a, [1, 9, 2, 3]);
    a.insert(Id::new(4), 5);
    assert_eq!(a, [1, 9, 2, 3, 5]);
    a.insert(Id::new(0), 0);
    assert_eq!(a, [0, 1, 9, 2, 3, 5]);
    assert_eq!(a.remove(Id::new(2)), 9);
    assert_eq!(a, [0, 1, 2, 3, 5]);
    assert_eq!(a.remove(Id::new(4)), 5);
    assert_eq!(a.remove(Id::new(0)), 0);
    assert_eq!(a, [1, 2, 3]);
}

#[test]
fn swap_remove_moves_the_last_element_in() {
    let mut a = ids(vec![1, 2, 3, 4]);
    assert_eq!(a.swap_remove(Id::new(0)), 1);
    assert_eq!(a, [4, 2, 3]);
    assert_eq!(a.swap_remove(Id::new(2)), 3);
    assert_eq!(a, [4, 2]);
    assert_eq!(a.swap_remove(Id::new(0)), 4);
    assert_eq!(a.swap_remove(Id::new(0)), 2);
    assert!(a.is_empty());
}

#[test]
fn truncate_clear_reserve_shrink() {
    let mut a = ids(vec![1, 2, 3, 4]);
    a.truncate(6);
    assert_eq!(a, [1, 2, 3, 4]);
    a.truncate(4);
    assert_eq!(a, [1, 2, 3, 4]);
    a.truncate(2);
    assert_eq!(a, [1, 2]);
    a.reserve(100);
    assert_eq!(a, [1, 2]);
    assert!(a.vec.capacity() >= 102);
    a.shrink_to_fit();
    assert_eq!(a, [1, 2]);
    assert!(a.vec.capacity() < 102);
    a.clear();
    assert!(a.is_empty());
    a.truncate(0);
    assert!(a.is_empty());
}

#[test]
fn resize_grows_and_shrinks() {
    let mut a = ids(vec![1, 2]);
    a.resize(4, 7);
    assert_eq!(a, [1, 2, 7, 7]);
    a.resize(4, 9);
    assert_eq!(a, [1, 2, 7, 7]);
    a.resize(1, 9);
    assert_eq!(a, [1]);
    a.resize(0, 9);
    assert!(a.is_empty());
}

#[test]
fn resize_with_calls_for_each_new_element() {
    let mut a = ids(vec![1, 2]);
    let mut next = 10;
    a.resize_with(5, || {
        next += 1;
        next
    });
    assert_eq!(a, [1, 2, 11, 12, 13]);
    a.resize_with(5, || 0);
    assert_eq!(a, [1, 2, 11, 12, 13]);
    a.resize_with(3, || 0);
    assert_eq!(a, [1, 2, 11]);
    assert_eq!(next, 13);
}

#[test]
fn extend_from_slice_appends_clones() {
    let mut a = ids(vec![1]);
    let b = ids(vec![2, 3]);
    a.extend_from_slice(b.as_slice());
    assert_eq!(a, [1, 2, 3]);
    a.extend_from_slice(b.as_slice().index(Id::new(2)..));
    assert_eq!(a, [1, 2, 3]);
    assert_eq!(b, [2, 3]);
}

#[test]
fn reverse_turns_the_order_round() {
    let mut a = ids(vec![1, 2, 3, 4]);
    a.reverse();
    assert_eq!(a, [4, 3, 2, 1]);
    let mut b = ids(vec![1, 2, 3]);
    b.reverse();
    assert_eq!(b, [3, 2, 1]);
    let mut e = ids(vec![]);
    e.reverse();
    assert!(e.is_empty());
    let mut one = ids(vec![5]);
    one.reverse();
    assert_eq!(one, [5]);
}

#[test]
fn retain_keeps_in_order_and_asks_once_each() {
    let mut a = ids(vec![1, 2, 3, 4, 5, 6]);
    let mut asked = Vec::new();
    a.retain(|x| {
        asked.push(*x);
        x % 2 == 0
    });
    assert_eq!(a, [2, 4, 6]);
    assert_eq!(asked, [1, 2, 3, 4, 5, 6]);
    a.retain(|_| true);
    assert_eq!(a, [2, 4, 6]);
    a.retain(|_| false);
    assert!(a.is_empty());
}

#[test]
fn dedup_keeps_the_first_of_each_run() {
    let mut a = ids(vec![1, 1, 2, 2, 2, 3, 1, 1]);
    a.dedup();
    assert_eq!(a, [1, 2, 3, 1]);
    let mut b = ids(vec![]);
    b.dedup();
    assert!(b.is_empty());
    let mut c = ids(vec![4, 4, 4]);
    c.dedup();
    assert_eq!(c, [4]);
    let mut d = ids(vec![1, 2, 3]);
    d.dedup();
    assert_eq!(d, [1, 2, 3]);
}

#[test]
fn dedup_by_compares_with_the_last_kept() {
    let mut a = ids(vec![1, 2, 3, 10, 11, 20, 12]);
    a.dedup_by(|x, kept| (*x - *kept).abs() < 5);
    assert_eq!(a, [1, 10, 20, 12]);
    let mut b = ids(vec![1, 2, 3, 4, 5, 6, 7]);
    let mut pairs = Vec::new();
    b.dedup_by(|x, kept| {
        pairs.push((*x, *kept));
        *x - *kept < 3
    });
    assert_eq!(b, [1, 4, 7]);
    assert_eq!(pairs, [(2, 1), (3, 1), (4, 1), (5, 4), (6, 4), (7, 4)]);
}

#[test]
fn dedup_by_key_compares_keys() {
    let mut a = ids(vec![10, 11, 19, 20, 21, 30, 15]);
    a.dedup_by_key(|x| *x / 10);
    assert_eq!(a, [10, 20, 30, 15]);
    let mut b = ids(vec![1, -1, 2, -2, 2, 3]);
    b.dedup_by_key(|x| x.abs());
    assert_eq!(b, [1, 2, 3]);
}

#[test]
fn dedup_by_keeps_what_the_closure_leaves() {
    let merge = |x: &mut i32, kept: &mut i32| {
        let same = (*x - *kept).abs() < 5;
        if same {
            *kept += *x;
        } else {
            *x *= 2;
        }
        same
    };
    let mut a = ids(vec![1, 2, 3, 10, 11, 20]);
    a.dedup_by(merge);
    assert_eq!(a, [16, 42]);
    let mut plain = vec![1, 2, 3, 10, 11, 20];
    plain.dedup_by(merge);
    assert_eq!(a, plain);
    let mut one = ids(vec![5]);
    one.dedup_by(|_, _| panic!("nothing to hold the only element against"));
    assert_eq!(one, [5]);
    let mut none = ids(vec![]);
    none.dedup_by(|_, _| panic!("nothing to ask"));
    assert!(none.is_empty());
}

#[test]
fn dedup_by_key_asks_the_element_then_the_one_kept() {
    let mut a = ids(vec![10, 11, 20, 21]);
    let mut asked = Vec::new();
    a.dedup_by_key(|x| {
        asked.push(*x);
        let k = *x / 10;
        *x += 100;
        k
    });
    assert_eq!(asked, [11, 10, 20, 110, 21, 120]);
    assert_eq!(a, [210, 220, 121]);
    let mut plain = vec![10, 11, 20, 21];
    plain.dedup_by_key(|x| {
        let k = *x / 10;
        *x += 100;
        k
    });
    assert_eq!(a, plain);
}

#[test]
fn split_off_asks_nothing_of_the_index_type() {
    type Only0 = IndexType<u16, 23, 0, true>;
    let mut a: IndexVec<Only0, u8> = IndexVec::new();
    assert_eq!(a.push(7).index(), 0);
    assert!(!Only0::is_admitted(a.len()));
    let tail = a.split_off(Only0::new(0));
    assert_eq!(tail.as_raw_slice(), &[7]);
    assert!(a.is_empty());
    let mut b: IndexVec<Tiny, u8> = IndexVec::from(vec![1, 2, 3, 4, 5, 6, 7]);
    let rest = b.split_off(Tiny::new(1));
    assert_eq!(b, [1]);
    assert_eq!(rest, [2, 3, 4, 5, 6, 7]);
}

#[test]
fn resize_with_does_not_call_when_it_shortens() {
    let mut a = ids(vec![1, 2, 3]);
    a.resize_with(3, || panic!("nothing to append"));
    assert_eq!(a, [1, 2, 3]);
    a.resize_with(1, || panic!("nothing to append"));
    assert_eq!(a, [1]);
    a.resize_with(0, || panic!("nothing to append"));
    assert!(a.is_empty());
}

#[test]
fn drain_removes_the_range() {
    let mut a = ids(vec![0, 1, 2, 3, 4, 5]);
    assert_eq!(a.drain(Id::new(1)..Id::new(3)), vec![1, 2]);
    assert_eq!(a, [0, 3, 4, 5]);
    assert_eq!(a.drain(..Id::new(1)), vec![0]);
    assert_eq!(a, [3, 4, 5]);
    assert_eq!(a.drain(Id::new(1)..=Id::new(1)), vec![4]);
    assert_eq!(a, [3, 5]);
    assert_eq!(a.drain(..=Id::new(0)), vec![3]);
    assert_eq!(a, [5]);
    assert_eq!(a.drain(Id::new(1)..), Vec::<i32>::new());
    assert_eq!(a, [5]);
    assert_eq!(a.drain(Id::new(0)..Id::new(0)), Vec::<i32>::new());
    assert_eq!(a.drain(..), vec![5]);
    assert!(a.is_empty());
    assert_eq!(a.drain(..), Vec::<i32>::new());
}

#[test]
fn drain_enumerated_full_span_counts_from_zero() {
    let mut a = ids(vec![10, 11, 12, 13]);
    let pairs = a.drain_enumerated(..);
    assert_eq!(pairs.len(), 4);
    for (j, (idx, v)) in pairs.into_iter().enumerate() {
        assert_eq!(idx.index(), j);
        assert_eq!(v, 10 + j as i32);
    }
    assert!(a.is_empty());
}

#[test]
fn drain_enumerated_gives_the_positions_in_the_array() {
    let mut a = ids(vec![10, 11, 12, 13, 14]);
    let pairs = a.drain_enumerated(Id::new(2)..Id::new(4));
    assert_eq!(pairs, vec![(Id::new(2), 12), (Id::new(3), 13)]);
    assert_eq!(a, [10, 11, 14]);
    let rest = a.drain_enumerated(Id::new(1)..);
    assert_eq!(rest, vec![(Id::new(1), 11), (Id::new(2), 14)]);
    assert_eq!(a, [10]);
}

#[test]
fn splice_replaces_the_range() {
    let mut a = ids(vec![0, 1, 2, 3]);
    assert_eq!(a.splice(Id::new(1)..Id::new(3), vec![7, 8, 9]), vec![1, 2]);
    assert_eq!(a, [0, 7, 8, 9, 3]);
    assert_eq!(a.splice(Id::new(5).., vec![4]), Vec::<i32>::new());
    assert_eq!(a, [0, 7, 8, 9, 3, 4]);
    assert_eq!(a.splice(..=Id::new(3), vec![]), vec![0, 7, 8, 9]);
    assert_eq!(a, [3, 4]);
    assert_eq!(a.splice(.., vec![1]), vec![3, 4]);
    assert_eq!(a, [1]);
}

#[test]
fn enumerations_pair_elements_with_their_indices() {
    let mut a = ids(vec![5, 6, 7]);
    assert_eq!(a.indices(), vec![Id::new(0), Id::new(1), Id::new(2)]);
    assert_eq!(a.iter_enumerated(), vec![(Id::new(0), &5), (Id::new(1), &6), (Id::new(2), &7)]);
    assert_eq!(a.as_slice().indices(), vec![Id::new(0), Id::new(1), Id::new(2)]);
    for (i, x) in a.iter_mut_enumerated() {
        *x += 10 * i.index() as i32;
    }
    assert_eq!(a, [5, 16, 27]);
    for (i, x) in a.as_mut_slice().iter_mut_enumerated() {
        *x -= i.index() as i32;
    }
    assert_eq!(a, [5, 15, 25]);
    assert_eq!(
        a.into_iter_enumerated(),
        vec![(Id::new(0), 5), (Id::new(1), 15), (Id::new(2), 25)]
    );
    let e = ids(vec![]);
    assert!(e.indices().is_empty());
    assert!(e.iter_enumerated().is_empty());
    assert!(e.into_iter_enumerated().is_empty());
}

#[test]
fn the_vec_is_an_open_door() {
    let mut a = ids(vec![3, 1, 2]);
    a.as_mut_vec().sort();
    assert_eq!(a, [1, 2, 3]);
    a.as_raw_slice_mut()[0] = 9;
    assert_eq!(a, [9, 2, 3]);
    a.vec.rotate_left(1);
    assert_eq!(a, [2, 3, 9]);
    let r: &[i32] = a.as_ref();
    assert_eq!(r, &[2, 3, 9]);
    let m: &mut [i32] = a.as_mut();
    m[2] = 4;
    assert_eq!(a, [2, 3, 4]);
}

#[test]
fn std_traits_of_the_array() {
    let d: IndexVec<Id, i32> = Default::default();
    assert!(d.is_empty());
    let a = ids(vec![1, 2]);
    let b = a.clone();
    assert_eq!(a, b);
    let c: IndexVec<Id, i32> = IndexVec::from(vec![1, 2]);
    assert_eq!(a, c);
    let c2: IndexVec<Id, i32> = vec![1, 2].into();
    assert_eq!(a, c2);
    assert!(ids(vec![1, 2]) < ids(vec![1, 3]));
    let mut sum = 0;
    for x in a {
        sum += x;
    }
    assert_eq!(sum, 3);
}

#[test]
fn indexing_with_square_brackets() {
    let mut a = ids(vec![1, 2, 3]);
    assert_eq!(a[Id::new(0)], 1);
    assert_eq!(a[Id::new(2)], 3);
    a[Id::new(1)] = 7;
    assert_eq!(a, [1, 7, 3]);
    a[Id::new(2)] += 1;
    assert_eq!(a, [1, 7, 4]);
    assert_eq!(a[0usize], 1);
    a[1usize] = 2;
    assert_eq!(a, [1, 2, 4]);
}

#[test]
fn equality_with_plain_sequences() {
    let a = ids(vec![1, 2, 3]);
    assert!(a == vec![1, 2, 3]);
    assert!(a != vec![1, 2]);
    assert!(a != vec![1, 2, 4]);
    assert!(a == [1, 2, 3]);
    assert!(a != [1, 2, 3, 4]);
    assert!(a == &[1, 2, 3]);
    assert!(a == &[1, 2, 3][..]);
    assert!(a != &[3, 2, 1][..]);
    assert!(a == a.as_slice());
    assert!(a.as_slice() == a);
    assert!(a.as_slice() == vec![1, 2, 3]);
    assert!(a.as_slice() != ids(vec![1]).as_slice());
    let e = ids(vec![]);
    assert!(e == Vec::<i32>::new());
    assert!(e.as_slice() == e.as_slice());
}
