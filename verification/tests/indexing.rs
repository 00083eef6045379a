use index_vec::{IdxRangeBounds, IndexType, IndexVec, RangeEnd, UsizeRange};

type Id = IndexType<u32, 30, { u32::MAX as usize }, true>;
type Word = IndexType<usize, 31, { usize::MAX }, true>;

fn abc() -> IndexVec<Id, char> {
    IndexVec::from_vec(vec!['a', 'b', 'c', 'd'])
}

fn text(s: index_vec::IdxSlice<'_, Id, char>) -> String {
    s.as_raw_slice().iter().collect()
}

#[test]
fn ranges_become_ranges_of_positions() {
    let i = Id::new(2);
    let j = Id::new(5);
    assert_eq!((i..j).into_range(), UsizeRange { start: 2, end: RangeEnd::Excluded(5) });
    assert_eq!((j..i).into_range(), UsizeRange { start: 5, end: RangeEnd::Excluded(2) });
    assert_eq!((i..).into_range(), UsizeRange { start: 2, end: RangeEnd::Unbounded });
    assert_eq!((..j).into_range(), UsizeRange { start: 0, end: RangeEnd::Excluded(5) });
    assert_eq!((i..=j).into_range(), UsizeRange { start: 2, end: RangeEnd::Included(5) });
    assert_eq!((..=j).into_range(), UsizeRange { start: 0, end: RangeEnd::Included(5) });
    assert_eq!(
        IdxRangeBounds::<Id>::into_range(..),
        UsizeRange { start: 0, end: RangeEnd::Unbounded }
    );
}

#[test]
fn resolve_holds_a_range_against_a_length() {
    let r = |start, end| UsizeRange { start, end };
    assert_eq!(r(1, RangeEnd::Excluded(3)).resolve(4), Some((1, 3)));
    assert_eq!(r(1, RangeEnd::Excluded(4)).resolve(4), Some((1, 4)));
    assert_eq!(r(1, RangeEnd::Excluded(5)).resolve(4), None);
    assert_eq!(r(3, RangeEnd::Excluded(3)).resolve(4), Some((3, 3)));
    assert_eq!(r(4, RangeEnd::Excluded(4)).resolve(4), Some((4, 4)));
    assert_eq!(r(3, RangeEnd::Excluded(2)).resolve(4), None);
    assert_eq!(r(0, RangeEnd::Excluded(0)).resolve(0), Some((0, 0)));
    assert_eq!(r(1, RangeEnd::Included(3)).resolve(4), Some((1, 4)));
    assert_eq!(r(1, RangeEnd::Included(4)).resolve(4), None);
    assert_eq!(r(1, RangeEnd::Included(0)).resolve(4), Some((1, 1)));
    assert_eq!(r(2, RangeEnd::Included(0)).resolve(4), None);
    assert_eq!(r(0, RangeEnd::Included(0)).resolve(0), None);
    assert_eq!(r(0, RangeEnd::Included(usize::MAX)).resolve(4), None);
    assert_eq!(r(0, RangeEnd::Included(usize::MAX)).resolve(usize::MAX), None);
    assert_eq!(r(2, RangeEnd::Unbounded).resolve(4), Some((2, 4)));
    assert_eq!(r(4, RangeEnd::Unbounded).resolve(4), Some((4, 4)));
    assert_eq!(r(5, RangeEnd::Unbounded).resolve(4), None);
    assert_eq!(r(0, RangeEnd::Unbounded).resolve(0), Some((0, 0)));
}

#[test]
fn get_with_a_single_index() {
    let a = abc();
    assert_eq!(a.get(Id::new(0)), Some(&'a'));
    assert_eq!(a.get(Id::new(3)), Some(&'d'));
    assert_eq!(a.get(Id::new(4)), None);
    assert_eq!(a.get(0usize), Some(&'a'));
    assert_eq!(a.get(3usize), Some(&'d'));
    assert_eq!(a.get(4usize), None);
    assert_eq!(a.as_slice().get(Id::new(1)), Some(&'b'));
    assert_eq!(*a.as_slice().index(Id::new(2)), 'c');
    assert_eq!(*a.as_slice().index(2usize), 'c');
    let e: IndexVec<Id, char> = IndexVec::new();
    assert_eq!(e.get(Id::new(0)), None);
}

#[test]
fn half_open_slices_hold_the_elements_of_the_range() {
    let a = abc();
    let n = a.len();
    for i in 0..=n {
        for j in i..=n {
            let v = a.get(Id::new(i)..Id::new(j)).unwrap();
            assert_eq!(v.len(), j - i);
            for k in 0..(j - i) {
                assert_eq!(v.get(Id::new(k)), a.get(Id::new(i + k)));
            }
        }
    }
    assert!(a.get(Id::new(3)..Id::new(2)).is_none());
    assert!(a.get(Id::new(0)..Id::new(5)).is_none());
    assert!(a.get(Id::new(5)..Id::new(5)).is_none());
}

#[test]
fn every_range_shape_slices() {
    let a = abc();
    assert_eq!(text(a.get(Id::new(1)..Id::new(3)).unwrap()), "bc");
    assert_eq!(text(a.get(Id::new(1)..).unwrap()), "bcd");
    assert_eq!(text(a.get(Id::new(4)..).unwrap()), "");
    assert!(a.get(Id::new(5)..).is_none());
    assert_eq!(text(a.get(..Id::new(3)).unwrap()), "abc");
    assert_eq!(text(a.get(..Id::new(0)).unwrap()), "");
    assert!(a.get(..Id::new(5)).is_none());
    assert_eq!(text(a.get(Id::new(1)..=Id::new(3)).unwrap()), "bcd");
    assert_eq!(text(a.get(Id::new(2)..=Id::new(1)).unwrap()), "");
    assert!(a.get(Id::new(3)..=Id::new(1)).is_none());
    assert!(a.get(Id::new(1)..=Id::new(4)).is_none());
    assert_eq!(text(a.get(..=Id::new(0)).unwrap()), "a");
    assert_eq!(text(a.get(..=Id::new(3)).unwrap()), "abcd");
    assert!(a.get(..=Id::new(4)).is_none());
    assert_eq!(text(a.get(..).unwrap()), "abcd");
    assert_eq!(text(a.as_slice().index(..)), "abcd");
    assert_eq!(text(a.as_slice().index(Id::new(2)..)), "cd");
}

#[test]
fn inclusive_range_up_to_the_largest_position() {
    let a: IndexVec<Word, u8> = IndexVec::from_vec(vec![1, 2, 3]);
    assert!(a.get(Word::new(0)..=Word::new(usize::MAX)).is_none());
    assert!(a.get(..=Word::new(usize::MAX)).is_none());
    assert_eq!(a.get(Word::new(1)..=Word::new(2)).unwrap().as_raw_slice(), &[2, 3]);
}

#[test]
fn views_count_from_zero() {
    let a = abc();
    let tail = a.get(Id::new(2)..).unwrap();
    assert_eq!(tail.len(), 2);
    assert!(!tail.is_empty());
    assert_eq!(tail.get(Id::new(0)), Some(&'c'));
    assert_eq!(tail.get(Id::new(1)), Some(&'d'));
    assert_eq!(tail.get(Id::new(2)), None);
    assert_eq!(tail.last_idx().index(), 1);
    let last = tail.get(Id::new(1)..).unwrap();
    assert_eq!(last.as_raw_slice(), &['d']);
    assert_eq!(tail.iter_enumerated(), vec![(Id::new(0), &'c'), (Id::new(1), &'d')]);
    let copy = tail;
    assert_eq!(copy, tail);
}

#[test]
fn get_mut_writes_through() {
    let mut a = abc();
    *a.get_mut(Id::new(1)).unwrap() = 'x';
    assert_eq!(a, ['a', 'x', 'c', 'd']);
    *a.get_mut(3usize).unwrap() = 'z';
    assert_eq!(a, ['a', 'x', 'c', 'z']);
    assert!(a.get_mut(Id::new(4)).is_none());
    assert!(a.get_mut(4usize).is_none());
    let mid = a.get_mut(Id::new(1)..Id::new(3)).unwrap();
    assert_eq!(mid, &mut ['x', 'c']);
    mid[0] = 'p';
    mid[1] = 'q';
    assert_eq!(a, ['a', 'p', 'q', 'z']);
    a.get_mut(..=Id::new(0)).unwrap()[0] = 'A';
    a.get_mut(Id::new(3)..).unwrap()[0] = 'Z';
    assert_eq!(a, ['A', 'p', 'q', 'Z']);
    a.get_mut(Id::new(1)..=Id::new(2)).unwrap().reverse();
    assert_eq!(a, ['A', 'q', 'p', 'Z']);
    a.get_mut(..Id::new(2)).unwrap().reverse();
    assert_eq!(a, ['q', 'A', 'p', 'Z']);
    a.get_mut(..).unwrap().reverse();
    assert_eq!(a, ['Z', 'p', 'A', 'q']);
    assert!(a.get_mut(Id::new(3)..Id::new(5)).is_none());
    assert!(a.get_mut(Id::new(2)..Id::new(1)).is_none());
    assert_eq!(a, ['Z', 'p', 'A', 'q']);
}

#[test]
fn index_mut_on_a_view() {
    let mut a = abc();
    *a.as_mut_slice().index_mut(Id::new(0)) = 'x';
    *a.as_mut_slice().index_mut(1usize) = 'y';
    a.as_mut_slice().index_mut(Id::new(2)..)[1] = 'z';
    assert_eq!(a, ['x', 'y', 'c', 'z']);
    assert_eq!(a.as_mut_slice().len(), 4);
    a.as_mut_slice().as_raw_slice_mut().swap(0, 3);
    assert_eq!(a, ['z', 'y', 'c', 'x']);
    let mut raw = ['m', 'n'];
    let view: index_vec::IdxSliceMut<'_, Id, char> = index_vec::IdxSliceMut::new(&mut raw);
    *view.get_mut(Id::new(1)).unwrap() = 'o';
    assert_eq!(raw, ['m', 'o']);
    assert!(index_vec::IdxSliceMut::<Id, char>::new(&mut raw).subslice_mut(UsizeRange {
        start: 1,
        end: RangeEnd::Included(1)
    }).is_some());
}
