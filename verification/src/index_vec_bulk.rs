//! Operations of the array that rework many elements at once.

use vstd::prelude::*;
use vstd::std_specs::cmp::PartialEqSpec;
use crate::idx::Idx;
use crate::idxslice::IdxSlice;
use crate::index_vec::IndexVec;

verus! {

/// The elements of `s` that are marked in `keep`, in order.
pub open spec fn kept<T>(s: Seq<T>, keep: Seq<bool>) -> Seq<T>
    recommends
        keep.len() == s.len(),
    decreases s.len(),
{
    if s.len() == 0 {
        Seq::empty()
    } else if keep.last() {
        kept(s.drop_last(), keep.drop_last()).push(s.last())
    } else {
        kept(s.drop_last(), keep.drop_last())
    }
}

/// Marking one more element keeps it or not, and leaves what was kept of
/// the elements before it.
pub proof fn lemma_kept_push<T>(s: Seq<T>, keep: Seq<bool>, x: T, mark: bool)
    requires
        keep.len() == s.len(),
    ensures
        kept(s.push(x), keep.push(mark)) == if mark {
            kept(s, keep).push(x)
        } else {
            kept(s, keep)
        },
{
    assert(s.push(x).drop_last() =~= s);
    assert(keep.push(mark).drop_last() =~= keep);
}

/// Whether `keep` holds, for every element of `s` in turn, an answer that
/// `f` may give when asked of that element.
pub open spec fn answers_of<T, F: FnMut(&T) -> bool>(f: F, s: Seq<T>, keep: Seq<bool>) -> bool {
    &&& keep.len() == s.len()
    &&& forall|i: int| 0 <= i < keep.len() ==> f.ensures((&s[i],), #[trigger] keep[i])
}

/// The last of the elements before position `i` that are marked in `keep`:
/// the element that the one at `i` is held against.
pub open spec fn last_kept<T>(s: Seq<T>, keep: Seq<bool>, i: int) -> T
    recommends
        keep.len() == s.len(),
        0 < i <= s.len(),
{
    kept(s.take(i), keep.take(i)).last()
}

/// Whether `keep` marks the first element of `s` and, of every later one,
/// says whether it differs from the last one kept before it, as far as `==`
/// on the elements is one that has a meaning in contracts.
pub open spec fn distinct_of<T: PartialEq>(s: Seq<T>, keep: Seq<bool>) -> bool {
    &&& keep.len() == s.len()
    &&& s.len() > 0 ==> keep[0]
    &&& T::obeys_eq_spec() ==> forall|i: int|
        0 < i < keep.len() ==> #[trigger] keep[i] == !s[i].eq_spec(&last_kept(s, keep, i))
}

/// Extending the marks leaves the element that an earlier one was held
/// against as it was.
pub proof fn lemma_last_kept_push<T>(s: Seq<T>, keep: Seq<bool>, mark: bool, i: int)
    requires
        0 < i <= keep.len(),
    ensures
        last_kept(s, keep.push(mark), i) == last_kept(s, keep, i),
{
    assert(keep.push(mark).take(i) =~= keep.take(i));
}

/// What is kept once an element has been held against the one kept last.
/// `before` is what was kept until then; `b_later` is what the one kept
/// last has become and `a_later` what the element has become. The element
/// is dropped where it fell in the same bucket, and kept behind the other
/// where it did not.
pub open spec fn held_against<T>(before: Seq<T>, a_later: T, b_later: T, same: bool) -> Seq<T>
    recommends
        before.len() > 0,
{
    if same {
        before.drop_last().push(b_later)
    } else {
        before.drop_last().push(b_later).push(a_later)
    }
}

/// Whether `after` is what is kept once an element has been held against
/// the one kept last, whichever way the comparison went.
pub open spec fn same_or_not<T>(after: Seq<T>, before: Seq<T>, a_later: T, b_later: T) -> bool {
    ||| after == held_against(before, a_later, b_later, true)
    ||| after == held_against(before, a_later, b_later, false)
}

/// What is kept, according to `trace`, when the element at position `i`
/// comes up: the outcome of the `i` elements before it.
pub open spec fn kept_when<T>(trace: Seq<Seq<T>>, i: int) -> Seq<T> {
    trace[i]
}

/// Whether `trace` begins as every run over `s` does, as far as the first
/// `n` elements: nothing is kept at first, and the first element is kept as
/// it is, without a question asked.
pub open spec fn trace_begins<T>(s: Seq<T>, trace: Seq<Seq<T>>, n: int) -> bool {
    &&& 0 <= n <= s.len()
    &&& trace.len() > n
    &&& trace[0] == Seq::<T>::empty()
    &&& n > 0 ==> trace[1] == seq![s[0]]
}

/// `Vec::shrink_to_fit` of std, which gives spare capacity back: the
/// elements stay as they are.
#[verifier::external_body]
fn shrink_vec_to_fit<T>(vec: &mut Vec<T>)
    ensures
        final(vec)@ == old(vec)@,
{
    vec.shrink_to_fit()
}

impl<I: Idx, T> IndexVec<I, T> {
    /// Gives spare capacity back. The elements stay as they are.
    pub fn shrink_to_fit(&mut self)
        ensures
            final(self)@ == old(self)@,
    {
        shrink_vec_to_fit(&mut self.vec)
    }

    /// Makes the array `new_len` long: drops the elements behind that
    /// length, or appends clones of `value` up to it.
    pub fn resize(&mut self, new_len: usize, value: T) where T: Clone
        ensures
            final(self)@.len() == new_len,
            new_len <= old(self)@.len() ==> final(self)@ == old(self)@.take(new_len as int),
            new_len > old(self)@.len() ==> {
                &&& final(self)@.take(old(self)@.len() as int) == old(self)@
                &&& forall|i: int|
                    old(self)@.len() <= i < new_len ==> cloned::<T>(value, #[trigger] final(self)@[i])
            },
    {
        self.vec.resize(new_len, value)
    }

    /// Makes the array `new_len` long: drops the elements behind that
    /// length, or appends what `f` returns, call by call, up to it. Where
    /// nothing is to be appended `f` is not called.
    pub fn resize_with<F: FnMut() -> T>(&mut self, new_len: usize, f: F)
        requires
            new_len > old(self)@.len() ==> f.requires(()),
        ensures
            final(self)@.len() == new_len,
            new_len <= old(self)@.len() ==> final(self)@ == old(self)@.take(new_len as int),
            new_len > old(self)@.len() ==> {
                &&& final(self)@.take(old(self)@.len() as int) == old(self)@
                &&& forall|i: int|
                    old(self)@.len() <= i < new_len ==> f.ensures((), #[trigger] final(self)@[i])
            },
    {
        let mut call = f;
        let len = self.vec.len();
        if new_len <= len {
            self.vec.truncate(new_len);
        } else {
            let mut n = len;
            while n < new_len
                invariant
                    len <= n <= new_len,
                    len == old(self)@.len(),
                    self.vec@.len() == n,
                    self.vec@.take(len as int) == old(self)@,
                    call == f,
                    f.requires(()),
                    forall|i: int| len <= i < n ==> f.ensures((), #[trigger] self.vec@[i]),
                decreases new_len - n,
            {
                let x = call();
                let ghost before = self.vec@;
                self.vec.push(x);
                assert(self.vec@.take(len as int) =~= before.take(len as int));
                n += 1;
            }
        }
    }

    /// Appends a clone of every element of `other`, in order.
    pub fn extend_from_slice(&mut self, other: IdxSlice<'_, I, T>) where T: Clone
        ensures
            final(self)@.len() == old(self)@.len() + other@.len(),
            final(self)@.take(old(self)@.len() as int) == old(self)@,
            forall|i: int|
                0 <= i < other@.len() ==> cloned::<T>(
                    other@[i],
                    #[trigger] final(self)@[old(self)@.len() + i],
                ),
    {
        self.vec.extend_from_slice(other.as_raw_slice());
        assert(self.vec@.take(old(self)@.len() as int) =~= old(self)@);
    }

    /// Turns the order of the elements round.
    pub fn reverse(&mut self)
        ensures
            final(self)@ == old(self)@.reverse(),
    {
        let mut rest: Vec<T> = Vec::new();
        core::mem::swap(&mut self.vec, &mut rest);
        let n = rest.len();
        while rest.len() > 0
            invariant
                n == old(self)@.len(),
                self.vec@.len() + rest@.len() == n,
                rest@ == old(self)@.take(rest@.len() as int),
                forall|k: int| 0 <= k < self.vec@.len() ==> self.vec@[k] == old(self)@[n - 1 - k],
            decreases rest@.len(),
        {
            let x = rest.pop().unwrap();
            self.vec.push(x);
        }
        assert(self.vec@ =~= old(self)@.reverse());
    }

    /// Keeps the elements of which `f` says so, in their order, and drops
    /// the others. `f` is asked once of every element, from the first on.
    pub fn retain<F: FnMut(&T) -> bool>(&mut self, f: F)
        requires
            forall|i: int| 0 <= i < old(self)@.len() ==> f.requires((&#[trigger] old(self)@[i],)),
        ensures
            exists|keep: Seq<bool>|
                #![trigger kept(old(self)@, keep)]
                answers_of(f, old(self)@, keep) && final(self)@ == kept(old(self)@, keep),
    {
        let mut ask = f;
        let ghost all = old(self)@;
        let ghost mut marks: Seq<bool> = Seq::empty();
        let mut rest: Vec<T> = Vec::new();
        core::mem::swap(&mut self.vec, &mut rest);
        for x in it: rest.into_iter()
            invariant
                it.seq() == all,
                ask == f,
                forall|i: int| 0 <= i < all.len() ==> f.requires((&#[trigger] all[i],)),
                marks.len() == it.index(),
                forall|i: int| 0 <= i < marks.len() ==> f.ensures((&all[i],), #[trigger] marks[i]),
                self.vec@ == kept(all.take(it.index()), marks),
        {
            let keep = ask(&x);
            proof {
                lemma_kept_push(all.take(it.index()), marks, x, keep);
                assert(all.take(it.index()).push(x) =~= all.take(it.index() + 1));
                marks = marks.push(keep);
            }
            if keep {
                self.vec.push(x);
            }
        }
        assert(all.take(all.len() as int) =~= all);
        assert(answers_of(f, old(self)@, marks) && self@ == kept(old(self)@, marks));
    }

    /// Drops every element that `same_bucket` puts in the bucket of the
    /// element kept last before it, so that of a run of such elements only
    /// the first stays. `same_bucket` is given the element and, second, the
    /// one kept last, and may change both: what it leaves of an element is
    /// what is kept or held against the next.
    ///
    /// The contract speaks of a trace: what is kept after each element in
    /// turn. `same_bucket` must accept every call that a run can come to.
    pub fn dedup_by<F: FnMut(&mut T, &mut T) -> bool>(&mut self, same_bucket: F)
        requires
            forall|trace: Seq<Seq<T>>, n: int, a: &mut T, b: &mut T|
                #![trigger same_bucket.requires((a, b)), kept_when(trace, n)]
                {
                    &&& 0 < n < old(self)@.len()
                    &&& trace_begins(old(self)@, trace, n)
                    &&& forall|i: int|
                        0 < i < n ==> (#[trigger] kept_when(trace, i)).len() > 0
                            && exists|pa: &mut T, pb: &mut T, same: bool|
                        {
                            &&& #[trigger] same_bucket.ensures((pa, pb), same)
                            &&& *pa == old(self)@[i]
                            &&& *pb == kept_when(trace, i).last()
                            &&& trace[i + 1] == held_against(
                                kept_when(trace, i),
                                *final(pa),
                                *final(pb),
                                same,
                            )
                        }
                    &&& kept_when(trace, n).len() > 0
                    &&& *a == old(self)@[n]
                    &&& *b == kept_when(trace, n).last()
                } ==> same_bucket.requires((a, b)),
        ensures
            exists|trace: Seq<Seq<T>>|
                {
                    &&& #[trigger] trace_begins(old(self)@, trace, old(self)@.len() as int)
                    &&& forall|i: int|
                        0 < i < old(self)@.len() ==> (#[trigger] kept_when(trace, i)).len() > 0
                            && exists|pa: &mut T, pb: &mut T, same: bool|
                        {
                            &&& #[trigger] same_bucket.ensures((pa, pb), same)
                            &&& *pa == old(self)@[i]
                            &&& *pb == kept_when(trace, i).last()
                            &&& trace[i + 1] == held_against(
                                kept_when(trace, i),
                                *final(pa),
                                *final(pb),
                                same,
                            )
                        }
                    &&& final(self)@ == trace[old(self)@.len() as int]
                },
    {
        let mut ask = same_bucket;
        let ghost all = old(self)@;
        let ghost mut trace: Seq<Seq<T>> = seq![Seq::<T>::empty()];
        let mut rest: Vec<T> = Vec::new();
        core::mem::swap(&mut self.vec, &mut rest);
        #[verifier::loop_isolation(false)]
        for x in it: rest.into_iter()
            invariant
                it.seq() == all,
                ask == same_bucket,
                trace_begins(all, trace, it.index()),
                trace.len() == it.index() + 1,
                self.vec@ == trace[it.index()],
                it.index() > 0 ==> self.vec@.len() > 0,
                forall|i: int|
                    0 < i < it.index() ==> (#[trigger] kept_when(trace, i)).len() > 0
                        && exists|pa: &mut T, pb: &mut T, same: bool|
                        {
                            &&& #[trigger] same_bucket.ensures((pa, pb), same)
                            &&& *pa == all[i]
                            &&& *pb == kept_when(trace, i).last()
                            &&& trace[i + 1] == held_against(
                                kept_when(trace, i),
                                *final(pa),
                                *final(pb),
                                same,
                            )
                        },
        {
            let ghost n = it.index();
            let ghost shorter = trace;
            let ghost before = self.vec@;
            let mut x = x;
            let n_kept = self.vec.len();
            assert(kept_when(trace, n) == self.vec@);
            let keep = if n_kept == 0 {
                true
            } else {
                !ask(&mut x, &mut self.vec[n_kept - 1])
            };
            let ghost x_later = x;
            let ghost b_later = self.vec@.last();
            if keep {
                self.vec.push(x);
            }
            proof {
                assert(n > 0 ==> self.vec@ =~= held_against(before, x_later, b_later, !keep));
                trace = trace.push(self.vec@);
                assert(kept_when(trace, n) == kept_when(shorter, n));
                assert forall|i: int| 0 < i < n implies kept_when(trace, i) == kept_when(
                    shorter,
                    i,
                ) && trace[i + 1] == shorter[i + 1] by {}
            }
        }
    }

    /// Drops every element that is equal to the element kept last before
    /// it, so that of a run of equal elements only the first stays.
    pub fn dedup(&mut self) where T: PartialEq
        ensures
            exists|keep: Seq<bool>|
                #![trigger kept(old(self)@, keep)]
                distinct_of(old(self)@, keep) && final(self)@ == kept(old(self)@, keep),
    {
        let ghost all = old(self)@;
        let ghost mut marks: Seq<bool> = Seq::empty();
        let mut rest: Vec<T> = Vec::new();
        core::mem::swap(&mut self.vec, &mut rest);
        for x in it: rest.into_iter()
            invariant
                it.seq() == all,
                marks.len() == it.index(),
                it.index() > 0 ==> marks[0] && self.vec@.len() > 0,
                T::obeys_eq_spec() ==> forall|i: int|
                    0 < i < marks.len() ==> #[trigger] marks[i] == !all[i].eq_spec(
                        &last_kept(all, marks, i),
                    ),
                self.vec@ == kept(all.take(it.index()), marks),
        {
            let ghost n = it.index();
            let ghost before = self.vec@;
            let n_kept = self.vec.len();
            let keep = if n_kept == 0 {
                true
            } else {
                !(x == self.vec[n_kept - 1])
            };
            proof {
                lemma_kept_push(all.take(n), marks, x, keep);
                assert(all.take(n).push(x) =~= all.take(n + 1));
                assert(marks.take(n) =~= marks);
                assert(n > 0 ==> last_kept(all, marks, n) == before.last());
                assert forall|i: int| 0 < i <= n implies last_kept(all, marks.push(keep), i)
                    == last_kept(all, marks, i) by {
                    lemma_last_kept_push(all, marks, keep, i);
                }
                marks = marks.push(keep);
            }
            if keep {
                self.vec.push(x);
            }
        }
        assert(all.take(all.len() as int) =~= all);
        assert(distinct_of(old(self)@, marks) && self@ == kept(old(self)@, marks));
    }

    /// Drops every element whose key is equal to the key of the element
    /// kept last before it. `key` is asked of the element and then of the
    /// one kept last, and may change either: what it leaves of an element
    /// is what is kept or asked about again.
    ///
    /// The contract speaks of a trace, as that of `dedup_by` does. `key`
    /// must accept every call that a run can come to.
    pub fn dedup_by_key<F: FnMut(&mut T) -> K, K: PartialEq>(&mut self, key: F)
        requires
            forall|trace: Seq<Seq<T>>, n: int, c: &mut T|
                #![trigger key.requires((c,)), kept_when(trace, n)]
                {
                    &&& 0 < n < old(self)@.len()
                    &&& trace_begins(old(self)@, trace, n)
                    &&& forall|i: int|
                        0 < i < n ==> (#[trigger] kept_when(trace, i)).len() > 0
                            && exists|pa: &mut T, pb: &mut T, ka: K, kb: K|
                        #![trigger key.ensures((pa,), ka), key.ensures((pb,), kb)]
                        {
                            &&& key.ensures((pa,), ka)
                            &&& key.ensures((pb,), kb)
                            &&& *pa == old(self)@[i]
                            &&& *pb == kept_when(trace, i).last()
                            &&& same_or_not(
                                trace[i + 1],
                                kept_when(trace, i),
                                *final(pa),
                                *final(pb),
                            )
                            &&& K::obeys_eq_spec() ==> trace[i + 1] == held_against(
                                kept_when(trace, i),
                                *final(pa),
                                *final(pb),
                                ka.eq_spec(&kb),
                            )
                        }
                    &&& kept_when(trace, n).len() > 0
                    &&& *c == old(self)@[n] || {
                        &&& *c == kept_when(trace, n).last()
                        &&& exists|pa: &mut T, ka: K|
                            #[trigger] key.ensures((pa,), ka) && *pa == old(self)@[n]
                    }
                } ==> key.requires((c,)),
        ensures
            exists|trace: Seq<Seq<T>>|
                {
                    &&& #[trigger] trace_begins(old(self)@, trace, old(self)@.len() as int)
                    &&& forall|i: int|
                        0 < i < old(self)@.len() ==> (#[trigger] kept_when(trace, i)).len() > 0
                            && exists|pa: &mut T, pb: &mut T, ka: K, kb: K|
                        #![trigger key.ensures((pa,), ka), key.ensures((pb,), kb)]
                        {
                            &&& key.ensures((pa,), ka)
                            &&& key.ensures((pb,), kb)
                            &&& *pa == old(self)@[i]
                            &&& *pb == kept_when(trace, i).last()
                            &&& same_or_not(
                                trace[i + 1],
                                kept_when(trace, i),
                                *final(pa),
                                *final(pb),
                            )
                            &&& K::obeys_eq_spec() ==> trace[i + 1] == held_against(
                                kept_when(trace, i),
                                *final(pa),
                                *final(pb),
                                ka.eq_spec(&kb),
                            )
                        }
                    &&& final(self)@ == trace[old(self)@.len() as int]
                },
    {
        let mut ask = key;
        let ghost all = old(self)@;
        let ghost mut trace: Seq<Seq<T>> = seq![Seq::<T>::empty()];
        let mut rest: Vec<T> = Vec::new();
        core::mem::swap(&mut self.vec, &mut rest);
        #[verifier::loop_isolation(false)]
        for x in it: rest.into_iter()
            invariant
                it.seq() == all,
                ask == key,
                trace_begins(all, trace, it.index()),
                trace.len() == it.index() + 1,
                self.vec@ == trace[it.index()],
                it.index() > 0 ==> self.vec@.len() > 0,
                forall|i: int|
                    0 < i < it.index() ==> (#[trigger] kept_when(trace, i)).len() > 0
                        && exists|pa: &mut T, pb: &mut T, ka: K, kb: K|
                        #![trigger key.ensures((pa,), ka), key.ensures((pb,), kb)]
                        {
                            &&& key.ensures((pa,), ka)
                            &&& key.ensures((pb,), kb)
                            &&& *pa == all[i]
                            &&& *pb == kept_when(trace, i).last()
                            &&& same_or_not(
                                trace[i + 1],
                                kept_when(trace, i),
                                *final(pa),
                                *final(pb),
                            )
                            &&& K::obeys_eq_spec() ==> trace[i + 1] == held_against(
                                kept_when(trace, i),
                                *final(pa),
                                *final(pb),
                                ka.eq_spec(&kb),
                            )
                        },
        {
            let ghost n = it.index();
            let ghost shorter = trace;
            let ghost before = self.vec@;
            let mut x = x;
            let n_kept = self.vec.len();
            assert(kept_when(trace, n) == self.vec@);
            let keep = if n_kept == 0 {
                true
            } else {
                let ka = ask(&mut x);
                let kb = ask(&mut self.vec[n_kept - 1]);
                !(ka == kb)
            };
            let ghost x_later = x;
            let ghost b_later = self.vec@.last();
            if keep {
                self.vec.push(x);
            }
            proof {
                assert(n > 0 ==> self.vec@ =~= held_against(before, x_later, b_later, !keep));
                trace = trace.push(self.vec@);
                assert(kept_when(trace, n) == kept_when(shorter, n));
                assert forall|i: int| 0 < i < n implies kept_when(trace, i) == kept_when(
                    shorter,
                    i,
                ) && trace[i + 1] == shorter[i + 1] by {}
            }
        }
    }
}

} // verus!
