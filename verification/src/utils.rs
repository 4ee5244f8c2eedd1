use vstd::prelude::*;
use vstd::std_specs::cmp::PartialOrdSpec;
use core::cmp::Ordering;
use vstd::std_specs::iter::IteratorSpec;

verus! {

/// The larger of `a` and `b` for a type that is only partially ordered:
/// `a` when `a > b`, and `b` otherwise (so `b` on ties and on incomparable
/// values).
pub fn partial_max<T: PartialOrd>(a: T, b: T) -> (r: T)
    ensures
        r == a || r == b,
        T::obeys_partial_cmp_spec() ==> r == (if a.partial_cmp_spec(&b) == Some(
            Ordering::Greater,
        ) {
            a
        } else {
            b
        }),
{
    if a > b {
        a
    } else {
        b
    }
}

/// The smaller of `a` and `b` for a type that is only partially ordered:
/// `a` when `a < b`, and `b` otherwise (so `b` on ties and on incomparable
/// values).
pub fn partial_min<T: PartialOrd>(a: T, b: T) -> (r: T)
    ensures
        r == a || r == b,
        T::obeys_partial_cmp_spec() ==> r == (if a.partial_cmp_spec(&b) == Some(
            Ordering::Less,
        ) {
            a
        } else {
            b
        }),
{
    if a < b {
        a
    } else {
        b
    }
}


/// Swaps the elements at positions `a` and `b` of `data`.
///
/// Trusted: calls `<[T]>::swap` from std, whose documentation says it
/// exchanges the two elements (leaving the slice unchanged when `a == b`) and
/// panics when either index is out of bounds, which `requires` rules out.
#[verifier::external_body]
fn slice_swap<T>(data: &mut [T], a: usize, b: usize)
    requires
        a < old(data)@.len(),
        b < old(data)@.len(),
    ensures
        final(data)@ == old(data)@.update(a as int, old(data)@[b as int]).update(
            b as int,
            old(data)@[a as int],
        ),
{
    data.swap(a, b)
}

/// Exchanging two entries of a sequence keeps its multiset of elements.
proof fn lemma_swap_keeps_multiset<T>(s: Seq<T>, a: int, b: int)
    requires
        0 <= a < s.len(),
        0 <= b < s.len(),
    ensures
        s.update(a, s[b]).update(b, s[a]).to_multiset() == s.to_multiset(),
{
    broadcast use {
        vstd::seq_lib::to_multiset_update,
        vstd::multiset::group_multiset_axioms,
    };

    let s1 = s.update(a, s[b]);
    assert(s1.to_multiset() == s.to_multiset().insert(s[b]).remove(s[a]));
    assert(s1.update(b, s[a]).to_multiset() == s1.to_multiset().insert(s[a]).remove(s1[b]));
    if a == b {
        assert(s1.update(b, s[a]) =~= s);
    } else {
        assert(s1[b] == s[b]);
        let m = s.to_multiset();
        assert(s.contains(s[a]));
        assert(m.count(s[a]) > 0) by {
            vstd::seq_lib::to_multiset_contains(s, s[a]);
        }
        let m2 = m.insert(s[b]).remove(s[a]).insert(s[a]).remove(s[b]);
        assert forall|v: T| m2.count(v) == m.count(v) by {}
        assert(m2 =~= m);
    }
}

/// `predicate` can be called on every value and always gives the same answer
/// for the same value.
pub open spec fn is_deterministic_predicate<T, P: Fn(&T) -> bool>(predicate: P) -> bool {
    &&& forall|x: &T| call_requires(predicate, (x,))
    &&& forall|x: &T, b1: bool, b2: bool|
        call_ensures(predicate, (x,), b1) && call_ensures(predicate, (x,), b2) ==> b1 == b2
}

/// `predicate` answers `b` on `x`.
pub open spec fn answers<T, P: Fn(&T) -> bool>(predicate: P, x: T, b: bool) -> bool {
    call_ensures(predicate, (&x,), b)
}

/// No element that `predicate` rejects comes before one that it accepts.
pub open spec fn is_partitioned<T, P: Fn(&T) -> bool>(predicate: P, s: Seq<T>) -> bool {
    forall|i: int, j: int|
        0 <= i < j < s.len() ==> !(answers(predicate, #[trigger] s[i], false) && answers(
            predicate,
            #[trigger] s[j],
            true,
        ))
}

/// Partition a mutable slice in-place so that it contains all elements for
/// which `predicate(e)` is `true`, followed by all elements for which
/// `predicate(e)` is `false`. Returns sub-slices to all predicated and
/// non-predicated elements, respectively.
pub fn partition_slice<'a, T, P>(data: &'a mut [T], predicate: P) -> (parts: (
    &'a mut [T],
    &'a mut [T],
)) where P: Fn(&T) -> bool
    requires
        is_deterministic_predicate(predicate),
    ensures
        (parts.0@ + parts.1@).to_multiset() == old(data)@.to_multiset(),
        parts.0@.len() + parts.1@.len() == old(data)@.len(),
        forall|i: int| 0 <= i < parts.0@.len() ==> answers(predicate, #[trigger] parts.0@[i], true),
        forall|i: int|
            0 <= i < parts.1@.len() ==> answers(predicate, #[trigger] parts.1@[i], false),
        final(data)@ == final(parts.0)@ + final(parts.1)@,
        is_partitioned(predicate, old(data)@) ==> parts.0@ + parts.1@ == old(data)@,
{
    let len = data.len();
    if len == 0 {
        proof {
            assert(data@.subrange(0, 0) + data@.subrange(0, 0) =~= data@);
        }
        return data.split_at_mut(0);
    }
    let mut l: usize = 0;
    let mut r: usize = len - 1;
    let ghost mut first = true;
    loop
        invariant
            is_deterministic_predicate(predicate),
            data@.len() == len,
            old(data)@.len() == len,
            data@.to_multiset() == old(data)@.to_multiset(),
            l <= len,
            r < len,
            forall|i: int| 0 <= i < l ==> answers(predicate, #[trigger] data@[i], true),
            forall|i: int| r < i < len ==> answers(predicate, #[trigger] data@[i], false),
            first ==> l == 0 && r == len - 1 && data@ == old(data)@,
            !first ==> !is_partitioned(predicate, old(data)@),
            !first ==> l < r && answers(predicate, data@[l as int], true) && answers(
                predicate,
                data@[r as int],
                false,
            ),
        decreases len + r - l + (if first {
            1int
        } else {
            0int
        }),
    {
        let ghost l0 = l;
        while l < len && predicate(&data[l])
            invariant
                is_deterministic_predicate(predicate),
                data@.len() == len,
                l0 <= l <= len,
                forall|i: int| 0 <= i < l ==> answers(predicate, #[trigger] data@[i], true),
            decreases len - l,
        {
            l += 1;
        }
        let ghost r0 = r;
        while r > 0 && !predicate(&data[r])
            invariant
                is_deterministic_predicate(predicate),
                data@.len() == len,
                r <= r0 < len,
                forall|i: int| r < i < len ==> answers(predicate, #[trigger] data@[i], false),
            decreases r,
        {
            r -= 1;
        }
        if l >= r {
            proof {
                assert(data@.subrange(0, l as int) + data@.subrange(l as int, len as int) =~= data@);
            }
            return data.split_at_mut(l);
        }
        proof {
            lemma_swap_keeps_multiset(data@, l as int, r as int);
            if first {
                assert(answers(predicate, data@[l as int], false));
                assert(answers(predicate, data@[r as int], true));
                assert(!is_partitioned(predicate, old(data)@));
            }
        }
        slice_swap(data, l, r);
        proof {
            first = false;
        }
    }
}


/// An iterator that is one of two iterators yielding the same items.
pub enum EitherIter<I1, I2> {
    A(I1),
    B(I2),
}

impl<T, I1: Iterator<Item = T>, I2: Iterator<Item = T>> EitherIter<I1, I2> {
    /// Advances the iterator it holds and returns its next item.
    pub fn next(&mut self) -> (ret: Option<T>)
        ensures
            (*old(self) is A) <==> (*final(self) is A),
            (*old(self), *final(self)) matches (EitherIter::A(before), EitherIter::A(after))
                ==> {
                &&& after.obeys_prophetic_iter_laws() == before.obeys_prophetic_iter_laws()
                &&& after.obeys_prophetic_iter_laws() ==> after.will_return_none()
                    == before.will_return_none()
                &&& after.obeys_prophetic_iter_laws() ==> (before.decrease() is Some
                    <==> after.decrease() is Some)
                &&& after.obeys_prophetic_iter_laws() ==> if before.remaining().len() > 0 {
                    &&& after.remaining() == before.remaining().drop_first()
                    &&& ret == Some(before.remaining()[0])
                } else {
                    &&& after.remaining() === before.remaining()
                    &&& ret === None
                    &&& after.will_return_none()
                }
                &&& after.obeys_prophetic_iter_laws() && before.remaining().len() > 0
                    && after.decrease() is Some ==> decreases_to!(before.decrease()->0 => after.decrease()->0)
            },
            (*old(self), *final(self)) matches (EitherIter::B(before), EitherIter::B(after))
                ==> {
                &&& after.obeys_prophetic_iter_laws() == before.obeys_prophetic_iter_laws()
                &&& after.obeys_prophetic_iter_laws() ==> after.will_return_none()
                    == before.will_return_none()
                &&& after.obeys_prophetic_iter_laws() ==> (before.decrease() is Some
                    <==> after.decrease() is Some)
                &&& after.obeys_prophetic_iter_laws() ==> if before.remaining().len() > 0 {
                    &&& after.remaining() == before.remaining().drop_first()
                    &&& ret == Some(before.remaining()[0])
                } else {
                    &&& after.remaining() === before.remaining()
                    &&& ret === None
                    &&& after.will_return_none()
                }
                &&& after.obeys_prophetic_iter_laws() && before.remaining().len() > 0
                    && after.decrease() is Some ==> decreases_to!(before.decrease()->0 => after.decrease()->0)
            },
    {
        match self {
            EitherIter::A(iter) => iter.next(),
            EitherIter::B(iter) => iter.next(),
        }
    }
}

} // verus!
