//! The order in which directories were last used, and facts about keeping part of a
//! sequence.

use crate::path::FsPath;
use std::collections::VecDeque;
use vstd::prelude::*;

verus! {

/// The bytes of every path of a sequence.
pub open spec fn bytes_of(paths: Seq<FsPath>) -> Seq<Seq<u8>> {
    paths.map_values(|p: FsPath| p@)
}

/// The test that every path but `path` passes.
pub open spec fn other_than(path: Seq<u8>) -> spec_fn(Seq<u8>) -> bool {
    |q: Seq<u8>| q != path
}

/// `order` without `path`.
pub open spec fn without(order: Seq<Seq<u8>>, path: Seq<u8>) -> Seq<Seq<u8>> {
    order.filter(other_than(path))
}

/// Takes `path` out of `order` and leaves the rest as it stands.
pub fn forget(order: &mut VecDeque<FsPath>, path: &FsPath)
    ensures
        bytes_of(final(order)@) == without(bytes_of(old(order)@), path@),
{
    let ghost before = bytes_of(order@);
    let ghost keep = other_than(path@);
    let count: usize = order.len();
    let mut i: usize = 0;
    proof {
        assert(before.skip(0) + before.take(0).filter(keep) =~= before) by {
            reveal(Seq::filter);
        }
    }
    while i < count
        invariant
            i <= count,
            count == before.len(),
            keep == other_than(path@),
            bytes_of(order@) == before.skip(i as int) + before.take(i as int).filter(keep),
        decreases count - i,
    {
        let ghost held = order@;
        proof {
            assert(bytes_of(held)[0] == before[i as int]);
            assert(bytes_of(held).len() == held.len());
        }
        if let Some(front) = order.pop_front() {
            proof {
                assert(front@ == before[i as int]);
                assert(bytes_of(order@) =~= bytes_of(held).skip(1));
                assert(before.take(i + 1).drop_last() =~= before.take(i as int));
                reveal(Seq::filter);
            }
            if !front.same(path) {
                let ghost popped = order@;
                order.push_back(front);
                proof {
                    assert(bytes_of(order@) =~= bytes_of(popped).push(front@));
                    assert(before.take(i + 1).filter(keep) =~= before.take(i as int).filter(
                        keep,
                    ).push(front@));
                }
            } else {
                proof {
                    assert(before.take(i + 1).filter(keep) =~= before.take(i as int).filter(keep));
                }
            }
            proof {
                assert(bytes_of(order@) =~= before.skip(i + 1) + before.take(i + 1).filter(keep));
            }
        }
        i += 1;
    }
    proof {
        assert(before.take(count as int) =~= before);
        assert(bytes_of(order@) =~= before.filter(keep));
    }
}

/// What two tests keep one after the other is what both keep.
pub proof fn filter_twice<A>(s: Seq<A>, a: spec_fn(A) -> bool, b: spec_fn(A) -> bool)
    ensures
        s.filter(a).filter(b) == s.filter(|x: A| a(x) && b(x)),
    decreases s.len(),
{
    reveal(Seq::filter);
    if s.len() > 0 {
        filter_twice(s.drop_last(), a, b);
        if a(s.last()) {
            let kept = s.drop_last().filter(a);
            assert(kept.push(s.last()).drop_last() =~= kept);
        }
    }
}

/// Tests that agree on the items of a sequence keep the same of it.
pub proof fn filter_agree<A>(s: Seq<A>, a: spec_fn(A) -> bool, b: spec_fn(A) -> bool)
    requires
        forall|x: A| #[trigger] s.contains(x) ==> a(x) == b(x),
    ensures
        s.filter(a) == s.filter(b),
    decreases s.len(),
{
    reveal(Seq::filter);
    if s.len() > 0 {
        assert forall|x: A| #[trigger] s.drop_last().contains(x) implies a(x) == b(x) by {
            let i = choose|i: int| 0 <= i < s.drop_last().len() && s.drop_last()[i] == x;
            assert(s[i] == x);
            assert(s.contains(x));
        }
        filter_agree(s.drop_last(), a, b);
        assert(s.contains(s.last()));
    }
}

/// A test that every item passes keeps them all.
pub proof fn filter_all<A>(s: Seq<A>, a: spec_fn(A) -> bool)
    requires
        forall|x: A| #[trigger] s.contains(x) ==> a(x),
    ensures
        s.filter(a) == s,
    decreases s.len(),
{
    reveal(Seq::filter);
    if s.len() > 0 {
        let front = s.drop_last();
        assert forall|x: A| #[trigger] front.contains(x) implies a(x) by {
            let i = choose|i: int| 0 <= i < front.len() && front[i] == x;
            assert(s[i] == x);
            assert(s.contains(x));
        }
        filter_all(front, a);
        assert(s.contains(s.last()));
        assert(front.push(s.last()) =~= s);
    }
}

/// A test keeps exactly the items that pass it, each as often as it stood there.
pub proof fn filter_members<A>(s: Seq<A>, a: spec_fn(A) -> bool)
    ensures
        forall|x: A| #[trigger] s.filter(a).contains(x) <==> s.contains(x) && a(x),
        s.no_duplicates() ==> s.filter(a).no_duplicates(),
    decreases s.len(),
{
    reveal(Seq::filter);
    if s.len() > 0 {
        let front = s.drop_last();
        filter_members(front, a);
        assert(s =~= front.push(s.last()));
        assert forall|x: A| #[trigger] s.contains(x) <==> front.contains(x) || x == s.last() by {
            if front.contains(x) {
                let i = choose|i: int| 0 <= i < front.len() && front[i] == x;
                assert(s[i] == x);
            }
            if x == s.last() {
                assert(s[s.len() - 1] == x);
            }
            if s.contains(x) {
                let i = choose|i: int| 0 <= i < s.len() && s[i] == x;
                if i < front.len() {
                    assert(front[i] == x);
                }
            }
        }
        let kept = front.filter(a);
        assert forall|x: A| #[trigger] s.filter(a).contains(x) <==> s.contains(x) && a(x) by {
            if a(s.last()) {
                let whole = kept.push(s.last());
                if whole.contains(x) {
                    let i = choose|i: int| 0 <= i < whole.len() && whole[i] == x;
                    if i < kept.len() {
                        assert(kept[i] == x);
                    }
                }
                if kept.contains(x) {
                    let i = choose|i: int| 0 <= i < kept.len() && kept[i] == x;
                    assert(whole[i] == x);
                }
                if x == s.last() {
                    assert(whole[kept.len() as int] == x);
                }
            }
        }
        if s.no_duplicates() {
            assert(front.no_duplicates());
            if a(s.last()) {
                assert(!front.contains(s.last()));
                assert(!kept.contains(s.last()));
            }
        }
    }
}

/// What a test keeps of two sequences put together.
pub proof fn filter_concat<A>(s: Seq<A>, t: Seq<A>, a: spec_fn(A) -> bool)
    ensures
        (s + t).filter(a) == s.filter(a) + t.filter(a),
{
    Seq::<A>::filter_distributes_over_add(s, t, a);
}

/// The items that pass a test and those that fail it make up the sequence.
pub proof fn filter_counts<A>(s: Seq<A>, a: spec_fn(A) -> bool, b: spec_fn(A) -> bool)
    requires
        forall|x: A| #[trigger] a(x) == !b(x),
    ensures
        s.filter(a).len() + s.filter(b).len() == s.len(),
    decreases s.len(),
{
    reveal(Seq::filter);
    if s.len() > 0 {
        filter_counts(s.drop_last(), a, b);
    }
}

/// The part of a sequence that ends in the `count`th item passing a test.
pub proof fn filter_prefix<A>(s: Seq<A>, a: spec_fn(A) -> bool, count: int) -> (seen: int)
    requires
        0 < count <= s.filter(a).len(),
    ensures
        0 < seen <= s.len(),
        s.take(seen).filter(a) == s.filter(a).take(count),
        s[seen - 1] == s.filter(a)[count - 1],
    decreases s.len(),
{
    reveal(Seq::filter);
    let front = s.drop_last();
    if a(s.last()) && count == s.filter(a).len() {
        assert(s.take(s.len() as int) =~= s);
        assert(s.filter(a).take(count) =~= s.filter(a));
        s.len() as int
    } else {
        let seen = filter_prefix(front, a, count);
        assert(front.take(seen) =~= s.take(seen));
        assert(front.filter(a).take(count) =~= s.filter(a).take(count));
        seen
    }
}

/// An item behind a sequence joins its members.
pub proof fn push_facts(s: Seq<Seq<u8>>, p: Seq<u8>)
    ensures
        forall|q: Seq<u8>| #[trigger] s.push(p).contains(q) <==> s.contains(q) || q == p,
        s.no_duplicates() && !s.contains(p) ==> s.push(p).no_duplicates(),
{
    assert forall|q: Seq<u8>| #[trigger] s.push(p).contains(q) <==> s.contains(q) || q == p by {
        if s.contains(q) {
            let i = choose|i: int| 0 <= i < s.len() && s[i] == q;
            assert(s.push(p)[i] == q);
        }
        if q == p {
            assert(s.push(p)[s.len() as int] == q);
        }
        if s.push(p).contains(q) {
            let i = choose|i: int| 0 <= i < s.push(p).len() && s.push(p)[i] == q;
            if i < s.len() {
                assert(s[i] == q);
            }
        }
    }
}

/// What is left of an order without one of its paths.
pub proof fn without_facts(order: Seq<Seq<u8>>, path: Seq<u8>)
    requires
        order.no_duplicates(),
    ensures
        forall|q: Seq<u8>| #[trigger]
            without(order, path).contains(q) <==> order.contains(q) && q != path,
        without(order, path).no_duplicates(),
        without(order, path).len() == order.len() - (if order.contains(path) {
            1int
        } else {
            0
        }),
{
    let keep = other_than(path);
    let drop = |q: Seq<u8>| q == path;
    filter_members(order, keep);
    filter_members(order, drop);
    filter_counts(order, keep, drop);
    let dropped = order.filter(drop);
    assert forall|i: int| 0 <= i < dropped.len() implies dropped[i] == path by {
        assert(dropped.contains(dropped[i]));
    }
    if order.contains(path) {
        assert(dropped.contains(path));
        if dropped.len() > 1 {
            assert(dropped[0] == dropped[1]);
        }
    } else if dropped.len() > 0 {
        assert(dropped.contains(dropped[0]));
    }
}

} // verus!
