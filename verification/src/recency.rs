//! The order of the directories is the order of their last use, in every state that the
//! daemon comes to. So the directories that make room for another one are the ones whose
//! last use lies furthest back.

use crate::state::{Client, EntryModel, StateModel};
use vstd::prelude::*;

verus! {

/// `order` goes by the time of the last use, and nothing in it was used after `latest`.
pub open spec fn by_time<H>(
    dirs: Map<Seq<u8>, EntryModel<H>>,
    order: Seq<Seq<u8>>,
    latest: u128,
) -> bool {
    &&& forall|a: int, b: int|
        0 <= a < b < order.len() ==> dirs[#[trigger] order[a]].last_accessed
            <= dirs[#[trigger] order[b]].last_accessed
    &&& forall|a: int|
        0 <= a < order.len() ==> dirs[#[trigger] order[a]].last_accessed <= latest
}

/// The order holds every indexed directory once and nothing else, and goes by the time of
/// the last use.
pub open spec fn in_time<H>(state: StateModel<H>) -> bool {
    &&& state.lru.no_duplicates()
    &&& forall|p: Seq<u8>| #[trigger] state.lru.contains(p) <==> state.dirs.contains_key(p)
    &&& by_time(state.dirs, state.lru, state.latest)
}

proof fn lemma_filtered<H>(
    dirs: Map<Seq<u8>, EntryModel<H>>,
    order: Seq<Seq<u8>>,
    latest: u128,
    keep: spec_fn(Seq<u8>) -> bool,
)
    requires
        by_time(dirs, order, latest),
    ensures
        by_time(dirs, order.filter(keep), latest),
    decreases order.len(),
{
    reveal(Seq::filter);
    if order.len() > 0 {
        let front = order.drop_last();
        let kept = front.filter(keep);
        lemma_filtered(dirs, front, latest, keep);
        crate::order::filter_members(front, keep);
        if keep(order.last()) {
            assert forall|a: int| 0 <= a < kept.len() implies dirs[#[trigger] kept[a]].last_accessed
                <= dirs[order.last()].last_accessed by {
                assert(kept.contains(kept[a]));
                let i = choose|i: int| 0 <= i < front.len() && front[i] == kept[a];
                assert(order[i] == kept[a]);
            }
            assert forall|a: int, b: int| 0 <= a < b < kept.len() + 1 implies dirs[#[trigger] kept.push(
                order.last(),
            )[a]].last_accessed <= dirs[#[trigger] kept.push(order.last())[b]].last_accessed by {
                if b == kept.len() {
                    assert(kept[a] == kept.push(order.last())[a]);
                }
            }
        }
    }
}

/// Only the times of the last use matter, and more time may have passed.
proof fn lemma_agreeing<H>(
    before: Map<Seq<u8>, EntryModel<H>>,
    after: Map<Seq<u8>, EntryModel<H>>,
    order: Seq<Seq<u8>>,
    latest: u128,
    now: u128,
)
    requires
        by_time(before, order, latest),
        latest <= now,
        forall|p: Seq<u8>| #[trigger]
            order.contains(p) ==> after[p].last_accessed == before[p].last_accessed,
    ensures
        by_time(after, order, now),
{
    assert forall|a: int| 0 <= a < order.len() implies after[#[trigger] order[a]].last_accessed
        == before[order[a]].last_accessed by {
        assert(order.contains(order[a]));
    }
}

/// A directory that is used now goes to the end.
proof fn lemma_used_now<H>(
    before: StateModel<H>,
    after: Map<Seq<u8>, EntryModel<H>>,
    order: Seq<Seq<u8>>,
    path: Seq<u8>,
    latest: u128,
    now: u128,
)
    requires
        by_time(before.dirs, order, latest),
        !order.contains(path),
        latest <= now,
        after[path].last_accessed == now,
        forall|p: Seq<u8>| #[trigger]
            order.contains(p) ==> after[p].last_accessed == before.dirs[p].last_accessed,
    ensures
        by_time(after, order.push(path), now),
{
    lemma_agreeing(before.dirs, after, order, latest, now);
    assert forall|a: int, b: int| 0 <= a < b < order.len() + 1 implies after[#[trigger] order.push(
        path,
    )[a]].last_accessed <= after[#[trigger] order.push(path)[b]].last_accessed by {
        assert(order[a] == order.push(path)[a]);
        if b < order.len() {
            assert(order[b] == order.push(path)[b]);
        }
    }
    assert forall|a: int| 0 <= a < order.len() + 1 implies after[#[trigger] order.push(
        path,
    )[a]].last_accessed <= now by {
        if a < order.len() {
            assert(order[a] == order.push(path)[a]);
        }
    }
}

/// A use of a directory keeps the order by time.
pub proof fn use_keeps_time<H>(before: StateModel<H>, path: Seq<u8>, now: u128)
    requires
        in_time(before),
        before.dirs.contains_key(path),
    ensures
        in_time(before.touched(path, now)),
{
    let after = before.touched(path, now);
    let rest = crate::order::without(before.lru, path);
    crate::order::without_facts(before.lru, path);
    crate::order::push_facts(rest, path);
    lemma_filtered(before.dirs, before.lru, before.latest, crate::order::other_than(path));
    lemma_used_now(before, after.dirs, rest, path, before.latest, after.latest);
    assert forall|p: Seq<u8>| #[trigger] after.lru.contains(p) <==> after.dirs.contains_key(p) by {
        assert(before.lru.contains(p) <==> before.dirs.contains_key(p));
    }
}

/// Another entry for a directory keeps the order by time, where it has the same time of the
/// last use.
pub proof fn update_keeps_time<H>(before: StateModel<H>, path: Seq<u8>, entry: EntryModel<H>)
    requires
        in_time(before),
        before.dirs.contains_key(path),
        entry.last_accessed == before.dirs[path].last_accessed,
    ensures
        in_time(StateModel { dirs: before.dirs.insert(path, entry), ..before }),
{
    let after = StateModel { dirs: before.dirs.insert(path, entry), ..before };
    lemma_agreeing(before.dirs, after.dirs, before.lru, before.latest, before.latest);
    assert forall|p: Seq<u8>| #[trigger] after.lru.contains(p) <==> after.dirs.contains_key(p) by {
        assert(before.lru.contains(p) <==> before.dirs.contains_key(p));
    }
}

/// Forgetting a directory keeps the order by time.
pub proof fn removal_keeps_time<H>(before: StateModel<H>, path: Seq<u8>)
    requires
        in_time(before),
    ensures
        in_time(
            StateModel {
                dirs: before.dirs.remove(path),
                lru: crate::order::without(before.lru, path),
                ..before
            },
        ),
{
    let after = StateModel {
        dirs: before.dirs.remove(path),
        lru: crate::order::without(before.lru, path),
        ..before
    };
    crate::order::without_facts(before.lru, path);
    lemma_filtered(before.dirs, before.lru, before.latest, crate::order::other_than(path));
    lemma_agreeing(before.dirs, after.dirs, after.lru, before.latest, before.latest);
}

/// Opening a directory keeps the order by time.
pub proof fn opening_keeps_time<H>(
    before: StateModel<H>,
    path: Seq<u8>,
    handles: H,
    client: Client,
    now: u128,
)
    requires
        in_time(before),
        !before.dirs.contains_key(path),
    ensures
        in_time(before.with_opened(path, handles, client, now)),
{
    let after = before.with_opened(path, handles, client, now);
    crate::order::push_facts(before.lru, path);
    assert(!before.lru.contains(path));
    lemma_used_now(before, after.dirs, before.lru, path, before.latest, after.latest);
    assert forall|p: Seq<u8>| #[trigger] after.lru.contains(p) <==> after.dirs.contains_key(p) by {
        assert(before.lru.contains(p) <==> before.dirs.contains_key(p));
    }
}

/// When room is made, the unused directories whose last use lies furthest back go: none
/// that stays and is unused was last used before one that goes.
pub proof fn least_recently_used_goes_first<H>(
    before: StateModel<H>,
    gone: Seq<u8>,
    kept: Seq<u8>,
)
    requires
        in_time(before),
        before.dirs.contains_key(gone),
        !before.with_room().dirs.contains_key(gone),
        before.with_room().dirs.contains_key(kept),
        !before.dirs[kept].busy(),
    ensures
        !before.dirs[gone].busy(),
        before.dirs[gone].last_accessed <= before.dirs[kept].last_accessed,
{
    let max = before.settings.max_directories as nat;
    let lru = before.lru;
    let idle = crate::state::idle_in(before.dirs);
    let out = crate::state::evicted(before.dirs, lru, max);
    crate::order::filter_members(lru, idle);
    assert(out.contains(gone));
    let j = choose|j: int| 0 <= j < out.len() && out[j] == gone;
    assert(lru.filter(idle)[j] == gone);
    assert(lru.filter(idle).contains(gone));
    assert(lru.contains(kept));
    let b = choose|b: int| 0 <= b < lru.len() && lru[b] == gone;
    let a = choose|a: int| 0 <= a < lru.len() && lru[a] == kept;
    if a < b {
        crate::state::front_goes_first(before.dirs, lru, max, a, b);
    }
    assert(before.dirs[lru[b]].last_accessed <= before.dirs[lru[a]].last_accessed);
}

} // verus!
