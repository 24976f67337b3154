//! The order-book engine: merging a delta into a snapshot.
//!
//! A delta on a price that the side already lists changes that entry in
//! place; a delta on a new price is appended at the end of the side's list.
//! Levels are not re-sorted and a level whose quantity nets to zero or below
//! stays in the list.

use vstd::prelude::*;

use crate::messages::{Delta, DeltaView, Side, Snapshot, SnapshotView};

verus! {

/// `i` is the first position of `levels` that holds `price`.
pub open spec fn first_at(levels: Seq<(i32, i32)>, price: i32, i: int) -> bool {
    &&& 0 <= i < levels.len()
    &&& levels[i].0 == price
    &&& forall|j: int| 0 <= j < i ==> levels[j].0 != price
}

/// Some entry of `levels` holds `price`.
pub open spec fn has_price(levels: Seq<(i32, i32)>, price: i32) -> bool {
    exists|i: int| 0 <= i < levels.len() && levels[i].0 == price
}

/// The first position of `levels` that holds `price` (meaningful when there is one).
pub open spec fn price_index(levels: Seq<(i32, i32)>, price: i32) -> int {
    choose|i: int| first_at(levels, price, i)
}

/// Adding `delta` at `price` stays within `i32`.
pub open spec fn delta_fits(levels: Seq<(i32, i32)>, price: i32, delta: i32) -> bool {
    has_price(levels, price) ==> i32::MIN <= levels[price_index(levels, price)].1 + delta
        <= i32::MAX
}

/// `levels` after adding `delta` to the quantity at `price`: in place where
/// the price is listed, else as a new entry at the end.
pub open spec fn levels_after(levels: Seq<(i32, i32)>, price: i32, delta: i32) -> Seq<(i32, i32)> {
    if has_price(levels, price) {
        let i = price_index(levels, price);
        levels.update(i, (price, (levels[i].1 + delta) as i32))
    } else {
        levels.push((price, delta))
    }
}

/// The side of a snapshot that a delta on `side` changes.
pub open spec fn side_levels(s: SnapshotView, side: Side) -> Seq<(i32, i32)> {
    match side {
        Side::YES => s.yes,
        Side::NO => s.no,
    }
}

/// The delta's change stays within `i32`.
pub open spec fn snapshot_delta_fits(s: SnapshotView, d: DeltaView) -> bool {
    delta_fits(side_levels(s, d.side), d.price, d.delta)
}

/// The snapshot after merging `d`: the delta's side changes as
/// [`levels_after`] says, the other side and the ticker stay, and the
/// delta's timestamp replaces the snapshot's.
pub open spec fn apply_delta(s: SnapshotView, d: DeltaView) -> SnapshotView {
    match d.side {
        Side::YES => SnapshotView {
            market_ticker: s.market_ticker,
            ts: d.ts,
            yes: levels_after(s.yes, d.price, d.delta),
            no: s.no,
        },
        Side::NO => SnapshotView {
            market_ticker: s.market_ticker,
            ts: d.ts,
            yes: s.yes,
            no: levels_after(s.no, d.price, d.delta),
        },
    }
}

/// No price is listed twice within one side.
pub open spec fn unique_prices(levels: Seq<(i32, i32)>) -> bool {
    forall|i: int, j: int|
        0 <= i < levels.len() && 0 <= j < levels.len() && i != j ==> levels[i].0 != levels[j].0
}

/// The snapshot invariant: within each side, every price is listed at most once.
pub open spec fn wf_snapshot(s: SnapshotView) -> bool {
    unique_prices(s.yes) && unique_prices(s.no)
}

/// Merging a delta keeps each side's prices unique.
pub proof fn lemma_apply_keeps_unique_prices(s: SnapshotView, d: DeltaView)
    requires
        wf_snapshot(s),
    ensures
        wf_snapshot(apply_delta(s, d)),
{
    let before = side_levels(s, d.side);
    let after = levels_after(before, d.price, d.delta);
    if has_price(before, d.price) {
        lemma_first_exists(before, d.price);
        assert forall|j: int| 0 <= j < before.len() implies after[j].0 == before[j].0 by {}
    } else {
        assert forall|i: int, j: int|
            0 <= i < after.len() && 0 <= j < after.len() && i != j implies after[i].0
            != after[j].0 by {
            if i == before.len() {
                assert(before[j].0 != d.price);
            } else if j == before.len() {
                assert(before[i].0 != d.price);
            }
        }
    }
}

/// A listed price has a first position, and it is the one `price_index` picks.
pub proof fn lemma_first_exists(levels: Seq<(i32, i32)>, price: i32)
    requires
        has_price(levels, price),
    ensures
        first_at(levels, price, price_index(levels, price)),
    decreases levels.len(),
{
    let k = choose|k: int| 0 <= k < levels.len() && levels[k].0 == price;
    if exists|j: int| 0 <= j < k && levels[j].0 == price {
        let j = choose|j: int| 0 <= j < k && levels[j].0 == price;
        let prefix = levels.subrange(0, k);
        assert(prefix[j].0 == price);
        lemma_first_exists(prefix, price);
        let f = price_index(prefix, price);
        assert forall|m: int| 0 <= m < f implies levels[m].0 != price by {
            assert(prefix[m] == levels[m]);
        }
        assert(prefix[f] == levels[f]);
        assert(first_at(levels, price, f));
    } else {
        assert(first_at(levels, price, k));
    }
}

/// Two first positions of a price are the same position.
pub proof fn lemma_first_unique(levels: Seq<(i32, i32)>, price: i32, i: int, j: int)
    requires
        first_at(levels, price, i),
        first_at(levels, price, j),
    ensures
        i == j,
{
    if i < j {
        assert(levels[i].0 != price);
    } else if j < i {
        assert(levels[j].0 != price);
    }
}

/// The side that a delta on `side` leaves alone.
pub open spec fn other_side(side: Side) -> Side {
    match side {
        Side::YES => Side::NO,
        Side::NO => Side::YES,
    }
}

/// Two deltas on one price and side, as one: the quantities add up and the
/// later delta's ticker and timestamp are kept.
pub open spec fn combine(d1: DeltaView, d2: DeltaView) -> DeltaView {
    DeltaView { delta: (d1.delta + d2.delta) as i32, ..d2 }
}

/// Merging a delta on a listed price changes only that entry, to the old
/// quantity plus the delta; the list keeps its length and order, the other
/// side and the ticker stay, and the timestamp becomes the delta's.
pub proof fn lemma_listed_price_changes_in_place(s: SnapshotView, d: DeltaView)
    requires
        has_price(side_levels(s, d.side), d.price),
        snapshot_delta_fits(s, d),
    ensures
        ({
            let before = side_levels(s, d.side);
            let after = side_levels(apply_delta(s, d), d.side);
            let i = price_index(before, d.price);
            &&& 0 <= i < before.len()
            &&& before[i].0 == d.price
            &&& after.len() == before.len()
            &&& after[i] == (d.price, (before[i].1 + d.delta) as i32)
            &&& after[i].1 == before[i].1 + d.delta
            &&& forall|j: int| 0 <= j < after.len() && j != i ==> after[j] == before[j]
        }),
        side_levels(apply_delta(s, d), other_side(d.side)) == side_levels(s, other_side(d.side)),
        apply_delta(s, d).market_ticker == s.market_ticker,
        apply_delta(s, d).ts == d.ts,
{
    lemma_first_exists(side_levels(s, d.side), d.price);
}

/// Merging a delta on a price that the side does not list appends one entry
/// holding exactly the delta; everything before it stays.
pub proof fn lemma_new_price_appended(s: SnapshotView, d: DeltaView)
    requires
        !has_price(side_levels(s, d.side), d.price),
    ensures
        ({
            let before = side_levels(s, d.side);
            let after = side_levels(apply_delta(s, d), d.side);
            &&& after.len() == before.len() + 1
            &&& after[before.len() as int] == (d.price, d.delta)
            &&& after.subrange(0, before.len() as int) == before
        }),
        side_levels(apply_delta(s, d), other_side(d.side)) == side_levels(s, other_side(d.side)),
        apply_delta(s, d).market_ticker == s.market_ticker,
        apply_delta(s, d).ts == d.ts,
{
    let before = side_levels(s, d.side);
    assert(levels_after(before, d.price, d.delta).subrange(0, before.len() as int) =~= before);
}

/// A zero delta on a listed price leaves the levels as they were; the
/// timestamp still becomes the delta's.
pub proof fn lemma_zero_delta_keeps_levels(s: SnapshotView, d: DeltaView)
    requires
        has_price(side_levels(s, d.side), d.price),
        d.delta == 0,
    ensures
        apply_delta(s, d).yes == s.yes,
        apply_delta(s, d).no == s.no,
        apply_delta(s, d).ts == d.ts,
{
    let before = side_levels(s, d.side);
    lemma_first_exists(before, d.price);
    let i = price_index(before, d.price);
    assert(levels_after(before, d.price, 0) =~= before);
}

/// Merging at a price leaves every other price where it was, with the same quantity.
pub proof fn lemma_other_price_untouched(levels: Seq<(i32, i32)>, p: i32, d: i32, q: i32)
    requires
        p != q,
    ensures
        has_price(levels_after(levels, p, d), q) == has_price(levels, q),
        has_price(levels, q) ==> price_index(levels_after(levels, p, d), q) == price_index(levels, q),
        has_price(levels, q) ==> levels_after(levels, p, d)[price_index(levels, q)] == levels[price_index(
            levels,
            q,
        )],
{
    let after = levels_after(levels, p, d);
    if has_price(levels, p) {
        lemma_first_exists(levels, p);
    }
    assert(forall|j: int| 0 <= j < levels.len() ==> after[j].0 == levels[j].0);
    if has_price(levels, q) {
        lemma_first_exists(levels, q);
        let k = price_index(levels, q);
        assert(first_at(after, q, k));
        lemma_first_exists(after, q);
        lemma_first_unique(after, q, k, price_index(after, q));
    }
    if has_price(after, q) {
        let k = choose|k: int| 0 <= k < after.len() && after[k].0 == q;
        assert(levels[k].0 == q);
    }
}

/// Two deltas on the same price and side, merged one after the other, give
/// what their combination gives merged at once.
pub proof fn lemma_same_price_deltas_add_up(s: SnapshotView, d1: DeltaView, d2: DeltaView)
    requires
        d1.side == d2.side,
        d1.price == d2.price,
        snapshot_delta_fits(s, d1),
        snapshot_delta_fits(apply_delta(s, d1), d2),
        i32::MIN <= d1.delta + d2.delta <= i32::MAX,
    ensures
        apply_delta(apply_delta(s, d1), d2) == apply_delta(s, combine(d1, d2)),
{
    let p = d1.price;
    let before = side_levels(s, d1.side);
    let mid = levels_after(before, p, d1.delta);
    if has_price(before, p) {
        lemma_first_exists(before, p);
        let i = price_index(before, p);
        assert(first_at(mid, p, i));
        lemma_first_exists(mid, p);
        lemma_first_unique(mid, p, i, price_index(mid, p));
        assert(levels_after(mid, p, d2.delta) =~= levels_after(before, p, combine(d1, d2).delta));
    } else {
        let n = before.len() as int;
        assert(first_at(mid, p, n));
        lemma_first_exists(mid, p);
        lemma_first_unique(mid, p, n, price_index(mid, p));
        assert(levels_after(mid, p, d2.delta) =~= levels_after(before, p, combine(d1, d2).delta));
    }
    assert(apply_delta(apply_delta(s, d1), d2) =~= apply_delta(s, combine(d1, d2)));
}

/// On one side, deltas at two different prices give the same entries in either order.
proof fn lemma_levels_commute(levels: Seq<(i32, i32)>, pa: i32, d1: i32, pb: i32, d2: i32)
    requires
        pa != pb,
        delta_fits(levels, pa, d1),
        delta_fits(levels, pb, d2),
    ensures
        delta_fits(levels_after(levels, pa, d1), pb, d2),
        delta_fits(levels_after(levels, pb, d2), pa, d1),
        levels_after(levels_after(levels, pa, d1), pb, d2).to_set() == levels_after(
            levels_after(levels, pb, d2),
            pa,
            d1,
        ).to_set(),
{
    lemma_other_price_untouched(levels, pa, d1, pb);
    lemma_other_price_untouched(levels, pb, d2, pa);
    let a = levels_after(levels_after(levels, pa, d1), pb, d2);
    let b = levels_after(levels_after(levels, pb, d2), pa, d1);
    if has_price(levels, pa) {
        lemma_first_exists(levels, pa);
    }
    if has_price(levels, pb) {
        lemma_first_exists(levels, pb);
    }
    if has_price(levels, pa) && has_price(levels, pb) {
        lemma_first_unique(levels, pa, price_index(levels, pa), price_index(levels, pa));
        assert(price_index(levels, pa) != price_index(levels, pb));
        assert(a =~= b);
    } else if has_price(levels, pa) {
        let m = levels_after(levels, pb, d2);
        assert(first_at(m, pa, price_index(levels, pa)));
        assert(a =~= b);
    } else if has_price(levels, pb) {
        let m = levels_after(levels, pa, d1);
        assert(first_at(m, pb, price_index(levels, pb)));
        assert(a =~= b);
    } else {
        assert(a.to_set() =~= b.to_set()) by {
            assert forall|e| a.to_set().contains(e) implies b.to_set().contains(e) by {
                let k = choose|k: int| 0 <= k < a.len() && a[k] == e;
                if k < levels.len() {
                    assert(b[k] == e);
                } else if k == levels.len() {
                    assert(b[k + 1] == e);
                } else {
                    assert(b[k - 1] == e);
                }
            }
            assert forall|e| b.to_set().contains(e) implies a.to_set().contains(e) by {
                let k = choose|k: int| 0 <= k < b.len() && b[k] == e;
                if k < levels.len() {
                    assert(a[k] == e);
                } else if k == levels.len() {
                    assert(a[k + 1] == e);
                } else {
                    assert(a[k - 1] == e);
                }
            }
        }
    }
}

/// Deltas at two different prices give the same price levels, taken as a
/// set of (price, quantity) pairs, whichever is merged first.
pub proof fn lemma_different_prices_commute(s: SnapshotView, d1: DeltaView, d2: DeltaView)
    requires
        d1.price != d2.price,
        snapshot_delta_fits(s, d1),
        snapshot_delta_fits(s, d2),
    ensures
        snapshot_delta_fits(apply_delta(s, d1), d2),
        snapshot_delta_fits(apply_delta(s, d2), d1),
        apply_delta(apply_delta(s, d1), d2).yes.to_set() == apply_delta(
            apply_delta(s, d2),
            d1,
        ).yes.to_set(),
        apply_delta(apply_delta(s, d1), d2).no.to_set() == apply_delta(
            apply_delta(s, d2),
            d1,
        ).no.to_set(),
{
    if d1.side == d2.side {
        lemma_levels_commute(side_levels(s, d1.side), d1.price, d1.delta, d2.price, d2.delta);
    }
}

/// Merges one delta into a side's level list.
fn apply_to_levels(levels: Vec<(i32, i32)>, price: i32, delta: i32) -> (r: Vec<(i32, i32)>)
    requires
        delta_fits(levels@, price, delta),
    ensures
        r@ == levels_after(levels@, price, delta),
{
    let mut new = levels;
    let mut idx: usize = 0;
    while idx < new.len()
        invariant
            0 <= idx <= new@.len(),
            new@ == levels@,
            delta_fits(levels@, price, delta),
            forall|j: int| 0 <= j < idx ==> new@[j].0 != price,
        decreases new@.len() - idx,
    {
        if new[idx].0 == price {
            proof {
                assert(first_at(levels@, price, idx as int));
                lemma_first_exists(levels@, price);
                lemma_first_unique(levels@, price, idx as int, price_index(levels@, price));
            }
            let q = new[idx].1;
            new.set(idx, (price, q + delta));
            return new;
        }
        idx += 1;
    }
    new.push((price, delta));
    new
}


/// Whether adding `delta` at `price` stays within `i32`.
fn levels_delta_fits(levels: &Vec<(i32, i32)>, price: i32, delta: i32) -> (r: bool)
    ensures
        r == delta_fits(levels@, price, delta),
{
    let mut idx: usize = 0;
    while idx < levels.len()
        invariant
            0 <= idx <= levels@.len(),
            forall|j: int| 0 <= j < idx ==> levels@[j].0 != price,
        decreases levels@.len() - idx,
    {
        if levels[idx].0 == price {
            proof {
                assert(first_at(levels@, price, idx as int));
                lemma_first_exists(levels@, price);
                lemma_first_unique(levels@, price, idx as int, price_index(levels@, price));
            }
            let sum = levels[idx].1 as i64 + delta as i64;
            return i32::MIN as i64 <= sum && sum <= i32::MAX as i64;
        }
        idx += 1;
    }
    true
}

impl Snapshot {
    /// Whether merging `rhs` keeps every quantity within `i32`.
    pub fn delta_fits(&self, rhs: &Delta) -> (r: bool)
        ensures
            r == snapshot_delta_fits(self@, rhs@),
    {
        match rhs.side {
            Side::YES => levels_delta_fits(&self.yes, rhs.price, rhs.delta),
            Side::NO => levels_delta_fits(&self.no, rhs.price, rhs.delta),
        }
    }

    /// Merges `rhs` into this snapshot. See [`apply_delta`].
    pub fn add(self, rhs: Delta) -> (r: Snapshot)
        requires
            snapshot_delta_fits(self@, rhs@),
        ensures
            r@ == apply_delta(self@, rhs@),
            wf_snapshot(self@) ==> wf_snapshot(r@),
    {
        proof {
            if wf_snapshot(self@) {
                lemma_apply_keeps_unique_prices(self@, rhs@);
            }
        }
        match rhs.side {
            Side::YES => Snapshot {
                market_ticker: self.market_ticker,
                ts: rhs.ts,
                yes: apply_to_levels(self.yes, rhs.price, rhs.delta),
                no: self.no,
            },
            Side::NO => Snapshot {
                market_ticker: self.market_ticker,
                ts: rhs.ts,
                yes: self.yes,
                no: apply_to_levels(self.no, rhs.price, rhs.delta),
            },
        }
    }
}

} // verus!
