//! The store adapter's logic: the record that holds a ticker's snapshot, and
//! the decisions of the get-merge-put cycle.
//!
//! A record is a flat list of (field, value) pairs, one per member of the
//! snapshot, each value written as JSON text. The caller performs the reads
//! and writes against the shared store; nothing here makes them atomic.

use vstd::prelude::*;

use crate::codec::{
    decode_snapshot, encode_snapshot, lemma_snapshot_round_trip, snapshot_fields, snapshot_layout,
};
use crate::json::{parse_json, parsed_json, write_json, written_json, JsonValue};
use crate::messages::{
    Delta, DeltaView, MarketDataSubMessage, PayloadView, SetTimestamp, Snapshot, SnapshotView, Trade, TradeView,
};
use crate::orderbook::{apply_delta, snapshot_delta_fits};

verus! {

/// Why a store operation was abandoned.
#[derive(Clone, Copy, Debug, PartialEq, Eq, Structural)]
pub enum StoreError {
    /// No snapshot was ever written under the ticker.
    NotFound,
    /// The record does not hold a snapshot.
    Malformed,
    /// Merging the delta would take a quantity past `i32`.
    Overflow,
}

/// `rec` holds the members `fs`: the same names, each value as the JSON text
/// that serde_json writes for it.
pub open spec fn record_writes(rec: Seq<(String, String)>, fs: Seq<(String, JsonValue)>) -> bool {
    &&& rec.len() == fs.len()
    &&& forall|i: int|
        #![trigger rec[i]]
        0 <= i < rec.len() ==> rec[i].0@ == fs[i].0@ && rec[i].1@ == written_json(fs[i].1)
}

/// `rec` is the record that the store adapter writes for `s`.
pub open spec fn record_of(rec: Seq<(String, String)>, s: SnapshotView) -> bool {
    exists|fs: Seq<(String, JsonValue)>| snapshot_layout(fs, s) && record_writes(rec, fs)
}

/// The members a record holds, where every value is JSON text.
pub open spec fn record_members(rec: Seq<(String, String)>) -> Option<Seq<(String, JsonValue)>> {
    if forall|i: int| 0 <= i < rec.len() ==> (#[trigger] parsed_json(rec[i].1@)) is Some {
        Some(Seq::new(rec.len(), |i: int| (rec[i].0, parsed_json(rec[i].1@)->0)))
    } else {
        None
    }
}

/// What reading a ticker's record gives: `NotFound` for an empty record (the
/// store's answer for a key never written), the snapshot its members
/// describe, or `Malformed`.
pub open spec fn snapshot_of_record(rec: Seq<(String, String)>) -> Result<SnapshotView, StoreError> {
    if rec.len() == 0 {
        Err(StoreError::NotFound)
    } else {
        match record_members(rec) {
            Some(fs) => match snapshot_fields(fs) {
                Some(s) => Ok(s),
                None => Err(StoreError::Malformed),
            },
            None => Err(StoreError::Malformed),
        }
    }
}

/// The record that holds `s`.
pub fn snapshot_record(s: &Snapshot) -> (r: Vec<(String, String)>)
    ensures
        record_of(r@, s@),
{
    let fs = encode_snapshot(s);
    let mut out: Vec<(String, String)> = Vec::new();
    let mut i: usize = 0;
    while i < fs.len()
        invariant
            0 <= i <= fs@.len(),
            out@.len() == i,
            forall|j: int|
                #![trigger out@[j]]
                0 <= j < i ==> out@[j].0@ == fs@[j].0@ && out@[j].1@ == written_json(fs@[j].1),
        decreases fs@.len() - i,
    {
        let text = write_json(&fs[i].1);
        out.push((fs[i].0.clone(), text));
        i += 1;
    }
    assert(record_writes(out@, fs@));
    out
}

/// Reads the snapshot that a ticker's record holds.
pub fn read_snapshot_record(rec: &Vec<(String, String)>) -> (r: Result<Snapshot, StoreError>)
    ensures
        match r {
            Ok(s) => snapshot_of_record(rec@) == Ok::<SnapshotView, StoreError>(s@),
            Err(e) => snapshot_of_record(rec@) == Err::<SnapshotView, StoreError>(e),
        },
{
    if rec.len() == 0 {
        return Err(StoreError::NotFound);
    }
    let mut fs: Vec<(String, JsonValue)> = Vec::new();
    let mut i: usize = 0;
    while i < rec.len()
        invariant
            0 <= i <= rec@.len(),
            fs@.len() == i,
            forall|j: int|
                0 <= j < i ==> (#[trigger] parsed_json(rec@[j].1@)) is Some && fs@[j] == (
                    rec@[j].0,
                    parsed_json(rec@[j].1@)->0,
                ),
        decreases rec@.len() - i,
    {
        match parse_json(rec[i].1.as_str()) {
            Some(v) => fs.push((rec[i].0.clone(), v)),
            None => {
                assert(!(parsed_json(rec@[i as int].1@) is Some));
                return Err(StoreError::Malformed);
            },
        }
        i += 1;
    }
    assert(record_members(rec@) == Some(fs@)) by {
        assert(Seq::new(rec@.len(), |j: int| (rec@[j].0, parsed_json(rec@[j].1@)->0)) =~= fs@);
    }
    match decode_snapshot(&fs) {
        Some(s) => Ok(s),
        None => Err(StoreError::Malformed),
    }
}

/// Writing a snapshot stamped at `now` and reading the record back gives
/// that snapshot, with `now` as its timestamp, provided serde_json reads each
/// value back as it wrote it.
pub proof fn lemma_put_then_get(
    s: SnapshotView,
    now: u64,
    fs: Seq<(String, JsonValue)>,
    rec: Seq<(String, String)>,
)
    requires
        now <= i64::MAX,
        snapshot_layout(fs, SnapshotView { ts: Some(now), ..s }),
        record_writes(rec, fs),
        forall|i: int| 0 <= i < fs.len() ==> parsed_json(written_json(#[trigger] fs[i].1)) == Some(fs[i].1),
    ensures
        snapshot_of_record(rec) == Ok::<SnapshotView, StoreError>(SnapshotView { ts: Some(now), ..s }),
{
    assert forall|i: int| 0 <= i < rec.len() implies (#[trigger] parsed_json(rec[i].1@)) is Some by {
        assert(rec[i].1@ == written_json(fs[i].1));
    }
    let members = Seq::new(rec.len(), |i: int| (rec[i].0, parsed_json(rec[i].1@)->0));
    assert forall|i: int| #![trigger members[i]] 0 <= i < members.len() implies members[i].0@ == fs[i].0@
        && members[i].1 == fs[i].1 by {
        assert(rec[i].1@ == written_json(fs[i].1));
    }
    assert(snapshot_layout(members, SnapshotView { ts: Some(now), ..s }));
    lemma_snapshot_round_trip(members, SnapshotView { ts: Some(now), ..s });
}

/// What the caller does with the store for one payload.
#[derive(Debug)]
pub enum StoreAction {
    /// Replace the record under `key`: delete what is there, then write `record`.
    Put { key: String, record: Vec<(String, String)> },
    /// Read the record under the delta's ticker and hand it to [`merge_delta_record`].
    Merge(Delta),
    /// Pass the trade to the trade log; a trade is never merged into a snapshot.
    LogTrade(Trade),
}

/// Decides the store work for one payload taken in at `now`: a snapshot
/// replaces the ticker's record, stamped `now`; a delta, stamped `now`, is
/// to be merged against the stored snapshot; a trade, stamped `now`, goes to
/// the trade log.
pub fn plan_write(msg: MarketDataSubMessage, now: u64) -> (r: StoreAction)
    ensures
        match msg@ {
            PayloadView::Snapshot(s) => r matches StoreAction::Put { key, record } && key@
                == s.market_ticker && record_of(record@, SnapshotView { ts: Some(now), ..s }),
            PayloadView::Delta(d) => r matches StoreAction::Merge(d2) && d2@ == (DeltaView {
                ts: Some(now),
                ..d
            }),
            PayloadView::Trade(t) => r matches StoreAction::LogTrade(t2) && t2@ == (TradeView {
                ts: Some(now),
                ..t
            }),
        },
{
    match msg {
        MarketDataSubMessage::Snapshot(s) => {
            let key = s.market_ticker.clone();
            let stamped = s.set_timestamp(now);
            StoreAction::Put { key: key, record: snapshot_record(&stamped) }
        },
        MarketDataSubMessage::Delta(d) => StoreAction::Merge(d.set_timestamp(now)),
        MarketDataSubMessage::Trade(t) => StoreAction::LogTrade(t.set_timestamp(now)),
    }
}

/// The merge step of the get-merge-put cycle: given the record read under
/// the delta's ticker, the key and record to write back. The stored
/// snapshot must exist and hold the merge within `i32`; the result carries
/// the delta merged in and the timestamp `now` of the write.
pub fn merge_delta_record(current: &Vec<(String, String)>, delta: Delta, now: u64) -> (r: Result<
    (String, Vec<(String, String)>),
    StoreError,
>)
    ensures
        match snapshot_of_record(current@) {
            Err(e) => r matches Err(e2) && e2 == e,
            Ok(s) => if snapshot_delta_fits(s, delta@) {
                r matches Ok((key, rec)) && key@ == s.market_ticker && record_of(
                    rec@,
                    SnapshotView { ts: Some(now), ..apply_delta(s, delta@) },
                )
            } else {
                r matches Err(e2) && e2 == StoreError::Overflow
            },
        },
{
    let snap = match read_snapshot_record(current) {
        Ok(s) => s,
        Err(e) => return Err(e),
    };
    if !snap.delta_fits(&delta) {
        return Err(StoreError::Overflow);
    }
    let next = snap.add(delta).set_timestamp(now);
    let key = next.market_ticker.clone();
    let record = snapshot_record(&next);
    Ok((key, record))
}

} // verus!
