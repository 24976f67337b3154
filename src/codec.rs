//! Reading and writing the wire messages over the JSON model.

use vstd::prelude::*;

use crate::json::{
    as_i32, as_opt_u64, as_string, as_strings, as_u32, as_u32s, field, get_field, json_i32,
    json_opt_u64, json_str, json_strings, json_u32, json_u32s, lemma_field_absent, lemma_field_at,
    parse_json, parsed_json, string_value, strings_value, u32s_value, write_json, written_json,
    JsonValue,
};
use crate::messages::{
    CommandView, Delta, DeltaView, EnvelopeView, KalshiClientMessage, KalshiClientSubMessage,
    MarketDataMessage, MarketDataSubMessage, ParamsView, PayloadView, Side, Snapshot,
    SnapshotView, SubscribeSubMessage, Trade, TradeView, UnsubscribeSubMessage,
};

verus! {

/// A side as the wire writes it: `"yes"` or `"no"`.
pub open spec fn json_side(v: JsonValue) -> Option<Side> {
    match json_str(v) {
        Some(s) => if s == "yes"@ {
            Some(Side::YES)
        } else if s == "no"@ {
            Some(Side::NO)
        } else {
            None
        },
        None => None,
    }
}

/// A price level as the wire writes it: an array of two `i32`.
pub open spec fn json_level(v: JsonValue) -> Option<(i32, i32)> {
    match v {
        JsonValue::Array(items) => if items@.len() == 2 {
            match (json_i32(items@[0]), json_i32(items@[1])) {
                (Some(p), Some(q)) => Some((p, q)),
                _ => None,
            }
        } else {
            None
        },
        _ => None,
    }
}

/// A list of price levels: an array whose items are all levels.
pub open spec fn json_levels(v: JsonValue) -> Option<Seq<(i32, i32)>> {
    match v {
        JsonValue::Array(items) => if forall|j: int|
            0 <= j < items@.len() ==> (#[trigger] json_level(items@[j])) is Some {
            Some(Seq::new(items@.len(), |j: int| json_level(items@[j])->0))
        } else {
            None
        },
        _ => None,
    }
}

/// The string member `key` of an object's members.
pub open spec fn str_field(fs: Seq<(String, JsonValue)>, key: Seq<char>) -> Option<Seq<char>> {
    match field(fs, key) {
        Some(v) => json_str(v),
        None => None,
    }
}

/// The `i32` member `key`.
pub open spec fn i32_field(fs: Seq<(String, JsonValue)>, key: Seq<char>) -> Option<i32> {
    match field(fs, key) {
        Some(v) => json_i32(v),
        None => None,
    }
}

/// The `u32` member `key`.
pub open spec fn u32_field(fs: Seq<(String, JsonValue)>, key: Seq<char>) -> Option<u32> {
    match field(fs, key) {
        Some(v) => json_u32(v),
        None => None,
    }
}

/// The side member `key`.
pub open spec fn side_field(fs: Seq<(String, JsonValue)>, key: Seq<char>) -> Option<Side> {
    match field(fs, key) {
        Some(v) => json_side(v),
        None => None,
    }
}

/// The level-list member `key`.
pub open spec fn levels_field(fs: Seq<(String, JsonValue)>, key: Seq<char>) -> Option<
    Seq<(i32, i32)>,
> {
    match field(fs, key) {
        Some(v) => json_levels(v),
        None => None,
    }
}

/// The optional timestamp member `ts`.
pub open spec fn ts_field(fs: Seq<(String, JsonValue)>) -> Option<Option<u64>> {
    json_opt_u64(field(fs, "ts"@))
}

/// The snapshot that an object's members describe: a string `market_ticker`,
/// level lists `yes` and `no`, an optional `ts`; other members are ignored.
pub open spec fn snapshot_fields(fs: Seq<(String, JsonValue)>) -> Option<SnapshotView> {
    match (str_field(fs, "market_ticker"@), ts_field(fs), levels_field(fs, "yes"@), levels_field(fs, "no"@)) {
        (Some(t), Some(ts), Some(yes), Some(no)) => Some(
            SnapshotView { market_ticker: t, ts: ts, yes: yes, no: no },
        ),
        _ => None,
    }
}

/// The delta that an object's members describe: a string `market_ticker`,
/// `i32` members `price` and `delta`, a `side`, an optional `ts`.
pub open spec fn delta_fields(fs: Seq<(String, JsonValue)>) -> Option<DeltaView> {
    match (str_field(fs, "market_ticker"@), ts_field(fs), i32_field(fs, "price"@), i32_field(fs, "delta"@), side_field(fs, "side"@)) {
        (Some(t), Some(ts), Some(price), Some(delta), Some(side)) => Some(
            DeltaView { market_ticker: t, ts: ts, price: price, delta: delta, side: side },
        ),
        _ => None,
    }
}

/// The trade that an object's members describe: a string `market_ticker`,
/// `i32` members `yes_price`, `no_price` and `count`, a `taker_side`, an
/// optional `ts`.
pub open spec fn trade_fields(fs: Seq<(String, JsonValue)>) -> Option<TradeView> {
    match (str_field(fs, "market_ticker"@), ts_field(fs), i32_field(fs, "yes_price"@), i32_field(fs, "no_price"@), i32_field(fs, "count"@), side_field(fs, "taker_side"@)) {
        (Some(t), Some(ts), Some(yp), Some(np), Some(c), Some(side)) => Some(
            TradeView {
                market_ticker: t,
                ts: ts,
                yes_price: yp,
                no_price: np,
                count: c,
                taker_side: side,
            },
        ),
        _ => None,
    }
}

/// The payload a value holds, tried as a snapshot, then as a delta, then as
/// a trade; the first kind whose members are all there and well typed wins.
pub open spec fn payload_of(v: JsonValue) -> Option<PayloadView> {
    match v {
        JsonValue::Object(fs) => if snapshot_fields(fs@) is Some {
            Some(PayloadView::Snapshot(snapshot_fields(fs@)->0))
        } else if delta_fields(fs@) is Some {
            Some(PayloadView::Delta(delta_fields(fs@)->0))
        } else if trade_fields(fs@) is Some {
            Some(PayloadView::Trade(trade_fields(fs@)->0))
        } else {
            None
        },
        _ => None,
    }
}

/// The market-data message a value holds: a string `type`, `u32` members
/// `sid` and `seq`, and a payload under `msg`.
pub open spec fn envelope_of(v: JsonValue) -> Option<EnvelopeView> {
    match v {
        JsonValue::Object(fs) => match (str_field(fs@, "type"@), u32_field(fs@, "sid"@), u32_field(fs@, "seq"@), field(fs@, "msg"@)) {
            (Some(t), Some(sid), Some(seq), Some(m)) => match payload_of(m) {
                Some(p) => Some(EnvelopeView { msg_type: t, sid: sid, seq: seq, msg: p }),
                None => None,
            },
            _ => None,
        },
        _ => None,
    }
}

/// The market-data message that JSON text holds.
pub open spec fn market_data_of(text: Seq<char>) -> Option<EnvelopeView> {
    match parsed_json(text) {
        Some(v) => envelope_of(v),
        None => None,
    }
}

/// Reads a side.
pub fn as_side(v: &JsonValue) -> (r: Option<Side>)
    ensures
        r == json_side(*v),
{
    match as_string(v) {
        Some(s) => {
            let yes = "yes".to_owned();
            let no = "no".to_owned();
            if s == yes {
                Some(Side::YES)
            } else if s == no {
                Some(Side::NO)
            } else {
                None
            }
        },
        None => None,
    }
}

/// Reads a price level.
pub fn as_level(v: &JsonValue) -> (r: Option<(i32, i32)>)
    ensures
        r == json_level(*v),
{
    match v {
        JsonValue::Array(items) => {
            if items.len() != 2 {
                return None;
            }
            match (as_i32(&items[0]), as_i32(&items[1])) {
                (Some(p), Some(q)) => Some((p, q)),
                _ => None,
            }
        },
        _ => None,
    }
}

/// Reads a list of price levels.
pub fn as_levels(v: &JsonValue) -> (r: Option<Vec<(i32, i32)>>)
    ensures
        match r {
            Some(x) => json_levels(*v) == Some(x@),
            None => json_levels(*v) is None,
        },
{
    match v {
        JsonValue::Array(items) => {
            let mut out: Vec<(i32, i32)> = Vec::new();
            let mut i: usize = 0;
            while i < items.len()
                invariant
                    *v == JsonValue::Array(*items),
                    0 <= i <= items@.len(),
                    out@.len() == i,
                    forall|j: int| 0 <= j < i ==> json_level(#[trigger] items@[j]) == Some(out@[j]),
                decreases items@.len() - i,
            {
                match as_level(&items[i]) {
                    Some(l) => out.push(l),
                    None => {
                        assert(json_level(items@[i as int]) is None);
                        return None;
                    },
                }
                i += 1;
            }
            assert(Seq::new(items@.len(), |j: int| json_level(items@[j])->0) =~= out@);
            Some(out)
        },
        _ => None,
    }
}

fn str_member(fs: &Vec<(String, JsonValue)>, key: &str) -> (r: Option<String>)
    ensures
        match r {
            Some(s) => str_field(fs@, key@) == Some(s@),
            None => str_field(fs@, key@) is None,
        },
{
    match get_field(fs, key) {
        Some(v) => as_string(v),
        None => None,
    }
}

fn i32_member(fs: &Vec<(String, JsonValue)>, key: &str) -> (r: Option<i32>)
    ensures
        r == i32_field(fs@, key@),
{
    match get_field(fs, key) {
        Some(v) => as_i32(v),
        None => None,
    }
}

fn u32_member(fs: &Vec<(String, JsonValue)>, key: &str) -> (r: Option<u32>)
    ensures
        r == u32_field(fs@, key@),
{
    match get_field(fs, key) {
        Some(v) => as_u32(v),
        None => None,
    }
}

fn side_member(fs: &Vec<(String, JsonValue)>, key: &str) -> (r: Option<Side>)
    ensures
        r == side_field(fs@, key@),
{
    match get_field(fs, key) {
        Some(v) => as_side(v),
        None => None,
    }
}

fn levels_member(fs: &Vec<(String, JsonValue)>, key: &str) -> (r: Option<Vec<(i32, i32)>>)
    ensures
        match r {
            Some(x) => levels_field(fs@, key@) == Some(x@),
            None => levels_field(fs@, key@) is None,
        },
{
    match get_field(fs, key) {
        Some(v) => as_levels(v),
        None => None,
    }
}

fn ts_member(fs: &Vec<(String, JsonValue)>) -> (r: Option<Option<u64>>)
    ensures
        r == ts_field(fs@),
{
    as_opt_u64(get_field(fs, "ts"))
}

/// Reads a snapshot from an object's members.
pub fn decode_snapshot(fs: &Vec<(String, JsonValue)>) -> (r: Option<Snapshot>)
    ensures
        match r {
            Some(s) => snapshot_fields(fs@) == Some(s@),
            None => snapshot_fields(fs@) is None,
        },
{
    let t = str_member(fs, "market_ticker");
    let ts = ts_member(fs);
    let yes = levels_member(fs, "yes");
    let no = levels_member(fs, "no");
    match (t, ts, yes, no) {
        (Some(t), Some(ts), Some(yes), Some(no)) => Some(
            Snapshot { market_ticker: t, ts: ts, yes: yes, no: no },
        ),
        _ => None,
    }
}

/// Reads a delta from an object's members.
pub fn decode_delta(fs: &Vec<(String, JsonValue)>) -> (r: Option<Delta>)
    ensures
        match r {
            Some(d) => delta_fields(fs@) == Some(d@),
            None => delta_fields(fs@) is None,
        },
{
    let t = str_member(fs, "market_ticker");
    let ts = ts_member(fs);
    let price = i32_member(fs, "price");
    let delta = i32_member(fs, "delta");
    let side = side_member(fs, "side");
    match (t, ts, price, delta, side) {
        (Some(t), Some(ts), Some(price), Some(delta), Some(side)) => Some(
            Delta { market_ticker: t, ts: ts, price: price, delta: delta, side: side },
        ),
        _ => None,
    }
}

/// Reads a trade from an object's members.
pub fn decode_trade(fs: &Vec<(String, JsonValue)>) -> (r: Option<Trade>)
    ensures
        match r {
            Some(t) => trade_fields(fs@) == Some(t@),
            None => trade_fields(fs@) is None,
        },
{
    let t = str_member(fs, "market_ticker");
    let ts = ts_member(fs);
    let yes_price = i32_member(fs, "yes_price");
    let no_price = i32_member(fs, "no_price");
    let count = i32_member(fs, "count");
    let side = side_member(fs, "taker_side");
    match (t, ts, yes_price, no_price, count, side) {
        (Some(t), Some(ts), Some(yes_price), Some(no_price), Some(count), Some(side)) => Some(
            Trade {
                market_ticker: t,
                ts: ts,
                yes_price: yes_price,
                no_price: no_price,
                count: count,
                taker_side: side,
            },
        ),
        _ => None,
    }
}

/// Reads a payload: a snapshot if it can, else a delta, else a trade.
pub fn decode_payload(v: &JsonValue) -> (r: Option<MarketDataSubMessage>)
    ensures
        match r {
            Some(p) => payload_of(*v) == Some(p@),
            None => payload_of(*v) is None,
        },
{
    match v {
        JsonValue::Object(fs) => {
            if let Some(s) = decode_snapshot(fs) {
                return Some(MarketDataSubMessage::Snapshot(s));
            }
            if let Some(d) = decode_delta(fs) {
                return Some(MarketDataSubMessage::Delta(d));
            }
            if let Some(t) = decode_trade(fs) {
                return Some(MarketDataSubMessage::Trade(t));
            }
            None
        },
        _ => None,
    }
}

/// Reads a market-data message from a JSON value.
pub fn decode_envelope(v: &JsonValue) -> (r: Option<MarketDataMessage>)
    ensures
        match r {
            Some(m) => envelope_of(*v) == Some(m@),
            None => envelope_of(*v) is None,
        },
{
    match v {
        JsonValue::Object(fs) => {
            let t = str_member(fs, "type");
            let sid = u32_member(fs, "sid");
            let seq = u32_member(fs, "seq");
            let msg = get_field(fs, "msg");
            match (t, sid, seq, msg) {
                (Some(t), Some(sid), Some(seq), Some(m)) => match decode_payload(m) {
                    Some(p) => Some(MarketDataMessage { msg_type: t, sid: sid, seq: seq, msg: p }),
                    None => None,
                },
                _ => None,
            }
        },
        _ => None,
    }
}

/// Text that is not a market-data message; the text is kept for diagnostics.
#[derive(Debug)]
pub struct DecodeError {
    pub text: String,
}

/// Reads a market-data message from JSON text.
pub fn decode_market_data(text: &str) -> (r: Result<MarketDataMessage, DecodeError>)
    ensures
        match r {
            Ok(m) => market_data_of(text@) == Some(m@),
            Err(e) => market_data_of(text@) is None && e.text@ == text@,
        },
{
    let decoded = match parse_json(text) {
        Some(v) => decode_envelope(&v),
        None => None,
    };
    match decoded {
        Some(m) => Ok(m),
        None => Err(DecodeError { text: text.to_owned() }),
    }
}

/// A payload whose members make a snapshot (a string `market_ticker`, level
/// lists `yes` and `no`, a well-typed or absent `ts`) reads as that snapshot,
/// whatever other members it carries: never as a delta or a trade.
pub proof fn lemma_snapshot_shape_wins(fs: Vec<(String, JsonValue)>)
    requires
        str_field(fs@, "market_ticker"@) is Some,
        ts_field(fs@) is Some,
        levels_field(fs@, "yes"@) is Some,
        levels_field(fs@, "no"@) is Some,
    ensures
        payload_of(JsonValue::Object(fs)) == Some(
            PayloadView::Snapshot(
                SnapshotView {
                    market_ticker: str_field(fs@, "market_ticker"@)->0,
                    ts: ts_field(fs@)->0,
                    yes: levels_field(fs@, "yes"@)->0,
                    no: levels_field(fs@, "no"@)->0,
                },
            ),
        ),
        !(payload_of(JsonValue::Object(fs))->0 is Delta),
        !(payload_of(JsonValue::Object(fs))->0 is Trade),
{
}

/// The string-list member `key`.
pub open spec fn strings_field(fs: Seq<(String, JsonValue)>, key: Seq<char>) -> Option<
    Seq<Seq<char>>,
> {
    match field(fs, key) {
        Some(v) => json_strings(v),
        None => None,
    }
}

/// The `u32`-list member `key`.
pub open spec fn u32s_field(fs: Seq<(String, JsonValue)>, key: Seq<char>) -> Option<Seq<u32>> {
    match field(fs, key) {
        Some(v) => json_u32s(v),
        None => None,
    }
}

/// The parameters a value holds, tried as a subscription (`channels`,
/// `market_tickers`), then as an unsubscription (`sids`), then as an update
/// (`sids`, `market_tickers`, `action`).
pub open spec fn params_of(v: JsonValue) -> Option<ParamsView> {
    match v {
        JsonValue::Object(fs) => match (strings_field(fs@, "channels"@), strings_field(fs@, "market_tickers"@)) {
            (Some(c), Some(t)) => Some(ParamsView::Subscribe { channels: c, market_tickers: t }),
            _ => match u32s_field(fs@, "sids"@) {
                Some(sids) => Some(ParamsView::Unsubscribe { sids: sids }),
                None => match (u32s_field(fs@, "sids"@), strings_field(fs@, "market_tickers"@), str_field(fs@, "action"@)) {
                    (Some(sids), Some(t), Some(a)) => Some(
                        ParamsView::Update { sids: sids, market_tickers: t, action: a },
                    ),
                    _ => None,
                },
            },
        },
        _ => None,
    }
}

/// The client command a value holds: a `u32` `id`, a string `cmd` and
/// parameters under `params`.
pub open spec fn command_of(v: JsonValue) -> Option<CommandView> {
    match v {
        JsonValue::Object(fs) => match (u32_field(fs@, "id"@), str_field(fs@, "cmd"@), field(fs@, "params"@)) {
            (Some(id), Some(cmd), Some(p)) => match params_of(p) {
                Some(params) => Some(CommandView { id: id, cmd: cmd, params: params }),
                None => None,
            },
            _ => None,
        },
        _ => None,
    }
}

/// How the encoder lays out parameters: the members in the order
/// `channels`, `market_tickers`; or `sids`; or `sids`, `market_tickers`, `action`.
pub open spec fn params_layout(v: JsonValue, p: ParamsView) -> bool {
    match (v, p) {
        (JsonValue::Object(fs), ParamsView::Subscribe { channels, market_tickers }) => {
            &&& fs@.len() == 2
            &&& fs@[0].0@ == "channels"@
            &&& json_strings(fs@[0].1) == Some(channels)
            &&& fs@[1].0@ == "market_tickers"@
            &&& json_strings(fs@[1].1) == Some(market_tickers)
        },
        (JsonValue::Object(fs), ParamsView::Unsubscribe { sids }) => {
            &&& fs@.len() == 1
            &&& fs@[0].0@ == "sids"@
            &&& json_u32s(fs@[0].1) == Some(sids)
        },
        (JsonValue::Object(fs), ParamsView::Update { sids, market_tickers, action }) => {
            &&& fs@.len() == 3
            &&& fs@[0].0@ == "sids"@
            &&& json_u32s(fs@[0].1) == Some(sids)
            &&& fs@[1].0@ == "market_tickers"@
            &&& json_strings(fs@[1].1) == Some(market_tickers)
            &&& fs@[2].0@ == "action"@
            &&& json_str(fs@[2].1) == Some(action)
        },
        _ => false,
    }
}

/// How the encoder lays out a command: the members `id`, `cmd`, `params`, in order.
pub open spec fn command_layout(v: JsonValue, c: CommandView) -> bool {
    match v {
        JsonValue::Object(fs) => {
            &&& fs@.len() == 3
            &&& fs@[0].0@ == "id"@
            &&& fs@[0].1 == JsonValue::Number(Some(c.id as i64))
            &&& fs@[1].0@ == "cmd"@
            &&& json_str(fs@[1].1) == Some(c.cmd)
            &&& fs@[2].0@ == "params"@
            &&& params_layout(fs@[2].1, c.params)
        },
        _ => false,
    }
}

fn strings_member(fs: &Vec<(String, JsonValue)>, key: &str) -> (r: Option<Vec<String>>)
    ensures
        match r {
            Some(x) => strings_field(fs@, key@) == Some(x.deep_view()),
            None => strings_field(fs@, key@) is None,
        },
{
    match get_field(fs, key) {
        Some(v) => as_strings(v),
        None => None,
    }
}

fn u32s_member(fs: &Vec<(String, JsonValue)>, key: &str) -> (r: Option<Vec<u32>>)
    ensures
        match r {
            Some(x) => u32s_field(fs@, key@) == Some(x@),
            None => u32s_field(fs@, key@) is None,
        },
{
    match get_field(fs, key) {
        Some(v) => as_u32s(v),
        None => None,
    }
}

fn member_entry(key: &str, value: JsonValue) -> (r: (String, JsonValue))
    ensures
        r.0@ == key@,
        r.1 == value,
{
    (key.to_owned(), value)
}

/// Writes command parameters as a JSON object.
pub fn encode_params(p: &KalshiClientSubMessage) -> (r: JsonValue)
    ensures
        params_layout(r, p@),
{
    match p {
        KalshiClientSubMessage::SubscribeSubMessage(m) => {
            let fs = vec![
                member_entry("channels", strings_value(&m.channels)),
                member_entry("market_tickers", strings_value(&m.market_tickers)),
            ];
            JsonValue::Object(fs)
        },
        KalshiClientSubMessage::UnsubscribeSubMessage(m) => {
            let fs = vec![member_entry("sids", u32s_value(&m.sids))];
            JsonValue::Object(fs)
        },
        KalshiClientSubMessage::UpdateSubMessage(m) => {
            let fs = vec![
                member_entry("sids", u32s_value(&m.sids)),
                member_entry("market_tickers", strings_value(&m.market_tickers)),
                member_entry("action", string_value(&m.action)),
            ];
            JsonValue::Object(fs)
        },
    }
}

/// Reads command parameters: a subscription if it can, else an
/// unsubscription, else an update.
pub fn decode_params(v: &JsonValue) -> (r: Option<KalshiClientSubMessage>)
    ensures
        match r {
            Some(p) => params_of(*v) == Some(p@),
            None => params_of(*v) is None,
        },
{
    match v {
        JsonValue::Object(fs) => {
            let channels = strings_member(fs, "channels");
            let tickers = strings_member(fs, "market_tickers");
            if let (Some(c), Some(t)) = (channels, tickers) {
                return Some(
                    KalshiClientSubMessage::SubscribeSubMessage(
                        SubscribeSubMessage { channels: c, market_tickers: t },
                    ),
                );
            }
            if let Some(sids) = u32s_member(fs, "sids") {
                return Some(
                    KalshiClientSubMessage::UnsubscribeSubMessage(
                        UnsubscribeSubMessage { sids: sids },
                    ),
                );
            }
            None
        },
        _ => None,
    }
}

impl KalshiClientMessage {
    /// The command as a JSON value.
    pub fn to_json(&self) -> (r: JsonValue)
        ensures
            command_layout(r, self@),
    {
        let fs = vec![
            member_entry("id", JsonValue::Number(Some(self.id as i64))),
            member_entry("cmd", string_value(&self.cmd)),
            member_entry("params", encode_params(&self.params)),
        ];
        JsonValue::Object(fs)
    }

    /// The command as JSON text, ready to send.
    pub fn to_text(&self) -> (r: String)
        ensures
            exists|v: JsonValue| command_layout(v, self@) && r@ == written_json(v),
    {
        let v = self.to_json();
        write_json(&v)
    }
}

/// Reads a client command from a JSON value.
pub fn decode_command(v: &JsonValue) -> (r: Option<KalshiClientMessage>)
    ensures
        match r {
            Some(c) => command_of(*v) == Some(c@),
            None => command_of(*v) is None,
        },
{
    match v {
        JsonValue::Object(fs) => {
            let id = u32_member(fs, "id");
            let cmd = str_member(fs, "cmd");
            let params = get_field(fs, "params");
            match (id, cmd, params) {
                (Some(id), Some(cmd), Some(p)) => match decode_params(p) {
                    Some(params) => Some(KalshiClientMessage { id: id, cmd: cmd, params: params }),
                    None => None,
                },
                _ => None,
            }
        },
        _ => None,
    }
}

/// Reading back what the encoder wrote gives the command's id, name and
/// parameters; an update's parameters read back as an unsubscription of the
/// same ids, since the wire does not tell the two apart.
pub proof fn lemma_command_round_trip(v: JsonValue, c: CommandView)
    requires
        command_layout(v, c),
    ensures
        command_of(v) is Some,
        command_of(v)->0.id == c.id,
        command_of(v)->0.cmd == c.cmd,
        !(c.params is Update) ==> command_of(v)->0.params == c.params,
        c.params matches ParamsView::Update { sids, .. } ==> command_of(v)->0.params == (
        ParamsView::Unsubscribe { sids: sids }),
{
    reveal_strlit("id");
    reveal_strlit("cmd");
    reveal_strlit("params");
    reveal_strlit("channels");
    reveal_strlit("market_tickers");
    reveal_strlit("sids");
    reveal_strlit("action");
    assert("id"@.len() == 2 && "cmd"@.len() == 3 && "params"@.len() == 6);
    assert("channels"@.len() == 8 && "market_tickers"@.len() == 14 && "sids"@.len() == 4);
    let fs = v->Object_0@;
    lemma_field_at(fs, "id"@, 0);
    lemma_field_at(fs, "cmd"@, 1);
    lemma_field_at(fs, "params"@, 2);
    let p = fs[2].1;
    let ps = p->Object_0@;
    match c.params {
        ParamsView::Subscribe { .. } => {
            lemma_field_at(ps, "channels"@, 0);
            lemma_field_at(ps, "market_tickers"@, 1);
        },
        ParamsView::Unsubscribe { .. } => {
            lemma_field_absent(ps, "channels"@);
            lemma_field_at(ps, "sids"@, 0);
        },
        ParamsView::Update { .. } => {
            lemma_field_absent(ps, "channels"@);
            lemma_field_at(ps, "sids"@, 0);
        },
    }
}

/// How the encoder writes a timestamp: the number, or `null` where there is
/// none (or it is past what a JSON integer here holds).
pub open spec fn ts_layout(v: JsonValue, ts: Option<u64>) -> bool {
    match ts {
        Some(t) => v == JsonValue::Number(
            if t <= i64::MAX {
                Some(t as i64)
            } else {
                None
            },
        ),
        None => v == JsonValue::Null,
    }
}

/// How the encoder lays out a snapshot: the members `market_ticker`, `ts`,
/// `yes`, `no`, in order.
pub open spec fn snapshot_layout(fs: Seq<(String, JsonValue)>, s: SnapshotView) -> bool {
    &&& fs.len() == 4
    &&& fs[0].0@ == "market_ticker"@
    &&& json_str(fs[0].1) == Some(s.market_ticker)
    &&& fs[1].0@ == "ts"@
    &&& ts_layout(fs[1].1, s.ts)
    &&& fs[2].0@ == "yes"@
    &&& json_levels(fs[2].1) == Some(s.yes)
    &&& fs[3].0@ == "no"@
    &&& json_levels(fs[3].1) == Some(s.no)
}

/// A list of price levels as a JSON array of pairs.
pub fn levels_value(levels: &Vec<(i32, i32)>) -> (r: JsonValue)
    ensures
        json_levels(r) == Some(levels@),
{
    let mut out: Vec<JsonValue> = Vec::new();
    let mut i: usize = 0;
    while i < levels.len()
        invariant
            0 <= i <= levels@.len(),
            out@.len() == i,
            forall|j: int| 0 <= j < i ==> json_level(#[trigger] out@[j]) == Some(levels@[j]),
        decreases levels@.len() - i,
    {
        let (p, q) = levels[i];
        let pair = vec![JsonValue::Number(Some(p as i64)), JsonValue::Number(Some(q as i64))];
        out.push(JsonValue::Array(pair));
        i += 1;
    }
    let r = JsonValue::Array(out);
    assert(Seq::new(out@.len(), |j: int| json_level(out@[j])->0) =~= levels@);
    r
}

/// A timestamp as JSON.
pub fn ts_value(ts: Option<u64>) -> (r: JsonValue)
    ensures
        ts_layout(r, ts),
{
    match ts {
        Some(t) => JsonValue::Number(
            if t <= i64::MAX as u64 {
                Some(t as i64)
            } else {
                None
            },
        ),
        None => JsonValue::Null,
    }
}

/// Writes a snapshot as the members of a JSON object.
pub fn encode_snapshot(s: &Snapshot) -> (r: Vec<(String, JsonValue)>)
    ensures
        snapshot_layout(r@, s@),
{
    vec![
        member_entry("market_ticker", string_value(&s.market_ticker)),
        member_entry("ts", ts_value(s.ts)),
        member_entry("yes", levels_value(&s.yes)),
        member_entry("no", levels_value(&s.no)),
    ]
}

/// Reading back the members that the encoder lays out for a snapshot gives
/// that snapshot, where its timestamp is one a JSON integer here holds.
pub proof fn lemma_snapshot_round_trip(fs: Seq<(String, JsonValue)>, s: SnapshotView)
    requires
        snapshot_layout(fs, s),
        s.ts matches Some(t) ==> t <= i64::MAX,
    ensures
        snapshot_fields(fs) == Some(s),
{
    reveal_strlit("market_ticker");
    reveal_strlit("ts");
    reveal_strlit("yes");
    reveal_strlit("no");
    assert("market_ticker"@.len() == 13 && "ts"@.len() == 2 && "yes"@.len() == 3);
    assert("no"@.len() == 2 && "ts"@[0] != "no"@[0]);
    lemma_field_at(fs, "market_ticker"@, 0);
    lemma_field_at(fs, "ts"@, 1);
    lemma_field_at(fs, "yes"@, 2);
    lemma_field_at(fs, "no"@, 3);
}

} // verus!
