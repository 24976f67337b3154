//! The domain model shared by the codec, the order-book engine and the store.

use vstd::prelude::*;

verus! {

/// One leg of a binary-outcome market.
#[allow(non_camel_case_types)]
#[derive(Clone, Copy, Debug, PartialEq, Eq, Structural)]
pub enum Side {
    YES,
    NO,
}

/// A full view of the book on one ticker: a (price, quantity) list per side.
#[derive(Debug)]
pub struct Snapshot {
    pub market_ticker: String,
    pub ts: Option<u64>,
    pub yes: Vec<(i32, i32)>,
    pub no: Vec<(i32, i32)>,
}

/// A change in the quantity offered at one price on one side.
#[derive(Debug)]
pub struct Delta {
    pub market_ticker: String,
    pub ts: Option<u64>,
    pub price: i32,
    pub delta: i32,
    pub side: Side,
}

/// A trade that occurred on a ticker.
#[derive(Debug)]
pub struct Trade {
    pub market_ticker: String,
    pub ts: Option<u64>,
    pub yes_price: i32,
    pub no_price: i32,
    pub count: i32,
    pub taker_side: Side,
}

/// The mathematical value of a [`Snapshot`].
pub struct SnapshotView {
    pub market_ticker: Seq<char>,
    pub ts: Option<u64>,
    pub yes: Seq<(i32, i32)>,
    pub no: Seq<(i32, i32)>,
}

/// The mathematical value of a [`Delta`].
pub struct DeltaView {
    pub market_ticker: Seq<char>,
    pub ts: Option<u64>,
    pub price: i32,
    pub delta: i32,
    pub side: Side,
}

/// The mathematical value of a [`Trade`].
pub struct TradeView {
    pub market_ticker: Seq<char>,
    pub ts: Option<u64>,
    pub yes_price: i32,
    pub no_price: i32,
    pub count: i32,
    pub taker_side: Side,
}

impl View for Snapshot {
    type V = SnapshotView;

    open spec fn view(&self) -> SnapshotView {
        SnapshotView {
            market_ticker: self.market_ticker@,
            ts: self.ts,
            yes: self.yes@,
            no: self.no@,
        }
    }
}

impl View for Delta {
    type V = DeltaView;

    open spec fn view(&self) -> DeltaView {
        DeltaView {
            market_ticker: self.market_ticker@,
            ts: self.ts,
            price: self.price,
            delta: self.delta,
            side: self.side,
        }
    }
}

impl View for Trade {
    type V = TradeView;

    open spec fn view(&self) -> TradeView {
        TradeView {
            market_ticker: self.market_ticker@,
            ts: self.ts,
            yes_price: self.yes_price,
            no_price: self.no_price,
            count: self.count,
            taker_side: self.taker_side,
        }
    }
}

/// One market-data payload; the wire form carries no tag, so the codec
/// tells the kinds apart by their fields.
#[derive(Debug)]
pub enum MarketDataSubMessage {
    Snapshot(Snapshot),
    Delta(Delta),
    Trade(Trade),
}

/// A market-data message from the server: its envelope and its payload.
#[derive(Debug)]
pub struct MarketDataMessage {
    pub msg_type: String,
    pub sid: u32,
    pub seq: u32,
    pub msg: MarketDataSubMessage,
}

/// The mathematical value of a [`MarketDataSubMessage`].
pub enum PayloadView {
    Snapshot(SnapshotView),
    Delta(DeltaView),
    Trade(TradeView),
}

/// The mathematical value of a [`MarketDataMessage`].
pub struct EnvelopeView {
    pub msg_type: Seq<char>,
    pub sid: u32,
    pub seq: u32,
    pub msg: PayloadView,
}

impl View for MarketDataSubMessage {
    type V = PayloadView;

    open spec fn view(&self) -> PayloadView {
        match self {
            MarketDataSubMessage::Snapshot(s) => PayloadView::Snapshot(s@),
            MarketDataSubMessage::Delta(d) => PayloadView::Delta(d@),
            MarketDataSubMessage::Trade(t) => PayloadView::Trade(t@),
        }
    }
}

impl View for MarketDataMessage {
    type V = EnvelopeView;

    open spec fn view(&self) -> EnvelopeView {
        EnvelopeView { msg_type: self.msg_type@, sid: self.sid, seq: self.seq, msg: self.msg@ }
    }
}

/// A request to subscribe to channels on a set of tickers.
#[derive(Debug)]
pub struct SubscribeSubMessage {
    pub channels: Vec<String>,
    pub market_tickers: Vec<String>,
}

/// A request to end earlier subscriptions.
#[derive(Debug)]
pub struct UnsubscribeSubMessage {
    pub sids: Vec<u32>,
}

/// A request to change the tickers of earlier subscriptions.
#[derive(Debug)]
pub struct UpdateSubMessage {
    pub sids: Vec<u32>,
    pub market_tickers: Vec<String>,
    pub action: String,
}

/// The parameters of a client command; the wire form carries no tag.
#[derive(Debug)]
pub enum KalshiClientSubMessage {
    SubscribeSubMessage(SubscribeSubMessage),
    UnsubscribeSubMessage(UnsubscribeSubMessage),
    UpdateSubMessage(UpdateSubMessage),
}

/// A command to the server: its sequence id, its name and its parameters.
#[derive(Debug)]
pub struct KalshiClientMessage {
    pub id: u32,
    pub cmd: String,
    pub params: KalshiClientSubMessage,
}

/// Builds client commands and numbers them 1, 2, 3, ... within a session.
#[derive(Debug)]
pub struct KalshiClientMessageBuilder {
    pub next_id: u32,
    pub cmd: Option<String>,
    pub params: Option<KalshiClientSubMessage>,
}

/// The mathematical value of a [`KalshiClientSubMessage`].
pub enum ParamsView {
    Subscribe { channels: Seq<Seq<char>>, market_tickers: Seq<Seq<char>> },
    Unsubscribe { sids: Seq<u32> },
    Update { sids: Seq<u32>, market_tickers: Seq<Seq<char>>, action: Seq<char> },
}

/// The mathematical value of a [`KalshiClientMessage`].
pub struct CommandView {
    pub id: u32,
    pub cmd: Seq<char>,
    pub params: ParamsView,
}

/// The mathematical value of a [`KalshiClientMessageBuilder`].
pub struct BuilderView {
    pub next_id: u32,
    pub cmd: Option<Seq<char>>,
    pub params: Option<ParamsView>,
}

impl View for SubscribeSubMessage {
    type V = ParamsView;

    open spec fn view(&self) -> ParamsView {
        ParamsView::Subscribe {
            channels: self.channels.deep_view(),
            market_tickers: self.market_tickers.deep_view(),
        }
    }
}

impl View for KalshiClientSubMessage {
    type V = ParamsView;

    open spec fn view(&self) -> ParamsView {
        match self {
            KalshiClientSubMessage::SubscribeSubMessage(m) => m@,
            KalshiClientSubMessage::UnsubscribeSubMessage(m) => ParamsView::Unsubscribe {
                sids: m.sids@,
            },
            KalshiClientSubMessage::UpdateSubMessage(m) => ParamsView::Update {
                sids: m.sids@,
                market_tickers: m.market_tickers.deep_view(),
                action: m.action@,
            },
        }
    }
}

impl View for KalshiClientMessage {
    type V = CommandView;

    open spec fn view(&self) -> CommandView {
        CommandView { id: self.id, cmd: self.cmd@, params: self.params@ }
    }
}

impl View for KalshiClientMessageBuilder {
    type V = BuilderView;

    open spec fn view(&self) -> BuilderView {
        BuilderView {
            next_id: self.next_id,
            cmd: match self.cmd {
                Some(c) => Some(c@),
                None => None,
            },
            params: match self.params {
                Some(p) => Some(p@),
                None => None,
            },
        }
    }
}

/// The channels of a depth subscription.
pub open spec fn depth_channels() -> Seq<Seq<char>> {
    seq!["orderbook_delta"@, "ticker"@]
}

/// The channels of a trade subscription.
pub open spec fn trade_channels() -> Seq<Seq<char>> {
    seq!["trade"@, "ticker"@]
}

impl SubscribeSubMessage {
    /// A subscription to order-book deltas (and ticker updates) on `tickers`.
    pub fn new_deltas(tickers: Vec<String>) -> (r: SubscribeSubMessage)
        ensures
            r@ == (ParamsView::Subscribe {
                channels: depth_channels(),
                market_tickers: tickers.deep_view(),
            }),
    {
        let r = SubscribeSubMessage {
            channels: vec!["orderbook_delta".to_owned(), "ticker".to_owned()],
            market_tickers: tickers,
        };
        assert(r.channels.deep_view() =~= depth_channels());
        r
    }

    /// The default subscription: the same as [`SubscribeSubMessage::new_deltas`].
    pub fn new_default(tickers: Vec<String>) -> (r: SubscribeSubMessage)
        ensures
            r@ == (ParamsView::Subscribe {
                channels: depth_channels(),
                market_tickers: tickers.deep_view(),
            }),
    {
        SubscribeSubMessage::new_deltas(tickers)
    }

    /// A subscription to trades (and ticker updates) on `tickers`.
    pub fn new_trades(tickers: Vec<String>) -> (r: SubscribeSubMessage)
        ensures
            r@ == (ParamsView::Subscribe {
                channels: trade_channels(),
                market_tickers: tickers.deep_view(),
            }),
    {
        let r = SubscribeSubMessage {
            channels: vec!["trade".to_owned(), "ticker".to_owned()],
            market_tickers: tickers,
        };
        assert(r.channels.deep_view() =~= trade_channels());
        r
    }

    /// The two subscriptions of a session: depth on the first list of
    /// tickers, then trades on the second.
    pub fn new_snapshot_and_trades(tickers: (Vec<String>, Vec<String>)) -> (r: Vec<
        SubscribeSubMessage,
    >)
        ensures
            r@.len() == 2,
            r@[0]@ == (ParamsView::Subscribe {
                channels: depth_channels(),
                market_tickers: tickers.0.deep_view(),
            }),
            r@[1]@ == (ParamsView::Subscribe {
                channels: trade_channels(),
                market_tickers: tickers.1.deep_view(),
            }),
    {
        let (snaps, trades) = tickers;
        let snapshot_sub = SubscribeSubMessage::new_deltas(snaps);
        let trade_sub = SubscribeSubMessage::new_trades(trades);
        vec![snapshot_sub, trade_sub]
    }
}

impl KalshiClientMessageBuilder {
    /// A builder whose first command gets the id 1.
    pub fn new() -> (r: KalshiClientMessageBuilder)
        ensures
            r@ == (BuilderView { next_id: 1, cmd: None, params: None }),
    {
        KalshiClientMessageBuilder { next_id: 1, cmd: None, params: None }
    }

    /// Sets the parameters of the next command. A subscription sets the
    /// command name to `subscribe`; other parameters leave the builder as it was.
    pub fn content(&mut self, submsg: KalshiClientSubMessage) -> (r: &mut Self)
        ensures
            submsg is SubscribeSubMessage ==> (*r)@ == (BuilderView {
                next_id: old(self)@.next_id,
                cmd: Some("subscribe"@),
                params: Some(submsg@),
            }),
            !(submsg is SubscribeSubMessage) ==> (*r)@ == old(self)@,
            *final(self) == *final(r),
    {
        if matches!(submsg, KalshiClientSubMessage::SubscribeSubMessage(_)) {
            self.cmd = Some("subscribe".to_owned());
            self.params = Some(submsg);
        }
        self
    }

    /// Takes the command that the builder holds, with the next id, and
    /// advances the id.
    pub fn build(&mut self) -> (r: KalshiClientMessage)
        requires
            old(self).params is Some,
            old(self).next_id < u32::MAX,
        ensures
            r@ == (CommandView {
                id: old(self)@.next_id,
                cmd: match old(self)@.cmd {
                    Some(c) => c,
                    None => Seq::empty(),
                },
                params: old(self)@.params->0,
            }),
            final(self)@ == (BuilderView {
                next_id: (old(self)@.next_id + 1) as u32,
                cmd: old(self)@.cmd,
                params: None,
            }),
    {
        let cmd = match &self.cmd {
            Some(c) => c.clone(),
            None => String::new(),
        };
        let params = self.params.take().unwrap();
        let message = KalshiClientMessage { id: self.next_id, cmd: cmd, params: params };
        self.next_id += 1;
        message
    }
}

/// Stamping a record with the time at which it was taken in.
pub trait SetTimestamp: Sized {
    /// `r` is `self` with its timestamp set to `now` and all else kept.
    spec fn stamped(&self, now: u64, r: &Self) -> bool;

    /// Sets the timestamp to `now`.
    fn set_timestamp(self, now: u64) -> (r: Self)
        ensures
            self.stamped(now, &r),
    ;
}

impl SetTimestamp for Snapshot {
    open spec fn stamped(&self, now: u64, r: &Self) -> bool {
        r@ == SnapshotView { ts: Some(now), ..self@ }
    }

    fn set_timestamp(self, now: u64) -> (r: Self) {
        Snapshot { ts: Some(now), ..self }
    }
}

impl SetTimestamp for Delta {
    open spec fn stamped(&self, now: u64, r: &Self) -> bool {
        r@ == DeltaView { ts: Some(now), ..self@ }
    }

    fn set_timestamp(self, now: u64) -> (r: Self) {
        Delta { ts: Some(now), ..self }
    }
}

impl SetTimestamp for Trade {
    open spec fn stamped(&self, now: u64, r: &Self) -> bool {
        r@ == TradeView { ts: Some(now), ..self@ }
    }

    fn set_timestamp(self, now: u64) -> (r: Self) {
        Trade { ts: Some(now), ..self }
    }
}

} // verus!
