//! The session controller's decisions. The caller owns the connection: it
//! sends the subscription commands, hands each inbound frame to [`on_frame`]
//! and carries out the action that comes back.

use vstd::prelude::*;

use crate::codec::{decode_market_data, market_data_of, DecodeError};
use crate::messages::{
    depth_channels, trade_channels, CommandView, KalshiClientMessage, KalshiClientMessageBuilder,
    KalshiClientSubMessage, MarketDataSubMessage, ParamsView, SubscribeSubMessage,
};

verus! {

/// Where a session stands: `Connecting`, then `Subscribed` once the
/// subscriptions are sent, `Receiving` from the first frame on, and
/// `Closed` for good once the server closes.
#[derive(Clone, Copy, Debug, PartialEq, Eq, Structural)]
pub enum SessionState {
    Connecting,
    Subscribed,
    Receiving,
    Closed,
}

/// An inbound frame.
#[derive(Debug)]
pub enum Frame {
    Text(String),
    Binary(Vec<u8>),
    Ping(Vec<u8>),
    Pong(Vec<u8>),
    /// The server closes the session, with its reason if it gave one.
    Close(Option<String>),
}

/// What the caller does for one frame.
#[derive(Debug)]
pub enum SessionAction {
    /// Hand the payload to the store; a store failure is logged and the loop goes on.
    Dispatch(MarketDataSubMessage),
    /// Text that is no market data (an acknowledgement, say): log it and go on.
    Skip(DecodeError),
    /// Nothing to do.
    Ignore,
    /// Reply with a pong that carries this payload; failing to send it ends the process.
    SendPong(Vec<u8>),
    /// Leave the receive loop; the reason is logged.
    Stop(Option<String>),
}

/// The state after the subscriptions were sent.
pub fn on_subscribed(state: SessionState) -> (r: SessionState)
    ensures
        state == SessionState::Connecting ==> r == SessionState::Subscribed,
        state != SessionState::Connecting ==> r == state,
{
    match state {
        SessionState::Connecting => SessionState::Subscribed,
        _ => state,
    }
}

/// Decides what one inbound frame leads to. Once subscribed: text is decoded
/// and its payload dispatched, or skipped when it is no market data; binary
/// frames and pongs are ignored; a ping is answered with a pong carrying its
/// payload; a close ends the session. Before subscribing and after closing,
/// frames are ignored.
pub fn on_frame(state: SessionState, frame: Frame) -> (r: (SessionState, SessionAction))
    ensures
        (state == SessionState::Connecting || state == SessionState::Closed) ==> r.0 == state
            && r.1 is Ignore,
        (state == SessionState::Subscribed || state == SessionState::Receiving) ==> match frame {
            Frame::Text(t) => r.0 == SessionState::Receiving && match market_data_of(t@) {
                Some(m) => r.1 matches SessionAction::Dispatch(p) && p@ == m.msg,
                None => r.1 matches SessionAction::Skip(e) && e.text@ == t@,
            },
            Frame::Binary(_) => r.0 == SessionState::Receiving && r.1 is Ignore,
            Frame::Ping(data) => r.0 == SessionState::Receiving && (r.1 matches SessionAction::SendPong(
                d,
            ) && d@ == data@),
            Frame::Pong(_) => r.0 == SessionState::Receiving && r.1 is Ignore,
            Frame::Close(reason) => r.0 == SessionState::Closed && (r.1 matches SessionAction::Stop(
                why,
            ) && why == reason),
        },
{
    match state {
        SessionState::Connecting | SessionState::Closed => (state, SessionAction::Ignore),
        _ => match frame {
            Frame::Text(t) => match decode_market_data(t.as_str()) {
                Ok(m) => (SessionState::Receiving, SessionAction::Dispatch(m.msg)),
                Err(e) => (SessionState::Receiving, SessionAction::Skip(e)),
            },
            Frame::Binary(_) => (SessionState::Receiving, SessionAction::Ignore),
            Frame::Ping(data) => (SessionState::Receiving, SessionAction::SendPong(data)),
            Frame::Pong(_) => (SessionState::Receiving, SessionAction::Ignore),
            Frame::Close(reason) => (SessionState::Closed, SessionAction::Stop(reason)),
        },
    }
}

/// The commands that open a session: a depth subscription on `tickers.0`,
/// then a trade subscription on `tickers.1`, numbered on by `builder`.
pub fn subscription_commands(
    builder: &mut KalshiClientMessageBuilder,
    tickers: (Vec<String>, Vec<String>),
) -> (r: Vec<KalshiClientMessage>)
    requires
        old(builder).next_id < u32::MAX - 1,
    ensures
        r@.len() == 2,
        r@[0]@ == (CommandView {
            id: old(builder).next_id,
            cmd: "subscribe"@,
            params: ParamsView::Subscribe {
                channels: depth_channels(),
                market_tickers: tickers.0.deep_view(),
            },
        }),
        r@[1]@ == (CommandView {
            id: (old(builder).next_id + 1) as u32,
            cmd: "subscribe"@,
            params: ParamsView::Subscribe {
                channels: trade_channels(),
                market_tickers: tickers.1.deep_view(),
            },
        }),
        final(builder).next_id == old(builder).next_id + 2,
{
    let mut subs = SubscribeSubMessage::new_snapshot_and_trades(tickers);
    let trades = subs.pop().unwrap();
    let depth = subs.pop().unwrap();
    let first = builder.content(KalshiClientSubMessage::SubscribeSubMessage(depth)).build();
    let second = builder.content(KalshiClientSubMessage::SubscribeSubMessage(trades)).build();
    vec![first, second]
}

} // verus!
