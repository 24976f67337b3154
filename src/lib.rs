//! Market-data ingestion core: the wire codec, the order-book engine,
//! the store record layout and the session's decision step.

pub mod auth;
pub mod codec;
pub mod json;
pub mod messages;
pub mod orderbook;
pub mod session;
pub mod store;
