//! Decision logic of a single-symbol stock watcher: what to fetch next, how a
//! price is read, when a move is worth a message, and how a message is made to
//! fit the channel. All I/O is left to the caller.

pub mod aggregate;
pub mod channel;
pub mod document;
pub mod driver;
pub mod fetch;
pub mod guard;
pub mod link;
pub mod notice;
pub mod poll;
pub mod price;
pub mod quote_text;
pub mod robinhood;
