//! Verified core of a reaction-role chat bot.
//!
//! The library holds the bot's decision logic: emoji identity and emote-token
//! parsing, construction of the reaction-to-role table from configuration,
//! admission decisions for incoming reaction events, planning of the
//! announcement message, classification of the price-API responses, and the
//! formatting of every user-visible reply. All network and gateway I/O lives
//! outside the library and hands it plain values.

pub mod coin;
pub mod command;
pub mod floorprice;
pub mod publisher;
pub mod reaction;
pub mod roles;
pub mod router;
pub mod store;
pub mod utils;
