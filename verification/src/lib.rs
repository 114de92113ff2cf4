//! The core of a terminal feed reader: feed sources and parsed feeds, the
//! ledger of background fetches, the per-source fetch state and the history of
//! read articles.

pub mod client;
pub mod config;
pub mod feed;
pub mod helpers;
pub mod history;
pub mod kiosk;
pub mod spinner;
pub mod model;
pub mod display;
