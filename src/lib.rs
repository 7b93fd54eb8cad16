//! Live mid-price gauge exporter: the verified core.
//!
//! A feed of best bid / best ask updates is filtered by symbol, turned into
//! mid-prices and published into a store that a metrics endpoint snapshots.
//! A small state machine decides, event by event, when a feed session is
//! opened, read, acknowledged, torn down and retried.

pub mod decimal;
pub mod store;
pub mod feed;
pub mod supervisor;
