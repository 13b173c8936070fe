//! An instrumented query-execution layer.
//!
//! Every query that goes through this layer is counted, timed and logged in a
//! uniform way, and its rows are shaped by one of six cardinality contracts.
//! The library holds the decisions and the bookkeeping; the caller performs the
//! database round trip and reads the clock, and hands the outcomes back.
pub mod action;
pub mod call_site;
pub mod cardinality;
pub mod dispatch;
pub mod error;
pub mod metrics;
pub mod query;
