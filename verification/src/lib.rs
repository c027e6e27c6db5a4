//! A client-side core for a streaming feed of blockchain updates: it turns
//! the caller's choice of filters into a subscription descriptor, and it
//! decides, event by event, what to do with what the feed delivers.
//!
//! The channel to the node, the wire encoding and the printing of reports
//! belong to the caller. This crate holds the rules, and proves them.

pub mod descriptor;
pub mod dispatcher;
pub mod event;
pub mod request;
