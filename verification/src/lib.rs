//! A small relay core: a recency-biased broadcast channel fans a polled
//! event feed out to any number of live subscribers. The channel, the
//! payload transform, the poll-tick decision and the per-connection session
//! state machine live here; network and runtime glue stays outside.
pub mod channel;
pub mod poll;
pub mod session;
pub mod strutil;
pub mod transform;
pub mod types;
