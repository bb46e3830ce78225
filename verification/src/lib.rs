//! A duplex stream adapter: it presents a sequence of discrete, message-framed
//! payloads (WebSocket frames) as a continuous byte stream to a reader, and
//! turns arbitrary byte writes into single outbound frames for a sink, under a
//! cooperative, readiness-polled I/O model.
//!
//! The adapter itself is a pure state machine. The embedding program polls the
//! transport, feeds the resulting events to the adapter, and performs the
//! actions the adapter hands back; every decision the adapter makes is
//! verified here.

pub mod adapter;
pub mod handlers;
