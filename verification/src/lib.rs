//! A request-batching engine for a proxy that stands between many callers and
//! one batch-oriented downstream service.
//!
//! The crate holds the decisions of such a proxy, each with a contract that
//! Verus proves: when a batch under construction is closed and handed off
//! ([`batcher`]), which outcome each waiter of a batch receives
//! ([`dispatch`]), how a failure is reported ([`error`]) and how the
//! configuration is read ([`config`]). Waiting on queues, timers and the
//! network is left to the program around the library, which performs the
//! operation that the library names and hands back what happened.

pub mod batcher;
pub mod config;
pub mod dispatch;
pub mod error;
pub mod item;
pub mod laws;
pub mod loadgen;

pub use batcher::{Batcher, Event, Next, Phase, Step};
pub use config::AppConfig;
pub use dispatch::{deliver, plan, settle, Delivery, Reply};
pub use error::ProxyError;
pub use item::{BatchItem, BatchSender};
pub use loadgen::{make_base_text, Args, Service};
