//! A filtered subreddit feed service: an authenticated score client with
//! token caching, cooperative rate-limit throttling, bounded retry, a
//! per-URL score cache, and the pipeline that filters a feed by score.
//!
//! Every decision the service makes is a verified function here; the
//! surrounding program performs the network calls and the sleeps and feeds
//! their results back into these state machines.

pub mod auth;
pub mod authorization;
pub mod cache;
pub mod client;
pub mod comments;
pub mod feed;
pub mod front;
pub mod headers;
pub mod json;
pub mod logging;
pub mod throttle;
