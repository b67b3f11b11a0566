//! A client for the sysbus of a Livebox gateway, without the network.
//!
//! The library builds the requests of a session and decides what the replies
//! mean: logging in and out, invoking a method of a service, and listing,
//! adding, enabling, disabling and removing port-forwarding rules. It posts
//! nothing itself. A caller posts each [`http::HttpRequest`] and hands the
//! status and the body back as a [`reply::Reply`].
//!
//! JSON text is read and written by `serde_json`, and queried by
//! `serde_json_path`; see [`codec`].

pub mod builder;
pub mod client;
pub mod codec;
pub mod envelope;
pub mod error;
pub mod forwarding;
pub mod http;
pub mod invocation;
pub mod json;
pub mod laws;
pub mod listing;
pub mod output;
pub mod reply;
pub mod text;
pub mod workflow;
