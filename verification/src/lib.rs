//! Client-side building blocks for IEEE 2030.5 (Smart Energy Profile 2.0):
//! the HTTP response model, request construction and status handling, the
//! poll scheduler and notification server as state machines, the TLS
//! profile, the certificate extension validators and the time offset.

pub mod cert;
pub mod client;
pub mod poll;
pub mod pubsub;
pub mod response;
pub mod time;
pub mod tls;
