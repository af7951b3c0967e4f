//! A verified command bridge for a desktop UI shell.
//!
//! The bridge exposes two host-side operations: fetching an item catalog and
//! converting a currency amount. Each operation performs one outbound HTTP
//! request; the shell carries out the request itself and hands the outcome
//! (transport failure, or status plus body) to the verified functions here,
//! which decide what the operation returns.

pub mod bridge;
pub mod error;
pub mod http;
pub mod json;
pub mod text;
