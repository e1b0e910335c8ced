//! A verified client core for a cloud home-climate API exporter.
//!
//! The library holds the logic of the exporter: the OAuth2 device-code
//! authentication state machine, token lifecycle management, request
//! construction, response conversion into a stable internal model, history
//! aggregation, and the gauge registry that the metrics endpoint renders.
//! Network and file transport live outside the library and hand it plain
//! values.

pub mod api;
pub mod client;
pub mod config;
pub mod convert;
pub mod date;
pub mod decimal;
pub mod history;
pub mod metrics;
pub mod model;
pub mod session;

use vstd::prelude::*;

verus! {

/// The fixed safety margin, in seconds, subtracted from a token's validity
/// before computing its refresh deadline, so a refresh always happens
/// strictly before the token expires.
pub const REFRESH_SAFETY_MARGIN_SECS: u64 = 10;

} // verus!
