//! XML request extraction and XML responses for an HTTP handler framework.
//!
//! The library holds the decisions: which `Content-Type` values count as XML,
//! how each way of failing is classified, and which status, media type and
//! body every outcome is answered with.

use vstd::prelude::*;

pub mod content_type;
pub mod rejection;
pub mod reply;
pub mod xml;

verus! {

} // verus!
