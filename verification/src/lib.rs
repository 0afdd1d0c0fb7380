//! The verified core of a text-intelligence web service: session tokens (HS256 JWTs),
//! request validation for the Deepgram Read API, the URL of that API call, and every reply
//! the service sends. Network, files, environment and JSON rendering stay with the caller.

use vstd::prelude::*;

pub mod analysis;
pub mod config;
pub mod reply;
pub mod session;
pub mod text;

verus! {
} // verus!
