//! Routing and tunneling decisions of a forward HTTP proxy.
//!
//! The library decides, for each proxied request, which route entry to try,
//! what to do next after each outcome, and which upstream a static subnet
//! table selects. The network work itself is performed by the caller.
use vstd::prelude::*;

pub mod authority;
pub mod fallback;
pub mod resolver;
pub mod route;
pub mod session;
pub mod subnet;

verus! {

} // verus!
