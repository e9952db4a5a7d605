//! Policy, protocol and planning logic of a desktop-automation MCP daemon.
use vstd::prelude::*;

pub mod config;
pub mod hal;
pub mod security;
pub mod server;
pub mod utils;

verus! {

/// The package version reported to MCP clients.
pub fn version() -> (r: &'static str)
    ensures
        r@ == "0.1.0"@,
{
    "0.1.0"
}

} // verus!
