pub mod firewall;

use vstd::prelude::*;

verus! {

/// The Linux driver (Wayland portals, PipeWire, AT-SPI2).
pub struct WaylandDriver;

impl WaylandDriver {
    pub fn new() -> (r: Self) {
        WaylandDriver
    }
}

} // verus!
