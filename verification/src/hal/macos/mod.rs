pub mod accessibility;
pub mod app_manager;
pub mod capture;
pub mod input;
pub mod virtual_display;

use vstd::prelude::*;

verus! {

/// The macOS driver (Quartz events, window lists and accessibility).
pub struct MacosDriver;

impl MacosDriver {
    pub fn new() -> (r: Self) {
        MacosDriver
    }
}

} // verus!
