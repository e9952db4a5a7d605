//! The registry of virtual displays the daemon created, and display naming.
use vstd::prelude::*;
use vstd::string::StringExecFns;
use std::collections::HashMap;
use crate::hal::driver::DriverError;
use crate::utils::text::{decimal, decimal_string};

verus! {

broadcast use vstd::std_specs::hash::group_hash_axioms;

/// The virtual displays the daemon created: each display id with the handle of the
/// display object that keeps it alive.
pub struct DisplayRegistry {
    displays: HashMap<u32, usize>,
}

impl View for DisplayRegistry {
    type V = Map<u32, usize>;

    closed spec fn view(&self) -> Map<u32, usize> {
        self.displays@
    }
}

/// The message for a display id the registry does not hold.
pub open spec fn unknown_display_message(display_id: u32) -> Seq<char> {
    "Virtual display with ID "@ + decimal(display_id as nat) + " not found"@
}

impl DisplayRegistry {
    pub fn new() -> (r: Self)
        ensures
            r@ == Map::<u32, usize>::empty(),
    {
        DisplayRegistry { displays: HashMap::new() }
    }

    /// Records a created display, replacing any earlier handle under the same id.
    pub fn register(&mut self, display_id: u32, handle: usize)
        ensures
            final(self)@ == old(self)@.insert(display_id, handle),
    {
        self.displays.insert(display_id, handle);
    }

    /// Whether the daemon created the display.
    pub fn is_virtual(&self, display_id: u32) -> (r: bool)
        ensures
            r == self@.contains_key(display_id),
    {
        self.displays.contains_key(&display_id)
    }

    /// Removes a display and gives back its handle; an id the registry does not hold is an error.
    pub fn take(&mut self, display_id: u32) -> (r: Result<usize, DriverError>)
        ensures
            old(self)@.contains_key(display_id) ==> r == Ok::<usize, DriverError>(old(self)@[display_id])
                && final(self)@ == old(self)@.remove(display_id),
            !old(self)@.contains_key(display_id) ==> final(self)@ == old(self)@ && (r matches Err(
                DriverError::OsError(m),
            ) && m@ == unknown_display_message(display_id)),
    {
        match self.displays.remove(&display_id) {
            Some(handle) => Ok(handle),
            None => {
                let m = String::from_str("Virtual display with ID ").concat(
                    decimal_string(display_id as u64).as_str(),
                ).concat(" not found");
                Err(DriverError::OsError(m))
            },
        }
    }
}

/// A display's listed name: virtual displays by id, then the main display, then others by id.
pub open spec fn display_name_spec(display_id: u32, is_virtual: bool, is_main: bool) -> Seq<char> {
    if is_virtual {
        "Virtual Display ("@ + decimal(display_id as nat) + ")"@
    } else if is_main {
        "Main Display"@
    } else {
        "Display ("@ + decimal(display_id as nat) + ")"@
    }
}

pub fn display_name(display_id: u32, is_virtual: bool, is_main: bool) -> (r: String)
    ensures
        r@ == display_name_spec(display_id, is_virtual, is_main),
{
    if is_virtual {
        String::from_str("Virtual Display (").concat(decimal_string(display_id as u64).as_str()).concat(")")
    } else if is_main {
        String::from_str("Main Display")
    } else {
        String::from_str("Display (").concat(decimal_string(display_id as u64).as_str()).concat(")")
    }
}

/// The name a new virtual display gets: the requested one, or "CUMD-Virtual-Display".
pub fn virtual_display_name(name: Option<&str>) -> (r: &str)
    ensures
        r@ == match name {
            Some(n) => n@,
            None => "CUMD-Virtual-Display"@,
        },
{
    match name {
        Some(n) => n,
        None => "CUMD-Virtual-Display",
    }
}

/// A registered display is found again with the handle it was registered with, and taking
/// it out leaves the other displays as they were.
pub proof fn law_registered_display_taken_back(reg: Map<u32, usize>, display_id: u32, handle: usize)
    ensures
        reg.insert(display_id, handle).contains_key(display_id),
        reg.insert(display_id, handle)[display_id] == handle,
        reg.insert(display_id, handle).remove(display_id) == reg.remove(display_id),
{
    assert(reg.insert(display_id, handle).remove(display_id) =~= reg.remove(display_id));
}

} // verus!
