//! The background-only macOS platform driver.
pub mod actions;
pub mod attempt;
pub mod elements;
pub mod focus;
pub mod frames;
pub mod interaction;
pub mod lifecycle;
pub mod menu;
pub mod observation;
pub mod observer;
pub mod posture;
pub mod settlement;
pub mod snapshot;
pub mod target;

use vstd::prelude::*;

use crate::contracts;
use crate::contracts::CapabilityCell;
use crate::driver::actions::keyboard;
use crate::driver::actions::keyboard::keyboard_capability_cells;
use crate::driver::actions::{pointer_capability_cells, semantic_capability_cells};

verus! {

/// The driver on one host.
#[derive(Debug)]
pub struct MacDriver {
    /// The processor as the host reports it.
    pub architecture: String,
}

/// The cells that a driver publishes: semantic ones, then those of the pointer,
/// then those of the keyboard.
pub open spec fn published_cells(os_version: Seq<char>, architecture: Seq<char>) -> Seq<
    contracts::CellView,
> {
    actions::semantic_cells(os_version) + actions::pointer_cells(
        os_version,
        focus::architecture_text(architecture),
    ) + keyboard::keyboard_cells(os_version)
}

impl MacDriver {
    pub fn new(architecture: &str) -> (driver: MacDriver)
        ensures
            driver.architecture@ == architecture@,
    {
        MacDriver { architecture: architecture.to_owned() }
    }

    /// The capability matrix of the driver on one version of the system.
    pub fn capability_cells(&self, os_version: &str) -> (cells: Vec<CapabilityCell>)
        ensures
            contracts::cells_view(cells@) == published_cells(os_version@, self.architecture@),
    {
        let mut cells: Vec<CapabilityCell> = semantic_capability_cells(os_version);
        let mut pointer: Vec<CapabilityCell> = pointer_capability_cells(
            os_version,
            self.architecture.as_str(),
        );
        let mut keys: Vec<CapabilityCell> = keyboard_capability_cells(os_version);
        let ghost parts = (cells@, pointer@, keys@);
        cells.append(&mut pointer);
        cells.append(&mut keys);
        assert(contracts::cells_view(cells@) =~= contracts::cells_view(parts.0)
            + contracts::cells_view(parts.1) + contracts::cells_view(parts.2));
        cells
    }
}

} // verus!
