//! Module instances as they stand on the grid.
use vstd::prelude::*;

use crate::grid::{GridPosition, GridSize};

verus! {

/// Unique id for a placed module instance.
#[derive(Clone, Copy, Debug, PartialEq, Eq, Hash, Structural)]
pub struct ModuleInstanceId(pub u64);

/// A module instance placed on the grid.
#[derive(Clone, Debug)]
pub struct PlacedModule {
    pub id: ModuleInstanceId,
    /// Module type key; opaque to the layout engine.
    pub kind: String,
    pub position: GridPosition,
    pub size: GridSize,
}

impl PlacedModule {
    pub fn new(id: ModuleInstanceId, kind: String, position: GridPosition, size: GridSize) -> (r:
        Self)
        ensures
            r == (PlacedModule { id, kind, position, size }),
    {
        PlacedModule { id, kind, position, size }
    }

    /// The same module anchored at `p`.
    pub open spec fn with_position(self, p: GridPosition) -> Self {
        PlacedModule { position: p, ..self }
    }

    /// The same module spanning `s`.
    pub open spec fn with_size(self, s: GridSize) -> Self {
        PlacedModule { size: s, ..self }
    }

    /// The module's footprint holds cell (`c`, `r`).
    pub open spec fn covers(self, c: int, r: int) -> bool {
        self.position.col <= c < self.position.col + self.size.w && self.position.row <= r
            < self.position.row + self.size.h
    }
}

} // verus!
