//! Grid layout engine for a dashboard workspace: placement of modules on a
//! fixed grid, automatic free-space search and an interactive resize gesture.
pub mod catalog;
pub mod grid;
pub mod kind;
pub mod layout;
pub mod market;
pub mod placed;
pub mod resize;

pub use catalog::{all_module_meta, ModuleMeta};
pub use grid::{clamp_size, snap_position, GridPosition, GridSize};
pub use layout::WorkspaceLayoutState;
pub use market::OptionKind;
pub use placed::{ModuleInstanceId, PlacedModule};
pub use resize::{ListenerAction, ResizeController, ResizeSession};
