//! Market data vocabulary shared with the module views.
use vstd::prelude::*;

verus! {

/// Right of an option contract.
#[derive(Clone, Copy, Debug, Default, PartialEq, Eq, Structural)]
pub enum OptionKind {
    Call,
    #[default]
    Put,
}

} // verus!
