use vstd::prelude::*;

verus! {

/// The icons that buttons of the picker and the rule manager carry.
#[derive(Debug, Clone, Copy, PartialEq, Eq, Structural)]
pub enum ICON {
    Profile,
    Add,
    Remove,
    Back,
    Refresh,
}

} // verus!
