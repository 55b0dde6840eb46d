use vstd::prelude::*;

verus! {

/// Whether material edits are mirrored onto the part on the other side.
#[derive(Clone, Copy, Debug, PartialEq, Eq, Structural)]
pub struct SymmetryMode {
    pub enabled: bool,
}

impl Default for SymmetryMode {
    fn default() -> (mode: Self)
        ensures
            !mode.enabled,
    {
        SymmetryMode { enabled: false }
    }
}

} // verus!
