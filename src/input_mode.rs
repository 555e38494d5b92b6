use vstd::prelude::*;

verus! {

/// Whether keys are commands or text for the search box.
#[derive(PartialEq, Eq, Structural, Clone, Copy, Debug)]
pub enum InputMode {
    Normal,
    Editing,
}

} // verus!
