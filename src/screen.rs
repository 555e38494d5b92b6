use vstd::prelude::*;

verus! {

/// Which panel has the keyboard.
#[derive(PartialEq, Eq, Structural, Clone, Copy, Debug)]
pub enum Screen {
    Issues,
    Repositories,
    Error,
}

} // verus!
