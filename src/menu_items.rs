use vstd::prelude::*;

verus! {

/// The entries of the menu bar.
#[derive(PartialEq, Eq, Structural, Clone, Copy, Debug)]
pub enum MenuItems {
    Issues,
}

impl MenuItems {
    /// Every menu entry, in the order the bar shows them.
    pub fn iterator() -> (r: Vec<MenuItems>)
        ensures
            r@ == seq![MenuItems::Issues],
    {
        let r = vec![MenuItems::Issues];
        assert(r@ =~= seq![MenuItems::Issues]);
        r
    }

    /// The label the menu bar shows for the entry.
    pub fn to_string(&self) -> (r: String)
        ensures
            r@ == "[I]ssues"@,
    {
        match self {
            MenuItems::Issues => String::from_str("[I]ssues"),
        }
    }
}

} // verus!
