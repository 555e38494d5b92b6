use vstd::prelude::*;

verus! {

/// What can go wrong while the application runs and is shown to the user.
#[derive(PartialEq, Eq, Structural, Clone, Copy, Debug)]
pub enum Errors {
    FetchRequestError,
}

impl Errors {
    /// The message shown for the error.
    pub open spec fn message(&self) -> Seq<char> {
        match self {
            Errors::FetchRequestError => "Failed to fetch requested content."@,
        }
    }

    /// The message shown for the error.
    pub fn to_string(&self) -> (r: String)
        ensures
            r@ == self.message(),
    {
        match self {
            Errors::FetchRequestError => String::from_str("Failed to fetch requested content."),
        }
    }
}

} // verus!
