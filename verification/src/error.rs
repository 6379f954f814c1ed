//! The ways in which a step of the dialogue or a call on the catalog can fail.

use vstd::prelude::*;

verus! {

/// Why an operation did not do what was asked.
#[derive(Clone, Copy, Debug, PartialEq, Eq, Structural)]
pub enum Error {
    /// The text sent for a step was empty or could not be read.
    Validation,
    /// No row has the identifier that was looked up.
    NotFound,
    /// The store could not carry out the statement.
    Storage,
    /// A button press named a route that is not known, or lacked its argument.
    Routing,
}

} // verus!
