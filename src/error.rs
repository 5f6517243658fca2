use vstd::prelude::*;
use vstd::string::StringExecFns;

verus! {

/// Why an operation on a list's items was refused.
#[derive(Debug, Clone, Copy, PartialEq, Eq, Structural)]
#[non_exhaustive]
pub enum ToDoSelectionError {
    /// No item of the list has the name asked for.
    ToDoNotFound,
    /// An item of that name is already in the list and replacing it was not asked for.
    ToDoAlreadyPresent,
}

impl ToDoSelectionError {
    /// The message shown to a user for this error.
    pub open spec fn message_spec(self) -> Seq<char> {
        match self {
            ToDoSelectionError::ToDoNotFound => "The expected To-Do item does not exist."@,
            ToDoSelectionError::ToDoAlreadyPresent => "The submitted To-Do item already exists."@,
        }
    }

    /// The message shown to a user for this error.
    pub fn message(&self) -> (r: String)
        ensures
            r@ == self.message_spec(),
    {
        match self {
            ToDoSelectionError::ToDoNotFound => String::from_str("The expected To-Do item does not exist."),
            ToDoSelectionError::ToDoAlreadyPresent => String::from_str(
                "The submitted To-Do item already exists.",
            ),
        }
    }
}

} // verus!
