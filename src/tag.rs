use vstd::prelude::*;

verus! {

/// Failures of the tag operations.
#[derive(Debug, Clone, PartialEq, Eq)]
pub enum TagError {
    /// No tag has this id.
    TagNotFound(i32),
    /// The store failed; the text describes how.
    DatabaseError(String),
}

impl TagError {
    /// The human-readable description of the error.
    pub fn message(&self) -> (r: &'static str)
        ensures
            self is TagNotFound ==> r@ == "Tag not found"@,
            self is DatabaseError ==> r@ == "Database error"@,
    {
        proof {
            reveal_strlit("Tag not found");
            reveal_strlit("Database error");
        }
        match self {
            TagError::TagNotFound(_) => "Tag not found",
            TagError::DatabaseError(_) => "Database error",
        }
    }
}

} // verus!
