use vstd::prelude::*;

verus! {

/// Why a query gave no record.
#[derive(Clone, Copy, Debug, PartialEq, Eq, Structural)]
pub enum DisplayError {
    /// The operating system could not list its displays.
    Enumeration,
    /// The displays were listed and none of them matches.
    NotFound,
}

impl DisplayError {
    /// The text that `message` returns.
    pub open spec fn spec_message(self) -> Seq<char> {
        match self {
            DisplayError::Enumeration => "Enumerate displays failed"@,
            DisplayError::NotFound => "Get display info failed"@,
        }
    }

    /// A short description of the failure for people.
    pub fn message(&self) -> (text: String)
        ensures
            text@ == self.spec_message(),
    {
        match self {
            DisplayError::Enumeration => "Enumerate displays failed".to_owned(),
            DisplayError::NotFound => "Get display info failed".to_owned(),
        }
    }
}

} // verus!
