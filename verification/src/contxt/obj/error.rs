//! Why an object file cannot be planned.

use vstd::prelude::*;
use vstd::string::StringExecFns;

verus! {

/// Why an object file cannot be planned.
#[derive(Debug, Clone, PartialEq, Eq, PartialOrd, Ord)]
pub enum ObjectError {
    /// A symbol is declared as defined here, and nothing defines it.
    DeclWithoutSymbol,
    /// A link starts in a symbol that is not defined here.
    UnknownFunction(String),
    /// A link refers to a symbol that is not declared.
    UnknownTargetSymbol(String),
}

/// An error as plain values.
pub enum ObjectFault {
    DeclWithoutSymbol,
    UnknownFunction(Seq<char>),
    UnknownTargetSymbol(Seq<char>),
}

impl View for ObjectError {
    type V = ObjectFault;

    open spec fn view(&self) -> ObjectFault {
        match self {
            ObjectError::DeclWithoutSymbol => ObjectFault::DeclWithoutSymbol,
            ObjectError::UnknownFunction(name) => ObjectFault::UnknownFunction(name@),
            ObjectError::UnknownTargetSymbol(name) => ObjectFault::UnknownTargetSymbol(name@),
        }
    }
}

impl ObjectError {
    /// The message for this error.
    pub open spec fn spec_message(self) -> Seq<char> {
        match self {
            ObjectError::DeclWithoutSymbol => "got decleration without symbol"@,
            ObjectError::UnknownFunction(name) => "unknown function "@ + name@,
            ObjectError::UnknownTargetSymbol(name) => "unknown target symbol "@ + name@,
        }
    }

    /// The message for this error.
    pub fn message(&self) -> (text: String)
        ensures
            text@ == self.spec_message(),
    {
        match self {
            ObjectError::DeclWithoutSymbol => String::from_str("got decleration without symbol"),
            ObjectError::UnknownFunction(name) => {
                String::from_str("unknown function ").concat(name.as_str())
            },
            ObjectError::UnknownTargetSymbol(name) => {
                String::from_str("unknown target symbol ").concat(name.as_str())
            },
        }
    }
}

} // verus!
