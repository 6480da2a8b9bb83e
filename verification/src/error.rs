//! The library's error type.

use vstd::prelude::*;

verus! {

/// An error from building or reading the index or the information schema.
#[derive(Debug)]
pub enum IndexError {
    /// A failure described by its message.
    Other(String),
}

/// The text an error carries.
pub open spec fn error_message(e: IndexError) -> Seq<char> {
    match e {
        IndexError::Other(m) => m@,
    }
}

impl IndexError {
    /// The message, as the error would display it.
    pub fn message(&self) -> (r: String)
        ensures
            r@ == error_message(*self),
    {
        match self {
            IndexError::Other(m) => m.clone(),
        }
    }
}

} // verus!
