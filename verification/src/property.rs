//! Element properties.
use vstd::prelude::*;

verus! {

/// How setting a property went.
#[derive(Debug, Clone, Copy, PartialEq, Eq, Structural)]
pub enum PropertyUpdate {
    /// The value was taken.
    Stored,
    /// The property takes a string, and the value is none.
    WrongType,
    /// There is no such property.
    Unknown,
}

/// What a property reads. A property that does not exist reads as empty text.
#[derive(Debug)]
pub struct PropertyRead {
    pub value: Option<String>,
    pub known: bool,
}

} // verus!
