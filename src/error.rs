use vstd::prelude::*;

verus! {

/// Why an operation on a display handle failed.
#[derive(Clone, Copy, Debug, PartialEq, Eq, Structural)]
pub enum XrandrError {
    /// The display could not be reached or opened.
    ConnectionError,
    /// The resize-and-rotate extension is missing, or its version query failed.
    ExtensionUnavailable,
    /// A resource or information fetch gave a missing or invalid result.
    QueryError,
}

} // verus!
