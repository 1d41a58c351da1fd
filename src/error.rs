use vstd::prelude::*;

verus! {

/// The fatal failures of an enumeration. Each native failure carries the
/// `HRESULT` code that the failing call returned.
#[derive(Debug, Clone, Copy, PartialEq, Eq, Structural)]
pub enum HyperVError {
    /// Initialising the management runtime or its security posture failed.
    Initialization(i32),
    /// The locator could not be created, or the namespace refused the connection.
    Connection(i32),
    /// The namespace rejected the query text.
    Query(i32),
    /// Fetching, formatting or releasing a field value failed for a reason
    /// other than the field's absence or its type.
    Extraction(i32),
    /// A formatted field value was not well-formed UTF-16.
    UndecodableText,
    /// The management runtime is not initialised (or has been released), so
    /// nothing may touch it.
    SubsystemUnavailable,
}

} // verus!
