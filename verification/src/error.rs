//! The errors of the bridge between host and guest.

use vstd::prelude::*;

verus! {

/// An exception that guest code threw, or the reason it rejected a
/// promise with: its message, and its stack where the guest gave one.
#[derive(Debug, Clone, PartialEq, Eq)]
pub struct JsError {
    pub message: String,
    pub stack: Option<String>,
}

/// What goes wrong between host and guest.
#[derive(Debug, Clone, PartialEq, Eq)]
pub enum Error {
    /// A guest value did not have the expected shape or did not fit the
    /// target type.
    JsonDecode(String),
    /// A promise did not settle within the budget, given in milliseconds.
    Timeout(u64),
    /// Guest code threw or rejected.
    JsError(JsError),
    /// A handle on a guest value was used with another runtime than the
    /// one that it came from.
    WrongRuntime { expected: u64, found: u64 },
    /// A path could not be made into a module specifier.
    ModuleNotFound(String),
}

} // verus!
