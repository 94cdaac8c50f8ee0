//! The fault description that crosses the boundary between this
//! component and the architecture layer's panic mechanism.

use vstd::prelude::*;

verus! {

/// Where in the source a fault was raised, when the fault-raising
/// mechanism recorded a location.
pub struct SourceLocation {
    pub file: String,
    pub line: u32,
    pub column: u32,
}

/// An unrecoverable fault: the message carried to the architecture
/// layer's panic mechanism, and the source location where the fault was
/// raised, if one was recorded.
pub struct Fault {
    pub message: String,
    pub location: Option<SourceLocation>,
}

/// The message reported while runtime bring-up does not exist yet.
pub open spec fn missing_runtime_message() -> Seq<char> {
    "runtime bring-up is not implemented"@
}

/// The fault the entry point raises in its placeholder state. It names
/// the missing implementation and carries no source location: the fault
/// is a deliberate decision of the entry point, not a trap caught by the
/// language's fault-raising mechanism.
pub fn missing_runtime_fault() -> (f: Fault)
    ensures
        f.message@ == missing_runtime_message(),
        f.location is None,
{
    Fault { message: "runtime bring-up is not implemented".to_owned(), location: None }
}

} // verus!
