//! Error taxonomy carried by effect outcomes and stored in the document.

use vstd::prelude::*;

verus! {

/// Category of an operating-system I/O failure, derived from the raw OS
/// error before it re-enters the control loop. The controller never sees a
/// raw OS error object, so outcomes stay comparable and deterministic.
#[derive(Clone, Copy, Debug, PartialEq, Eq, Structural)]
pub enum IoErrorKind {
    /// The file does not exist.
    NotFound,
    /// The caller lacks permission for the file.
    PermissionDenied,
    /// Any other failure, including content that is not valid UTF-8.
    Other,
}

/// A failure reported by an asynchronous effect. It is recorded in the
/// document's `last_error` and never terminates the loop.
#[derive(Clone, Copy, Debug, PartialEq, Eq, Structural)]
pub enum EditorError {
    /// The user cancelled a file-chooser dialog: a neutral no-op.
    DialogClosed,
    /// A categorized I/O failure from a load or a save.
    IO(IoErrorKind),
}

} // verus!
