//! Decisions of the effect protocol: how the outcome of a disk read, a disk
//! write, or a file-chooser dialog maps into the single message that
//! re-enters the control loop. The embedding program performs the slow
//! operation itself and feeds its plain result through these functions.

use vstd::prelude::*;

use crate::errors::{EditorError, IoErrorKind};

verus! {

/// The path of the file loaded at startup, before any message is processed.
pub open spec fn spec_default_file() -> Seq<char> {
    "scratch.txt"@
}

/// The fixed default file loaded at startup. A failure to read it surfaces
/// as an ordinary `FileOpened` error and leaves the buffer empty and dirty.
pub fn default_file() -> (r: String)
    ensures
        r@ == spec_default_file(),
{
    String::from_str("scratch.txt")
}

/// Outcome of a load effect: the text read from `path`, or the categorized
/// I/O failure, as the payload of the `FileOpened` message.
pub fn load_outcome(path: String, read: Result<String, IoErrorKind>) -> (r: Result<
    (String, String),
    EditorError,
>)
    ensures
        match read {
            Ok(text) => r matches Ok(pt) && pt.0@ == path@ && pt.1@ == text@,
            Err(k) => r == Err::<(String, String), EditorError>(EditorError::IO(k)),
        },
{
    match read {
        Ok(text) => Ok((path, text)),
        Err(k) => Err(EditorError::IO(k)),
    }
}

/// Outcome of a file-chooser dialog: the chosen path, or `DialogClosed`
/// when the user cancelled.
pub fn pick_outcome(picked: Option<String>) -> (r: Result<String, EditorError>)
    ensures
        match picked {
            Some(p) => r matches Ok(q) && q@ == p@,
            None => r == Err::<String, EditorError>(EditorError::DialogClosed),
        },
{
    match picked {
        Some(p) => Ok(p),
        None => Err(EditorError::DialogClosed),
    }
}

/// Where a save effect must write. A known path wins outright; otherwise
/// the save-as chooser's answer decides, and cancellation ends the whole
/// effect with `DialogClosed` before anything is written.
pub fn resolve_save_target(path: Option<String>, picked: Option<String>) -> (r: Result<
    String,
    EditorError,
>)
    ensures
        match path {
            Some(p) => r matches Ok(q) && q@ == p@,
            None => match picked {
                Some(p) => r matches Ok(q) && q@ == p@,
                None => r == Err::<String, EditorError>(EditorError::DialogClosed),
            },
        },
{
    match path {
        Some(p) => Ok(p),
        None => match picked {
            Some(p) => Ok(p),
            None => Err(EditorError::DialogClosed),
        },
    }
}

/// Outcome of the write step of a save effect: the path written, or the
/// categorized I/O failure, as the payload of the `FileSaved` message.
pub fn save_outcome(path: String, write: Result<(), IoErrorKind>) -> (r: Result<
    String,
    EditorError,
>)
    ensures
        match write {
            Ok(_) => r matches Ok(q) && q@ == path@,
            Err(k) => r == Err::<String, EditorError>(EditorError::IO(k)),
        },
{
    match write {
        Ok(_) => Ok(path),
        Err(k) => Err(EditorError::IO(k)),
    }
}

} // verus!
