//! Tests of the effect-protocol decisions: how load, pick, and save
//! outcomes map into the messages that re-enter the loop.

use editor_core::effects::{
    default_file, load_outcome, pick_outcome, resolve_save_target, save_outcome,
};
use editor_core::errors::{EditorError, IoErrorKind};

#[test]
fn default_file_is_fixed() {
    assert_eq!(default_file(), "scratch.txt".to_string());
}

#[test]
fn load_success_carries_path_and_text() {
    let r = load_outcome("a.txt".to_string(), Ok("hello".to_string()));
    assert_eq!(r, Ok(("a.txt".to_string(), "hello".to_string())));
}

#[test]
fn load_failure_is_categorized() {
    let r = load_outcome("a.txt".to_string(), Err(IoErrorKind::NotFound));
    assert_eq!(r, Err(EditorError::IO(IoErrorKind::NotFound)));
    let r = load_outcome("a.txt".to_string(), Err(IoErrorKind::PermissionDenied));
    assert_eq!(r, Err(EditorError::IO(IoErrorKind::PermissionDenied)));
    let r = load_outcome("a.txt".to_string(), Err(IoErrorKind::Other));
    assert_eq!(r, Err(EditorError::IO(IoErrorKind::Other)));
}

#[test]
fn pick_cancellation_is_dialog_closed() {
    assert_eq!(pick_outcome(None), Err(EditorError::DialogClosed));
    assert_eq!(
        pick_outcome(Some("a.txt".to_string())),
        Ok("a.txt".to_string())
    );
}

#[test]
fn save_target_prefers_known_path() {
    let r = resolve_save_target(Some("a.txt".to_string()), None);
    assert_eq!(r, Ok("a.txt".to_string()));
    let r = resolve_save_target(Some("a.txt".to_string()), Some("b.txt".to_string()));
    assert_eq!(r, Ok("a.txt".to_string()));
}

#[test]
fn save_target_falls_back_to_chooser() {
    let r = resolve_save_target(None, Some("b.txt".to_string()));
    assert_eq!(r, Ok("b.txt".to_string()));
    let r = resolve_save_target(None, None);
    assert_eq!(r, Err(EditorError::DialogClosed));
}

#[test]
fn save_outcome_reports_path_or_failure() {
    let r = save_outcome("a.txt".to_string(), Ok(()));
    assert_eq!(r, Ok("a.txt".to_string()));
    let r = save_outcome("a.txt".to_string(), Err(IoErrorKind::PermissionDenied));
    assert_eq!(r, Err(EditorError::IO(IoErrorKind::PermissionDenied)));
}
