//! End-to-end tests of the update controller: the dirty lifecycle, error
//! recovery, and the documented save/open race.

use editor_core::content::Action;
use editor_core::controller::{Editor, Effect, Message};
use editor_core::errors::{EditorError, IoErrorKind};

fn chars(s: &str) -> Vec<char> {
    s.chars().collect()
}

fn opened(path: &str, text: &str) -> Message {
    Message::FileOpened(Ok((path.to_string(), text.to_string())))
}

#[test]
fn startup_is_empty_dirty_and_loads_default() {
    let (ed, eff) = Editor::new();
    assert_eq!(eff, Effect::Load("scratch.txt".to_string()));
    let doc = ed.document();
    assert!(doc.is_dirty());
    assert!(doc.path().is_none());
    assert!(doc.last_error().is_none());
    assert_eq!(doc.text(), chars(""));
    assert_eq!(doc.cursor_position(), (0, 0));
}

#[test]
fn edit_sets_dirty_and_stays_until_successful_save() {
    let (mut ed, _) = Editor::new();
    ed.update(opened("a.txt", "hi"));
    assert!(!ed.document().is_dirty());
    ed.update(Message::Edit(Action::Insert('x')));
    assert!(ed.document().is_dirty());
    // Messages that are no successful load or save keep the flag set.
    ed.update(Message::Edit(Action::MoveLeft));
    ed.update(Message::ThemeSelected(editor_core::controller::Theme::Base16Ocean));
    ed.update(Message::FileOpened(Err(EditorError::IO(IoErrorKind::NotFound))));
    ed.update(Message::FileSaved(Err(EditorError::DialogClosed)));
    let _ = ed.update(Message::Save);
    assert!(ed.document().is_dirty());
    // A successful save clears it.
    ed.update(Message::FileSaved(Ok("a.txt".to_string())));
    assert!(!ed.document().is_dirty());
}

#[test]
fn cursor_only_edit_does_not_dirty() {
    let (mut ed, _) = Editor::new();
    ed.update(opened("a.txt", "hi"));
    assert!(!ed.document().is_dirty());
    ed.update(Message::Edit(Action::MoveRight));
    ed.update(Message::Edit(Action::MoveLeft));
    assert!(!ed.document().is_dirty());
}

#[test]
fn no_path_implies_dirty_after_new() {
    let (mut ed, _) = Editor::new();
    ed.update(opened("a.txt", "hello"));
    ed.update(Message::New);
    let doc = ed.document();
    assert!(doc.path().is_none());
    assert!(doc.is_dirty());
}

#[test]
fn new_resets_identity_regardless_of_prior_state() {
    let (mut ed, _) = Editor::new();
    ed.update(opened("a.txt", "hello"));
    ed.update(Message::Edit(Action::Insert('!')));
    ed.update(Message::New);
    let doc = ed.document();
    assert!(doc.path().is_none());
    assert_eq!(doc.text(), chars(""));
    assert!(doc.is_dirty());
    assert_eq!(doc.cursor_position(), (0, 0));
}

#[test]
fn round_trip_load_save_is_clean() {
    let (mut ed, _) = Editor::new();
    ed.update(opened("p.txt", "hello"));
    let eff = ed.update(Message::Save);
    assert_eq!(
        eff,
        Some(Effect::Save(Some("p.txt".to_string()), chars("hello")))
    );
    ed.update(Message::FileSaved(Ok("p.txt".to_string())));
    let doc = ed.document();
    assert!(!doc.is_dirty());
    assert_eq!(doc.path().map(|p| p.as_str()), Some("p.txt"));
    assert_eq!(doc.text(), chars("hello"));
}

#[test]
fn failed_open_is_not_fatal() {
    let (mut ed, _) = Editor::new();
    ed.update(opened("a.txt", "abc"));
    let before = ed.document().text();
    ed.update(Message::FileOpened(Err(EditorError::IO(IoErrorKind::NotFound))));
    let doc = ed.document();
    assert_eq!(doc.text(), before);
    assert_eq!(doc.path().map(|p| p.as_str()), Some("a.txt"));
    assert_eq!(
        doc.last_error(),
        Some(EditorError::IO(IoErrorKind::NotFound))
    );
    // The loop stays live: the next edit lands normally and clears the error.
    ed.update(Message::Edit(Action::Insert('x')));
    let doc = ed.document();
    assert_eq!(doc.text(), chars("xabc"));
    assert!(doc.last_error().is_none());
}

#[test]
fn cancelled_save_changes_nothing_but_error() {
    let (mut ed, _) = Editor::new();
    ed.update(opened("a.txt", "abc"));
    ed.update(Message::FileSaved(Err(EditorError::DialogClosed)));
    let doc = ed.document();
    assert_eq!(doc.path().map(|p| p.as_str()), Some("a.txt"));
    assert_eq!(doc.text(), chars("abc"));
    assert!(!doc.is_dirty());
    assert_eq!(doc.last_error(), Some(EditorError::DialogClosed));
}

#[test]
fn save_open_race_lands_stale_save() {
    // Start with path = Some("a.txt"), dirty, content "X".
    let (mut ed, _) = Editor::new();
    ed.update(opened("a.txt", "X"));
    ed.update(Message::Edit(Action::MoveRight));
    // Make it dirty without changing the text: insert then backspace.
    ed.update(Message::Edit(Action::Insert('q')));
    ed.update(Message::Edit(Action::Backspace));
    assert!(ed.document().is_dirty());
    assert_eq!(ed.document().text(), chars("X"));
    // Issue Save: the effect captures the snapshot "X".
    let eff = ed.update(Message::Save);
    assert_eq!(
        eff,
        Some(Effect::Save(Some("a.txt".to_string()), chars("X")))
    );
    // Before the save resolves, an Open completes with ("b.txt", "Y").
    ed.update(opened("b.txt", "Y"));
    let doc = ed.document();
    assert_eq!(doc.path().map(|p| p.as_str()), Some("b.txt"));
    assert_eq!(doc.text(), chars("Y"));
    assert!(!doc.is_dirty());
    // The delayed save outcome arrives: path flips back, dirty clears, and
    // the buffer keeps "Y" — the documented race outcome.
    ed.update(Message::FileSaved(Ok("a.txt".to_string())));
    let doc = ed.document();
    assert_eq!(doc.path().map(|p| p.as_str()), Some("a.txt"));
    assert!(!doc.is_dirty());
    assert_eq!(doc.text(), chars("Y"));
}

#[test]
fn open_schedules_pick_and_load() {
    let (mut ed, _) = Editor::new();
    let eff = ed.update(Message::Open);
    assert_eq!(eff, Some(Effect::PickAndLoad));
}

#[test]
fn save_without_path_captures_no_path() {
    let (mut ed, _) = Editor::new();
    ed.update(Message::Edit(Action::Insert('z')));
    let eff = ed.update(Message::Save);
    assert_eq!(eff, Some(Effect::Save(None, chars("z"))));
}
