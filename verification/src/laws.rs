//! The laws of the editor state machine, stated over the model and proved
//! once for every state, message, and path: the dirty-flag lifecycle, the
//! reachable-state invariant, error recovery, and the documented outcome of
//! the save/open race.

use vstd::prelude::*;

use crate::content::{lemma_apply_wf, Action, ContentModel};
use crate::controller::{step, step_effect, EditorModel, EffectModel, MsgModel};
use crate::errors::{EditorError, IoErrorKind};

verus! {

/// The state after a whole sequence of messages, consumed strictly in
/// order.
pub open spec fn run(s: EditorModel, msgs: Seq<MsgModel>) -> EditorModel
    decreases msgs.len(),
{
    if msgs.len() == 0 {
        s
    } else {
        run(step(s, msgs[0]), msgs.drop_first())
    }
}

/// A message whose consumption may clear the dirty flag: only a successful
/// load or a successful save.
pub open spec fn cleans(m: MsgModel) -> bool {
    ||| m matches MsgModel::FileOpened(Ok(_))
    ||| m matches MsgModel::FileSaved(Ok(_))
}

/// One step preserves the editor invariant, whatever the message.
pub proof fn lemma_step_preserves_inv(s: EditorModel, m: MsgModel)
    requires
        s.inv(),
    ensures
        step(s, m).inv(),
{
    if let MsgModel::Edit(a) = m {
        lemma_apply_wf(s.doc.content, a);
    }
}

/// A whole run preserves the editor invariant.
pub proof fn lemma_run_preserves_inv(s: EditorModel, msgs: Seq<MsgModel>)
    requires
        s.inv(),
    ensures
        run(s, msgs).inv(),
    decreases msgs.len(),
{
    if msgs.len() > 0 {
        lemma_step_preserves_inv(s, msgs[0]);
        lemma_run_preserves_inv(step(s, msgs[0]), msgs.drop_first());
    }
}

/// In every state reachable from startup, a document without a backing
/// file is dirty.
pub proof fn lemma_no_path_implies_dirty(msgs: Seq<MsgModel>)
    ensures
        run(EditorModel::init(), msgs).doc.path is None ==> run(
            EditorModel::init(),
            msgs,
        ).doc.dirty,
{
    lemma_run_preserves_inv(EditorModel::init(), msgs);
}

/// The backing path moves only on "New" or a successful load or save: no
/// failed or cancelled effect, and no edit, ever changes it.
pub proof fn lemma_path_stable(s: EditorModel, m: MsgModel)
    requires
        !(m matches MsgModel::New),
        !cleans(m),
    ensures
        step(s, m).doc.path == s.doc.path,
{
}

/// A content-changing edit marks the document dirty, in every state.
pub proof fn lemma_edit_dirties(s: EditorModel, a: Action)
    requires
        a.spec_is_edit(),
    ensures
        step(s, MsgModel::Edit(a)).doc.dirty,
{
}

/// Once dirty, the document stays dirty across any sequence of messages
/// that holds no successful load and no successful save.
pub proof fn lemma_dirty_persists(s: EditorModel, msgs: Seq<MsgModel>)
    requires
        s.doc.dirty,
        forall|i: int| 0 <= i < msgs.len() ==> !cleans(#[trigger] msgs[i]),
    ensures
        run(s, msgs).doc.dirty,
    decreases msgs.len(),
{
    if msgs.len() > 0 {
        assert(!cleans(msgs[0]));
        assert(step(s, msgs[0]).doc.dirty);
        assert forall|i: int| 0 <= i < msgs.drop_first().len() implies !cleans(
            #[trigger] msgs.drop_first()[i],
        ) by {
            assert(msgs.drop_first()[i] == msgs[i + 1]);
        }
        lemma_dirty_persists(step(s, msgs[0]), msgs.drop_first());
    }
}

/// The dirty-flag lifecycle in one piece: after a content-changing edit the
/// document is dirty and remains so until the next successful load or save.
pub proof fn lemma_dirty_invariant(s: EditorModel, a: Action, msgs: Seq<MsgModel>)
    requires
        a.spec_is_edit(),
        forall|i: int| 0 <= i < msgs.len() ==> !cleans(#[trigger] msgs[i]),
    ensures
        run(step(s, MsgModel::Edit(a)), msgs).doc.dirty,
{
    lemma_edit_dirties(s, a);
    lemma_dirty_persists(step(s, MsgModel::Edit(a)), msgs);
}

/// "New" resets the document's identity: no path, empty buffer, dirty —
/// whatever the prior state.
pub proof fn lemma_new_resets_identity(s: EditorModel)
    ensures
        step(s, MsgModel::New).doc.path is None,
        step(s, MsgModel::New).doc.content == ContentModel::empty(),
        step(s, MsgModel::New).doc.dirty,
{
}

/// Round trip: loading text from a path and saving it back untouched ends
/// clean, with that path, with the text intact.
pub proof fn lemma_save_round_trip(s: EditorModel, p: Seq<char>, t: Seq<char>)
    ensures
        ({
            let s1 = step(s, MsgModel::FileOpened(Ok((p, t))));
            let s2 = step(s1, MsgModel::Save);
            let s3 = step(s2, MsgModel::FileSaved(Ok(p)));
            &&& step_effect(s1, MsgModel::Save) == Some(EffectModel::Save(Some(p), t))
            &&& !s3.doc.dirty
            &&& s3.doc.path == Some(p)
            &&& s3.doc.content.text == t
        }),
{
}

/// A failed load is not fatal: it changes nothing but the recorded error,
/// and the loop accepts the next edit exactly as it would have before.
pub proof fn lemma_error_non_fatal(s: EditorModel, k: IoErrorKind, a: Action)
    ensures
        ({
            let s1 = step(s, MsgModel::FileOpened(Err(EditorError::IO(k))));
            &&& s1.doc.path == s.doc.path
            &&& s1.doc.content == s.doc.content
            &&& s1.doc.dirty == s.doc.dirty
            &&& s1.doc.error == Some(EditorError::IO(k))
            &&& step(s1, MsgModel::Edit(a)).doc.content == s.doc.content.apply(a)
            &&& step(s1, MsgModel::Edit(a)).doc.error is None
        }),
{
}

/// A cancelled save never mutates the path, the buffer, or the dirty flag;
/// it only records the cancellation.
pub proof fn lemma_cancel_is_noop(s: EditorModel)
    ensures
        ({
            let s1 = step(s, MsgModel::FileSaved(Err(EditorError::DialogClosed)));
            &&& s1.doc.path == s.doc.path
            &&& s1.doc.content == s.doc.content
            &&& s1.doc.dirty == s.doc.dirty
            &&& s1.doc.error == Some(EditorError::DialogClosed)
        }),
{
}

/// The documented save/open race: a save scheduled before an open completes
/// still lands when its outcome arrives, taking the path back to the saved
/// file and clearing the dirty flag while the buffer keeps the newly opened
/// text. This outcome is intentional until specified otherwise.
pub proof fn lemma_save_open_race(
    s: EditorModel,
    a: Seq<char>,
    x: Seq<char>,
    b: Seq<char>,
    y: Seq<char>,
)
    requires
        s.doc.path == Some(a),
        s.doc.dirty,
        s.doc.content.text == x,
    ensures
        ({
            let s1 = step(s, MsgModel::Save);
            let s2 = step(s1, MsgModel::FileOpened(Ok((b, y))));
            let s3 = step(s2, MsgModel::FileSaved(Ok(a)));
            &&& step_effect(s, MsgModel::Save) == Some(EffectModel::Save(Some(a), x))
            &&& s2.doc.path == Some(b)
            &&& s2.doc.content.text == y
            &&& !s2.doc.dirty
            &&& s3.doc.path == Some(a)
            &&& !s3.doc.dirty
            &&& s3.doc.content.text == y
        }),
{
}

} // verus!
