//! The document: text buffer, optional backing file path, dirty flag, and
//! the last error seen by an effect.

use vstd::prelude::*;

use crate::content::{Action, Content, ContentModel};
use crate::errors::EditorError;

verus! {

/// Mathematical model of the document.
#[verifier::ext_equal]
pub ghost struct DocModel {
    /// Where the buffer was last loaded from or saved to; `None` for a
    /// buffer that has never touched disk.
    pub path: Option<Seq<char>>,
    /// The text buffer and its cursor.
    pub content: ContentModel,
    /// True iff the buffer's contents may differ from the file at `path`,
    /// or there is no file yet.
    pub dirty: bool,
    /// The most recent effect failure, cleared by the next edit.
    pub error: Option<EditorError>,
}

impl DocModel {
    /// Document invariant: the cursor is in bounds, and a buffer without a
    /// backing file is always dirty.
    pub open spec fn inv(self) -> bool {
        &&& self.content.wf()
        &&& self.path is None ==> self.dirty
    }

    /// The document as created at startup: empty, no path, dirty.
    pub open spec fn init() -> DocModel {
        DocModel { path: None, content: ContentModel::empty(), dirty: true, error: None }
    }

    /// After one editing action: the buffer changes, the dirty flag is set
    /// if the action changes content (and is never cleared), and the last
    /// error is forgotten.
    pub open spec fn edited(self, a: Action) -> DocModel {
        DocModel {
            content: self.content.apply(a),
            dirty: self.dirty || a.spec_is_edit(),
            error: None,
            ..self
        }
    }

    /// After "New": no path, empty buffer, dirty.
    pub open spec fn reset_to_new(self) -> DocModel {
        DocModel { path: None, content: ContentModel::empty(), dirty: true, ..self }
    }

    /// After a successful load of `text` from `path`: clean, cursor at the
    /// start.
    pub open spec fn loaded(self, path: Seq<char>, text: Seq<char>) -> DocModel {
        DocModel { path: Some(path), content: ContentModel::loaded(text), dirty: false, ..self }
    }

    /// After a successful save to `path`: clean, buffer untouched.
    pub open spec fn saved(self, path: Seq<char>) -> DocModel {
        DocModel { path: Some(path), dirty: false, ..self }
    }

    /// After a failed effect: only the last error changes.
    pub open spec fn with_error(self, e: EditorError) -> DocModel {
        DocModel { error: Some(e), ..self }
    }
}

/// The document state owned by the update controller.
pub struct Document {
    path: Option<String>,
    content: Content,
    is_dirty: bool,
    last_error: Option<EditorError>,
}

impl View for Document {
    type V = DocModel;

    closed spec fn view(&self) -> DocModel {
        DocModel {
            path: match self.path {
                Some(p) => Some(p@),
                None => None,
            },
            content: self.content@,
            dirty: self.is_dirty,
            error: self.last_error,
        }
    }
}

impl Document {
    /// Document invariant, stated over the model.
    pub open spec fn inv(self) -> bool {
        self@.inv()
    }

    /// The document as created at startup: empty, no path, dirty.
    pub fn new() -> (d: Document)
        ensures
            d@ == DocModel::init(),
            d.inv(),
    {
        let d = Document {
            path: None,
            content: Content::new(),
            is_dirty: true,
            last_error: None,
        };
        proof {
            assert(d@ =~= DocModel::init());
        }
        d
    }

    /// Apply a cursor or text edit; a content-changing edit marks the
    /// document dirty, and any edit clears the last error.
    pub fn apply_edit(&mut self, a: Action)
        requires
            old(self).inv(),
        ensures
            final(self)@ == old(self)@.edited(a),
            final(self).inv(),
    {
        let dirty = self.is_dirty || a.is_edit();
        self.is_dirty = dirty;
        self.content.apply(a);
        self.last_error = None;
        proof {
            assert(self@ =~= old(self)@.edited(a));
        }
    }

    /// Forget the backing file and start over with an empty buffer.
    pub fn reset_to_new(&mut self)
        ensures
            final(self)@ == old(self)@.reset_to_new(),
            final(self).inv(),
    {
        self.path = None;
        self.content = Content::new();
        self.is_dirty = true;
        proof {
            assert(self@ =~= old(self)@.reset_to_new());
        }
    }

    /// Accept the text a successful load brought back: the buffer is
    /// replaced, the path recorded, and the document is clean.
    pub fn accept_loaded(&mut self, path: String, text: &str)
        ensures
            final(self)@ == old(self)@.loaded(path@, text@),
            final(self).inv(),
    {
        self.path = Some(path);
        self.content = Content::from_text(text);
        self.is_dirty = false;
        proof {
            assert(self@ =~= old(self)@.loaded(path@, text@));
        }
    }

    /// Accept a successful save: the path is recorded and the document is
    /// clean; the buffer is untouched.
    pub fn accept_saved(&mut self, path: String)
        requires
            old(self).inv(),
        ensures
            final(self)@ == old(self)@.saved(path@),
            final(self).inv(),
    {
        self.path = Some(path);
        self.is_dirty = false;
        proof {
            assert(self@ =~= old(self)@.saved(path@));
        }
    }

    /// Record a failed effect; nothing else changes.
    pub fn record_error(&mut self, e: EditorError)
        requires
            old(self).inv(),
        ensures
            final(self)@ == old(self)@.with_error(e),
            final(self).inv(),
    {
        self.last_error = Some(e);
        proof {
            assert(self@ =~= old(self)@.with_error(e));
        }
    }

    /// Whether the buffer may differ from the file at `path`.
    pub fn is_dirty(&self) -> (r: bool)
        ensures
            r == self@.dirty,
    {
        self.is_dirty
    }

    /// The backing file path, if the document has one.
    pub fn path(&self) -> (r: Option<&String>)
        ensures
            match r {
                Some(p) => self@.path == Some(p@),
                None => self@.path is None,
            },
    {
        self.path.as_ref()
    }

    /// A clone of the backing file path, for capturing in an effect.
    pub fn path_snapshot(&self) -> (r: Option<String>)
        ensures
            match r {
                Some(p) => self@.path == Some(p@),
                None => self@.path is None,
            },
    {
        match &self.path {
            Some(p) => Some(p.clone()),
            None => None,
        }
    }

    /// The last effect failure, if it has not been cleared by an edit.
    pub fn last_error(&self) -> (r: Option<EditorError>)
        ensures
            r == self@.error,
    {
        self.last_error
    }

    /// A snapshot of the buffer's characters, immune to later edits.
    pub fn text(&self) -> (v: Vec<char>)
        ensures
            v@ == self@.content.text,
    {
        self.content.text()
    }

    /// The zero-based (line, column) position of the cursor.
    pub fn cursor_position(&self) -> (r: (usize, usize))
        requires
            self.inv(),
        ensures
            r.0 == crate::content::line_at(self@.content.text, self@.content.cursor),
            r.1 == crate::content::column_at(self@.content.text, self@.content.cursor),
    {
        self.content.cursor_position()
    }
}

} // verus!
