//! The editable text buffer: characters, a cursor between them, and the
//! discrete editing actions that mutate both.

use vstd::prelude::*;

verus! {

/// One discrete editing action delivered by the presentation layer.
///
/// The first four variants may change the text; the movement variants only
/// reposition the cursor and must never mark the document dirty.
#[derive(Clone, Copy, Debug, PartialEq, Eq, Structural)]
pub enum Action {
    /// Insert the character at the cursor and advance the cursor past it.
    Insert(char),
    /// Insert a line break at the cursor.
    Enter,
    /// Remove the character before the cursor, if any.
    Backspace,
    /// Remove the character under the cursor, if any.
    Delete,
    /// Move the cursor one character towards the start.
    MoveLeft,
    /// Move the cursor one character towards the end.
    MoveRight,
}

impl Action {
    /// True of the actions that may change the text; false of pure cursor
    /// movement.
    pub open spec fn spec_is_edit(&self) -> bool {
        match self {
            Action::Insert(_) | Action::Enter | Action::Backspace | Action::Delete => true,
            Action::MoveLeft | Action::MoveRight => false,
        }
    }

    /// Whether this action counts as a content edit for the dirty flag.
    #[verifier::when_used_as_spec(spec_is_edit)]
    pub fn is_edit(&self) -> (r: bool)
        ensures
            r == self.spec_is_edit(),
    {
        match self {
            Action::Insert(_) => true,
            Action::Enter => true,
            Action::Backspace => true,
            Action::Delete => true,
            Action::MoveLeft => false,
            Action::MoveRight => false,
        }
    }
}

/// Mathematical model of the buffer: the characters and the cursor index,
/// which sits between characters (0 up to and including the length).
#[verifier::ext_equal]
pub ghost struct ContentModel {
    pub text: Seq<char>,
    pub cursor: nat,
}

impl ContentModel {
    /// The cursor never points past the end of the text.
    pub open spec fn wf(self) -> bool {
        self.cursor <= self.text.len()
    }

    /// An empty buffer with the cursor at the start.
    pub open spec fn empty() -> ContentModel {
        ContentModel { text: Seq::empty(), cursor: 0 }
    }

    /// The buffer right after `text` was loaded: cursor at the start.
    pub open spec fn loaded(text: Seq<char>) -> ContentModel {
        ContentModel { text, cursor: 0 }
    }

    /// The buffer after one editing action. Actions that would step over an
    /// edge of the text (backspace at the start, delete or move-right at the
    /// end) leave the buffer unchanged.
    pub open spec fn apply(self, a: Action) -> ContentModel {
        match a {
            Action::Insert(c) => ContentModel {
                text: self.text.insert(self.cursor as int, c),
                cursor: self.cursor + 1,
            },
            Action::Enter => ContentModel {
                text: self.text.insert(self.cursor as int, '\n'),
                cursor: self.cursor + 1,
            },
            Action::Backspace => if self.cursor > 0 {
                ContentModel {
                    text: self.text.remove(self.cursor - 1),
                    cursor: (self.cursor - 1) as nat,
                }
            } else {
                self
            },
            Action::Delete => if self.cursor < self.text.len() {
                ContentModel { text: self.text.remove(self.cursor as int), cursor: self.cursor }
            } else {
                self
            },
            Action::MoveLeft => if self.cursor > 0 {
                ContentModel { text: self.text, cursor: (self.cursor - 1) as nat }
            } else {
                self
            },
            Action::MoveRight => if self.cursor < self.text.len() {
                ContentModel { text: self.text, cursor: self.cursor + 1 }
            } else {
                self
            },
        }
    }
}

/// Every editing action keeps the cursor within bounds.
pub proof fn lemma_apply_wf(m: ContentModel, a: Action)
    requires
        m.wf(),
    ensures
        m.apply(a).wf(),
{
}

/// Zero-based line index of the position `i` characters into `text`: the
/// number of line breaks strictly before that position.
pub open spec fn line_at(text: Seq<char>, i: nat) -> nat
    recommends
        i <= text.len(),
    decreases i,
{
    if i == 0 {
        0
    } else if text[i - 1] == '\n' {
        line_at(text, (i - 1) as nat) + 1
    } else {
        line_at(text, (i - 1) as nat)
    }
}

/// Zero-based column index of the position `i` characters into `text`: the
/// number of characters since the last line break before that position.
pub open spec fn column_at(text: Seq<char>, i: nat) -> nat
    recommends
        i <= text.len(),
    decreases i,
{
    if i == 0 {
        0
    } else if text[i - 1] == '\n' {
        0
    } else {
        column_at(text, (i - 1) as nat) + 1
    }
}

/// The editable text buffer owned by the document.
pub struct Content {
    text: Vec<char>,
    cursor: usize,
}

impl View for Content {
    type V = ContentModel;

    closed spec fn view(&self) -> ContentModel {
        ContentModel { text: self.text@, cursor: self.cursor as nat }
    }
}

impl Content {
    /// Cursor within bounds.
    pub open spec fn wf(self) -> bool {
        self@.wf()
    }

    /// An empty buffer with the cursor at the start.
    pub fn new() -> (c: Content)
        ensures
            c@ == ContentModel::empty(),
    {
        let c = Content { text: Vec::new(), cursor: 0 };
        proof {
            assert(c@ =~= ContentModel::empty());
        }
        c
    }

    /// A buffer holding the characters of `s`, cursor at the start.
    pub fn from_text(s: &str) -> (c: Content)
        ensures
            c@ == ContentModel::loaded(s@),
    {
        let n = s.unicode_len();
        let mut text: Vec<char> = Vec::new();
        let mut i: usize = 0;
        proof {
            assert(text@ =~= s@.subrange(0, 0));
        }
        while i < n
            invariant
                n == s@.len(),
                i <= n,
                text@ == s@.subrange(0, i as int),
            decreases n - i,
    {
            text.push(s.get_char(i));
            i = i + 1;
            proof {
                assert(text@ =~= s@.subrange(0, i as int));
            }
        }
        let c = Content { text, cursor: 0 };
        proof {
            assert(s@.subrange(0, s@.len() as int) =~= s@);
            assert(c@ =~= ContentModel::loaded(s@));
        }
        c
    }

    /// Apply one editing action to the buffer.
    pub fn apply(&mut self, a: Action)
        requires
            old(self).wf(),
        ensures
            final(self)@ == old(self)@.apply(a),
            final(self).wf(),
    {
        proof {
            lemma_apply_wf(old(self)@, a);
        }
        match a {
            Action::Insert(c) => {
                self.text.insert(self.cursor, c);
                // the new length witnesses that the advanced cursor fits
                let _len = self.text.len();
                self.cursor = self.cursor + 1;
            }
            Action::Enter => {
                self.text.insert(self.cursor, '\n');
                // the new length witnesses that the advanced cursor fits
                let _len = self.text.len();
                self.cursor = self.cursor + 1;
            }
            Action::Backspace => {
                if self.cursor > 0 {
                    self.cursor = self.cursor - 1;
                    let _removed = self.text.remove(self.cursor);
                }
            }
            Action::Delete => {
                if self.cursor < self.text.len() {
                    let _removed = self.text.remove(self.cursor);
                }
            }
            Action::MoveLeft => {
                if self.cursor > 0 {
                    self.cursor = self.cursor - 1;
                }
            }
            Action::MoveRight => {
                if self.cursor < self.text.len() {
                    self.cursor = self.cursor + 1;
                }
            }
        }
    }

    /// The zero-based (line, column) position of the cursor.
    pub fn cursor_position(&self) -> (r: (usize, usize))
        requires
            self.wf(),
        ensures
            r.0 == line_at(self@.text, self@.cursor),
            r.1 == column_at(self@.text, self@.cursor),
    {
        let mut line: usize = 0;
        let mut column: usize = 0;
        let mut i: usize = 0;
        while i < self.cursor
            invariant
                self.wf(),
                i <= self@.cursor,
                line == line_at(self@.text, i as nat),
                column == column_at(self@.text, i as nat),
                line <= i,
                column <= i,
            decreases self@.cursor - i,
        {
            if self.text[i] == '\n' {
                line = line + 1;
                column = 0;
            } else {
                column = column + 1;
            }
            i = i + 1;
        }
        (line, column)
    }

    /// A snapshot of the characters in the buffer, immune to later edits.
    pub fn text(&self) -> (v: Vec<char>)
        ensures
            v@ == self@.text,
    {
        let mut v: Vec<char> = Vec::new();
        let mut i: usize = 0;
        proof {
            assert(v@ =~= self@.text.subrange(0, 0));
        }
        while i < self.text.len()
            invariant
                i <= self@.text.len(),
                v@ == self@.text.subrange(0, i as int),
            decreases self@.text.len() - i,
        {
            v.push(self.text[i]);
            i = i + 1;
            proof {
                assert(v@ =~= self@.text.subrange(0, i as int));
            }
        }
        proof {
            assert(self@.text.subrange(0, self@.text.len() as int) =~= self@.text);
        }
        v
    }

    /// The number of characters in the buffer.
    pub fn len(&self) -> (n: usize)
        ensures
            n == self@.text.len(),
    {
        self.text.len()
    }
}

} // verus!
