//! The update controller: a synchronous, total transition function from a
//! message and the current state to the next state and at most one scheduled
//! effect. Effects run elsewhere and deliver their outcome back into the
//! loop as a new message; the controller never blocks.

use vstd::prelude::*;

use crate::content::Action;
use crate::document::{DocModel, Document};
use crate::effects::{default_file, spec_default_file};
use crate::errors::EditorError;

verus! {

/// A syntax-highlighting theme, chosen from the presentation layer. It does
/// not belong to the document: selecting one never dirties the buffer.
#[derive(Clone, Copy, Debug, PartialEq, Eq, Structural)]
pub enum Theme {
    SolarizedDark,
    InspiredGithub,
    Base16Eighties,
    Base16Mocha,
    Base16Ocean,
}

/// Overall window appearance derived from the highlighting theme.
#[derive(Clone, Copy, Debug, PartialEq, Eq, Structural)]
pub enum Appearance {
    Dark,
    Light,
}

impl Theme {
    /// Every theme here is dark except the light GitHub-inspired one.
    pub open spec fn spec_is_dark(&self) -> bool {
        !(self matches Theme::InspiredGithub)
    }

    /// Whether the theme calls for a dark window appearance.
    #[verifier::when_used_as_spec(spec_is_dark)]
    pub fn is_dark(&self) -> (r: bool)
        ensures
            r == self.spec_is_dark(),
    {
        match self {
            Theme::InspiredGithub => false,
            _ => true,
        }
    }
}

/// A discrete unit of intent or event, consumed exactly once by
/// [`Editor::update`]. External input and completed effects both arrive
/// this way; messages are processed strictly one at a time, in order.
#[derive(Debug, PartialEq)]
pub enum Message {
    /// Start over with an empty, unsaved buffer.
    New,
    /// A cursor or text edit from the presentation layer.
    Edit(Action),
    /// Ask for a file to be chosen and loaded.
    Open,
    /// Write the current buffer to its file (choosing one first if none).
    Save,
    /// Outcome of a load or pick-and-load effect: the path and the text
    /// read, or the failure.
    FileOpened(Result<(String, String), EditorError>),
    /// Outcome of a save effect: the path written, or the failure.
    FileSaved(Result<String, EditorError>),
    /// A new highlighting theme was picked.
    ThemeSelected(Theme),
}

/// Mathematical model of a message.
pub ghost enum MsgModel {
    New,
    Edit(Action),
    Open,
    Save,
    FileOpened(Result<(Seq<char>, Seq<char>), EditorError>),
    FileSaved(Result<Seq<char>, EditorError>),
    ThemeSelected(Theme),
}

impl View for Message {
    type V = MsgModel;

    open spec fn view(&self) -> MsgModel {
        match self {
            Message::New => MsgModel::New,
            Message::Edit(a) => MsgModel::Edit(*a),
            Message::Open => MsgModel::Open,
            Message::Save => MsgModel::Save,
            Message::FileOpened(res) => MsgModel::FileOpened(
                match res {
                    Ok((p, t)) => Ok((p@, t@)),
                    Err(e) => Err(*e),
                },
            ),
            Message::FileSaved(res) => MsgModel::FileSaved(
                match res {
                    Ok(p) => Ok(p@),
                    Err(e) => Err(*e),
                },
            ),
            Message::ThemeSelected(t) => MsgModel::ThemeSelected(*t),
        }
    }
}

/// An asynchronous operation scheduled by the controller. The embedding
/// program performs it off the control thread and posts its outcome back as
/// exactly one message. Its inputs are captured at scheduling time and are
/// immune to later edits.
#[derive(Debug, PartialEq)]
pub enum Effect {
    /// Read the file at the path fully into memory as UTF-8 text; deliver
    /// `FileOpened`.
    Load(String),
    /// Present a file chooser, then read the chosen file; deliver
    /// `FileOpened`, with `DialogClosed` on cancellation.
    PickAndLoad,
    /// Write the snapshot to the path, first presenting a save-as chooser
    /// when there is no path yet; deliver `FileSaved`.
    Save(Option<String>, Vec<char>),
}

/// Mathematical model of an effect.
pub ghost enum EffectModel {
    Load(Seq<char>),
    PickAndLoad,
    Save(Option<Seq<char>>, Seq<char>),
}

impl View for Effect {
    type V = EffectModel;

    open spec fn view(&self) -> EffectModel {
        match self {
            Effect::Load(p) => EffectModel::Load(p@),
            Effect::PickAndLoad => EffectModel::PickAndLoad,
            Effect::Save(p, t) => EffectModel::Save(
                match p {
                    Some(q) => Some(q@),
                    None => None,
                },
                t@,
            ),
        }
    }
}

/// The model of an optional scheduled effect.
pub open spec fn effect_view(e: Option<Effect>) -> Option<EffectModel> {
    match e {
        Some(x) => Some(x@),
        None => None,
    }
}

/// Mathematical model of the whole editor: the document plus the active
/// theme (a presentation concern kept outside the document).
#[verifier::ext_equal]
pub ghost struct EditorModel {
    pub doc: DocModel,
    pub theme: Theme,
}

impl EditorModel {
    /// The state at startup, before the initial load completes.
    pub open spec fn init() -> EditorModel {
        EditorModel { doc: DocModel::init(), theme: Theme::SolarizedDark }
    }

    /// Editor invariant: the document invariant.
    pub open spec fn inv(self) -> bool {
        self.doc.inv()
    }
}

/// The transition function on models: the state after consuming one
/// message. Total: every message is accepted in every state, and no
/// transition is fatal.
pub open spec fn step(s: EditorModel, m: MsgModel) -> EditorModel {
    match m {
        MsgModel::New => EditorModel { doc: s.doc.reset_to_new(), ..s },
        MsgModel::Edit(a) => EditorModel { doc: s.doc.edited(a), ..s },
        MsgModel::Open => s,
        MsgModel::Save => s,
        MsgModel::FileOpened(Ok((p, t))) => EditorModel { doc: s.doc.loaded(p, t), ..s },
        MsgModel::FileOpened(Err(e)) => EditorModel { doc: s.doc.with_error(e), ..s },
        MsgModel::FileSaved(Ok(p)) => EditorModel { doc: s.doc.saved(p), ..s },
        MsgModel::FileSaved(Err(e)) => EditorModel { doc: s.doc.with_error(e), ..s },
        MsgModel::ThemeSelected(t) => EditorModel { theme: t, ..s },
    }
}

/// The effect the controller schedules for one message, if any: `Open`
/// starts a pick-and-load, `Save` captures the current path and a snapshot
/// of the buffer; nothing else schedules work.
pub open spec fn step_effect(s: EditorModel, m: MsgModel) -> Option<EffectModel> {
    match m {
        MsgModel::Open => Some(EffectModel::PickAndLoad),
        MsgModel::Save => Some(EffectModel::Save(s.doc.path, s.doc.content.text)),
        _ => None,
    }
}

/// The editor: the document and the active theme, driven by messages.
pub struct Editor {
    doc: Document,
    theme: Theme,
}

impl View for Editor {
    type V = EditorModel;

    closed spec fn view(&self) -> EditorModel {
        EditorModel { doc: self.doc@, theme: self.theme }
    }
}

impl Editor {
    /// Editor invariant, stated over the model.
    pub open spec fn inv(self) -> bool {
        self@.inv()
    }

    /// The editor as created at startup, together with the load effect it
    /// schedules at once for the default file. The initial state is dirty
    /// and empty; the load's outcome arrives as an ordinary `FileOpened`.
    pub fn new() -> (r: (Editor, Effect))
        ensures
            r.0@ == EditorModel::init(),
            r.0.inv(),
            r.1@ == EffectModel::Load(spec_default_file()),
    {
        let ed = Editor { doc: Document::new(), theme: Theme::SolarizedDark };
        proof {
            assert(ed@ =~= EditorModel::init());
        }
        (ed, Effect::Load(default_file()))
    }

    /// Consume one message: mutate the state as [`step`] says and hand back
    /// the effect [`step_effect`] says, for the embedding program to run.
    pub fn update(&mut self, message: Message) -> (effect: Option<Effect>)
        requires
            old(self).inv(),
        ensures
            final(self)@ == step(old(self)@, message@),
            final(self).inv(),
            effect_view(effect) == step_effect(old(self)@, message@),
    {
        match message {
            Message::New => {
                self.doc.reset_to_new();
                proof {
                    assert(self@ =~= step(old(self)@, message@));
                }
                None
            }
            Message::Edit(a) => {
                self.doc.apply_edit(a);
                proof {
                    assert(self@ =~= step(old(self)@, message@));
                }
                None
            }
            Message::Open => Some(Effect::PickAndLoad),
            Message::Save => {
                let path = self.doc.path_snapshot();
                let snapshot = self.doc.text();
                Some(Effect::Save(path, snapshot))
            }
            Message::FileOpened(result) => {
                match result {
                    Ok((path, text)) => {
                        self.doc.accept_loaded(path, text.as_str());
                        proof {
                            assert(self@ =~= step(old(self)@, message@));
                        }
                    }
                    Err(e) => {
                        self.doc.record_error(e);
                        proof {
                            assert(self@ =~= step(old(self)@, message@));
                        }
                    }
                }
                None
            }
            Message::FileSaved(result) => {
                match result {
                    Ok(path) => {
                        self.doc.accept_saved(path);
                        proof {
                            assert(self@ =~= step(old(self)@, message@));
                        }
                    }
                    Err(e) => {
                        self.doc.record_error(e);
                        proof {
                            assert(self@ =~= step(old(self)@, message@));
                        }
                    }
                }
                None
            }
            Message::ThemeSelected(t) => {
                self.theme = t;
                proof {
                    assert(self@ =~= step(old(self)@, message@));
                }
                None
            }
        }
    }

    /// Read-only access to the document for the presentation layer.
    pub fn document(&self) -> (d: &Document)
        ensures
            d@ == self@.doc,
    {
        &self.doc
    }

    /// The active highlighting theme.
    pub fn theme(&self) -> (t: Theme)
        ensures
            t == self@.theme,
    {
        self.theme
    }

    /// The window appearance the active theme calls for.
    pub fn appearance(&self) -> (r: Appearance)
        ensures
            r == (if self@.theme.spec_is_dark() {
                Appearance::Dark
            } else {
                Appearance::Light
            }),
    {
        if self.theme.is_dark() {
            Appearance::Dark
        } else {
            Appearance::Light
        }
    }
}

} // verus!
