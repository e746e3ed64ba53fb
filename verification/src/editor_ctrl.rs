//! The document: the one text buffer that an editor window shows.

use crate::commands::{Command, EditorCommand, ID_SELECTALL};
use vstd::prelude::*;

verus! {

/// What a document tells its observers.
#[derive(Clone, Copy, Debug, PartialEq, Eq, Structural)]
pub enum DocumentEvent {
    /// The text in the buffer changed, by typing or by the program.
    TextModified,
}

/// What contracts see of a document: whether the buffer differs from what was
/// last stored, and where it is stored. `None` is a document without a title,
/// one that was never loaded or saved.
pub struct DocumentView {
    pub modified: bool,
    pub path: Option<Seq<char>>,
}

impl DocumentView {
    /// The document after `new_file`: empty, without a title.
    pub open spec fn untitled() -> DocumentView {
        DocumentView { modified: false, path: None }
    }

    /// The document after `load_from(path)`.
    pub open spec fn loaded(path: Seq<char>) -> DocumentView {
        DocumentView { modified: false, path: Some(path) }
    }

    /// The document after `reset_modified`: the changes are given up, the
    /// title stays.
    pub open spec fn discarded(self) -> DocumentView {
        DocumentView { modified: false, path: self.path }
    }

    /// The document after `save_to(path)` has returned `saved`. A save that
    /// failed leaves the document as it was: still modified if it was so, and
    /// under its old title.
    pub open spec fn saved(self, path: Seq<char>, saved: bool) -> DocumentView {
        if saved {
            DocumentView { modified: false, path: Some(path) }
        } else {
            self
        }
    }
}

/// A path as contracts see it.
pub open spec fn path_view(path: Option<String>) -> Option<Seq<char>> {
    match path {
        Some(p) => Some(p@),
        None => None,
    }
}

/// The open text buffer, as far as the editor's logic needs it. The text
/// control of the window implements this; so may anything else that can hold
/// a text.
///
/// The clauses below are what the editor's logic relies on. Verus holds an
/// implementation inside `verus!` to them; one outside is taken at its word.
pub trait Document {
    /// The state of the document in contracts. A verified implementation
    /// says what it is; any other leaves it unknown.
    open spec fn view(&self) -> DocumentView {
        arbitrary()
    }

    /// Empties the buffer and takes the title away.
    fn new_file(&mut self)
        ensures
            final(self)@ == DocumentView::untitled(),
    ;

    /// Where the document is stored, if it ever was.
    fn path(&self) -> (path: Option<String>)
        ensures
            path_view(path) == self@.path,
    ;

    /// Whether the buffer differs from what was last stored.
    fn is_modified(&self) -> (modified: bool)
        ensures
            modified == self@.modified,
    ;

    /// Gives the pending changes up: the buffer counts as stored.
    fn reset_modified(&mut self)
        ensures
            final(self)@ == old(self)@.discarded(),
    ;

    /// Replaces the buffer by the file's text.
    fn load_from(&mut self, file_path: &str)
        ensures
            final(self)@ == DocumentView::loaded(file_path@),
    ;

    /// Tries to write the buffer to the file and says whether that worked.
    fn save_to(&mut self, file_path: &str) -> (saved: bool)
        ensures
            final(self)@ == old(self)@.saved(file_path@, saved),
    ;
}

/// The document `doc` was told to save to `path`, and answered `saved`. What
/// this did to the document is what `Document::save_to` promises of it.
pub open spec fn save_answered<D: Document>(doc: &mut D, path: Seq<char>, saved: bool) -> bool {
    exists|p: &str| p@ == path && #[trigger] call_ensures(D::save_to, (doc, p), saved)
}

/// The document `doc` was told to load the file at `path`. What this did to
/// the document is what `Document::load_from` promises of it.
pub open spec fn load_answered<D: Document>(doc: &mut D, path: Seq<char>) -> bool {
    exists|p: &str| p@ == path && #[trigger] call_ensures(D::load_from, (doc, p), ())
}

/// What the text control does on a command that reaches it.
#[derive(Clone, Copy, Debug, PartialEq, Eq, Structural)]
pub enum EditorAction {
    /// It removes the selected text.
    DeleteSelection,
    /// It selects the whole text.
    SelectAll,
    /// It lets the toolkit treat the menu entry (undo, cut, copy, paste).
    ProcessEvent,
    /// It does nothing.
    Ignore,
}

impl EditorAction {
    /// What the text control does on `command`. Of the editor's own commands it
    /// knows the one that deletes; of the toolkit's entries it selects all by
    /// itself, which not every toolkit does, and leaves the others to it.
    pub open spec fn spec_of(command: EditorCommand) -> EditorAction {
        match command {
            EditorCommand::Command(Command::EditDelete) => EditorAction::DeleteSelection,
            EditorCommand::Command(_) => EditorAction::Ignore,
            EditorCommand::StandardEvents(id) => if id == ID_SELECTALL {
                EditorAction::SelectAll
            } else {
                EditorAction::ProcessEvent
            },
        }
    }

    /// What the text control does on `command`.
    pub fn of(command: &EditorCommand) -> (action: EditorAction)
        ensures
            action == Self::spec_of(*command),
    {
        match command {
            EditorCommand::Command(command) => match command {
                Command::EditDelete => EditorAction::DeleteSelection,
                _ => EditorAction::Ignore,
            },
            EditorCommand::StandardEvents(id) => {
                if *id == ID_SELECTALL {
                    EditorAction::SelectAll
                } else {
                    EditorAction::ProcessEvent
                }
            },
        }
    }
}

/// Loading a file and saving to it again leaves a document that is not
/// modified and is stored under that path, whether the write worked or not.
pub proof fn lemma_load_then_save(path: Seq<char>, saved: bool)
    ensures
        !DocumentView::loaded(path).saved(path, saved).modified,
        DocumentView::loaded(path).saved(path, saved).path == Some(path),
{
}

} // verus!
