//! The editor's frame: a document, the dialogs of its window, and what the
//! commands of the menu do with them. The window itself, its menu bar and its
//! events belong to the toolkit and are not here.

use crate::commands::{Command, EditorCommand, ID_ABOUT};
use crate::editor_ctrl::{load_answered, path_view, save_answered, Document, DocumentView};
use crate::unsaved_changes::{document_told, protocol_ran, run, save_unsaved_change, Replies, UI};
use vstd::prelude::*;

verus! {

/// The name of the program, as the title bar shows it.
pub const APP_NAME: &'static str = "カニツメエディタ";

/// What the title bar shows in place of a path while the document has none.
pub const UNTITLED: &'static str = "無題";

/// The title of the window of a document: a star if it is modified, its path
/// or the word for a document without one, a dash, and the program's name.
/// The path stands there in full, as the document has it, not cut down to
/// the name of the file.
pub open spec fn title_text(doc: DocumentView) -> Seq<char> {
    let star = if doc.modified {
        seq!['*']
    } else {
        Seq::empty()
    };
    let name = match doc.path {
        Some(path) => path,
        None => UNTITLED@,
    };
    star + name + seq![' ', '-', ' '] + APP_NAME@
}

/// The dialog in which the user picks the file to open.
pub trait OpenDialog {
    /// Asks which file to open. `None`: the user closed the dialog without a
    /// choice.
    fn get_path_to_open(&self) -> Option<String>;
}

/// What the frame leaves to the window toolkit once it has dealt with a
/// command.
#[derive(Clone, Copy, Debug, PartialEq, Eq, Structural)]
pub enum Deferred {
    /// Nothing: the frame did all there was to do.
    Nothing,
    /// Close the window.
    Close,
    /// Show the help.
    OpenHelp,
    /// Show what the program is.
    ShowAbout,
    /// Hand the command to the text control.
    ToEditor,
}

/// A document and the window it is shown in.
pub struct EditorFrame<D: Document, U: UI + OpenDialog> {
    /// The window, as far as it asks the user.
    pub base: U,
    /// The document.
    pub editor: D,
}

/// The command "new file" on the document `before` with the dialogs of `ui`:
/// the protocol was run with these replies and left the document `left`;
/// where it let the document go, `after` is an empty document without a
/// title, and where it held it back, `after` is what the protocol left.
pub open spec fn new_file_ran<D: Document, U: UI>(
    ui: &U,
    before: D,
    left: D,
    replies: Replies,
    after: D,
) -> bool {
    &&& protocol_ran(ui, before, left, replies, run(before@, replies).proceed)
    &&& if run(before@, replies).proceed {
        after@ == DocumentView::untitled()
    } else {
        after == left
    }
}

/// The path that a command was given, as contracts see it.
pub open spec fn given_path(path: Option<&str>) -> Option<Seq<char>> {
    match path {
        Some(p) => Some(p@),
        None => None,
    }
}

/// The file that the command "open" loads: none where the protocol holds the
/// document back; else the one at `path`, or without a `path` the one picked
/// in the dialog, if any.
pub open spec fn file_to_load(
    proceed: bool,
    path: Option<Seq<char>>,
    picked: Option<Seq<char>>,
) -> Option<Seq<char>> {
    if !proceed {
        None
    } else {
        match path {
            Some(p) => Some(p),
            None => picked,
        }
    }
}

/// The command "open" on the document `before` with the dialogs of `ui`: the
/// protocol was run with these replies and left the document `left`. Where
/// it let the document go and no `path` was given, the dialog was asked for
/// the file and returned `picked`. `after` is the document with the file to
/// load in it, or, where there is none to load, what the protocol left.
pub open spec fn open_file_ran<D: Document, U: UI + OpenDialog>(
    ui: &U,
    before: D,
    path: Option<Seq<char>>,
    left: D,
    replies: Replies,
    picked: Option<String>,
    after: D,
) -> bool {
    let proceed = run(before@, replies).proceed;
    &&& protocol_ran(ui, before, left, replies, proceed)
    &&& proceed && path is None ==> call_ensures(U::get_path_to_open, (ui,), picked)
    &&& match file_to_load(proceed, path, path_view(picked)) {
        Some(file) => after@ == DocumentView::loaded(file),
        None => after == left,
    }
}

/// The document after the command "save as" with the result `saved`, if it
/// was `before`: stored under a path of the user's choice, or as it was.
pub open spec fn after_save_as(before: DocumentView, saved: bool, after: DocumentView) -> bool {
    if saved {
        exists|path: Seq<char>| after == #[trigger] before.saved(path, true)
    } else {
        after == before
    }
}

/// The document after the command "save" with the result `saved`, if it was
/// `before`: stored under its path, under one of the user's choice if it had
/// none, or as it was.
pub open spec fn after_save(before: DocumentView, saved: bool, after: DocumentView) -> bool {
    match before.path {
        Some(path) => after == before.saved(path, saved),
        None => after_save_as(before, saved, after),
    }
}

impl EditorCommand {
    /// Whether the editor has a function behind this command. The commands
    /// that find, replace, go to a line, insert the date, wrap lines, pick a
    /// font, show the status bar or open a second window have none yet.
    pub open spec fn spec_is_implemented(self) -> bool {
        match self {
            EditorCommand::Command(c) => c == Command::FileNew || c == Command::FileOpen || c
                == Command::FileSave || c == Command::FileSaveAs || c == Command::FileClose || c
                == Command::Help || c == Command::EditDelete,
            EditorCommand::StandardEvents(_) => true,
        }
    }

    /// Whether the editor has a function behind this command.
    pub fn is_implemented(&self) -> (known: bool)
        ensures
            known == self.spec_is_implemented(),
    {
        match self {
            EditorCommand::Command(c) => match c {
                Command::FileNew => true,
                Command::FileOpen => true,
                Command::FileSave => true,
                Command::FileSaveAs => true,
                Command::FileClose => true,
                Command::Help => true,
                Command::EditDelete => true,
                _ => false,
            },
            EditorCommand::StandardEvents(_) => true,
        }
    }
}

/// What the frame leaves to the toolkit on a command that has a function
/// behind it. The commands on files it carries out itself; the command that
/// deletes, and the toolkit's own entries but the one that shows what the
/// program is, go to the text control.
pub open spec fn deferred_of(command: EditorCommand) -> Deferred {
    match command {
        EditorCommand::Command(c) => match c {
            Command::FileNew => Deferred::Nothing,
            Command::FileOpen => Deferred::Nothing,
            Command::FileSave => Deferred::Nothing,
            Command::FileSaveAs => Deferred::Nothing,
            Command::FileClose => Deferred::Close,
            Command::Help => Deferred::OpenHelp,
            _ => Deferred::ToEditor,
        },
        EditorCommand::StandardEvents(id) => if id == ID_ABOUT {
            Deferred::ShowAbout
        } else {
            Deferred::ToEditor
        },
    }
}

impl<D: Document, U: UI + OpenDialog> EditorFrame<D, U> {
    /// The frame of the document `editor` in the window `base`.
    pub fn new(base: U, editor: D) -> (frame: Self)
        ensures
            frame.base == base,
            frame.editor == editor,
    {
        EditorFrame { base, editor }
    }

    /// The title that the window is to show.
    pub fn title(&self) -> (title: String)
        ensures
            title@ == title_text(self.editor@),
    {
        proof {
            reveal_strlit("*");
            reveal_strlit("");
            reveal_strlit(" - ");
        }
        let mut title = String::from_str(
            if self.editor.is_modified() {
                "*"
            } else {
                ""
            },
        );
        match self.editor.path() {
            Some(path) => title.append(path.as_str()),
            None => title.append(UNTITLED),
        }
        title.append(" - ");
        title.append(APP_NAME);
        assert(title@ =~= title_text(self.editor@));
        title
    }

    /// The command "new file": runs the protocol, and empties the document
    /// where the protocol lets it go, and only there. A document without
    /// changes is emptied at once.
    pub fn new_file(&mut self)
        ensures
            exists|replies: Replies, left: D|
                {
                    &&& #[trigger] new_file_ran(
                        &old(self).base,
                        old(self).editor,
                        left,
                        replies,
                        final(self).editor,
                    )
                    &&& replies.changes(old(self).editor@) ==> exists|told: &mut D|
                        {
                            &&& *told == old(self).editor
                            &&& *final(told) == left
                            &&& #[trigger] document_told(told, replies)
                        }
                    &&& run(old(self).editor@, replies).proceed ==> exists|emptied: &mut D|
                        {
                            &&& *emptied == left
                            &&& *final(emptied) == final(self).editor
                            &&& #[trigger] call_ensures(D::new_file, (emptied,), ())
                        }
                },
            !old(self).editor@.modified ==> final(self).editor@ == DocumentView::untitled(),
            final(self).base == old(self).base,
    {
        let saved = save_unsaved_change(&mut self.editor, &self.base);
        let ghost left = self.editor;
        let ghost replies = choose|replies: Replies|
            {
                &&& #[trigger] protocol_ran(&self.base, old(self).editor, left, replies, saved)
                &&& replies.changes(old(self).editor@) ==> exists|told: &mut D|
                    {
                        &&& *told == old(self).editor
                        &&& *final(told) == left
                        &&& #[trigger] document_told(told, replies)
                    }
            };
        if saved {
            self.editor.new_file();
        }
        assert(new_file_ran(&old(self).base, old(self).editor, left, replies, self.editor));
    }

    /// The command "open": runs the protocol, and where the protocol lets the
    /// document go, and only there, loads the file at `path`, or without a
    /// `path` the one that the user picks in the dialog. The dialog is shown
    /// only then.
    pub fn open_file(&mut self, path: Option<&str>)
        ensures
            exists|replies: Replies, left: D, picked: Option<String>|
                {
                    &&& #[trigger] open_file_ran(
                        &old(self).base,
                        old(self).editor,
                        given_path(path),
                        left,
                        replies,
                        picked,
                        final(self).editor,
                    )
                    &&& replies.changes(old(self).editor@) ==> exists|told: &mut D|
                        {
                            &&& *told == old(self).editor
                            &&& *final(told) == left
                            &&& #[trigger] document_told(told, replies)
                        }
                    &&& file_to_load(
                        run(old(self).editor@, replies).proceed,
                        given_path(path),
                        path_view(picked),
                    ) matches Some(file) ==> exists|loaded: &mut D|
                        {
                            &&& *loaded == left
                            &&& *final(loaded) == final(self).editor
                            &&& #[trigger] load_answered(loaded, file)
                        }
                },
            final(self).base == old(self).base,
    {
        let saved = save_unsaved_change(&mut self.editor, &self.base);
        let ghost left = self.editor;
        let ghost replies = choose|replies: Replies|
            {
                &&& #[trigger] protocol_ran(&self.base, old(self).editor, left, replies, saved)
                &&& replies.changes(old(self).editor@) ==> exists|told: &mut D|
                    {
                        &&& *told == old(self).editor
                        &&& *final(told) == left
                        &&& #[trigger] document_told(told, replies)
                    }
            };
        if !saved {
            assert(open_file_ran(
                &old(self).base,
                old(self).editor,
                given_path(path),
                left,
                replies,
                None,
                self.editor,
            ));
            return ;
        }
        match path {
            Some(path) => {
                self.editor.load_from(path);
                proof {
                    let loaded = choose|loaded: &mut D|
                        *loaded == left && *final(loaded) == self.editor && #[trigger] call_ensures(
                            D::load_from,
                            (loaded, path),
                            (),
                        );
                    assert(load_answered(loaded, path@));
                    assert(open_file_ran(
                        &old(self).base,
                        old(self).editor,
                        Some(path@),
                        left,
                        replies,
                        None,
                        self.editor,
                    ));
                }
            },
            None => {
                let picked = self.base.get_path_to_open();
                if let Some(file) = &picked {
                    let target = file.as_str();
                    self.editor.load_from(target);
                    proof {
                        let loaded = choose|loaded: &mut D|
                            *loaded == left && *final(loaded) == self.editor
                                && #[trigger] call_ensures(D::load_from, (loaded, target), ());
                        assert(load_answered(loaded, file@));
                    }
                }
                assert(open_file_ran(
                    &old(self).base,
                    old(self).editor,
                    None,
                    left,
                    replies,
                    picked,
                    self.editor,
                ));
            },
        }
    }

    /// Writes the document to `path`, and says whether that worked: the
    /// document is told once to save there, and the result is `Ok` exactly
    /// where it answers yes.
    pub fn save_to(&mut self, path: &str) -> (result: Result<(), ()>)
        ensures
            exists|doc: &mut D|
                {
                    &&& *doc == old(self).editor
                    &&& *final(doc) == final(self).editor
                    &&& #[trigger] save_answered(doc, path@, result is Ok)
                },
            final(self).editor@ == old(self).editor@.saved(path@, result is Ok),
            final(self).base == old(self).base,
    {
        let saved = self.editor.save_to(path);
        proof {
            let told = choose|doc: &mut D|
                *doc == old(self).editor && *final(doc) == self.editor && #[trigger] call_ensures(
                    D::save_to,
                    (doc, path),
                    saved,
                );
            assert(save_answered(told, path@, saved));
        }
        if saved {
            Ok(())
        } else {
            Err(())
        }
    }

    /// The command "save as": asks where to save, and writes the document
    /// there. With a path from the dialog the result is that of the write;
    /// without one the command fails and the document is not touched.
    pub fn save_as(&mut self) -> (result: Result<(), ()>)
        ensures
            exists|chosen: Option<String>|
                {
                    &&& #[trigger] call_ensures(U::get_path_to_save, (&old(self).base,), chosen)
                    &&& match chosen {
                        Some(path) => exists|doc: &mut D|
                            {
                                &&& *doc == old(self).editor
                                &&& *final(doc) == final(self).editor
                                &&& #[trigger] save_answered(doc, path@, result is Ok)
                            },
                        None => result is Err && final(self).editor == old(self).editor,
                    }
                },
            after_save_as(old(self).editor@, result is Ok, final(self).editor@),
            final(self).base == old(self).base,
    {
        match self.base.get_path_to_save() {
            Some(path) => self.save_to(path.as_str()),
            None => Err(()),
        }
    }

    /// The command "save": writes the document to its path, with the result
    /// of that write, or, where it has none, does as "save as" does.
    pub fn save(&mut self) -> (result: Result<(), ()>)
        ensures
            old(self).editor@.path matches Some(path) ==> exists|doc: &mut D|
                {
                    &&& *doc == old(self).editor
                    &&& *final(doc) == final(self).editor
                    &&& #[trigger] save_answered(doc, path, result is Ok)
                },
            old(self).editor@.path is None ==> exists|chosen: Option<String>|
                {
                    &&& #[trigger] call_ensures(U::get_path_to_save, (&old(self).base,), chosen)
                    &&& match chosen {
                        Some(path) => exists|doc: &mut D|
                            {
                                &&& *doc == old(self).editor
                                &&& *final(doc) == final(self).editor
                                &&& #[trigger] save_answered(doc, path@, result is Ok)
                            },
                        None => result is Err && final(self).editor == old(self).editor,
                    }
                },
            after_save(old(self).editor@, result is Ok, final(self).editor@),
            final(self).base == old(self).base,
    {
        match self.editor.path() {
            Some(path) => {
                let result = self.save_to(path.as_str());
                proof {
                    let told = choose|doc: &mut D|
                        {
                            &&& *doc == old(self).editor
                            &&& *final(doc) == self.editor
                            &&& #[trigger] save_answered(doc, path@, result is Ok)
                        };
                    assert(save_answered(told, old(self).editor@.path->0, result is Ok));
                }
                result
            },
            None => self.save_as(),
        }
    }

    /// The window is asked to close: runs the protocol, and says whether the
    /// window may close. Where it may not, the request is to be refused.
    pub fn on_close(&mut self) -> (close: bool)
        ensures
            exists|replies: Replies|
                {
                    &&& #[trigger] protocol_ran(
                        &old(self).base,
                        old(self).editor,
                        final(self).editor,
                        replies,
                        close,
                    )
                    &&& replies.changes(old(self).editor@) ==> exists|told: &mut D|
                        {
                            &&& *told == old(self).editor
                            &&& *final(told) == final(self).editor
                            &&& #[trigger] document_told(told, replies)
                        }
                },
            !old(self).editor@.modified ==> close && final(self).editor == old(self).editor,
            close == !final(self).editor@.modified,
            final(self).base == old(self).base,
    {
        save_unsaved_change(&mut self.editor, &self.base)
    }

    /// Carries out `command` as far as it concerns the document, and returns
    /// what is left for the window toolkit to do. The commands "new file",
    /// "open", "save" and "save as" are carried out by the functions of
    /// these names, each called once; no other command touches the frame.
    pub fn handle_command(&mut self, command: &EditorCommand) -> (deferred: Deferred)
        requires
            command.spec_is_implemented(),
        ensures
            deferred == deferred_of(*command),
            final(self).base == old(self).base,
            match *command {
                EditorCommand::Command(Command::FileNew) => exists|frame: &mut Self|
                    {
                        &&& *frame == *old(self)
                        &&& *final(frame) == *final(self)
                        &&& #[trigger] call_ensures(Self::new_file, (frame,), ())
                    },
                EditorCommand::Command(Command::FileOpen) => exists|frame: &mut Self|
                    {
                        &&& *frame == *old(self)
                        &&& *final(frame) == *final(self)
                        &&& #[trigger] call_ensures(Self::open_file, (frame, None), ())
                    },
                EditorCommand::Command(Command::FileSave) => exists|
                    frame: &mut Self,
                    result: Result<(), ()>,
                |
                    {
                        &&& *frame == *old(self)
                        &&& *final(frame) == *final(self)
                        &&& #[trigger] call_ensures(Self::save, (frame,), result)
                    },
                EditorCommand::Command(Command::FileSaveAs) => exists|
                    frame: &mut Self,
                    result: Result<(), ()>,
                |
                    {
                        &&& *frame == *old(self)
                        &&& *final(frame) == *final(self)
                        &&& #[trigger] call_ensures(Self::save_as, (frame,), result)
                    },
                _ => *final(self) == *old(self),
            },
    {
        match command {
            EditorCommand::Command(c) => match c {
                Command::FileNew => {
                    self.new_file();
                    Deferred::Nothing
                },
                Command::FileOpen => {
                    self.open_file(None);
                    Deferred::Nothing
                },
                Command::FileSave => {
                    let _ = self.save();
                    Deferred::Nothing
                },
                Command::FileSaveAs => {
                    let _ = self.save_as();
                    Deferred::Nothing
                },
                Command::FileClose => Deferred::Close,
                Command::Help => Deferred::OpenHelp,
                _ => Deferred::ToEditor,
            },
            EditorCommand::StandardEvents(id) => {
                if *id == ID_ABOUT {
                    Deferred::ShowAbout
                } else {
                    Deferred::ToEditor
                }
            },
        }
    }
}

} // verus!
