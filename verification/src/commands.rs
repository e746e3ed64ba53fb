//! The commands of the menu, and the numbers under which the window toolkit
//! reports them.

use vstd::prelude::*;

verus! {

/// The highest identifier that the window toolkit keeps for itself. The
/// editor's own commands are numbered from here on.
pub const ID_HIGHEST: i32 = 5999;

/// The toolkit's identifier of the entry that shows what the program is.
pub const ID_ABOUT: i32 = 5014;

/// The toolkit's identifier of the entry that selects the whole text.
pub const ID_SELECTALL: i32 = 5037;

/// Something that carries out commands of type `C`.
pub trait CommandHandler<C> {
    fn handle_command(&self, command: &C);
}

/// A command of the editor's own.
#[derive(Clone, Copy, Debug, PartialEq, Eq, Structural)]
pub enum Command {
    FileNew,
    FileNewWindow,
    FileOpen,
    FileSave,
    FileSaveAs,
    FileClose,
    EditDelete,
    EditFind,
    EditFindNext,
    EditFindPrevious,
    EditReplace,
    EditGo,
    EditDate,
    FormatWordWrap,
    FormatFont,
    ViewStatusBar,
    Help,
}

/// What a menu reports: a command of the editor's own, or the identifier of an
/// entry that the toolkit knows by itself (undo, copy, select all, about).
#[derive(Clone, Copy, Debug, PartialEq, Eq, Structural)]
pub enum EditorCommand {
    Command(Command),
    StandardEvents(i32),
}

impl Command {
    /// The place of the command in the list of all commands.
    pub open spec fn index(self) -> int {
        match self {
            Command::FileNew => 0,
            Command::FileNewWindow => 1,
            Command::FileOpen => 2,
            Command::FileSave => 3,
            Command::FileSaveAs => 4,
            Command::FileClose => 5,
            Command::EditDelete => 6,
            Command::EditFind => 7,
            Command::EditFindNext => 8,
            Command::EditFindPrevious => 9,
            Command::EditReplace => 10,
            Command::EditGo => 11,
            Command::EditDate => 12,
            Command::FormatWordWrap => 13,
            Command::FormatFont => 14,
            Command::ViewStatusBar => 15,
            Command::Help => 16,
        }
    }

    /// The identifier of the command: the commands are numbered in their
    /// order, the first with `ID_HIGHEST`.
    pub open spec fn spec_id(self) -> int {
        ID_HIGHEST + self.index()
    }

    /// The identifier under which the menu reports the command.
    pub fn id(self) -> (id: i32)
        ensures
            id == self.spec_id(),
    {
        let index: i32 = match self {
            Command::FileNew => 0,
            Command::FileNewWindow => 1,
            Command::FileOpen => 2,
            Command::FileSave => 3,
            Command::FileSaveAs => 4,
            Command::FileClose => 5,
            Command::EditDelete => 6,
            Command::EditFind => 7,
            Command::EditFindNext => 8,
            Command::EditFindPrevious => 9,
            Command::EditReplace => 10,
            Command::EditGo => 11,
            Command::EditDate => 12,
            Command::FormatWordWrap => 13,
            Command::FormatFont => 14,
            Command::ViewStatusBar => 15,
            Command::Help => 16,
        };
        ID_HIGHEST + index
    }

    /// The command with the identifier `v`, if there is one.
    pub fn from(v: i32) -> (command: Option<Command>)
        ensures
            match command {
                Some(c) => c.spec_id() == v,
                None => forall|c: Command| c.spec_id() != v,
            },
    {
        let all = [
            Command::FileNew,
            Command::FileNewWindow,
            Command::FileOpen,
            Command::FileSave,
            Command::FileSaveAs,
            Command::FileClose,
            Command::EditDelete,
            Command::EditFind,
            Command::EditFindNext,
            Command::EditFindPrevious,
            Command::EditReplace,
            Command::EditGo,
            Command::EditDate,
            Command::FormatWordWrap,
            Command::FormatFont,
            Command::ViewStatusBar,
            Command::Help,
        ];
        let mut i: usize = 0;
        while i < all.len()
            invariant
                i <= all@.len(),
                all@.len() == 17,
                forall|k: int| 0 <= k < 17 ==> (#[trigger] all@[k]).index() == k,
                forall|k: int| 0 <= k < i ==> (#[trigger] all@[k]).spec_id() != v,
            decreases all@.len() - i,
        {
            let e = all[i];
            if v == e.id() {
                return Some(e);
            }
            i += 1;
        }
        assert forall|c: Command| c.spec_id() != v by {
            assert(all@[c.index()].index() == c.index());
        }
        None
    }
}

impl From<Command> for i32 {
    fn from(w: Command) -> (id: i32) {
        w.id()
    }
}

impl vstd::std_specs::convert::FromSpecImpl<Command> for i32 {
    open spec fn obeys_from_spec() -> bool {
        true
    }

    open spec fn from_spec(w: Command) -> i32 {
        w.spec_id() as i32
    }
}

impl EditorCommand {
    /// What the identifier `id` of a menu entry stands for: the command that
    /// has it, else an entry of the toolkit's.
    pub fn from_id(id: i32) -> (command: EditorCommand)
        ensures
            match command {
                EditorCommand::Command(c) => c.spec_id() == id,
                EditorCommand::StandardEvents(other) => other == id && forall|c: Command|
                    c.spec_id() != id,
            },
    {
        match Command::from(id) {
            Some(c) => EditorCommand::Command(c),
            None => EditorCommand::StandardEvents(id),
        }
    }
}

/// No two commands share an identifier.
pub proof fn lemma_ids_differ(c: Command, d: Command)
    requires
        c.spec_id() == d.spec_id(),
    ensures
        c == d,
{
}

} // verus!
