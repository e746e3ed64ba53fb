use claw_editor::commands::{Command, EditorCommand, ID_ABOUT, ID_SELECTALL};
use claw_editor::editor_ctrl::{Document, EditorAction};
use claw_editor::editor_frame::{Deferred, EditorFrame, OpenDialog, APP_NAME, UNTITLED};
use claw_editor::unsaved_changes::{Confirmation, UI};
use std::cell::RefCell;
use std::rc::Rc;

type Journal = Rc<RefCell<Vec<String>>>;

struct Buffer {
    text: String,
    path: Option<String>,
    modified: bool,
    save_will_fail: bool,
    journal: Journal,
}

impl Buffer {
    fn new(journal: &Journal) -> Self {
        Buffer {
            text: String::new(),
            path: None,
            modified: false,
            save_will_fail: false,
            journal: journal.clone(),
        }
    }

    fn edited(journal: &Journal, path: Option<&str>) -> Self {
        Buffer {
            text: "some text".to_owned(),
            path: path.map(|p| p.to_owned()),
            modified: true,
            save_will_fail: false,
            journal: journal.clone(),
        }
    }
}

impl Document for Buffer {
    fn new_file(&mut self) {
        self.journal.borrow_mut().push("new_file".to_owned());
        self.text.clear();
        self.path = None;
        self.modified = false;
    }

    fn path(&self) -> Option<String> {
        self.path.clone()
    }

    fn is_modified(&self) -> bool {
        self.modified
    }

    fn reset_modified(&mut self) {
        self.journal.borrow_mut().push("reset_modified".to_owned());
        self.modified = false;
    }

    fn load_from(&mut self, file_path: &str) {
        self.journal.borrow_mut().push(format!("load_from {}", file_path));
        self.text = format!("text of {}", file_path);
        self.path = Some(file_path.to_owned());
        self.modified = false;
    }

    fn save_to(&mut self, file_path: &str) -> bool {
        self.journal.borrow_mut().push(format!("save_to {}", file_path));
        if self.save_will_fail {
            return false;
        }
        self.path = Some(file_path.to_owned());
        self.modified = false;
        true
    }
}

struct Dialogs {
    confirm: Confirmation,
    save_path: Option<String>,
    open_path: Option<String>,
    journal: Journal,
}

impl Dialogs {
    fn new(journal: &Journal) -> Self {
        Dialogs {
            confirm: Confirmation::Cancel,
            save_path: None,
            open_path: None,
            journal: journal.clone(),
        }
    }
}

impl UI for Dialogs {
    fn confirm_save(&self) -> Confirmation {
        self.journal.borrow_mut().push("confirm_save".to_owned());
        self.confirm
    }

    fn get_path_to_save(&self) -> Option<String> {
        self.journal.borrow_mut().push("get_path_to_save".to_owned());
        self.save_path.clone()
    }
}

impl OpenDialog for Dialogs {
    fn get_path_to_open(&self) -> Option<String> {
        self.journal.borrow_mut().push("get_path_to_open".to_owned());
        self.open_path.clone()
    }
}

fn journal() -> Journal {
    Rc::new(RefCell::new(Vec::new()))
}

fn entries(journal: &Journal) -> Vec<String> {
    journal.borrow().clone()
}

#[test]
fn new_file_on_a_fresh_document_shows_no_dialog() {
    let journal = journal();
    let mut frame = EditorFrame::new(Dialogs::new(&journal), Buffer::new(&journal));
    frame.editor.text = "typed and saved elsewhere".to_owned();
    frame.new_file();
    assert_eq!(entries(&journal), vec!["new_file"]);
    assert_eq!(frame.editor.text, "");
    assert_eq!(frame.editor.path, None);
    assert!(!frame.editor.modified);
}

#[test]
fn close_of_a_modified_untitled_document_saves_where_the_user_says() {
    let journal = journal();
    let mut dialogs = Dialogs::new(&journal);
    dialogs.confirm = Confirmation::Save;
    dialogs.save_path = Some("/tmp/x.txt".to_owned());
    let mut frame = EditorFrame::new(dialogs, Buffer::edited(&journal, None));
    assert!(frame.on_close());
    assert_eq!(entries(&journal), vec!["confirm_save", "get_path_to_save", "save_to /tmp/x.txt"]);
    assert_eq!(frame.editor.path, Some("/tmp/x.txt".to_owned()));
    assert!(!frame.editor.modified);
}

#[test]
fn open_on_a_modified_titled_document_saves_it_first() {
    let journal = journal();
    let mut dialogs = Dialogs::new(&journal);
    dialogs.confirm = Confirmation::Save;
    let mut frame = EditorFrame::new(dialogs, Buffer::edited(&journal, Some("/tmp/x.txt")));
    frame.open_file(Some("/tmp/y.txt"));
    assert_eq!(
        entries(&journal),
        vec!["confirm_save", "save_to /tmp/x.txt", "load_from /tmp/y.txt"]
    );
    assert_eq!(frame.editor.path, Some("/tmp/y.txt".to_owned()));
    assert_eq!(frame.editor.text, "text of /tmp/y.txt");
    assert!(!frame.editor.modified);
}

#[test]
fn open_asks_for_the_file_after_the_protocol() {
    let journal = journal();
    let mut dialogs = Dialogs::new(&journal);
    dialogs.confirm = Confirmation::Discard;
    dialogs.open_path = Some("/tmp/z.txt".to_owned());
    let mut frame = EditorFrame::new(dialogs, Buffer::edited(&journal, Some("/tmp/x.txt")));
    frame.open_file(None);
    assert_eq!(
        entries(&journal),
        vec!["confirm_save", "reset_modified", "get_path_to_open", "load_from /tmp/z.txt"]
    );
    assert_eq!(frame.editor.path, Some("/tmp/z.txt".to_owned()));
}

#[test]
fn open_without_a_choice_loads_nothing() {
    let journal = journal();
    let mut frame = EditorFrame::new(Dialogs::new(&journal), Buffer::new(&journal));
    frame.editor.path = Some("/tmp/x.txt".to_owned());
    frame.open_file(None);
    assert_eq!(entries(&journal), vec!["get_path_to_open"]);
    assert_eq!(frame.editor.path, Some("/tmp/x.txt".to_owned()));
}

#[test]
fn open_is_given_up_where_the_user_cancels() {
    let journal = journal();
    let mut frame =
        EditorFrame::new(Dialogs::new(&journal), Buffer::edited(&journal, Some("/tmp/x.txt")));
    frame.open_file(Some("/tmp/y.txt"));
    assert_eq!(entries(&journal), vec!["confirm_save"]);
    assert_eq!(frame.editor.path, Some("/tmp/x.txt".to_owned()));
    assert_eq!(frame.editor.text, "some text");
    assert!(frame.editor.modified);
}

#[test]
fn open_is_given_up_where_the_save_fails() {
    let journal = journal();
    let mut dialogs = Dialogs::new(&journal);
    dialogs.confirm = Confirmation::Save;
    let mut frame = EditorFrame::new(dialogs, Buffer::edited(&journal, Some("/tmp/x.txt")));
    frame.editor.save_will_fail = true;
    frame.open_file(Some("/tmp/y.txt"));
    assert_eq!(entries(&journal), vec!["confirm_save", "save_to /tmp/x.txt"]);
    assert_eq!(frame.editor.path, Some("/tmp/x.txt".to_owned()));
    assert!(frame.editor.modified);
}

#[test]
fn new_file_is_given_up_where_the_user_cancels() {
    let journal = journal();
    let mut frame = EditorFrame::new(Dialogs::new(&journal), Buffer::edited(&journal, None));
    frame.new_file();
    assert_eq!(entries(&journal), vec!["confirm_save"]);
    assert_eq!(frame.editor.text, "some text");
    assert!(frame.editor.modified);
}

#[test]
fn new_file_after_discarding() {
    let journal = journal();
    let mut dialogs = Dialogs::new(&journal);
    dialogs.confirm = Confirmation::Discard;
    let mut frame = EditorFrame::new(dialogs, Buffer::edited(&journal, Some("/tmp/x.txt")));
    frame.new_file();
    assert_eq!(entries(&journal), vec!["confirm_save", "reset_modified", "new_file"]);
    assert_eq!(frame.editor.text, "");
    assert_eq!(frame.editor.path, None);
}

#[test]
fn close_is_refused_where_the_user_cancels() {
    let journal = journal();
    let mut frame = EditorFrame::new(Dialogs::new(&journal), Buffer::edited(&journal, None));
    assert!(!frame.on_close());
    assert_eq!(entries(&journal), vec!["confirm_save"]);
    assert!(frame.editor.modified);
}

#[test]
fn close_is_refused_where_the_save_dialog_is_cancelled() {
    let journal = journal();
    let mut dialogs = Dialogs::new(&journal);
    dialogs.confirm = Confirmation::Save;
    let mut frame = EditorFrame::new(dialogs, Buffer::edited(&journal, None));
    assert!(!frame.on_close());
    assert_eq!(entries(&journal), vec!["confirm_save", "get_path_to_save"]);
    assert!(frame.editor.modified);
}

#[test]
fn close_of_an_unmodified_document_asks_nothing() {
    let journal = journal();
    let mut frame = EditorFrame::new(Dialogs::new(&journal), Buffer::new(&journal));
    assert!(frame.on_close());
    assert!(entries(&journal).is_empty());
}

#[test]
fn save_writes_to_the_path_of_the_document() {
    let journal = journal();
    let mut frame =
        EditorFrame::new(Dialogs::new(&journal), Buffer::edited(&journal, Some("/tmp/x.txt")));
    assert_eq!(frame.save(), Ok(()));
    assert_eq!(entries(&journal), vec!["save_to /tmp/x.txt"]);
    assert!(!frame.editor.modified);
}

#[test]
fn save_of_an_untitled_document_asks_for_a_path() {
    let journal = journal();
    let mut dialogs = Dialogs::new(&journal);
    dialogs.save_path = Some("/tmp/new.txt".to_owned());
    let mut frame = EditorFrame::new(dialogs, Buffer::edited(&journal, None));
    assert_eq!(frame.save(), Ok(()));
    assert_eq!(entries(&journal), vec!["get_path_to_save", "save_to /tmp/new.txt"]);
    assert_eq!(frame.editor.path, Some("/tmp/new.txt".to_owned()));
}

#[test]
fn save_as_fails_without_a_choice() {
    let journal = journal();
    let mut frame =
        EditorFrame::new(Dialogs::new(&journal), Buffer::edited(&journal, Some("/tmp/x.txt")));
    assert_eq!(frame.save_as(), Err(()));
    assert_eq!(entries(&journal), vec!["get_path_to_save"]);
    assert_eq!(frame.editor.path, Some("/tmp/x.txt".to_owned()));
    assert!(frame.editor.modified);
}

#[test]
fn save_as_stores_under_the_new_path() {
    let journal = journal();
    let mut dialogs = Dialogs::new(&journal);
    dialogs.save_path = Some("/tmp/other.txt".to_owned());
    let mut frame = EditorFrame::new(dialogs, Buffer::edited(&journal, Some("/tmp/x.txt")));
    assert_eq!(frame.save_as(), Ok(()));
    assert_eq!(entries(&journal), vec!["get_path_to_save", "save_to /tmp/other.txt"]);
    assert_eq!(frame.editor.path, Some("/tmp/other.txt".to_owned()));
    assert!(!frame.editor.modified);
}

#[test]
fn save_to_reports_a_failed_write() {
    let journal = journal();
    let mut frame =
        EditorFrame::new(Dialogs::new(&journal), Buffer::edited(&journal, Some("/tmp/x.txt")));
    frame.editor.save_will_fail = true;
    assert_eq!(frame.save_to("/tmp/y.txt"), Err(()));
    assert_eq!(frame.save(), Err(()));
    assert_eq!(entries(&journal), vec!["save_to /tmp/y.txt", "save_to /tmp/x.txt"]);
    assert_eq!(frame.editor.path, Some("/tmp/x.txt".to_owned()));
    assert!(frame.editor.modified);
}

#[test]
fn title_of_a_fresh_document() {
    let journal = journal();
    let frame = EditorFrame::new(Dialogs::new(&journal), Buffer::new(&journal));
    assert_eq!(frame.title(), "無題 - カニツメエディタ");
    assert_eq!(frame.title(), format!("{} - {}", UNTITLED, APP_NAME));
}

#[test]
fn title_of_a_modified_untitled_document() {
    let journal = journal();
    let frame = EditorFrame::new(Dialogs::new(&journal), Buffer::edited(&journal, None));
    assert_eq!(frame.title(), "*無題 - カニツメエディタ");
}

#[test]
fn title_of_a_stored_document() {
    let journal = journal();
    let mut frame =
        EditorFrame::new(Dialogs::new(&journal), Buffer::edited(&journal, Some("/tmp/x.txt")));
    assert_eq!(frame.title(), "*/tmp/x.txt - カニツメエディタ");
    assert_eq!(frame.save(), Ok(()));
    assert_eq!(frame.title(), "/tmp/x.txt - カニツメエディタ");
}

#[test]
fn commands_with_a_function_behind_them() {
    let known = [
        Command::FileNew,
        Command::FileOpen,
        Command::FileSave,
        Command::FileSaveAs,
        Command::FileClose,
        Command::Help,
        Command::EditDelete,
    ];
    let unknown = [
        Command::FileNewWindow,
        Command::EditFind,
        Command::EditFindNext,
        Command::EditFindPrevious,
        Command::EditReplace,
        Command::EditGo,
        Command::EditDate,
        Command::FormatWordWrap,
        Command::FormatFont,
        Command::ViewStatusBar,
    ];
    for command in known {
        assert!(EditorCommand::Command(command).is_implemented());
    }
    for command in unknown {
        assert!(!EditorCommand::Command(command).is_implemented());
    }
    assert!(EditorCommand::StandardEvents(ID_ABOUT).is_implemented());
    assert!(EditorCommand::StandardEvents(ID_SELECTALL).is_implemented());
    assert!(EditorCommand::StandardEvents(0).is_implemented());
}

#[test]
fn file_commands_are_carried_out_by_the_frame() {
    let journal = journal();
    let mut dialogs = Dialogs::new(&journal);
    dialogs.open_path = Some("/tmp/a.txt".to_owned());
    dialogs.save_path = Some("/tmp/b.txt".to_owned());
    let mut frame = EditorFrame::new(dialogs, Buffer::new(&journal));
    assert_eq!(
        frame.handle_command(&EditorCommand::Command(Command::FileOpen)),
        Deferred::Nothing
    );
    assert_eq!(
        frame.handle_command(&EditorCommand::Command(Command::FileSave)),
        Deferred::Nothing
    );
    assert_eq!(
        frame.handle_command(&EditorCommand::Command(Command::FileSaveAs)),
        Deferred::Nothing
    );
    assert_eq!(frame.handle_command(&EditorCommand::Command(Command::FileNew)), Deferred::Nothing);
    assert_eq!(
        entries(&journal),
        vec![
            "get_path_to_open",
            "load_from /tmp/a.txt",
            "save_to /tmp/a.txt",
            "get_path_to_save",
            "save_to /tmp/b.txt",
            "new_file",
        ]
    );
}

#[test]
fn other_commands_are_left_to_the_toolkit() {
    let journal = journal();
    let mut frame = EditorFrame::new(Dialogs::new(&journal), Buffer::edited(&journal, None));
    assert_eq!(frame.handle_command(&EditorCommand::Command(Command::FileClose)), Deferred::Close);
    assert_eq!(frame.handle_command(&EditorCommand::Command(Command::Help)), Deferred::OpenHelp);
    assert_eq!(
        frame.handle_command(&EditorCommand::Command(Command::EditDelete)),
        Deferred::ToEditor
    );
    assert_eq!(
        frame.handle_command(&EditorCommand::StandardEvents(ID_ABOUT)),
        Deferred::ShowAbout
    );
    assert_eq!(
        frame.handle_command(&EditorCommand::StandardEvents(ID_SELECTALL)),
        Deferred::ToEditor
    );
    assert!(entries(&journal).is_empty());
    assert!(frame.editor.modified);
}

#[test]
fn what_the_text_control_does() {
    assert_eq!(
        EditorAction::of(&EditorCommand::Command(Command::EditDelete)),
        EditorAction::DeleteSelection
    );
    assert_eq!(EditorAction::of(&EditorCommand::Command(Command::FileNew)), EditorAction::Ignore);
    assert_eq!(EditorAction::of(&EditorCommand::Command(Command::Help)), EditorAction::Ignore);
    assert_eq!(
        EditorAction::of(&EditorCommand::StandardEvents(ID_SELECTALL)),
        EditorAction::SelectAll
    );
    assert_eq!(EditorAction::of(&EditorCommand::StandardEvents(5037)), EditorAction::SelectAll);
    assert_eq!(
        EditorAction::of(&EditorCommand::StandardEvents(ID_ABOUT)),
        EditorAction::ProcessEvent
    );
    assert_eq!(EditorAction::of(&EditorCommand::StandardEvents(5032)), EditorAction::ProcessEvent);
}
