//! The protocol that guards unsaved changes. Before a document is thrown away
//! (by a new file, by opening another one, by closing the window) the editor
//! runs it: it asks whether the changes are to be saved, saves or discards
//! them, and says whether the document may now go.
//!
//! The protocol is a short chain of steps. `Step` says what is done next, and
//! its functions say which step follows on each answer; `run` is the whole
//! chain for given answers. `save` and `save_unsaved_change` walk the chain
//! with dialogs that block until they are answered. A window whose dialogs
//! answer later walks it by itself, one step for each answer.

use crate::editor_ctrl::{path_view, save_answered, Document, DocumentView};
use vstd::prelude::*;

verus! {

/// The answer to the question whether the changes are to be saved.
#[derive(Clone, Copy, Debug, PartialEq, Eq, Structural)]
pub enum Confirmation {
    /// Save them, then go on.
    Save,
    /// Give them up, then go on.
    Discard,
    /// Do not go on.
    Cancel,
}

impl Confirmation {
    /// The answer that an optional flag stands for where a dialog reports
    /// yes, no or nothing: yes is `Save`, no is `Discard`, nothing is `Cancel`.
    pub open spec fn of_flag(flag: Option<bool>) -> Confirmation {
        match flag {
            Some(true) => Confirmation::Save,
            Some(false) => Confirmation::Discard,
            None => Confirmation::Cancel,
        }
    }
}

impl From<Option<bool>> for Confirmation {
    fn from(flag: Option<bool>) -> (answer: Confirmation) {
        match flag {
            Some(true) => Confirmation::Save,
            Some(false) => Confirmation::Discard,
            None => Confirmation::Cancel,
        }
    }
}

impl vstd::std_specs::convert::FromSpecImpl<Option<bool>> for Confirmation {
    open spec fn obeys_from_spec() -> bool {
        true
    }

    open spec fn from_spec(flag: Option<bool>) -> Confirmation {
        Confirmation::of_flag(flag)
    }
}

/// The two dialogs that the protocol shows. What they return is the user's
/// choice, so nothing is promised of it.
pub trait UI {
    /// Asks, once, whether the changes are to be saved.
    fn confirm_save(&self) -> Confirmation;

    /// Asks where to save. `None`: the user closed the dialog without a choice.
    fn get_path_to_save(&self) -> Option<String>;
}

/// Where a run of the protocol stands: what it does next.
#[derive(Debug)]
pub enum Step {
    /// It asks whether to save.
    AwaitConfirm,
    /// It asks where to save.
    AwaitPath,
    /// It gives the changes up (`reset_modified`).
    Discard,
    /// It writes the document to this path (`save_to`).
    SaveTo(String),
    /// It ends, and says whether the document may go.
    Proceed(bool),
}

/// A step as contracts see it.
pub enum StepView {
    AwaitConfirm,
    AwaitPath,
    Discard,
    SaveTo(Seq<char>),
    Proceed(bool),
}

impl View for Step {
    type V = StepView;

    open spec fn view(&self) -> StepView {
        match self {
            Step::AwaitConfirm => StepView::AwaitConfirm,
            Step::AwaitPath => StepView::AwaitPath,
            Step::Discard => StepView::Discard,
            Step::SaveTo(path) => StepView::SaveTo(path@),
            Step::Proceed(success) => StepView::Proceed(*success),
        }
    }
}

impl StepView {
    /// The first step: a document without changes may go at once.
    pub open spec fn start(modified: bool) -> StepView {
        if modified {
            StepView::AwaitConfirm
        } else {
            StepView::Proceed(true)
        }
    }

    /// The step after the answer to the question, for a document stored at
    /// `path`.
    pub open spec fn on_confirm(answer: Confirmation, path: Option<Seq<char>>) -> StepView {
        match answer {
            Confirmation::Cancel => StepView::Proceed(false),
            Confirmation::Discard => StepView::Discard,
            Confirmation::Save => match path {
                Some(p) => StepView::SaveTo(p),
                None => StepView::AwaitPath,
            },
        }
    }

    /// The step after the save dialog, for a document that is `modified`.
    /// Without a path nothing is saved, and the document may go only if
    /// nothing is pending.
    pub open spec fn on_path(chosen: Option<Seq<char>>, modified: bool) -> StepView {
        match chosen {
            Some(p) => StepView::SaveTo(p),
            None => StepView::Proceed(!modified),
        }
    }

    /// The step after the changes were discarded or a save was tried, for a
    /// document that is now `modified`: it may go if nothing is pending.
    pub open spec fn on_done(modified: bool) -> StepView {
        StepView::Proceed(!modified)
    }

    /// How many steps can still follow this one.
    pub open spec fn rank(self) -> nat {
        match self {
            StepView::AwaitConfirm => 3,
            StepView::AwaitPath => 2,
            StepView::Discard => 1,
            StepView::SaveTo(_) => 1,
            StepView::Proceed(_) => 0,
        }
    }
}

impl Step {
    /// The first step of a run on a document that is `modified`.
    pub fn start(modified: bool) -> (step: Step)
        ensures
            step@ == StepView::start(modified),
    {
        if modified {
            Step::AwaitConfirm
        } else {
            Step::Proceed(true)
        }
    }

    /// The step after the answer to the question, for a document stored at
    /// `path`.
    pub fn on_confirm(answer: Confirmation, path: Option<String>) -> (step: Step)
        ensures
            step@ == StepView::on_confirm(answer, path_view(path)),
    {
        match answer {
            Confirmation::Cancel => Step::Proceed(false),
            Confirmation::Discard => Step::Discard,
            Confirmation::Save => match path {
                Some(p) => Step::SaveTo(p),
                None => Step::AwaitPath,
            },
        }
    }

    /// The step after the save dialog, for a document that is `modified`.
    pub fn on_path(chosen: Option<String>, modified: bool) -> (step: Step)
        ensures
            step@ == StepView::on_path(path_view(chosen), modified),
    {
        match chosen {
            Some(p) => Step::SaveTo(p),
            None => Step::Proceed(!modified),
        }
    }

    /// The step after the changes were discarded or a save was tried, for a
    /// document that is now `modified`.
    pub fn on_done(modified: bool) -> (step: Step)
        ensures
            step@ == StepView::on_done(modified),
    {
        Step::Proceed(!modified)
    }
}

/// What the surroundings answer during one run: the user in the two dialogs,
/// and the document when it is told to save. An answer that the run does not
/// ask for plays no part.
pub struct Replies {
    /// The answer to `confirm_save`.
    pub answer: Confirmation,
    /// The answer to `get_path_to_save`.
    pub chosen: Option<Seq<char>>,
    /// The answer to `save_to`.
    pub saved: bool,
}

/// One run of the protocol.
pub struct Run {
    /// The steps that were taken, in order. Each step but the last is one
    /// call: of a dialog or of the document.
    pub steps: Seq<StepView>,
    /// The document at the end.
    pub doc: DocumentView,
    /// Whether the document may go.
    pub proceed: bool,
}

impl Run {
    /// This run with `step` taken before it.
    pub open spec fn after(self, step: StepView) -> Run {
        Run { steps: seq![step] + self.steps, doc: self.doc, proceed: self.proceed }
    }
}

/// The run that begins at `step` with the document `doc`.
pub open spec fn run_from(step: StepView, doc: DocumentView, replies: Replies) -> Run
    decreases step.rank(),
{
    match step {
        StepView::AwaitConfirm => run_from(
            StepView::on_confirm(replies.answer, doc.path),
            doc,
            replies,
        ).after(step),
        StepView::AwaitPath => run_from(
            StepView::on_path(replies.chosen, doc.modified),
            doc,
            replies,
        ).after(step),
        StepView::Discard => run_from(
            StepView::on_done(doc.discarded().modified),
            doc.discarded(),
            replies,
        ).after(step),
        StepView::SaveTo(path) => run_from(
            StepView::on_done(doc.saved(path, replies.saved).modified),
            doc.saved(path, replies.saved),
            replies,
        ).after(step),
        StepView::Proceed(success) => Run { steps: seq![step], doc: doc, proceed: success },
    }
}

/// The run of the protocol on the document `doc`.
pub open spec fn run(doc: DocumentView, replies: Replies) -> Run {
    run_from(StepView::start(doc.modified), doc, replies)
}

/// A document without changes is let through at once: no dialog is shown,
/// nothing is asked of the document, and it stays as it is.
pub proof fn lemma_unmodified_is_let_through(doc: DocumentView, replies: Replies)
    requires
        !doc.modified,
    ensures
        run(doc, replies) == (Run { steps: seq![StepView::Proceed(true)], doc: doc, proceed: true }),
{
}

/// Where the user cancels at the question, the run ends there: the document
/// may not go, no save dialog is shown, and nothing is saved or discarded.
pub proof fn lemma_cancel_stops_the_run(doc: DocumentView, replies: Replies)
    requires
        doc.modified,
        replies.answer == Confirmation::Cancel,
    ensures
        run(doc, replies) == (Run {
            steps: seq![StepView::AwaitConfirm, StepView::Proceed(false)],
            doc: doc,
            proceed: false,
        }),
{
    reveal_with_fuel(run_from, 4);
    assert(run(doc, replies).steps =~= seq![StepView::AwaitConfirm, StepView::Proceed(false)]);
}

/// Where the user lets the changes go, they are discarded once and never
/// saved, no save dialog is shown, and the document may go.
pub proof fn lemma_discard_resets_once(doc: DocumentView, replies: Replies)
    requires
        doc.modified,
        replies.answer == Confirmation::Discard,
    ensures
        run(doc, replies) == (Run {
            steps: seq![StepView::AwaitConfirm, StepView::Discard, StepView::Proceed(true)],
            doc: doc.discarded(),
            proceed: true,
        }),
{
    reveal_with_fuel(run_from, 4);
    assert(run(doc, replies).steps =~= seq![
        StepView::AwaitConfirm,
        StepView::Discard,
        StepView::Proceed(true),
    ]);
}

/// Where the user wants the changes saved and the document has a path, it is
/// written there without a save dialog, and may go if the write worked.
pub proof fn lemma_save_goes_to_the_known_path(
    doc: DocumentView,
    path: Seq<char>,
    replies: Replies,
)
    requires
        doc.modified,
        doc.path == Some(path),
        replies.answer == Confirmation::Save,
    ensures
        run(doc, replies) == (Run {
            steps: seq![
                StepView::AwaitConfirm,
                StepView::SaveTo(path),
                StepView::Proceed(replies.saved),
            ],
            doc: doc.saved(path, replies.saved),
            proceed: replies.saved,
        }),
{
    reveal_with_fuel(run_from, 4);
    assert(run(doc, replies).steps =~= seq![
        StepView::AwaitConfirm,
        StepView::SaveTo(path),
        StepView::Proceed(replies.saved),
    ]);
}

/// Where the user wants the changes saved and the document has no path, the
/// save dialog is shown. Without a choice there nothing is saved and the
/// document, still modified, may not go.
pub proof fn lemma_save_dialog_cancelled(doc: DocumentView, replies: Replies)
    requires
        doc.modified,
        doc.path is None,
        replies.answer == Confirmation::Save,
        replies.chosen is None,
    ensures
        run(doc, replies) == (Run {
            steps: seq![StepView::AwaitConfirm, StepView::AwaitPath, StepView::Proceed(false)],
            doc: doc,
            proceed: false,
        }),
{
    reveal_with_fuel(run_from, 4);
    assert(run(doc, replies).steps =~= seq![
        StepView::AwaitConfirm,
        StepView::AwaitPath,
        StepView::Proceed(false),
    ]);
}

/// Where the user wants the changes saved and the document has no path, the
/// save dialog is shown. The document is written to the path chosen there,
/// and may go if the write worked.
pub proof fn lemma_save_goes_to_the_chosen_path(
    doc: DocumentView,
    path: Seq<char>,
    replies: Replies,
)
    requires
        doc.modified,
        doc.path is None,
        replies.answer == Confirmation::Save,
        replies.chosen == Some(path),
    ensures
        run(doc, replies) == (Run {
            steps: seq![
                StepView::AwaitConfirm,
                StepView::AwaitPath,
                StepView::SaveTo(path),
                StepView::Proceed(replies.saved),
            ],
            doc: doc.saved(path, replies.saved),
            proceed: replies.saved,
        }),
{
    reveal_with_fuel(run_from, 4);
    assert(run(doc, replies).steps =~= seq![
        StepView::AwaitConfirm,
        StepView::AwaitPath,
        StepView::SaveTo(path),
        StepView::Proceed(replies.saved),
    ]);
}

impl StepView {
    /// Whether the step changes the document: by discarding or by a save.
    pub open spec fn changes_document(self) -> bool {
        self is Discard || self is SaveTo
    }
}

/// Whatever is answered, the run is one of six: that of a document without
/// changes, of a cancelled question, of discarded changes, of a save to the
/// known path, of a cancelled save dialog, or of a save to the chosen path.
proof fn lemma_run_is_one_of_six(doc: DocumentView, replies: Replies)
    ensures
        !doc.modified ==> run(doc, replies).steps == seq![StepView::Proceed(true)] && run(
            doc,
            replies,
        ).doc == doc && run(doc, replies).proceed,
        doc.modified ==> match replies.answer {
            Confirmation::Cancel => run(doc, replies) == (Run {
                steps: seq![StepView::AwaitConfirm, StepView::Proceed(false)],
                doc: doc,
                proceed: false,
            }),
            Confirmation::Discard => run(doc, replies) == (Run {
                steps: seq![StepView::AwaitConfirm, StepView::Discard, StepView::Proceed(true)],
                doc: doc.discarded(),
                proceed: true,
            }),
            Confirmation::Save => match replies.writes_to(doc) {
                Some(path) => run(doc, replies).doc == doc.saved(path, replies.saved) && run(
                    doc,
                    replies,
                ).proceed == replies.saved && run(doc, replies).steps == (if doc.path is Some {
                    seq![
                        StepView::AwaitConfirm,
                        StepView::SaveTo(path),
                        StepView::Proceed(replies.saved),
                    ]
                } else {
                    seq![
                        StepView::AwaitConfirm,
                        StepView::AwaitPath,
                        StepView::SaveTo(path),
                        StepView::Proceed(replies.saved),
                    ]
                }),
                None => run(doc, replies) == (Run {
                    steps: seq![
                        StepView::AwaitConfirm,
                        StepView::AwaitPath,
                        StepView::Proceed(false),
                    ],
                    doc: doc,
                    proceed: false,
                }),
            },
        },
{
    if doc.modified {
        match replies.answer {
            Confirmation::Cancel => lemma_cancel_stops_the_run(doc, replies),
            Confirmation::Discard => lemma_discard_resets_once(doc, replies),
            Confirmation::Save => match doc.path {
                Some(path) => lemma_save_goes_to_the_known_path(doc, path, replies),
                None => match replies.chosen {
                    Some(path) => lemma_save_goes_to_the_chosen_path(doc, path, replies),
                    None => lemma_save_dialog_cancelled(doc, replies),
                },
            },
        }
    } else {
        lemma_unmodified_is_let_through(doc, replies);
    }
}

/// Whatever is answered, a run asks each question at most once, changes the
/// document at most once (it discards, or saves to the known path, or saves
/// to the chosen path, and never two of these), and ends with the step that
/// says whether the document may go.
pub proof fn lemma_run_shape(doc: DocumentView, replies: Replies)
    ensures
        1 <= run(doc, replies).steps.len() <= 4,
        run(doc, replies).steps.last() == StepView::Proceed(run(doc, replies).proceed),
        forall|i: int, j: int|
            0 <= i < j < run(doc, replies).steps.len() ==> run(doc, replies).steps[i].rank() > run(
                doc,
                replies,
            ).steps[j].rank(),
        forall|i: int, j: int|
            0 <= i < j < run(doc, replies).steps.len() ==> !(run(
                doc,
                replies,
            ).steps[i].changes_document() && run(doc, replies).steps[j].changes_document()),
{
    lemma_run_is_one_of_six(doc, replies);
}

/// Whatever is answered, a run lets the document go exactly when nothing is
/// pending at its end, and changes the document at most once: by discarding
/// or by one save. A document that has a path keeps it, and one that may not
/// go is as it was.
pub proof fn lemma_run_ends_settled(doc: DocumentView, replies: Replies)
    ensures
        run(doc, replies).proceed == !run(doc, replies).doc.modified,
        doc.path is Some ==> run(doc, replies).doc.path == doc.path,
        !run(doc, replies).proceed ==> run(doc, replies).doc == doc,
        run(doc, replies).doc == doc || run(doc, replies).doc == doc.discarded() || exists|
            path: Seq<char>,
        |
            run(doc, replies).doc == #[trigger] doc.saved(path, true),
{
    lemma_run_is_one_of_six(doc, replies);
    if doc.modified && replies.answer == Confirmation::Save && replies.saved {
        if let Some(path) = replies.writes_to(doc) {
            assert(run(doc, replies).doc == doc.saved(path, true));
        }
    }
}

impl Replies {
    /// Whether a run on `doc` asks where to save: the document has changes,
    /// the user wants them saved, and it has no path.
    pub open spec fn asks_path(self, doc: DocumentView) -> bool {
        doc.modified && self.answer == Confirmation::Save && doc.path is None
    }

    /// Whether a run on `doc` discards the changes.
    pub open spec fn discards(self, doc: DocumentView) -> bool {
        doc.modified && self.answer == Confirmation::Discard
    }

    /// The path to which a run on `doc` writes the document, if it writes it:
    /// the document's own path, else the one chosen in the save dialog.
    pub open spec fn writes_to(self, doc: DocumentView) -> Option<Seq<char>> {
        if doc.modified && self.answer == Confirmation::Save {
            match doc.path {
                Some(path) => Some(path),
                None => self.chosen,
            }
        } else {
            None
        }
    }

    /// Whether a run on `doc` calls on the document to change: to discard or
    /// to save.
    pub open spec fn changes(self, doc: DocumentView) -> bool {
        self.discards(doc) || self.writes_to(doc) is Some
    }
}

/// The questions and changes that the replies name are the steps of the run:
/// it asks whether to save exactly where the document has changes, asks for a
/// path exactly where `asks_path` says so, discards exactly where `discards`
/// says so, and writes to a path exactly where `writes_to` names it.
pub proof fn lemma_replies_name_the_steps(doc: DocumentView, replies: Replies)
    ensures
        run(doc, replies).steps.contains(StepView::AwaitConfirm) <==> doc.modified,
        run(doc, replies).steps.contains(StepView::AwaitPath) <==> replies.asks_path(doc),
        run(doc, replies).steps.contains(StepView::Discard) <==> replies.discards(doc),
        forall|path: Seq<char>|
            #[trigger] run(doc, replies).steps.contains(StepView::SaveTo(path))
                <==> replies.writes_to(doc) == Some(path),
{
    lemma_run_is_one_of_six(doc, replies);
    let steps = run(doc, replies).steps;
    if doc.modified {
        assert(steps[0] == StepView::AwaitConfirm);
        if replies.asks_path(doc) {
            assert(steps[1] == StepView::AwaitPath);
        }
        if replies.discards(doc) {
            assert(steps[1] == StepView::Discard);
        }
        if let Some(path) = replies.writes_to(doc) {
            assert(steps[steps.len() - 2] == StepView::SaveTo(path));
        }
    }
}

/// The dialogs of `ui` gave these replies where a run on `doc` asks them: the
/// question whether to save is asked of a document with changes, and
/// `replies.answer` is what it returned; the save dialog is shown where the
/// run asks for a path, and `replies.chosen` is what it returned.
pub open spec fn dialogs_answered<U: UI>(ui: &U, doc: DocumentView, replies: Replies) -> bool {
    &&& doc.modified ==> call_ensures(U::confirm_save, (ui,), replies.answer)
    &&& replies.asks_path(doc) ==> exists|chosen: Option<String>|
        path_view(chosen) == replies.chosen && #[trigger] call_ensures(
            U::get_path_to_save,
            (ui,),
            chosen,
        )
}

/// The document behind `told` was told what a run with these replies tells
/// it: to save to the path that the run writes to, with `replies.saved` as
/// its answer, or to discard its changes.
pub open spec fn document_told<D: Document>(told: &mut D, replies: Replies) -> bool {
    match replies.writes_to(told@) {
        Some(path) => save_answered(told, path, replies.saved),
        None => replies.discards(told@) ==> call_ensures(D::reset_modified, (told,), ()),
    }
}

/// The protocol was run on the document `before` with the dialogs of `ui`:
/// the replies are what the dialogs returned, `left` is the document at the
/// end of that run and `proceed` its result. A run that does not call on the
/// document to change leaves it wholly as it was.
pub open spec fn protocol_ran<D: Document, U: UI>(
    ui: &U,
    before: D,
    left: D,
    replies: Replies,
    proceed: bool,
) -> bool {
    &&& dialogs_answered(ui, before@, replies)
    &&& left@ == run(before@, replies).doc
    &&& proceed == run(before@, replies).proceed
    &&& !replies.changes(before@) ==> left == before
}

/// Runs the protocol on `doc` with the dialogs of `ui`, and says whether the
/// document may go.
///
/// The result and the document at the end are those of the run of the
/// protocol for what the dialogs and the document answered. Where that run
/// discards or saves, the document was told so, once. A document without
/// changes is let through as it is; one that is held back is as it was.
pub fn save_unsaved_change<D: Document, U: UI>(doc: &mut D, ui: &U) -> (proceed: bool)
    ensures
        exists|replies: Replies|
            {
                &&& #[trigger] protocol_ran(ui, *old(doc), *final(doc), replies, proceed)
                &&& replies.changes(old(doc)@) ==> exists|told: &mut D|
                    {
                        &&& *told == *old(doc)
                        &&& *final(told) == *final(doc)
                        &&& #[trigger] document_told(told, replies)
                    }
            },
        !old(doc)@.modified ==> *final(doc) == *old(doc),
        proceed == !final(doc)@.modified,
        !proceed ==> final(doc)@ == old(doc)@,
{
    let ghost before = doc@;
    let ghost mut seen = Replies { answer: Confirmation::Cancel, chosen: None, saved: false };
    let mut step = Step::start(doc.is_modified());
    loop
        invariant
            before == old(doc)@,
            step@.rank() > 0 ==> before.modified && *doc == *old(doc),
            step@ matches StepView::Proceed(success) ==> success == !doc@.modified,
            forall|replies: Replies|
                {
                    &&& step@.rank() < 3 ==> replies.answer == seen.answer
                    &&& step@.rank() < 2 ==> replies.chosen == seen.chosen
                    &&& step@.rank() < 1 ==> replies.saved == seen.saved
                } ==> {
                    &&& (#[trigger] run(before, replies)).doc == run_from(step@, doc@, replies).doc
                    &&& run(before, replies).proceed == run_from(step@, doc@, replies).proceed
                },
            step@.rank() < 3 && before.modified ==> call_ensures(
                U::confirm_save,
                (ui,),
                seen.answer,
            ),
            step@.rank() < 2 && seen.asks_path(before) ==> exists|chosen: Option<String>|
                path_view(chosen) == seen.chosen && #[trigger] call_ensures(
                    U::get_path_to_save,
                    (ui,),
                    chosen,
                ),
            step@ is AwaitPath ==> seen.asks_path(before),
            step@ is Discard ==> seen.discards(before),
            step@ matches StepView::SaveTo(path) ==> seen.writes_to(before) == Some(path),
            step@ is Proceed ==> if seen.changes(before) {
                exists|told: &mut D|
                    {
                        &&& *told == *old(doc)
                        &&& *final(told) == *doc
                        &&& #[trigger] document_told(told, seen)
                    }
            } else {
                *doc == *old(doc)
            },
        decreases step@.rank(),
    {
        match step {
            Step::AwaitConfirm => {
                let answer = ui.confirm_save();
                proof {
                    seen = Replies { answer: answer, chosen: seen.chosen, saved: seen.saved };
                }
                step = Step::on_confirm(answer, doc.path());
            },
            Step::AwaitPath => {
                let chosen = ui.get_path_to_save();
                proof {
                    seen = Replies { answer: seen.answer, chosen: path_view(chosen), saved: seen.saved };
                }
                step = Step::on_path(chosen, doc.is_modified());
            },
            Step::Discard => {
                doc.reset_modified();
                proof {
                    let told = choose|told: &mut D|
                        *told == *old(doc) && *final(told) == *doc && #[trigger] call_ensures(
                            D::reset_modified,
                            (told,),
                            (),
                        );
                    assert(document_told(told, seen));
                }
                step = Step::on_done(doc.is_modified());
            },
            Step::SaveTo(path) => {
                let target = path.as_str();
                let saved = doc.save_to(target);
                proof {
                    seen = Replies { answer: seen.answer, chosen: seen.chosen, saved: saved };
                    let told = choose|told: &mut D|
                        *told == *old(doc) && *final(told) == *doc && #[trigger] call_ensures(
                            D::save_to,
                            (told, target),
                            saved,
                        );
                    assert(save_answered(told, path@, saved));
                    assert(document_told(told, seen));
                }
                step = Step::on_done(doc.is_modified());
            },
            Step::Proceed(success) => {
                proof {
                    assert(run(before, seen).doc == doc@ && run(before, seen).proceed == success);
                    lemma_run_ends_settled(before, seen);
                    assert(protocol_ran(ui, *old(doc), *doc, seen, success));
                }
                return success;
            },
        }
    }
}

/// Runs the protocol on `doc` with the dialogs of `ui`, then hands the
/// document to `on_complete`, with the word whether it may go: `true` where
/// nothing is pending any more, `false` where the user cancelled or the save
/// did not work.
///
/// `on_complete` is called once, on the document as the run of the protocol
/// left it and with the result of that run. It must accept whatever a run can
/// end in.
pub fn save<D: Document, U: UI, CB: Fn(&mut D, bool)>(doc: &mut D, ui: &U, on_complete: CB)
    requires
        forall|d: &mut D, success: bool, replies: Replies|
            {
                &&& (#[trigger] run(old(doc)@, replies)).doc == d@
                &&& run(old(doc)@, replies).proceed == success
                &&& !old(doc)@.modified ==> *d == *old(doc)
            } ==> #[trigger] on_complete.requires((d, success)),
    ensures
        exists|d: &mut D, success: bool, replies: Replies|
            {
                &&& #[trigger] on_complete.ensures((d, success), ())
                &&& *final(d) == *final(doc)
                &&& #[trigger] protocol_ran(ui, *old(doc), *d, replies, success)
                &&& replies.changes(old(doc)@) ==> exists|told: &mut D|
                    {
                        &&& *told == *old(doc)
                        &&& *final(told) == *d
                        &&& #[trigger] document_told(told, replies)
                    }
                &&& success == !d@.modified
            },
{
    let success = save_unsaved_change(doc, ui);
    on_complete(doc, success);
}

} // verus!
