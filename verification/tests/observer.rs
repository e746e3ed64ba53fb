use claw_editor::editor_ctrl::DocumentEvent;
use claw_editor::observer::{Observer, Subject};
use std::cell::RefCell;
use std::rc::{Rc, Weak};

type Log = Rc<RefCell<Vec<(&'static str, u32)>>>;

struct Recorder {
    name: &'static str,
    log: Log,
}

impl Observer<u32> for Recorder {
    fn on_notify(&self, event: u32) {
        self.log.borrow_mut().push((self.name, event));
    }
}

/// A handler that refers to an observer without owning it.
struct Weakly(Weak<Recorder>);

impl Observer<u32> for Weakly {
    fn on_notify(&self, event: u32) {
        if let Some(observer) = self.0.upgrade() {
            observer.on_notify(event);
        }
    }
}

struct TitleUpdater {
    updates: Rc<RefCell<usize>>,
}

impl Observer<DocumentEvent> for TitleUpdater {
    fn on_notify(&self, event: DocumentEvent) {
        match event {
            DocumentEvent::TextModified => *self.updates.borrow_mut() += 1,
        }
    }
}

fn log() -> Log {
    Rc::new(RefCell::new(Vec::new()))
}

fn recorder(name: &'static str, log: &Log) -> Box<Recorder> {
    Box::new(Recorder { name, log: log.clone() })
}

#[test]
fn nobody_listens_to_a_new_subject() {
    let subject: Subject<u32> = Subject::new();
    assert_eq!(subject.notify_event(1), Vec::<usize>::new());
}

#[test]
fn observers_are_served_in_the_order_of_registration() {
    let log = log();
    let mut subject: Subject<u32> = Subject::new();
    assert_eq!(subject.add_observer(recorder("a", &log)), 0);
    assert_eq!(subject.add_observer(recorder("b", &log)), 1);
    assert_eq!(subject.add_observer(recorder("c", &log)), 2);
    assert_eq!(subject.notify_event(7), vec![0, 1, 2]);
    assert_eq!(*log.borrow(), vec![("a", 7), ("b", 7), ("c", 7)]);
}

#[test]
fn an_observer_registered_twice_hears_twice() {
    let log = log();
    let a = Rc::new(Recorder { name: "a", log: log.clone() });
    let mut subject: Subject<u32> = Subject::new();
    subject.add_observer(Box::new(Weakly(Rc::downgrade(&a))));
    subject.add_observer(Box::new(Weakly(Rc::downgrade(&a))));
    assert_eq!(subject.notify_event(3), vec![0, 1]);
    assert_eq!(*log.borrow(), vec![("a", 3), ("a", 3)]);
}

#[test]
fn a_removed_observer_is_passed_over() {
    let log = log();
    let mut subject: Subject<u32> = Subject::new();
    subject.add_observer(recorder("a", &log));
    let b = subject.add_observer(recorder("b", &log));
    subject.add_observer(recorder("c", &log));
    assert!(subject.remove_observer(b));
    assert_eq!(subject.notify_event(9), vec![0, 2]);
    assert_eq!(*log.borrow(), vec![("a", 9), ("c", 9)]);
}

#[test]
fn removing_twice_or_an_unknown_token_changes_nothing() {
    let log = log();
    let mut subject: Subject<u32> = Subject::new();
    let a = subject.add_observer(recorder("a", &log));
    subject.add_observer(recorder("b", &log));
    assert!(!subject.remove_observer(5));
    assert_eq!(subject.notify_event(1), vec![0, 1]);
    assert!(subject.remove_observer(a));
    assert!(!subject.remove_observer(a));
    assert_eq!(subject.notify_event(2), vec![1]);
    assert_eq!(*log.borrow(), vec![("a", 1), ("b", 1), ("b", 2)]);
}

#[test]
fn tokens_are_not_given_out_again() {
    let log = log();
    let mut subject: Subject<u32> = Subject::new();
    let a = subject.add_observer(recorder("a", &log));
    assert!(subject.remove_observer(a));
    assert_eq!(subject.add_observer(recorder("b", &log)), 1);
    assert_eq!(subject.notify_event(4), vec![1]);
    assert_eq!(*log.borrow(), vec![("b", 4)]);
}

#[test]
fn the_subject_lets_go_of_a_removed_handler() {
    let log = log();
    let mut subject: Subject<u32> = Subject::new();
    let token = subject.add_observer(recorder("a", &log));
    assert_eq!(Rc::strong_count(&log), 2);
    assert!(subject.remove_observer(token));
    assert_eq!(Rc::strong_count(&log), 1);
}

#[test]
fn an_observer_that_is_gone_does_not_disturb_the_others() {
    let log = log();
    let a = Rc::new(Recorder { name: "a", log: log.clone() });
    let b = Rc::new(Recorder { name: "b", log: log.clone() });
    let c = Rc::new(Recorder { name: "c", log: log.clone() });
    let mut subject: Subject<u32> = Subject::new();
    subject.add_observer(Box::new(Weakly(Rc::downgrade(&a))));
    subject.add_observer(Box::new(Weakly(Rc::downgrade(&b))));
    subject.add_observer(Box::new(Weakly(Rc::downgrade(&c))));
    assert_eq!(Rc::strong_count(&b), 1);
    drop(b);
    subject.notify_event(5);
    assert_eq!(*log.borrow(), vec![("a", 5), ("c", 5)]);
}

#[test]
fn a_document_event_reaches_the_title() {
    let updates = Rc::new(RefCell::new(0));
    let mut subject: Subject<DocumentEvent> = Subject::new();
    subject.add_observer(Box::new(TitleUpdater { updates: updates.clone() }));
    subject.notify_event(DocumentEvent::TextModified);
    subject.notify_event(DocumentEvent::TextModified);
    assert_eq!(*updates.borrow(), 2);
}
