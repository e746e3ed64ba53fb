//! The logic of a small text editor, apart from its window toolkit: the
//! protocol that guards unsaved changes, the channel on which a document
//! reports that it was edited, the commands of the menu and what the frame
//! does with them.

pub mod commands;
pub mod editor_ctrl;
pub mod editor_frame;
pub mod observer;
pub mod unsaved_changes;
