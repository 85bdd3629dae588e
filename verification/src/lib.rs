//! A keyboard-debugger panel: a single editable text line beside an
//! append-only log of textual input-event descriptions, together with the
//! decision rules of the window loop that feeds it.

pub mod dispatch;
pub mod event;
pub mod panel;
