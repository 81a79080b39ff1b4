//! Reversible edits over ordered collections, with an undo/redo history.
pub mod action;
pub mod editable;
pub mod history;
pub mod project;
