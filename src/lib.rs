//! A single-window developer utility shell: a fuzzy-searchable launcher over a
//! fixed catalog of tools, the state machine that switches the active tool, and
//! the logic of the tools themselves.
pub mod fuzzy;
pub mod launcher;
pub mod scale_factor;
pub mod shell;
pub mod tool;
pub mod tools;
