//! Core of a terminal tool for reading and annotating diffs: forge data
//! types, the editor hand-off, process-output handling and git staging.

pub mod editor;
pub mod error;
pub mod forge;
pub mod process;
pub mod text;
pub mod staging;
