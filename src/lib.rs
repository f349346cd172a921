//! Renders user-supplied templates against the metadata of the media that a
//! player reports, with three helpers (`join`, `or`, `time`), and decides what
//! a watching loop prints; also the settings, messages and metadata fields of
//! the commands that control players.
use vstd::prelude::*;

pub mod commands;
pub mod format;
pub mod metadata;
pub mod settings;
pub mod value;

verus! {

} // verus!
