//! Core of a terminal editor for topic-structured documentation: per-topic
//! line buffers with a cursor and a scrolling viewport, the exit dialog's
//! selection, the topic list, and the key dispatcher that ties them together.

pub mod content;
pub mod events;
pub mod popup;
pub mod screen;
pub mod text;

use vstd::prelude::*;

verus! {

/// Where the document is saved: a directory, created when missing, and the
/// name of the file in it.
pub struct CliConfig {
    pub output_dir: String,
    pub file_name: String,
}

} // verus!
