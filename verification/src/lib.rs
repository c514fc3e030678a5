//! Core of an interactive background file-operation engine.
//!
//! Long-running filesystem operations (recursive delete, copy/move paste,
//! rename, directory navigation) are modelled as explicit state machines:
//! each engine asks its driver to perform one filesystem call or to show one
//! dialog at a time, and the driver feeds the outcome back as an event.  All
//! decisions — which entry to process next, when to ask the user, how a
//! cached answer is reused, which entries a move may delete — live here and
//! are verified; the driver only performs the requested calls.

use vstd::prelude::*;

/// Byte-string helpers: copying, comparing, and building messages.
pub mod bytes;
/// The recursive delete engine.
pub mod delete;
/// Questions and answers crossing the worker-interface boundary.
pub mod dialog;
/// The interface-side directory model: focus, marks, history, search.
pub mod dir_model;
/// Paths as name components, with the operations the walks need.
pub mod fs_path;
/// What holds across whole runs of the engines.
pub mod laws;
/// Directory entries and their listing order.
pub mod listing;
/// The MIME glob table reader.
pub mod mime_glob;
/// The decisions behind the "open file with" question.
pub mod open_with;
/// The recursive paste engine and the whole copy-or-move operation.
pub mod paste;
/// Cached yes-or-no decisions and the progress throttle.
pub mod policy;
/// The single-step rename operation.
pub mod rename;
/// The actions an engine asks of its driver, and the driver's answers.
pub mod task;

verus! {

/// A byte string's deep view is its view.
pub broadcast proof fn lemma_bytes_deep_view(v: Vec<u8>)
    ensures
        #[trigger] v.deep_view() == v@,
{
    assert(v.deep_view() =~= v@);
}

} // verus!
