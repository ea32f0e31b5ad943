//! Vocabulary of the list leaf widget. The widget's painting and item logic
//! live with the embedding application; the core only holds the
//! selection-mode vocabulary the widget is configured with.

use vstd::prelude::*;

verus! {

/// How many entries of a list may be selected at once.
#[derive(Clone, Copy, Debug, PartialEq, Eq, Structural)]
pub enum SelectionMode {
    /// At most one entry.
    Single,
    /// Any number of entries.
    Multiple,
}

} // verus!
