//! The action that a clickable badge reports when it is pressed.
use vstd::prelude::*;

verus! {

/// An action payload. The badge passes it through unchanged and looks inside
/// only to recognise a duplicate filter that is not scoped to one game.
#[derive(Clone, Debug, PartialEq, Eq)]
pub enum Message {
    /// Toggle the filter on duplicated entries, for one game or for all.
    FilterDuplicates { restriction: Option<bool>, game: Option<String> },
    /// Any other action, numbered by the consumer.
    Action(u64),
}

impl Message {
    pub open spec fn spec_is_global_duplicate_filter(self) -> bool {
        match self {
            Message::FilterDuplicates { game: None, .. } => true,
            _ => false,
        }
    }

    /// Whether this is the duplicate filter for no specific game.
    pub fn is_global_duplicate_filter(&self) -> (r: bool)
        ensures
            r == self.spec_is_global_duplicate_filter(),
    {
        match self {
            Message::FilterDuplicates { game: None, .. } => true,
            _ => false,
        }
    }
}

} // verus!
