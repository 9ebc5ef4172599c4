//! The outcome of comparing an entry between two scans.
use vstd::prelude::*;
use crate::lang::{
    add_symbol, change_symbol, removal_symbol, new_tooltip_text, updated_tooltip_text,
    removed_tooltip_text, ADD_SYMBOL, CHANGE_SYMBOL, REMOVAL_SYMBOL,
};

verus! {

#[derive(Clone, Copy, Debug, PartialEq, Eq, Structural)]
pub enum ScanChange {
    New,
    Different,
    Removed,
    Same,
    Unknown,
}

impl ScanChange {
    /// The one-character symbol shown for this outcome.
    pub open spec fn spec_symbol(self) -> Seq<char> {
        match self {
            ScanChange::New => add_symbol(),
            ScanChange::Different => change_symbol(),
            ScanChange::Removed => removal_symbol(),
            ScanChange::Same => seq!['='],
            ScanChange::Unknown => seq!['?'],
        }
    }

    /// The tooltip text shown for this outcome, if it has one.
    pub open spec fn spec_tooltip(self) -> Option<Seq<char>> {
        match self {
            ScanChange::New => Some(new_tooltip_text()),
            ScanChange::Different => Some(updated_tooltip_text()),
            ScanChange::Removed => Some(removed_tooltip_text()),
            ScanChange::Same => None,
            ScanChange::Unknown => None,
        }
    }

    pub fn symbol(&self) -> (r: &'static str)
        ensures
            r@ == self.spec_symbol(),
    {
        match self {
            ScanChange::New => {
                proof {
                    reveal_strlit("+");
                }
                ADD_SYMBOL
            },
            ScanChange::Different => {
                proof {
                    reveal_strlit("Δ");
                }
                CHANGE_SYMBOL
            },
            ScanChange::Removed => {
                proof {
                    reveal_strlit("x");
                }
                REMOVAL_SYMBOL
            },
            ScanChange::Same => {
                proof {
                    reveal_strlit("=");
                }
                "="
            },
            ScanChange::Unknown => {
                proof {
                    reveal_strlit("?");
                }
                "?"
            },
        }
    }
}

} // verus!
