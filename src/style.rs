//! Keys into the theme's style tables. The badge only selects among them.
use vstd::prelude::*;
use crate::scan::ScanChange;

verus! {

#[derive(Clone, Copy, Debug, PartialEq, Eq, Structural)]
pub enum ContainerStyle {
    Badge,
    BadgeActivated,
    BadgeFaded,
    ChangeBadge(ScanChange),
    Tooltip,
}

#[derive(Clone, Copy, Debug, PartialEq, Eq, Structural)]
pub enum ButtonStyle {
    Badge,
}

} // verus!
