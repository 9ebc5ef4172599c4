//! The badge builder and the resolution of a finished badge into a view.
use vstd::prelude::*;
use crate::lang::{
    add_symbol, change_symbol, decimal, new_tooltip, new_tooltip_text, prefixed_count,
    updated_tooltip, updated_tooltip_text, removed_tooltip, ADD_SYMBOL, CHANGE_SYMBOL,
};
use crate::message::Message;
use crate::scan::ScanChange;
use crate::style::{ButtonStyle, ContainerStyle};
use crate::view::{Annotated, BadgeView, ButtonView, Content, Label, Padding, Position, TooltipView, Width};

verus! {

/// Width of a status badge, so that a column of them lines up.
pub const CHANGE_BADGE_WIDTH: u16 = 10;

/// Font size of the label.
pub const TEXT_SIZE: u16 = 14;

/// Font size of the tooltip.
pub const TOOLTIP_SIZE: u16 = 16;

/// Distance between the tooltip and the badge.
pub const TOOLTIP_GAP: u16 = 5;

/// Space above the badge.
pub const TOP_PADDING: u16 = 3;

/// Space above and below the label's text.
pub const LABEL_PADDING_VERTICAL: u16 = 2;

/// Space left and right of the label's text.
pub const LABEL_PADDING_HORIZONTAL: u16 = 12;

/// The text of an optional string.
pub open spec fn opt_view(o: Option<String>) -> Option<Seq<char>> {
    match o {
        Some(s) => Some(s@),
        None => None,
    }
}

/// The configuration of a badge, filled in by the constructors and setters
/// and consumed by `view`.
#[derive(Clone, Debug, PartialEq, Eq)]
pub struct Badge {
    pub text: String,
    pub left_margin: u16,
    pub change: Option<ScanChange>,
    pub tooltip: Option<String>,
    pub on_press: Option<Message>,
    pub faded: bool,
    pub width: Option<u16>,
}

impl Badge {
    /// What `scan_change(change)` builds.
    pub open spec fn spec_from_change(self, change: ScanChange) -> bool {
        &&& self.text@ == change.spec_symbol()
        &&& self.change == Some(change)
        &&& opt_view(self.tooltip) == change.spec_tooltip()
        &&& self.width == Some(CHANGE_BADGE_WIDTH)
        &&& self.left_margin == 0
        &&& self.on_press is None
        &&& !self.faded
    }

    /// What a constructor with a count builds: `symbol` and the count as
    /// text, the status's tooltip, and a width that follows the text.
    pub open spec fn spec_counted(self, change: ScanChange, symbol: Seq<char>, count: usize) -> bool {
        &&& self.text@ == symbol + decimal(count as nat)
        &&& self.change == Some(change)
        &&& opt_view(self.tooltip) == change.spec_tooltip()
        &&& self.width is None
        &&& self.left_margin == 0
        &&& self.on_press is None
        &&& !self.faded
    }

    pub open spec fn spec_with_on_press(self, message: Message) -> Badge {
        Badge { on_press: Some(message), ..self }
    }

    pub open spec fn spec_with_faded(self, faded: bool) -> Badge {
        Badge { faded: faded, ..self }
    }

    pub open spec fn spec_with_left_margin(self, margin: u16) -> Badge {
        Badge { left_margin: margin, ..self }
    }

    /// Whether the action is the duplicate filter for no specific game.
    pub open spec fn spec_activated(self) -> bool {
        match self.on_press {
            Some(m) => m.spec_is_global_duplicate_filter(),
            None => false,
        }
    }

    /// The label's style. A status decides alone; without one, the
    /// activated look comes before the faded one.
    pub open spec fn spec_style(self) -> ContainerStyle {
        match self.change {
            Some(change) => ContainerStyle::ChangeBadge(change),
            None => if self.spec_activated() {
                ContainerStyle::BadgeActivated
            } else if self.faded {
                ContainerStyle::BadgeFaded
            } else {
                ContainerStyle::Badge
            },
        }
    }

    pub open spec fn spec_label(self) -> Label {
        Label {
            text: self.text,
            size: TEXT_SIZE,
            width: match self.width {
                Some(w) => Width::Fixed(w),
                None => Width::Shrink,
            },
            padding: Padding {
                top: LABEL_PADDING_VERTICAL,
                right: LABEL_PADDING_HORIZONTAL,
                bottom: LABEL_PADDING_VERTICAL,
                left: LABEL_PADDING_HORIZONTAL,
            },
            style: self.spec_style(),
        }
    }

    pub open spec fn spec_annotated(self) -> Annotated {
        match self.tooltip {
            None => Annotated::Plain(self.spec_label()),
            Some(t) => Annotated::WithTooltip(
                TooltipView {
                    content: self.spec_label(),
                    text: t,
                    position: Position::Top,
                    size: TOOLTIP_SIZE,
                    gap: TOOLTIP_GAP,
                    style: ContainerStyle::Tooltip,
                },
            ),
        }
    }

    /// The rendered badge: outer spacing, then the button if any, then the
    /// tooltip if any, then the label.
    pub open spec fn spec_view(self) -> BadgeView {
        BadgeView {
            padding: Padding { top: TOP_PADDING, right: 0, bottom: 0, left: self.left_margin },
            content: match self.on_press {
                Some(m) => Content::Clickable(
                    ButtonView {
                        content: self.spec_annotated(),
                        padding: 0,
                        on_press: m,
                        style: ButtonStyle::Badge,
                    },
                ),
                None => Content::Static(self.spec_annotated()),
            },
        }
    }

    /// A plain badge showing `text`.
    pub fn new(text: &str) -> (r: Self)
        ensures
            r.text@ == text@,
            r.left_margin == 0,
            r.change is None,
            r.tooltip is None,
            r.on_press is None,
            !r.faded,
            r.width is None,
    {
        Badge {
            text: String::from_str(text),
            left_margin: 0,
            change: None,
            tooltip: None,
            on_press: None,
            faded: false,
            width: None,
        }
    }

    /// A badge for a status: its symbol, its tooltip and the narrow fixed width.
    pub fn scan_change(change: ScanChange) -> (r: Self)
        ensures
            r.spec_from_change(change),
    {
        let tooltip = match change {
            ScanChange::New => Some(new_tooltip()),
            ScanChange::Different => Some(updated_tooltip()),
            ScanChange::Removed => Some(removed_tooltip()),
            ScanChange::Same => None,
            ScanChange::Unknown => None,
        };
        Badge {
            text: String::from_str(change.symbol()),
            left_margin: 0,
            change: Some(change),
            tooltip,
            on_press: None,
            faded: false,
            width: Some(CHANGE_BADGE_WIDTH),
        }
    }

    pub fn new_entry() -> (r: Self)
        ensures
            r.spec_from_change(ScanChange::New),
    {
        Self::scan_change(ScanChange::New)
    }

    /// A new-entry badge that shows how many were added.
    pub fn new_entry_with_count(count: usize) -> (r: Self)
        ensures
            r.spec_counted(ScanChange::New, add_symbol(), count),
            opt_view(r.tooltip) == Some(new_tooltip_text()),
    {
        proof {
            reveal_strlit("+");
        }
        let text = prefixed_count(ADD_SYMBOL, count);
        assert(text@ =~= add_symbol() + decimal(count as nat));
        Badge {
            text,
            left_margin: 0,
            change: Some(ScanChange::New),
            tooltip: Some(new_tooltip()),
            on_press: None,
            faded: false,
            width: None,
        }
    }

    pub fn changed_entry() -> (r: Self)
        ensures
            r.spec_from_change(ScanChange::Different),
    {
        Self::scan_change(ScanChange::Different)
    }

    pub fn removed_entry() -> (r: Self)
        ensures
            r.spec_from_change(ScanChange::Removed),
    {
        Self::scan_change(ScanChange::Removed)
    }

    /// A changed-entry badge that shows how many were changed.
    pub fn changed_entry_with_count(count: usize) -> (r: Self)
        ensures
            r.spec_counted(ScanChange::Different, change_symbol(), count),
            opt_view(r.tooltip) == Some(updated_tooltip_text()),
    {
        proof {
            reveal_strlit("Δ");
        }
        let text = prefixed_count(CHANGE_SYMBOL, count);
        assert(text@ =~= change_symbol() + decimal(count as nat));
        Badge {
            text,
            left_margin: 0,
            change: Some(ScanChange::Different),
            tooltip: Some(updated_tooltip()),
            on_press: None,
            faded: false,
            width: None,
        }
    }

    /// Makes the badge clickable; a later call replaces the action.
    pub fn on_press(self, message: Message) -> (r: Self)
        ensures
            r == self.spec_with_on_press(message),
    {
        let mut b = self;
        b.on_press = Some(message);
        b
    }

    /// Sets the de-emphasis hint; a later call replaces it.
    pub fn faded(self, faded: bool) -> (r: Self)
        ensures
            r == self.spec_with_faded(faded),
    {
        let mut b = self;
        b.faded = faded;
        b
    }

    /// Sets the space left of the badge; a later call replaces it.
    pub fn left_margin(self, margin: u16) -> (r: Self)
        ensures
            r == self.spec_with_left_margin(margin),
    {
        let mut b = self;
        b.left_margin = margin;
        b
    }

    /// The style of the label.
    pub fn resolve_style(&self) -> (r: ContainerStyle)
        ensures
            r == self.spec_style(),
    {
        match self.change {
            Some(change) => ContainerStyle::ChangeBadge(change),
            None => {
                let activated = match &self.on_press {
                    Some(m) => m.is_global_duplicate_filter(),
                    None => false,
                };
                if activated {
                    ContainerStyle::BadgeActivated
                } else if self.faded {
                    ContainerStyle::BadgeFaded
                } else {
                    ContainerStyle::Badge
                }
            },
        }
    }

    /// Resolves the badge into its view.
    pub fn view(self) -> (r: BadgeView)
        ensures
            r == self.spec_view(),
    {
        let style = self.resolve_style();
        let Badge { text, left_margin, change, tooltip, on_press, faded, width } = self;
        let label = Label {
            text,
            size: TEXT_SIZE,
            width: match width {
                Some(w) => Width::Fixed(w),
                None => Width::Shrink,
            },
            padding: Padding {
                top: LABEL_PADDING_VERTICAL,
                right: LABEL_PADDING_HORIZONTAL,
                bottom: LABEL_PADDING_VERTICAL,
                left: LABEL_PADDING_HORIZONTAL,
            },
            style,
        };
        let annotated = match tooltip {
            None => Annotated::Plain(label),
            Some(t) => Annotated::WithTooltip(
                TooltipView {
                    content: label,
                    text: t,
                    position: Position::Top,
                    size: TOOLTIP_SIZE,
                    gap: TOOLTIP_GAP,
                    style: ContainerStyle::Tooltip,
                },
            ),
        };
        let content = match on_press {
            Some(m) => Content::Clickable(
                ButtonView { content: annotated, padding: 0, on_press: m, style: ButtonStyle::Badge },
            ),
            None => Content::Static(annotated),
        };
        BadgeView { padding: Padding { top: TOP_PADDING, right: 0, bottom: 0, left: left_margin }, content }
    }
}

/// A badge built from a status is styled by that status alone: whatever its
/// fade flag and action are set to afterwards, its style stays the status's.
pub proof fn status_style_ignores_fade_and_action(
    b: Badge,
    change: ScanChange,
    faded: bool,
    message: Message,
)
    requires
        b.spec_from_change(change),
    ensures
        b.spec_style() == ContainerStyle::ChangeBadge(change),
        b.spec_with_faded(faded).spec_style() == ContainerStyle::ChangeBadge(change),
        b.spec_with_on_press(message).spec_style() == ContainerStyle::ChangeBadge(change),
        b.spec_with_faded(faded).spec_with_on_press(message).spec_style()
            == ContainerStyle::ChangeBadge(change),
{
}

/// A badge built from a status is wrapped in a tooltip exactly when the
/// status is new, different or removed.
pub proof fn status_tooltip_wrapper(b: Badge, change: ScanChange)
    requires
        b.spec_from_change(change),
    ensures
        b.spec_view().spec_has_tooltip() <==> (change is New || change is Different
            || change is Removed),
{
}

/// Without a status, a faded badge looks faded unless its action is the
/// duplicate filter for no specific game, which makes it look activated.
pub proof fn activation_before_fade(b: Badge)
    requires
        b.change is None,
        b.faded,
    ensures
        !b.spec_activated() ==> b.spec_style() == ContainerStyle::BadgeFaded,
        b.spec_activated() ==> b.spec_style() == ContainerStyle::BadgeActivated,
{
}

/// Rendering is a function of the configuration: equal badges give equal views.
pub proof fn view_is_deterministic(a: Badge, b: Badge)
    requires
        a == b,
    ensures
        a.spec_view() == b.spec_view(),
{
}

/// A badge with both a tooltip and an action puts the button outside and the
/// tooltip inside it.
pub proof fn button_wraps_tooltip(b: Badge)
    requires
        b.tooltip is Some,
        b.on_press is Some,
    ensures
        b.spec_view().content is Clickable,
        b.spec_view().content->Clickable_0.content is WithTooltip,
        b.spec_view().content->Clickable_0.content->WithTooltip_0.content == b.spec_label(),
{
}

/// The left margin, by default 0, becomes the outer wrapper's left padding
/// unchanged.
pub proof fn left_margin_reaches_outer_padding(b: Badge, margin: u16)
    ensures
        b.spec_view().padding.left == b.left_margin,
        b.spec_with_left_margin(margin).spec_view().padding.left == margin,
{
}

} // verus!
