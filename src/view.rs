//! A plain description of a rendered badge, from the outer spacing down to
//! the label. The nesting of the types fixes the order of the wrappers: a
//! button may hold a tooltip, never the reverse.
use vstd::prelude::*;
use crate::message::Message;
use crate::style::{ButtonStyle, ContainerStyle};

verus! {

/// Space around a block, in logical pixels.
#[derive(Clone, Copy, Debug, PartialEq, Eq, Structural)]
pub struct Padding {
    pub top: u16,
    pub right: u16,
    pub bottom: u16,
    pub left: u16,
}

/// How wide a label is laid out.
#[derive(Clone, Copy, Debug, PartialEq, Eq, Structural)]
pub enum Width {
    /// As wide as its text.
    Shrink,
    /// A fixed number of logical pixels.
    Fixed(u16),
}

/// Where a tooltip appears relative to what it annotates.
#[derive(Clone, Copy, Debug, PartialEq, Eq, Structural)]
pub enum Position {
    Top,
    Bottom,
    Left,
    Right,
}

/// Centred text in a styled block.
#[derive(Clone, Debug, PartialEq, Eq)]
pub struct Label {
    pub text: String,
    pub size: u16,
    pub width: Width,
    pub padding: Padding,
    pub style: ContainerStyle,
}

/// A label with a tooltip shown on hover.
#[derive(Clone, Debug, PartialEq, Eq)]
pub struct TooltipView {
    pub content: Label,
    pub text: String,
    pub position: Position,
    pub size: u16,
    pub gap: u16,
    pub style: ContainerStyle,
}

/// A label, with or without a tooltip.
#[derive(Clone, Debug, PartialEq, Eq)]
pub enum Annotated {
    Plain(Label),
    WithTooltip(TooltipView),
}

/// A clickable wrapper that reports its message when pressed.
#[derive(Clone, Debug, PartialEq, Eq)]
pub struct ButtonView {
    pub content: Annotated,
    pub padding: u16,
    pub on_press: Message,
    pub style: ButtonStyle,
}

/// What the outer wrapper holds.
#[derive(Clone, Debug, PartialEq, Eq)]
pub enum Content {
    Static(Annotated),
    Clickable(ButtonView),
}

/// The whole badge: the content, centred on both axes inside the outer padding.
#[derive(Clone, Debug, PartialEq, Eq)]
pub struct BadgeView {
    pub padding: Padding,
    pub content: Content,
}

impl Annotated {
    pub open spec fn spec_label(self) -> Label {
        match self {
            Annotated::Plain(l) => l,
            Annotated::WithTooltip(t) => t.content,
        }
    }

    pub open spec fn spec_has_tooltip(self) -> bool {
        self is WithTooltip
    }
}

impl Content {
    pub open spec fn spec_annotated(self) -> Annotated {
        match self {
            Content::Static(a) => a,
            Content::Clickable(b) => b.content,
        }
    }
}

impl BadgeView {
    /// The innermost label.
    pub open spec fn spec_label(self) -> Label {
        self.content.spec_annotated().spec_label()
    }

    pub open spec fn spec_has_tooltip(self) -> bool {
        self.content.spec_annotated().spec_has_tooltip()
    }

    pub open spec fn spec_is_clickable(self) -> bool {
        self.content is Clickable
    }
}

} // verus!
