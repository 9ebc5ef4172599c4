use badge::badge::{Badge, CHANGE_BADGE_WIDTH};
use badge::lang::{decimal_string, new_tooltip, prefixed_count, removed_tooltip, updated_tooltip};
use badge::message::Message;
use badge::scan::ScanChange;
use badge::style::{ButtonStyle, ContainerStyle};
use badge::view::{Annotated, BadgeView, Content, Padding, Position, Width};

const ALL: [ScanChange; 5] = [
    ScanChange::New,
    ScanChange::Different,
    ScanChange::Removed,
    ScanChange::Same,
    ScanChange::Unknown,
];

fn global_filter() -> Message {
    Message::FilterDuplicates { restriction: None, game: None }
}

fn label_of(v: &BadgeView) -> &badge::view::Label {
    let annotated = match &v.content {
        Content::Static(a) => a,
        Content::Clickable(b) => &b.content,
    };
    match annotated {
        Annotated::Plain(l) => l,
        Annotated::WithTooltip(t) => &t.content,
    }
}

fn tooltip_of(v: &BadgeView) -> Option<String> {
    let annotated = match &v.content {
        Content::Static(a) => a,
        Content::Clickable(b) => &b.content,
    };
    match annotated {
        Annotated::Plain(_) => None,
        Annotated::WithTooltip(t) => Some(t.text.clone()),
    }
}

#[test]
fn symbols_of_each_status() {
    assert_eq!(ScanChange::New.symbol(), "+");
    assert_eq!(ScanChange::Different.symbol(), "Δ");
    assert_eq!(ScanChange::Removed.symbol(), "x");
    assert_eq!(ScanChange::Same.symbol(), "=");
    assert_eq!(ScanChange::Unknown.symbol(), "?");
}

#[test]
fn tooltip_texts() {
    assert_eq!(new_tooltip(), "New");
    assert_eq!(updated_tooltip(), "Updated");
    assert_eq!(removed_tooltip(), "Removed");
}

#[test]
fn decimal_of_counts() {
    assert_eq!(decimal_string(0), "0");
    assert_eq!(decimal_string(7), "7");
    assert_eq!(decimal_string(10), "10");
    assert_eq!(decimal_string(1203), "1203");
    assert_eq!(decimal_string(usize::MAX), usize::MAX.to_string());
    assert_eq!(prefixed_count("+", 42), "+42");
}

#[test]
fn status_style_ignores_fade_and_action() {
    for change in ALL {
        assert_eq!(Badge::scan_change(change).resolve_style(), ContainerStyle::ChangeBadge(change));
        let styled = Badge::scan_change(change).faded(true).on_press(global_filter()).resolve_style();
        assert_eq!(styled, ContainerStyle::ChangeBadge(change));
        let styled = Badge::scan_change(change).on_press(Message::Action(3)).resolve_style();
        assert_eq!(styled, ContainerStyle::ChangeBadge(change));
    }
}

#[test]
fn status_badge_fields() {
    for change in ALL {
        let b = Badge::scan_change(change);
        assert_eq!(b.text, change.symbol());
        assert_eq!(b.change, Some(change));
        assert_eq!(b.width, Some(CHANGE_BADGE_WIDTH));
        assert_eq!(b.left_margin, 0);
        assert!(!b.faded);
        assert!(b.on_press.is_none());
    }
}

#[test]
fn same_and_unknown_have_no_tooltip() {
    assert_eq!(tooltip_of(&Badge::scan_change(ScanChange::Same).view()), None);
    assert_eq!(tooltip_of(&Badge::scan_change(ScanChange::Unknown).view()), None);
}

#[test]
fn new_different_removed_have_tooltip() {
    assert_eq!(tooltip_of(&Badge::new_entry().view()), Some("New".to_string()));
    assert_eq!(tooltip_of(&Badge::changed_entry().view()), Some("Updated".to_string()));
    assert_eq!(tooltip_of(&Badge::removed_entry().view()), Some("Removed".to_string()));
}

#[test]
fn shorthand_constructors_match_scan_change() {
    assert_eq!(Badge::new_entry(), Badge::scan_change(ScanChange::New));
    assert_eq!(Badge::changed_entry(), Badge::scan_change(ScanChange::Different));
    assert_eq!(Badge::removed_entry(), Badge::scan_change(ScanChange::Removed));
}

#[test]
fn faded_plain_badge_looks_faded() {
    assert_eq!(Badge::new("x").faded(true).resolve_style(), ContainerStyle::BadgeFaded);
    let scoped = Message::FilterDuplicates { restriction: Some(true), game: Some("g".to_string()) };
    assert_eq!(Badge::new("x").faded(true).on_press(scoped).resolve_style(), ContainerStyle::BadgeFaded);
    assert_eq!(
        Badge::new("x").faded(true).on_press(Message::Action(1)).resolve_style(),
        ContainerStyle::BadgeFaded
    );
}

#[test]
fn global_duplicate_filter_looks_activated_even_when_faded() {
    assert_eq!(
        Badge::new("x").faded(true).on_press(global_filter()).resolve_style(),
        ContainerStyle::BadgeActivated
    );
    let restricted = Message::FilterDuplicates { restriction: Some(false), game: None };
    assert_eq!(Badge::new("x").on_press(restricted).resolve_style(), ContainerStyle::BadgeActivated);
}

#[test]
fn plain_badge_default_style() {
    let b = Badge::new("label");
    assert_eq!(b.resolve_style(), ContainerStyle::Badge);
    assert_eq!(Badge::new("label").faded(true).faded(false).resolve_style(), ContainerStyle::Badge);
    let v = b.view();
    assert_eq!(label_of(&v).text, "label");
    assert_eq!(label_of(&v).width, Width::Shrink);
    assert_eq!(tooltip_of(&v), None);
    assert!(matches!(v.content, Content::Static(Annotated::Plain(_))));
}

#[test]
fn new_entry_with_count_seven() {
    let b = Badge::new_entry_with_count(7);
    assert_eq!(b.text, "+7");
    assert_eq!(b.tooltip, Some(new_tooltip()));
    assert_eq!(b.width, None);
    assert_eq!(b.change, Some(ScanChange::New));
    let v = b.view();
    assert_eq!(label_of(&v).width, Width::Shrink);
    assert_eq!(label_of(&v).style, ContainerStyle::ChangeBadge(ScanChange::New));
    assert_eq!(tooltip_of(&v), Some("New".to_string()));
}

#[test]
fn changed_entry_with_count_text() {
    let b = Badge::changed_entry_with_count(12);
    assert_eq!(b.text, "Δ12");
    assert_eq!(b.tooltip, Some(updated_tooltip()));
    assert_eq!(b.width, None);
    assert_eq!(b.change, Some(ScanChange::Different));
    assert_eq!(Badge::new_entry_with_count(0).text, "+0");
}

#[test]
fn status_badge_has_fixed_width() {
    let v = Badge::removed_entry().view();
    assert_eq!(label_of(&v).width, Width::Fixed(10));
    assert_eq!(label_of(&v).text, "x");
    assert_eq!(label_of(&v).size, 14);
    assert_eq!(label_of(&v).padding, Padding { top: 2, right: 12, bottom: 2, left: 12 });
}

#[test]
fn rendering_twice_gives_equal_views() {
    let b = Badge::changed_entry_with_count(3).on_press(global_filter()).left_margin(4);
    assert_eq!(b.clone().view(), b.view());
}

#[test]
fn button_wraps_tooltip() {
    let v = Badge::new_entry().on_press(Message::Action(9)).view();
    match v.content {
        Content::Clickable(button) => {
            assert_eq!(button.padding, 0);
            assert_eq!(button.style, ButtonStyle::Badge);
            assert_eq!(button.on_press, Message::Action(9));
            match button.content {
                Annotated::WithTooltip(t) => {
                    assert_eq!(t.text, "New");
                    assert_eq!(t.position, Position::Top);
                    assert_eq!(t.size, 16);
                    assert_eq!(t.gap, 5);
                    assert_eq!(t.style, ContainerStyle::Tooltip);
                    assert_eq!(t.content.text, "+");
                }
                Annotated::Plain(_) => panic!("tooltip missing"),
            }
        }
        Content::Static(_) => panic!("button missing"),
    }
}

#[test]
fn later_action_replaces_earlier() {
    let b = Badge::new("a").on_press(Message::Action(1)).on_press(Message::Action(2));
    assert_eq!(b.on_press, Some(Message::Action(2)));
}

#[test]
fn left_margin_default_and_explicit() {
    assert_eq!(Badge::new("a").view().padding, Padding { top: 3, right: 0, bottom: 0, left: 0 });
    assert_eq!(Badge::new_entry().view().padding.left, 0);
    assert_eq!(Badge::new("a").left_margin(15).view().padding.left, 15);
    assert_eq!(Badge::new("a").left_margin(15).left_margin(u16::MAX).view().padding.left, u16::MAX);
}
