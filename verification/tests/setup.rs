use bevy_scrollbar::axis::{resolve_axis, Overflow, OverflowAxis, ScrollAxis};
use bevy_scrollbar::setup::{plan_setup, thumb_node, RegionSetup, ThumbExtent, ThumbNode};

fn overflow(x: OverflowAxis, y: OverflowAxis) -> Overflow {
    Overflow { x, y }
}

#[test]
fn region_without_overflow_becomes_vertical() {
    let mut o = overflow(OverflowAxis::Visible, OverflowAxis::Visible);
    assert_eq!(resolve_axis(&mut o), ScrollAxis::Vertical);
    assert_eq!(o.y, OverflowAxis::Scroll);
    assert_eq!(o, Overflow::scroll_y());
    let plan = plan_setup(RegionSetup {
        overflow: overflow(OverflowAxis::Visible, OverflowAxis::Visible),
        has_line_height: false,
    });
    assert_eq!(plan.axis, ScrollAxis::Vertical);
    assert_eq!(plan.overflow.y, OverflowAxis::Scroll);
    assert!(plan.install_line_height);
}

#[test]
fn region_that_neither_scrolls_is_made_to_scroll_vertically() {
    for x in [OverflowAxis::Visible, OverflowAxis::Clip, OverflowAxis::Hidden] {
        for y in [OverflowAxis::Visible, OverflowAxis::Clip, OverflowAxis::Hidden] {
            let mut o = overflow(x, y);
            assert_eq!(resolve_axis(&mut o), ScrollAxis::Vertical);
            assert_eq!(o, overflow(OverflowAxis::Visible, OverflowAxis::Scroll));
        }
    }
}

#[test]
fn vertical_overflow_gives_a_vertical_scrollbar() {
    for x in [OverflowAxis::Visible, OverflowAxis::Clip, OverflowAxis::Hidden, OverflowAxis::Scroll] {
        let mut o = overflow(x, OverflowAxis::Scroll);
        assert_eq!(resolve_axis(&mut o), ScrollAxis::Vertical);
        assert_eq!(o, overflow(x, OverflowAxis::Scroll));
    }
}

#[test]
fn horizontal_overflow_alone_gives_a_horizontal_scrollbar() {
    for y in [OverflowAxis::Visible, OverflowAxis::Clip, OverflowAxis::Hidden] {
        let mut o = overflow(OverflowAxis::Scroll, y);
        assert_eq!(resolve_axis(&mut o), ScrollAxis::Horizontal);
        assert_eq!(o, overflow(OverflowAxis::Scroll, y));
    }
}

#[test]
fn line_metrics_are_installed_for_a_vertical_region_without_them() {
    let vertical = overflow(OverflowAxis::Visible, OverflowAxis::Scroll);
    let horizontal = overflow(OverflowAxis::Scroll, OverflowAxis::Visible);
    assert!(plan_setup(RegionSetup { overflow: vertical, has_line_height: false }).install_line_height);
    assert!(!plan_setup(RegionSetup { overflow: vertical, has_line_height: true }).install_line_height);
    assert!(!plan_setup(RegionSetup { overflow: horizontal, has_line_height: false }).install_line_height);
    assert!(!plan_setup(RegionSetup { overflow: horizontal, has_line_height: true }).install_line_height);
}

#[test]
fn thumb_is_spawned_without_length_across_the_whole_track() {
    assert_eq!(
        thumb_node(ScrollAxis::Vertical),
        ThumbNode { width: ThumbExtent::Full, height: ThumbExtent::Zero }
    );
    assert_eq!(
        thumb_node(ScrollAxis::Horizontal),
        ThumbNode { width: ThumbExtent::Zero, height: ThumbExtent::Full }
    );
    let plan = plan_setup(RegionSetup {
        overflow: overflow(OverflowAxis::Scroll, OverflowAxis::Clip),
        has_line_height: false,
    });
    assert_eq!(plan.axis, ScrollAxis::Horizontal);
    assert_eq!(plan.thumb, thumb_node(ScrollAxis::Horizontal));
    assert_eq!(plan.overflow, overflow(OverflowAxis::Scroll, OverflowAxis::Clip));
}

#[test]
fn plan_starts_the_controller_at_rest() {
    let plan = plan_setup(RegionSetup {
        overflow: overflow(OverflowAxis::Scroll, OverflowAxis::Visible),
        has_line_height: false,
    });
    let c = plan.controller();
    assert_eq!(c.axis(), ScrollAxis::Horizontal);
    assert_eq!(c.scroll_offset().x, 0);
    assert_eq!(c.thumb().track_offset, 0);
    assert_eq!(c.thumb().length_fraction, None);
}
