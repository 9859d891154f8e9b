//! The measurement arithmetic shared by every backend.

use webview_bridge::{ControlLayout, Margins, SizeRule, Visibility};

fn control(visibility: Visibility, width: SizeRule, height: SizeRule) -> ControlLayout {
    let mut c = ControlLayout::new();
    c.visibility = visibility;
    c.width = width;
    c.height = height;
    c
}

#[test]
fn a_gone_control_measures_zero() {
    let mut c = control(Visibility::Gone, SizeRule::MatchParent, SizeRule::Exact(50));
    assert_eq!(c.measure(Margins::none(), 800, 600), (0, 0, false));
}

#[test]
fn match_parent_takes_the_parent_extent() {
    let mut c = control(
        Visibility::Visible,
        SizeRule::MatchParent,
        SizeRule::MatchParent,
    );
    assert_eq!(c.measure(Margins::none(), 800, 600), (800, 600, true));
    // measuring again with the same inputs reports no change
    assert_eq!(c.measure(Margins::none(), 800, 600), (800, 600, false));
}

#[test]
fn exact_and_wrap_content_rules_resolve_as_assigned() {
    let mut c = control(
        Visibility::Visible,
        SizeRule::Exact(123),
        SizeRule::WrapContent,
    );
    assert_eq!(c.measure(Margins::none(), 800, 600), (123, 42, true));
}

#[test]
fn an_invisible_control_still_measures() {
    let mut c = control(
        Visibility::Invisible,
        SizeRule::Exact(10),
        SizeRule::Exact(20),
    );
    assert_eq!(c.measure(Margins::none(), 800, 600), (10, 20, true));
}

#[test]
fn margins_extend_each_dimension() {
    let mut c = control(
        Visibility::Visible,
        SizeRule::Exact(100),
        SizeRule::Exact(50),
    );
    let margins = Margins {
        left: 5,
        top: 1,
        right: 7,
        bottom: 2,
    };
    assert_eq!(c.measure(margins, 800, 600), (112, 53, true));
}

#[test]
fn negative_margins_clamp_at_zero() {
    let mut c = control(
        Visibility::Visible,
        SizeRule::Exact(10),
        SizeRule::Exact(10),
    );
    let margins = Margins {
        left: -20,
        top: -5,
        right: 0,
        bottom: -6,
    };
    assert_eq!(c.measure(margins, 800, 600), (0, 0, false));
}

#[test]
fn an_extent_past_the_native_limit_truncates() {
    let mut c = control(
        Visibility::Visible,
        SizeRule::Exact(65535),
        SizeRule::Exact(65535),
    );
    let margins = Margins {
        left: 1,
        top: 0,
        right: 0,
        bottom: 3,
    };
    // 65536 wraps to 0 and 65538 wraps to 2 in the 16-bit native extent
    assert_eq!(c.measure(margins, 800, 600), (0, 2, true));
}
