use bevy_ui_widgets::spinbox::{RangePolicy, Spinbox, SpinboxDragState, SpinboxPrecision};

#[test]
fn defaults() {
    assert!(!Spinbox::default().wrap);
    assert_eq!(SpinboxPrecision::default(), SpinboxPrecision(0));
    assert!(!SpinboxDragState::default().dragging);
}

#[test]
fn range_policy_follows_wrap_flag() {
    assert_eq!(Spinbox { wrap: true }.range_policy(), RangePolicy::Wrap);
    assert_eq!(Spinbox { wrap: false }.range_policy(), RangePolicy::Clamp);
    assert_eq!(Spinbox::default().range_policy(), RangePolicy::Clamp);
}
