use stepper::layout::{AnchorKind, Layout, LayoutError};
use stepper::native::NativeStepper;
use stepper::stepper::{Phase, Stepper};

#[test]
fn construction_yields_nonnull_handle_and_layout_opt_out() {
    let s = Stepper::new();
    assert!(s.objc.handle != 0);
    assert!(!s.objc.state.translates_autoresizing_mask);
    assert!(matches!(s.phase, Phase::Live));
    let anchors = s.anchors.expect("auto-layout capability is enabled by default");
    assert_eq!(anchors.top.view, s.objc.handle);
    assert!(matches!(anchors.top.kind, AnchorKind::Top));
    assert_eq!(anchors.leading.view, s.objc.handle);
    assert!(matches!(anchors.leading.kind, AnchorKind::Leading));
    assert_eq!(anchors.left.view, s.objc.handle);
    assert!(matches!(anchors.left.kind, AnchorKind::Left));
    assert_eq!(anchors.trailing.view, s.objc.handle);
    assert!(matches!(anchors.trailing.kind, AnchorKind::Trailing));
    assert_eq!(anchors.right.view, s.objc.handle);
    assert!(matches!(anchors.right.kind, AnchorKind::Right));
    assert_eq!(anchors.bottom.view, s.objc.handle);
    assert!(matches!(anchors.bottom.kind, AnchorKind::Bottom));
    assert_eq!(anchors.width.view, s.objc.handle);
    assert!(matches!(anchors.width.kind, AnchorKind::Width));
    assert_eq!(anchors.height.view, s.objc.handle);
    assert!(matches!(anchors.height.kind, AnchorKind::Height));
    assert_eq!(anchors.center_x.view, s.objc.handle);
    assert!(matches!(anchors.center_x.kind, AnchorKind::CenterX));
    assert_eq!(anchors.center_y.view, s.objc.handle);
    assert!(matches!(anchors.center_y.kind, AnchorKind::CenterY));
}

#[test]
fn construction_without_autolayout_keeps_frame_translation() {
    let s = Stepper::new_with_autolayout(false);
    assert!(s.objc.handle != 0);
    assert!(s.objc.state.translates_autoresizing_mask);
    assert!(s.anchors.is_none());
}

#[test]
fn construction_uses_a_zero_sized_frame() {
    let s = Stepper::new();
    assert_eq!(f64::from_bits(s.objc.state.frame.x_bits), 0.0);
    assert_eq!(f64::from_bits(s.objc.state.frame.y_bits), 0.0);
    assert_eq!(f64::from_bits(s.objc.state.frame.width_bits), 0.0);
    assert_eq!(f64::from_bits(s.objc.state.frame.height_bits), 0.0);
}

#[test]
fn property_values_round_trip_through_the_native_accessor() {
    let mut s = Stepper::new();
    s.set_max_value(100.0f64.to_bits());
    s.set_min_value(0.0f64.to_bits());
    s.set_increment(1.0f64.to_bits());
    s.set_wraps(true);
    let n: NativeStepper = s.get_from_backing_obj();
    assert_eq!(f64::from_bits(n.max_value_bits), 100.0);
    assert_eq!(f64::from_bits(n.min_value_bits), 0.0);
    assert_eq!(f64::from_bits(n.increment_bits), 1.0);
    assert!(n.wraps);
}

#[test]
fn selected_value_defaults_to_zero() {
    let s = Stepper::new();
    let v = s.get_selected_value();
    assert_eq!(v, 0u64);
    assert_eq!(f64::from_bits(v), 0.0);
}

#[test]
fn an_observed_value_change_reads_back() {
    let mut s = Stepper::new();
    assert_eq!(s.get_selected_value(), 0u64);
    s.record_observed_value(42.5f64.to_bits());
    assert_eq!(f64::from_bits(s.get_selected_value()), 42.5);
    let n = s.get_from_backing_obj();
    assert_eq!(f64::from_bits(n.value_bits), 42.5);
    assert_eq!(f64::from_bits(n.max_value_bits), 0.0);
}

#[test]
fn add_subview_fails_on_an_owned_facade() {
    let s = Stepper::new();
    let child = Stepper::new();
    let r = s.add_subview(&child);
    assert!(matches!(r, Err(LayoutError::SubviewsUnsupported)));
}

#[test]
fn add_subview_fails_on_a_referenced_facade() {
    let s = Stepper::new();
    let child = Stepper::new();
    let r_ref = &s;
    let r = r_ref.add_subview(&child);
    assert!(matches!(r, Err(LayoutError::SubviewsUnsupported)));
    let r2 = (&r_ref).add_subview(&&child);
    assert!(matches!(r2, Err(LayoutError::SubviewsUnsupported)));
}

#[test]
fn second_set_action_releases_the_first_trampoline_exactly_once() {
    let mut s = Stepper::new();
    s.set_action(|_sender: u64| {});
    let first = s.handler.expect("a trampoline is installed").token;
    assert_eq!(s.trampolines_created, 1);
    assert_eq!(s.trampolines_released, 0);
    assert_eq!(s.objc.state.target, Some(first));
    assert_eq!(s.objc.state.action, Some(first));

    s.set_action(|_sender: u64| {});
    let second = s.handler.expect("a trampoline is installed").token;
    assert_ne!(first, second);
    assert_eq!(s.trampolines_created, 2);
    assert_eq!(s.trampolines_released, 1);
    assert_eq!(s.objc.state.target, Some(second));
    assert_eq!(s.objc.state.action, Some(second));
}

#[test]
fn teardown_clears_target_and_action_before_release() {
    let mut s = Stepper::new();
    s.set_action(|_sender: u64| {});
    assert!(s.get_from_backing_obj().is_wired());

    let parting: NativeStepper = s.teardown();
    assert_eq!(parting.target, None);
    assert_eq!(parting.action, None);
    assert!(!parting.is_wired());
    assert!(matches!(s.phase, Phase::TornDown));
    assert!(s.handler.is_none());
    assert_eq!(s.trampolines_created, 1);
    assert_eq!(s.trampolines_released, 1);
}

#[test]
fn teardown_without_a_callback_releases_nothing() {
    let mut s = Stepper::new();
    let parting = s.teardown();
    assert_eq!(parting.target, None);
    assert_eq!(parting.action, None);
    assert_eq!(s.trampolines_created, 0);
    assert_eq!(s.trampolines_released, 0);
}

#[test]
fn setters_leave_unrelated_properties_alone() {
    let mut s = Stepper::new();
    s.set_max_value(7.5f64.to_bits());
    s.set_wraps(true);
    let n = s.get_from_backing_obj();
    assert_eq!(f64::from_bits(n.min_value_bits), 0.0);
    assert_eq!(f64::from_bits(n.increment_bits), 0.0);
    assert_eq!(n.value_bits, 0u64);
    assert_eq!(f64::from_bits(n.max_value_bits), 7.5);
    assert!(n.wraps);
    assert!(!n.translates_autoresizing_mask);
}
