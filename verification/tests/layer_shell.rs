use cce_fx::layer_shell::{
    any_focus_changed, apply_exclusive_check, blur_params, cloud_parent, default_output,
    exclusive_focus_target, focus_on_map, is_status_namespace, parent_margins,
    set_default_output, supported, takes_part_in_configure, unfocus_on_unmap, unmap_refocus,
    BlurParams, FocusCandidate, Layer, LayerShellOutput, LayerShellSeat, LayerShellSeatFocus,
    LayoutBox, Margins, UnmapRefocus,
};


fn b(x: i32, y: i32, width: i32, height: i32) -> LayoutBox {
    LayoutBox { x, y, width, height }
}

#[test]
fn seat_focus_is_sent_once() {
    let mut s = LayerShellSeat::new();
    s.has_object = true;
    s.scheduled_focus = LayerShellSeatFocus::Exclusive(4);
    assert_eq!(s.manage_start(), Some(LayerShellSeatFocus::Exclusive(4)));
    assert_eq!(s.manage_start(), None, "nothing changed since");
    s.object_destroyed();
    s.scheduled_focus = LayerShellSeatFocus::NoFocus;
    assert_eq!(s.manage_start(), None, "no object to post on");
    assert_eq!(s.sent_focus, LayerShellSeatFocus::NoFocus);
}

#[test]
fn output_area_arrangement() {
    let mut o = LayerShellOutput::new();
    o.has_object = true;
    o.begin_arrange(b(0, 0, 1920, 1080));
    assert!(o.area_changed());
    assert!(o.accept_configured_area(b(0, 30, 1920, 1050), 1920, 1080));
    assert!(!o.accept_configured_area(b(0, 600, 1920, 479), 1920, 1080), "under half the height");
    assert!(!o.accept_configured_area(b(0, 0, 958, 1080), 1918, 1080), "under half the width");
    assert!(o.accept_configured_area(b(0, 0, 958, 1080), 1916, 1080));
    assert_eq!(o.finish_manage(), Some(b(0, 0, 958, 1080)));
    assert_eq!(o.finish_manage(), None);
    assert!(o.begin_manage(b(10, 0, 800, 600), b(0, 0, 800, 600)));
    assert_eq!(o.scheduled.non_exclusive_area, b(10, 0, 800, 600));
    assert!(!o.begin_manage(b(10, 0, 800, 600), b(10, 0, 800, 600)));
    o.object_destroyed();
    assert!(o.area_changed(), "nothing has been sent any more");
    assert_eq!(o.finish_manage(), None);
}

#[test]
fn configure_pass_membership() {
    assert!(takes_part_in_configure(true, false, true, 30, true));
    assert!(!takes_part_in_configure(true, false, true, 30, false));
    assert!(takes_part_in_configure(false, true, true, 0, false));
    assert!(!takes_part_in_configure(false, false, true, 0, false));
    assert!(!takes_part_in_configure(true, false, false, 0, false));
}

#[test]
fn default_outputs() {
    let mut d = vec![false, true, false];
    assert_eq!(default_output(&d), Some(1));
    set_default_output(&mut d, 2);
    assert_eq!(d, vec![false, false, true]);
    assert_eq!(default_output(&vec![false, false]), Some(0));
    assert_eq!(default_output(&vec![]), None);
}

#[test]
fn exclusive_focus_goes_to_the_topmost_overlay_then_top() {
    let c = |mapped, exclusive_keyboard, key| FocusCandidate { mapped, exclusive_keyboard, key };
    let overlay = vec![c(true, true, 1), c(true, true, 2), c(false, true, 3)];
    let top = vec![c(true, true, 9)];
    assert_eq!(exclusive_focus_target(&overlay, &top), Some(2));
    assert_eq!(exclusive_focus_target(&vec![c(true, false, 5)], &top), Some(9));
    assert_eq!(exclusive_focus_target(&vec![], &vec![]), None);

    let mut s = LayerShellSeat::new();
    apply_exclusive_check(&mut s, Some(2));
    assert_eq!(s.scheduled_focus, LayerShellSeatFocus::Exclusive(2));
    focus_on_map(&mut s, 7);
    assert_eq!(s.scheduled_focus, LayerShellSeatFocus::Exclusive(2), "an exclusive focus is kept");
    apply_exclusive_check(&mut s, None);
    assert_eq!(s.scheduled_focus, LayerShellSeatFocus::NoFocus);
    focus_on_map(&mut s, 7);
    assert_eq!(s.scheduled_focus, LayerShellSeatFocus::NonExclusive(7));
    apply_exclusive_check(&mut s, None);
    assert_eq!(s.scheduled_focus, LayerShellSeatFocus::NonExclusive(7), "a non-exclusive focus survives the check");
    unfocus_on_unmap(&mut s, 8);
    assert_eq!(s.scheduled_focus, LayerShellSeatFocus::NonExclusive(7));
    unfocus_on_unmap(&mut s, 7);
    assert_eq!(s.scheduled_focus, LayerShellSeatFocus::NoFocus);
}

#[test]
fn focus_changes_and_support() {
    assert!(!any_focus_changed(&vec![LayerShellSeatFocus::NoFocus, LayerShellSeatFocus::Exclusive(1)], &vec![LayerShellSeatFocus::NoFocus, LayerShellSeatFocus::Exclusive(1)]));
    assert!(any_focus_changed(&vec![LayerShellSeatFocus::NoFocus, LayerShellSeatFocus::Exclusive(1)], &vec![LayerShellSeatFocus::NoFocus, LayerShellSeatFocus::NonExclusive(1)]));
    assert!(supported(None, &vec![]));
    assert!(supported(Some(3), &vec![1, 3]));
    assert!(!supported(Some(3), &vec![1, 2]));
}

#[test]
fn cloud_namespaces_and_refocus() {
    assert_eq!(cloud_parent("cce-cloud:org.app"), (true, Some("org.app".chars().collect())));
    assert_eq!(cloud_parent("cce-cloud"), (true, None));
    assert_eq!(cloud_parent("waybar"), (false, None));
    assert_eq!(unmap_refocus(Some("cce-cloud:org.app")), UnmapRefocus::Parent("org.app".chars().collect()));
    assert_eq!(unmap_refocus(Some("cce-cloud:cce-status-interface")), UnmapRefocus::Stay);
    assert_eq!(unmap_refocus(Some("cce-cloud")), UnmapRefocus::Stay);
    assert_eq!(unmap_refocus(Some("launcher")), UnmapRefocus::NextWindow);
    assert_eq!(unmap_refocus(None), UnmapRefocus::NextWindow);
    assert!(is_status_namespace("cce-status"));
    assert!(is_status_namespace("cce-status-interface"));
    assert!(!is_status_namespace("cce-status-bar"));
}

#[test]
fn blur_and_margins() {
    assert_eq!(
        blur_params(Layer::Bottom, false, true, false, false, true, true),
        BlurParams { enabled: true, optimized: true, ignore_transparent: false }
    );
    assert_eq!(
        blur_params(Layer::Top, false, true, false, false, true, true),
        BlurParams { enabled: true, optimized: false, ignore_transparent: false }
    );
    assert_eq!(
        blur_params(Layer::Bottom, true, true, false, false, true, true),
        BlurParams { enabled: false, optimized: false, ignore_transparent: true }
    );
    let m = Margins { top: 4, right: 6, left: 8 };
    assert_eq!(parent_margins(false, 300, 120, 500, 100, 20, 1920, m), Margins { top: 104, right: 6, left: 208 });
    assert_eq!(parent_margins(true, 300, 120, 500, 100, 20, 1920, m), Margins { top: 104, right: 1226, left: 8 });
}
