use cce_fx::config::{BindAction, TilingMode};
use cce_fx::cursor::{BorderZone, Edges};
use cce_fx::pointer::{
    app_menu_command, bind_grab, desktop_menu_command, find_pointer_bind, floats_on_bind_grab,
    is_double_click, opens_app_menu, right_click_on_background, ring_press, shell_quote,
    should_block_button, GrabKind, PressTarget, RingPress, BTN_LEFT, BTN_RIGHT,
    adjust_press, grabs_status_segment, hscroll_shift_step, menu_dismiss, AdjustPress, HScrollStep,
    press_step, PressStep,
};
use cce_fx::settings::PointerBind;
use cce_fx::shortcuts::{MOD_CTRL, MOD_LOGO, MOD_SHIFT};

fn window(mode: TilingMode) -> PressTarget {
    PressTarget::Window { status_bar: false, wallpaper: false, grid: false, mode }
}

#[test]
fn overview_withholds_presses_on_worlds_windows_only() {
    assert!(should_block_button(true, window(TilingMode::Tiled)));
    assert!(!should_block_button(false, window(TilingMode::Tiled)));
    assert!(!should_block_button(true, window(TilingMode::Overlay)));
    assert!(!should_block_button(true, window(TilingMode::Popup)));
    assert!(!should_block_button(
        true,
        PressTarget::Window { status_bar: true, wallpaper: false, grid: false, mode: TilingMode::Status }
    ));
    assert!(should_block_button(true, PressTarget::LayerSurface { cloud: false }));
    assert!(!should_block_button(true, PressTarget::LayerSurface { cloud: true }));
    assert!(should_block_button(true, PressTarget::OverrideRedirect));
    assert!(!should_block_button(true, PressTarget::LockSurface));
    assert!(!should_block_button(true, PressTarget::Nothing));
}

#[test]
fn background_right_clicks() {
    assert!(right_click_on_background(PressTarget::Nothing));
    assert!(right_click_on_background(PressTarget::Window {
        status_bar: false,
        wallpaper: true,
        grid: false,
        mode: TilingMode::Floating
    }));
    assert!(!right_click_on_background(window(TilingMode::Floating)));
    assert!(!right_click_on_background(PressTarget::ShellSurface));
}

#[test]
fn pointer_bindings_and_their_grabs() {
    let binds = vec![
        PointerBind { mods: 0x40, button: BTN_LEFT, action: BindAction::Move },
        PointerBind { mods: 0x40, button: BTN_RIGHT, action: BindAction::Resize },
        PointerBind { mods: 0x40, button: BTN_LEFT, action: BindAction::Resize },
    ];
    assert_eq!(find_pointer_bind(&binds, BTN_LEFT, 0x40), Some(0));
    assert_eq!(find_pointer_bind(&binds, BTN_RIGHT, 0x40), Some(1));
    assert_eq!(find_pointer_bind(&binds, BTN_LEFT, 0), None);
    assert!(floats_on_bind_grab(TilingMode::Tiled));
    assert!(floats_on_bind_grab(TilingMode::Cascade));
    assert!(!floats_on_bind_grab(TilingMode::Utility));
    assert!(!floats_on_bind_grab(TilingMode::Fullscreen));
    assert_eq!(bind_grab(BindAction::Move, TilingMode::Utility), Some(GrabKind::Move));
    assert_eq!(bind_grab(BindAction::Resize, TilingMode::Utility), None);
    assert_eq!(bind_grab(BindAction::Resize, TilingMode::Floating), Some(GrabKind::Resize));
    assert_eq!(bind_grab(BindAction::Spawn, TilingMode::Floating), None);
}

#[test]
fn ring_presses() {
    let edges = Edges { top: true, bottom: false, left: true, right: false };
    assert_eq!(ring_press(BTN_RIGHT, BorderZone::Move, TilingMode::Tiled, false), RingPress::Ignore);
    assert_eq!(
        ring_press(BTN_LEFT, BorderZone::Resize(edges), TilingMode::Tiled, false),
        RingPress::Grab { kind: GrabKind::Resize, float_first: true }
    );
    assert_eq!(
        ring_press(BTN_LEFT, BorderZone::Resize(edges), TilingMode::Floating, false),
        RingPress::Grab { kind: GrabKind::Resize, float_first: false }
    );
    assert_eq!(ring_press(BTN_LEFT, BorderZone::Resize(edges), TilingMode::Utility, false), RingPress::Ignore);
    assert_eq!(
        ring_press(BTN_LEFT, BorderZone::Move, TilingMode::Tiled, true),
        RingPress::ToggleTiled { to: TilingMode::Floating }
    );
    assert_eq!(
        ring_press(BTN_LEFT, BorderZone::Move, TilingMode::Floating, true),
        RingPress::ToggleTiled { to: TilingMode::Tiled }
    );
    assert_eq!(
        ring_press(BTN_LEFT, BorderZone::Move, TilingMode::Utility, true),
        RingPress::Grab { kind: GrabKind::Move, float_first: false }
    );
    assert_eq!(
        ring_press(BTN_LEFT, BorderZone::Move, TilingMode::Overlay, false),
        RingPress::Grab { kind: GrabKind::Move, float_first: false }
    );
    assert_eq!(
        ring_press(BTN_LEFT, BorderZone::Move, TilingMode::Cascade, false),
        RingPress::Grab { kind: GrabKind::Move, float_first: true }
    );
    assert_eq!(ring_press(BTN_LEFT, BorderZone::NoZone, TilingMode::Tiled, true), RingPress::Ignore);
}

#[test]
fn double_clicks_and_menus() {
    assert!(is_double_click(true, true, 1_250, 1_000));
    assert!(!is_double_click(true, true, 1_300, 1_000));
    assert!(is_double_click(true, true, 900, 1_000), "a clock that went back is no time");
    assert!(!is_double_click(false, true, 1_001, 1_000));
    assert!(!is_double_click(true, false, 1_001, 1_000));
    assert!(opens_app_menu(BTN_RIGHT, 0, true, false, TilingMode::Tiled));
    assert!(!opens_app_menu(BTN_RIGHT, 0x40, true, false, TilingMode::Tiled));
    assert!(opens_app_menu(BTN_RIGHT, 0, false, true, TilingMode::Tiled));
    assert!(!opens_app_menu(BTN_RIGHT, 0, false, true, TilingMode::Utility));
    assert!(!opens_app_menu(BTN_LEFT, 0, true, true, TilingMode::Tiled));
}

#[test]
fn menu_commands_quote_the_app_id() {
    assert_eq!(shell_quote("org.app"), "'org.app'");
    assert_eq!(shell_quote("it's"), "'it'\\''s'");
    assert_eq!(shell_quote(""), "''");
    assert_eq!(
        desktop_menu_command("/home/ada", -5, 300),
        "/home/ada/.local/bin/cce-desktop-menu -x -5 -y 300"
    );
    assert_eq!(
        app_menu_command("/home/ada", 10, 20, 7, "bob's app"),
        "/home/ada/.local/bin/cce-app-menu -x 10 -y 20 -i 7 -a 'bob'\\''s app'"
    );
}

fn status_bar() -> PressTarget {
    PressTarget::Window { status_bar: true, wallpaper: false, grid: false, mode: TilingMode::Status }
}

#[test]
fn open_status_menus_are_dismissed_except_the_pressed_one() {
    assert_eq!(menu_dismiss(false, true, Some("clock")), None);
    assert_eq!(menu_dismiss(true, true, Some("clock")), Some("clock".to_string()));
    assert_eq!(menu_dismiss(true, true, None), Some("-".to_string()));
    assert_eq!(menu_dismiss(true, false, Some("foot")), Some("-".to_string()));
}

#[test]
fn status_segments_are_grabbed_in_adjust_position_mode_or_with_super() {
    assert!(grabs_status_segment(BTN_LEFT, true, 0, status_bar(), false));
    assert!(grabs_status_segment(BTN_LEFT, false, MOD_LOGO, status_bar(), false));
    assert!(!grabs_status_segment(BTN_LEFT, false, 0, status_bar(), false));
    assert!(!grabs_status_segment(BTN_LEFT, true, 0, status_bar(), true), "an expanded segment is clicked");
    assert!(!grabs_status_segment(BTN_RIGHT, true, 0, status_bar(), false));
    assert!(!grabs_status_segment(BTN_LEFT, true, 0, window(TilingMode::Floating), false));
}

#[test]
fn adjust_mode_presses() {
    let t = window(TilingMode::Tiled);
    assert_eq!(adjust_press(BTN_LEFT, true, true, t, false, false), AdjustPress::GrabWindow);
    assert_eq!(adjust_press(BTN_LEFT, true, true, t, true, false), AdjustPress::FallThrough, "the ring resizes");
    assert_eq!(adjust_press(BTN_LEFT, false, true, t, false, false), AdjustPress::FallThrough);
    assert_eq!(adjust_press(BTN_RIGHT, true, true, t, false, false), AdjustPress::FallThrough);
    assert_eq!(adjust_press(BTN_LEFT, true, true, window(TilingMode::Overlay), false, false), AdjustPress::FallThrough);
    assert_eq!(
        adjust_press(BTN_LEFT, true, true, PressTarget::LayerSurface { cloud: true }, false, false),
        AdjustPress::FallThrough
    );
    let grid = PressTarget::Window { status_bar: false, wallpaper: false, grid: true, mode: TilingMode::Floating };
    assert_eq!(adjust_press(BTN_LEFT, true, true, grid, false, false), AdjustPress::FallThrough);
    assert_eq!(adjust_press(BTN_LEFT, true, true, PressTarget::Nothing, false, false), AdjustPress::ExitOverview);
    assert_eq!(adjust_press(BTN_LEFT, true, true, status_bar(), false, true), AdjustPress::DismissCloudPopup);
    assert_eq!(adjust_press(BTN_LEFT, true, false, PressTarget::Nothing, false, false), AdjustPress::FallThrough);
}

#[test]
fn horizontal_finger_scroll_as_shift() {
    let s = |begin, end, emit_vertical, arm_timer, consumed| HScrollStep { begin, end, emit_vertical, arm_timer, consumed };
    assert_eq!(hscroll_shift_step(false, false, 0, false, true, true), s(true, false, true, true, true));
    assert_eq!(hscroll_shift_step(false, false, 0, true, true, true), s(false, false, false, false, false));
    assert_eq!(hscroll_shift_step(false, false, 0, false, false, true), s(false, false, false, false, false));
    assert_eq!(hscroll_shift_step(false, true, 0, true, false, true), s(false, false, false, true, true));
    assert_eq!(hscroll_shift_step(false, true, 0, false, false, false), s(false, true, false, false, false));
    assert_eq!(hscroll_shift_step(false, true, MOD_SHIFT, false, true, true), s(false, true, false, false, false));
    assert_eq!(hscroll_shift_step(false, false, MOD_CTRL, false, true, true), s(false, false, false, false, false));
    assert_eq!(hscroll_shift_step(true, true, 0, false, true, true), s(false, true, false, false, true));
    assert_eq!(hscroll_shift_step(true, false, 0, false, true, true), s(false, false, false, false, false));
}

#[test]
fn press_decisions_come_in_order() {
    let tiled = window(TilingMode::Tiled);
    let step = |held, button, mods, target, adjust_pos, adjust_active, in_overview, bind| {
        press_step(held, button, mods, target, adjust_pos, false, adjust_active, in_overview, false, false, bind)
    };
    assert_eq!(step(true, BTN_LEFT, 0, status_bar(), true, true, true, None), PressStep::Ignore);
    assert_eq!(step(false, BTN_LEFT, 0, status_bar(), true, true, true, None), PressStep::GrabStatusSegment);
    assert_eq!(
        step(false, BTN_LEFT, 0, tiled, false, true, true, Some(BindAction::Resize)),
        PressStep::Adjust(AdjustPress::GrabWindow),
        "adjust mode comes before pointer bindings"
    );
    assert_eq!(step(false, BTN_RIGHT, 0, PressTarget::Nothing, false, false, false, None), PressStep::DesktopMenu);
    assert_eq!(step(false, BTN_RIGHT, MOD_LOGO, PressTarget::Nothing, false, false, false, None), PressStep::Continue);
    assert_eq!(
        step(false, BTN_LEFT, MOD_LOGO, tiled, false, false, false, Some(BindAction::Move)),
        PressStep::BindGrab(GrabKind::Move)
    );
    assert_eq!(
        step(false, BTN_RIGHT, MOD_LOGO, window(TilingMode::Utility), false, false, false, Some(BindAction::Resize)),
        PressStep::Continue
    );
    assert_eq!(step(false, BTN_LEFT, 0, tiled, false, false, false, None), PressStep::Continue);
}
