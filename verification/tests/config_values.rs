use cce_fx::config::{
    default_bar_height, default_cloud_position_default, default_desktop_line_relief, default_gap, default_shadow_color,
    default_status_normal_color, parse_action, parse_button, parse_hex_color, parse_modifiers,
    parse_on_app_exit, parse_tiling_mode, BindAction, GesturesConfig, OnAppExit, OutputConfig,
    TilingMode,
};

#[test]
fn hex_colors() {
    assert_eq!(parse_hex_color("#1c2030"), 0x1c2030);
    assert_eq!(parse_hex_color(" \"##A5cFc2\" "), 0xa5cfc2);
    assert_eq!(parse_hex_color("'ffffff'"), 0xffffff);
    assert_eq!(parse_hex_color("#12345"), 0xffff_ffff, "five digits are not a color");
    assert_eq!(parse_hex_color("#12345g"), 0xffff_ffff);
    assert_eq!(parse_hex_color("#11223344"), 0xffff_ffff, "eight digits are not an rgb color");
    assert_eq!(parse_hex_color(""), 0xffff_ffff);
}

#[test]
fn app_exit_and_tiling_modes() {
    assert_eq!(parse_on_app_exit("Focus_Previous"), OnAppExit::FocusPrevious);
    assert_eq!(parse_on_app_exit("OVERVIEW"), OnAppExit::Overview);
    assert_eq!(parse_on_app_exit("none"), OnAppExit::Nothing);
    assert_eq!(parse_tiling_mode("Fullscreen"), TilingMode::Fullscreen);
    assert_eq!(parse_tiling_mode("popup"), TilingMode::Popup);
    assert_eq!(parse_tiling_mode("pinned"), TilingMode::Overlay);
    assert_eq!(parse_tiling_mode("side_panel"), TilingMode::Overlay);
    assert_eq!(parse_tiling_mode("status"), TilingMode::Status);
    assert_eq!(parse_tiling_mode("utility"), TilingMode::Utility);
    assert_eq!(parse_tiling_mode("maximized"), TilingMode::Tiled);
    assert_eq!(parse_tiling_mode("grid"), TilingMode::Floating);
}

#[test]
fn modifiers_buttons_and_actions() {
    assert_eq!(parse_modifiers("super+shift"), 0x41);
    assert_eq!(parse_modifiers("mod4+ctrl+mod1"), 0x4c);
    assert_eq!(parse_modifiers("alt"), 0x08);
    assert_eq!(parse_modifiers("Super"), 0, "names are matched as written");
    assert_eq!(parse_button(" left "), 0x110);
    assert_eq!(parse_button("extra"), 0x114);
    assert_eq!(parse_button("274"), 274);
    assert_eq!(parse_button("wheel"), 0);
    assert_eq!(parse_action("spawn"), BindAction::Spawn);
    assert_eq!(parse_action(" spawn-x "), BindAction::Spawn);
    assert_eq!(parse_action("spawn foot"), BindAction::Spawn);
    assert_eq!(parse_action("spawner"), BindAction::NoAction);
    assert_eq!(parse_action("toggle"), BindAction::Toggle);
    assert_eq!(parse_action("move"), BindAction::Move);
    assert_eq!(parse_action("resize"), BindAction::Resize);
    assert_eq!(parse_action("close"), BindAction::NoAction);
}

#[test]
fn defaults() {
    assert_eq!(default_gap(), 48);
    assert_eq!(default_bar_height(), 24);
    assert_eq!(default_desktop_line_relief(), -1);
    assert_eq!(default_shadow_color(), "#0000008c");
    assert_eq!(default_status_normal_color(), "#ccccd8");
    assert_eq!(default_cloud_position_default(), None);
    assert!(OutputConfig::new().scenefx_optimized_blur);
    assert_eq!(GesturesConfig::new(), GesturesConfig { swipe: None, pinch: None });
}
