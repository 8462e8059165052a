use cce_fx::config::{
    BindAction, GestureBindConfig, KeybindConfig, ModeRuleConfig, OnAppExit, PointerBindConfig,
    TilingMode,
};
use cce_fx::config_file::{expand_env_vars, parse_kdl_config, LayoutConfig, SurfaceConfig};
use cce_fx::settings::{
    background_channels, fade_ms, overview_gestures, resolve_gesture_bind, resolve_keybind,
    resolve_mode_rule, resolve_pointer_bind, resolve_window_manager, split_key_chord, wm_layout,
};

fn env() -> Vec<(String, String)> {
    vec![
        ("HOME".to_string(), "/home/ada".to_string()),
        ("XDG_DATA_HOME".to_string(), "/data".to_string()),
        ("A1".to_string(), "x".to_string()),
    ]
}

#[test]
fn expand_env_vars_replaces_both_spellings() {
    assert_eq!(expand_env_vars("$HOME/bin", &env()), "/home/ada/bin");
    assert_eq!(expand_env_vars("${XDG_DATA_HOME}/cce", &env()), "/data/cce");
    assert_eq!(expand_env_vars("$A1.", &env()), "x.");
}

#[test]
fn expand_env_vars_unset_is_empty_and_stray_dollars_stay() {
    assert_eq!(expand_env_vars("[$NOPE]", &env()), "[]");
    assert_eq!(expand_env_vars("cost: 5$", &env()), "cost: 5$");
    assert_eq!(expand_env_vars("$$ and $: and $1", &env()), "$$ and $: and $1");
    assert_eq!(expand_env_vars("${HOME", &env()), "${HOME");
    assert_eq!(expand_env_vars("${}", &env()), "");
    assert_eq!(expand_env_vars("", &env()), "");
}

#[test]
fn key_chords_split_at_the_last_plus_when_mods_are_empty() {
    assert_eq!(split_key_chord("", "super+shift+Return"), ("super+shift".to_string(), "Return".to_string()));
    assert_eq!(split_key_chord("", "q"), ("".to_string(), "q".to_string()));
    assert_eq!(split_key_chord("ctrl", "a+b"), ("ctrl".to_string(), "a+b".to_string()));
    assert_eq!(split_key_chord("", "ctrl+"), ("ctrl".to_string(), "".to_string()));
}

#[test]
fn keybind_resolution_keeps_commands_only_for_spawn_and_toggle() {
    let kb = KeybindConfig {
        mods: "".to_string(),
        key: "super+Return".to_string(),
        action: "spawn".to_string(),
        command: Some("foot".to_string()),
    };
    let c = resolve_keybind(&kb);
    assert_eq!(c.mods, 0x40);
    assert_eq!(c.key, "Return");
    assert_eq!(c.action, BindAction::Spawn);
    assert_eq!(c.command, Some("foot".to_string()));

    let kb = KeybindConfig {
        mods: "super+shift".to_string(),
        key: "m".to_string(),
        action: "move".to_string(),
        command: Some("ignored".to_string()),
    };
    let c = resolve_keybind(&kb);
    assert_eq!(c.mods, 0x41);
    assert_eq!(c.action, BindAction::Move);
    assert_eq!(c.command, None);
}

#[test]
fn pointer_and_gesture_binds_resolve() {
    let pb = resolve_pointer_bind(&PointerBindConfig {
        mods: "super".to_string(),
        button: "right".to_string(),
        action: "resize".to_string(),
    });
    assert_eq!((pb.mods, pb.button, pb.action), (0x40, 0x111, BindAction::Resize));

    let gb = resolve_gesture_bind(&GestureBindConfig {
        mods: None,
        gesture_type: "swipe".to_string(),
        fingers: 3,
        direction: "up".to_string(),
        action: "toggle".to_string(),
        command: Some("launcher".to_string()),
    });
    assert_eq!(gb.mods, 0);
    assert_eq!(gb.action, BindAction::Toggle);
    assert_eq!(gb.command, Some("launcher".to_string()));
    let gb = resolve_gesture_bind(&GestureBindConfig {
        mods: Some("ctrl+alt".to_string()),
        gesture_type: "pinch".to_string(),
        fingers: 4,
        direction: "in".to_string(),
        action: "close".to_string(),
        command: Some("x".to_string()),
    });
    assert_eq!(gb.mods, 0x0c);
    assert_eq!(gb.action, BindAction::NoAction);
    assert_eq!(gb.command, None);
}

#[test]
fn mode_rules_resolve_with_their_defaults() {
    let r = resolve_mode_rule(&ModeRuleConfig {
        mode: "Side-Panel".to_string(),
        app_id: "org.app".to_string(),
        title: None,
        single: None,
        tag: None,
        circular: Some(true),
        ssd: None,
    });
    assert_eq!(r.mode, TilingMode::Overlay);
    assert_eq!(r.app_id_pattern, "org.app");
    assert!(!r.single_instance);
    assert_eq!(r.tag, -1);
    assert!(r.circular);
    let r = resolve_mode_rule(&ModeRuleConfig {
        mode: "cascade".to_string(),
        app_id: "a".to_string(),
        title: Some("t".to_string()),
        single: Some(true),
        tag: Some(4294967301),
        circular: None,
        ssd: Some(true),
    });
    assert_eq!(r.mode, TilingMode::Floating);
    assert_eq!(r.tag, 5, "the tag is taken to 32 bits");
    assert!(r.single_instance);
    assert_eq!(r.title_pattern, Some("t".to_string()));
    assert_eq!(r.ssd, Some(true));
}

#[test]
fn toggle_overview_binds_three_and_four_fingers() {
    let g = overview_gestures("Swipe-Down");
    assert_eq!(g.len(), 2);
    assert_eq!((g[0].gesture_type.as_str(), g[0].fingers, g[0].direction.as_str()), ("swipe", 3, "down"));
    assert_eq!((g[1].gesture_type.as_str(), g[1].fingers, g[1].direction.as_str()), ("swipe", 4, "down"));
    let g = overview_gestures("pinch_in");
    assert_eq!(g[0].gesture_type, "pinch");
    assert_eq!(g[0].direction, "in");
    assert!(overview_gestures("super+tab").is_empty());
    let g = overview_gestures("swipeswipe__left");
    assert_eq!(g[0].direction, "left");
}

#[test]
fn window_manager_defaults_and_bevel_fallback() {
    let d = resolve_window_manager(&None);
    assert!(d.xwayland_hidpi);
    assert!(d.center_on_spawn);
    assert!(!d.touchpad_view_swipe_tumble);
    assert_eq!(d.on_app_exit, OnAppExit::FocusPrevious);
    assert!(d.rounded_apps.is_empty() && d.bevel_apps.is_empty());

    let config = parse_kdl_config(
        r#"
        window_manager {
            rounded_apps "a*" "b"
            touchpad_view_swipe "TUMBLE"
            on_app_exit "overview"
            xwayland_hidpi (bool)false
        }
        "#,
    )
    .unwrap_or_else(|e| panic!("{}", e));
    let s = resolve_window_manager(&config.window_manager);
    assert_eq!(s.bevel_apps, vec!["a*".to_string(), "b".to_string()]);
    assert!(s.touchpad_view_swipe_tumble);
    assert_eq!(s.on_app_exit, OnAppExit::Overview);
    assert!(!s.xwayland_hidpi);
}

#[test]
fn background_channels_replicate_each_byte() {
    assert_eq!(
        background_channels(0x1c2030),
        (0x1c1c1c1c, 0x20202020, 0x30303030, 0xffffffff)
    );
    assert_eq!(background_channels(0), (0, 0, 0, 0xffffffff));
}

#[test]
fn fade_durations_are_held_to_two_seconds() {
    assert_eq!(fade_ms(-5), 0);
    assert_eq!(fade_ms(140), 140);
    assert_eq!(fade_ms(20000), 2000);
}

#[test]
fn window_manager_layout_is_clamped_and_narrowed() {
    let mut l = LayoutConfig::default();
    let mut s = SurfaceConfig::default();
    l.gap = (1i64 << 33) + 5;
    l.bar_height = 30;
    s.fade_in_ms = 5000;
    s.fade_out_ms = -10;
    s.border_segment_gap = -3;
    s.border_corner_length = 7;
    s.desktop_gap_color = "#102030".to_string();
    s.grid_cell_width = Some(300);
    s.grid_cell_height = None;
    s.desktop_grid_scale = 200;
    s.desktop_overview_ms = 5;
    s.desktop_edge_pan_band = 0;
    s.desktop_edge_pan_speed = -4;
    s.desktop_snap_threshold = 12;
    let w = wm_layout(&l, &s, -1);
    assert_eq!((w.gap, w.bar_height), (5, 30), "sizes are narrowed to i32 as the original's casts do");
    assert_eq!((w.fade_in_ms, w.fade_out_ms), (2000, 0));
    assert_eq!((w.border_segment_gap, w.border_corner_length), (0, 7));
    assert_eq!(
        (w.background_r, w.background_g, w.background_b, w.background_a),
        (0x10101010, 0x20202020, 0x30303030, 0xffffffff)
    );
    assert_eq!((w.desktop_cell_width, w.desktop_cell_height), (300, 200));
    assert_eq!((w.desktop_overview_ms, w.desktop_edge_pan_band, w.desktop_edge_pan_speed), (16, 1, 0));
    assert_eq!(w.desktop_snap_threshold, 12);
    assert_eq!(w.desktop_line_relief, None);
    assert_eq!(wm_layout(&l, &s, 0).desktop_line_relief, Some(0));
    assert_eq!(wm_layout(&l, &s, 3).desktop_line_relief, Some(3));
}
