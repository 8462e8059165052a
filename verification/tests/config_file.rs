use cce_fx::config::{default_root_plate_color, default_root_plate_corner_radius};
use cce_fx::config_file::{
    apply_status_module, config_file_in, config_home, keysym_name_part, merge_input_file, parse_keysym,
    parse_kdl_config, state_path, status_module_settings, Config, LayoutConfig, LineRelief, SurfaceConfig,
};

fn parse(text: &str) -> Config {
    match parse_kdl_config(text) {
        Ok(c) => c,
        Err(e) => panic!("{}", e),
    }
}

#[test]
fn test_plate_root_canonical_spelling() {
    let canonical = r##"
style {
    surface {
        plate {
            root color="#11223344" blur=0.5 corner_radius=21
        }
        backplate color="#ffffffff" blur=0.9 corner_radius=7
    }
}
"##;
    let config = parse(canonical);
    assert_eq!(config.surface.root_plate_corner_radius, 21, "canonical read; legacy ignored");
    assert_eq!(config.surface.root_plate_color, "#11223344");

    let legacy = r##"
style {
    surface {
        backplate color="#55667788" corner_radius=9
    }
}
"##;
    let config = parse(legacy);
    assert_eq!(
        config.surface.root_plate_corner_radius,
        default_root_plate_corner_radius(),
        "legacy spelling is not read"
    );
    assert_eq!(config.surface.root_plate_color, default_root_plate_color());
}

#[test]
fn test_kdl_display_scale_parsing() {
    let content = r#"
            output {
                eDP-1 {
                    scale (f64)2.0
                    brightness_up (keybind)"XF86MonBrightnessUp"
                    brightness_down (keybind)"XF86MonBrightnessDown"
                    brightness_interval (i64)10
                }
                DP-1 {
                    scale (f64)1.5
                }
            }
        "#;
    let config = parse(content);
    let edp = config.displays.iter().find(|d| d.name == "eDP-1").unwrap();
    assert_eq!(edp.brightness_interval, Some(10));
    let dp = config.displays.iter().find(|d| d.name == "DP-1").unwrap();
    assert_eq!(dp.brightness_interval, None);

    let up_bind = config.key_bindings.iter().find(|kb| kb.key == "XF86MonBrightnessUp").unwrap();
    assert_eq!(up_bind.action, "spawn");
    assert_eq!(up_bind.command, Some("brightnessctl set 10%+".to_string()));

    let down_bind = config.key_bindings.iter().find(|kb| kb.key == "XF86MonBrightnessDown").unwrap();
    assert_eq!(down_bind.action, "spawn");
    assert_eq!(down_bind.command, Some("brightnessctl set 10%-".to_string()));
}

#[test]
fn test_kdl_window_manager_parsing() {
    let content = r#"
            "window_manager" {
                close_window (keybind)"super+q"
                toggle_fullscreen (keybind)"super+f"
                toggle_overview ("menu:swipe_up,swipe_down,swipe_left,swipe_right,pinch_in,pinch_out")"swipe_up"
                swipe_peek (f64)40.0
                swipe_repeat_peek (f64)15.0
                swipe_threshold (f64)80.0
                swipe_repeat_threshold (f64)200.0
            }
        "#;
    let config = parse(content);
    assert!(config.window_manager.is_some());
    let wm = config.window_manager.unwrap();
    assert_eq!(wm.close_window, Some("super+q".to_string()));
    assert_eq!(wm.toggle_fullscreen, Some("super+f".to_string()));
    assert_eq!(wm.toggle_overview, Some("swipe_up".to_string()));
    assert_eq!(wm.center_on_spawn, None);
}

#[test]
fn test_kdl_window_manager_center_on_spawn() {
    let off = parse(
        r#"
            window_manager {
                center_on_spawn (bool)false
            }
        "#,
    );
    assert_eq!(off.window_manager.unwrap().center_on_spawn, Some(false));

    let on = parse(
        r#"
            window_manager {
                center_on_spawn (bool)true
            }
        "#,
    );
    assert_eq!(on.window_manager.unwrap().center_on_spawn, Some(true));

    assert!(parse("layout {\n gap 4\n}").window_manager.is_none());
}

#[test]
fn test_kdl_window_manager_rounded_apps() {
    let listed = parse(
        r#"
            window_manager {
                rounded_apps "chat-desktop" "org.keepassxc.KeePassXC"
            }
        "#,
    );
    assert_eq!(
        listed.window_manager.unwrap().rounded_apps,
        Some(vec!["chat-desktop".to_string(), "org.keepassxc.KeePassXC".to_string()])
    );

    let absent = parse(
        r#"
            window_manager {
                center_on_spawn (bool)true
            }
        "#,
    );
    assert_eq!(absent.window_manager.unwrap().rounded_apps, None);
}

#[test]
fn test_kdl_input_device_classes_parsing() {
    let content = r#"
            input {
                accel_profile "flat"
                accel_speed (f64)1.0
                scroll_factor (f64)1.0
                scroll_ease (f64)9.5
                kinetic_scroll (bool)false
                scroll_friction (f64)4.0
                mouse {
                    accel_speed (f64)0.5
                    scroll_factor (f64)2.0
                    scroll_method "button"
                }
                trackpad {
                    tap_to_click (bool)true
                    natural_scroll (bool)true
                    scroll_factor (f64)1.5
                    accel_speed (f64)0.9
                }
                trackpoint {
                    accel_speed (f64)0.4
                    accel_profile "adaptive"
                    scroll_factor (f64)3.0
                    scroll_method ("menu:none,button,two_finger,edge")"none"
                }
            }
        "#;
    let config = parse(content);
    let input = config.input.unwrap();
    assert_eq!(input.accel_profile, Some("flat".to_string()));
    assert_eq!(input.kinetic_scroll, Some(false));
    let mouse = input.mouse.unwrap();
    assert_eq!(mouse.scroll_method, Some("button".to_string()));
    let tp = input.touchpad.unwrap();
    assert_eq!(tp.tap_to_click, Some(true));
    assert_eq!(tp.natural_scroll, Some(true));
    let tpoint = input.trackpoint.unwrap();
    assert_eq!(tpoint.accel_profile, Some("adaptive".to_string()));
    assert_eq!(tpoint.scroll_method, Some("none".to_string()));
}

#[test]
fn test_kdl_touchpad_hscroll_shift_apps() {
    let content = r#"
            window_manager {
                touchpad_view_apps "Houdini FX"
                touchpad_hscroll_shift_apps "Houdini FX" "hython*"
            }
        "#;
    let config = parse(content);
    let wm = config.window_manager.unwrap();
    assert_eq!(wm.touchpad_view_apps, Some(vec!["Houdini FX".to_string()]));
    assert_eq!(
        wm.touchpad_hscroll_shift_apps,
        Some(vec!["Houdini FX".to_string(), "hython*".to_string()])
    );
    let config = parse("window_manager { }");
    assert_eq!(config.window_manager.unwrap().touchpad_hscroll_shift_apps, None);
}

#[test]
fn test_kdl_surface_border_parsing() {
    let content = r##"
            style {
                surface {
                    border width=2 color="#ff8800" color_focused="#00ff88" color_hover="#88ffcc" corner_radius=10 segment_gap=6 corner_length=24
                }
            }
        "##;
    let config = parse(content);
    assert_eq!(config.surface.border_width, 2);
    assert_eq!(config.surface.border_color, "#ff8800");
    assert_eq!(config.surface.border_color_focused, Some("#00ff88".to_string()));
    assert_eq!(config.surface.border_color_hover, Some("#88ffcc".to_string()));
    assert_eq!(config.surface.border_corner_radius, 10);
    assert_eq!(config.surface.border_segment_gap, 6);
    assert_eq!(config.surface.border_corner_length, 24);

    let config = parse("");
    assert_eq!(config.surface.border_width, 0);
    assert_eq!(config.surface.border_corner_radius, 0);
    assert_eq!(config.surface.border_color_focused, None);
    assert_eq!(config.surface.border_color_hover, None);
    assert_eq!(config.surface.border_segment_gap, 4);
    assert_eq!(config.surface.border_corner_length, 0);
}

// ---------------------------------------------------------------------------
// Further cases
// ---------------------------------------------------------------------------

#[test]
fn text_that_is_not_kdl_is_refused_with_the_parser_message() {
    match parse_kdl_config("layout {") {
        Ok(_) => panic!("an unclosed block parsed"),
        Err(e) => assert!(e.starts_with("KDL parse error: "), "{}", e),
    }
}

#[test]
fn layout_and_style_values_and_their_defaults() {
    let config = parse(
        r##"
        layout {
            gap 12
            gap_top 30
            bar_height "tall"
        }
        style {
            window transition_duration=120
            overlay behavior="float" width=420
            status normal_color="#ffffff" module_spacing=9
        }
        "##,
    );
    let l = &config.layout;
    assert_eq!(l.gap, 12);
    assert_eq!(l.gap_top, 30);
    assert_eq!(l.gap_left, 48);
    assert_eq!(l.bar_height, 24, "a string where an integer belongs reads as the default");
    assert_eq!(l.cascade_offset, 20);
    assert_eq!(l.transition_duration, 120);
    assert_eq!(l.overlay_behavior, "float");
    assert_eq!(l.overlay_width, 420);
    assert_eq!(l.overlay_position, "left");
    assert_eq!(l.status_normal_color, "#ffffff");
    assert_eq!(l.status_module_spacing, Some(9));
    assert_eq!(l.status_module_hide_mode_preview, 4);
    assert!(l.window_backdrop_blur_ignore_transparent);

    let empty = parse("");
    assert_eq!(empty.layout.gap, 48);
    assert_eq!(empty.layout.status_module_spacing, None);
    assert_eq!(empty.layout.overlay_behavior, "inline");
}

#[test]
fn env_children_set_variables_and_a_later_one_wins() {
    let config = parse(
        r#"
        env {
            EDITOR "vim"
            COUNT 3
            EDITOR "nano"
            LANG "C"
        }
        "#,
    );
    let mut env = config.env.clone();
    env.sort();
    assert_eq!(
        env,
        vec![
            ("EDITOR".to_string(), "nano".to_string()),
            ("LANG".to_string(), "C".to_string()),
        ]
    );
}

#[test]
fn key_bindings_in_both_spellings_then_brightness_keys() {
    let config = parse(
        r#"
        key_bindings {
            bind mods="super" key="Return" action="spawn" command="foot"
            other key="x"
            bind key="q" action="close"
        }
        key_bindings mods="super+shift" key="e" action="exit"
        output {
            eDP-1 brightness_up="XF86MonBrightnessUp" brightness_interval=5
        }
        "#,
    );
    let keys: Vec<(&str, &str, &str, Option<&str>)> = config
        .key_bindings
        .iter()
        .map(|k| (k.mods.as_str(), k.key.as_str(), k.action.as_str(), k.command.as_deref()))
        .collect();
    assert_eq!(
        keys,
        vec![
            ("super", "Return", "spawn", Some("foot")),
            ("", "q", "close", None),
            ("super+shift", "e", "exit", None),
            ("", "XF86MonBrightnessUp", "spawn", Some("brightnessctl set 5%+")),
        ]
    );
}

#[test]
fn key_bindings_fall_back_to_the_input_block() {
    let config = parse(
        r#"
        input {
            key_bindings {
                bind mods="super" key="d" action="spawn" command="fuzzel"
            }
        }
        "#,
    );
    assert_eq!(config.key_bindings.len(), 1);
    assert_eq!(config.key_bindings[0].key, "d");
    assert_eq!(config.key_bindings[0].command, Some("fuzzel".to_string()));

    let config = parse(
        r#"
        key_bindings key="a" action="spawn"
        input {
            key_bindings key="b" action="spawn"
        }
        "#,
    );
    assert_eq!(config.key_bindings.len(), 1);
    assert_eq!(config.key_bindings[0].key, "a");
}

#[test]
fn list_nodes_read_their_properties() {
    let config = parse(
        r#"
        pointer_bind mods="super" button="left" action="move"
        gesture_bind type="swipe" fingers=3 direction="left" action="spawn" command="x"
        gesture_bind mods="ctrl" type="pinch" fingers=4294967298 direction="in" action="toggle"
        mode_rule mode="floating" app_id="pavucontrol" single=true tag=2 ssd=false
        tag_layout tag=3 mode="tiled"
        startup exec="waybar" once=true
        startup exec="mako"
        "#,
    );
    assert_eq!(config.pointer_bind.len(), 1);
    assert_eq!(config.pointer_bind[0].button, "left");
    assert_eq!(config.gesture_bind.len(), 2);
    assert_eq!(config.gesture_bind[0].mods, None);
    assert_eq!(config.gesture_bind[0].fingers, 3);
    assert_eq!(config.gesture_bind[0].command, Some("x".to_string()));
    assert_eq!(config.gesture_bind[1].mods, Some("ctrl".to_string()));
    assert_eq!(config.gesture_bind[1].fingers, 2, "fingers are taken to 32 bits");
    let rule = &config.mode_rule[0];
    assert_eq!(rule.mode, "floating");
    assert_eq!(rule.app_id, "pavucontrol");
    assert_eq!(rule.title, None);
    assert_eq!(rule.single, Some(true));
    assert_eq!(rule.tag, Some(2));
    assert_eq!(rule.circular, None);
    assert_eq!(rule.ssd, Some(false));
    assert_eq!(config.tag_layout[0].tag, 3);
    assert_eq!(config.tag_layout[0].mode, "tiled");
    assert_eq!(config.startup.len(), 2);
    assert_eq!(config.startup[0].command, "waybar");
    assert!(config.startup[0].once);
    assert!(!config.startup[1].once);
    assert!(!config.startup[1].restart);
}

#[test]
fn idle_block_sets_timeouts_and_command() {
    let config = parse(
        r#"
        idle {
            display_off 300
            sleep 900
            sleep_command "systemctl suspend"
        }
        "#,
    );
    assert_eq!(config.idle.display_off_s, 300);
    assert_eq!(config.idle.sleep_s, 900);
    assert_eq!(config.idle.sleep_command, Some("systemctl suspend".to_string()));
    let config = parse("");
    assert_eq!(config.idle.display_off_s, 0);
    assert_eq!(config.idle.sleep_command, None);
}

#[test]
fn output_block_and_display_children_spellings() {
    let config = parse(
        r#"
        output {
            scenefx_optimized_blur false
            HDMI-A-1 brightness_interval=7 {
                brightness_interval 3
                brightness_down "F1"
            }
        }
        "#,
    );
    assert!(!config.output.as_ref().unwrap().scenefx_optimized_blur);
    let hdmi = config.displays.iter().find(|d| d.name == "HDMI-A-1").unwrap();
    assert_eq!(hdmi.brightness_interval, Some(7), "the property comes before the child");
    assert_eq!(hdmi.brightness_down, Some("F1".to_string()));
    assert_eq!(
        config.key_bindings.last().unwrap().command,
        Some("brightnessctl set 7%-".to_string())
    );
    assert!(parse("").output.is_none());
}

#[test]
fn nested_desktop_block_last_value_wins() {
    let config = parse(
        r##"
        style {
            surface {
                desktop gap_color="#111111" grid_cell_size=80 desktop_grid_scale=90 gap_color=5 snap=false line_relief=3 line_relief="(relief)" grid_cell_width=64
                fade in_ms=0
                cloud {
                    position_default (vec2i)10 -20
                }
            }
        }
        surface {
            desktop_gap_color "#222222"
        }
        "##,
    );
    let s = &config.surface;
    assert!(s.nested);
    assert_eq!(s.desktop_gap_color, "#111111", "a non-string gap_color is skipped");
    assert_eq!(s.desktop_grid_scale, 90);
    assert!(!s.desktop_snap);
    assert_eq!(s.grid_cell_width, Some(64));
    assert_eq!(s.grid_cell_height, None);
    assert_eq!(s.fade_in_ms, 0);
    assert_eq!(s.fade_out_ms, 120);
    assert_eq!(s.cloud_position_default, Some([10, -20]));
    assert_eq!(s.desktop_line_relief.len(), 2);
    assert!(matches!(s.desktop_line_relief[0], LineRelief::Width(3)));
    assert!(matches!(&s.desktop_line_relief[1], LineRelief::Spec(t) if t == "(relief)"));
}

#[test]
fn flat_surface_block_when_nothing_is_nested() {
    let config = parse(
        r##"
        surface {
            desktop_gap_color "#222222"
            desktop_grid_scale 70
            grid_cell_height 40
            border_color_focused "#abcdef"
            cloud_position_default (vec2i)1 2
        }
        "##,
    );
    let s = &config.surface;
    assert!(!s.nested);
    assert_eq!(s.desktop_gap_color, "#222222");
    assert_eq!(s.desktop_grid_scale, 70);
    assert_eq!(s.grid_cell_width, None);
    assert_eq!(s.grid_cell_height, Some(40));
    assert_eq!(s.border_color_focused, Some("#abcdef".to_string()));
    assert_eq!(s.cloud_position_default, Some([1, 2]));
    assert_eq!(s.desktop_cell_color, "#ffffff0d");
}

#[test]
fn configuration_and_state_paths() {
    assert_eq!(config_home(Some("/cfg"), Some("/home/u")), "/cfg");
    assert_eq!(config_home(None, Some("/home/u")), "/home/u/.config");
    assert_eq!(config_home(None, None), "/.config");
    assert_eq!(config_file_in("/cfg"), "/cfg/cce/config.kdl");
    assert_eq!(state_path(Some("/st"), Some("/home/u")), Some("/st/cce/state.json".to_string()));
    assert_eq!(state_path(None, Some("/home/u")), Some("/home/u/.local/state/cce/state.json".to_string()));
    assert_eq!(state_path(None, None), None);
}

#[test]
fn keysym_names_drop_the_xkb_prefix() {
    assert_eq!(keysym_name_part("XKB_KEY_Return"), "Return");
    assert_eq!(keysym_name_part("Return"), "Return");
    assert_eq!(keysym_name_part("XKB_KEY"), "XKB_KEY");
}

#[test]
fn defaults_are_what_an_empty_file_gives() {
    use_defaults();
}

fn use_defaults() {
    let l = LayoutConfig::default();
    assert_eq!((l.gap, l.gap_top, l.cascade_offset, l.bar_height, l.grid_gap), (48, 48, 20, 24, 18));
    assert_eq!(l.transition_duration, 300);
    assert_eq!(l.overlay_width, 360);
    assert!(!l.window_blur && l.window_opacity);
    let s = SurfaceConfig::default();
    assert!(!s.nested);
    assert_eq!(s.desktop_gap_color, "#000000");
    assert_eq!(s.desktop_grid_scale, 100);
    assert_eq!(s.desktop_overview_ramp, "");
    assert_eq!(s.root_plate_corner_radius, 12);
    assert_eq!(s.bevel_light, "top-left");
    assert!(s.shadow_enabled && s.shadow_tiled);
    assert_eq!((s.shadow_offset_x, s.shadow_offset_y), (7, 7));
    assert!(s.desktop_line_relief.is_empty());
}

#[test]
fn input_file_adds_bindings_and_replaces_the_input_block() {
    let main = parse(
        r#"
        key_bindings key="a" action="close"
        input {
            accel_profile "flat"
        }
        layout {
            bar_height 30
        }
        "#,
    );
    let extra = parse(
        r#"
        key_bindings key="b" action="exit"
        input {
            accel_profile "adaptive"
        }
        layout {
            bar_height 99
        }
        "#,
    );
    let merged = merge_input_file(main, extra);
    let keys: Vec<&str> = merged.key_bindings.iter().map(|k| k.key.as_str()).collect();
    assert_eq!(keys, vec!["a", "b"]);
    assert_eq!(merged.input.unwrap().accel_profile, Some("adaptive".to_string()));
    assert_eq!(merged.layout.bar_height, 30, "the main file's other settings stay");

    let main = parse("input {\n accel_profile \"flat\"\n}\n");
    let merged = merge_input_file(main, parse("key_bindings key=\"c\" action=\"exit\""));
    assert_eq!(merged.key_bindings.len(), 1);
    assert_eq!(merged.input.unwrap().accel_profile, Some("flat".to_string()), "no input block keeps the main one");
}

#[test]
fn status_bar_module_settings_win() {
    let mut l = LayoutConfig::default();
    apply_status_module(&mut l, Some(7), Some(40));
    assert_eq!((l.status_module_spacing, l.bar_height), (Some(7), 40));
    apply_status_module(&mut l, None, None);
    assert_eq!((l.status_module_spacing, l.bar_height), (Some(7), 40));
    let mut l = LayoutConfig::default();
    apply_status_module(&mut l, None, Some(30));
    assert_eq!((l.status_module_spacing, l.bar_height, l.gap), (None, 30, 48));
}

#[test]
fn configured_keys_are_looked_up_without_their_prefix() {
    let from_name = |name: &str| -> u32 {
        match name.to_ascii_lowercase().as_str() {
            "return" => 0xff0d,
            "xf86monbrightnessup" => 0x1008ff02,
            _ => 0,
        }
    };
    assert_eq!(parse_keysym("Return", from_name), 0xff0d);
    assert_eq!(parse_keysym("XKB_KEY_Return", from_name), 0xff0d);
    assert_eq!(parse_keysym("XF86MonBrightnessUp", from_name), 0x1008ff02);
    assert_eq!(parse_keysym("XKB_KEY_", from_name), 0);
    assert_eq!(parse_keysym("nosuchkey", from_name), 0);
}

#[test]
fn status_bar_module_block_is_read_in_either_spelling() {
    let m = status_module_settings("module spacing=8 droplet=\"soft\" {\n height 28\n}\n");
    assert_eq!((m.spacing, m.height, m.droplet), (Some(8), Some(28), Some("soft".to_string())));
    let m = status_module_settings("module {\n spacing 6\n droplet \"\"\n}\n");
    assert_eq!((m.spacing, m.height, m.droplet), (Some(6), None, Some(String::new())));
    let m = status_module_settings("module spacing=\"wide\" {\n spacing 4\n}\n");
    assert_eq!(m.spacing, None, "the property is the setting even when it is no integer");
    let m = status_module_settings("module spacing=(f64)12.5\n");
    assert_eq!(m.spacing, None, "a float is left to the caller");
    let m = status_module_settings("other spacing=3\n");
    assert_eq!((m.spacing, m.height, m.droplet), (None, None, None));
    let m = status_module_settings("module {");
    assert_eq!((m.spacing, m.height, m.droplet), (None, None, None));
}
