use cce_fx::keyboard::{
    builtin_binding, choose_consumer, find_chord, first_builtin, forward_to_focus,
    keysym_is_modifier, match_keybind, watched_mods_changed, BindingHit, Builtin, Chord,
    KeyConsumer, KeyNotify, KeyboardGroup, PressContext, MAX_PRESSED, dispatch_key, KeyDispatch,
};

#[test]
fn modifier_keysyms() {
    assert!(keysym_is_modifier(0xffe1), "Shift_L");
    assert!(keysym_is_modifier(0xffeb), "Super_L");
    assert!(keysym_is_modifier(0xfe03), "ISO_Level3_Shift");
    assert!(keysym_is_modifier(0xff7e), "Mode_switch");
    assert!(!keysym_is_modifier(0x0061), "a");
    assert!(!keysym_is_modifier(0xff0d), "Return");
    assert!(!keysym_is_modifier(0xfe10));
}

#[test]
fn a_key_held_on_two_keyboards_is_released_once() {
    let mut g = KeyboardGroup::new();
    assert_eq!(g.process_key(30, true), KeyNotify::Pressed);
    g.record_press(30, KeyConsumer::Focus);
    assert_eq!(g.process_key(30, true), KeyNotify::Nothing);
    assert_eq!(g.process_key(30, false), KeyNotify::Nothing);
    assert_eq!(g.process_key(30, false), KeyNotify::Released);
    assert_eq!(g.take_release(30), KeyConsumer::Focus);
    assert!(g.pressed.is_empty());
}

#[test]
fn a_release_goes_where_the_press_went() {
    let mut g = KeyboardGroup::new();
    assert_eq!(g.process_key(44, true), KeyNotify::Pressed);
    g.record_press(44, KeyConsumer::CceBinding(3));
    assert_eq!(g.process_key(44, false), KeyNotify::Released);
    assert_eq!(g.take_release(44), KeyConsumer::CceBinding(3));
    assert_eq!(g.take_release(44), KeyConsumer::Focus, "an unknown key goes to the focus");
    assert_eq!(g.process_key(44, false), KeyNotify::Nothing, "a stray release is dropped");
}

#[test]
fn no_more_than_the_limit_of_keys_are_tracked() {
    let mut g = KeyboardGroup::new();
    for k in 0..MAX_PRESSED as u32 {
        assert_eq!(g.process_key(k, true), KeyNotify::Pressed);
        g.record_press(k, KeyConsumer::Focus);
    }
    assert_eq!(g.process_key(1000, true), KeyNotify::Nothing);
}

#[test]
fn builtins_switch_vts_and_dismiss_menus() {
    assert_eq!(builtin_binding(0x1008fe01, 0, false), Some(Builtin::SwitchVt(1)));
    assert_eq!(builtin_binding(0x1008fe0c, 0x4, false), Some(Builtin::SwitchVt(12)));
    assert_eq!(builtin_binding(0xff1b, 0, true), Some(Builtin::DismissMenu));
    assert_eq!(builtin_binding(0xff1b, 0x40, true), None);
    assert_eq!(builtin_binding(0xff1b, 0, false), None);
    assert_eq!(first_builtin(&vec![0x61, 0x1008fe03, 0xff1b], 0, true), Some(Builtin::SwitchVt(3)));
    assert_eq!(first_builtin(&vec![0x61], 0, true), None);
}

#[test]
fn keybinds_match_base_symbols_before_levels() {
    let binds = vec![
        Chord { mods: 0x40, keysym: 0x71 },
        Chord { mods: 0x41, keysym: 0x51 },
        Chord { mods: 0x40, keysym: 0x51 },
    ];
    assert_eq!(find_chord(&binds, 0x40, &vec![0x71]), Some(0));
    assert_eq!(find_chord(&binds, 0x41, &vec![0x71]), None);
    assert_eq!(match_keybind(&binds, 0x41, &vec![0x71], &vec![0x51], 0), Some(1));
    assert_eq!(match_keybind(&binds, 0x41, &vec![0x71], &vec![0x51], 0x01), Some(2));
    assert_eq!(match_keybind(&binds, 0x04, &vec![0x71], &vec![0x51], 0), None);
}

#[test]
fn press_consumers_in_priority_order() {
    let none = PressContext {
        builtin: false,
        keybind: None,
        binding: None,
        ensure_next_key_eaten: false,
        has_non_modifier: true,
        im_grab: false,
    };
    assert_eq!(choose_consumer(none), (KeyConsumer::Focus, false));
    assert_eq!(choose_consumer(PressContext { im_grab: true, ..none }), (KeyConsumer::ImGrab, false));
    assert_eq!(
        choose_consumer(PressContext { ensure_next_key_eaten: true, im_grab: true, ..none }),
        (KeyConsumer::EnsureEaten, false)
    );
    assert_eq!(
        choose_consumer(PressContext { ensure_next_key_eaten: true, has_non_modifier: false, ..none }),
        (KeyConsumer::Focus, true),
        "a lone modifier is not the key to eat"
    );
    let hit = BindingHit { handle: 7, sent_pressed: false };
    assert_eq!(
        choose_consumer(PressContext { binding: Some(hit), ensure_next_key_eaten: true, ..none }),
        (KeyConsumer::Binding(Some(7)), false)
    );
    assert_eq!(
        choose_consumer(PressContext { binding: Some(BindingHit { sent_pressed: true, ..hit }), ..none }),
        (KeyConsumer::Binding(None), false)
    );
    assert_eq!(
        choose_consumer(PressContext { keybind: Some(2), binding: Some(hit), ensure_next_key_eaten: true, ..none }),
        (KeyConsumer::CceBinding(2), true)
    );
    assert_eq!(
        choose_consumer(PressContext { builtin: true, keybind: Some(2), ..none }),
        (KeyConsumer::Builtin, false)
    );
}

#[test]
fn focus_forwarding_and_watched_modifiers() {
    assert!(forward_to_focus(false, false, false));
    assert!(!forward_to_focus(true, false, false));
    assert!(forward_to_focus(true, true, false));
    assert!(forward_to_focus(true, false, true));
    assert!(watched_mods_changed(0x40, 0x41, 0x01));
    assert!(!watched_mods_changed(0x40, 0x44, 0x01));
}

#[test]
fn key_events_reach_their_consumer() {
    assert_eq!(dispatch_key(KeyConsumer::Builtin, true, false, false), KeyDispatch::Nothing);
    assert_eq!(dispatch_key(KeyConsumer::CceBinding(3), true, false, false), KeyDispatch::RunKeybind(3));
    assert_eq!(dispatch_key(KeyConsumer::CceBinding(3), false, false, false), KeyDispatch::Nothing);
    assert_eq!(dispatch_key(KeyConsumer::Binding(Some(9)), true, true, false), KeyDispatch::BindingPressed(9));
    assert_eq!(dispatch_key(KeyConsumer::Binding(Some(9)), false, true, false), KeyDispatch::BindingReleased(9));
    assert_eq!(dispatch_key(KeyConsumer::Binding(None), true, false, false), KeyDispatch::Nothing);
    assert_eq!(dispatch_key(KeyConsumer::EnsureEaten, true, false, false), KeyDispatch::AteUnboundKey);
    assert_eq!(dispatch_key(KeyConsumer::EnsureEaten, false, false, false), KeyDispatch::Nothing);
    assert_eq!(dispatch_key(KeyConsumer::ImGrab, false, true, false), KeyDispatch::ToImGrab);
    assert_eq!(dispatch_key(KeyConsumer::Focus, true, false, false), KeyDispatch::ToFocus);
    assert_eq!(dispatch_key(KeyConsumer::Focus, true, true, false), KeyDispatch::Nothing, "a press on a world window in overview is eaten");
    assert_eq!(dispatch_key(KeyConsumer::Focus, true, true, true), KeyDispatch::ToFocus);
    assert_eq!(dispatch_key(KeyConsumer::Focus, false, true, false), KeyDispatch::ToFocus, "its release is not");
}
