use cce_fx::keyboard::Chord;
use cce_fx::shortcuts::{
    describe, finish_trigger, parse_trigger, split_trigger, ShortcutTable, Trigger, MOD_ALT, MOD_CTRL, MOD_LOGO,
    MOD_SHIFT,
};

fn args(words: &[&str]) -> Vec<String> {
    words.iter().map(|w| w.to_string()).collect()
}

fn trigger(mods: u32, keysym: u32, description: &str) -> Trigger {
    Trigger { mods, keysym, description: description.to_string() }
}

#[test]
fn triggers_split_into_modifiers_and_a_key() {
    assert_eq!(split_trigger("CTRL+SHIFT+space"), Ok((MOD_CTRL | MOD_SHIFT, "space".to_string())));
    assert_eq!(split_trigger("  shift+logo+q "), Ok((MOD_SHIFT | MOD_LOGO, "q".to_string())));
    assert_eq!(split_trigger("Control+Meta+Alt+x"), Ok((MOD_CTRL | MOD_LOGO | MOD_ALT, "x".to_string())));
    assert_eq!(split_trigger("CTRL++"), Ok((MOD_CTRL, "plus".to_string())));
    assert_eq!(split_trigger("F5"), Ok((0, "F5".to_string())));
}

#[test]
fn trigger_garbage_is_refused_with_its_reason() {
    assert_eq!(split_trigger(""), Err("empty trigger".to_string()));
    assert_eq!(split_trigger("   "), Err("empty trigger".to_string()));
    assert_eq!(split_trigger("HYPER+a"), Err("unknown modifier \"HYPER\"".to_string()));
    assert_eq!(split_trigger("CTRL++a"), Err("empty modifier in \"CTRL++a\"".to_string()));
}

#[test]
fn finishing_a_trigger_checks_the_keysym() {
    let t = finish_trigger(MOD_CTRL | MOD_SHIFT, "space", 0x20, "space").unwrap();
    assert_eq!((t.mods, t.keysym), (MOD_CTRL | MOD_SHIFT, 0x20));
    assert_eq!(t.description, "Ctrl+Shift+Space");
    assert_eq!(finish_trigger(MOD_CTRL, "plus", 0x2b, "plus").unwrap().description, "Ctrl+Plus");
    assert_eq!(finish_trigger(0, "F5", 0xffc2, "F5").unwrap().description, "F5");
    assert_eq!(
        finish_trigger(MOD_CTRL, "nosuchkey", 0, "").unwrap_err(),
        "unknown key \"nosuchkey\""
    );
    assert_eq!(
        finish_trigger(MOD_CTRL, "Shift_L", 0xffe1, "Shift_L").unwrap_err(),
        "\"Shift_L\" is a modifier, not a key"
    );
}

#[test]
fn descriptions_have_a_fixed_modifier_order() {
    assert_eq!(describe(MOD_LOGO | MOD_SHIFT, "q"), "Shift+Super+Q");
    assert_eq!(describe(MOD_ALT | MOD_CTRL, "Return"), "Ctrl+Alt+Return");
    assert_eq!(describe(0, ""), "");
}

#[test]
fn shortcut_table_binds_lists_and_unbinds() {
    let mut t = ShortcutTable::new(vec![Chord { mods: MOD_LOGO, keysym: 0x71 }]);
    assert_eq!(t.apply_command(&args(&[]), None), "error: usage: shortcut bind|unbind|clear|list\n");
    assert_eq!(
        t.apply_command(&args(&["bind", "s1", "a"]), None),
        "error: usage: shortcut bind <session> <id> <trigger>\n"
    );
    let r = t.apply_command(&args(&["bind", "s1", "a", "CTRL+space"]), Some(Ok(trigger(MOD_CTRL, 0x20, "Ctrl+Space"))));
    assert_eq!(r, "ok Ctrl+Space\n");
    let r = t.apply_command(&args(&["bind", "s2", "b", "CTRL+space"]), Some(Ok(trigger(MOD_CTRL, 0x20, "Ctrl+Space"))));
    assert_eq!(r, "error: Ctrl+Space is already bound by s1 a\n");
    let r = t.apply_command(&args(&["bind", "s2", "b", "SUPER+q"]), Some(Ok(trigger(MOD_LOGO, 0x71, "Super+Q"))));
    assert_eq!(r, "error: Super+Q is a compositor keybind\n");
    let r = t.apply_command(&args(&["bind", "s2", "b", "HYPER+q"]), Some(Err("unknown modifier \"HYPER\"".to_string())));
    assert_eq!(r, "error: unknown modifier \"HYPER\"\n");
    let r = t.apply_command(&args(&["bind", "s1", "a", "ALT+x"]), Some(Ok(trigger(MOD_ALT, 0x78, "Alt+X"))));
    assert_eq!(r, "ok Alt+X\n", "re-binding an id replaces its chord");
    let r = t.apply_command(&args(&["bind", "s2", "b", "CTRL+space"]), Some(Ok(trigger(MOD_CTRL, 0x20, "Ctrl+Space"))));
    assert_eq!(r, "ok Ctrl+Space\n", "the old chord is free again");
    assert_eq!(t.apply_command(&args(&["list"]), None), "s1 a Alt+X\ns2 b Ctrl+Space\n");
    assert_eq!(t.apply_command(&args(&["unbind", "s1"]), None), "ok\n");
    assert_eq!(t.apply_command(&args(&["list"]), None), "s2 b Ctrl+Space\n");
    assert_eq!(t.apply_command(&args(&["unbind", "s2", "c"]), None), "ok\n");
    assert_eq!(t.apply_command(&args(&["list"]), None), "s2 b Ctrl+Space\n");
    assert_eq!(
        t.apply_command(&args(&["unbind"]), None),
        "error: usage: shortcut unbind <session> [<id>]\n"
    );
    assert_eq!(t.apply_command(&args(&["clear"]), None), "ok\n");
    assert_eq!(t.apply_command(&args(&["list"]), None), "");
    assert_eq!(t.apply_command(&args(&["frob"]), None), "error: usage: shortcut bind|unbind|clear|list\n");
}


/// A few entries of the xkb keysym table, looked up ignoring case.
const KEYSYMS: &[(&str, u32)] = &[
    ("space", 0x20),
    ("plus", 0x2b),
    ("a", 0x61),
    ("q", 0x71),
    ("F5", 0xffc2),
    ("Shift_L", 0xffe1),
];

fn from_name(name: &str) -> u32 {
    KEYSYMS.iter().find(|(n, _)| n.eq_ignore_ascii_case(name)).map_or(0, |&(_, k)| k)
}

fn name_of(keysym: u32) -> String {
    KEYSYMS.iter().find(|&&(_, k)| k == keysym).map_or(String::new(), |(n, _)| n.to_string())
}

fn parse(s: &str) -> Result<Trigger, String> {
    parse_trigger(s, from_name, name_of)
}

#[test]
fn parses_spec_triggers() {
    let t = parse("CTRL+SHIFT+space").unwrap();
    assert_eq!(t.mods, MOD_CTRL | MOD_SHIFT);
    assert_eq!(t.keysym, 0x20);
    assert_eq!(t.description, "Ctrl+Shift+Space");
}

#[test]
fn modifier_spelling_is_lenient_and_order_fixed() {
    let a = parse("shift+logo+q").unwrap();
    let b = parse("SUPER+SHIFT+Q").unwrap();
    assert_eq!(a.mods, b.mods);
    assert_eq!(a.keysym, b.keysym, "keysym lookup is case-insensitive");
    assert_eq!(a.description, "Shift+Super+Q");
}

#[test]
fn plus_key_and_bare_key() {
    assert_eq!(parse("CTRL++").unwrap().description, "Ctrl+Plus");
    let f5 = parse("F5").unwrap();
    assert_eq!(f5.mods, 0);
    assert_eq!(f5.description, "F5");
}

#[test]
fn rejects_garbage() {
    assert!(parse("").is_err());
    assert!(parse("HYPER+a").is_err());
    assert!(parse("CTRL+nosuchkey").is_err());
    assert!(parse("CTRL+Shift_L").is_err(), "a lone modifier key is not a chord");
}

#[test]
fn parse_errors_name_their_cause() {
    assert_eq!(parse("CTRL+nosuchkey").unwrap_err(), "unknown key \"nosuchkey\"");
    assert_eq!(parse("CTRL+Shift_L").unwrap_err(), "\"Shift_L\" is a modifier, not a key");
    assert_eq!(parse(" ").unwrap_err(), "empty trigger");
}

#[test]
fn the_shortcut_command_parses_its_trigger() {
    let mut t = ShortcutTable::new(vec![Chord { mods: MOD_LOGO, keysym: 0x71 }]);
    assert_eq!(t.ipc(&args(&["bind", "s1", "a", "ctrl+space"]), from_name, name_of), "ok Ctrl+Space\n");
    assert_eq!(
        t.ipc(&args(&["bind", "s2", "b", "SUPER+q"]), from_name, name_of),
        "error: Super+Q is a compositor keybind\n"
    );
    assert_eq!(
        t.ipc(&args(&["bind", "s2", "b", "CTRL+nosuchkey"]), from_name, name_of),
        "error: unknown key \"nosuchkey\"\n"
    );
    assert_eq!(t.ipc(&args(&["list"]), from_name, name_of), "s1 a Ctrl+Space\n");
    assert_eq!(t.ipc(&args(&["clear"]), from_name, name_of), "ok\n");
    assert_eq!(t.ipc(&args(&["list"]), from_name, name_of), "");
}
