use vstd::prelude::*;

use crate::config::{
    bind_action_of, button_of, modifiers_of, on_app_exit_of, parse_action, parse_button,
    parse_modifiers, parse_on_app_exit, parse_tiling_mode, tiling_mode_of, BindAction,
    GestureBindConfig, KeybindConfig, ModeRule, ModeRuleConfig, OnAppExit, PointerBindConfig,
};
use crate::config::{hex_color_of, parse_hex_color};
use crate::config_file::{opt_texts, LayoutConfig, SurfaceConfig, WindowManagerConfig};
use crate::kdl_doc::{opt_text, texts};
use crate::text::{
    ascii_upper_seq, chars_of, chars_to_ascii_upper, lowercase, string_of, sub_vec, to_lowercase,
};

verus! {

// ---------------------------------------------------------------------------
// Bindings as the compositor holds them
// ---------------------------------------------------------------------------

/// A resolved pointer binding.
#[derive(Debug, Clone, Copy, PartialEq, Eq, Structural)]
pub struct PointerBind {
    pub mods: u32,
    pub button: u32,
    pub action: BindAction,
}

/// A resolved gesture binding.
pub struct GestureBind {
    pub mods: u32,
    pub gesture_type: String,
    pub fingers: u32,
    pub direction: String,
    pub action: BindAction,
    pub command: Option<String>,
}

/// Whether an action runs a command (and so keeps the one it was given).
pub open spec fn runs_command(a: BindAction) -> bool {
    a == BindAction::Spawn || a == BindAction::Toggle
}

/// A `pointer_bind` entry with its modifiers, button and action read.
pub fn resolve_pointer_bind(pb: &PointerBindConfig) -> (r: PointerBind)
    ensures
        r.mods == modifiers_of(pb.mods@),
        r.button == button_of(pb.button@),
        r.action == bind_action_of(pb.action@),
{
    PointerBind {
        mods: parse_modifiers(pb.mods.as_str()),
        button: parse_button(pb.button.as_str()),
        action: parse_action(pb.action.as_str()),
    }
}

/// A `gesture_bind` entry with its modifiers (none when unset) and action
/// read; the command stays only for an action that runs one.
pub fn resolve_gesture_bind(gb: &GestureBindConfig) -> (r: GestureBind)
    ensures
        r.mods == match gb.mods {
            Some(m) => modifiers_of(m@),
            None => 0,
        },
        r.gesture_type@ == gb.gesture_type@,
        r.fingers == gb.fingers,
        r.direction@ == gb.direction@,
        r.action == bind_action_of(gb.action@),
        opt_text(r.command) == if runs_command(r.action) {
            opt_text(gb.command)
        } else {
            None
        },
{
    let mods = match &gb.mods {
        Some(m) => parse_modifiers(m.as_str()),
        None => 0,
    };
    let action = parse_action(gb.action.as_str());
    let command = if action == BindAction::Spawn || action == BindAction::Toggle {
        match &gb.command {
            Some(c) => Some(c.clone()),
            None => None,
        }
    } else {
        None
    };
    GestureBind {
        mods,
        gesture_type: gb.gesture_type.clone(),
        fingers: gb.fingers,
        direction: gb.direction.clone(),
        action,
        command,
    }
}

/// A mode rule with its mode read; a rule that does not say so is not
/// single-instance, has no tag (-1) and is not circular.
pub fn resolve_mode_rule(rule: &ModeRuleConfig) -> (r: ModeRule)
    ensures
        r.mode == tiling_mode_of(rule.mode@),
        r.app_id_pattern@ == rule.app_id@,
        opt_text(r.title_pattern) == opt_text(rule.title),
        r.single_instance == match rule.single {
            Some(b) => b,
            None => false,
        },
        r.tag == match rule.tag {
            Some(t) => t as i32,
            None => -1i32,
        },
        r.circular == match rule.circular {
            Some(b) => b,
            None => false,
        },
        r.ssd == rule.ssd,
{
    ModeRule {
        mode: parse_tiling_mode(rule.mode.as_str()),
        app_id_pattern: rule.app_id.clone(),
        title_pattern: match &rule.title {
            Some(t) => Some(t.clone()),
            None => None,
        },
        single_instance: match rule.single {
            Some(b) => b,
            None => false,
        },
        tag: match rule.tag {
            Some(t) => t as i32,
            None => -1,
        },
        circular: match rule.circular {
            Some(b) => b,
            None => false,
        },
        ssd: rule.ssd,
    }
}

// ---------------------------------------------------------------------------
// Key bindings
// ---------------------------------------------------------------------------

/// The last index of `c` in `s`.
pub open spec fn last_of(s: Seq<char>, c: char) -> Option<int>
    decreases s.len(),
{
    if s.len() == 0 {
        None
    } else if s.last() == c {
        Some(s.len() - 1)
    } else {
        last_of(s.drop_last(), c)
    }
}

/// The modifiers and key of a binding: as written, or, when its `mods` is
/// empty, the key split at its last `+` (`"super+Return"`).
pub open spec fn chord_parts(mods: Seq<char>, key: Seq<char>) -> (Seq<char>, Seq<char>) {
    if mods.len() == 0 {
        match last_of(key, '+') {
            Some(i) => (key.subrange(0, i), key.subrange(i + 1, key.len() as int)),
            None => (Seq::empty(), key),
        }
    } else {
        (mods, key)
    }
}

pub proof fn lemma_last_of(s: Seq<char>, c: char)
    ensures
        last_of(s, c) matches Some(i) ==> 0 <= i < s.len() && s[i] == c,
    decreases s.len(),
{
    if s.len() > 0 && s.last() != c {
        lemma_last_of(s.drop_last(), c);
    }
}

fn find_last(v: &Vec<char>, c: char) -> (r: Option<usize>)
    ensures
        match r {
            Some(i) => last_of(v@, c) == Some(i as int) && i < v.len(),
            None => last_of(v@, c) is None,
        },
{
    let mut k = v.len();
    assert(v@.subrange(0, k as int) == v@);
    while k > 0
        invariant
            0 <= k <= v.len(),
            last_of(v@, c) == last_of(v@.subrange(0, k as int), c),
        decreases k,
    {
        assert(v@.subrange(0, k as int).drop_last() == v@.subrange(0, k as int - 1));
        if v[k - 1] == c {
            return Some(k - 1);
        }
        k = k - 1;
    }
    None
}

/// The modifiers and key of a binding (see `chord_parts`).
pub fn split_key_chord(mods: &str, key: &str) -> (r: (String, String))
    ensures
        (r.0@, r.1@) == chord_parts(mods@, key@),
{
    let m = chars_of(mods);
    if m.len() == 0 {
        let k = chars_of(key);
        match find_last(&k, '+') {
            Some(i) => {
                let front = sub_vec(&k, 0, i);
                let back = sub_vec(&k, i + 1, k.len());
                (string_of(&front), string_of(&back))
            },
            None => (string_of(&m), string_of(&k)),
        }
    } else {
        (string_of(&m), string_of(&chars_of(key)))
    }
}

/// A `key_bindings` entry ready for the keysym lookup: its modifier mask,
/// its key name, its action, and the command an action that runs one keeps.
pub struct KeyChord {
    pub mods: u32,
    pub key: String,
    pub action: BindAction,
    pub command: Option<String>,
}

/// A `key_bindings` entry read into a chord.
pub fn resolve_keybind(kb: &KeybindConfig) -> (r: KeyChord)
    ensures
        r.mods == modifiers_of(chord_parts(kb.mods@, kb.key@).0),
        r.key@ == chord_parts(kb.mods@, kb.key@).1,
        r.action == bind_action_of(kb.action@),
        opt_text(r.command) == if runs_command(r.action) {
            opt_text(kb.command)
        } else {
            None
        },
{
    let (mods_str, key_str) = split_key_chord(kb.mods.as_str(), kb.key.as_str());
    let action = parse_action(kb.action.as_str());
    let command = if action == BindAction::Spawn || action == BindAction::Toggle {
        match &kb.command {
            Some(c) => Some(c.clone()),
            None => None,
        }
    } else {
        None
    };
    KeyChord { mods: parse_modifiers(mods_str.as_str()), key: key_str, action, command }
}

// ---------------------------------------------------------------------------
// The window-manager block's `toggle_overview` gesture
// ---------------------------------------------------------------------------

/// `s` with every `-` written as `_`.
pub open spec fn dashes_to_underscores(s: Seq<char>) -> Seq<char> {
    s.map_values(|c: char| if c == '-' { '_' } else { c })
}

/// `s` with `p` removed from its front as many times as it repeats there
/// (`str::trim_start_matches` with a non-empty pattern).
pub open spec fn trim_start_rep(s: Seq<char>, p: Seq<char>) -> Seq<char>
    decreases s.len(),
{
    if p.len() > 0 && p.len() <= s.len() && s.subrange(0, p.len() as int) == p {
        trim_start_rep(s.subrange(p.len() as int, s.len() as int), p)
    } else {
        s
    }
}

/// The gesture kind and direction that a `toggle_overview` value names:
/// lower-cased with `-` read as `_`, a `swipe…` or `pinch…` value gives that
/// kind and the rest, with leading `_` removed, as direction.
pub open spec fn overview_gesture_of(v: Seq<char>) -> Option<(Seq<char>, Seq<char>)> {
    let n = dashes_to_underscores(lowercase(v));
    if n.len() >= 5 && n.subrange(0, 5) == "swipe"@ {
        Some(("swipe"@, trim_start_rep(trim_start_rep(n, "swipe"@), "_"@)))
    } else if n.len() >= 5 && n.subrange(0, 5) == "pinch"@ {
        Some(("pinch"@, trim_start_rep(trim_start_rep(n, "pinch"@), "_"@)))
    } else {
        None
    }
}

fn underscores(v: &Vec<char>) -> (r: Vec<char>)
    ensures
        r@ == dashes_to_underscores(v@),
{
    let mut r: Vec<char> = Vec::new();
    let mut i: usize = 0;
    while i < v.len()
        invariant
            0 <= i <= v.len(),
            r@ == dashes_to_underscores(v@.subrange(0, i as int)),
        decreases v.len() - i,
    {
        let c = if v[i] == '-' {
            '_'
        } else {
            v[i]
        };
        r.push(c);
        assert(dashes_to_underscores(v@.subrange(0, i as int + 1)) == dashes_to_underscores(
            v@.subrange(0, i as int),
        ).push(c));
        i = i + 1;
    }
    assert(v@.subrange(0, v.len() as int) == v@);
    r
}

fn has_prefix_at(v: &Vec<char>, at: usize, p: &Vec<char>) -> (r: bool)
    requires
        at <= v.len(),
    ensures
        r == (p.len() <= v.len() - at && v@.subrange(at as int, at + p.len()) == p@),
{
    if p.len() > v.len() - at {
        return false;
    }
    let mut k: usize = 0;
    while k < p.len()
        invariant
            0 <= k <= p.len(),
            p.len() <= v.len() - at,
            forall|j: int| 0 <= j < k ==> v@[at + j] == p@[j],
        decreases p.len() - k,
    {
        if v[at + k] != p[k] {
            assert(v@.subrange(at as int, at + p.len())[k as int] != p@[k as int]);
            return false;
        }
        k = k + 1;
    }
    assert(v@.subrange(at as int, at + p.len()) =~= p@);
    true
}

fn trim_start_repeated(v: &Vec<char>, p: &Vec<char>) -> (r: Vec<char>)
    ensures
        r@ == trim_start_rep(v@, p@),
{
    if p.len() == 0 {
        return sub_vec(v, 0, v.len());
    }
    let mut at: usize = 0;
    assert(v@.subrange(0, v.len() as int) == v@);
    while has_prefix_at(v, at, p)
        invariant
            0 <= at <= v.len(),
            p.len() > 0,
            trim_start_rep(v@, p@) == trim_start_rep(v@.subrange(at as int, v.len() as int), p@),
        decreases v.len() - at,
    {
        let ghost rest = v@.subrange(at as int, v.len() as int);
        assert(rest.subrange(0, p.len() as int) == v@.subrange(at as int, at + p.len()));
        assert(rest.subrange(p.len() as int, rest.len() as int) == v@.subrange(
            at + p.len(),
            v.len() as int,
        ));
        at = at + p.len();
    }
    let ghost rest = v@.subrange(at as int, v.len() as int);
    assert(!(p.len() <= rest.len() && rest.subrange(0, p.len() as int) == p@)) by {
        if p.len() <= rest.len() {
            assert(rest.subrange(0, p.len() as int) == v@.subrange(at as int, at + p.len()));
        }
    }
    sub_vec(v, at, v.len())
}

/// An overview gesture: a kind, a finger count and a direction.
pub struct OverviewGesture {
    pub gesture_type: String,
    pub fingers: u32,
    pub direction: String,
}

/// The overview gestures that a `toggle_overview` value binds: the named
/// gesture with three fingers and with four, or none when it names no
/// swipe or pinch.
pub fn overview_gestures(toggle_overview: &str) -> (r: Vec<OverviewGesture>)
    ensures
        match overview_gesture_of(toggle_overview@) {
            Some((kind, dir)) => r@.len() == 2 && r@[0].fingers == 3 && r@[1].fingers == 4
                && r@[0].gesture_type@ == kind && r@[1].gesture_type@ == kind && r@[0].direction@
                == dir && r@[1].direction@ == dir,
            None => r@.len() == 0,
        },
{
    let lower = to_lowercase(toggle_overview);
    let n = underscores(&chars_of(lower.as_str()));
    let swipe = chars_of("swipe");
    let pinch = chars_of("pinch");
    proof {
        reveal_strlit("swipe");
        reveal_strlit("pinch");
    }
    let kind = if has_prefix_at(&n, 0, &swipe) {
        Some(swipe)
    } else if has_prefix_at(&n, 0, &pinch) {
        Some(pinch)
    } else {
        None
    };
    let mut out: Vec<OverviewGesture> = Vec::new();
    match kind {
        Some(k) => {
            let under = chars_of("_");
            let dir = trim_start_repeated(&trim_start_repeated(&n, &k), &under);
            out.push(
                OverviewGesture {
                    gesture_type: string_of(&k),
                    fingers: 3,
                    direction: string_of(&dir),
                },
            );
            out.push(
                OverviewGesture {
                    gesture_type: string_of(&k),
                    fingers: 4,
                    direction: string_of(&dir),
                },
            );
        },
        None => {},
    }
    out
}


// ---------------------------------------------------------------------------
// The window-manager block's settings, defaults applied
// ---------------------------------------------------------------------------

/// The window-manager settings the compositor runs with.
pub struct WmSettings {
    pub xwayland_hidpi: bool,
    pub xwayland_hidpi_except: Vec<String>,
    pub touchpad_view_apps: Vec<String>,
    pub touchpad_view_swipe_tumble: bool,
    pub touchpad_view_invert: bool,
    pub touchpad_hscroll_shift_apps: Vec<String>,
    pub on_app_exit: OnAppExit,
    pub center_on_spawn: bool,
    pub rounded_apps: Vec<String>,
    pub bevel_apps: Vec<String>,
}

/// An optional list of strings, or the empty list.
pub open spec fn texts_or_empty(o: Option<Seq<Seq<char>>>) -> Seq<Seq<char>> {
    match o {
        Some(v) => v,
        None => Seq::empty(),
    }
}

/// Whether two strings match with ASCII letters compared case-insensitively.
pub open spec fn ascii_eq_ignore_case(a: Seq<char>, b: Seq<char>) -> bool {
    ascii_upper_seq(a) == ascii_upper_seq(b)
}

/// What the compositor runs with for a window-manager block `wm` (or none):
/// Xwayland at physical pixels, centring on spawn, pan on swipe (tumble only
/// for `touchpad_view_swipe "tumble"`), no inversion, pan to the previous
/// window when one goes away, and the rounded apps' list for the bevel apps,
/// wherever the block leaves a setting out.
pub open spec fn wm_settings_of(r: WmSettings, wm: Option<WindowManagerConfig>) -> bool {
    let rounded = texts_or_empty(
        match wm {
            Some(w) => opt_texts(w.rounded_apps),
            None => None,
        },
    );
    &&& r.xwayland_hidpi == match wm {
        Some(w) => match w.xwayland_hidpi {
            Some(b) => b,
            None => true,
        },
        None => true,
    }
    &&& texts(r.xwayland_hidpi_except@) == texts_or_empty(
        match wm {
            Some(w) => opt_texts(w.xwayland_hidpi_except),
            None => None,
        },
    )
    &&& texts(r.touchpad_view_apps@) == texts_or_empty(
        match wm {
            Some(w) => opt_texts(w.touchpad_view_apps),
            None => None,
        },
    )
    &&& r.touchpad_view_swipe_tumble == match wm {
        Some(w) => match w.touchpad_view_swipe {
            Some(s) => ascii_eq_ignore_case(s@, "tumble"@),
            None => false,
        },
        None => false,
    }
    &&& r.touchpad_view_invert == match wm {
        Some(w) => match w.touchpad_view_invert {
            Some(b) => b,
            None => false,
        },
        None => false,
    }
    &&& texts(r.touchpad_hscroll_shift_apps@) == texts_or_empty(
        match wm {
            Some(w) => opt_texts(w.touchpad_hscroll_shift_apps),
            None => None,
        },
    )
    &&& r.on_app_exit == match wm {
        Some(w) => match w.on_app_exit {
            Some(s) => on_app_exit_of(s@),
            None => OnAppExit::FocusPrevious,
        },
        None => OnAppExit::FocusPrevious,
    }
    &&& r.center_on_spawn == match wm {
        Some(w) => match w.center_on_spawn {
            Some(b) => b,
            None => true,
        },
        None => true,
    }
    &&& texts(r.rounded_apps@) == rounded
    &&& texts(r.bevel_apps@) == match wm {
        Some(w) => match opt_texts(w.bevel_apps) {
            Some(v) => v,
            None => rounded,
        },
        None => rounded,
    }
}

fn copy_texts(v: &Vec<String>) -> (r: Vec<String>)
    ensures
        texts(r@) == texts(v@),
{
    let mut r: Vec<String> = Vec::new();
    let mut i: usize = 0;
    while i < v.len()
        invariant
            0 <= i <= v.len(),
            texts(r@) == texts(v@.subrange(0, i as int)),
        decreases v.len() - i,
    {
        let ghost before = r@;
        r.push(v[i].clone());
        assert(texts(r@) == texts(before).push(v@[i as int]@));
        assert(texts(v@.subrange(0, i as int + 1)) == texts(v@.subrange(0, i as int)).push(
            v@[i as int]@,
        ));
        i = i + 1;
    }
    assert(v@.subrange(0, v.len() as int) == v@);
    r
}

fn texts_or_new(o: &Option<Vec<String>>) -> (r: Vec<String>)
    ensures
        texts(r@) == texts_or_empty(opt_texts(*o)),
{
    match o {
        Some(v) => copy_texts(v),
        None => {
            let r: Vec<String> = Vec::new();
            assert(texts(r@) == Seq::<Seq<char>>::empty());
            r
        },
    }
}

fn is_tumble(s: &String) -> (r: bool)
    ensures
        r == ascii_eq_ignore_case(s@, "tumble"@),
{
    let a = chars_to_ascii_upper(&chars_of(s.as_str()));
    let b = chars_to_ascii_upper(&chars_of("tumble"));
    crate::text::chars_eq(&a, &b)
}

/// The window-manager settings for the block `wm` (see `wm_settings_of`).
pub fn resolve_window_manager(wm: &Option<WindowManagerConfig>) -> (r: WmSettings)
    ensures
        wm_settings_of(r, *wm),
{
    match wm {
        Some(w) => {
            let rounded_apps = texts_or_new(&w.rounded_apps);
            let bevel_apps = match &w.bevel_apps {
                Some(v) => copy_texts(v),
                None => copy_texts(&rounded_apps),
            };
            WmSettings {
                xwayland_hidpi: match w.xwayland_hidpi {
                    Some(b) => b,
                    None => true,
                },
                xwayland_hidpi_except: texts_or_new(&w.xwayland_hidpi_except),
                touchpad_view_apps: texts_or_new(&w.touchpad_view_apps),
                touchpad_view_swipe_tumble: match &w.touchpad_view_swipe {
                    Some(s) => is_tumble(s),
                    None => false,
                },
                touchpad_view_invert: match w.touchpad_view_invert {
                    Some(b) => b,
                    None => false,
                },
                touchpad_hscroll_shift_apps: texts_or_new(&w.touchpad_hscroll_shift_apps),
                on_app_exit: match &w.on_app_exit {
                    Some(s) => parse_on_app_exit(s.as_str()),
                    None => OnAppExit::FocusPrevious,
                },
                center_on_spawn: match w.center_on_spawn {
                    Some(b) => b,
                    None => true,
                },
                rounded_apps,
                bevel_apps,
            }
        },
        None => {
            let e: Vec<String> = Vec::new();
            assert(texts(e@) == Seq::<Seq<char>>::empty());
            WmSettings {
                xwayland_hidpi: true,
                xwayland_hidpi_except: Vec::new(),
                touchpad_view_apps: Vec::new(),
                touchpad_view_swipe_tumble: false,
                touchpad_view_invert: false,
                touchpad_hscroll_shift_apps: Vec::new(),
                on_app_exit: OnAppExit::FocusPrevious,
                center_on_spawn: true,
                rounded_apps: Vec::new(),
                bevel_apps: e,
            }
        },
    }
}

// ---------------------------------------------------------------------------
// Numbers the renderer takes
// ---------------------------------------------------------------------------

/// One 8-bit channel of an `0xRRGGBB` color, replicated into all four bytes
/// of a 32-bit value.
pub open spec fn replicated_channel(color: u32, shift: u32) -> u32 {
    (((color >> shift) & 0xff) * 0x01010101) as u32
}

/// The desktop background's red, green, blue and alpha for an `0xRRGGBB`
/// gap color, each channel replicated into 32 bits (alpha opaque).
pub fn background_channels(color: u32) -> (r: (u32, u32, u32, u32))
    ensures
        r.0 == replicated_channel(color, 16),
        r.1 == replicated_channel(color, 8),
        r.2 == replicated_channel(color, 0),
        r.3 == 0xffff_ffffu32,
{
    let red = (color >> 16u32) & 0xffu32;
    let green = (color >> 8u32) & 0xffu32;
    let blue = color & 0xffu32;
    assert(red <= 0xff) by (bit_vector)
        requires
            red == (color >> 16u32) & 0xffu32,
    ;
    assert(green <= 0xff) by (bit_vector)
        requires
            green == (color >> 8u32) & 0xffu32,
    ;
    assert(blue <= 0xff) by (bit_vector)
        requires
            blue == color & 0xffu32,
    ;
    assert(color >> 0u32 == color) by (bit_vector);
    (red * 0x01010101u32, green * 0x01010101u32, blue * 0x01010101u32, 0xffff_ffffu32)
}

/// A fade duration in milliseconds, held to 0..=2000 so that a closing
/// client never waits more than two seconds on it.
pub fn fade_ms(configured: i64) -> (r: u32)
    ensures
        r == if configured < 0 {
            0
        } else if configured > 2000 {
            2000
        } else {
            configured
        },
{
    if configured < 0 {
        0
    } else if configured > 2000 {
        2000
    } else {
        configured as u32
    }
}

// ---------------------------------------------------------------------------
// The integer layout the window manager runs with
// ---------------------------------------------------------------------------

/// The integer-valued layout the window manager takes from a configuration:
/// sizes narrowed to `i32`, the border segment gap and corner length at
/// least 0, the fades capped (`fade_ms`), the background channels of the
/// desktop gap color, the grid cell size (the grid scale where no cell size
/// is set), the desktop snap and edge-pan figures kept in range, and the
/// line relief (`None` when negative).
#[derive(Debug, Clone, Copy, PartialEq, Eq, Structural)]
pub struct WmLayout {
    pub gap: i32,
    pub gap_top: i32,
    pub gap_left: i32,
    pub gap_right: i32,
    pub gap_bottom: i32,
    pub cascade_offset: i32,
    pub bar_height: i32,
    pub transition_duration: i32,
    pub grid_gap: i32,
    pub overlay_width: i32,
    pub overlay_border_gap: i32,
    pub border_width: i32,
    pub border_corner_radius: i32,
    pub border_segment_gap: i32,
    pub border_corner_length: i32,
    pub fade_in_ms: u32,
    pub fade_out_ms: u32,
    pub background_r: u32,
    pub background_g: u32,
    pub background_b: u32,
    pub background_a: u32,
    pub desktop_cell_width: i64,
    pub desktop_cell_height: i64,
    pub desktop_overview_ms: i64,
    pub desktop_snap_threshold: i64,
    pub desktop_edge_pan_band: i64,
    pub desktop_edge_pan_speed: i64,
    pub desktop_gap_width: i32,
    pub desktop_line_relief: Option<i64>,
    pub root_plate_corner_radius: i32,
    pub shadow_offset_x: i32,
    pub shadow_offset_y: i32,
}

pub open spec fn at_least(v: i64, lo: i64) -> i64 {
    if v < lo {
        lo
    } else {
        v
    }
}

pub open spec fn fade_of(configured: i64) -> u32 {
    if configured < 0 {
        0
    } else if configured > 2000 {
        2000
    } else {
        configured as u32
    }
}

/// The window manager's integer layout from the configuration's `layout`
/// and `surface` settings; `line_relief` is the desktop line relief width
/// the surface settings resolve to (negative for none).
pub open spec fn wm_layout_of(l: LayoutConfig, s: SurfaceConfig, line_relief: i64) -> WmLayout {
    let color = hex_color_of(s.desktop_gap_color@);
    WmLayout {
        gap: l.gap as i32,
        gap_top: l.gap_top as i32,
        gap_left: l.gap_left as i32,
        gap_right: l.gap_right as i32,
        gap_bottom: l.gap_bottom as i32,
        cascade_offset: l.cascade_offset as i32,
        bar_height: l.bar_height as i32,
        transition_duration: l.transition_duration as i32,
        grid_gap: l.grid_gap as i32,
        overlay_width: l.overlay_width as i32,
        overlay_border_gap: l.overlay_border_gap as i32,
        border_width: s.border_width as i32,
        border_corner_radius: s.border_corner_radius as i32,
        border_segment_gap: at_least(s.border_segment_gap, 0) as i32,
        border_corner_length: at_least(s.border_corner_length, 0) as i32,
        fade_in_ms: fade_of(s.fade_in_ms),
        fade_out_ms: fade_of(s.fade_out_ms),
        background_r: replicated_channel(color, 16),
        background_g: replicated_channel(color, 8),
        background_b: replicated_channel(color, 0),
        background_a: 0xffff_ffffu32,
        desktop_cell_width: match s.grid_cell_width {
            Some(w) => w,
            None => s.desktop_grid_scale,
        },
        desktop_cell_height: match s.grid_cell_height {
            Some(h) => h,
            None => s.desktop_grid_scale,
        },
        desktop_overview_ms: at_least(s.desktop_overview_ms, 16),
        desktop_snap_threshold: at_least(s.desktop_snap_threshold, 0),
        desktop_edge_pan_band: at_least(s.desktop_edge_pan_band, 1),
        desktop_edge_pan_speed: at_least(s.desktop_edge_pan_speed, 0),
        desktop_gap_width: s.desktop_gap_width as i32,
        desktop_line_relief: if line_relief < 0 {
            None
        } else {
            Some(line_relief)
        },
        root_plate_corner_radius: s.root_plate_corner_radius as i32,
        shadow_offset_x: s.shadow_offset_x as i32,
        shadow_offset_y: s.shadow_offset_y as i32,
    }
}

fn at_least_exec(v: i64, lo: i64) -> (r: i64)
    ensures
        r == at_least(v, lo),
{
    if v < lo {
        lo
    } else {
        v
    }
}

pub fn wm_layout(l: &LayoutConfig, s: &SurfaceConfig, line_relief: i64) -> (r: WmLayout)
    ensures
        r == wm_layout_of(*l, *s, line_relief),
{
    let color = parse_hex_color(s.desktop_gap_color.as_str());
    let (background_r, background_g, background_b, background_a) = background_channels(color);
    WmLayout {
        gap: l.gap as i32,
        gap_top: l.gap_top as i32,
        gap_left: l.gap_left as i32,
        gap_right: l.gap_right as i32,
        gap_bottom: l.gap_bottom as i32,
        cascade_offset: l.cascade_offset as i32,
        bar_height: l.bar_height as i32,
        transition_duration: l.transition_duration as i32,
        grid_gap: l.grid_gap as i32,
        overlay_width: l.overlay_width as i32,
        overlay_border_gap: l.overlay_border_gap as i32,
        border_width: s.border_width as i32,
        border_corner_radius: s.border_corner_radius as i32,
        border_segment_gap: at_least_exec(s.border_segment_gap, 0) as i32,
        border_corner_length: at_least_exec(s.border_corner_length, 0) as i32,
        fade_in_ms: fade_ms(s.fade_in_ms),
        fade_out_ms: fade_ms(s.fade_out_ms),
        background_r,
        background_g,
        background_b,
        background_a,
        desktop_cell_width: match s.grid_cell_width {
            Some(w) => w,
            None => s.desktop_grid_scale,
        },
        desktop_cell_height: match s.grid_cell_height {
            Some(h) => h,
            None => s.desktop_grid_scale,
        },
        desktop_overview_ms: at_least_exec(s.desktop_overview_ms, 16),
        desktop_snap_threshold: at_least_exec(s.desktop_snap_threshold, 0),
        desktop_edge_pan_band: at_least_exec(s.desktop_edge_pan_band, 1),
        desktop_edge_pan_speed: at_least_exec(s.desktop_edge_pan_speed, 0),
        desktop_gap_width: s.desktop_gap_width as i32,
        desktop_line_relief: if line_relief < 0 {
            None
        } else {
            Some(line_relief)
        },
        root_plate_corner_radius: s.root_plate_corner_radius as i32,
        shadow_offset_x: s.shadow_offset_x as i32,
        shadow_offset_y: s.shadow_offset_y as i32,
    }
}

} // verus!
