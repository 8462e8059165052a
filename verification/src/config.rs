use vstd::prelude::*;

use crate::text::{
    chars_eq_str, chars_of, contains_seq, contains_str, lowercase, parse_u32_chars,
    parse_u32_radix, starts_with, starts_with_str, strip_both, strip_front, to_lowercase, trim,
    trim_str,
};

verus! {

// ---------------------------------------------------------------------------
// Configuration records
// ---------------------------------------------------------------------------

/// How a window is laid out.
#[derive(Debug, Clone, Copy, PartialEq, Eq, Structural)]
pub enum TilingMode {
    Floating,
    Cascade,
    Tiled,
    Fullscreen,
    Popup,
    Overlay,
    Status,
    Utility,
}

/// A resolved window mode rule.
#[derive(Debug, Clone)]
pub struct ModeRule {
    pub mode: TilingMode,
    pub app_id_pattern: String,
    pub title_pattern: Option<String>,
    pub single_instance: bool,
    pub tag: i32,
    pub circular: bool,
    pub ssd: Option<bool>,
}

/// A `key_bindings` entry as written in the config.
#[derive(Debug, Clone)]
pub struct KeybindConfig {
    pub mods: String,
    pub key: String,
    pub action: String,
    pub command: Option<String>,
}

/// A `pointer_bind` entry as written in the config.
#[derive(Debug, Clone)]
pub struct PointerBindConfig {
    pub mods: String,
    pub button: String,
    pub action: String,
}

/// A `gesture_bind` entry as written in the config.
#[derive(Debug, Clone)]
pub struct GestureBindConfig {
    pub mods: Option<String>,
    pub gesture_type: String,
    pub fingers: u32,
    pub direction: String,
    pub action: String,
    pub command: Option<String>,
}

/// A `startup` entry.
#[derive(Debug, Clone)]
pub struct StartupConfig {
    pub command: String,
    pub once: bool,
    pub restart: bool,
}

/// The `output { }` block.
#[derive(Debug, Clone)]
pub struct OutputConfig {
    pub scenefx_optimized_blur: bool,
}

/// Which touchpad gestures are enabled.
#[derive(Debug, Clone, Copy, PartialEq, Eq, Structural)]
pub struct GesturesConfig {
    pub swipe: Option<bool>,
    pub pinch: Option<bool>,
}

/// A `mode_rule` entry as written in the config.
#[derive(Debug, Clone)]
pub struct ModeRuleConfig {
    pub mode: String,
    pub app_id: String,
    pub title: Option<String>,
    pub single: Option<bool>,
    pub tag: Option<i64>,
    pub circular: Option<bool>,
    pub ssd: Option<bool>,
}

/// A `tag_layout` entry as written in the config.
#[derive(Debug, Clone)]
pub struct TagLayoutConfig {
    pub tag: i64,
    pub mode: String,
}

/// Camera reaction when the focused window goes away.
#[derive(Debug, Clone, Copy, PartialEq, Eq, Structural)]
pub enum OnAppExit {
    /// Pan to the fallback-focused window.
    FocusPrevious,
    /// Enter overview.
    Overview,
    /// The camera stays where it is.
    Nothing,
}

/// The kind of action a binding string names.
#[derive(Debug, Clone, Copy, PartialEq, Eq, Structural)]
pub enum BindAction {
    Spawn,
    Toggle,
    Move,
    Resize,
    /// Enter overview (what the window-manager block's `toggle_overview`
    /// gesture binds; no binding string names it).
    Overview,
    NoAction,
}

// ---------------------------------------------------------------------------
// Value parsers
// ---------------------------------------------------------------------------

pub open spec fn on_app_exit_of(s: Seq<char>) -> OnAppExit {
    let l = lowercase(s);
    if l == "focus_previous"@ {
        OnAppExit::FocusPrevious
    } else if l == "overview"@ {
        OnAppExit::Overview
    } else {
        OnAppExit::Nothing
    }
}

/// `on_app_exit`: "focus_previous" or "overview" (any case); anything else
/// leaves the camera alone.
pub fn parse_on_app_exit(s: &str) -> (r: OnAppExit)
    ensures
        r == on_app_exit_of(s@),
{
    let l = to_lowercase(s);
    let v = chars_of(l.as_str());
    if chars_eq_str(&v, "focus_previous") {
        OnAppExit::FocusPrevious
    } else if chars_eq_str(&v, "overview") {
        OnAppExit::Overview
    } else {
        OnAppExit::Nothing
    }
}

pub open spec fn tiling_mode_of(s: Seq<char>) -> TilingMode {
    let l = lowercase(s);
    if l == "fullscreen"@ {
        TilingMode::Fullscreen
    } else if l == "popup"@ {
        TilingMode::Popup
    } else if l == "sidepanel"@ || l == "side_panel"@ || l == "side-panel"@ || l == "pinned"@ || l
        == "overlay"@ {
        TilingMode::Overlay
    } else if l == "status"@ {
        TilingMode::Status
    } else if l == "utility"@ {
        TilingMode::Utility
    } else if l == "tiled"@ || l == "maximized"@ {
        TilingMode::Tiled
    } else {
        TilingMode::Floating
    }
}

/// Each documented mode name, in whatever case it is written, gives its
/// own mode: `tiled` and its retired name `maximized` give Tiled,
/// `fullscreen` Fullscreen, `popup` Popup, `sidepanel` (also `side_panel`,
/// `side-panel`), `pinned` and `overlay` give Overlay, `status` Status and
/// `utility` Utility; Floating comes only from a name that is none of
/// these.
pub proof fn lemma_tiling_mode_names(s: Seq<char>)
    ensures
        lowercase(s) == "tiled"@ ==> tiling_mode_of(s) == TilingMode::Tiled,
        lowercase(s) == "maximized"@ ==> tiling_mode_of(s) == TilingMode::Tiled,
        lowercase(s) == "fullscreen"@ ==> tiling_mode_of(s) == TilingMode::Fullscreen,
        lowercase(s) == "popup"@ ==> tiling_mode_of(s) == TilingMode::Popup,
        lowercase(s) == "sidepanel"@ ==> tiling_mode_of(s) == TilingMode::Overlay,
        lowercase(s) == "side_panel"@ ==> tiling_mode_of(s) == TilingMode::Overlay,
        lowercase(s) == "side-panel"@ ==> tiling_mode_of(s) == TilingMode::Overlay,
        lowercase(s) == "pinned"@ ==> tiling_mode_of(s) == TilingMode::Overlay,
        lowercase(s) == "overlay"@ ==> tiling_mode_of(s) == TilingMode::Overlay,
        lowercase(s) == "status"@ ==> tiling_mode_of(s) == TilingMode::Status,
        lowercase(s) == "utility"@ ==> tiling_mode_of(s) == TilingMode::Utility,
        tiling_mode_of(s) == TilingMode::Floating ==> !(lowercase(s) == "tiled"@ || lowercase(s)
            == "maximized"@ || lowercase(s) == "fullscreen"@ || lowercase(s) == "popup"@
            || lowercase(s) == "sidepanel"@ || lowercase(s) == "side_panel"@ || lowercase(s)
            == "side-panel"@ || lowercase(s) == "pinned"@ || lowercase(s) == "overlay"@
            || lowercase(s) == "status"@ || lowercase(s) == "utility"@),
{
    reveal_strlit("tiled");
    reveal_strlit("maximized");
    reveal_strlit("fullscreen");
    reveal_strlit("popup");
    reveal_strlit("sidepanel");
    reveal_strlit("side_panel");
    reveal_strlit("side-panel");
    reveal_strlit("pinned");
    reveal_strlit("overlay");
    reveal_strlit("status");
    reveal_strlit("utility");
    let l = lowercase(s);
    if l == "tiled"@ {
        assert(l[0] == 't');
    }
    if l == "popup"@ {
        assert(l[0] == 'p' && l[1] == 'o');
    }
    if l == "pinned"@ {
        assert(l[0] == 'p' && l[1] == 'i');
    }
    if l == "status"@ {
        assert(l[1] == 't');
    }
    if l == "sidepanel"@ {
        assert(l[4] == 'p');
    }
    if l == "side_panel"@ {
        assert(l[4] == '_');
    }
    if l == "side-panel"@ {
        assert(l[4] == '-');
    }
    if l == "utility"@ {
        assert(l[0] == 'u');
    }
    if l == "overlay"@ {
        assert(l[0] == 'o');
    }
    if l == "maximized"@ {
        assert(l[0] == 'm');
    }
}

/// A mode name (any case). "maximized" is the retired name of "tiled";
/// every unknown name, the retired "cascade" and "grid" among them, is
/// Floating.
pub fn parse_tiling_mode(s: &str) -> (r: TilingMode)
    ensures
        r == tiling_mode_of(s@),
{
    let l = to_lowercase(s);
    let v = chars_of(l.as_str());
    if chars_eq_str(&v, "fullscreen") {
        TilingMode::Fullscreen
    } else if chars_eq_str(&v, "popup") {
        TilingMode::Popup
    } else if chars_eq_str(&v, "sidepanel") || chars_eq_str(&v, "side_panel") || chars_eq_str(
        &v,
        "side-panel",
    ) || chars_eq_str(&v, "pinned") || chars_eq_str(&v, "overlay") {
        TilingMode::Overlay
    } else if chars_eq_str(&v, "status") {
        TilingMode::Status
    } else if chars_eq_str(&v, "utility") {
        TilingMode::Utility
    } else if chars_eq_str(&v, "tiled") || chars_eq_str(&v, "maximized") {
        TilingMode::Tiled
    } else {
        TilingMode::Floating
    }
}

/// The characters `parse_hex_color` strips from both ends.
pub open spec fn quote_or_space() -> spec_fn(char) -> bool {
    |c: char| c == '"' || c == '\'' || c == ' '
}

pub open spec fn is_hash() -> spec_fn(char) -> bool {
    |c: char| c == '#'
}

/// The hex digits of a color string: quotes and spaces stripped from both
/// ends, then every leading `#`.
pub open spec fn hex_body(s: Seq<char>) -> Seq<char> {
    strip_front(strip_both(s, quote_or_space()), is_hash())
}

/// White, the fallback color.
pub const WHITE: u32 = 0xFFFF_FFFF;

pub open spec fn hex_color_of(s: Seq<char>) -> u32 {
    let h = hex_body(s);
    if h.len() != 6 {
        WHITE
    } else {
        match parse_u32_radix(h, 16) {
            Some(v) => v,
            None => WHITE,
        }
    }
}

fn strippable(c: char, hash_only: bool) -> (r: bool)
    ensures
        r == (if hash_only {
            is_hash()
        } else {
            quote_or_space()
        })(c),
{
    if hash_only {
        c == '#'
    } else {
        c == '"' || c == '\'' || c == ' '
    }
}

/// Strips the characters that satisfy `quote_or_space` (or `is_hash`, when
/// `hash_only`) from the front of `v[lo..hi]`; returns the new `lo`.
fn skip_front(v: &Vec<char>, lo: usize, hi: usize, hash_only: bool) -> (r: usize)
    requires
        lo <= hi <= v.len(),
    ensures
        lo <= r <= hi,
        strip_front(
            v@.subrange(lo as int, hi as int),
            if hash_only {
                is_hash()
            } else {
                quote_or_space()
            },
        ) == v@.subrange(r as int, hi as int),
{
    let ghost p = if hash_only {
        is_hash()
    } else {
        quote_or_space()
    };
    let mut i = lo;
    while i < hi && strippable(v[i], hash_only)
        invariant
            lo <= i <= hi <= v.len(),
            p == (if hash_only {
                is_hash()
            } else {
                quote_or_space()
            }),
            strip_front(v@.subrange(lo as int, hi as int), p) == strip_front(
                v@.subrange(i as int, hi as int),
                p,
            ),
        decreases hi - i,
    {
        assert(v@.subrange(i as int, hi as int).drop_first() == v@.subrange(i + 1, hi as int));
        i = i + 1;
    }
    proof {
        r_eq(v, i, hi, p);
    }
    i
}

proof fn r_eq(v: &Vec<char>, i: usize, hi: usize, p: spec_fn(char) -> bool)
    requires
        i <= hi <= v.len(),
        i < hi ==> !p(v@[i as int]),
    ensures
        strip_front(v@.subrange(i as int, hi as int), p) == v@.subrange(i as int, hi as int),
{
}

/// Strips the characters that satisfy `quote_or_space` from the back of
/// `v[lo..hi]`; returns the new `hi`.
fn skip_back(v: &Vec<char>, lo: usize, hi: usize) -> (r: usize)
    requires
        lo <= hi <= v.len(),
    ensures
        lo <= r <= hi,
        crate::text::strip_back(v@.subrange(lo as int, hi as int), quote_or_space())
            == v@.subrange(lo as int, r as int),
{
    let ghost p = quote_or_space();
    let mut j = hi;
    while j > lo && (v[j - 1] == '"' || v[j - 1] == '\'' || v[j - 1] == ' ')
        invariant
            lo <= j <= hi <= v.len(),
            p == quote_or_space(),
            crate::text::strip_back(v@.subrange(lo as int, hi as int), p)
                == crate::text::strip_back(v@.subrange(lo as int, j as int), p),
        decreases j - lo,
    {
        assert(v@.subrange(lo as int, j as int).drop_last() == v@.subrange(lo as int, j - 1));
        j = j - 1;
    }
    j
}

/// A `#rrggbb` color as `0xrrggbb`; quotes and spaces around it and any
/// number of leading `#` are ignored. Anything that is not six hex digits
/// is white (`0xFFFFFFFF`).
pub fn parse_hex_color(hex_str: &str) -> (r: u32)
    ensures
        r == hex_color_of(hex_str@),
{
    let v = chars_of(hex_str);
    let lo = skip_front(&v, 0, v.len(), false);
    let hi = skip_back(&v, lo, v.len());
    assert(v@.subrange(0, v.len() as int) == v@);
    assert(v@.subrange(lo as int, v.len() as int).subrange(0, (hi - lo) as int) == v@.subrange(
        lo as int,
        hi as int,
    ));
    proof {
        lemma_strip_back_sub(v@, lo as int, hi as int);
    }
    let lo2 = skip_front(&v, lo, hi, true);
    if hi - lo2 != 6 {
        return WHITE;
    }
    let body = crate::text::sub_vec(&v, lo2, hi);
    match parse_u32_chars(&body, 16) {
        Some(val) => val,
        None => WHITE,
    }
}

proof fn lemma_strip_back_sub(s: Seq<char>, lo: int, hi: int)
    requires
        0 <= lo <= hi <= s.len(),
        strip_front(s, quote_or_space()) == s.subrange(lo, s.len() as int),
        crate::text::strip_back(s.subrange(lo, s.len() as int), quote_or_space()) == s.subrange(
            lo,
            hi,
        ),
    ensures
        strip_both(s, quote_or_space()) == s.subrange(lo, hi),
{
}

/// The modifier mask a modifiers string names: "super" or "mod4" gives
/// 0x40, "shift" 0x01, "ctrl" 0x04, "alt" or "mod1" 0x08, each found
/// anywhere in the string.
pub open spec fn modifiers_of(s: Seq<char>) -> u32 {
    (if contains_seq(s, "super"@) || contains_seq(s, "mod4"@) {
        0x40u32
    } else {
        0
    }) | (if contains_seq(s, "shift"@) {
        0x01u32
    } else {
        0
    }) | (if contains_seq(s, "ctrl"@) {
        0x04u32
    } else {
        0
    }) | (if contains_seq(s, "alt"@) || contains_seq(s, "mod1"@) {
        0x08u32
    } else {
        0
    })
}

pub fn parse_modifiers(mod_str: &str) -> (r: u32)
    ensures
        r == modifiers_of(mod_str@),
{
    let v = chars_of(mod_str);
    let logo: u32 = if contains_str(&v, "super") || contains_str(&v, "mod4") {
        0x40
    } else {
        0
    };
    let shift: u32 = if contains_str(&v, "shift") {
        0x01
    } else {
        0
    };
    let ctrl: u32 = if contains_str(&v, "ctrl") {
        0x04
    } else {
        0
    };
    let alt: u32 = if contains_str(&v, "alt") || contains_str(&v, "mod1") {
        0x08
    } else {
        0
    };
    logo | shift | ctrl | alt
}

pub open spec fn button_of(s: Seq<char>) -> u32 {
    let t = trim(s);
    if t == "left"@ {
        0x110
    } else if t == "right"@ {
        0x111
    } else if t == "middle"@ {
        0x112
    } else if t == "side"@ {
        0x113
    } else if t == "extra"@ {
        0x114
    } else {
        match parse_u32_radix(t, 10) {
            Some(v) => v,
            None => 0,
        }
    }
}

/// A pointer button: "left", "right", "middle", "side", "extra" (the
/// evdev `BTN_*` codes), or a decimal code; 0 for anything else.
pub fn parse_button(s: &str) -> (r: u32)
    ensures
        r == button_of(s@),
{
    let t = trim_str(s);
    if chars_eq_str(&t, "left") {
        0x110
    } else if chars_eq_str(&t, "right") {
        0x111
    } else if chars_eq_str(&t, "middle") {
        0x112
    } else if chars_eq_str(&t, "side") {
        0x113
    } else if chars_eq_str(&t, "extra") {
        0x114
    } else {
        match parse_u32_chars(&t, 10) {
            Some(v) => v,
            None => 0,
        }
    }
}

pub open spec fn bind_action_of(s: Seq<char>) -> BindAction {
    let t = trim(s);
    if starts_with(t, "spawn"@) && (t.len() == 5 || t[5] == ' ' || t[5] == '-') {
        BindAction::Spawn
    } else if t == "toggle"@ {
        BindAction::Toggle
    } else if t == "move"@ {
        BindAction::Move
    } else if t == "resize"@ {
        BindAction::Resize
    } else {
        BindAction::NoAction
    }
}

/// The kind of action a binding names: "spawn" (alone, or followed by a
/// space or a `-`), "toggle", "move", "resize"; anything else is none.
pub fn parse_action(s: &str) -> (r: BindAction)
    ensures
        r == bind_action_of(s@),
{
    let t = trim_str(s);
    proof {
        reveal_strlit("spawn");
    }
    if starts_with_str(&t, "spawn") && (t.len() == 5 || t[5] == ' ' || t[5] == '-') {
        BindAction::Spawn
    } else if chars_eq_str(&t, "toggle") {
        BindAction::Toggle
    } else if chars_eq_str(&t, "move") {
        BindAction::Move
    } else if chars_eq_str(&t, "resize") {
        BindAction::Resize
    } else {
        BindAction::NoAction
    }
}


// ---------------------------------------------------------------------------
// Defaults of the configuration keys
// ---------------------------------------------------------------------------

pub fn default_scenefx_optimized_blur() -> (r: bool)
    ensures
        r == true,
{
    true
}

pub fn default_shadow_enabled() -> (r: bool)
    ensures
        r == true,
{
    true
}

pub fn default_shadow_color() -> (r: String)
    ensures
        r@ == "#0000008c"@,
{
    String::from_str("#0000008c")
}

pub fn default_shadow_offset_x() -> (r: i64)
    ensures
        r == 7,
{
    7
}

pub fn default_shadow_offset_y() -> (r: i64)
    ensures
        r == 7,
{
    7
}

pub fn default_shadow_tiled() -> (r: bool)
    ensures
        r == true,
{
    true
}

pub fn default_bevel_enabled() -> (r: bool)
    ensures
        r == true,
{
    true
}

pub fn default_bevel_light() -> (r: String)
    ensures
        r@ == "top-left"@,
{
    String::from_str("top-left")
}

pub fn default_bevel_color() -> (r: String)
    ensures
        r@ == "#ffffffff"@,
{
    String::from_str("#ffffffff")
}

pub fn default_bevel_focus_color() -> (r: String)
    ensures
        r@ == "#59c7c7"@,
{
    String::from_str("#59c7c7")
}

pub fn default_desktop_gap_color() -> (r: String)
    ensures
        r@ == "#000000"@,
{
    String::from_str("#000000")
}

pub fn default_desktop_cell_color() -> (r: String)
    ensures
        r@ == "#ffffff0d"@,
{
    String::from_str("#ffffff0d")
}

pub fn default_desktop_grid_scale() -> (r: i64)
    ensures
        r == 100,
{
    100
}

pub fn default_desktop_gap_width() -> (r: i64)
    ensures
        r == 1,
{
    1
}

pub fn default_desktop_line_relief() -> (r: i64)
    ensures
        r == -1,
{
    -1
}

pub fn default_desktop_cell_fade_inset() -> (r: i64)
    ensures
        r == 0,
{
    0
}

pub fn default_desktop_cell_labels() -> (r: bool)
    ensures
        r == true,
{
    true
}

pub fn default_desktop_grid_fade_mode() -> (r: String)
    ensures
        r@ == "linear"@,
{
    String::from_str("linear")
}

pub fn default_desktop_overview_ms() -> (r: i64)
    ensures
        r == 350,
{
    350
}

pub fn default_desktop_snap() -> (r: bool)
    ensures
        r == true,
{
    true
}

pub fn default_desktop_snap_threshold() -> (r: i64)
    ensures
        r == 24,
{
    24
}

pub fn default_desktop_edge_pan() -> (r: bool)
    ensures
        r == true,
{
    true
}

pub fn default_desktop_edge_pan_band() -> (r: i64)
    ensures
        r == 32,
{
    32
}

pub fn default_desktop_edge_pan_speed() -> (r: i64)
    ensures
        r == 1000,
{
    1000
}

pub fn default_root_plate_color() -> (r: String)
    ensures
        r@ == "#151520e6"@,
{
    String::from_str("#151520e6")
}

pub fn default_root_plate_corner_radius() -> (r: i64)
    ensures
        r == 12,
{
    12
}

pub fn default_border_width() -> (r: i64)
    ensures
        r == 0,
{
    0
}

pub fn default_border_color() -> (r: String)
    ensures
        r@ == "#3e3e3e"@,
{
    String::from_str("#3e3e3e")
}

pub fn default_border_corner_radius() -> (r: i64)
    ensures
        r == 0,
{
    0
}

pub fn default_fade_in_ms() -> (r: i64)
    ensures
        r == 140,
{
    140
}

pub fn default_fade_out_ms() -> (r: i64)
    ensures
        r == 120,
{
    120
}

pub fn default_border_segment_gap() -> (r: i64)
    ensures
        r == 4,
{
    4
}

pub fn default_gap() -> (r: i64)
    ensures
        r == 48,
{
    48
}

pub fn default_gap_top() -> (r: i64)
    ensures
        r == 48,
{
    48
}

pub fn default_gap_left() -> (r: i64)
    ensures
        r == 48,
{
    48
}

pub fn default_gap_right() -> (r: i64)
    ensures
        r == 48,
{
    48
}

pub fn default_gap_bottom() -> (r: i64)
    ensures
        r == 48,
{
    48
}

pub fn default_cascade_offset() -> (r: i64)
    ensures
        r == 20,
{
    20
}

pub fn default_bar_height() -> (r: i64)
    ensures
        r == 24,
{
    24
}

pub fn default_transition_duration() -> (r: i64)
    ensures
        r == 300,
{
    300
}

pub fn default_grid_gap() -> (r: i64)
    ensures
        r == 18,
{
    18
}

pub fn default_window_blur() -> (r: bool)
    ensures
        r == false,
{
    false
}

pub fn default_overlay_behavior() -> (r: String)
    ensures
        r@ == "inline"@,
{
    String::from_str("inline")
}

pub fn default_overlay_width() -> (r: i64)
    ensures
        r == 360,
{
    360
}

pub fn default_overlay_position() -> (r: String)
    ensures
        r@ == "left"@,
{
    String::from_str("left")
}

pub fn default_overlay_border_gap() -> (r: i64)
    ensures
        r == 0,
{
    0
}

pub fn default_status_normal_color() -> (r: String)
    ensures
        r@ == "#ccccd8"@,
{
    String::from_str("#ccccd8")
}

pub fn default_window_opacity() -> (r: bool)
    ensures
        r == true,
{
    true
}

pub fn default_status_backdrop_blur_ignore_transparent() -> (r: bool)
    ensures
        r == true,
{
    true
}

pub fn default_status_module_hide_mode_preview() -> (r: i64)
    ensures
        r == 4,
{
    4
}

pub fn default_window_backdrop_blur_ignore_transparent() -> (r: bool)
    ensures
        r == true,
{
    true
}

/// No default cloud position.
pub fn default_cloud_position_default() -> (r: Option<[i32; 2]>)
    ensures
        r is None,
{
    None
}

impl OutputConfig {
    /// The `output { }` block with every key at its default.
    pub fn new() -> (c: OutputConfig)
        ensures
            c.scenefx_optimized_blur,
    {
        OutputConfig { scenefx_optimized_blur: default_scenefx_optimized_blur() }
    }
}

impl GesturesConfig {
    /// Neither gesture set.
    pub fn new() -> (c: GesturesConfig)
        ensures
            c.swipe is None,
            c.pinch is None,
    {
        GesturesConfig { swipe: None, pinch: None }
    }
}

} // verus!
