use vstd::prelude::*;

use crate::config::{BindAction, TilingMode};
use crate::cursor::BorderZone;
use crate::settings::PointerBind;
use crate::shortcuts::{MOD_CTRL, MOD_LOGO, MOD_SHIFT};
use crate::text::{chars_of, dec_digits, dec_int, i64_to_dec, push_chars, push_str, u64_to_dec};

verus! {

// ---------------------------------------------------------------------------
// What a button press lands on
// ---------------------------------------------------------------------------

/// The left mouse button.
pub const BTN_LEFT: u32 = 0x110;

/// The right mouse button.
pub const BTN_RIGHT: u32 = 0x111;

/// What lies under the pointer when a button is pressed.
#[derive(Debug, Clone, Copy, PartialEq, Eq, Structural)]
pub enum PressTarget {
    /// A window: whether it is the status bar, the wallpaper or the desktop
    /// grid, and its mode.
    Window { status_bar: bool, wallpaper: bool, grid: bool, mode: TilingMode },
    /// A layer surface, and whether it is a cloud surface.
    LayerSurface { cloud: bool },
    ShellSurface,
    OverrideRedirect,
    LockSurface,
    /// The bare desktop.
    Nothing,
}

/// Whether a press lands on an application surface, and whether that
/// surface is chrome that stays usable in overview (an overlay or popup
/// window, or a cloud surface).
pub open spec fn app_surface_of(t: PressTarget) -> (bool, bool) {
    match t {
        PressTarget::Window { status_bar, wallpaper, grid, mode } => if !status_bar && !wallpaper
            && !grid {
            (true, mode == TilingMode::Overlay || mode == TilingMode::Popup)
        } else {
            (false, false)
        },
        PressTarget::LayerSurface { cloud } => (true, cloud),
        PressTarget::ShellSurface | PressTarget::OverrideRedirect => (true, false),
        _ => (false, false),
    }
}

/// In overview a press on an application surface that is not chrome is
/// withheld from the client.
pub fn should_block_button(in_overview: bool, target: PressTarget) -> (r: bool)
    ensures
        r == (in_overview && app_surface_of(target).0 && !app_surface_of(target).1),
{
    let (app, chrome) = match target {
        PressTarget::Window { status_bar, wallpaper, grid, mode } => if !status_bar && !wallpaper
            && !grid {
            (true, mode == TilingMode::Overlay || mode == TilingMode::Popup)
        } else {
            (false, false)
        },
        PressTarget::LayerSurface { cloud } => (true, cloud),
        PressTarget::ShellSurface | PressTarget::OverrideRedirect => (true, false),
        _ => (false, false),
    };
    in_overview && app && !chrome
}

/// Whether a right click with no modifiers on `target` is a click on the
/// bare desktop (which opens the desktop menu): on nothing, or on the
/// wallpaper.
pub fn right_click_on_background(target: PressTarget) -> (r: bool)
    ensures
        r == match target {
            PressTarget::Window { wallpaper, .. } => wallpaper,
            PressTarget::Nothing => true,
            _ => false,
        },
{
    match target {
        PressTarget::Window { wallpaper, .. } => wallpaper,
        PressTarget::Nothing => true,
        _ => false,
    }
}

// ---------------------------------------------------------------------------
// Status menus, status segments and adjust mode
// ---------------------------------------------------------------------------

/// The dismiss line a press sends to open status menus: none when no
/// status segment other than the pressed one is expanded; otherwise the
/// pressed segment's app id (`-` when the press is not on a status segment
/// or the segment has no app id), which keeps that segment's own menu open.
pub open spec fn menu_dismiss_spec(
    other_expanded: bool,
    on_status: bool,
    app_id: Option<Seq<char>>,
) -> Option<Seq<char>> {
    if !other_expanded {
        None
    } else if on_status && app_id is Some {
        app_id
    } else {
        Some("-"@)
    }
}

pub fn menu_dismiss(other_expanded: bool, on_status: bool, app_id: Option<&str>) -> (r: Option<
    String,
>)
    ensures
        match (r, menu_dismiss_spec(other_expanded, on_status, opt_str(app_id))) {
            (Some(a), Some(b)) => a@ == b,
            (None, None) => true,
            _ => false,
        },
{
    proof {
        reveal_strlit("-");
    }
    if !other_expanded {
        None
    } else {
        match app_id {
            Some(a) if on_status => Some(a.to_owned()),
            _ => Some(String::from_str("-")),
        }
    }
}

pub open spec fn opt_str(s: Option<&str>) -> Option<Seq<char>> {
    match s {
        Some(x) => Some(x@),
        None => None,
    }
}

/// A left press grabs a status segment to move it, in adjust-position mode
/// or with Super held, unless the segment is expanded (its menu rows are
/// clicked, the one that leaves adjust mode among them).
pub fn grabs_status_segment(
    button: u32,
    adjust_position_mode: bool,
    modifiers: u32,
    target: PressTarget,
    expanded: bool,
) -> (r: bool)
    ensures
        r == (button == BTN_LEFT && (adjust_position_mode || modifiers & MOD_LOGO != 0)
            && (target matches PressTarget::Window { status_bar: true, .. }) && !expanded),
{
    let on_status = match target {
        PressTarget::Window { status_bar, .. } => status_bar,
        _ => false,
    };
    button == BTN_LEFT && (adjust_position_mode || modifiers & MOD_LOGO != 0) && on_status
        && !expanded
}

/// What a press does in window-adjust mode (overview, or Super held).
#[derive(Debug, Clone, Copy, PartialEq, Eq, Structural)]
pub enum AdjustPress {
    /// The press goes on to the normal path.
    FallThrough,
    /// The press grabs the whole window to move it.
    GrabWindow,
    /// The press only dismisses an open cloud popup (by dropping keyboard
    /// focus); overview stays up.
    DismissCloudPopup,
    /// The press on the background leaves overview.
    ExitOverview,
}

/// The adjust-mode choice for a press on `target`. Chrome (overlay and
/// popup windows, cloud surfaces) and desktop items on the grid fall
/// through; a real window's body (not its ring, `on_ring`) is grabbed; in
/// overview anything else is background, which dismisses a cloud popup
/// that holds the keyboard, or else leaves overview.
pub open spec fn adjust_press_spec(
    button: u32,
    adjust_active: bool,
    in_overview: bool,
    target: PressTarget,
    on_ring: bool,
    cloud_has_focus: bool,
) -> AdjustPress {
    if button != BTN_LEFT || !adjust_active {
        AdjustPress::FallThrough
    } else {
        let chrome = match target {
            PressTarget::LayerSurface { cloud } => cloud,
            PressTarget::Window { mode, .. } => mode == TilingMode::Overlay || mode
                == TilingMode::Popup,
            _ => false,
        };
        let grid = (target matches PressTarget::Window { grid: true, .. });
        let valid = match target {
            PressTarget::Window { status_bar, wallpaper, grid, .. } => !status_bar && !wallpaper
                && !grid,
            _ => false,
        };
        if chrome || grid {
            AdjustPress::FallThrough
        } else if valid && !on_ring {
            AdjustPress::GrabWindow
        } else if !valid && in_overview {
            if cloud_has_focus {
                AdjustPress::DismissCloudPopup
            } else {
                AdjustPress::ExitOverview
            }
        } else {
            AdjustPress::FallThrough
        }
    }
}

pub fn adjust_press(
    button: u32,
    adjust_active: bool,
    in_overview: bool,
    target: PressTarget,
    on_ring: bool,
    cloud_has_focus: bool,
) -> (r: AdjustPress)
    ensures
        r == adjust_press_spec(button, adjust_active, in_overview, target, on_ring, cloud_has_focus),
{
    if button != BTN_LEFT || !adjust_active {
        return AdjustPress::FallThrough;
    }
    let (chrome, grid, valid) = match target {
        PressTarget::LayerSurface { cloud } => (cloud, false, false),
        PressTarget::Window { status_bar, wallpaper, grid, mode } => (
            mode == TilingMode::Overlay || mode == TilingMode::Popup,
            grid,
            !status_bar && !wallpaper && !grid,
        ),
        _ => (false, false, false),
    };
    if chrome || grid {
        AdjustPress::FallThrough
    } else if valid && !on_ring {
        AdjustPress::GrabWindow
    } else if !valid && in_overview {
        if cloud_has_focus {
            AdjustPress::DismissCloudPopup
        } else {
            AdjustPress::ExitOverview
        }
    } else {
        AdjustPress::FallThrough
    }
}

/// In adjust mode, chrome keeps its presses: a press on an overlay or
/// popup window (a dock, the cloud launcher) or on a cloud layer surface
/// always falls through to the normal path, whatever else holds. It is
/// never grabbed to be moved and never counts as background; and so a
/// grab only ever takes a window that is neither.
pub proof fn lemma_chrome_keeps_its_presses(
    button: u32,
    adjust_active: bool,
    in_overview: bool,
    target: PressTarget,
    on_ring: bool,
    cloud_has_focus: bool,
)
    ensures
        (target matches PressTarget::Window { mode, .. } && (mode == TilingMode::Popup || mode
            == TilingMode::Overlay)) ==> adjust_press_spec(
            button,
            adjust_active,
            in_overview,
            target,
            on_ring,
            cloud_has_focus,
        ) == AdjustPress::FallThrough,
        target == (PressTarget::LayerSurface { cloud: true }) ==> adjust_press_spec(
            button,
            adjust_active,
            in_overview,
            target,
            on_ring,
            cloud_has_focus,
        ) == AdjustPress::FallThrough,
        adjust_press_spec(button, adjust_active, in_overview, target, on_ring, cloud_has_focus)
            == AdjustPress::GrabWindow ==> (target matches PressTarget::Window {
            status_bar: false,
            wallpaper: false,
            grid: false,
            mode,
        } && mode != TilingMode::Popup && mode != TilingMode::Overlay),
{
}

// ---------------------------------------------------------------------------
// Horizontal finger scroll as Shift + vertical
// ---------------------------------------------------------------------------

/// What one finger-scroll axis event does to the horizontal-scroll-as-Shift
/// gesture over the windows configured for it.
#[derive(Debug, Clone, Copy, PartialEq, Eq, Structural)]
pub struct HScrollStep {
    /// Start the gesture (hold Shift, pause key repeat).
    pub begin: bool,
    /// End the gesture (release Shift, restore key repeat).
    pub end: bool,
    /// Send the event on as a vertical scroll.
    pub emit_vertical: bool,
    /// Re-arm the silence timer that ends a gesture whose lift never came.
    pub arm_timer: bool,
    /// The event is used up here and does not reach the client as it is.
    pub consumed: bool,
}

/// The step for an axis event: `lifted` when its delta is zero (fingers
/// lifted), `active` when a gesture is under way, `vertical` for a vertical
/// axis, `target` when the pointer is over a window configured for the
/// gesture, `focus_matches` when the pointer focus is the gesture's surface
/// (the one it began on, or `target`'s when it begins now). Shift or Ctrl
/// held ends a gesture and lets the event through; a gesture begins only on
/// a horizontal event; it ends when the pointer leaves its surface; a
/// vertical drift mid-gesture is swallowed.
pub open spec fn hscroll_step_spec(
    lifted: bool,
    active: bool,
    modifiers: u32,
    vertical: bool,
    target: bool,
    focus_matches: bool,
) -> HScrollStep {
    let none = HScrollStep {
        begin: false,
        end: false,
        emit_vertical: false,
        arm_timer: false,
        consumed: false,
    };
    if lifted {
        HScrollStep { end: active, consumed: active, ..none }
    } else if modifiers & (MOD_SHIFT | MOD_CTRL) != 0 {
        HScrollStep { end: active, ..none }
    } else if !active && (vertical || !target) {
        none
    } else if !focus_matches {
        HScrollStep { begin: !active, end: true, ..none }
    } else {
        HScrollStep {
            begin: !active,
            end: false,
            emit_vertical: !vertical,
            arm_timer: true,
            consumed: true,
        }
    }
}

pub fn hscroll_shift_step(
    lifted: bool,
    active: bool,
    modifiers: u32,
    vertical: bool,
    target: bool,
    focus_matches: bool,
) -> (r: HScrollStep)
    ensures
        r == hscroll_step_spec(lifted, active, modifiers, vertical, target, focus_matches),
{
    let none = HScrollStep {
        begin: false,
        end: false,
        emit_vertical: false,
        arm_timer: false,
        consumed: false,
    };
    if lifted {
        return HScrollStep { end: active, consumed: active, ..none };
    }
    if modifiers & (MOD_SHIFT | MOD_CTRL) != 0 {
        return HScrollStep { end: active, ..none };
    }
    if !active && (vertical || !target) {
        return none;
    }
    if !focus_matches {
        return HScrollStep { begin: !active, end: true, ..none };
    }
    HScrollStep {
        begin: !active,
        end: false,
        emit_vertical: !vertical,
        arm_timer: true,
        consumed: true,
    }
}

// ---------------------------------------------------------------------------
// Pointer bindings
// ---------------------------------------------------------------------------

/// The first pointer binding for `button` with exactly the modifiers `mods`.
pub fn find_pointer_bind(binds: &Vec<PointerBind>, button: u32, mods: u32) -> (r: Option<usize>)
    ensures
        match r {
            Some(i) => i < binds@.len() && binds@[i as int].button == button && binds@[i as int].mods
                == mods && forall|j: int|
                0 <= j < i ==> !(binds@[j].button == button && binds@[j].mods == mods),
            None => forall|j: int|
                0 <= j < binds@.len() ==> !(binds@[j].button == button && binds@[j].mods == mods),
        },
{
    let mut i: usize = 0;
    while i < binds.len()
        invariant
            i <= binds.len(),
            forall|j: int| 0 <= j < i ==> !(binds@[j].button == button && binds@[j].mods == mods),
        decreases binds.len() - i,
    {
        if binds[i].button == button && binds[i].mods == mods {
            return Some(i);
        }
        i = i + 1;
    }
    None
}

/// A pointer grab that a press starts.
#[derive(Debug, Clone, Copy, PartialEq, Eq, Structural)]
pub enum GrabKind {
    Move,
    Resize,
}

/// A window grabbed by a pointer binding is made floating (and its mode
/// locked) unless it is floating, a popup, fullscreen, an overlay or a
/// utility window.
pub fn floats_on_bind_grab(mode: TilingMode) -> (r: bool)
    ensures
        r == !(mode == TilingMode::Floating || mode == TilingMode::Popup || mode
            == TilingMode::Fullscreen || mode == TilingMode::Overlay || mode == TilingMode::Utility),
{
    !(mode == TilingMode::Floating || mode == TilingMode::Popup || mode == TilingMode::Fullscreen
        || mode == TilingMode::Overlay || mode == TilingMode::Utility)
}

/// The grab a pointer binding starts on a window in mode `mode` (the mode
/// it has once grabbed): a move for `move`, a resize for `resize` except on
/// a utility window, nothing for any other action.
pub open spec fn bind_grab_of(action: BindAction, mode: TilingMode) -> Option<GrabKind> {
    match action {
        BindAction::Move => Some(GrabKind::Move),
        BindAction::Resize => if mode == TilingMode::Utility {
            None
        } else {
            Some(GrabKind::Resize)
        },
        _ => None,
    }
}

pub fn bind_grab(action: BindAction, mode: TilingMode) -> (r: Option<GrabKind>)
    ensures
        r == bind_grab_of(action, mode),
{
    match action {
        BindAction::Move => Some(GrabKind::Move),
        BindAction::Resize => if mode == TilingMode::Utility {
            None
        } else {
            Some(GrabKind::Resize)
        },
        _ => None,
    }
}

// ---------------------------------------------------------------------------
// Presses on a window's border ring
// ---------------------------------------------------------------------------

/// Clicks on a title bar closer together than this many ms are a double click.
pub const DOUBLE_CLICK_MS: u32 = 300;

/// A left press on a title bar is a double click when the previous one was
/// on the same window less than `DOUBLE_CLICK_MS` ago (a clock that went
/// back counts as no time at all).
pub fn is_double_click(on_titlebar: bool, same_window: bool, now_ms: u32, last_click_ms: u32) -> (r:
    bool)
    ensures
        r == (on_titlebar && same_window && (if now_ms >= last_click_ms {
            now_ms - last_click_ms
        } else {
            0
        }) < DOUBLE_CLICK_MS),
{
    on_titlebar && same_window && now_ms.saturating_sub(last_click_ms) < DOUBLE_CLICK_MS
}

/// Whether a right click with no modifiers opens the app menu of the
/// window under it: on its border ring, or anywhere on it in overview
/// unless it is an overlay or utility window.
pub fn opens_app_menu(button: u32, mods: u32, on_ring: bool, in_overview: bool, mode: TilingMode) -> (r:
    bool)
    ensures
        r == (button == BTN_RIGHT && mods == 0 && (on_ring || (in_overview && !(mode
            == TilingMode::Overlay || mode == TilingMode::Utility)))),
{
    let menu_on_body = in_overview && !(mode == TilingMode::Overlay || mode == TilingMode::Utility);
    button == BTN_RIGHT && mods == 0 && (on_ring || menu_on_body)
}

/// What a left press on a window's border ring does.
#[derive(Debug, Clone, Copy, PartialEq, Eq, Structural)]
pub enum RingPress {
    /// Nothing (a resize of a utility window, or not the left button).
    Ignore,
    /// A double click on the title bar: the window switches to `to`, locked.
    ToggleTiled { to: TilingMode },
    /// A grab starts; the window is first made floating (and locked) when
    /// `float_first`.
    Grab { kind: GrabKind, float_first: bool },
}

/// The outcome of a press of `button` on the ring zone `zone` of a window
/// in mode `mode`: on the move zone a title-bar double click toggles
/// between tiled and floating (utility windows excepted), otherwise a move
/// starts, floating the window unless it is floating, an overlay or a
/// utility window; on a resize zone a resize starts, floating the window
/// unless it is floating, and never for a utility window.
pub fn ring_press(button: u32, zone: BorderZone, mode: TilingMode, double_click: bool) -> (r:
    RingPress)
    ensures
        r == if button != BTN_LEFT {
            RingPress::Ignore
        } else {
            match zone {
                BorderZone::Resize(_) => if mode == TilingMode::Utility {
                    RingPress::Ignore
                } else {
                    RingPress::Grab { kind: GrabKind::Resize, float_first: mode != TilingMode::Floating }
                },
                BorderZone::Move => if double_click && mode != TilingMode::Utility {
                    RingPress::ToggleTiled {
                        to: if mode == TilingMode::Tiled {
                            TilingMode::Floating
                        } else {
                            TilingMode::Tiled
                        },
                    }
                } else {
                    RingPress::Grab {
                        kind: GrabKind::Move,
                        float_first: !(mode == TilingMode::Floating || mode == TilingMode::Overlay
                            || mode == TilingMode::Utility),
                    }
                },
                BorderZone::NoZone => RingPress::Ignore,
            }
        },
{
    if button != BTN_LEFT {
        return RingPress::Ignore;
    }
    match zone {
        BorderZone::Resize(_) => if mode == TilingMode::Utility {
            RingPress::Ignore
        } else {
            RingPress::Grab { kind: GrabKind::Resize, float_first: mode != TilingMode::Floating }
        },
        BorderZone::Move => if double_click && mode != TilingMode::Utility {
            RingPress::ToggleTiled {
                to: if mode == TilingMode::Tiled {
                    TilingMode::Floating
                } else {
                    TilingMode::Tiled
                },
            }
        } else {
            RingPress::Grab {
                kind: GrabKind::Move,
                float_first: !(mode == TilingMode::Floating || mode == TilingMode::Overlay || mode
                    == TilingMode::Utility),
            }
        },
        BorderZone::NoZone => RingPress::Ignore,
    }
}

// ---------------------------------------------------------------------------
// The order of a press's decisions
// ---------------------------------------------------------------------------

/// What a button press does, decided in this order.
#[derive(Debug, Clone, Copy, PartialEq, Eq, Structural)]
pub enum PressStep {
    /// The button is already held: the press is ignored.
    Ignore,
    /// A status segment is grabbed to move it.
    GrabStatusSegment,
    /// Window-adjust mode takes the press (never `FallThrough`).
    Adjust(AdjustPress),
    /// A right click on the bare desktop opens the desktop menu.
    DesktopMenu,
    /// A pointer binding starts a grab of the window under the pointer.
    BindGrab(GrabKind),
    /// On to the border ring and the client.
    Continue,
}

/// The decision for a press of `button` with `modifiers` on `target`:
/// a button already held is ignored; then a status segment grab; then
/// window-adjust mode; then a right click with no modifiers on the bare
/// desktop; then the pointer binding `bind` (the action of the binding
/// matching button and modifiers, if any) on a window that is neither the
/// status bar nor the wallpaper; otherwise the press goes on.
pub open spec fn press_step_spec(
    held: bool,
    button: u32,
    modifiers: u32,
    target: PressTarget,
    adjust_position_mode: bool,
    status_expanded: bool,
    adjust_active: bool,
    in_overview: bool,
    on_ring: bool,
    cloud_has_focus: bool,
    bind: Option<BindAction>,
) -> PressStep {
    let adjust = adjust_press_spec(
        button,
        adjust_active,
        in_overview,
        target,
        on_ring,
        cloud_has_focus,
    );
    if held {
        PressStep::Ignore
    } else if button == BTN_LEFT && (adjust_position_mode || modifiers & MOD_LOGO != 0) && (
    target matches PressTarget::Window { status_bar: true, .. }) && !status_expanded {
        PressStep::GrabStatusSegment
    } else if adjust != AdjustPress::FallThrough {
        PressStep::Adjust(adjust)
    } else if button == BTN_RIGHT && modifiers == 0 && match target {
        PressTarget::Window { wallpaper, .. } => wallpaper,
        PressTarget::Nothing => true,
        _ => false,
    } {
        PressStep::DesktopMenu
    } else {
        match (bind, target) {
            (Some(a), PressTarget::Window { status_bar: false, wallpaper: false, mode, .. }) =>
                match bind_grab_of(a, mode) {
                Some(g) => PressStep::BindGrab(g),
                None => PressStep::Continue,
            },
            _ => PressStep::Continue,
        }
    }
}

pub fn press_step(
    held: bool,
    button: u32,
    modifiers: u32,
    target: PressTarget,
    adjust_position_mode: bool,
    status_expanded: bool,
    adjust_active: bool,
    in_overview: bool,
    on_ring: bool,
    cloud_has_focus: bool,
    bind: Option<BindAction>,
) -> (r: PressStep)
    ensures
        r == press_step_spec(
            held,
            button,
            modifiers,
            target,
            adjust_position_mode,
            status_expanded,
            adjust_active,
            in_overview,
            on_ring,
            cloud_has_focus,
            bind,
        ),
{
    if held {
        return PressStep::Ignore;
    }
    if grabs_status_segment(button, adjust_position_mode, modifiers, target, status_expanded) {
        return PressStep::GrabStatusSegment;
    }
    let adjust = adjust_press(button, adjust_active, in_overview, target, on_ring, cloud_has_focus);
    if adjust != AdjustPress::FallThrough {
        return PressStep::Adjust(adjust);
    }
    if button == BTN_RIGHT && modifiers == 0 && right_click_on_background(target) {
        return PressStep::DesktopMenu;
    }
    match (bind, target) {
        (Some(a), PressTarget::Window { status_bar: false, wallpaper: false, mode, .. }) => match bind_grab(a, mode) {
            Some(g) => PressStep::BindGrab(g),
            None => PressStep::Continue,
        },
        _ => PressStep::Continue,
    }
}

// ---------------------------------------------------------------------------
// Menu commands
// ---------------------------------------------------------------------------

/// `s` with every `'` written as `'\''`, so that it can stand inside
/// single quotes in a shell command.
pub open spec fn quote_body(s: Seq<char>) -> Seq<char>
    decreases s.len(),
{
    if s.len() == 0 {
        Seq::empty()
    } else {
        quote_body(s.drop_last()) + if s.last() == '\'' {
            "'\\''"@
        } else {
            seq![s.last()]
        }
    }
}

/// `s` as one single-quoted shell word.
pub open spec fn shell_quoted(s: Seq<char>) -> Seq<char> {
    "'"@ + quote_body(s) + "'"@
}

/// `s` as one single-quoted shell word.
pub fn shell_quote(s: &str) -> (r: String)
    ensures
        r@ == shell_quoted(s@),
{
    let v = chars_of(s);
    let mut out = String::from_str("'");
    let mut i: usize = 0;
    while i < v.len()
        invariant
            0 <= i <= v.len(),
            v@ == s@,
            out@ == "'"@ + quote_body(v@.subrange(0, i as int)),
        decreases v.len() - i,
    {
        assert(v@.subrange(0, i as int + 1).drop_last() == v@.subrange(0, i as int));
        if v[i] == '\'' {
            push_str(&mut out, "'\\''");
        } else {
            let one: Vec<char> = vec![v[i]];
            push_chars(&mut out, &one);
            assert(one@ == seq![v@[i as int]]);
        }
        i = i + 1;
    }
    assert(v@.subrange(0, v.len() as int) == v@);
    push_str(&mut out, "'");
    out
}

/// The desktop menu's command for a right click at `(x, y)`.
pub open spec fn desktop_menu_text(home: Seq<char>, x: i32, y: i32) -> Seq<char> {
    home + "/.local/bin/cce-desktop-menu -x "@ + dec_int(x as int) + " -y "@ + dec_int(y as int)
}

/// The desktop menu's command for a right click at `(x, y)`.
pub fn desktop_menu_command(home: &str, x: i32, y: i32) -> (r: String)
    ensures
        r@ == desktop_menu_text(home@, x, y),
{
    let mut out = home.to_owned();
    push_str(&mut out, "/.local/bin/cce-desktop-menu -x ");
    push_chars(&mut out, &i64_to_dec(x as i64));
    push_str(&mut out, " -y ");
    push_chars(&mut out, &i64_to_dec(y as i64));
    out
}

/// The app menu's command for a right click at `(x, y)` on the window
/// with index `index` of the app `app_id`.
pub open spec fn app_menu_text(home: Seq<char>, x: i32, y: i32, index: u64, app_id: Seq<char>) -> Seq<char> {
    home + "/.local/bin/cce-app-menu -x "@ + dec_int(x as int) + " -y "@ + dec_int(y as int)
        + " -i "@ + dec_digits(index as nat) + " -a "@ + shell_quoted(app_id)
}

/// The app menu's command for a right click at `(x, y)` on the window
/// with index `index` of the app `app_id`.
pub fn app_menu_command(home: &str, x: i32, y: i32, index: u64, app_id: &str) -> (r: String)
    ensures
        r@ == app_menu_text(home@, x, y, index, app_id@),
{
    let mut out = home.to_owned();
    push_str(&mut out, "/.local/bin/cce-app-menu -x ");
    push_chars(&mut out, &i64_to_dec(x as i64));
    push_str(&mut out, " -y ");
    push_chars(&mut out, &i64_to_dec(y as i64));
    push_str(&mut out, " -i ");
    push_chars(&mut out, &u64_to_dec(index));
    push_str(&mut out, " -a ");
    let q = shell_quote(app_id);
    push_str(&mut out, q.as_str());
    out
}

} // verus!
