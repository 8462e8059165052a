use vstd::prelude::*;
use std::collections::HashMap;

verus! {

broadcast use vstd::std_specs::hash::group_hash_axioms;

/// The modifier keysyms: Shift, Control, Caps/Shift/Num Lock, Meta, Alt,
/// Super, Hyper, and the ISO lock, level and group keys.
pub open spec fn is_modifier_keysym(sym: u32) -> bool {
    ||| 0xffe1 <= sym <= 0xffee
    ||| sym == 0xff7f
    ||| 0xfe01 <= sym <= 0xfe0f
    ||| 0xfe11 <= sym <= 0xfe13
    ||| sym == 0xff7e
}

/// Whether `sym` is a modifier key rather than a key of its own.
pub fn keysym_is_modifier(sym: u32) -> (r: bool)
    ensures
        r == is_modifier_keysym(sym),
{
    match sym {
        0xffe1 | 0xffe2 | 0xffe3 | 0xffe4 | 0xffe5 | 0xffe6 => true,
        0xffe7 | 0xffe8 | 0xffe9 | 0xffea | 0xffeb | 0xffec | 0xffed | 0xffee => true,
        0xff7f => true,
        0xfe01 | 0xfe02 | 0xfe03 | 0xfe04 | 0xfe05 | 0xfe11 | 0xfe12 | 0xfe13 => true,
        0xff7e | 0xfe06 | 0xfe07 | 0xfe08 | 0xfe09 | 0xfe0a | 0xfe0b | 0xfe0c | 0xfe0d | 0xfe0e
        | 0xfe0f => true,
        _ => false,
    }
}

/// Who a pressed key was given to; its release goes to the same place.
#[derive(Debug, Clone, Copy, PartialEq, Eq, Structural)]
pub enum KeyConsumer {
    /// A compositor builtin (VT switch, menu dismissal).
    Builtin,
    /// A window manager key binding (its handle; `None` when the binding
    /// had already been sent as pressed).
    Binding(Option<u64>),
    /// The compositor keybind at this index of the keybind list.
    CceBinding(usize),
    /// Eaten because the window manager asked for the next key to be.
    EnsureEaten,
    /// The input method's keyboard grab.
    ImGrab,
    /// The focused client.
    Focus,
}

/// A pressed key: its consumer and how many of the group's keyboards hold
/// it down.
#[derive(Debug, Clone, Copy, PartialEq, Eq, Structural)]
pub struct Press {
    pub consumer: KeyConsumer,
    pub count: u32,
}

/// At most this many distinct keys are tracked as pressed.
pub const MAX_PRESSED: usize = 32;

/// What a physical key event turns into on the group keyboard.
#[derive(Debug, Clone, Copy, PartialEq, Eq, Structural)]
pub enum KeyNotify {
    /// Nothing: another keyboard of the group already holds or still holds
    /// the key, or too many keys are down.
    Nothing,
    Pressed,
    Released,
}

/// The keys a keyboard group holds down: one entry per keycode.
pub struct KeyboardGroup {
    pub pressed: HashMap<u32, Press>,
}

impl KeyboardGroup {
    pub fn new() -> (g: KeyboardGroup)
        ensures
            g.pressed@ == Map::<u32, Press>::empty(),
    {
        KeyboardGroup { pressed: HashMap::new() }
    }

    /// A key event from one keyboard of the group. A key already held by
    /// the group only has its count changed, and is released on the group
    /// keyboard when the last keyboard lets go; a new key is pressed on the
    /// group keyboard unless `MAX_PRESSED` keys are already down.
    pub fn process_key(&mut self, keycode: u32, pressed: bool) -> (n: KeyNotify)
        requires
            old(self).pressed@.contains_key(keycode) ==> 0 < old(self).pressed@[keycode].count
                < u32::MAX,
        ensures
            old(self).pressed@.contains_key(keycode) ==> {
                let p = old(self).pressed@[keycode];
                let c = if pressed {
                    p.count + 1
                } else {
                    p.count - 1
                };
                &&& final(self).pressed@ == old(self).pressed@.insert(
                    keycode,
                    Press { consumer: p.consumer, count: c as u32 },
                )
                &&& n == (if !pressed && c == 0 {
                    KeyNotify::Released
                } else {
                    KeyNotify::Nothing
                })
            },
            !old(self).pressed@.contains_key(keycode) ==> {
                &&& final(self).pressed@ == old(self).pressed@
                &&& n == (if pressed && old(self).pressed@.len() < MAX_PRESSED {
                    KeyNotify::Pressed
                } else {
                    KeyNotify::Nothing
                })
            },
    {
        match self.pressed.get(&keycode) {
            Some(p) => {
                let p = *p;
                if pressed {
                    self.pressed.insert(keycode, Press { consumer: p.consumer, count: p.count + 1 });
                    KeyNotify::Nothing
                } else {
                    let c = p.count - 1;
                    self.pressed.insert(keycode, Press { consumer: p.consumer, count: c });
                    if c == 0 {
                        KeyNotify::Released
                    } else {
                        KeyNotify::Nothing
                    }
                }
            },
            None => {
                if pressed && self.pressed.len() < MAX_PRESSED {
                    KeyNotify::Pressed
                } else {
                    KeyNotify::Nothing
                }
            },
        }
    }

    /// The group keyboard pressed `keycode` and gave it to `consumer`.
    pub fn record_press(&mut self, keycode: u32, consumer: KeyConsumer)
        ensures
            final(self).pressed@ == old(self).pressed@.insert(
                keycode,
                Press { consumer, count: 1 },
            ),
    {
        self.pressed.insert(keycode, Press { consumer, count: 1 });
    }

    /// The group keyboard released `keycode`: its press is forgotten and the
    /// release goes to whoever got the press (the focused client when the
    /// press was never tracked).
    pub fn take_release(&mut self, keycode: u32) -> (c: KeyConsumer)
        requires
            old(self).pressed@.contains_key(keycode) ==> old(self).pressed@[keycode].count == 0,
        ensures
            final(self).pressed@ == old(self).pressed@.remove(keycode),
            c == (if old(self).pressed@.contains_key(keycode) {
                old(self).pressed@[keycode].consumer
            } else {
                KeyConsumer::Focus
            }),
    {
        match self.pressed.remove(&keycode) {
            Some(p) => p.consumer,
            None => KeyConsumer::Focus,
        }
    }
}

/// A key pressed on one keyboard of an idle group and released again
/// reaches the group keyboard as exactly one press and one release, goes
/// back to the consumer it was given to, and leaves nothing tracked.
pub proof fn lemma_press_release_round_trip(
    m: Map<u32, Press>,
    keycode: u32,
    consumer: KeyConsumer,
)
    requires
        !m.contains_key(keycode),
    ensures
        ({
            let after_press = m.insert(keycode, Press { consumer, count: 1 });
            let p = after_press[keycode];
            let after_key_up = after_press.insert(
                keycode,
                Press { consumer: p.consumer, count: (p.count - 1) as u32 },
            );
            &&& (p.count - 1) == 0
            &&& after_key_up[keycode].count == 0
            &&& after_key_up[keycode].consumer == consumer
            &&& after_key_up.remove(keycode) == m
        }),
{
    let after_press = m.insert(keycode, Press { consumer, count: 1 });
    let p = after_press[keycode];
    let after_key_up = after_press.insert(
        keycode,
        Press { consumer: p.consumer, count: (p.count - 1) as u32 },
    );
    assert(after_key_up.remove(keycode) =~= m);
}

/// A compositor builtin a key triggers.
#[derive(Debug, Clone, Copy, PartialEq, Eq, Structural)]
pub enum Builtin {
    /// Switch to this virtual terminal.
    SwitchVt(u32),
    /// Close the open status menu.
    DismissMenu,
}

/// `XF86Switch_VT_1`; VT n is this plus n - 1, up to VT 12.
pub const KEY_SWITCH_VT_1: u32 = 0x1008fe01;
pub const KEY_SWITCH_VT_12: u32 = 0x1008fe0c;
pub const KEY_ESCAPE: u32 = 0xff1b;

pub open spec fn builtin_spec(keysym: u32, modifiers: u32, menu_open: bool) -> Option<Builtin> {
    if KEY_SWITCH_VT_1 <= keysym <= KEY_SWITCH_VT_12 {
        Some(Builtin::SwitchVt((keysym - KEY_SWITCH_VT_1 + 1) as u32))
    } else if keysym == KEY_ESCAPE && modifiers == 0 && menu_open {
        Some(Builtin::DismissMenu)
    } else {
        None
    }
}

/// The builtin a keysym triggers: a VT switch key always; plain Escape
/// (no modifiers) only while a status menu is open.
pub fn builtin_binding(keysym: u32, modifiers: u32, menu_open: bool) -> (r: Option<Builtin>)
    ensures
        r == builtin_spec(keysym, modifiers, menu_open),
{
    if KEY_SWITCH_VT_1 <= keysym && keysym <= KEY_SWITCH_VT_12 {
        Some(Builtin::SwitchVt(keysym - KEY_SWITCH_VT_1 + 1))
    } else if keysym == KEY_ESCAPE && modifiers == 0 && menu_open {
        Some(Builtin::DismissMenu)
    } else {
        None
    }
}

/// The first builtin among a key's keysyms.
pub fn first_builtin(syms: &Vec<u32>, modifiers: u32, menu_open: bool) -> (r: Option<Builtin>)
    ensures
        match r {
            Some(b) => exists|i: int|
                0 <= i < syms@.len() && builtin_spec(syms@[i], modifiers, menu_open) == Some(b)
                    && forall|j: int| 0 <= j < i ==> builtin_spec(syms@[j], modifiers, menu_open)
                    is None,
            None => forall|i: int|
                0 <= i < syms@.len() ==> builtin_spec(#[trigger] syms@[i], modifiers, menu_open)
                    is None,
        },
{
    let mut i: usize = 0;
    while i < syms.len()
        invariant
            i <= syms.len(),
            forall|j: int| 0 <= j < i ==> builtin_spec(#[trigger] syms@[j], modifiers, menu_open) is None,
        decreases syms.len() - i,
    {
        let b = builtin_binding(syms[i], modifiers, menu_open);
        if b.is_some() {
            return b;
        }
        i = i + 1;
    }
    None
}

/// A compositor keybind's chord.
#[derive(Debug, Clone, Copy, PartialEq, Eq, Structural)]
pub struct Chord {
    pub mods: u32,
    pub keysym: u32,
}

pub open spec fn chord_hits(binds: Seq<Chord>, i: int, mods: u32, syms: Seq<u32>) -> bool {
    binds[i].mods == mods && syms.contains(binds[i].keysym)
}

fn contains_u32(v: &Vec<u32>, x: u32) -> (r: bool)
    ensures
        r == v@.contains(x),
{
    let mut i: usize = 0;
    while i < v.len()
        invariant
            i <= v.len(),
            forall|j: int| 0 <= j < i ==> v@[j] != x,
        decreases v.len() - i,
    {
        if v[i] == x {
            assert(v@[i as int] == x);
            return true;
        }
        i = i + 1;
    }
    false
}

/// The index of the first keybind with modifiers `mods` and a keysym among
/// `syms`.
pub fn find_chord(binds: &Vec<Chord>, mods: u32, syms: &Vec<u32>) -> (r: Option<usize>)
    ensures
        match r {
            Some(i) => i < binds@.len() && chord_hits(binds@, i as int, mods, syms@) && forall|
                j: int,
            | 0 <= j < i ==> !chord_hits(binds@, j, mods, syms@),
            None => forall|i: int|
                0 <= i < binds@.len() ==> !chord_hits(binds@, i, mods, syms@),
        },
{
    let mut i: usize = 0;
    while i < binds.len()
        invariant
            i <= binds.len(),
            forall|j: int| 0 <= j < i ==> !chord_hits(binds@, j, mods, syms@),
        decreases binds.len() - i,
    {
        if binds[i].mods == mods && contains_u32(syms, binds[i].keysym) {
            return Some(i);
        }
        i = i + 1;
    }
    None
}

/// The compositor keybind a key press triggers: first by the keysyms of
/// the key's base level with the modifiers as held, then by the keysyms of
/// its current level with the modifiers that level consumed taken out.
pub fn match_keybind(
    binds: &Vec<Chord>,
    modifiers: u32,
    base_syms: &Vec<u32>,
    level_syms: &Vec<u32>,
    consumed: u32,
) -> (r: Option<usize>)
    ensures
        match r {
            Some(i) => i < binds@.len() && ((chord_hits(binds@, i as int, modifiers, base_syms@)
                && forall|j: int| 0 <= j < i ==> !chord_hits(binds@, j, modifiers, base_syms@)) || (
            (forall|j: int|
                0 <= j < binds@.len() ==> !chord_hits(binds@, j, modifiers, base_syms@))
                && chord_hits(binds@, i as int, modifiers & !consumed, level_syms@) && forall|
                j: int,
            | 0 <= j < i ==> !chord_hits(binds@, j, modifiers & !consumed, level_syms@))),
            None => forall|j: int|
                0 <= j < binds@.len() ==> !chord_hits(binds@, j, modifiers, base_syms@)
                    && !chord_hits(binds@, j, modifiers & !consumed, level_syms@),
        },
{
    match find_chord(binds, modifiers, base_syms) {
        Some(i) => Some(i),
        None => find_chord(binds, modifiers & !consumed, level_syms),
    }
}

/// What the window manager's xkb binding lookup found for a key.
#[derive(Debug, Clone, Copy, PartialEq, Eq, Structural)]
pub struct BindingHit {
    pub handle: u64,
    pub sent_pressed: bool,
}

/// Everything the consumer choice for a key press looks at.
#[derive(Debug, Clone, Copy, PartialEq, Eq, Structural)]
pub struct PressContext {
    pub builtin: bool,
    pub keybind: Option<usize>,
    pub binding: Option<BindingHit>,
    pub ensure_next_key_eaten: bool,
    pub has_non_modifier: bool,
    pub im_grab: bool,
}

pub open spec fn consumer_spec(c: PressContext) -> (KeyConsumer, bool) {
    if c.builtin {
        (KeyConsumer::Builtin, c.ensure_next_key_eaten)
    } else if c.keybind is Some {
        (KeyConsumer::CceBinding(c.keybind->0), c.ensure_next_key_eaten)
    } else if c.binding is Some {
        (
            KeyConsumer::Binding(
                if c.binding->0.sent_pressed {
                    None
                } else {
                    Some(c.binding->0.handle)
                },
            ),
            false,
        )
    } else if c.ensure_next_key_eaten {
        if c.has_non_modifier {
            (KeyConsumer::EnsureEaten, false)
        } else {
            (KeyConsumer::Focus, true)
        }
    } else if c.im_grab {
        (KeyConsumer::ImGrab, false)
    } else {
        (KeyConsumer::Focus, false)
    }
}

/// Who gets a key press, in priority order: a builtin, a compositor
/// keybind, a window manager binding, the eat-next-key request (only for a
/// key that is not a lone modifier), the input method grab, the focused
/// client. Also returns the eat-next-key flag afterwards.
pub fn choose_consumer(c: PressContext) -> (r: (KeyConsumer, bool))
    ensures
        r == consumer_spec(c),
{
    if c.builtin {
        (KeyConsumer::Builtin, c.ensure_next_key_eaten)
    } else if let Some(i) = c.keybind {
        (KeyConsumer::CceBinding(i), c.ensure_next_key_eaten)
    } else if let Some(b) = c.binding {
        (
            KeyConsumer::Binding(
                if b.sent_pressed {
                    None
                } else {
                    Some(b.handle)
                },
            ),
            false,
        )
    } else if c.ensure_next_key_eaten {
        if c.has_non_modifier {
            (KeyConsumer::EnsureEaten, false)
        } else {
            (KeyConsumer::Focus, true)
        }
    } else if c.im_grab {
        (KeyConsumer::ImGrab, false)
    } else {
        (KeyConsumer::Focus, false)
    }
}

/// Whether a key event for the focused client is delivered: always outside
/// overview, always for chrome (overlay and popup surfaces) and for
/// releases; a press on a world window in overview is eaten.
pub fn forward_to_focus(overview: bool, focus_is_chrome: bool, released: bool) -> (r: bool)
    ensures
        r == (!overview || focus_is_chrome || released),
{
    !overview || focus_is_chrome || released
}

/// Whether a modifier change touches the modifiers the window manager
/// watches.
pub fn watched_mods_changed(old_mods: u32, new_mods: u32, watched: u32) -> (r: bool)
    ensures
        r == ((old_mods & watched) != (new_mods & watched)),
{
    (old_mods & watched) != (new_mods & watched)
}

/// What a key event does once its consumer is known.
#[derive(Debug, Clone, Copy, PartialEq, Eq, Structural)]
pub enum KeyDispatch {
    /// Nothing more.
    Nothing,
    /// Run the compositor keybind at this index of the keybind list.
    RunKeybind(usize),
    /// Tell the window manager binding with this handle it was pressed.
    BindingPressed(u64),
    /// Tell the window manager binding with this handle it was released.
    BindingReleased(u64),
    /// Record that the window manager's eat-next-key request ate a key.
    AteUnboundKey,
    /// Send the event to the input method's keyboard grab.
    ToImGrab,
    /// Send the event to the focused client.
    ToFocus,
}

/// The dispatch of a key event (`pressed` for a press, else a release) to
/// its consumer: a builtin was already handled; a compositor keybind runs
/// on the press; a window manager binding hears both press and release
/// (none when it had already been sent as pressed); an eaten key is
/// recorded on the press; the input method grab gets both; the focused
/// client gets the event unless `forward_to_focus` eats it.
pub open spec fn dispatch_spec(
    consumer: KeyConsumer,
    pressed: bool,
    overview: bool,
    focus_is_chrome: bool,
) -> KeyDispatch {
    match consumer {
        KeyConsumer::Builtin => KeyDispatch::Nothing,
        KeyConsumer::CceBinding(i) => if pressed {
            KeyDispatch::RunKeybind(i)
        } else {
            KeyDispatch::Nothing
        },
        KeyConsumer::Binding(Some(h)) => if pressed {
            KeyDispatch::BindingPressed(h)
        } else {
            KeyDispatch::BindingReleased(h)
        },
        KeyConsumer::Binding(None) => KeyDispatch::Nothing,
        KeyConsumer::EnsureEaten => if pressed {
            KeyDispatch::AteUnboundKey
        } else {
            KeyDispatch::Nothing
        },
        KeyConsumer::ImGrab => KeyDispatch::ToImGrab,
        KeyConsumer::Focus => if !overview || focus_is_chrome || !pressed {
            KeyDispatch::ToFocus
        } else {
            KeyDispatch::Nothing
        },
    }
}

pub fn dispatch_key(consumer: KeyConsumer, pressed: bool, overview: bool, focus_is_chrome: bool) -> (r:
    KeyDispatch)
    ensures
        r == dispatch_spec(consumer, pressed, overview, focus_is_chrome),
{
    match consumer {
        KeyConsumer::Builtin => KeyDispatch::Nothing,
        KeyConsumer::CceBinding(i) => if pressed {
            KeyDispatch::RunKeybind(i)
        } else {
            KeyDispatch::Nothing
        },
        KeyConsumer::Binding(Some(h)) => if pressed {
            KeyDispatch::BindingPressed(h)
        } else {
            KeyDispatch::BindingReleased(h)
        },
        KeyConsumer::Binding(None) => KeyDispatch::Nothing,
        KeyConsumer::EnsureEaten => if pressed {
            KeyDispatch::AteUnboundKey
        } else {
            KeyDispatch::Nothing
        },
        KeyConsumer::ImGrab => KeyDispatch::ToImGrab,
        KeyConsumer::Focus => if forward_to_focus(overview, focus_is_chrome, !pressed) {
            KeyDispatch::ToFocus
        } else {
            KeyDispatch::Nothing
        },
    }
}

/// A key's release reaches whoever heard its press: a window manager
/// binding that heard the press hears the release, a key sent to the
/// focused client or the input method grab has its release sent there too
/// (even in overview), and a keybind or eaten key has no release to send.
pub proof fn lemma_release_follows_press(
    consumer: KeyConsumer,
    overview: bool,
    focus_is_chrome: bool,
)
    ensures
        dispatch_spec(consumer, true, overview, focus_is_chrome) matches KeyDispatch::BindingPressed(
            h,
        ) ==> dispatch_spec(consumer, false, overview, focus_is_chrome)
            == KeyDispatch::BindingReleased(h),
        dispatch_spec(consumer, true, overview, focus_is_chrome) == KeyDispatch::ToFocus
            ==> dispatch_spec(consumer, false, overview, focus_is_chrome) == KeyDispatch::ToFocus,
        dispatch_spec(consumer, true, overview, focus_is_chrome) == KeyDispatch::ToImGrab
            ==> dispatch_spec(consumer, false, overview, focus_is_chrome) == KeyDispatch::ToImGrab,
        consumer == KeyConsumer::Focus ==> dispatch_spec(consumer, false, overview, focus_is_chrome)
            == KeyDispatch::ToFocus,
{
}

} // verus!
