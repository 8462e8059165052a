use vstd::prelude::*;

use crate::text::{chars_of, occurs_at, starts_with, starts_with_str, sub_vec};

verus! {

/// A box in layout coordinates (`wlr_box`).
#[derive(Debug, Clone, Copy, PartialEq, Eq, Structural)]
pub struct LayoutBox {
    pub x: i32,
    pub y: i32,
    pub width: i32,
    pub height: i32,
}

/// The layer-shell keyboard focus a seat is given, naming the layer
/// surface by its key.
#[derive(Debug, Clone, Copy, PartialEq, Eq, Structural)]
pub enum LayerShellSeatFocus {
    Exclusive(u64),
    NonExclusive(u64),
    NoFocus,
}

/// The four layer-shell layers, bottom to top.
#[derive(Debug, Clone, Copy, PartialEq, Eq, Structural)]
pub enum Layer {
    Background,
    Bottom,
    Top,
    Overlay,
}

/// The area left for windows, as scheduled by the last arrangement.
#[derive(Debug, Clone, Copy, PartialEq, Eq, Structural)]
pub struct LayerShellOutputScheduled {
    pub non_exclusive_area: LayoutBox,
}

/// The area last sent to the window manager, if any.
#[derive(Debug, Clone, Copy, PartialEq, Eq, Structural)]
pub struct LayerShellOutputSent {
    pub non_exclusive_area: Option<LayoutBox>,
}

/// Whether the window manager asked for this output to be the default one
/// for layer surfaces that name none.
#[derive(Debug, Clone, Copy, PartialEq, Eq, Structural)]
pub struct LayerShellOutputRequested {
    pub default: bool,
}

/// The per-output layer-shell state.
#[derive(Debug, Clone, Copy, PartialEq, Eq, Structural)]
pub struct LayerShellOutput {
    /// The window manager holds the output's protocol object.
    pub has_object: bool,
    pub scheduled: LayerShellOutputScheduled,
    pub sent: LayerShellOutputSent,
    pub requested: LayerShellOutputRequested,
}

/// The per-seat layer-shell state.
#[derive(Debug, Clone, Copy, PartialEq, Eq, Structural)]
pub struct LayerShellSeat {
    /// The window manager holds the seat's protocol object.
    pub has_object: bool,
    pub scheduled_focus: LayerShellSeatFocus,
    pub sent_focus: LayerShellSeatFocus,
}

impl LayerShellSeat {
    /// No object, no focus scheduled or sent.
    pub fn new() -> (s: LayerShellSeat)
        ensures
            !s.has_object,
            s.scheduled_focus == LayerShellSeatFocus::NoFocus,
            s.sent_focus == LayerShellSeatFocus::NoFocus,
    {
        LayerShellSeat {
            has_object: false,
            scheduled_focus: LayerShellSeatFocus::NoFocus,
            sent_focus: LayerShellSeatFocus::NoFocus,
        }
    }

    /// Tell the window manager about a changed focus: returns the focus
    /// event to post (only when the focus changed and there is an object to
    /// post it on); afterwards the sent focus is the scheduled one.
    pub fn manage_start(&mut self) -> (event: Option<LayerShellSeatFocus>)
        ensures
            event == manage_event(*old(self)),
            *final(self) == after_manage(*old(self)),
    {
        if self.scheduled_focus != self.sent_focus {
            let ev = if self.has_object {
                Some(self.scheduled_focus)
            } else {
                None
            };
            self.sent_focus = self.scheduled_focus;
            ev
        } else {
            None
        }
    }

    /// The window manager's seat object was destroyed.
    pub fn object_destroyed(&mut self)
        ensures
            *final(self) == (LayerShellSeat { has_object: false, ..*old(self) }),
    {
        self.has_object = false;
    }
}

/// The focus event a seat posts when the window manager is told about its
/// focus: the scheduled focus, when it changed and there is an object to
/// post it on.
pub open spec fn manage_event(s: LayerShellSeat) -> Option<LayerShellSeatFocus> {
    if s.scheduled_focus != s.sent_focus && s.has_object {
        Some(s.scheduled_focus)
    } else {
        None
    }
}

/// A seat after the window manager was told about its focus: the sent
/// focus is the scheduled one.
pub open spec fn after_manage(s: LayerShellSeat) -> LayerShellSeat {
    LayerShellSeat { sent_focus: s.scheduled_focus, ..s }
}

/// Telling the window manager about the focus twice in a row sends nothing
/// the second time, and changes nothing more.
pub proof fn lemma_seat_manage_idempotent(s: LayerShellSeat)
    ensures
        manage_event(after_manage(s)) is None,
        after_manage(after_manage(s)) == after_manage(s),
{
}

/// Half of `v`, rounded toward zero (integer division by two).
pub open spec fn half(v: i32) -> int {
    if v >= 0 {
        v as int / 2
    } else {
        -((-v) / 2)
    }
}

fn half_exec(v: i32) -> (r: i64)
    ensures
        r == half(v),
{
    let w = v as i64;
    if w >= 0 {
        w / 2
    } else {
        -((-w) / 2)
    }
}

pub open spec fn boxes_differ(a: LayoutBox, b: LayoutBox) -> bool {
    a.x != b.x || a.y != b.y || a.width != b.width || a.height != b.height
}

impl LayerShellOutput {
    /// No object, a zero area scheduled, nothing sent, not the default.
    pub fn new() -> (o: LayerShellOutput)
        ensures
            !o.has_object,
            o.scheduled.non_exclusive_area == (LayoutBox { x: 0, y: 0, width: 0, height: 0 }),
            o.sent.non_exclusive_area is None,
            !o.requested.default,
    {
        LayerShellOutput {
            has_object: false,
            scheduled: LayerShellOutputScheduled {
                non_exclusive_area: LayoutBox { x: 0, y: 0, width: 0, height: 0 },
            },
            sent: LayerShellOutputSent { non_exclusive_area: None },
            requested: LayerShellOutputRequested { default: false },
        }
    }

    /// The scheduled area differs from the one last sent (or none was).
    pub open spec fn area_changed_spec(&self) -> bool {
        match self.sent.non_exclusive_area {
            Some(b) => boxes_differ(b, self.scheduled.non_exclusive_area),
            None => true,
        }
    }

    pub fn area_changed(&self) -> (r: bool)
        ensures
            r == self.area_changed_spec(),
    {
        match self.sent.non_exclusive_area {
            Some(b) => b.x != self.scheduled.non_exclusive_area.x || b.y
                != self.scheduled.non_exclusive_area.y || b.width
                != self.scheduled.non_exclusive_area.width || b.height
                != self.scheduled.non_exclusive_area.height,
            None => true,
        }
    }

    /// Start an arrangement: the whole output box is available until the
    /// layer surfaces claim their exclusive zones.
    pub fn begin_arrange(&mut self, output_box: LayoutBox)
        ensures
            *final(self) == (LayerShellOutput {
                scheduled: LayerShellOutputScheduled { non_exclusive_area: output_box },
                ..*old(self)
            }),
    {
        self.scheduled.non_exclusive_area = output_box;
    }

    /// A layer surface was configured and left `new_area` for the rest.
    /// An area under half the output in either dimension is refused (the
    /// surface is to be closed, `false`); otherwise it becomes the
    /// scheduled area.
    pub fn accept_configured_area(
        &mut self,
        new_area: LayoutBox,
        output_width: i32,
        output_height: i32,
    ) -> (accepted: bool)
        ensures
            accepted == !(new_area.width < half(output_width) || new_area.height < half(
                output_height,
            )),
            accepted ==> *final(self) == (LayerShellOutput {
                scheduled: LayerShellOutputScheduled { non_exclusive_area: new_area },
                ..*old(self)
            }),
            !accepted ==> *final(self) == *old(self),
    {
        if (new_area.width as i64) < half_exec(output_width) || (new_area.height as i64)
            < half_exec(output_height) {
            return false;
        }
        self.scheduled.non_exclusive_area = new_area;
        true
    }

    /// The output's box moved or resized since it was last sent: the
    /// arrangement restarts from the new box (`true`: the layer surfaces
    /// are to be configured again).
    pub fn begin_manage(&mut self, scheduled_box: LayoutBox, sent_box: LayoutBox) -> (reconfigure:
        bool)
        ensures
            reconfigure == boxes_differ(scheduled_box, sent_box),
            reconfigure ==> *final(self) == (LayerShellOutput {
                scheduled: LayerShellOutputScheduled { non_exclusive_area: scheduled_box },
                ..*old(self)
            }),
            !reconfigure ==> *final(self) == *old(self),
    {
        let changed = scheduled_box.x != sent_box.x || scheduled_box.y != sent_box.y
            || scheduled_box.width != sent_box.width || scheduled_box.height != sent_box.height;
        if changed {
            self.begin_arrange(scheduled_box);
        }
        changed
    }

    /// Send the window manager a changed area: returns the area event to
    /// post (only with an object to post it on); afterwards the sent area
    /// is the scheduled one whenever it changed.
    pub fn finish_manage(&mut self) -> (event: Option<LayoutBox>)
        ensures
            event == (if old(self).area_changed_spec() && old(self).has_object {
                Some(old(self).scheduled.non_exclusive_area)
            } else {
                None
            }),
            old(self).area_changed_spec() ==> *final(self) == (LayerShellOutput {
                sent: LayerShellOutputSent {
                    non_exclusive_area: Some(old(self).scheduled.non_exclusive_area),
                },
                ..*old(self)
            }),
            !old(self).area_changed_spec() ==> *final(self) == *old(self),
            !final(self).area_changed_spec(),
    {
        if self.area_changed() {
            let ev = if self.has_object {
                Some(self.scheduled.non_exclusive_area)
            } else {
                None
            };
            self.sent.non_exclusive_area = Some(self.scheduled.non_exclusive_area);
            ev
        } else {
            None
        }
    }

    /// The window manager's output object was destroyed: nothing was sent
    /// to anyone, and it is no longer the default.
    pub fn object_destroyed(&mut self)
        ensures
            *final(self) == (LayerShellOutput {
                has_object: false,
                sent: LayerShellOutputSent { non_exclusive_area: None },
                requested: LayerShellOutputRequested { default: false },
                ..*old(self)
            }),
    {
        self.has_object = false;
        self.sent.non_exclusive_area = None;
        self.requested.default = false;
    }
}

/// Whether a layer surface takes part in the configure pass for an output:
/// mapped (or on its initial commit), on that output, and with an exclusive
/// zone exactly when the pass is the exclusive one.
pub fn takes_part_in_configure(
    mapped: bool,
    initial_commit: bool,
    on_output: bool,
    exclusive_zone: i32,
    exclusive_pass: bool,
) -> (r: bool)
    ensures
        r == ((mapped || initial_commit) && on_output && ((exclusive_zone > 0)
            == exclusive_pass)),
{
    if !mapped && !initial_commit {
        return false;
    }
    if !on_output {
        return false;
    }
    (exclusive_zone > 0) == exclusive_pass
}

/// The window manager sets output `idx` as the default: it becomes the only
/// default.
pub fn set_default_output(defaults: &mut Vec<bool>, idx: usize)
    requires
        idx < old(defaults).len(),
    ensures
        final(defaults)@.len() == old(defaults)@.len(),
        forall|i: int| 0 <= i < final(defaults)@.len() ==> final(defaults)@[i] == (i == idx),
{
    let n = defaults.len();
    let mut i: usize = 0;
    while i < n
        invariant
            n == defaults@.len(),
            i <= n,
            idx < n,
            forall|j: int| 0 <= j < i ==> defaults@[j] == false,
        decreases n - i,
    {
        defaults.set(i, false);
        i = i + 1;
    }
    defaults.set(idx, true);
}

/// The output a layer surface that names none goes on: the first the
/// window manager made default, else the first output, else none.
pub fn default_output(defaults: &Vec<bool>) -> (r: Option<usize>)
    ensures
        match r {
            Some(i) => i < defaults@.len() && ((defaults@[i as int] && forall|j: int|
                0 <= j < i ==> !defaults@[j]) || (i == 0 && forall|j: int|
                0 <= j < defaults@.len() ==> !defaults@[j])),
            None => defaults@.len() == 0,
        },
{
    let mut i: usize = 0;
    while i < defaults.len()
        invariant
            i <= defaults.len(),
            forall|j: int| 0 <= j < i ==> !defaults@[j],
        decreases defaults.len() - i,
    {
        if defaults[i] {
            return Some(i);
        }
        i = i + 1;
    }
    if defaults.len() > 0 {
        Some(0)
    } else {
        None
    }
}

/// A layer surface as the exclusive-focus search sees it.
#[derive(Debug, Clone, Copy, PartialEq, Eq, Structural)]
pub struct FocusCandidate {
    pub mapped: bool,
    pub exclusive_keyboard: bool,
    pub key: u64,
}

pub open spec fn wants_exclusive(c: FocusCandidate) -> bool {
    c.mapped && c.exclusive_keyboard
}

/// The exclusive-focus target within one layer's stack (bottom to top):
/// the topmost mapped surface that asks for exclusive keyboard focus.
pub open spec fn topmost_exclusive(stack: Seq<FocusCandidate>) -> Option<u64>
    decreases stack.len(),
{
    if stack.len() == 0 {
        None
    } else if wants_exclusive(stack.last()) {
        Some(stack.last().key)
    } else {
        topmost_exclusive(stack.drop_last())
    }
}

/// The topmost exclusive surface in `overlay`, else in `top`.
pub open spec fn exclusive_target_spec(overlay: Seq<FocusCandidate>, top: Seq<FocusCandidate>) -> Option<u64> {
    match topmost_exclusive(overlay) {
        Some(k) => Some(k),
        None => topmost_exclusive(top),
    }
}

fn topmost_exclusive_exec(stack: &Vec<FocusCandidate>) -> (r: Option<u64>)
    ensures
        r == topmost_exclusive(stack@),
{
    let mut i = stack.len();
    assert(stack@.take(i as int) == stack@);
    while i > 0
        invariant
            i <= stack.len(),
            topmost_exclusive(stack@) == topmost_exclusive(stack@.take(i as int)),
        decreases i,
    {
        let c = stack[i - 1];
        assert(stack@.take(i as int).last() == c);
        assert(stack@.take(i as int).drop_last() == stack@.take(i - 1));
        if c.mapped && c.exclusive_keyboard {
            return Some(c.key);
        }
        i = i - 1;
    }
    None
}

/// The layer surface that takes exclusive keyboard focus: the topmost
/// mapped exclusive one in the overlay layer, else in the top layer.
pub fn exclusive_focus_target(overlay: &Vec<FocusCandidate>, top: &Vec<FocusCandidate>) -> (r:
    Option<u64>)
    ensures
        r == exclusive_target_spec(overlay@, top@),
{
    match topmost_exclusive_exec(overlay) {
        Some(k) => Some(k),
        None => topmost_exclusive_exec(top),
    }
}

/// A seat's scheduled focus after the exclusive-focus check: the target
/// when there is one; otherwise an exclusive focus is dropped and any
/// other kept.
pub open spec fn after_exclusive_check(
    focus: LayerShellSeatFocus,
    target: Option<u64>,
) -> LayerShellSeatFocus {
    match target {
        Some(k) => LayerShellSeatFocus::Exclusive(k),
        None => match focus {
            LayerShellSeatFocus::Exclusive(_) => LayerShellSeatFocus::NoFocus,
            _ => focus,
        },
    }
}

pub fn apply_exclusive_check(seat: &mut LayerShellSeat, target: Option<u64>)
    ensures
        *final(seat) == (LayerShellSeat {
            scheduled_focus: after_exclusive_check(old(seat).scheduled_focus, target),
            ..*old(seat)
        }),
{
    match target {
        Some(k) => {
            seat.scheduled_focus = LayerShellSeatFocus::Exclusive(k);
        },
        None => {
            if let LayerShellSeatFocus::Exclusive(_) = seat.scheduled_focus {
                seat.scheduled_focus = LayerShellSeatFocus::NoFocus;
            }
        },
    }
}

/// A seat's focus after a surface with on-demand keyboard interactivity
/// mapped: the surface's, unless the seat holds an exclusive focus.
pub open spec fn focus_after_map(f: LayerShellSeatFocus, key: u64) -> LayerShellSeatFocus {
    match f {
        LayerShellSeatFocus::Exclusive(k) => LayerShellSeatFocus::Exclusive(k),
        _ => LayerShellSeatFocus::NonExclusive(key),
    }
}

/// A seat's focus after a surface unmapped: none, if it held the surface's
/// non-exclusive focus.
pub open spec fn focus_after_unmap(f: LayerShellSeatFocus, key: u64) -> LayerShellSeatFocus {
    if f == LayerShellSeatFocus::NonExclusive(key) {
        LayerShellSeatFocus::NoFocus
    } else {
        f
    }
}

/// A surface with on-demand keyboard interactivity mapped: it gets the
/// focus of every seat that does not hold an exclusive one.
pub fn focus_on_map(seat: &mut LayerShellSeat, key: u64)
    ensures
        *final(seat) == (LayerShellSeat {
            scheduled_focus: focus_after_map(old(seat).scheduled_focus, key),
            ..*old(seat)
        }),
{
    match seat.scheduled_focus {
        LayerShellSeatFocus::Exclusive(_) => {},
        _ => {
            seat.scheduled_focus = LayerShellSeatFocus::NonExclusive(key);
        },
    }
}

/// A surface unmapped: a seat whose non-exclusive focus it held loses it.
pub fn unfocus_on_unmap(seat: &mut LayerShellSeat, key: u64)
    ensures
        *final(seat) == (LayerShellSeat {
            scheduled_focus: focus_after_unmap(old(seat).scheduled_focus, key),
            ..*old(seat)
        }),
{
    if let LayerShellSeatFocus::NonExclusive(k) = seat.scheduled_focus {
        if k == key {
            seat.scheduled_focus = LayerShellSeatFocus::NoFocus;
        }
    }
}

/// A surface that is mapped and then unmapped leaves no non-exclusive
/// focus behind on a seat.
pub proof fn lemma_map_unmap_leaves_no_focus(f: LayerShellSeatFocus, key: u64)
    ensures
        focus_after_unmap(focus_after_map(f, key), key) != LayerShellSeatFocus::NonExclusive(key),
{
}

/// Whether any seat's scheduled focus changed: the window manager is to be
/// re-run then, and only the frame redrawn otherwise.
pub fn any_focus_changed(before: &Vec<LayerShellSeatFocus>, after: &Vec<LayerShellSeatFocus>) -> (r:
    bool)
    requires
        before@.len() == after@.len(),
    ensures
        r == exists|i: int| 0 <= i < before@.len() && before@[i] != after@[i],
{
    let mut i: usize = 0;
    while i < before.len()
        invariant
            before@.len() == after@.len(),
            i <= before.len(),
            forall|j: int| 0 <= j < i ==> before@[j] == after@[j],
        decreases before.len() - i,
    {
        if before[i] != after[i] {
            return true;
        }
        i = i + 1;
    }
    false
}

/// Layer surfaces are served only when the window manager has bound the
/// layer shell: with no window manager object, always; otherwise when one
/// of the layer-shell objects belongs to the window manager's client.
pub fn supported(wm_client: Option<u64>, object_clients: &Vec<u64>) -> (r: bool)
    ensures
        r == match wm_client {
            None => true,
            Some(c) => object_clients@.contains(c),
        },
{
    match wm_client {
        None => true,
        Some(c) => {
            let mut i: usize = 0;
            while i < object_clients.len()
                invariant
                    wm_client == Some(c),
                    i <= object_clients.len(),
                    forall|j: int| 0 <= j < i ==> object_clients@[j] != c,
                decreases object_clients.len() - i,
            {
                if object_clients[i] == c {
                    assert(object_clients@[i as int] == c);
                    assert(object_clients@.contains(c));
                    return true;
                }
                i = i + 1;
            }
            assert(!object_clients@.contains(c));
            false
        },
    }
}

/// How a layer surface's namespace relates it to the cloud launcher:
/// whether it is a cloud surface, and the app it is a popup of
/// (`cce-cloud:<app-id>`).
pub open spec fn cloud_parent_spec(ns: Seq<char>) -> (bool, Option<Seq<char>>) {
    if starts_with(ns, "cce-cloud"@) {
        if starts_with(ns, "cce-cloud:"@) {
            (true, Some(ns.skip(("cce-cloud:"@).len() as int)))
        } else {
            (true, None)
        }
    } else {
        (false, None)
    }
}

pub fn cloud_parent(ns: &str) -> (r: (bool, Option<Vec<char>>))
    ensures
        r.0 == cloud_parent_spec(ns@).0,
        match (r.1, cloud_parent_spec(ns@).1) {
            (Some(a), Some(b)) => a@ == b,
            (None, None) => true,
            _ => false,
        },
{
    let v = chars_of(ns);
    if starts_with_str(&v, "cce-cloud") {
        if starts_with_str(&v, "cce-cloud:") {
            let p = chars_of("cce-cloud:");
            let rest = sub_vec(&v, p.len(), v.len());
            assert(rest@ == v@.skip(("cce-cloud:"@).len() as int));
            (true, Some(rest))
        } else {
            (true, None)
        }
    } else {
        (false, None)
    }
}

/// What closing a focused layer surface does to the keyboard focus.
#[derive(Debug, Clone, PartialEq, Eq)]
pub enum UnmapRefocus {
    /// Hand the keyboard back to the window of this app.
    Parent(Vec<char>),
    /// Leave the seat unfocused.
    Stay,
    /// Focus the next visible window.
    NextWindow,
}

pub open spec fn refocus_spec(ns: Option<Seq<char>>) -> (int, Seq<char>) {
    match ns {
        None => (2, Seq::empty()),
        Some(n) => {
            let (is_cloud, parent) = cloud_parent_spec(n);
            match parent {
                Some(p) => if starts_with(p, "cce-status"@) {
                    (1, Seq::empty())
                } else {
                    (0, p)
                },
                None => if is_cloud {
                    (1, Seq::empty())
                } else {
                    (2, Seq::empty())
                },
            }
        },
    }
}

/// The refocus decision when a focused layer surface unmaps, from its
/// namespace: a popup of a cloud app gives the keyboard back to that app
/// (status-bar submenus excepted, which leave the seat unfocused); the bare
/// cloud launcher leaves the seat unfocused; anything else focuses the
/// next visible window.
pub fn unmap_refocus(ns: Option<&str>) -> (r: UnmapRefocus)
    ensures
        match r {
            UnmapRefocus::Parent(p) => refocus_spec(
                match ns {
                    Some(s) => Some(s@),
                    None => None,
                },
            ) == (0int, p@),
            UnmapRefocus::Stay => refocus_spec(
                match ns {
                    Some(s) => Some(s@),
                    None => None,
                },
            ).0 == 1,
            UnmapRefocus::NextWindow => refocus_spec(
                match ns {
                    Some(s) => Some(s@),
                    None => None,
                },
            ).0 == 2,
        },
{
    match ns {
        None => UnmapRefocus::NextWindow,
        Some(s) => {
            let (is_cloud, parent) = cloud_parent(s);
            match parent {
                Some(p) => {
                    if starts_with_str(&p, "cce-status") {
                        UnmapRefocus::Stay
                    } else {
                        UnmapRefocus::Parent(p)
                    }
                },
                None => if is_cloud {
                    UnmapRefocus::Stay
                } else {
                    UnmapRefocus::NextWindow
                },
            }
        },
    }
}

/// The blur a committed layer surface gets.
#[derive(Debug, Clone, Copy, PartialEq, Eq, Structural)]
pub struct BlurParams {
    pub enabled: bool,
    pub optimized: bool,
    pub ignore_transparent: bool,
}

/// The blur settings a layer surface above the background gets: the status
/// bar follows its own settings and never uses the cached (optimized) blur;
/// neither do surfaces in the top or overlay layers, which sit above
/// windows whose updates would re-dirty the cache every frame; the rest
/// follow the window settings and the configured cache choice.
pub fn blur_params(
    layer: Layer,
    is_status: bool,
    window_blur: bool,
    window_ignore_transparent: bool,
    status_blur: bool,
    status_ignore_transparent: bool,
    optimized_configured: bool,
) -> (r: BlurParams)
    ensures
        r.enabled == (if is_status {
            status_blur
        } else {
            window_blur
        }),
        r.ignore_transparent == (if is_status {
            status_ignore_transparent
        } else {
            window_ignore_transparent
        }),
        r.optimized == (!is_status && layer != Layer::Top && layer != Layer::Overlay
            && optimized_configured),
{
    let enabled = if is_status {
        status_blur
    } else {
        window_blur
    };
    let ignore_transparent = if is_status {
        status_ignore_transparent
    } else {
        window_ignore_transparent
    };
    let above_windows = layer == Layer::Top || layer == Layer::Overlay;
    let optimized = if is_status || above_windows {
        false
    } else {
        optimized_configured
    };
    BlurParams { enabled, optimized, ignore_transparent }
}

/// Whether a namespace is the status bar's.
pub fn is_status_namespace(ns: &str) -> (r: bool)
    ensures
        r == (ns@ == "cce-status"@ || ns@ == "cce-status-interface"@),
{
    crate::text::str_eq(ns, "cce-status") || crate::text::str_eq(ns, "cce-status-interface")
}

/// Layer-surface margins (top, right, left).
#[derive(Debug, Clone, Copy, PartialEq, Eq, Structural)]
pub struct Margins {
    pub top: i32,
    pub right: i32,
    pub left: i32,
}

pub open spec fn parent_margins_spec(
    align_right: bool,
    parent_x: int,
    parent_y: int,
    parent_w: int,
    output_x: int,
    output_y: int,
    output_w: int,
    m: Margins,
) -> (int, int, int) {
    let rel_x = parent_x - output_x;
    let rel_y = parent_y - output_y;
    let right = if align_right {
        (output_w - rel_x - parent_w) + m.right
    } else {
        m.right as int
    };
    let left = if align_right {
        m.left as int
    } else {
        rel_x + m.left
    };
    (rel_y + m.top, right, left)
}

/// A cloud popup is placed relative to its parent window: its margins are
/// offset by the parent's position within the output (from the right edge
/// when the popup is anchored right, from the left otherwise).
pub fn parent_margins(
    align_right: bool,
    parent_x: i32,
    parent_y: i32,
    parent_w: i32,
    output_x: i32,
    output_y: i32,
    output_w: i32,
    m: Margins,
) -> (r: Margins)
    requires
        ({
            let s = parent_margins_spec(
                align_right,
                parent_x as int,
                parent_y as int,
                parent_w as int,
                output_x as int,
                output_y as int,
                output_w as int,
                m,
            );
            &&& crate::geometry::fits_i32(parent_x - output_x)
            &&& crate::geometry::fits_i32(parent_y - output_y)
            &&& crate::geometry::fits_i32(output_w - (parent_x - output_x))
            &&& crate::geometry::fits_i32(output_w - (parent_x - output_x) - parent_w)
            &&& crate::geometry::fits_i32(s.0)
            &&& crate::geometry::fits_i32(s.1)
            &&& crate::geometry::fits_i32(s.2)
        }),
    ensures
        (r.top as int, r.right as int, r.left as int) == parent_margins_spec(
            align_right,
            parent_x as int,
            parent_y as int,
            parent_w as int,
            output_x as int,
            output_y as int,
            output_w as int,
            m,
        ),
{
    let rel_x = parent_x - output_x;
    let rel_y = parent_y - output_y;
    let mut out = m;
    if align_right {
        out.right = (output_w - rel_x - parent_w) + m.right;
    } else {
        out.left = rel_x + m.left;
    }
    out.top = rel_y + m.top;
    out
}

} // verus!
