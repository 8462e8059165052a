use vstd::prelude::*;

use crate::config::{
    GestureBindConfig, GesturesConfig, KeybindConfig, ModeRuleConfig, OutputConfig,
    PointerBindConfig, StartupConfig, TagLayoutConfig,
};
use crate::kdl_doc::{
    document_nodes, kdl_parse, parse_document, child_arg, child_nodes, children_of, find_last_typed,
    find_node, find_prop, first_from, first_index, first_such, flag_of, flag_or, get_child_arg_bool,
    get_child_arg_bool_opt, get_child_arg_i64, get_child_arg_string, get_child_arg_string_opt,
    get_child_arg_vec2i_opt, get_child_args_string_vec_opt, get_nested_prop_bool,
    get_nested_prop_i64, get_nested_prop_i64_opt, get_nested_prop_string, get_prop_bool,
    get_prop_bool_opt, get_prop_i64, get_prop_i64_opt, get_prop_string, get_prop_string_opt, int_of,
    int_or, last_flag, last_index, last_int, last_text, last_typed, lemma_first_from_bounds, named,
    named_with_arg, nested_prop, opt_index, opt_text, positional_texts, prop, prop_named, text_of, text_or, texts, typed_prop,
    vec2i_node, vec2i_of, Entry, Node, ValueKind,
};
use crate::config::{
    default_bar_height, default_bevel_color, default_bevel_enabled, default_bevel_focus_color,
    default_bevel_light, default_border_color, default_border_corner_radius,
    default_border_segment_gap, default_border_width, default_cascade_offset,
    default_desktop_cell_color, default_desktop_cell_fade_inset, default_desktop_cell_labels,
    default_desktop_edge_pan, default_desktop_edge_pan_band, default_desktop_edge_pan_speed,
    default_desktop_gap_color, default_desktop_gap_width, default_desktop_grid_fade_mode,
    default_desktop_grid_scale, default_desktop_overview_ms, default_desktop_snap,
    default_desktop_snap_threshold, default_fade_in_ms, default_fade_out_ms, default_gap,
    default_gap_bottom, default_gap_left, default_gap_right, default_gap_top, default_grid_gap,
    default_overlay_behavior, default_overlay_border_gap, default_overlay_position,
    default_overlay_width, default_root_plate_color, default_root_plate_corner_radius,
    default_shadow_color, default_shadow_enabled, default_shadow_offset_x, default_shadow_offset_y,
    default_shadow_tiled, default_status_backdrop_blur_ignore_transparent,
    default_status_module_hide_mode_preview, default_status_normal_color,
    default_transition_duration, default_window_backdrop_blur_ignore_transparent,
    default_window_blur, default_window_opacity,
};
use crate::idle::IdleConfig;
use crate::text::{
    chars_eq_str, chars_of, dec_int, lemma_lacks_contains, starts_with, starts_with_str, i64_to_dec, push_chars, push_str,
    str_eq, string_of, sub_vec,
};

verus! {

// ---------------------------------------------------------------------------
// Key bindings
// ---------------------------------------------------------------------------

impl View for KeybindConfig {
    type V = (Seq<char>, Seq<char>, Seq<char>, Option<Seq<char>>);

    open spec fn view(&self) -> Self::V {
        (self.mods@, self.key@, self.action@, opt_text(self.command))
    }
}

/// The views of a sequence of key bindings.
pub open spec fn keybind_views(s: Seq<KeybindConfig>) -> Seq<
    (Seq<char>, Seq<char>, Seq<char>, Option<Seq<char>>),
> {
    s.map_values(|k: KeybindConfig| k@)
}

/// The binding a node writes with its `mods`, `key`, `action` and `command`
/// properties (a missing one of the first three reads as empty).
pub open spec fn bind_view(n: Node) -> (Seq<char>, Seq<char>, Seq<char>, Option<Seq<char>>) {
    (
        text_or(prop(n, "mods"@), ""@),
        text_or(prop(n, "key"@), ""@),
        text_or(prop(n, "action"@), ""@),
        text_of(prop(n, "command"@)),
    )
}

/// The bindings of the `bind` nodes among `cs`, in order.
pub open spec fn binds_in(cs: Seq<Node>) -> Seq<(Seq<char>, Seq<char>, Seq<char>, Option<Seq<char>>)>
    decreases cs.len(),
{
    if cs.len() == 0 {
        Seq::empty()
    } else {
        binds_in(cs.drop_last()) + if cs.last().name@ == "bind"@ {
            seq![bind_view(cs.last())]
        } else {
            Seq::empty()
        }
    }
}

/// The bindings a `key_bindings` node gives: those of its `bind` children,
/// or, when it has no children block, the one it writes itself.
pub open spec fn keybinds_of_node(n: Node) -> Seq<
    (Seq<char>, Seq<char>, Seq<char>, Option<Seq<char>>),
> {
    if n.name@ == "key_bindings"@ {
        if n.children is Some {
            binds_in(child_nodes(n))
        } else {
            seq![bind_view(n)]
        }
    } else {
        Seq::empty()
    }
}

/// The bindings of all `key_bindings` nodes among `ns`, in order.
pub open spec fn keybinds_in(ns: Seq<Node>) -> Seq<
    (Seq<char>, Seq<char>, Seq<char>, Option<Seq<char>>),
>
    decreases ns.len(),
{
    if ns.len() == 0 {
        Seq::empty()
    } else {
        keybinds_in(ns.drop_last()) + keybinds_of_node(ns.last())
    }
}

/// The binding that `n` writes with its properties.
pub fn bind_from(n: &Node) -> (k: KeybindConfig)
    ensures
        k@ == bind_view(*n),
{
    KeybindConfig {
        mods: get_prop_string(n, "mods", ""),
        key: get_prop_string(n, "key", ""),
        action: get_prop_string(n, "action", ""),
        command: get_prop_string_opt(n, "command"),
    }
}

fn push_binds_in(out: &mut Vec<KeybindConfig>, cs: &Vec<Node>)
    ensures
        keybind_views(final(out)@) == keybind_views(old(out)@) + binds_in(cs@),
{
    let ghost start = keybind_views(out@);
    let mut i: usize = 0;
    while i < cs.len()
        invariant
            0 <= i <= cs.len(),
            keybind_views(out@) == start + binds_in(cs@.subrange(0, i as int)),
        decreases cs.len() - i,
    {
        let ghost before = out@;
        assert(cs@.subrange(0, i as int + 1).drop_last() == cs@.subrange(0, i as int));
        if str_eq(cs[i].name.as_str(), "bind") {
            let k = bind_from(&cs[i]);
            out.push(k);
            assert(keybind_views(out@) == keybind_views(before).push(k@));
        }
        assert(keybind_views(out@) == start + binds_in(cs@.subrange(0, i as int + 1)));
        i = i + 1;
    }
    assert(cs@.subrange(0, cs.len() as int) == cs@);
}

fn push_keybinds_of_node(out: &mut Vec<KeybindConfig>, n: &Node)
    ensures
        keybind_views(final(out)@) == keybind_views(old(out)@) + keybinds_of_node(*n),
{
    if str_eq(n.name.as_str(), "key_bindings") {
        if n.children.is_some() {
            let cs = children_of(n);
            push_binds_in(out, &cs);
        } else {
            let ghost before = out@;
            let k = bind_from(n);
            out.push(k);
            assert(keybind_views(out@) == keybind_views(before).push(k@));
        }
    } else {
        assert(keybind_views(out@) == keybind_views(out@) + Seq::<
            (Seq<char>, Seq<char>, Seq<char>, Option<Seq<char>>),
        >::empty());
    }
}

/// The bindings of all `key_bindings` nodes among `ns`, in order.
pub fn keybinds_from(ns: &Vec<Node>) -> (r: Vec<KeybindConfig>)
    ensures
        keybind_views(r@) == keybinds_in(ns@),
{
    let mut out: Vec<KeybindConfig> = Vec::new();
    let mut i: usize = 0;
    while i < ns.len()
        invariant
            0 <= i <= ns.len(),
            keybind_views(out@) == keybinds_in(ns@.subrange(0, i as int)),
        decreases ns.len() - i,
    {
        assert(ns@.subrange(0, i as int + 1).drop_last() == ns@.subrange(0, i as int));
        push_keybinds_of_node(&mut out, &ns[i]);
        i = i + 1;
    }
    assert(ns@.subrange(0, ns.len() as int) == ns@);
    out
}


// ---------------------------------------------------------------------------
// `pointer_bind` nodes
// ---------------------------------------------------------------------------

impl View for PointerBindConfig {
    type V = (Seq<char>, Seq<char>, Seq<char>);

    open spec fn view(&self) -> Self::V {
        (self.mods@, self.button@, self.action@)
    }
}

/// A `pointer_bind` node: its `mods`, `button` and `action` properties.
pub open spec fn pointer_bind_view(n: Node) -> (Seq<char>, Seq<char>, Seq<char>) {
    (
        text_or(prop(n, "mods"@), ""@),
        text_or(prop(n, "button"@), ""@),
        text_or(prop(n, "action"@), ""@),
    )
}

/// The entries of all `pointer_bind` nodes among `ns`, in order.
pub open spec fn pointer_binds_in(ns: Seq<Node>) -> Seq<(Seq<char>, Seq<char>, Seq<char>)>
    decreases ns.len(),
{
    if ns.len() == 0 {
        Seq::empty()
    } else {
        pointer_binds_in(ns.drop_last()) + if ns.last().name@ == "pointer_bind"@ {
            seq![pointer_bind_view(ns.last())]
        } else {
            Seq::empty()
        }
    }
}

fn pointer_bind_view_from(n: &Node) -> (r: PointerBindConfig)
    ensures
        r@ == pointer_bind_view(*n),
{
    PointerBindConfig {
        mods: get_prop_string(n, "mods", ""),
        button: get_prop_string(n, "button", ""),
        action: get_prop_string(n, "action", ""),
    }
}

/// The entries of all `pointer_bind` nodes among `ns`, in order.
pub fn pointer_binds_from(ns: &Vec<Node>) -> (r: Vec<PointerBindConfig>)
    ensures
        r@.map_values(|x: PointerBindConfig| x@) == pointer_binds_in(ns@),
{
    let mut out: Vec<PointerBindConfig> = Vec::new();
    let mut i: usize = 0;
    while i < ns.len()
        invariant
            0 <= i <= ns.len(),
            out@.map_values(|x: PointerBindConfig| x@) == pointer_binds_in(ns@.subrange(0, i as int)),
        decreases ns.len() - i,
    {
        let ghost before = out@;
        assert(ns@.subrange(0, i as int + 1).drop_last() == ns@.subrange(0, i as int));
        if str_eq(ns[i].name.as_str(), "pointer_bind") {
            let x = pointer_bind_view_from(&ns[i]);
            out.push(x);
            assert(out@.map_values(|x: PointerBindConfig| x@) == before.map_values(|x: PointerBindConfig| x@).push(x@));
        }
        assert(out@.map_values(|x: PointerBindConfig| x@) == pointer_binds_in(ns@.subrange(0, i as int + 1)));
        i = i + 1;
    }
    assert(ns@.subrange(0, ns.len() as int) == ns@);
    out
}

// ---------------------------------------------------------------------------
// `gesture_bind` nodes
// ---------------------------------------------------------------------------

impl View for GestureBindConfig {
    type V = (Option<Seq<char>>, Seq<char>, u32, Seq<char>, Seq<char>, Option<Seq<char>>);

    open spec fn view(&self) -> Self::V {
        (opt_text(self.mods), self.gesture_type@, self.fingers, self.direction@, self.action@, opt_text(self.command))
    }
}

/// A `gesture_bind` node: its `mods`, `type`, `fingers` (taken to 32 bits), `direction`,
/// `action` and `command` properties.
pub open spec fn gesture_bind_view(n: Node) -> (Option<Seq<char>>, Seq<char>, u32, Seq<char>, Seq<char>, Option<Seq<char>>) {
    (
        text_of(prop(n, "mods"@)),
        text_or(prop(n, "type"@), ""@),
        int_or(prop(n, "fingers"@), 0) as u32,
        text_or(prop(n, "direction"@), ""@),
        text_or(prop(n, "action"@), ""@),
        text_of(prop(n, "command"@)),
    )
}

/// The entries of all `gesture_bind` nodes among `ns`, in order.
pub open spec fn gesture_binds_in(ns: Seq<Node>) -> Seq<(Option<Seq<char>>, Seq<char>, u32, Seq<char>, Seq<char>, Option<Seq<char>>)>
    decreases ns.len(),
{
    if ns.len() == 0 {
        Seq::empty()
    } else {
        gesture_binds_in(ns.drop_last()) + if ns.last().name@ == "gesture_bind"@ {
            seq![gesture_bind_view(ns.last())]
        } else {
            Seq::empty()
        }
    }
}

fn gesture_bind_view_from(n: &Node) -> (r: GestureBindConfig)
    ensures
        r@ == gesture_bind_view(*n),
{
    GestureBindConfig {
        mods: get_prop_string_opt(n, "mods"),
        gesture_type: get_prop_string(n, "type", ""),
        fingers: get_prop_i64(n, "fingers", 0) as u32,
        direction: get_prop_string(n, "direction", ""),
        action: get_prop_string(n, "action", ""),
        command: get_prop_string_opt(n, "command"),
    }
}

/// The entries of all `gesture_bind` nodes among `ns`, in order.
pub fn gesture_binds_from(ns: &Vec<Node>) -> (r: Vec<GestureBindConfig>)
    ensures
        r@.map_values(|x: GestureBindConfig| x@) == gesture_binds_in(ns@),
{
    let mut out: Vec<GestureBindConfig> = Vec::new();
    let mut i: usize = 0;
    while i < ns.len()
        invariant
            0 <= i <= ns.len(),
            out@.map_values(|x: GestureBindConfig| x@) == gesture_binds_in(ns@.subrange(0, i as int)),
        decreases ns.len() - i,
    {
        let ghost before = out@;
        assert(ns@.subrange(0, i as int + 1).drop_last() == ns@.subrange(0, i as int));
        if str_eq(ns[i].name.as_str(), "gesture_bind") {
            let x = gesture_bind_view_from(&ns[i]);
            out.push(x);
            assert(out@.map_values(|x: GestureBindConfig| x@) == before.map_values(|x: GestureBindConfig| x@).push(x@));
        }
        assert(out@.map_values(|x: GestureBindConfig| x@) == gesture_binds_in(ns@.subrange(0, i as int + 1)));
        i = i + 1;
    }
    assert(ns@.subrange(0, ns.len() as int) == ns@);
    out
}

// ---------------------------------------------------------------------------
// `mode_rule` nodes
// ---------------------------------------------------------------------------

impl View for ModeRuleConfig {
    type V = (Seq<char>, Seq<char>, Option<Seq<char>>, Option<bool>, Option<i64>, Option<bool>, Option<bool>);

    open spec fn view(&self) -> Self::V {
        (self.mode@, self.app_id@, opt_text(self.title), self.single, self.tag, self.circular, self.ssd)
    }
}

/// A `mode_rule` node: its `mode`, `app_id`, `title`, `single`, `tag`, `circular` and
/// `ssd` properties.
pub open spec fn mode_rule_view(n: Node) -> (Seq<char>, Seq<char>, Option<Seq<char>>, Option<bool>, Option<i64>, Option<bool>, Option<bool>) {
    (
        text_or(prop(n, "mode"@), ""@),
        text_or(prop(n, "app_id"@), ""@),
        text_of(prop(n, "title"@)),
        flag_of(prop(n, "single"@)),
        int_of(prop(n, "tag"@)),
        flag_of(prop(n, "circular"@)),
        flag_of(prop(n, "ssd"@)),
    )
}

/// The entries of all `mode_rule` nodes among `ns`, in order.
pub open spec fn mode_rules_in(ns: Seq<Node>) -> Seq<(Seq<char>, Seq<char>, Option<Seq<char>>, Option<bool>, Option<i64>, Option<bool>, Option<bool>)>
    decreases ns.len(),
{
    if ns.len() == 0 {
        Seq::empty()
    } else {
        mode_rules_in(ns.drop_last()) + if ns.last().name@ == "mode_rule"@ {
            seq![mode_rule_view(ns.last())]
        } else {
            Seq::empty()
        }
    }
}

fn mode_rule_view_from(n: &Node) -> (r: ModeRuleConfig)
    ensures
        r@ == mode_rule_view(*n),
{
    ModeRuleConfig {
        mode: get_prop_string(n, "mode", ""),
        app_id: get_prop_string(n, "app_id", ""),
        title: get_prop_string_opt(n, "title"),
        single: get_prop_bool_opt(n, "single"),
        tag: get_prop_i64_opt(n, "tag"),
        circular: get_prop_bool_opt(n, "circular"),
        ssd: get_prop_bool_opt(n, "ssd"),
    }
}

/// The entries of all `mode_rule` nodes among `ns`, in order.
pub fn mode_rules_from(ns: &Vec<Node>) -> (r: Vec<ModeRuleConfig>)
    ensures
        r@.map_values(|x: ModeRuleConfig| x@) == mode_rules_in(ns@),
{
    let mut out: Vec<ModeRuleConfig> = Vec::new();
    let mut i: usize = 0;
    while i < ns.len()
        invariant
            0 <= i <= ns.len(),
            out@.map_values(|x: ModeRuleConfig| x@) == mode_rules_in(ns@.subrange(0, i as int)),
        decreases ns.len() - i,
    {
        let ghost before = out@;
        assert(ns@.subrange(0, i as int + 1).drop_last() == ns@.subrange(0, i as int));
        if str_eq(ns[i].name.as_str(), "mode_rule") {
            let x = mode_rule_view_from(&ns[i]);
            out.push(x);
            assert(out@.map_values(|x: ModeRuleConfig| x@) == before.map_values(|x: ModeRuleConfig| x@).push(x@));
        }
        assert(out@.map_values(|x: ModeRuleConfig| x@) == mode_rules_in(ns@.subrange(0, i as int + 1)));
        i = i + 1;
    }
    assert(ns@.subrange(0, ns.len() as int) == ns@);
    out
}

// ---------------------------------------------------------------------------
// `tag_layout` nodes
// ---------------------------------------------------------------------------

impl View for TagLayoutConfig {
    type V = (i64, Seq<char>);

    open spec fn view(&self) -> Self::V {
        (self.tag, self.mode@)
    }
}

/// A `tag_layout` node: its `tag` and `mode` properties.
pub open spec fn tag_layout_view(n: Node) -> (i64, Seq<char>) {
    (int_or(prop(n, "tag"@), 0), text_or(prop(n, "mode"@), ""@))
}

/// The entries of all `tag_layout` nodes among `ns`, in order.
pub open spec fn tag_layouts_in(ns: Seq<Node>) -> Seq<(i64, Seq<char>)>
    decreases ns.len(),
{
    if ns.len() == 0 {
        Seq::empty()
    } else {
        tag_layouts_in(ns.drop_last()) + if ns.last().name@ == "tag_layout"@ {
            seq![tag_layout_view(ns.last())]
        } else {
            Seq::empty()
        }
    }
}

fn tag_layout_view_from(n: &Node) -> (r: TagLayoutConfig)
    ensures
        r@ == tag_layout_view(*n),
{
    TagLayoutConfig { tag: get_prop_i64(n, "tag", 0), mode: get_prop_string(n, "mode", "") }
}

/// The entries of all `tag_layout` nodes among `ns`, in order.
pub fn tag_layouts_from(ns: &Vec<Node>) -> (r: Vec<TagLayoutConfig>)
    ensures
        r@.map_values(|x: TagLayoutConfig| x@) == tag_layouts_in(ns@),
{
    let mut out: Vec<TagLayoutConfig> = Vec::new();
    let mut i: usize = 0;
    while i < ns.len()
        invariant
            0 <= i <= ns.len(),
            out@.map_values(|x: TagLayoutConfig| x@) == tag_layouts_in(ns@.subrange(0, i as int)),
        decreases ns.len() - i,
    {
        let ghost before = out@;
        assert(ns@.subrange(0, i as int + 1).drop_last() == ns@.subrange(0, i as int));
        if str_eq(ns[i].name.as_str(), "tag_layout") {
            let x = tag_layout_view_from(&ns[i]);
            out.push(x);
            assert(out@.map_values(|x: TagLayoutConfig| x@) == before.map_values(|x: TagLayoutConfig| x@).push(x@));
        }
        assert(out@.map_values(|x: TagLayoutConfig| x@) == tag_layouts_in(ns@.subrange(0, i as int + 1)));
        i = i + 1;
    }
    assert(ns@.subrange(0, ns.len() as int) == ns@);
    out
}

// ---------------------------------------------------------------------------
// `startup` nodes
// ---------------------------------------------------------------------------

impl View for StartupConfig {
    type V = (Seq<char>, bool, bool);

    open spec fn view(&self) -> Self::V {
        (self.command@, self.once, self.restart)
    }
}

/// A `startup` node: its `exec`, `once` and `restart` properties.
pub open spec fn startup_view(n: Node) -> (Seq<char>, bool, bool) {
    (
        text_or(prop(n, "exec"@), ""@),
        flag_or(prop(n, "once"@), false),
        flag_or(prop(n, "restart"@), false),
    )
}

/// The entries of all `startup` nodes among `ns`, in order.
pub open spec fn startups_in(ns: Seq<Node>) -> Seq<(Seq<char>, bool, bool)>
    decreases ns.len(),
{
    if ns.len() == 0 {
        Seq::empty()
    } else {
        startups_in(ns.drop_last()) + if ns.last().name@ == "startup"@ {
            seq![startup_view(ns.last())]
        } else {
            Seq::empty()
        }
    }
}

fn startup_view_from(n: &Node) -> (r: StartupConfig)
    ensures
        r@ == startup_view(*n),
{
    StartupConfig {
        command: get_prop_string(n, "exec", ""),
        once: get_prop_bool(n, "once", false),
        restart: get_prop_bool(n, "restart", false),
    }
}

/// The entries of all `startup` nodes among `ns`, in order.
pub fn startups_from(ns: &Vec<Node>) -> (r: Vec<StartupConfig>)
    ensures
        r@.map_values(|x: StartupConfig| x@) == startups_in(ns@),
{
    let mut out: Vec<StartupConfig> = Vec::new();
    let mut i: usize = 0;
    while i < ns.len()
        invariant
            0 <= i <= ns.len(),
            out@.map_values(|x: StartupConfig| x@) == startups_in(ns@.subrange(0, i as int)),
        decreases ns.len() - i,
    {
        let ghost before = out@;
        assert(ns@.subrange(0, i as int + 1).drop_last() == ns@.subrange(0, i as int));
        if str_eq(ns[i].name.as_str(), "startup") {
            let x = startup_view_from(&ns[i]);
            out.push(x);
            assert(out@.map_values(|x: StartupConfig| x@) == before.map_values(|x: StartupConfig| x@).push(x@));
        }
        assert(out@.map_values(|x: StartupConfig| x@) == startups_in(ns@.subrange(0, i as int + 1)));
        i = i + 1;
    }
    assert(ns@.subrange(0, ns.len() as int) == ns@);
    out
}


// ---------------------------------------------------------------------------
// `env`
// ---------------------------------------------------------------------------

/// The variables an `env` block's children set, `NAME "value"` each; a child
/// whose first argument is not a string sets nothing, and a later child
/// overrides an earlier one of the same name.
pub open spec fn env_map(cs: Seq<Node>) -> Map<Seq<char>, Seq<char>>
    decreases cs.len(),
{
    if cs.len() == 0 {
        Map::empty()
    } else {
        let m = env_map(cs.drop_last());
        let c = cs.last();
        if c.entries@.len() > 0 && c.entries@[0].text is Some {
            m.insert(c.name@, c.entries@[0].text.unwrap()@)
        } else {
            m
        }
    }
}

/// `v` holds each variable of `m` once, with its value, and nothing else.
pub open spec fn holds_map(v: Seq<(String, String)>, m: Map<Seq<char>, Seq<char>>) -> bool {
    &&& forall|i: int| 0 <= i < v.len() ==> m.contains_key(#[trigger] v[i].0@) && m[v[i].0@] == v[i].1@
    &&& forall|k: Seq<char>| #[trigger] m.contains_key(k) ==> exists|i: int| 0 <= i < v.len() && v[i].0@ == k
    &&& forall|i: int, j: int| 0 <= i < j < v.len() ==> (#[trigger] v[i]).0@ != (#[trigger] v[j]).0@
}

fn env_set(v: &mut Vec<(String, String)>, k: String, val: String, Ghost(m): Ghost<Map<Seq<char>, Seq<char>>>)
    requires
        holds_map(old(v)@, m),
    ensures
        holds_map(final(v)@, m.insert(k@, val@)),
{
    let ghost m2 = m.insert(k@, val@);
    let mut j: usize = 0;
    while j < v.len()
        invariant
            0 <= j <= v.len(),
            holds_map(v@, m),
            m2 == m.insert(k@, val@),
            forall|i: int| 0 <= i < j ==> (#[trigger] v@[i]).0@ != k@,
        decreases v.len() - j,
    {
        if str_eq(v[j].0.as_str(), k.as_str()) {
            let ghost before = v@;
            v.set(j, (k, val));
            assert forall|i: int| 0 <= i < v@.len() implies m2.contains_key(#[trigger] v@[i].0@)
                && m2[v@[i].0@] == v@[i].1@ by {
                if i != j {
                    assert(before[i] == v@[i]);
                    assert(m.contains_key(before[i].0@));
                    if i < j {
                        assert(before[i].0@ != before[j as int].0@);
                    } else {
                        assert(before[j as int].0@ != before[i].0@);
                    }
                } else {
                    assert(v@[i].0@ == k@);
                }
            }
            assert forall|kk: Seq<char>| #[trigger] m2.contains_key(kk) implies exists|i: int|
                0 <= i < v@.len() && v@[i].0@ == kk by {
                if kk == k@ {
                    assert(v@[j as int].0@ == kk);
                } else {
                    assert(m.contains_key(kk));
                    let i = choose|i: int| 0 <= i < before.len() && before[i].0@ == kk;
                    assert(i != j);
                    assert(v@[i] == before[i]);
                }
            }
            assert forall|a: int, b: int| 0 <= a < b < v@.len() implies (#[trigger] v@[a]).0@
                != (#[trigger] v@[b]).0@ by {
                if a != j && b != j {
                    assert(v@[a] == before[a] && v@[b] == before[b]);
                } else if a == j {
                    assert(v@[b] == before[b]);
                    assert(before[a].0@ != before[b].0@);
                } else {
                    assert(v@[a] == before[a]);
                    assert(before[a].0@ != before[b].0@);
                }
            }
            return;
        }
        j = j + 1;
    }
    let ghost before = v@;
    v.push((k, val));
    assert forall|i: int| 0 <= i < v@.len() implies m2.contains_key(#[trigger] v@[i].0@)
        && m2[v@[i].0@] == v@[i].1@ by {
        if i < before.len() {
            assert(v@[i] == before[i]);
        }
    }
    assert forall|kk: Seq<char>| #[trigger] m2.contains_key(kk) implies exists|i: int|
        0 <= i < v@.len() && v@[i].0@ == kk by {
        if kk == k@ {
            assert(v@[before.len() as int].0@ == kk);
        } else {
            assert(m.contains_key(kk));
            let i = choose|i: int| 0 <= i < before.len() && before[i].0@ == kk;
            assert(v@[i] == before[i]);
        }
    }
    assert forall|a: int, b: int| 0 <= a < b < v@.len() implies (#[trigger] v@[a]).0@
        != (#[trigger] v@[b]).0@ by {
        assert(v@[a] == before[a]);
        if b < before.len() {
            assert(v@[b] == before[b]);
        }
    }
}

/// The variables set by the children `cs` of an `env` block.
pub fn env_from(cs: &Vec<Node>) -> (r: Vec<(String, String)>)
    ensures
        holds_map(r@, env_map(cs@)),
{
    let mut out: Vec<(String, String)> = Vec::new();
    let mut i: usize = 0;
    while i < cs.len()
        invariant
            0 <= i <= cs.len(),
            holds_map(out@, env_map(cs@.subrange(0, i as int))),
        decreases cs.len() - i,
    {
        assert(cs@.subrange(0, i as int + 1).drop_last() == cs@.subrange(0, i as int));
        let c = &cs[i];
        if c.entries.len() > 0 {
            match &c.entries[0].text {
                Some(t) => {
                    env_set(&mut out, c.name.clone(), t.clone(), Ghost(env_map(cs@.subrange(0, i as int))));
                },
                None => {},
            }
        }
        i = i + 1;
    }
    assert(cs@.subrange(0, cs.len() as int) == cs@);
    out
}


// ---------------------------------------------------------------------------
// Top-level blocks
// ---------------------------------------------------------------------------

/// The first top-level node called `name`.
pub open spec fn block(doc: Seq<Node>, name: Seq<char>) -> Option<Node> {
    first_such(doc, named(name))
}

/// The first top-level node called `name`.
fn find_block<'a>(doc: &'a Vec<Node>, name: &str) -> (r: Option<&'a Node>)
    ensures
        match r {
            Some(n) => block(doc@, name@) == Some(*n),
            None => block(doc@, name@) is None,
        },
{
    match find_node(doc, name, false) {
        Some(i) => {
            proof { lemma_first_from_bounds(doc@, named(name@), 0); }
            Some(&doc[i])
        },
        None => None,
    }
}


// ---------------------------------------------------------------------------
// `layout` and `style`
// ---------------------------------------------------------------------------

/// The first element of `s` that satisfies `p` is `s[i]` when `s[i]` does
/// and no earlier element does.
proof fn lemma_first_at<A>(s: Seq<A>, p: spec_fn(A) -> bool, i: int)
    requires
        0 <= i < s.len(),
        p(s[i]),
        forall|j: int| 0 <= j < i ==> !p(#[trigger] s[j]),
    ensures
        first_index(s, p) == Some(i),
        first_such(s, p) == Some(s[i]),
{
    lemma_first_from_bounds(s, p, 0);
}

/// The integer-, boolean- and string-valued layout settings. A
/// `status_module_spacing` of `None` leaves the status bar's module spacing
/// to the arrangement policy's default.
pub struct LayoutConfig {
    pub gap: i64,
    pub gap_top: i64,
    pub gap_left: i64,
    pub gap_right: i64,
    pub gap_bottom: i64,
    pub cascade_offset: i64,
    pub bar_height: i64,
    pub transition_duration: i64,
    pub grid_gap: i64,
    pub window_blur: bool,
    pub overlay_behavior: String,
    pub overlay_width: i64,
    pub overlay_position: String,
    pub overlay_border_gap: i64,
    pub status_normal_color: String,
    pub window_opacity: bool,
    pub status_backdrop_blur_ignore_transparent: bool,
    pub window_backdrop_blur_ignore_transparent: bool,
    pub status_module_hide_mode_preview: i64,
    pub status_module_spacing: Option<i64>,
}

/// A `layout` setting is read from its own key: when `doc[i]` is the first
/// top-level node called `layout`, and its first child called `key` that
/// has an argument is its `k`-th child, with the integer `v` as first
/// argument, the layout read from the document holds `v` for that key,
/// whatever the other children say.
pub proof fn lemma_layout_reads_its_own_key(
    r: LayoutConfig,
    doc: Seq<Node>,
    i: int,
    k: int,
    key: Seq<char>,
    v: i64,
)
    requires
        layout_of(r, doc),
        0 <= i < doc.len(),
        doc[i].name@ == "layout"@,
        forall|j: int| 0 <= j < i ==> (#[trigger] doc[j]).name@ != "layout"@,
        0 <= k < child_nodes(doc[i]).len(),
        child_nodes(doc[i])[k].name@ == key,
        child_nodes(doc[i])[k].entries@.len() > 0,
        child_nodes(doc[i])[k].entries@[0].int == Some(v),
        forall|j: int|
            0 <= j < k ==> !((#[trigger] child_nodes(doc[i])[j]).name@ == key
                && child_nodes(doc[i])[j].entries@.len() > 0),
    ensures
        key == "gap"@ ==> r.gap == v,
        key == "gap_top"@ ==> r.gap_top == v,
        key == "gap_left"@ ==> r.gap_left == v,
        key == "gap_right"@ ==> r.gap_right == v,
        key == "gap_bottom"@ ==> r.gap_bottom == v,
        key == "cascade_offset"@ ==> r.cascade_offset == v,
        key == "bar_height"@ ==> r.bar_height == v,
        key == "grid_gap"@ ==> r.grid_gap == v,
{
    lemma_first_at(doc, named("layout"@), i);
    lemma_first_at(child_nodes(doc[i]), named_with_arg(key), k);
    assert(block(doc, "layout"@) == Some(doc[i]));
    assert(child_arg(doc[i], key) == Some(child_nodes(doc[i])[k].entries@[0]));
}

/// The status bar's own `module` settings win over the shared ones: a
/// module spacing it sets becomes the status module spacing, a module
/// height it sets becomes the bar height.
pub fn apply_status_module(layout: &mut LayoutConfig, spacing: Option<i64>, height: Option<i64>)
    ensures
        final(layout).status_module_spacing == (if spacing is Some {
            spacing
        } else {
            old(layout).status_module_spacing
        }),
        final(layout).bar_height == (match height {
            Some(h) => h,
            None => old(layout).bar_height,
        }),
        *final(layout) == (LayoutConfig {
            status_module_spacing: final(layout).status_module_spacing,
            bar_height: final(layout).bar_height,
            ..*old(layout)
        }),
{
    if spacing.is_some() {
        layout.status_module_spacing = spacing;
    }
    if let Some(h) = height {
        layout.bar_height = h;
    }
}

/// A setting of a `module` node: its property `key`, or else the first
/// entry of its first child called `key`.
pub open spec fn module_entry_of(m: Node, key: Seq<char>) -> Option<Entry> {
    match prop(m, key) {
        Some(e) => Some(e),
        None => match first_such(child_nodes(m), named(key)) {
            Some(c) => if c.entries@.len() > 0 {
                Some(c.entries@[0])
            } else {
                None
            },
            None => None,
        },
    }
}

/// A setting of the status bar's own `module` block.
pub open spec fn module_setting(doc: Seq<Node>, key: Seq<char>) -> Option<Entry> {
    match block(doc, "module"@) {
        None => None,
        Some(m) => module_entry_of(m, key),
    }
}

/// The status bar's own `module` settings: the integer `spacing` and
/// `height` and the `droplet` style spec, each when set with that type.
pub struct StatusModule {
    pub spacing: Option<i64>,
    pub height: Option<i64>,
    pub droplet: Option<String>,
}

fn module_entry<'a>(module: &'a Node, kids: &'a Vec<Node>, key: &str) -> (r: Option<&'a Entry>)
    requires
        kids@ == child_nodes(*module),
    ensures
        match r {
            Some(e) => module_entry_of(*module, key@) == Some(*e),
            None => module_entry_of(*module, key@) is None,
        },
{
    match find_prop(&module.entries, key) {
        Some(i) => {
            proof { lemma_first_from_bounds(module.entries@, prop_named(key@), 0); }
            Some(&module.entries[i])
        },
        None => match find_node(kids, key, false) {
            Some(j) => {
                proof { lemma_first_from_bounds(kids@, named(key@), 0); }
                if kids[j].entries.len() > 0 {
                    Some(&kids[j].entries[0])
                } else {
                    None
                }
            },
            None => None,
        },
    }
}

/// Reads the status bar's own configuration text for its `module` block;
/// a text that is not a KDL document sets nothing.
pub fn status_module_settings(content: &str) -> (r: StatusModule)
    ensures
        match kdl_parse(content@) {
            Ok(doc) => r.spacing == int_of(module_setting(doc, "spacing"@)) && r.height == int_of(
                module_setting(doc, "height"@),
            ) && opt_text(r.droplet) == text_of(module_setting(doc, "droplet"@)),
            Err(_) => r.spacing is None && r.height is None && r.droplet is None,
        },
{
    let d = match parse_document(content) {
        Ok(d) => d,
        Err(_) => return StatusModule { spacing: None, height: None, droplet: None },
    };
    let doc = document_nodes(&d);
    let module = match find_block(&doc, "module") {
        Some(m) => m,
        None => return StatusModule { spacing: None, height: None, droplet: None },
    };
    let kids = children_of(module);
    let spacing = match module_entry(module, &kids, "spacing") {
        Some(e) => e.int,
        None => None,
    };
    let height = match module_entry(module, &kids, "height") {
        Some(e) => e.int,
        None => None,
    };
    let droplet = match module_entry(module, &kids, "droplet") {
        Some(e) => match &e.text {
            Some(t) => Some(t.clone()),
            None => None,
        },
        None => None,
    };
    StatusModule { spacing, height, droplet }
}

/// The integer argument of the child `key` of the `layout` block, or `default`.
pub open spec fn layout_int(doc: Seq<Node>, key: Seq<char>, default: i64) -> i64 {
    match block(doc, "layout"@) {
        Some(n) => int_or(child_arg(n, key), default),
        None => default,
    }
}

/// The property `key` of the child `child` of the `style` block.
pub open spec fn style_prop(doc: Seq<Node>, child: Seq<char>, key: Seq<char>) -> Option<Entry> {
    match block(doc, "style"@) {
        Some(n) => nested_prop(n, child, key),
        None => None,
    }
}

/// What `parse_layout` reads out of the top-level nodes `doc`.
pub open spec fn layout_of(r: LayoutConfig, doc: Seq<Node>) -> bool {
    &&& r.gap == layout_int(doc, "gap"@, 48)
    &&& r.gap_top == layout_int(doc, "gap_top"@, 48)
    &&& r.gap_left == layout_int(doc, "gap_left"@, 48)
    &&& r.gap_right == layout_int(doc, "gap_right"@, 48)
    &&& r.gap_bottom == layout_int(doc, "gap_bottom"@, 48)
    &&& r.cascade_offset == layout_int(doc, "cascade_offset"@, 20)
    &&& r.bar_height == layout_int(doc, "bar_height"@, 24)
    &&& r.grid_gap == layout_int(doc, "grid_gap"@, 18)
    &&& r.transition_duration == int_or(
        style_prop(doc, "window"@, "transition_duration"@),
        300,
    )
    &&& r.window_backdrop_blur_ignore_transparent == flag_or(
        style_prop(doc, "window"@, "backdrop_blur_ignore_transparent"@),
        true,
    )
    &&& r.overlay_behavior@ == text_or(style_prop(doc, "overlay"@, "behavior"@), "inline"@)
    &&& r.overlay_width == int_or(style_prop(doc, "overlay"@, "width"@), 360)
    &&& r.overlay_position@ == text_or(style_prop(doc, "overlay"@, "position"@), "left"@)
    &&& r.overlay_border_gap == int_or(style_prop(doc, "overlay"@, "border_gap"@), 0)
    &&& r.status_normal_color@ == text_or(
        style_prop(doc, "status"@, "normal_color"@),
        "#ccccd8"@,
    )
    &&& r.status_backdrop_blur_ignore_transparent == flag_or(
        style_prop(doc, "status"@, "backdrop_blur_ignore_transparent"@),
        true,
    )
    &&& r.status_module_hide_mode_preview == int_or(
        style_prop(doc, "status"@, "module_hide_mode_preview"@),
        4,
    )
    &&& r.status_module_spacing == int_of(style_prop(doc, "status"@, "module_spacing"@))
    &&& !r.window_blur
    &&& r.window_opacity
}

/// The layout settings of the `layout` and `style` blocks among the
/// top-level nodes `doc`, each at its default where the file leaves it out.
pub fn parse_layout(doc: &Vec<Node>) -> (r: LayoutConfig)
    ensures
        layout_of(r, doc@),
{
    let mut r = LayoutConfig {
        gap: default_gap(),
        gap_top: default_gap_top(),
        gap_left: default_gap_left(),
        gap_right: default_gap_right(),
        gap_bottom: default_gap_bottom(),
        cascade_offset: default_cascade_offset(),
        bar_height: default_bar_height(),
        transition_duration: default_transition_duration(),
        grid_gap: default_grid_gap(),
        window_blur: default_window_blur(),
        overlay_behavior: default_overlay_behavior(),
        overlay_width: default_overlay_width(),
        overlay_position: default_overlay_position(),
        overlay_border_gap: default_overlay_border_gap(),
        status_normal_color: default_status_normal_color(),
        window_opacity: default_window_opacity(),
        status_backdrop_blur_ignore_transparent: default_status_backdrop_blur_ignore_transparent(),
        window_backdrop_blur_ignore_transparent: default_window_backdrop_blur_ignore_transparent(),
        status_module_hide_mode_preview: default_status_module_hide_mode_preview(),
        status_module_spacing: None,
    };
    if let Some(node) = find_block(doc, "layout") {
        r.gap = get_child_arg_i64(node, "gap", default_gap());
        r.gap_top = get_child_arg_i64(node, "gap_top", default_gap_top());
        r.gap_left = get_child_arg_i64(node, "gap_left", default_gap_left());
        r.gap_right = get_child_arg_i64(node, "gap_right", default_gap_right());
        r.gap_bottom = get_child_arg_i64(node, "gap_bottom", default_gap_bottom());
        r.cascade_offset = get_child_arg_i64(node, "cascade_offset", default_cascade_offset());
        r.bar_height = get_child_arg_i64(node, "bar_height", default_bar_height());
        r.grid_gap = get_child_arg_i64(node, "grid_gap", default_grid_gap());
    }
    if let Some(node) = find_block(doc, "style") {
        r.transition_duration = get_nested_prop_i64(
            node,
            "window",
            "transition_duration",
            default_transition_duration(),
        );
        r.window_backdrop_blur_ignore_transparent = get_nested_prop_bool(
            node,
            "window",
            "backdrop_blur_ignore_transparent",
            default_window_backdrop_blur_ignore_transparent(),
        );
        r.overlay_behavior = get_nested_prop_string(node, "overlay", "behavior", "inline");
        r.overlay_width = get_nested_prop_i64(node, "overlay", "width", default_overlay_width());
        r.overlay_position = get_nested_prop_string(node, "overlay", "position", "left");
        r.overlay_border_gap = get_nested_prop_i64(
            node,
            "overlay",
            "border_gap",
            default_overlay_border_gap(),
        );
        r.status_normal_color = get_nested_prop_string(node, "status", "normal_color", "#ccccd8");
        r.status_backdrop_blur_ignore_transparent = get_nested_prop_bool(
            node,
            "status",
            "backdrop_blur_ignore_transparent",
            default_status_backdrop_blur_ignore_transparent(),
        );
        r.status_module_hide_mode_preview = get_nested_prop_i64(
            node,
            "status",
            "module_hide_mode_preview",
            default_status_module_hide_mode_preview(),
        );
        r.status_module_spacing = get_nested_prop_i64_opt(node, "status", "module_spacing");
    }
    r
}

// ---------------------------------------------------------------------------
// `idle`
// ---------------------------------------------------------------------------

/// The `idle` block's timeouts and sleep command.
pub open spec fn idle_of(r: IdleConfig, doc: Seq<Node>) -> bool {
    match block(doc, "idle"@) {
        Some(n) => {
            &&& r.display_off_s == int_or(child_arg(n, "display_off"@), 0)
            &&& r.sleep_s == int_or(child_arg(n, "sleep"@), 0)
            &&& opt_text(r.sleep_command) == text_of(child_arg(n, "sleep_command"@))
        },
        None => r.display_off_s == 0 && r.sleep_s == 0 && r.sleep_command is None,
    }
}

/// The `idle { display_off N; sleep N; sleep_command "..." }` block.
pub fn parse_idle(doc: &Vec<Node>) -> (r: IdleConfig)
    ensures
        idle_of(r, doc@),
{
    let mut idle = IdleConfig::new();
    if let Some(node) = find_block(doc, "idle") {
        idle.display_off_s = get_child_arg_i64(node, "display_off", 0);
        idle.sleep_s = get_child_arg_i64(node, "sleep", 0);
        idle.sleep_command = get_child_arg_string_opt(node, "sleep_command");
    }
    idle
}


// ---------------------------------------------------------------------------
// `output`
// ---------------------------------------------------------------------------

/// The `output` block: its settings.
pub open spec fn output_of(doc: Seq<Node>) -> Option<bool> {
    match block(doc, "output"@) {
        Some(n) => Some(flag_or(child_arg(n, "scenefx_optimized_blur"@), true)),
        None => None,
    }
}

/// The `output { }` block's settings, if the file has one.
pub fn parse_output(doc: &Vec<Node>) -> (r: Option<OutputConfig>)
    ensures
        match r {
            Some(o) => output_of(doc@) == Some(o.scenefx_optimized_blur),
            None => output_of(doc@) is None,
        },
{
    match find_block(doc, "output") {
        Some(node) => Some(
            OutputConfig {
                scenefx_optimized_blur: get_child_arg_bool(node, "scenefx_optimized_blur", true),
            },
        ),
        None => None,
    }
}

/// A display's brightness settings in the `output` block: the interval, in
/// percent, and the keys that step brightness up and down.
pub struct DisplayConfig {
    pub name: String,
    pub brightness_interval: Option<i64>,
    pub brightness_up: Option<String>,
    pub brightness_down: Option<String>,
}

impl View for DisplayConfig {
    type V = (Seq<char>, Option<i64>, Option<Seq<char>>, Option<Seq<char>>);

    open spec fn view(&self) -> Self::V {
        (self.name@, self.brightness_interval, opt_text(self.brightness_up), opt_text(self.brightness_down))
    }
}

/// `a`, or else `b`.
pub open spec fn or_else<A>(a: Option<A>, b: Option<A>) -> Option<A> {
    match a {
        Some(x) => Some(x),
        None => b,
    }
}

/// The first argument of the first node called `name` among `cs` (none when
/// that node has no argument).
pub open spec fn first_arg_of(cs: Seq<Node>, name: Seq<char>) -> Option<Entry> {
    match first_such(cs, named(name)) {
        Some(m) => if m.entries@.len() > 0 {
            Some(m.entries@[0])
        } else {
            None
        },
        None => None,
    }
}

/// A display's setting `key`: its property, or else the first argument of
/// its child so named.
pub open spec fn display_int(c: Node, key: Seq<char>) -> Option<i64> {
    or_else(int_of(prop(c, key)), int_of(first_arg_of(child_nodes(c), key)))
}

/// A display's string setting `key`, read the same way.
pub open spec fn display_text(c: Node, key: Seq<char>) -> Option<Seq<char>> {
    or_else(text_of(prop(c, key)), text_of(first_arg_of(child_nodes(c), key)))
}

/// The brightness settings a display node gives.
pub open spec fn display_view(c: Node) -> (Seq<char>, Option<i64>, Option<Seq<char>>, Option<Seq<char>>) {
    (
        c.name@,
        display_int(c, "brightness_interval"@),
        display_text(c, "brightness_up"@),
        display_text(c, "brightness_down"@),
    )
}

/// The displays of the `output` block, in order.
pub open spec fn displays_of(doc: Seq<Node>) -> Seq<(Seq<char>, Option<i64>, Option<Seq<char>>, Option<Seq<char>>)> {
    match block(doc, "output"@) {
        Some(n) => child_nodes(n).map_values(|c: Node| display_view(c)),
        None => Seq::empty(),
    }
}

fn first_arg_entry_of<'a>(cs: &'a Vec<Node>, name: &str) -> (r: Option<&'a Entry>)
    ensures
        match r {
            Some(e) => first_arg_of(cs@, name@) == Some(*e),
            None => first_arg_of(cs@, name@) is None,
        },
{
    match find_node(cs, name, false) {
        Some(i) => {
            proof { lemma_first_from_bounds(cs@, named(name@), 0); }
            if cs[i].entries.len() > 0 {
                Some(&cs[i].entries[0])
            } else {
                None
            }
        },
        None => None,
    }
}

fn display_int_from(c: &Node, cs: &Vec<Node>, key: &str) -> (r: Option<i64>)
    requires
        cs@ == child_nodes(*c),
    ensures
        r == display_int(*c, key@),
{
    match get_prop_i64_opt(c, key) {
        Some(v) => Some(v),
        None => match first_arg_entry_of(cs, key) {
            Some(e) => e.int,
            None => None,
        },
    }
}

fn display_text_from(c: &Node, cs: &Vec<Node>, key: &str) -> (r: Option<String>)
    requires
        cs@ == child_nodes(*c),
    ensures
        opt_text(r) == display_text(*c, key@),
{
    match get_prop_string_opt(c, key) {
        Some(v) => Some(v),
        None => match first_arg_entry_of(cs, key) {
            Some(e) => match &e.text {
                Some(t) => Some(t.clone()),
                None => None,
            },
            None => None,
        },
    }
}

/// The brightness settings of each display in the `output` block, in order.
pub fn parse_displays(doc: &Vec<Node>) -> (r: Vec<DisplayConfig>)
    ensures
        r@.map_values(|d: DisplayConfig| d@) == displays_of(doc@),
{
    let mut out: Vec<DisplayConfig> = Vec::new();
    match find_block(doc, "output") {
        Some(node) => {
            let displays = children_of(node);
            let mut i: usize = 0;
            while i < displays.len()
                invariant
                    0 <= i <= displays.len(),
                    out@.len() == i,
                    forall|k: int| 0 <= k < i ==> (#[trigger] out@[k])@ == display_view(displays@[k]),
                decreases displays.len() - i,
            {
                let c = &displays[i];
                let cs = children_of(c);
                let d = DisplayConfig {
                    name: c.name.clone(),
                    brightness_interval: display_int_from(c, &cs, "brightness_interval"),
                    brightness_up: display_text_from(c, &cs, "brightness_up"),
                    brightness_down: display_text_from(c, &cs, "brightness_down"),
                };
                out.push(d);
                i = i + 1;
            }
            assert(out@.map_values(|d: DisplayConfig| d@) == displays_of(doc@));
        },
        None => {
            assert(out@.map_values(|d: DisplayConfig| d@) == displays_of(doc@));
        },
    }
    out
}

/// The command that steps brightness by `interval` percent, up or down.
pub open spec fn brightness_command(interval: i64, up: bool) -> Seq<char> {
    "brightnessctl set "@ + dec_int(interval as int) + if up {
        "%+"@
    } else {
        "%-"@
    }
}

/// The key bindings a display's brightness keys add: the up key, then the
/// down key, each spawning the step command (the interval defaults to 10).
pub open spec fn brightness_binds_of(d: (Seq<char>, Option<i64>, Option<Seq<char>>, Option<Seq<char>>)) -> Seq<
    (Seq<char>, Seq<char>, Seq<char>, Option<Seq<char>>),
> {
    let interval = match d.1 {
        Some(v) => v,
        None => 10,
    };
    let up = match d.2 {
        Some(k) => seq![(""@, k, "spawn"@, Some(brightness_command(interval, true)))],
        None => Seq::empty(),
    };
    let down = match d.3 {
        Some(k) => seq![(""@, k, "spawn"@, Some(brightness_command(interval, false)))],
        None => Seq::empty(),
    };
    up + down
}

/// The brightness key bindings of all displays `ds`, in order.
pub open spec fn brightness_binds(ds: Seq<(Seq<char>, Option<i64>, Option<Seq<char>>, Option<Seq<char>>)>) -> Seq<
    (Seq<char>, Seq<char>, Seq<char>, Option<Seq<char>>),
>
    decreases ds.len(),
{
    if ds.len() == 0 {
        Seq::empty()
    } else {
        brightness_binds(ds.drop_last()) + brightness_binds_of(ds.last())
    }
}

fn brightness_bind(key: &String, interval: i64, up: bool) -> (k: KeybindConfig)
    ensures
        k@ == (""@, key@, "spawn"@, Some(brightness_command(interval, up))),
{
    let mut command = String::from_str("brightnessctl set ");
    let digits = i64_to_dec(interval);
    push_chars(&mut command, &digits);
    if up {
        push_str(&mut command, "%+");
    } else {
        push_str(&mut command, "%-");
    }
    KeybindConfig {
        mods: String::from_str(""),
        key: key.clone(),
        action: String::from_str("spawn"),
        command: Some(command),
    }
}

/// Appends the brightness key bindings of the displays `ds` to `out`.
pub fn push_brightness_binds(out: &mut Vec<KeybindConfig>, ds: &Vec<DisplayConfig>)
    ensures
        keybind_views(final(out)@) == keybind_views(old(out)@) + brightness_binds(
            ds@.map_values(|d: DisplayConfig| d@),
        ),
{
    let ghost start = keybind_views(out@);
    let ghost dv = ds@.map_values(|d: DisplayConfig| d@);
    let mut i: usize = 0;
    while i < ds.len()
        invariant
            0 <= i <= ds.len(),
            dv == ds@.map_values(|d: DisplayConfig| d@),
            keybind_views(out@) == start + brightness_binds(dv.subrange(0, i as int)),
        decreases ds.len() - i,
    {
        assert(dv.subrange(0, i as int + 1).drop_last() == dv.subrange(0, i as int));
        let d = &ds[i];
        let interval: i64 = match d.brightness_interval {
            Some(v) => v,
            None => 10,
        };
        let ghost before = out@;
        match &d.brightness_up {
            Some(k) => {
                let b = brightness_bind(k, interval, true);
                out.push(b);
                assert(keybind_views(out@) == keybind_views(before).push(b@));
            },
            None => {},
        }
        let ghost mid = out@;
        match &d.brightness_down {
            Some(k) => {
                let b = brightness_bind(k, interval, false);
                out.push(b);
                assert(keybind_views(out@) == keybind_views(mid).push(b@));
            },
            None => {},
        }
        assert(keybind_views(out@) == keybind_views(before) + brightness_binds_of(dv[i as int]));
        assert(keybind_views(out@) == start + brightness_binds(dv.subrange(0, i as int + 1)));
        i = i + 1;
    }
    assert(dv.subrange(0, ds.len() as int) == dv);
}


// ---------------------------------------------------------------------------
// `window_manager`
// ---------------------------------------------------------------------------

/// The `window_manager` block's string-, boolean- and list-valued settings.
pub struct WindowManagerConfig {
    pub close_window: Option<String>,
    pub toggle_fullscreen: Option<String>,
    pub toggle_overview: Option<String>,
    pub window_switcher: Option<String>,
    pub window_switcher_prev: Option<String>,
    pub center_on_spawn: Option<bool>,
    pub on_app_exit: Option<String>,
    pub rounded_apps: Option<Vec<String>>,
    pub bevel_apps: Option<Vec<String>>,
    pub xwayland_hidpi: Option<bool>,
    pub xwayland_hidpi_except: Option<Vec<String>>,
    pub touchpad_view_apps: Option<Vec<String>>,
    pub touchpad_view_swipe: Option<String>,
    pub touchpad_view_invert: Option<bool>,
    pub touchpad_hscroll_shift_apps: Option<Vec<String>>,
}

/// The views of an optional list of strings.
pub open spec fn opt_texts(o: Option<Vec<String>>) -> Option<Seq<Seq<char>>> {
    match o {
        Some(v) => Some(texts(v@)),
        None => None,
    }
}

/// The string arguments of the first child called `key` of `n`, if there is one.
pub open spec fn child_texts(n: Node, key: Seq<char>) -> Option<Seq<Seq<char>>> {
    match first_such(child_nodes(n), named(key)) {
        Some(c) => Some(positional_texts(c.entries@)),
        None => None,
    }
}

/// A node called `window manager` or `window_manager`.
pub open spec fn wm_named() -> spec_fn(Node) -> bool {
    |n: Node| n.name@ == "window manager"@ || n.name@ == "window_manager"@
}

/// What the window-manager block `n` sets.
pub open spec fn window_manager_of(r: WindowManagerConfig, n: Node) -> bool {
    &&& opt_text(r.close_window) == text_of(child_arg(n, "close_window"@))
    &&& opt_text(r.toggle_fullscreen) == text_of(child_arg(n, "toggle_fullscreen"@))
    &&& opt_text(r.toggle_overview) == text_of(child_arg(n, "toggle_overview"@))
    &&& opt_text(r.window_switcher) == text_of(child_arg(n, "window_switcher"@))
    &&& opt_text(r.window_switcher_prev) == text_of(child_arg(n, "window_switcher_prev"@))
    &&& r.center_on_spawn == flag_of(child_arg(n, "center_on_spawn"@))
    &&& opt_text(r.on_app_exit) == text_of(child_arg(n, "on_app_exit"@))
    &&& opt_texts(r.rounded_apps) == child_texts(n, "rounded_apps"@)
    &&& opt_texts(r.bevel_apps) == child_texts(n, "bevel_apps"@)
    &&& r.xwayland_hidpi == flag_of(child_arg(n, "xwayland_hidpi"@))
    &&& opt_texts(r.xwayland_hidpi_except) == child_texts(n, "xwayland_hidpi_except"@)
    &&& opt_texts(r.touchpad_view_apps) == child_texts(n, "touchpad_view_apps"@)
    &&& opt_text(r.touchpad_view_swipe) == text_of(child_arg(n, "touchpad_view_swipe"@))
    &&& r.touchpad_view_invert == flag_of(child_arg(n, "touchpad_view_invert"@))
    &&& opt_texts(r.touchpad_hscroll_shift_apps) == child_texts(n, "touchpad_hscroll_shift_apps"@)
}

/// The settings of a window-manager block.
pub fn window_manager_from(node: &Node) -> (r: WindowManagerConfig)
    ensures
        window_manager_of(r, *node),
{
    WindowManagerConfig {
        close_window: get_child_arg_string_opt(node, "close_window"),
        toggle_fullscreen: get_child_arg_string_opt(node, "toggle_fullscreen"),
        toggle_overview: get_child_arg_string_opt(node, "toggle_overview"),
        window_switcher: get_child_arg_string_opt(node, "window_switcher"),
        window_switcher_prev: get_child_arg_string_opt(node, "window_switcher_prev"),
        center_on_spawn: get_child_arg_bool_opt(node, "center_on_spawn"),
        on_app_exit: get_child_arg_string_opt(node, "on_app_exit"),
        rounded_apps: get_child_args_string_vec_opt(node, "rounded_apps"),
        bevel_apps: get_child_args_string_vec_opt(node, "bevel_apps"),
        xwayland_hidpi: get_child_arg_bool_opt(node, "xwayland_hidpi"),
        xwayland_hidpi_except: get_child_args_string_vec_opt(node, "xwayland_hidpi_except"),
        touchpad_view_apps: get_child_args_string_vec_opt(node, "touchpad_view_apps"),
        touchpad_view_swipe: get_child_arg_string_opt(node, "touchpad_view_swipe"),
        touchpad_view_invert: get_child_arg_bool_opt(node, "touchpad_view_invert"),
        touchpad_hscroll_shift_apps: get_child_args_string_vec_opt(node, "touchpad_hscroll_shift_apps"),
    }
}

/// The first top-level node called `window manager` or `window_manager`.
fn find_window_manager(doc: &Vec<Node>) -> (r: Option<usize>)
    ensures
        opt_index(r) == first_index(doc@, wm_named()),
        r matches Some(i) ==> i < doc.len(),
{
    let ghost p = wm_named();
    let mut i: usize = 0;
    while i < doc.len()
        invariant
            0 <= i <= doc.len(),
            p == wm_named(),
            first_from(doc@, p, 0) == first_from(doc@, p, i as int),
        decreases doc.len() - i,
    {
        if str_eq(doc[i].name.as_str(), "window manager") || str_eq(doc[i].name.as_str(), "window_manager") {
            assert(p(doc@[i as int]));
            return Some(i);
        }
        assert(!p(doc@[i as int]));
        i = i + 1;
    }
    None
}

/// The window-manager block's settings, if the file has one.
pub fn parse_window_manager(doc: &Vec<Node>) -> (r: Option<WindowManagerConfig>)
    ensures
        match first_such(doc@, wm_named()) {
            Some(n) => r matches Some(w) && window_manager_of(w, n),
            None => r is None,
        },
{
    match find_window_manager(doc) {
        Some(i) => Some(window_manager_from(&doc[i])),
        None => None,
    }
}


// ---------------------------------------------------------------------------
// `input`
// ---------------------------------------------------------------------------

/// A pointing stick's settings.
pub struct TrackpointConfig {
    pub accel_profile: Option<String>,
    pub scroll_method: Option<String>,
}

/// A mouse's settings.
pub struct MouseConfig {
    pub accel_profile: Option<String>,
    pub scroll_method: Option<String>,
}

/// A touchpad's settings.
pub struct TouchpadConfig {
    pub tap_to_click: Option<bool>,
    pub natural_scroll: Option<bool>,
    pub dwt: Option<bool>,
    pub dwtp: Option<bool>,
    pub gestures: Option<GesturesConfig>,
    pub accel_profile: Option<String>,
}

/// The `input` block's string- and boolean-valued settings, and those of its
/// per-class blocks.
pub struct InputConfig {
    pub accel_profile: Option<String>,
    pub kinetic_scroll: Option<bool>,
    pub mouse: Option<MouseConfig>,
    pub touchpad: Option<TouchpadConfig>,
    pub trackpoint: Option<TrackpointConfig>,
}

/// A node called `a` or `b`.
pub open spec fn named_either(a: Seq<char>, b: Seq<char>) -> spec_fn(Node) -> bool {
    |n: Node| n.name@ == a || n.name@ == b
}

/// The index of the first node of `ns` called `a` or `b`.
fn find_either(ns: &Vec<Node>, a: &str, b: &str) -> (r: Option<usize>)
    ensures
        opt_index(r) == first_index(ns@, named_either(a@, b@)),
        r matches Some(i) ==> i < ns.len(),
{
    let ghost p = named_either(a@, b@);
    let mut i: usize = 0;
    while i < ns.len()
        invariant
            0 <= i <= ns.len(),
            p == named_either(a@, b@),
            first_from(ns@, p, 0) == first_from(ns@, p, i as int),
        decreases ns.len() - i,
    {
        if str_eq(ns[i].name.as_str(), a) || str_eq(ns[i].name.as_str(), b) {
            assert(p(ns@[i as int]));
            return Some(i);
        }
        assert(!p(ns@[i as int]));
        i = i + 1;
    }
    None
}

/// What a touchpad block `t` sets.
pub open spec fn touchpad_of(r: TouchpadConfig, t: Node) -> bool {
    &&& r.tap_to_click == flag_of(child_arg(t, "tap_to_click"@))
    &&& r.natural_scroll == flag_of(child_arg(t, "natural_scroll"@))
    &&& r.dwt == flag_of(child_arg(t, "dwt"@))
    &&& r.dwtp == flag_of(child_arg(t, "dwtp"@))
    &&& opt_text(r.accel_profile) == text_of(child_arg(t, "accel_profile"@))
    &&& match first_such(child_nodes(t), named("gestures"@)) {
        Some(g) => r.gestures == Some(
            GesturesConfig {
                swipe: flag_of(child_arg(g, "swipe"@)),
                pinch: flag_of(child_arg(g, "pinch"@)),
            },
        ),
        None => r.gestures is None,
    }
}

/// What the `input` block `n` sets.
pub open spec fn input_of(r: InputConfig, n: Node) -> bool {
    &&& opt_text(r.accel_profile) == text_of(child_arg(n, "accel_profile"@))
    &&& r.kinetic_scroll == flag_of(child_arg(n, "kinetic_scroll"@))
    &&& match first_such(child_nodes(n), named_either("touchpad"@, "trackpad"@)) {
        Some(t) => r.touchpad matches Some(tp) && touchpad_of(tp, t),
        None => r.touchpad is None,
    }
    &&& match first_such(child_nodes(n), named("trackpoint"@)) {
        Some(t) => r.trackpoint matches Some(tp) && opt_text(tp.accel_profile) == text_of(
            child_arg(t, "accel_profile"@),
        ) && opt_text(tp.scroll_method) == text_of(child_arg(t, "scroll_method"@)),
        None => r.trackpoint is None,
    }
    &&& match first_such(child_nodes(n), named("mouse"@)) {
        Some(m) => r.mouse matches Some(mc) && opt_text(mc.accel_profile) == text_of(
            child_arg(m, "accel_profile"@),
        ) && opt_text(mc.scroll_method) == text_of(child_arg(m, "scroll_method"@)),
        None => r.mouse is None,
    }
}

fn touchpad_from(t: &Node) -> (r: TouchpadConfig)
    ensures
        touchpad_of(r, *t),
{
    let cs = children_of(t);
    let gestures = match find_node(&cs, "gestures", false) {
        Some(i) => {
            proof { lemma_first_from_bounds(cs@, named("gestures"@), 0); }
            Some(
                GesturesConfig {
                    swipe: get_child_arg_bool_opt(&cs[i], "swipe"),
                    pinch: get_child_arg_bool_opt(&cs[i], "pinch"),
                },
            )
        },
        None => None,
    };
    TouchpadConfig {
        tap_to_click: get_child_arg_bool_opt(t, "tap_to_click"),
        natural_scroll: get_child_arg_bool_opt(t, "natural_scroll"),
        dwt: get_child_arg_bool_opt(t, "dwt"),
        dwtp: get_child_arg_bool_opt(t, "dwtp"),
        gestures,
        accel_profile: get_child_arg_string_opt(t, "accel_profile"),
    }
}

/// The settings of an `input` block.
pub fn input_from(node: &Node) -> (r: InputConfig)
    ensures
        input_of(r, *node),
{
    let cs = children_of(node);
    let touchpad = match find_either(&cs, "touchpad", "trackpad") {
        Some(i) => {
            proof { lemma_first_from_bounds(cs@, named_either("touchpad"@, "trackpad"@), 0); }
            Some(touchpad_from(&cs[i]))
        },
        None => None,
    };
    let trackpoint = match find_node(&cs, "trackpoint", false) {
        Some(i) => {
            proof { lemma_first_from_bounds(cs@, named("trackpoint"@), 0); }
            Some(
                TrackpointConfig {
                    accel_profile: get_child_arg_string_opt(&cs[i], "accel_profile"),
                    scroll_method: get_child_arg_string_opt(&cs[i], "scroll_method"),
                },
            )
        },
        None => None,
    };
    let mouse = match find_node(&cs, "mouse", false) {
        Some(i) => {
            proof { lemma_first_from_bounds(cs@, named("mouse"@), 0); }
            Some(
                MouseConfig {
                    accel_profile: get_child_arg_string_opt(&cs[i], "accel_profile"),
                    scroll_method: get_child_arg_string_opt(&cs[i], "scroll_method"),
                },
            )
        },
        None => None,
    };
    InputConfig {
        accel_profile: get_child_arg_string_opt(node, "accel_profile"),
        kinetic_scroll: get_child_arg_bool_opt(node, "kinetic_scroll"),
        mouse,
        touchpad,
        trackpoint,
    }
}

/// The `input` block's settings, if the file has one.
pub fn parse_input(doc: &Vec<Node>) -> (r: Option<InputConfig>)
    ensures
        match block(doc@, "input"@) {
            Some(n) => r matches Some(c) && input_of(c, n),
            None => r is None,
        },
{
    match find_block(doc, "input") {
        Some(node) => Some(input_from(node)),
        None => None,
    }
}


// ---------------------------------------------------------------------------
// `style { surface { .. } }`, or the flat `surface` block
// ---------------------------------------------------------------------------

/// A `line_relief` value of the desktop block: a width, or a relief spec
/// that only the relief-material parser reads.
pub enum LineRelief {
    Width(i64),
    Spec(String),
}

impl View for LineRelief {
    type V = (Option<i64>, Option<Seq<char>>);

    open spec fn view(&self) -> Self::V {
        match self {
            LineRelief::Width(w) => (Some(*w), None),
            LineRelief::Spec(s) => (None, Some(s@)),
        }
    }
}

/// The integer-, boolean- and string-valued surface settings. `nested` tells
/// whether they came from the blocks under `style { surface { } }` (then
/// the top-level `surface` block is not read), and `desktop_line_relief`
/// lists the desktop block's `line_relief` values in order: each one, when
/// it reads, replaces the relief width that the ones before it gave.
pub struct SurfaceConfig {
    pub desktop_gap_color: String,
    pub desktop_cell_color: String,
    pub desktop_grid_scale: i64,
    pub grid_cell_width: Option<i64>,
    pub grid_cell_height: Option<i64>,
    pub desktop_gap_width: i64,
    pub desktop_cell_fade_inset: i64,
    pub desktop_grid_fade_mode: String,
    pub desktop_cell_labels: bool,
    pub desktop_snap: bool,
    pub desktop_overview_ramp: String,
    pub desktop_overview_ms: i64,
    pub desktop_snap_threshold: i64,
    pub desktop_edge_pan: bool,
    pub desktop_edge_pan_band: i64,
    pub desktop_edge_pan_speed: i64,
    pub root_plate_color: String,
    pub root_plate_corner_radius: i64,
    pub border_width: i64,
    pub border_color: String,
    pub border_color_focused: Option<String>,
    pub border_color_hover: Option<String>,
    pub border_corner_radius: i64,
    pub border_segment_gap: i64,
    pub fade_in_ms: i64,
    pub fade_out_ms: i64,
    pub border_corner_length: i64,
    pub shadow_enabled: bool,
    pub shadow_color: String,
    pub shadow_offset_x: i64,
    pub shadow_offset_y: i64,
    pub shadow_tiled: bool,
    pub bevel_enabled: bool,
    pub bevel_light: String,
    pub bevel_color: String,
    pub bevel_focus_color: String,
    pub cloud_position_default: Option<[i32; 2]>,
    pub desktop_line_relief: Vec<LineRelief>,
    pub nested: bool,
}

/// The entries of an optional block (none when it is absent).
pub open spec fn entries_of(o: Option<Node>) -> Seq<Entry> {
    match o {
        Some(n) => n.entries@,
        None => Seq::empty(),
    }
}

/// The argument of the child `key` of an optional block.
pub open spec fn flat_arg(o: Option<Node>, key: Seq<char>) -> Option<Entry> {
    match o {
        Some(n) => child_arg(n, key),
        None => None,
    }
}

/// `v`, unless it is the smallest `i64`, which stands for "not set".
pub open spec fn unless_min(v: i64) -> Option<i64> {
    if v == i64::MIN {
        None
    } else {
        Some(v)
    }
}

fn unless_min_exec(v: i64) -> (r: Option<i64>)
    ensures
        r == unless_min(v),
{
    if v == i64::MIN {
        None
    } else {
        Some(v)
    }
}

/// The later of the last integer properties called `a` and `b`.
pub open spec fn last_either(es: Seq<Entry>, a: Seq<char>, b: Seq<char>) -> Option<Entry> {
    match (last_index(es, typed_prop(a, ValueKind::Int)), last_index(es, typed_prop(b, ValueKind::Int))) {
        (Some(x), Some(y)) => if x > y {
            Some(es[x])
        } else {
            Some(es[y])
        },
        (Some(x), None) => Some(es[x]),
        (None, Some(y)) => Some(es[y]),
        (None, None) => None,
    }
}

/// An optional pair as a sequence.
pub open spec fn opt_pair(o: Option<[i32; 2]>) -> Option<Seq<i32>> {
    match o {
        Some(a) => Some(a@),
        None => None,
    }
}

/// The `(vec2i)x y` pair of the first child `key` of `n` written that way.
pub open spec fn vec2i_arg(n: Node, key: Seq<char>) -> Option<Seq<i32>> {
    match first_such(child_nodes(n), vec2i_node(key)) {
        Some(c) => vec2i_of(c),
        None => None,
    }
}

/// The `line_relief` values among `es`, in order: an integer as a width, a
/// string as a relief spec.
pub open spec fn relief_steps(es: Seq<Entry>) -> Seq<(Option<i64>, Option<Seq<char>>)>
    decreases es.len(),
{
    if es.len() == 0 {
        Seq::empty()
    } else {
        let rest = relief_steps(es.drop_last());
        let e = es.last();
        if opt_text(e.name) == Some("line_relief"@) {
            if e.int is Some {
                rest.push((e.int, None))
            } else if e.text is Some {
                rest.push((None, opt_text(e.text)))
            } else {
                rest
            }
        } else {
            rest
        }
    }
}

/// The views of a sequence of relief values.
pub open spec fn relief_views(s: Seq<LineRelief>) -> Seq<(Option<i64>, Option<Seq<char>>)> {
    s.map_values(|x: LineRelief| x@)
}

/// The children of the `surface` node under the `style` block (none when
/// either is missing).
pub open spec fn surface_kids(doc: Seq<Node>) -> Seq<Node> {
    match block(doc, "style"@) {
        Some(s) => match first_such(child_nodes(s), named("surface"@)) {
            Some(sf) => child_nodes(sf),
            None => Seq::empty(),
        },
        None => Seq::empty(),
    }
}

/// What `parse_surface` reads out of the top-level nodes `doc`.
pub open spec fn surface_of(r: SurfaceConfig, doc: Seq<Node>) -> bool {
    let kids = surface_kids(doc);
    let desk = first_such(kids, named("desktop"@));
    let root = match first_such(kids, named("plate"@)) {
        Some(p) => first_such(child_nodes(p), named("root"@)),
        None => None,
    };
    let fade = first_such(kids, named("fade"@));
    let border = first_such(kids, named("border"@));
    let bevel = first_such(kids, named("bevel"@));
    let shadow = first_such(kids, named("shadow"@));
    let cloud = first_such(kids, named("cloud"@));
    let nested = desk is Some || root is Some || fade is Some || border is Some || bevel is Some
        || shadow is Some || cloud is Some;
    let flat = block(doc, "surface"@);
    if nested {
        &&& r.nested
        &&& r.desktop_gap_color@ == text_or(last_typed(entries_of(desk), "gap_color"@, ValueKind::Text), "#000000"@)
        &&& r.desktop_cell_color@ == text_or(last_typed(entries_of(desk), "cell_color"@, ValueKind::Text), "#ffffff0d"@)
        &&& r.desktop_grid_scale == int_or(last_either(entries_of(desk), "grid_cell_size"@, "desktop_grid_scale"@), 100)
        &&& r.grid_cell_width == int_of(last_typed(entries_of(desk), "grid_cell_width"@, ValueKind::Int))
        &&& r.grid_cell_height == int_of(last_typed(entries_of(desk), "grid_cell_height"@, ValueKind::Int))
        &&& r.desktop_gap_width == int_or(last_typed(entries_of(desk), "gap_width"@, ValueKind::Int), 1)
        &&& r.desktop_cell_fade_inset == int_or(last_typed(entries_of(desk), "cell_fade_inset"@, ValueKind::Int), 0)
        &&& r.desktop_grid_fade_mode@ == text_or(last_typed(entries_of(desk), "grid_fade_mode"@, ValueKind::Text), "linear"@)
        &&& r.desktop_cell_labels == flag_or(last_typed(entries_of(desk), "cell_labels"@, ValueKind::Flag), true)
        &&& r.desktop_snap == flag_or(last_typed(entries_of(desk), "snap"@, ValueKind::Flag), true)
        &&& r.desktop_overview_ramp@ == text_or(last_typed(entries_of(desk), "overview_ramp"@, ValueKind::Text), ""@)
        &&& r.desktop_overview_ms == int_or(last_typed(entries_of(desk), "overview_ms"@, ValueKind::Int), 350)
        &&& r.desktop_snap_threshold == int_or(last_typed(entries_of(desk), "snap_threshold"@, ValueKind::Int), 24)
        &&& r.desktop_edge_pan == flag_or(last_typed(entries_of(desk), "edge_pan"@, ValueKind::Flag), true)
        &&& r.desktop_edge_pan_band == int_or(last_typed(entries_of(desk), "edge_pan_band"@, ValueKind::Int), 32)
        &&& r.desktop_edge_pan_speed == int_or(last_typed(entries_of(desk), "edge_pan_speed"@, ValueKind::Int), 1000)
        &&& r.root_plate_color@ == text_or(last_typed(entries_of(root), "color"@, ValueKind::Text), "#151520e6"@)
        &&& r.root_plate_corner_radius == int_or(last_typed(entries_of(root), "corner_radius"@, ValueKind::Int), 12)
        &&& r.border_width == int_or(last_typed(entries_of(border), "width"@, ValueKind::Int), 0)
        &&& r.border_color@ == text_or(last_typed(entries_of(border), "color"@, ValueKind::Text), "#3e3e3e"@)
        &&& opt_text(r.border_color_focused) == text_of(last_typed(entries_of(border), "color_focused"@, ValueKind::Text))
        &&& opt_text(r.border_color_hover) == text_of(last_typed(entries_of(border), "color_hover"@, ValueKind::Text))
        &&& r.border_corner_radius == int_or(last_typed(entries_of(border), "corner_radius"@, ValueKind::Int), 0)
        &&& r.border_segment_gap == int_or(last_typed(entries_of(border), "segment_gap"@, ValueKind::Int), 4)
        &&& r.fade_in_ms == int_or(last_typed(entries_of(fade), "in_ms"@, ValueKind::Int), 140)
        &&& r.fade_out_ms == int_or(last_typed(entries_of(fade), "out_ms"@, ValueKind::Int), 120)
        &&& r.border_corner_length == int_or(last_typed(entries_of(border), "corner_length"@, ValueKind::Int), 0)
        &&& r.shadow_enabled == flag_or(last_typed(entries_of(shadow), "enabled"@, ValueKind::Flag), true)
        &&& r.shadow_color@ == text_or(last_typed(entries_of(shadow), "color"@, ValueKind::Text), "#0000008c"@)
        &&& r.shadow_offset_x == int_or(last_typed(entries_of(shadow), "offset_x"@, ValueKind::Int), 7)
        &&& r.shadow_offset_y == int_or(last_typed(entries_of(shadow), "offset_y"@, ValueKind::Int), 7)
        &&& r.shadow_tiled == flag_or(last_typed(entries_of(shadow), "tiled"@, ValueKind::Flag), true)
        &&& r.bevel_enabled == flag_or(last_typed(entries_of(bevel), "enabled"@, ValueKind::Flag), true)
        &&& r.bevel_light@ == text_or(last_typed(entries_of(bevel), "light"@, ValueKind::Text), "top-left"@)
        &&& r.bevel_color@ == text_or(last_typed(entries_of(bevel), "color"@, ValueKind::Text), "#ffffffff"@)
        &&& r.bevel_focus_color@ == text_or(last_typed(entries_of(bevel), "focus_color"@, ValueKind::Text), "#59c7c7"@)
        &&& opt_pair(r.cloud_position_default) == match cloud {
            Some(c) => vec2i_arg(c, "position_default"@),
            None => None,
        }
        &&& relief_views(r.desktop_line_relief@) == relief_steps(entries_of(desk))
    } else {
        &&& !r.nested
        &&& r.desktop_gap_color@ == text_or(flat_arg(flat, "desktop_gap_color"@), "#000000"@)
        &&& r.desktop_cell_color@ == text_or(flat_arg(flat, "desktop_cell_color"@), "#ffffff0d"@)
        &&& r.desktop_grid_scale == int_or(flat_arg(flat, "grid_cell_size"@), int_or(flat_arg(flat, "desktop_grid_scale"@), 100))
        &&& r.grid_cell_width == unless_min(int_or(flat_arg(flat, "grid_cell_width"@), i64::MIN))
        &&& r.grid_cell_height == unless_min(int_or(flat_arg(flat, "grid_cell_height"@), i64::MIN))
        &&& r.desktop_gap_width == int_or(flat_arg(flat, "desktop_gap_width"@), 1)
        &&& r.desktop_cell_fade_inset == int_or(flat_arg(flat, "desktop_cell_fade_inset"@), 0)
        &&& r.desktop_grid_fade_mode@ == text_or(flat_arg(flat, "grid_fade_mode"@), "linear"@)
        &&& r.desktop_cell_labels == true
        &&& r.desktop_snap == flag_or(flat_arg(flat, "desktop_snap"@), true)
        &&& r.desktop_overview_ramp@ == text_or(flat_arg(flat, "desktop_overview_ramp"@), ""@)
        &&& r.desktop_overview_ms == int_or(flat_arg(flat, "desktop_overview_ms"@), 350)
        &&& r.desktop_snap_threshold == int_or(flat_arg(flat, "desktop_snap_threshold"@), 24)
        &&& r.desktop_edge_pan == flag_or(flat_arg(flat, "desktop_edge_pan"@), true)
        &&& r.desktop_edge_pan_band == int_or(flat_arg(flat, "desktop_edge_pan_band"@), 32)
        &&& r.desktop_edge_pan_speed == int_or(flat_arg(flat, "desktop_edge_pan_speed"@), 1000)
        &&& r.root_plate_color@ == text_or(flat_arg(flat, "root_plate_color"@), "#151520e6"@)
        &&& r.root_plate_corner_radius == int_or(flat_arg(flat, "root_plate_corner_radius"@), 12)
        &&& r.border_width == int_or(flat_arg(flat, "border_width"@), 0)
        &&& r.border_color@ == text_or(flat_arg(flat, "border_color"@), "#3e3e3e"@)
        &&& opt_text(r.border_color_focused) == text_of(flat_arg(flat, "border_color_focused"@))
        &&& opt_text(r.border_color_hover) == text_of(flat_arg(flat, "border_color_hover"@))
        &&& r.border_corner_radius == int_or(flat_arg(flat, "border_corner_radius"@), 0)
        &&& r.border_segment_gap == int_or(flat_arg(flat, "border_segment_gap"@), 4)
        &&& r.fade_in_ms == 140
        &&& r.fade_out_ms == 120
        &&& r.border_corner_length == int_or(flat_arg(flat, "border_corner_length"@), 0)
        &&& r.shadow_enabled == true
        &&& r.shadow_color@ == "#0000008c"@
        &&& r.shadow_offset_x == 7
        &&& r.shadow_offset_y == 7
        &&& r.shadow_tiled == true
        &&& r.bevel_enabled == true
        &&& r.bevel_light@ == "top-left"@
        &&& r.bevel_color@ == "#ffffffff"@
        &&& r.bevel_focus_color@ == "#59c7c7"@
        &&& opt_pair(r.cloud_position_default) == match flat {
            Some(n) => vec2i_arg(n, "cloud_position_default"@),
            None => None,
        }
        &&& r.desktop_line_relief@.len() == 0
    }
}

fn nested_text(es: &Vec<Entry>, key: &str, default: String) -> (r: String)
    ensures
        r@ == text_or(last_typed(es@, key@, ValueKind::Text), default@),
{
    match last_text(es, key) {
        Some(t) => t,
        None => default,
    }
}

fn nested_text_opt(es: &Vec<Entry>, key: &str) -> (r: Option<String>)
    ensures
        opt_text(r) == text_of(last_typed(es@, key@, ValueKind::Text)),
{
    last_text(es, key)
}

fn nested_int(es: &Vec<Entry>, key: &str, default: i64) -> (r: i64)
    ensures
        r == int_or(last_typed(es@, key@, ValueKind::Int), default),
{
    match last_int(es, key) {
        Some(v) => v,
        None => default,
    }
}

fn nested_int_opt(es: &Vec<Entry>, key: &str) -> (r: Option<i64>)
    ensures
        r == int_of(last_typed(es@, key@, ValueKind::Int)),
{
    last_int(es, key)
}

fn nested_flag(es: &Vec<Entry>, key: &str, default: bool) -> (r: bool)
    ensures
        r == flag_or(last_typed(es@, key@, ValueKind::Flag), default),
{
    match last_flag(es, key) {
        Some(v) => v,
        None => default,
    }
}

fn nested_grid_scale(es: &Vec<Entry>, default: i64) -> (r: i64)
    ensures
        r == int_or(last_either(es@, "grid_cell_size"@, "desktop_grid_scale"@), default),
{
    let a = find_last_typed(es, "grid_cell_size", ValueKind::Int);
    let b = find_last_typed(es, "desktop_grid_scale", ValueKind::Int);
    let pick = match (a, b) {
        (Some(x), Some(y)) => if x > y {
            Some(x)
        } else {
            Some(y)
        },
        (Some(x), None) => Some(x),
        (None, Some(y)) => Some(y),
        (None, None) => None,
    };
    match pick {
        Some(i) => match es[i].int {
            Some(v) => v,
            None => default,
        },
        None => default,
    }
}

fn relief_steps_from(es: &Vec<Entry>) -> (r: Vec<LineRelief>)
    ensures
        relief_views(r@) == relief_steps(es@),
{
    let mut out: Vec<LineRelief> = Vec::new();
    let mut i: usize = 0;
    while i < es.len()
        invariant
            0 <= i <= es.len(),
            relief_views(out@) == relief_steps(es@.subrange(0, i as int)),
        decreases es.len() - i,
    {
        assert(es@.subrange(0, i as int + 1).drop_last() == es@.subrange(0, i as int));
        let ghost before = out@;
        let e = &es[i];
        let named_relief = match &e.name {
            Some(k) => str_eq(k.as_str(), "line_relief"),
            None => false,
        };
        if named_relief {
            match e.int {
                Some(w) => {
                    out.push(LineRelief::Width(w));
                    assert(relief_views(out@) == relief_views(before).push((Some(w), None)));
                },
                None => match &e.text {
                    Some(t) => {
                        let step = LineRelief::Spec(t.clone());
                        out.push(step);
                        assert(relief_views(out@) == relief_views(before).push(step@));
                    },
                    None => {},
                },
            }
        }
        assert(relief_views(out@) == relief_steps(es@.subrange(0, i as int + 1)));
        i = i + 1;
    }
    assert(es@.subrange(0, es.len() as int) == es@);
    out
}

fn flat_text(o: Option<&Node>, key: &str, default: String) -> (r: String)
    ensures
        r@ == text_or(
            match o {
                Some(n) => child_arg(*n, key@),
                None => None,
            },
            default@,
        ),
{
    match o {
        Some(n) => get_child_arg_string(n, key, default.as_str()),
        None => default,
    }
}

fn flat_text_opt(o: Option<&Node>, key: &str) -> (r: Option<String>)
    ensures
        opt_text(r) == text_of(
            match o {
                Some(n) => child_arg(*n, key@),
                None => None,
            },
        ),
{
    match o {
        Some(n) => get_child_arg_string_opt(n, key),
        None => None,
    }
}

fn flat_int(o: Option<&Node>, key: &str, default: i64) -> (r: i64)
    ensures
        r == int_or(
            match o {
                Some(n) => child_arg(*n, key@),
                None => None,
            },
            default,
        ),
{
    match o {
        Some(n) => get_child_arg_i64(n, key, default),
        None => default,
    }
}

fn flat_flag(o: Option<&Node>, key: &str, default: bool) -> (r: bool)
    ensures
        r == flag_or(
            match o {
                Some(n) => child_arg(*n, key@),
                None => None,
            },
            default,
        ),
{
    match o {
        Some(n) => get_child_arg_bool(n, key, default),
        None => default,
    }
}

/// The surface settings: from the blocks under `style { surface { } }` when
/// there are any, else from the top-level `surface` block, each at its
/// default where the file leaves it out.
pub fn parse_surface(doc: &Vec<Node>) -> (r: SurfaceConfig)
    ensures
        surface_of(r, doc@),
{
    let kids: Vec<Node> = match find_block(doc, "style") {
        Some(s) => {
            let sk = children_of(s);
            match find_block(&sk, "surface") {
                Some(sf) => children_of(sf),
                None => Vec::new(),
            }
        },
        None => Vec::new(),
    };
    let plate_kids: Vec<Node> = match find_block(&kids, "plate") {
        Some(p) => children_of(p),
        None => Vec::new(),
    };
    let desk = find_block(&kids, "desktop");
    let root = find_block(&plate_kids, "root");
    let fade = find_block(&kids, "fade");
    let border = find_block(&kids, "border");
    let bevel = find_block(&kids, "bevel");
    let shadow = find_block(&kids, "shadow");
    let cloud = find_block(&kids, "cloud");
    let nested = desk.is_some() || root.is_some() || fade.is_some() || border.is_some()
        || bevel.is_some() || shadow.is_some() || cloud.is_some();
    if nested {
        let empty: Vec<Entry> = Vec::new();
        let desk_es: &Vec<Entry> = match desk {
            Some(n) => &n.entries,
            None => &empty,
        };
        let root_es: &Vec<Entry> = match root {
            Some(n) => &n.entries,
            None => &empty,
        };
        let fade_es: &Vec<Entry> = match fade {
            Some(n) => &n.entries,
            None => &empty,
        };
        let border_es: &Vec<Entry> = match border {
            Some(n) => &n.entries,
            None => &empty,
        };
        let bevel_es: &Vec<Entry> = match bevel {
            Some(n) => &n.entries,
            None => &empty,
        };
        let shadow_es: &Vec<Entry> = match shadow {
            Some(n) => &n.entries,
            None => &empty,
        };
        SurfaceConfig {
            desktop_gap_color: nested_text(&desk_es, "gap_color", default_desktop_gap_color()),
            desktop_cell_color: nested_text(&desk_es, "cell_color", default_desktop_cell_color()),
            desktop_grid_scale: nested_grid_scale(&desk_es, default_desktop_grid_scale()),
            grid_cell_width: nested_int_opt(&desk_es, "grid_cell_width"),
            grid_cell_height: nested_int_opt(&desk_es, "grid_cell_height"),
            desktop_gap_width: nested_int(&desk_es, "gap_width", default_desktop_gap_width()),
            desktop_cell_fade_inset: nested_int(&desk_es, "cell_fade_inset", default_desktop_cell_fade_inset()),
            desktop_grid_fade_mode: nested_text(&desk_es, "grid_fade_mode", default_desktop_grid_fade_mode()),
            desktop_cell_labels: nested_flag(&desk_es, "cell_labels", default_desktop_cell_labels()),
            desktop_snap: nested_flag(&desk_es, "snap", default_desktop_snap()),
            desktop_overview_ramp: nested_text(&desk_es, "overview_ramp", String::from_str("")),
            desktop_overview_ms: nested_int(&desk_es, "overview_ms", default_desktop_overview_ms()),
            desktop_snap_threshold: nested_int(&desk_es, "snap_threshold", default_desktop_snap_threshold()),
            desktop_edge_pan: nested_flag(&desk_es, "edge_pan", default_desktop_edge_pan()),
            desktop_edge_pan_band: nested_int(&desk_es, "edge_pan_band", default_desktop_edge_pan_band()),
            desktop_edge_pan_speed: nested_int(&desk_es, "edge_pan_speed", default_desktop_edge_pan_speed()),
            root_plate_color: nested_text(&root_es, "color", default_root_plate_color()),
            root_plate_corner_radius: nested_int(&root_es, "corner_radius", default_root_plate_corner_radius()),
            border_width: nested_int(&border_es, "width", default_border_width()),
            border_color: nested_text(&border_es, "color", default_border_color()),
            border_color_focused: nested_text_opt(&border_es, "color_focused"),
            border_color_hover: nested_text_opt(&border_es, "color_hover"),
            border_corner_radius: nested_int(&border_es, "corner_radius", default_border_corner_radius()),
            border_segment_gap: nested_int(&border_es, "segment_gap", default_border_segment_gap()),
            fade_in_ms: nested_int(&fade_es, "in_ms", default_fade_in_ms()),
            fade_out_ms: nested_int(&fade_es, "out_ms", default_fade_out_ms()),
            border_corner_length: nested_int(&border_es, "corner_length", 0),
            shadow_enabled: nested_flag(&shadow_es, "enabled", default_shadow_enabled()),
            shadow_color: nested_text(&shadow_es, "color", default_shadow_color()),
            shadow_offset_x: nested_int(&shadow_es, "offset_x", default_shadow_offset_x()),
            shadow_offset_y: nested_int(&shadow_es, "offset_y", default_shadow_offset_y()),
            shadow_tiled: nested_flag(&shadow_es, "tiled", default_shadow_tiled()),
            bevel_enabled: nested_flag(&bevel_es, "enabled", default_bevel_enabled()),
            bevel_light: nested_text(&bevel_es, "light", default_bevel_light()),
            bevel_color: nested_text(&bevel_es, "color", default_bevel_color()),
            bevel_focus_color: nested_text(&bevel_es, "focus_color", default_bevel_focus_color()),
            cloud_position_default: match cloud {
                Some(c) => get_child_arg_vec2i_opt(c, "position_default"),
                None => None,
            },
            desktop_line_relief: relief_steps_from(&desk_es),
            nested: true,
        }
    } else {
        let flat = find_block(doc, "surface");
        SurfaceConfig {
            desktop_gap_color: flat_text(flat, "desktop_gap_color", default_desktop_gap_color()),
            desktop_cell_color: flat_text(flat, "desktop_cell_color", default_desktop_cell_color()),
            desktop_grid_scale: flat_int(flat, "grid_cell_size", flat_int(flat, "desktop_grid_scale", default_desktop_grid_scale())),
            grid_cell_width: unless_min_exec(flat_int(flat, "grid_cell_width", i64::MIN)),
            grid_cell_height: unless_min_exec(flat_int(flat, "grid_cell_height", i64::MIN)),
            desktop_gap_width: flat_int(flat, "desktop_gap_width", default_desktop_gap_width()),
            desktop_cell_fade_inset: flat_int(flat, "desktop_cell_fade_inset", default_desktop_cell_fade_inset()),
            desktop_grid_fade_mode: flat_text(flat, "grid_fade_mode", default_desktop_grid_fade_mode()),
            desktop_cell_labels: default_desktop_cell_labels(),
            desktop_snap: flat_flag(flat, "desktop_snap", default_desktop_snap()),
            desktop_overview_ramp: flat_text(flat, "desktop_overview_ramp", String::from_str("")),
            desktop_overview_ms: flat_int(flat, "desktop_overview_ms", default_desktop_overview_ms()),
            desktop_snap_threshold: flat_int(flat, "desktop_snap_threshold", default_desktop_snap_threshold()),
            desktop_edge_pan: flat_flag(flat, "desktop_edge_pan", default_desktop_edge_pan()),
            desktop_edge_pan_band: flat_int(flat, "desktop_edge_pan_band", default_desktop_edge_pan_band()),
            desktop_edge_pan_speed: flat_int(flat, "desktop_edge_pan_speed", default_desktop_edge_pan_speed()),
            root_plate_color: flat_text(flat, "root_plate_color", default_root_plate_color()),
            root_plate_corner_radius: flat_int(flat, "root_plate_corner_radius", default_root_plate_corner_radius()),
            border_width: flat_int(flat, "border_width", default_border_width()),
            border_color: flat_text(flat, "border_color", default_border_color()),
            border_color_focused: flat_text_opt(flat, "border_color_focused"),
            border_color_hover: flat_text_opt(flat, "border_color_hover"),
            border_corner_radius: flat_int(flat, "border_corner_radius", default_border_corner_radius()),
            border_segment_gap: flat_int(flat, "border_segment_gap", default_border_segment_gap()),
            fade_in_ms: default_fade_in_ms(),
            fade_out_ms: default_fade_out_ms(),
            border_corner_length: flat_int(flat, "border_corner_length", 0),
            shadow_enabled: default_shadow_enabled(),
            shadow_color: default_shadow_color(),
            shadow_offset_x: default_shadow_offset_x(),
            shadow_offset_y: default_shadow_offset_y(),
            shadow_tiled: default_shadow_tiled(),
            bevel_enabled: default_bevel_enabled(),
            bevel_light: default_bevel_light(),
            bevel_color: default_bevel_color(),
            bevel_focus_color: default_bevel_focus_color(),
            cloud_position_default: match flat {
                Some(n) => get_child_arg_vec2i_opt(n, "cloud_position_default"),
                None => None,
            },
            desktop_line_relief: Vec::new(),
            nested: false,
        }
    }
}


// ---------------------------------------------------------------------------
// The whole file
// ---------------------------------------------------------------------------

/// Everything the configuration file sets that is an integer, a boolean or
/// a string.
pub struct Config {
    pub layout: LayoutConfig,
    /// The `env` variables as a map: each name once, with the value its
    /// last setting gives (`env_map`, `holds_map`).
    pub env: Vec<(String, String)>,
    pub key_bindings: Vec<KeybindConfig>,
    pub pointer_bind: Vec<PointerBindConfig>,
    pub mode_rule: Vec<ModeRuleConfig>,
    pub tag_layout: Vec<TagLayoutConfig>,
    pub startup: Vec<StartupConfig>,
    pub output: Option<OutputConfig>,
    pub displays: Vec<DisplayConfig>,
    pub input: Option<InputConfig>,
    pub gesture_bind: Vec<GestureBindConfig>,
    pub surface: SurfaceConfig,
    pub window_manager: Option<WindowManagerConfig>,
    pub idle: IdleConfig,
}

/// The key bindings of a file: those of its `key_bindings` nodes, or, when
/// it has none, those of the `key_bindings` nodes inside its `input` block;
/// then the displays' brightness keys.
pub open spec fn all_keybinds(doc: Seq<Node>) -> Seq<(Seq<char>, Seq<char>, Seq<char>, Option<Seq<char>>)> {
    let listed = keybinds_in(doc);
    let base = if listed.len() == 0 {
        match block(doc, "input"@) {
            Some(i) => keybinds_in(child_nodes(i)),
            None => listed,
        }
    } else {
        listed
    };
    base + brightness_binds(displays_of(doc))
}

/// The variables of the `env` block.
pub open spec fn env_of(doc: Seq<Node>) -> Map<Seq<char>, Seq<char>> {
    match block(doc, "env"@) {
        Some(n) => env_map(child_nodes(n)),
        None => Map::empty(),
    }
}

/// What a configuration file whose top-level nodes are `doc` sets.
pub open spec fn config_of(c: Config, doc: Seq<Node>) -> bool {
    &&& layout_of(c.layout, doc)
    &&& holds_map(c.env@, env_of(doc))
    &&& keybind_views(c.key_bindings@) == all_keybinds(doc)
    &&& c.pointer_bind@.map_values(|x: PointerBindConfig| x@) == pointer_binds_in(doc)
    &&& c.mode_rule@.map_values(|x: ModeRuleConfig| x@) == mode_rules_in(doc)
    &&& c.tag_layout@.map_values(|x: TagLayoutConfig| x@) == tag_layouts_in(doc)
    &&& c.startup@.map_values(|x: StartupConfig| x@) == startups_in(doc)
    &&& match c.output {
        Some(o) => output_of(doc) == Some(o.scenefx_optimized_blur),
        None => output_of(doc) is None,
    }
    &&& c.displays@.map_values(|d: DisplayConfig| d@) == displays_of(doc)
    &&& match block(doc, "input"@) {
        Some(n) => c.input matches Some(i) && input_of(i, n),
        None => c.input is None,
    }
    &&& c.gesture_bind@.map_values(|x: GestureBindConfig| x@) == gesture_binds_in(doc)
    &&& surface_of(c.surface, doc)
    &&& match first_such(doc, wm_named()) {
        Some(n) => c.window_manager matches Some(w) && window_manager_of(w, n),
        None => c.window_manager is None,
    }
    &&& idle_of(c.idle, doc)
}

/// The settings of a configuration file whose top-level nodes are `doc`.
pub fn config_from_nodes(doc: &Vec<Node>) -> (c: Config)
    ensures
        config_of(c, doc@),
{
    let layout = parse_layout(doc);
    let env = match find_block(doc, "env") {
        Some(n) => {
            let cs = children_of(n);
            env_from(&cs)
        },
        None => {
            let v: Vec<(String, String)> = Vec::new();
            assert(holds_map(v@, Map::empty()));
            v
        },
    };
    let mut key_bindings = keybinds_from(doc);
    if key_bindings.len() == 0 {
        if let Some(input) = find_block(doc, "input") {
            let cs = children_of(input);
            key_bindings = keybinds_from(&cs);
        }
    }
    let displays = parse_displays(doc);
    push_brightness_binds(&mut key_bindings, &displays);
    Config {
        layout,
        env,
        key_bindings,
        pointer_bind: pointer_binds_from(doc),
        mode_rule: mode_rules_from(doc),
        tag_layout: tag_layouts_from(doc),
        startup: startups_from(doc),
        output: parse_output(doc),
        displays,
        input: parse_input(doc),
        gesture_bind: gesture_binds_from(doc),
        surface: parse_surface(doc),
        window_manager: parse_window_manager(doc),
        idle: parse_idle(doc),
    }
}

/// The message for a file that is not KDL.
pub open spec fn parse_error_message(e: Seq<char>) -> Seq<char> {
    "KDL parse error: "@ + e
}

/// Reads a configuration file's text: its settings, or, when the text is not
/// a KDL document, the parser's message.
pub fn parse_kdl_config(content: &str) -> (r: Result<Config, String>)
    ensures
        match kdl_parse(content@) {
            Ok(doc) => r matches Ok(c) && config_of(c, doc),
            Err(e) => r matches Err(m) && m@ == parse_error_message(e),
        },
{
    match parse_document(content) {
        Ok(d) => {
            let doc = document_nodes(&d);
            Ok(config_from_nodes(&doc))
        },
        Err(e) => {
            let mut m = String::from_str("KDL parse error: ");
            push_str(&mut m, e.as_str());
            Err(m)
        },
    }
}


/// Folds the settings of an `input.kdl` beside the main file into the main
/// file's: its key bindings come after the main file's, and its `input`
/// block, when it has one, replaces the main file's. Nothing else of it is
/// taken.
pub fn merge_input_file(config: Config, extra: Config) -> (r: Config)
    ensures
        r.key_bindings@ == config.key_bindings@ + extra.key_bindings@,
        r.input == (if extra.input is Some {
            extra.input
        } else {
            config.input
        }),
        r.layout == config.layout,
        r.env == config.env,
        r.pointer_bind == config.pointer_bind,
        r.mode_rule == config.mode_rule,
        r.tag_layout == config.tag_layout,
        r.startup == config.startup,
        r.output == config.output,
        r.displays == config.displays,
        r.gesture_bind == config.gesture_bind,
        r.surface == config.surface,
        r.window_manager == config.window_manager,
        r.idle == config.idle,
{
    let mut r = config;
    let mut extra = extra;
    r.key_bindings.append(&mut extra.key_bindings);
    if extra.input.is_some() {
        r.input = extra.input;
    }
    r
}

// ---------------------------------------------------------------------------
// Variables in values
// ---------------------------------------------------------------------------

/// A character that may start a variable name: an ASCII letter or `_`.
pub open spec fn starts_name(c: char) -> bool {
    ('a' <= c && c <= 'z') || ('A' <= c && c <= 'Z') || c == '_'
}

/// A character that may continue a variable name: an ASCII letter or digit, or `_`.
pub open spec fn continues_name(c: char) -> bool {
    starts_name(c) || ('0' <= c && c <= '9')
}

/// The first index at or after `i` that holds `c`.
pub open spec fn find_char_from(s: Seq<char>, c: char, i: int) -> Option<int>
    decreases s.len() - i,
{
    if i < 0 || i >= s.len() {
        None
    } else if s[i] == c {
        Some(i)
    } else {
        find_char_from(s, c, i + 1)
    }
}

/// The end of the run of name characters that starts at `i`.
pub open spec fn name_end(s: Seq<char>, i: int) -> int
    decreases s.len() - i,
{
    if i < 0 || i >= s.len() || !continues_name(s[i]) {
        i
    } else {
        name_end(s, i + 1)
    }
}

/// The value of the variable `name` in `env` (the first pair so named), or
/// nothing when it is not set.
pub open spec fn env_value(env: Seq<(String, String)>, name: Seq<char>) -> Seq<char>
    decreases env.len(),
{
    if env.len() == 0 {
        Seq::empty()
    } else if env[0].0@ == name {
        env[0].1@
    } else {
        env_value(env.drop_first(), name)
    }
}

/// `s` from index `i` on with `$NAME` and `${NAME}` replaced by the
/// variables' values; a `$` that starts neither, and a `${` that is never
/// closed, stay as they are.
pub open spec fn expand_from(s: Seq<char>, env: Seq<(String, String)>, i: int) -> Seq<char>
    decreases s.len() - i,
{
    if i < 0 || i >= s.len() {
        Seq::empty()
    } else if s[i] == '$' && i + 1 < s.len() {
        if s[i + 1] == '{' {
            proof {
                lemma_find_char_from(s, '}', i + 2);
            }
            match find_char_from(s, '}', i + 2) {
                Some(j) => if j > i {
                    env_value(env, s.subrange(i + 2, j)) + expand_from(s, env, j + 1)
                } else {
                    Seq::empty()
                },
                None => seq!['$'] + expand_from(s, env, i + 1),
            }
        } else if starts_name(s[i + 1]) {
            proof {
                lemma_name_end(s, i + 1);
            }
            let e = name_end(s, i + 1);
            if e > i {
                env_value(env, s.subrange(i + 1, e)) + expand_from(s, env, e)
            } else {
                Seq::empty()
            }
        } else {
            seq!['$'] + expand_from(s, env, i + 1)
        }
    } else {
        seq![s[i]] + expand_from(s, env, i + 1)
    }
}

pub proof fn lemma_find_char_from(s: Seq<char>, c: char, i: int)
    requires
        0 <= i,
    ensures
        match find_char_from(s, c, i) {
            Some(j) => i <= j < s.len() && s[j] == c && forall|k: int| i <= k < j ==> s[k] != c,
            None => forall|k: int| i <= k < s.len() ==> s[k] != c,
        },
    decreases s.len() - i,
{
    if i < s.len() && s[i] != c {
        lemma_find_char_from(s, c, i + 1);
    }
}

pub proof fn lemma_name_end(s: Seq<char>, i: int)
    requires
        0 <= i <= s.len(),
    ensures
        i <= name_end(s, i) <= s.len(),
    decreases s.len() - i,
{
    if i < s.len() && continues_name(s[i]) {
        lemma_name_end(s, i + 1);
    }
}

/// An ASCII letter, digit or underscore.
pub open spec fn word_char(c: char) -> bool {
    ('a' <= c && c <= 'z') || ('A' <= c && c <= 'Z') || ('0' <= c && c <= '9') || c == '_'
}

proof fn lemma_name_runs_to(s: Seq<char>, end: int, j: int)
    requires
        1 <= j <= end <= s.len(),
        forall|q: int| 1 <= q < end ==> word_char(#[trigger] s[q]),
        end == s.len() || !word_char(s[end]),
    ensures
        name_end(s, j) == end,
    decreases end - j,
{
    if j < end {
        lemma_name_runs_to(s, end, j + 1);
    }
}

/// `$NAME` stands for the variable `NAME` whole: for a name of ASCII
/// letters, digits and underscores that does not start with a digit,
/// followed by anything that is none of these, expanding `$` + name + rest
/// gives the name's value in `env` (the first pair so named; nothing when
/// unset) followed by the expansion of the rest. An underscore or a digit
/// inside the name continues it.
pub proof fn lemma_dollar_name_expands_whole(
    name: Seq<char>,
    rest: Seq<char>,
    env: Seq<(String, String)>,
)
    requires
        name.len() > 0,
        !('0' <= name[0] && name[0] <= '9'),
        forall|q: int| 0 <= q < name.len() ==> word_char(#[trigger] name[q]),
        rest.len() == 0 || !word_char(rest[0]),
    ensures
        ({
            let s = seq!['$'] + name + rest;
            expand_from(s, env, 0) == env_value(env, name) + expand_from(
                s,
                env,
                name.len() + 1 as int,
            )
        }),
        forall|k: int|
            0 <= k < env.len() && #[trigger] env[k].0@ == name && (forall|q: int|
                0 <= q < k ==> env[q].0@ != name) ==> expand_from(
                seq!['$'] + name + rest,
                env,
                0,
            ) == env[k].1@ + expand_from(seq!['$'] + name + rest, env, name.len() + 1 as int),
{
    let s = seq!['$'] + name + rest;
    let end: int = name.len() + 1 as int;
    assert forall|q: int| 1 <= q < end implies word_char(#[trigger] s[q]) by {
        assert(s[q] == name[q - 1]);
    }
    if end < s.len() {
        assert(s[end] == rest[0]);
    }
    lemma_name_runs_to(s, end, 1);
    assert(s[0] == '$');
    assert(s[1] == name[0]);
    assert(s.subrange(1, end) =~= name);
    assert forall|k: int|
        0 <= k < env.len() && #[trigger] env[k].0@ == name && (forall|q: int|
            0 <= q < k ==> env[q].0@ != name) implies env_value(env, name) == env[k].1@ by {
        lemma_env_value_at(env, name, k);
    }
}

proof fn lemma_env_value_at(env: Seq<(String, String)>, name: Seq<char>, k: int)
    requires
        0 <= k < env.len(),
        env[k].0@ == name,
        forall|q: int| 0 <= q < k ==> env[q].0@ != name,
    ensures
        env_value(env, name) == env[k].1@,
    decreases k,
{
    if k > 0 {
        assert forall|q: int| 0 <= q < k - 1 implies env.drop_first()[q].0@ != name by {
            assert(env.drop_first()[q] == env[q + 1]);
        }
        lemma_env_value_at(env.drop_first(), name, k - 1);
    }
}

fn is_name_start(c: char) -> (r: bool)
    ensures
        r == starts_name(c),
{
    ('a' <= c && c <= 'z') || ('A' <= c && c <= 'Z') || c == '_'
}

fn is_name_char(c: char) -> (r: bool)
    ensures
        r == continues_name(c),
{
    is_name_start(c) || ('0' <= c && c <= '9')
}

fn find_char(v: &Vec<char>, c: char, from: usize) -> (r: Option<usize>)
    ensures
        opt_index(r) == find_char_from(v@, c, from as int),
{
    let mut k = from;
    while k < v.len()
        invariant
            from <= k,
            find_char_from(v@, c, from as int) == find_char_from(v@, c, k as int),
        decreases v.len() - k,
    {
        if v[k] == c {
            return Some(k);
        }
        k = k + 1;
    }
    None
}

fn scan_name(v: &Vec<char>, from: usize) -> (r: usize)
    requires
        from <= v.len(),
    ensures
        r == name_end(v@, from as int),
{
    let mut k = from;
    while k < v.len() && is_name_char(v[k])
        invariant
            from <= k <= v.len(),
            name_end(v@, from as int) == name_end(v@, k as int),
        decreases v.len() - k,
    {
        k = k + 1;
    }
    k
}

fn lookup_env(env: &Vec<(String, String)>, name: &Vec<char>) -> (r: Vec<char>)
    ensures
        r@ == env_value(env@, name@),
{
    let mut k: usize = 0;
    assert(env@.subrange(0, env.len() as int) == env@);
    while k < env.len()
        invariant
            0 <= k <= env.len(),
            env_value(env@, name@) == env_value(env@.subrange(k as int, env.len() as int), name@),
        decreases env.len() - k,
    {
        let ghost rest = env@.subrange(k as int, env.len() as int);
        assert(rest[0] == env@[k as int]);
        assert(rest.drop_first() == env@.subrange(k as int + 1, env.len() as int));
        if chars_eq_str(name, env[k].0.as_str()) {
            return chars_of(env[k].1.as_str());
        }
        k = k + 1;
    }
    Vec::new()
}

/// `s` with each `$NAME` (a letter or `_`, then letters, digits and `_`)
/// and `${NAME}` replaced by the value of that variable in `env`, the empty
/// text when it is not set.
pub fn expand_env_vars(s: &str, env: &Vec<(String, String)>) -> (r: String)
    ensures
        r@ == expand_from(s@, env@, 0),
{
    let chars = chars_of(s);
    let mut out: Vec<char> = Vec::new();
    let mut i: usize = 0;
    while i < chars.len()
        invariant
            0 <= i <= chars.len(),
            chars@ == s@,
            out@ + expand_from(chars@, env@, i as int) == expand_from(chars@, env@, 0),
        decreases chars.len() - i,
    {
        let ghost old_out = out@;
        let ghost here = i as int;
        if chars[i] == '$' && i + 1 < chars.len() {
            if chars[i + 1] == '{' {
                match find_char(&chars, '}', i + 2) {
                    Some(end) => {
                        proof { lemma_find_char_from(chars@, '}', i + 2); }
                        let name = sub_vec(&chars, i + 2, end);
                        let value = lookup_env(env, &name);
                        let mut k: usize = 0;
                        while k < value.len()
                            invariant
                                0 <= k <= value.len(),
                                out@ == old_out + value@.subrange(0, k as int),
                            decreases value.len() - k,
                        {
                            out.push(value[k]);
                            k = k + 1;
                        }
                        assert(value@.subrange(0, value.len() as int) == value@);
                        assert(out@ + expand_from(chars@, env@, end as int + 1) == old_out
                            + expand_from(chars@, env@, here));
                        i = end + 1;
                    },
                    None => {
                        out.push('$');
                        assert(out@ + expand_from(chars@, env@, i as int + 1) == old_out
                            + expand_from(chars@, env@, here));
                        i = i + 1;
                    },
                }
            } else if is_name_start(chars[i + 1]) {
                let end = scan_name(&chars, i + 1);
                proof { lemma_name_end(chars@, i + 1); }
                let name = sub_vec(&chars, i + 1, end);
                let value = lookup_env(env, &name);
                let mut k: usize = 0;
                while k < value.len()
                    invariant
                        0 <= k <= value.len(),
                        out@ == old_out + value@.subrange(0, k as int),
                    decreases value.len() - k,
                {
                    out.push(value[k]);
                    k = k + 1;
                }
                assert(value@.subrange(0, value.len() as int) == value@);
                assert(out@ + expand_from(chars@, env@, end as int) == old_out + expand_from(
                    chars@,
                    env@,
                    here,
                ));
                i = end;
            } else {
                out.push('$');
                assert(out@ + expand_from(chars@, env@, i as int + 1) == old_out + expand_from(
                    chars@,
                    env@,
                    here,
                ));
                i = i + 1;
            }
        } else {
            out.push(chars[i]);
            assert(out@ + expand_from(chars@, env@, i as int + 1) == old_out + expand_from(
                chars@,
                env@,
                here,
            ));
            i = i + 1;
        }
    }
    assert(out@ == expand_from(chars@, env@, 0));
    string_of(&out)
}


/// Text with no `$` in it comes out of the expansion unchanged, whatever
/// the environment.
pub proof fn lemma_expand_without_dollar(s: Seq<char>, env: Seq<(String, String)>)
    requires
        forall|k: int| 0 <= k < s.len() ==> s[k] != '$',
    ensures
        expand_from(s, env, 0) == s,
{
    lemma_expand_suffix_without_dollar(s, env, 0);
    assert(s.subrange(0, s.len() as int) == s);
}

proof fn lemma_expand_suffix_without_dollar(s: Seq<char>, env: Seq<(String, String)>, i: int)
    requires
        0 <= i <= s.len(),
        forall|k: int| 0 <= k < s.len() ==> s[k] != '$',
    ensures
        expand_from(s, env, i) == s.subrange(i, s.len() as int),
    decreases s.len() - i,
{
    if i < s.len() {
        lemma_expand_suffix_without_dollar(s, env, i + 1);
        assert(s.subrange(i, s.len() as int) == seq![s[i]] + s.subrange(i + 1, s.len() as int));
    }
}


// ---------------------------------------------------------------------------
// Where the files are, and key names
// ---------------------------------------------------------------------------

/// The configuration directory: `$XDG_CONFIG_HOME`, else `$HOME/.config`
/// (an unset `HOME` reading as empty).
pub fn config_home(xdg_config_home: Option<&str>, home: Option<&str>) -> (r: String)
    ensures
        r@ == match xdg_config_home {
            Some(x) => x@,
            None => match home {
                Some(h) => h@ + "/.config"@,
                None => "/.config"@,
            },
        },
{
    match xdg_config_home {
        Some(x) => x.to_owned(),
        None => {
            let mut p = match home {
                Some(h) => h.to_owned(),
                None => String::from_str(""),
            };
            proof {
                reveal_strlit("");
            }
            push_str(&mut p, "/.config");
            p
        },
    }
}

/// The configuration file in the configuration directory `dir`.
pub fn config_file_in(dir: &str) -> (r: String)
    ensures
        r@ == dir@ + "/cce/config.kdl"@,
{
    let mut p = dir.to_owned();
    push_str(&mut p, "/cce/config.kdl");
    p
}

/// The state file: under `$XDG_STATE_HOME`, else under
/// `$HOME/.local/state`; none when neither is set.
pub fn state_path(xdg_state_home: Option<&str>, home: Option<&str>) -> (r: Option<String>)
    ensures
        opt_text(r) == match xdg_state_home {
            Some(x) => Some(x@ + "/cce/state.json"@),
            None => match home {
                Some(h) => Some(h@ + "/.local/state/cce/state.json"@),
                None => None,
            },
        },
{
    match xdg_state_home {
        Some(x) => {
            let mut p = x.to_owned();
            push_str(&mut p, "/cce/state.json");
            Some(p)
        },
        None => match home {
            Some(h) => {
                let mut p = h.to_owned();
                push_str(&mut p, "/.local/state/cce/state.json");
                Some(p)
            },
            None => None,
        },
    }
}

/// The keysym name a configured key stands for: the key without an
/// `XKB_KEY_` prefix.
pub fn keysym_name_part(key: &str) -> (r: String)
    ensures
        r@ == keysym_name_of(key@),
{
    let v = chars_of(key);
    proof {
        reveal_strlit("XKB_KEY_");
    }
    if starts_with_str(&v, "XKB_KEY_") {
        let rest = sub_vec(&v, 8, v.len());
        string_of(&rest)
    } else {
        key.to_owned()
    }
}


/// The keysym name a configured key stands for.
pub open spec fn keysym_name_of(key: Seq<char>) -> Seq<char> {
    if starts_with(key, "XKB_KEY_"@) {
        key.subrange(8, key.len() as int)
    } else {
        key
    }
}

/// The keysym a configured key names (an `XKB_KEY_` prefix is allowed):
/// what `from_name` finds for the name (0 when it names no keysym).
pub fn parse_keysym<F: Fn(&str) -> u32>(key: &str, from_name: F) -> (r: u32)
    requires
        !key@.contains('\0'),
        forall|k: &str| !k@.contains('\0') ==> #[trigger] from_name.requires((k,)),
    ensures
        exists|k: &str| k@ == keysym_name_of(key@) && #[trigger] from_name.ensures((k,), r),
{
    let name = keysym_name_part(key);
    proof {
        reveal_strlit("XKB_KEY_");
        lemma_lacks_contains(key@, '\0');
        assert forall|i: int| 0 <= i < name@.len() implies name@[i] != '\0' by {
            if starts_with(key@, "XKB_KEY_"@) {
                assert(name@[i] == key@[i + 8]);
            }
        }
        lemma_lacks_contains(name@, '\0');
    }
    let k = name.as_str();
    let r = from_name(k);
    assert(from_name.ensures((k,), r));
    r
}

// ---------------------------------------------------------------------------
// Defaults
// ---------------------------------------------------------------------------

impl Default for LayoutConfig {
    /// The layout settings of a file that sets none.
    fn default() -> (c: LayoutConfig)
        ensures
            layout_of(c, Seq::empty()),
    {
        parse_layout(&Vec::new())
    }
}

impl Default for SurfaceConfig {
    /// The surface settings of a file that sets none.
    fn default() -> (c: SurfaceConfig)
        ensures
            surface_of(c, Seq::empty()),
    {
        parse_surface(&Vec::new())
    }
}

} // verus!
