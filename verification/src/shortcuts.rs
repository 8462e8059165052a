use vstd::prelude::*;

use crate::keyboard::{is_modifier_keysym, keysym_is_modifier, Chord};
use crate::text::{
    ascii_upper_seq, chars_eq_str, chars_of, chars_to_ascii_upper, debug_quote, debug_quoted,
    lacks, lemma_lacks_contains, lemma_trim_lacks, push_chars, push_str, starts_with, string_of,
    trim, trim_str, uppercase_char, char_to_uppercase,
};

verus! {

pub const MOD_SHIFT: u32 = 0x01;
pub const MOD_CTRL: u32 = 0x04;
pub const MOD_ALT: u32 = 0x08;
pub const MOD_LOGO: u32 = 0x40;

/// One bound chord: the portal session and shortcut id it belongs to, the
/// modifier mask and keysym, and the description handed back to the app.
#[derive(Debug)]
pub struct PortalShortcut {
    pub session: String,
    pub id: String,
    pub mods: u32,
    pub keysym: u32,
    pub description: String,
}

/// A parsed shortcuts-spec trigger.
#[derive(Debug)]
pub struct Trigger {
    pub mods: u32,
    pub keysym: u32,
    pub description: String,
}

// ---------------------------------------------------------------------------
// Parsing a trigger
// ---------------------------------------------------------------------------

/// `s` split at every `+` (`str::split('+')`).
pub open spec fn split_plus(s: Seq<char>) -> Seq<Seq<char>>
    decreases s.len(),
{
    if s.len() == 0 {
        seq![Seq::<char>::empty()]
    } else {
        let parts = split_plus(s.drop_last());
        if s.last() == '+' {
            parts.push(Seq::<char>::empty())
        } else {
            parts.update(parts.len() - 1, parts.last().push(s.last()))
        }
    }
}

proof fn lemma_split_plus_nonempty(s: Seq<char>)
    ensures
        split_plus(s).len() >= 1,
        s.len() > 0 && s.last() == '+' ==> split_plus(s).len() >= 2 && split_plus(s).last().len()
            == 0,
        s.len() > 0 && s.last() != '+' ==> split_plus(s).last().len() > 0,
    decreases s.len(),
{
    if s.len() > 0 {
        lemma_split_plus_nonempty(s.drop_last());
    }
}

/// The modifier bit a part names (ASCII case ignored), or the error.
pub open spec fn modifier_bit(part: Seq<char>, whole: Seq<char>) -> Result<u32, Seq<char>> {
    let u = ascii_upper_seq(part);
    if u == "CTRL"@ || u == "CONTROL"@ {
        Ok(MOD_CTRL)
    } else if u == "ALT"@ {
        Ok(MOD_ALT)
    } else if u == "SHIFT"@ {
        Ok(MOD_SHIFT)
    } else if u == "LOGO"@ || u == "SUPER"@ || u == "META"@ {
        Ok(MOD_LOGO)
    } else if u.len() == 0 {
        Err("empty modifier in "@ + debug_quoted(whole))
    } else {
        Err("unknown modifier "@ + debug_quoted(u))
    }
}

/// The modifier mask of the parts, or the error for the first bad part.
pub open spec fn modifiers_mask(parts: Seq<Seq<char>>, whole: Seq<char>) -> Result<u32, Seq<char>>
    decreases parts.len(),
{
    if parts.len() == 0 {
        Ok(0)
    } else {
        match modifiers_mask(parts.drop_last(), whole) {
            Err(e) => Err(e),
            Ok(m) => match modifier_bit(parts.last(), whole) {
                Err(e) => Err(e),
                Ok(b) => Ok(m | b),
            },
        }
    }
}

/// The modifier parts and the key of a trimmed trigger. A trailing `+` is
/// the plus key (`CTRL++`); the empty part before it goes too.
pub open spec fn trigger_split(t: Seq<char>) -> (Seq<Seq<char>>, Seq<char>) {
    let parts = split_plus(t);
    if parts.last().len() == 0 && t.len() > 0 && t.last() == '+' {
        (parts.drop_last().drop_last(), "plus"@)
    } else {
        (parts.drop_last(), parts.last())
    }
}

/// A trigger's modifier mask and key name, or why it is not one.
pub open spec fn trigger_parts_spec(s: Seq<char>) -> Result<(u32, Seq<char>), Seq<char>> {
    let t = trim(s);
    if t.len() == 0 {
        Err("empty trigger"@)
    } else {
        let (mods, key) = trigger_split(t);
        match modifiers_mask(mods, t) {
            Err(e) => Err(e),
            Ok(m) => Ok((m, key)),
        }
    }
}

fn modifier_bit_exec(part: &Vec<char>, whole: &Vec<char>) -> (r: Result<u32, String>)
    ensures
        match (r, modifier_bit(part@, whole@)) {
            (Ok(a), Ok(b)) => a == b,
            (Err(a), Err(b)) => a@ == b,
            _ => false,
        },
{
    let u = chars_to_ascii_upper(part);
    if chars_eq_str(&u, "CTRL") || chars_eq_str(&u, "CONTROL") {
        Ok(MOD_CTRL)
    } else if chars_eq_str(&u, "ALT") {
        Ok(MOD_ALT)
    } else if chars_eq_str(&u, "SHIFT") {
        Ok(MOD_SHIFT)
    } else if chars_eq_str(&u, "LOGO") || chars_eq_str(&u, "SUPER") || chars_eq_str(&u, "META") {
        Ok(MOD_LOGO)
    } else if u.len() == 0 {
        let mut e = String::from_str("empty modifier in ");
        let w = string_of(whole);
        let q = debug_quote(w.as_str());
        push_str(&mut e, q.as_str());
        Err(e)
    } else {
        let mut e = String::from_str("unknown modifier ");
        let w = string_of(&u);
        let q = debug_quote(w.as_str());
        push_str(&mut e, q.as_str());
        Err(e)
    }
}

/// Splits `t` at every `+`.
fn split_plus_exec(t: &Vec<char>) -> (parts: Vec<Vec<char>>)
    ensures
        parts@.len() == split_plus(t@).len(),
        forall|i: int| 0 <= i < parts@.len() ==> #[trigger] parts@[i]@ == split_plus(t@)[i],
{
    let mut parts: Vec<Vec<char>> = Vec::new();
    parts.push(Vec::new());
    let mut i: usize = 0;
    assert(t@.take(0) =~= Seq::<char>::empty());
    while i < t.len()
        invariant
            i <= t.len(),
            parts@.len() == split_plus(t@.take(i as int)).len(),
            parts@.len() >= 1,
            forall|k: int| 0 <= k < parts@.len() ==> #[trigger] parts@[k]@ == split_plus(
                t@.take(i as int),
            )[k],
        decreases t.len() - i,
    {
        let ghost pre = t@.take(i as int);
        let ghost post = t@.take(i + 1);
        assert(post.drop_last() =~= pre);
        assert(post.last() == t@[i as int]);
        if t[i] == '+' {
            parts.push(Vec::new());
        } else {
            let last = parts.len() - 1;
            let mut cur = parts.pop().unwrap();
            cur.push(t[i]);
            parts.push(cur);
            assert(parts@.len() == split_plus(post).len());
            assert forall|k: int| 0 <= k < parts@.len() implies #[trigger] parts@[k]@
                == split_plus(post)[k] by {
                if k < last as int {
                } else {
                }
            }
        }
        i = i + 1;
    }
    assert(t@.take(t.len() as int) =~= t@);
    parts
}

/// The modifier mask and the key name of a shortcuts-spec trigger:
/// modifiers and one key joined by `+`, the modifiers being `CTRL`
/// (`CONTROL`), `ALT`, `SHIFT` and `LOGO` (`SUPER`, `META`), in any ASCII
/// case; a trailing `+` is the plus key.
pub fn split_trigger(s: &str) -> (r: Result<(u32, String), String>)
    ensures
        match (r, trigger_parts_spec(s@)) {
            (Ok((m, k)), Ok((m2, k2))) => m == m2 && k@ == k2,
            (Err(a), Err(b)) => a@ == b,
            _ => false,
        },
{
    let t = trim_str(s);
    if t.len() == 0 {
        return Err(String::from_str("empty trigger"));
    }
    proof {
        lemma_split_plus_nonempty(t@);
        reveal_strlit("plus");
    }
    let parts = split_plus_exec(&t);
    let n = parts.len();
    let (nmods, key): (usize, String) = if parts[n - 1].len() == 0 && t[t.len() - 1] == '+' {
        (n - 2, String::from_str("plus"))
    } else {
        (n - 1, string_of(&parts[n - 1]))
    };
    let ghost sp = trigger_split(t@);
    assert(sp.0 =~= split_plus(t@).take(nmods as int));
    let mut mask: u32 = 0;
    let mut i: usize = 0;
    while i < nmods
        invariant
            nmods <= n == parts@.len() == split_plus(t@).len(),
            i <= nmods,
            sp == trigger_split(t@),
            t@ == trim(s@),
            t@.len() > 0,
            sp.0 =~= split_plus(t@).take(nmods as int),
            forall|k: int| 0 <= k < parts@.len() ==> #[trigger] parts@[k]@ == split_plus(t@)[k],
            modifiers_mask(sp.0.take(i as int), t@) == Ok::<u32, Seq<char>>(mask),
        decreases nmods - i,
    {
        assert(sp.0.take(i + 1).drop_last() =~= sp.0.take(i as int));
        assert(sp.0.take(i + 1).last() == parts@[i as int]@);
        match modifier_bit_exec(&parts[i], &t) {
            Err(e) => {
                proof {
                    assert(modifier_bit(sp.0.take(i + 1).last(), t@) == Err::<u32, Seq<char>>(
                        e@,
                    ));
                    assert(modifiers_mask(sp.0.take(i + 1), t@) == Err::<u32, Seq<char>>(e@));
                    lemma_mask_error_sticks(sp.0, t@, (i + 1) as int);
                }
                return Err(e);
            },
            Ok(b) => {
                mask = mask | b;
            },
        }
        i = i + 1;
    }
    assert(sp.0.take(nmods as int) =~= sp.0);
    Ok((mask, key))
}

/// Once a part is bad, the whole mask is that part's error.
proof fn lemma_mask_error_sticks(parts: Seq<Seq<char>>, whole: Seq<char>, k: int)
    requires
        0 <= k <= parts.len(),
        modifiers_mask(parts.take(k), whole) is Err,
    ensures
        modifiers_mask(parts, whole) == modifiers_mask(parts.take(k), whole),
    decreases parts.len() - k,
{
    if k < parts.len() {
        assert(parts.take(k + 1).drop_last() =~= parts.take(k));
        lemma_mask_error_sticks(parts, whole, k + 1);
    } else {
        assert(parts.take(k) =~= parts);
    }
}

// ---------------------------------------------------------------------------
// Describing a trigger
// ---------------------------------------------------------------------------

/// How a keysym name reads in a description: a single character is upper
/// cased; a longer name gets an upper-case first character.
pub open spec fn pretty_key(name: Seq<char>) -> Seq<char> {
    if name.len() == 0 {
        name
    } else {
        uppercase_char(name[0]) + name.drop_first()
    }
}

/// `Ctrl+Alt+Shift+Super+Key`, with only the modifiers in `mods`, in that
/// fixed order.
pub open spec fn description_of(mods: u32, key_name: Seq<char>) -> Seq<char> {
    (if mods & MOD_CTRL != 0 {
        "Ctrl+"@
    } else {
        Seq::empty()
    }) + (if mods & MOD_ALT != 0 {
        "Alt+"@
    } else {
        Seq::empty()
    }) + (if mods & MOD_SHIFT != 0 {
        "Shift+"@
    } else {
        Seq::empty()
    }) + (if mods & MOD_LOGO != 0 {
        "Super+"@
    } else {
        Seq::empty()
    }) + pretty_key(key_name)
}

/// The human form of a chord for the app to render: `Ctrl+Shift+Space`.
/// `key_name` is the keysym's name.
pub fn describe(mods: u32, key_name: &str) -> (r: String)
    ensures
        r@ == description_of(mods, key_name@),
{
    let mut out = String::new();
    if mods & MOD_CTRL != 0 {
        push_str(&mut out, "Ctrl+");
    }
    if mods & MOD_ALT != 0 {
        push_str(&mut out, "Alt+");
    }
    if mods & MOD_SHIFT != 0 {
        push_str(&mut out, "Shift+");
    }
    if mods & MOD_LOGO != 0 {
        push_str(&mut out, "Super+");
    }
    let v = chars_of(key_name);
    if v.len() > 0 {
        let up = char_to_uppercase(v[0]);
        push_str(&mut out, up.as_str());
        let rest = crate::text::sub_vec(&v, 1, v.len());
        assert(rest@ =~= v@.drop_first());
        push_chars(&mut out, &rest);
    }
    assert(out@ =~= description_of(mods, key_name@));
    out
}

/// The trigger for a modifier mask, key name and the keysym found for it
/// (`keysym_name` being that keysym's name): an unknown key (keysym 0) or
/// a lone modifier key is not a chord.
pub open spec fn finish_spec(
    mods: u32,
    key: Seq<char>,
    keysym: u32,
    keysym_name: Seq<char>,
) -> Result<(u32, u32, Seq<char>), Seq<char>> {
    if keysym == 0 {
        Err("unknown key "@ + debug_quoted(key))
    } else if is_modifier_keysym(keysym) {
        Err(debug_quoted(key) + " is a modifier, not a key"@)
    } else {
        Ok((mods, keysym, description_of(mods, keysym_name)))
    }
}

pub fn finish_trigger(mods: u32, key: &str, keysym: u32, keysym_name: &str) -> (r: Result<
    Trigger,
    String,
>)
    ensures
        match (r, finish_spec(mods, key@, keysym, keysym_name@)) {
            (Ok(t), Ok((m, k, d))) => t.mods == m && t.keysym == k && t.description@ == d,
            (Err(a), Err(b)) => a@ == b,
            _ => false,
        },
{
    if keysym == 0 {
        let mut e = String::from_str("unknown key ");
        let q = debug_quote(key);
        push_str(&mut e, q.as_str());
        return Err(e);
    }
    if keysym_is_modifier(keysym) {
        let mut e = debug_quote(key);
        push_str(&mut e, " is a modifier, not a key");
        return Err(e);
    }
    Ok(Trigger { mods, keysym, description: describe(mods, keysym_name) })
}

/// No part of `s` split at `+` holds a character that `s` does not.
proof fn lemma_split_plus_lacks(s: Seq<char>, c: char)
    requires
        lacks(s, c),
    ensures
        forall|k: int| 0 <= k < split_plus(s).len() ==> lacks(#[trigger] split_plus(s)[k], c),
    decreases s.len(),
{
    if s.len() > 0 {
        let d = s.drop_last();
        assert forall|i: int| 0 <= i < d.len() implies d[i] != c by {
            assert(d[i] == s[i]);
        }
        lemma_split_plus_lacks(d, c);
        lemma_split_plus_nonempty(d);
        let parts = split_plus(d);
        if s.last() != '+' {
            let u = parts.update(parts.len() - 1, parts.last().push(s.last()));
            assert(split_plus(s) == u);
            assert forall|k: int| 0 <= k < u.len() implies lacks(#[trigger] u[k], c) by {
                if k == parts.len() - 1 {
                    assert(lacks(parts[k], c));
                    assert(s.last() == s[s.len() - 1]);
                } else {
                    assert(u[k] == parts[k]);
                }
            }
        } else {
            let u = parts.push(Seq::<char>::empty());
            assert(split_plus(s) == u);
            assert forall|k: int| 0 <= k < u.len() implies lacks(#[trigger] u[k], c) by {
                if k < parts.len() {
                    assert(u[k] == parts[k]);
                }
            }
        }
    }
}

/// The key name of a trigger without NUL characters holds none either.
proof fn lemma_trigger_key_lacks_nul(s: Seq<char>)
    requires
        lacks(s, '\0'),
    ensures
        trigger_parts_spec(s) matches Ok((_m, k)) ==> lacks(k, '\0'),
{
    let t = trim(s);
    lemma_trim_lacks(s, '\0');
    lemma_split_plus_lacks(t, '\0');
    lemma_split_plus_nonempty(t);
    reveal_strlit("plus");
}

/// What parsing the trigger `s` may give, with `from_name` finding a key
/// name's keysym (0 when there is none) and `name_of` giving a keysym's
/// name: the error of a malformed trigger, or the trigger `finish_spec`
/// makes of the keysym found for its key and that keysym's name.
pub open spec fn trigger_outcome<F: Fn(&str) -> u32, G: Fn(u32) -> String>(
    s: Seq<char>,
    from_name: F,
    name_of: G,
    t: Result<(u32, u32, Seq<char>), Seq<char>>,
) -> bool {
    match trigger_parts_spec(s) {
        Err(m) => t == Err::<(u32, u32, Seq<char>), Seq<char>>(m),
        Ok((mods, key)) => exists|k: &str, ks: u32, nm: String|
            k@ == key && #[trigger] from_name.ensures((k,), ks) && #[trigger] name_of.ensures(
                (ks,),
                nm,
            ) && t == finish_spec(mods, key, ks, nm@),
    }
}

/// Parses a shortcuts-spec trigger: modifiers and one key joined by `+`,
/// the modifiers being `CTRL`, `ALT`, `SHIFT` and `LOGO` (any case;
/// `CONTROL`, `SUPER` and `META` too) and the key an xkb keysym name
/// (`space`, `F5`, `q`). A trailing `+` is the plus key itself, as in
/// `CTRL++`. `from_name` looks a key name up in the keysym table (ignoring
/// case; 0 when it names no keysym) and `name_of` gives a keysym's name.
pub fn parse_trigger<F: Fn(&str) -> u32, G: Fn(u32) -> String>(
    s: &str,
    from_name: F,
    name_of: G,
) -> (r: Result<Trigger, String>)
    requires
        !s@.contains('\0'),
        forall|k: &str| !k@.contains('\0') ==> #[trigger] from_name.requires((k,)),
        forall|ks: u32| #[trigger] name_of.requires((ks,)),
    ensures
        trigger_outcome(s@, from_name, name_of, trigger_view(r)),
{
    let (mods, key) = match split_trigger(s) {
        Ok(p) => p,
        Err(e) => return Err(e),
    };
    proof {
        lemma_lacks_contains(s@, '\0');
        lemma_trigger_key_lacks_nul(s@);
        lemma_lacks_contains(key@, '\0');
    }
    let k = key.as_str();
    let keysym = from_name(k);
    let name = name_of(keysym);
    let r = finish_trigger(mods, k, keysym, name.as_str());
    assert(from_name.ensures((k,), keysym) && name_of.ensures((keysym,), name));
    assert(trigger_view(r) == finish_spec(mods, key@, keysym, name@)) by {
        match (r, finish_spec(mods, key@, keysym, name@)) {
            (Ok(t), Ok((m, ks, d))) => {},
            _ => {},
        }
    }
    r
}

// ---------------------------------------------------------------------------
// The shortcut table and its control-socket command
// ---------------------------------------------------------------------------

/// A bound shortcut as plain values.
pub struct ShortcutView {
    pub session: Seq<char>,
    pub id: Seq<char>,
    pub mods: u32,
    pub keysym: u32,
    pub description: Seq<char>,
}

impl View for PortalShortcut {
    type V = ShortcutView;

    open spec fn view(&self) -> ShortcutView {
        ShortcutView {
            session: self.session@,
            id: self.id@,
            mods: self.mods,
            keysym: self.keysym,
            description: self.description@,
        }
    }
}

pub open spec fn table_view(t: Seq<PortalShortcut>) -> Seq<ShortcutView> {
    t.map_values(|p: PortalShortcut| p@)
}

/// The portal shortcuts bound so far, beside the compositor's own keybind
/// chords (which always win).
pub struct ShortcutTable {
    pub keybinds: Vec<Chord>,
    pub shortcuts: Vec<PortalShortcut>,
}

/// The entry belongs to `session` (and to shortcut `id`, when given).
pub open spec fn owned_by(p: ShortcutView, session: Seq<char>, id: Option<Seq<char>>) -> bool {
    p.session == session && match id {
        Some(i) => p.id == i,
        None => true,
    }
}

/// `t` without the entries owned by `session` (and `id`).
pub open spec fn without(t: Seq<ShortcutView>, session: Seq<char>, id: Option<Seq<char>>) -> Seq<
    ShortcutView,
>
    decreases t.len(),
{
    if t.len() == 0 {
        t
    } else {
        let rest = without(t.drop_last(), session, id);
        if owned_by(t.last(), session, id) {
            rest
        } else {
            rest.push(t.last())
        }
    }
}

pub open spec fn same_chord(p: ShortcutView, mods: u32, keysym: u32) -> bool {
    p.mods == mods && p.keysym == keysym
}

/// The first entry of another owner already bound to the chord.
pub open spec fn first_conflict(
    t: Seq<ShortcutView>,
    mods: u32,
    keysym: u32,
    session: Seq<char>,
    id: Seq<char>,
) -> Option<int>
    decreases t.len(),
{
    if t.len() == 0 {
        None
    } else {
        match first_conflict(t.drop_last(), mods, keysym, session, id) {
            Some(j) => Some(j),
            None => if same_chord(t.last(), mods, keysym) && !owned_by(
                t.last(),
                session,
                Some(id),
            ) {
                Some(t.len() - 1)
            } else {
                None
            },
        }
    }
}

/// One `session id description` line per entry.
pub open spec fn list_text(t: Seq<ShortcutView>) -> Seq<char>
    decreases t.len(),
{
    if t.len() == 0 {
        Seq::empty()
    } else {
        list_text(t.drop_last()) + t.last().session + " "@ + t.last().id + " "@
            + t.last().description + "\n"@
    }
}

pub open spec fn keybind_taken(binds: Seq<Chord>, mods: u32, keysym: u32) -> bool {
    exists|i: int| 0 <= i < binds.len() && binds[i].mods == mods && binds[i].keysym == keysym
}

pub open spec fn usage_all() -> Seq<char> {
    "error: usage: shortcut bind|unbind|clear|list\n"@
}

pub open spec fn usage_bind() -> Seq<char> {
    "error: usage: shortcut bind <session> <id> <trigger>\n"@
}

pub open spec fn usage_unbind() -> Seq<char> {
    "error: usage: shortcut unbind <session> [<id>]\n"@
}

/// The reply and the table after a `shortcut ...` command. `trigger` is
/// the parse of the trigger word of a `bind`: the mask, keysym and
/// description, or the parse error.
pub open spec fn shortcut_ipc_spec(
    binds: Seq<Chord>,
    t: Seq<ShortcutView>,
    args: Seq<Seq<char>>,
    trigger: Result<(u32, u32, Seq<char>), Seq<char>>,
) -> (Seq<char>, Seq<ShortcutView>) {
    if args.len() == 0 {
        (usage_all(), t)
    } else if args[0] == "bind"@ {
        if args.len() != 4 {
            (usage_bind(), t)
        } else {
            match trigger {
                Err(e) => ("error: "@ + e + "\n"@, t),
                Ok((m, k, d)) => if keybind_taken(binds, m, k) {
                    ("error: "@ + d + " is a compositor keybind\n"@, t)
                } else {
                    match first_conflict(t, m, k, args[1], args[2]) {
                        Some(j) => (
                            "error: "@ + d + " is already bound by "@ + t[j].session + " "@
                                + t[j].id + "\n"@,
                            t,
                        ),
                        None => (
                            "ok "@ + d + "\n"@,
                            without(t, args[1], Some(args[2])).push(
                                ShortcutView {
                                    session: args[1],
                                    id: args[2],
                                    mods: m,
                                    keysym: k,
                                    description: d,
                                },
                            ),
                        ),
                    }
                },
            }
        }
    } else if args[0] == "unbind"@ {
        if args.len() == 2 {
            ("ok\n"@, without(t, args[1], None))
        } else if args.len() == 3 {
            ("ok\n"@, without(t, args[1], Some(args[2])))
        } else {
            (usage_unbind(), t)
        }
    } else if args[0] == "clear"@ {
        ("ok\n"@, Seq::empty())
    } else if args[0] == "list"@ {
        (list_text(t), t)
    } else {
        (usage_all(), t)
    }
}

pub open spec fn trigger_view(t: Result<Trigger, String>) -> Result<(u32, u32, Seq<char>), Seq<char>> {
    match t {
        Ok(tr) => Ok((tr.mods, tr.keysym, tr.description@)),
        Err(e) => Err(e@),
    }
}

pub open spec fn is_bind4(args: Seq<Seq<char>>) -> bool {
    args.len() == 4 && args[0] == "bind"@
}

fn copy_string(s: &String) -> (r: String)
    ensures
        r@ == s@,
{
    s.clone()
}

fn str_matches(s: &String, t: &String) -> (r: bool)
    ensures
        r == (s@ == t@),
{
    crate::text::str_eq(s.as_str(), t.as_str())
}

/// Removes the entries owned by `session` (and `id`).
fn remove_owned(v: &mut Vec<PortalShortcut>, session: &String, id: Option<&String>)
    ensures
        table_view(final(v)@) == without(
            table_view(old(v)@),
            session@,
            match id {
                Some(i) => Some(i@),
                None => None,
            },
        ),
{
    let ghost idv = match id {
        Some(i) => Some(i@),
        None => None::<Seq<char>>,
    };
    let ghost orig = table_view(v@);
    let n0 = v.len();
    let mut i: usize = 0;
    let mut j: usize = 0;
    assert(orig.take(0) =~= Seq::<ShortcutView>::empty());
    assert(table_view(v@).take(0) =~= Seq::<ShortcutView>::empty());
    while i < v.len()
        invariant
            i <= v.len(),
            j <= orig.len(),
            orig.len() == n0,
            idv == match id {
                Some(i) => Some(i@),
                None => None::<Seq<char>>,
            },
            v.len() - i == orig.len() - j,
            table_view(v@).take(i as int) == without(orig.take(j as int), session@, idv),
            table_view(v@).skip(i as int) == orig.skip(j as int),
        decreases v.len() - i,
    {
        let ghost before = table_view(v@);
        assert(before[i as int] == orig[j as int]) by {
            assert(before.skip(i as int)[0] == orig.skip(j as int)[0]);
        }
        assert(orig.take(j + 1).drop_last() =~= orig.take(j as int));
        assert(orig.take(j + 1).last() == orig[j as int]);
        let owned = str_matches(&v[i].session, session) && match id {
            Some(x) => str_matches(&v[i].id, x),
            None => true,
        };
        if owned {
            let _ = v.remove(i);
            assert(table_view(v@).take(i as int) =~= before.take(i as int));
            assert(table_view(v@).skip(i as int) =~= before.skip(i + 1));
            assert(orig.skip(j + 1) =~= orig.skip(j as int).drop_first());
            assert(before.skip(i + 1) =~= before.skip(i as int).drop_first());
        } else {
            assert(table_view(v@).take(i + 1) =~= before.take(i as int).push(before[i as int]));
            assert(orig.skip(j + 1) =~= orig.skip(j as int).drop_first());
            assert(before.skip(i + 1) =~= before.skip(i as int).drop_first());
            i = i + 1;
        }
        j = j + 1;
    }
    assert(orig.take(j as int) =~= orig);
    assert(table_view(v@).take(i as int) =~= table_view(v@));
}

fn find_conflict(
    t: &Vec<PortalShortcut>,
    mods: u32,
    keysym: u32,
    session: &String,
    id: &String,
) -> (r: Option<usize>)
    ensures
        match r {
            Some(j) => j < t@.len() && first_conflict(table_view(t@), mods, keysym, session@, id@)
                == Some(j as int),
            None => first_conflict(table_view(t@), mods, keysym, session@, id@) is None,
        },
{
    let ghost tv = table_view(t@);
    let mut i: usize = 0;
    assert(tv.take(0) =~= Seq::<ShortcutView>::empty());
    while i < t.len()
        invariant
            i <= t.len(),
            tv == table_view(t@),
            first_conflict(tv.take(i as int), mods, keysym, session@, id@) is None,
        decreases t.len() - i,
    {
        assert(tv.take(i + 1).drop_last() =~= tv.take(i as int));
        assert(tv.take(i + 1).last() == tv[i as int]);
        if t[i].mods == mods && t[i].keysym == keysym && !(str_matches(&t[i].session, session)
            && str_matches(&t[i].id, id)) {
            proof {
                lemma_first_conflict_prefix(tv, mods, keysym, session@, id@, (i + 1) as int);
            }
            return Some(i);
        }
        i = i + 1;
    }
    assert(tv.take(t.len() as int) =~= tv);
    None
}

/// A conflict found in a prefix is the first conflict of the whole table.
proof fn lemma_first_conflict_prefix(
    t: Seq<ShortcutView>,
    mods: u32,
    keysym: u32,
    session: Seq<char>,
    id: Seq<char>,
    k: int,
)
    requires
        0 <= k <= t.len(),
        first_conflict(t.take(k), mods, keysym, session, id) is Some,
    ensures
        first_conflict(t, mods, keysym, session, id) == first_conflict(
            t.take(k),
            mods,
            keysym,
            session,
            id,
        ),
    decreases t.len() - k,
{
    if k < t.len() {
        assert(t.take(k + 1).drop_last() =~= t.take(k));
        lemma_first_conflict_prefix(t, mods, keysym, session, id, k + 1);
    } else {
        assert(t.take(k) =~= t);
    }
}

fn keybind_taken_exec(binds: &Vec<Chord>, mods: u32, keysym: u32) -> (r: bool)
    ensures
        r == keybind_taken(binds@, mods, keysym),
{
    let mut i: usize = 0;
    while i < binds.len()
        invariant
            i <= binds.len(),
            forall|j: int| 0 <= j < i ==> !(binds@[j].mods == mods && binds@[j].keysym == keysym),
        decreases binds.len() - i,
    {
        if binds[i].mods == mods && binds[i].keysym == keysym {
            return true;
        }
        i = i + 1;
    }
    false
}

fn list_exec(t: &Vec<PortalShortcut>) -> (r: String)
    ensures
        r@ == list_text(table_view(t@)),
{
    let ghost tv = table_view(t@);
    let mut out = String::new();
    let mut i: usize = 0;
    assert(tv.take(0) =~= Seq::<ShortcutView>::empty());
    while i < t.len()
        invariant
            i <= t.len(),
            tv == table_view(t@),
            out@ == list_text(tv.take(i as int)),
        decreases t.len() - i,
    {
        assert(tv.take(i + 1).drop_last() =~= tv.take(i as int));
        assert(tv.take(i + 1).last() == tv[i as int]);
        push_str(&mut out, t[i].session.as_str());
        push_str(&mut out, " ");
        push_str(&mut out, t[i].id.as_str());
        push_str(&mut out, " ");
        push_str(&mut out, t[i].description.as_str());
        push_str(&mut out, "\n");
        i = i + 1;
    }
    assert(tv.take(t.len() as int) =~= tv);
    out
}

pub open spec fn args_view(args: Seq<String>) -> Seq<Seq<char>> {
    args.map_values(|a: String| a@)
}

impl ShortcutTable {
    pub fn new(keybinds: Vec<Chord>) -> (t: ShortcutTable)
        ensures
            t.keybinds@ == keybinds@,
            t.shortcuts@.len() == 0,
    {
        ShortcutTable { keybinds, shortcuts: Vec::new() }
    }

    /// The `shortcut ...` control-socket command; `args` is everything
    /// after the word `shortcut`. The trigger word of a
    /// `bind <session> <id> <trigger>` is parsed with `parse_trigger`, with
    /// `from_name` and `name_of` as the keysym table.
    pub fn ipc<F: Fn(&str) -> u32, G: Fn(u32) -> String>(
        &mut self,
        args: &Vec<String>,
        from_name: F,
        name_of: G,
    ) -> (r: String)
        requires
            is_bind4(args_view(args@)) ==> !args_view(args@)[3].contains('\0'),
            forall|k: &str| !k@.contains('\0') ==> #[trigger] from_name.requires((k,)),
            forall|ks: u32| #[trigger] name_of.requires((ks,)),
        ensures
            final(self).keybinds@ == old(self).keybinds@,
            exists|tv: Result<(u32, u32, Seq<char>), Seq<char>>|
                (is_bind4(args_view(args@)) ==> trigger_outcome(
                    args_view(args@)[3],
                    from_name,
                    name_of,
                    tv,
                )) && #[trigger] shortcut_ipc_spec(
                    old(self).keybinds@,
                    table_view(old(self).shortcuts@),
                    args_view(args@),
                    tv,
                ) == (r@, table_view(final(self).shortcuts@)),
    {
        let ghost av = args_view(args@);
        let bind4 = args.len() == 4 && crate::text::str_eq(args[0].as_str(), "bind");
        proof {
            reveal_strlit("bind");
            if args.len() == 4 {
                assert(av[0] == args@[0]@);
                assert(av[3] == args@[3]@);
            }
        }
        assert(bind4 == is_bind4(av));
        let trigger = if bind4 {
            Some(parse_trigger(args[3].as_str(), from_name, name_of))
        } else {
            None
        };
        let ghost tv = match &trigger {
            Some(x) => trigger_view(*x),
            None => Err(Seq::empty()),
        };
        let r = self.apply_command(args, trigger);
        assert(shortcut_ipc_spec(
            old(self).keybinds@,
            table_view(old(self).shortcuts@),
            av,
            tv,
        ) == (r@, table_view(self.shortcuts@)));
        r
    }

    /// The `shortcut ...` command with its trigger word already parsed:
    /// for `bind <session> <id> <trigger>`, `trigger` is the parse of the
    /// trigger word; it is ignored otherwise.
    pub fn apply_command(&mut self, args: &Vec<String>, trigger: Option<Result<Trigger, String>>) -> (r:
        String)
        requires
            is_bind4(args_view(args@)) ==> trigger is Some,
        ensures
            final(self).keybinds@ == old(self).keybinds@,
            ({
                let tv = match trigger {
                    Some(x) => trigger_view(x),
                    None => Err(Seq::empty()),
                };
                let (reply, after) = shortcut_ipc_spec(
                    old(self).keybinds@,
                    table_view(old(self).shortcuts@),
                    args_view(args@),
                    tv,
                );
                r@ == reply && table_view(final(self).shortcuts@) == after
            }),
    {
        let ghost av = args_view(args@);
        if args.len() == 0 {
            return String::from_str("error: usage: shortcut bind|unbind|clear|list\n");
        }
        assert(av[0] == args@[0]@);
        let w0 = chars_of(args[0].as_str());
        if chars_eq_str(&w0, "bind") {
            if args.len() != 4 {
                return String::from_str("error: usage: shortcut bind <session> <id> <trigger>\n");
            }
            assert(av[1] == args@[1]@);
            assert(av[2] == args@[2]@);
            let parsed = match trigger {
                Some(x) => x,
                None => {
                    return String::new();
                },
            };
            let t = match parsed {
                Err(e) => {
                    let mut out = String::from_str("error: ");
                    push_str(&mut out, e.as_str());
                    push_str(&mut out, "\n");
                    return out;
                },
                Ok(t) => t,
            };
            if keybind_taken_exec(&self.keybinds, t.mods, t.keysym) {
                let mut out = String::from_str("error: ");
                push_str(&mut out, t.description.as_str());
                push_str(&mut out, " is a compositor keybind\n");
                return out;
            }
            match find_conflict(&self.shortcuts, t.mods, t.keysym, &args[1], &args[2]) {
                Some(j) => {
                    let mut out = String::from_str("error: ");
                    push_str(&mut out, t.description.as_str());
                    push_str(&mut out, " is already bound by ");
                    push_str(&mut out, self.shortcuts[j].session.as_str());
                    push_str(&mut out, " ");
                    push_str(&mut out, self.shortcuts[j].id.as_str());
                    push_str(&mut out, "\n");
                    return out;
                },
                None => {},
            }
            remove_owned(&mut self.shortcuts, &args[1], Some(&args[2]));
            let mut out = String::from_str("ok ");
            push_str(&mut out, t.description.as_str());
            push_str(&mut out, "\n");
            let entry = PortalShortcut {
                session: copy_string(&args[1]),
                id: copy_string(&args[2]),
                mods: t.mods,
                keysym: t.keysym,
                description: t.description,
            };
            let ghost before = self.shortcuts@;
            self.shortcuts.push(entry);
            assert(table_view(self.shortcuts@) =~= table_view(before).push(entry@));
            out
        } else if chars_eq_str(&w0, "unbind") {
            if args.len() == 2 {
                assert(av[1] == args@[1]@);
                remove_owned(&mut self.shortcuts, &args[1], None);
                String::from_str("ok\n")
            } else if args.len() == 3 {
                assert(av[1] == args@[1]@);
                assert(av[2] == args@[2]@);
                remove_owned(&mut self.shortcuts, &args[1], Some(&args[2]));
                String::from_str("ok\n")
            } else {
                String::from_str("error: usage: shortcut unbind <session> [<id>]\n")
            }
        } else if chars_eq_str(&w0, "clear") {
            self.shortcuts.clear();
            assert(table_view(self.shortcuts@) =~= Seq::<ShortcutView>::empty());
            String::from_str("ok\n")
        } else if chars_eq_str(&w0, "list") {
            list_exec(&self.shortcuts)
        } else {
            String::from_str("error: usage: shortcut bind|unbind|clear|list\n")
        }
    }
}

// ---------------------------------------------------------------------------
// What every command keeps
// ---------------------------------------------------------------------------

pub open spec fn chord_clash(a: ShortcutView, b: ShortcutView) -> bool {
    a.mods == b.mods && a.keysym == b.keysym
}

/// No two bound shortcuts share a chord.
pub open spec fn chords_distinct(t: Seq<ShortcutView>) -> bool {
    forall|i: int, j: int|
        0 <= i < j < t.len() ==> !#[trigger] chord_clash(t[i], t[j])
}

/// No bound shortcut takes a chord of the compositor's own keybinds.
pub open spec fn clear_of_keybinds(binds: Seq<Chord>, t: Seq<ShortcutView>) -> bool {
    forall|i: int| 0 <= i < t.len() ==> !keybind_taken(binds, #[trigger] t[i].mods, t[i].keysym)
}

proof fn lemma_without_members(t: Seq<ShortcutView>, session: Seq<char>, id: Option<Seq<char>>)
    ensures
        without(t, session, id).len() <= t.len(),
        forall|i: int|
            0 <= i < without(t, session, id).len() ==> exists|j: int|
                0 <= j < t.len() && #[trigger] without(t, session, id)[i] == t[j] && !owned_by(
                    t[j],
                    session,
                    id,
                ),
    decreases t.len(),
{
    if t.len() > 0 {
        lemma_without_members(t.drop_last(), session, id);
        let rest = without(t.drop_last(), session, id);
        let w = without(t, session, id);
        assert forall|i: int| 0 <= i < w.len() implies exists|j: int|
            0 <= j < t.len() && #[trigger] w[i] == t[j] && !owned_by(t[j], session, id) by {
            if i < rest.len() {
                let j = choose|j: int|
                    0 <= j < t.drop_last().len() && #[trigger] rest[i] == t.drop_last()[j]
                        && !owned_by(t.drop_last()[j], session, id);
                assert(w[i] == t[j]);
            } else {
                assert(w[i] == t[t.len() - 1]);
            }
        }
    }
}

/// `without` keeps the order of what it keeps: an entry of the result
/// comes from a later position of `t` than any entry before it.
proof fn lemma_without_distinct(t: Seq<ShortcutView>, session: Seq<char>, id: Option<Seq<char>>)
    requires
        chords_distinct(t),
    ensures
        chords_distinct(without(t, session, id)),
    decreases t.len(),
{
    if t.len() > 0 {
        let d = t.drop_last();
        assert(chords_distinct(d)) by {
            assert forall|i: int, j: int| 0 <= i < j < d.len() implies !#[trigger] chord_clash(d[i], d[j]) by {
                assert(d[i] == t[i] && d[j] == t[j]);
            }
        }
        lemma_without_distinct(d, session, id);
        lemma_without_members(d, session, id);
        let rest = without(d, session, id);
        let w = without(t, session, id);
        if !owned_by(t.last(), session, id) {
            assert forall|i: int, j: int| 0 <= i < j < w.len() implies !#[trigger] chord_clash(w[i], w[j]) by {
                if j < rest.len() {
                } else {
                    let k = choose|k: int|
                        0 <= k < d.len() && #[trigger] rest[i] == d[k] && !owned_by(
                            d[k],
                            session,
                            id,
                        );
                    assert(w[i] == t[k]);
                    assert(w[j] == t[t.len() - 1]);
                }
            }
        }
    }
}

proof fn lemma_first_conflict_none(
    t: Seq<ShortcutView>,
    mods: u32,
    keysym: u32,
    session: Seq<char>,
    id: Seq<char>,
)
    requires
        first_conflict(t, mods, keysym, session, id) is None,
    ensures
        forall|i: int|
            0 <= i < t.len() && same_chord(#[trigger] t[i], mods, keysym) ==> owned_by(
                t[i],
                session,
                Some(id),
            ),
    decreases t.len(),
{
    if t.len() > 0 {
        lemma_first_conflict_none(t.drop_last(), mods, keysym, session, id);
        assert forall|i: int|
            0 <= i < t.len() && same_chord(#[trigger] t[i], mods, keysym) implies owned_by(
            t[i],
            session,
            Some(id),
        ) by {
            if i < t.len() - 1 {
                assert(t[i] == t.drop_last()[i]);
            }
        }
    }
}

/// Every `shortcut ...` command keeps the table sound: no two portal
/// shortcuts share a chord, and none takes a chord of the compositor's own
/// keybinds.
pub proof fn lemma_ipc_keeps_table_sound(
    binds: Seq<Chord>,
    t: Seq<ShortcutView>,
    args: Seq<Seq<char>>,
    trigger: Result<(u32, u32, Seq<char>), Seq<char>>,
)
    requires
        chords_distinct(t),
        clear_of_keybinds(binds, t),
    ensures
        chords_distinct(shortcut_ipc_spec(binds, t, args, trigger).1),
        clear_of_keybinds(binds, shortcut_ipc_spec(binds, t, args, trigger).1),
{
    let after = shortcut_ipc_spec(binds, t, args, trigger).1;
    reveal_strlit("bind");
    reveal_strlit("unbind");
    if args.len() > 0 && args[0] == "bind"@ && args.len() == 4 {
        if let Ok((m, k, d)) = trigger {
            if !keybind_taken(binds, m, k) && first_conflict(t, m, k, args[1], args[2]) is None {
                let w = without(t, args[1], Some(args[2]));
                lemma_without_distinct(t, args[1], Some(args[2]));
                lemma_without_members(t, args[1], Some(args[2]));
                lemma_first_conflict_none(t, m, k, args[1], args[2]);
                let n = ShortcutView {
                    session: args[1],
                    id: args[2],
                    mods: m,
                    keysym: k,
                    description: d,
                };
                assert(after == w.push(n));
                assert forall|i: int, j: int| 0 <= i < j < after.len() implies !#[trigger] chord_clash(after[i], after[j]) by {
                    if j < w.len() {
                        assert(after[i] == w[i] && after[j] == w[j]);
                    } else {
                        let q = choose|q: int|
                            0 <= q < t.len() && #[trigger] w[i] == t[q] && !owned_by(
                                t[q],
                                args[1],
                                Some(args[2]),
                            );
                        assert(after[i] == t[q]);
                    }
                }
                assert forall|i: int| 0 <= i < after.len() implies !keybind_taken(
                    binds,
                    #[trigger] after[i].mods,
                    after[i].keysym,
                ) by {
                    if i < w.len() {
                        let q = choose|q: int|
                            0 <= q < t.len() && #[trigger] w[i] == t[q] && !owned_by(
                                t[q],
                                args[1],
                                Some(args[2]),
                            );
                        assert(after[i] == t[q]);
                    }
                }
            }
        }
    } else if args.len() > 0 && args[0] == "unbind"@ && (args.len() == 2 || args.len() == 3) {
        let id = if args.len() == 2 {
            None
        } else {
            Some(args[2])
        };
        lemma_without_distinct(t, args[1], id);
        lemma_without_members(t, args[1], id);
        let w = without(t, args[1], id);
        assert(args[0].len() == 6);
        assert(args[0] != "bind"@);
        assert(after == w);
        assert forall|i: int| 0 <= i < w.len() implies !keybind_taken(
            binds,
            #[trigger] w[i].mods,
            w[i].keysym,
        ) by {
            let q = choose|q: int|
                0 <= q < t.len() && #[trigger] w[i] == t[q] && !owned_by(t[q], args[1], id);
        }
    }
}

/// What the `shortcut` command answers, for every argument list: an
/// `error:` reply leaves the table as it was; `clear` answers `ok` and
/// empties it; anything but `bind`, `unbind`, `clear` or `list` (or no
/// word at all) gets the usage line and changes nothing.
pub proof fn lemma_ipc_replies(
    binds: Seq<Chord>,
    t: Seq<ShortcutView>,
    args: Seq<Seq<char>>,
    trigger: Result<(u32, u32, Seq<char>), Seq<char>>,
)
    ensures
        ({
            let (reply, after) = shortcut_ipc_spec(binds, t, args, trigger);
            &&& starts_with(reply, "error:"@) ==> after == t
            &&& (args.len() > 0 && args[0] == "clear"@) ==> reply == "ok\n"@ && after.len() == 0
            &&& !(args.len() > 0 && (args[0] == "bind"@ || args[0] == "unbind"@ || args[0]
                == "clear"@ || args[0] == "list"@)) ==> reply == usage_all() && after == t
        }),
{
    reveal_strlit("error:");
    reveal_strlit("ok\n");
    reveal_strlit("ok ");
    reveal_strlit("bind");
    reveal_strlit("unbind");
    reveal_strlit("clear");
    reveal_strlit("list");
    let (reply, after) = shortcut_ipc_spec(binds, t, args, trigger);
    if args.len() > 0 && args[0] == "clear"@ {
        assert("clear"@.len() == 5 && "bind"@.len() == 4 && "unbind"@.len() == 6);
        assert(args[0] != "bind"@ && args[0] != "unbind"@);
    }
    if starts_with(reply, "error:"@) {
        assert(reply[0] == reply.subrange(0, 6)[0]);
        assert(reply[0] == 'e');
        if args.len() > 0 && args[0] == "bind"@ && args.len() == 4 {
            if let Ok((m, k, d)) = trigger {
                if !keybind_taken(binds, m, k) && first_conflict(t, m, k, args[1], args[2])
                    is None {
                    assert(reply == "ok "@ + d + "\n"@);
                    assert(reply[0] == 'o');
                }
            }
        } else if args.len() > 0 && args[0] == "unbind"@ && (args.len() == 2 || args.len()
            == 3) {
            assert("bind"@.len() == 4 && "unbind"@.len() == 6);
            assert(args[0] != "bind"@);
            assert(reply == "ok\n"@);
            assert(reply[0] == 'o');
        } else if args.len() > 0 && args[0] == "clear"@ {
            assert(reply == "ok\n"@);
            assert(reply[0] == 'o');
        }
    }
}

/// After `unbind <session> <id>` or a successful rebind of the same
/// shortcut, the table holds nothing else of that shortcut's owner.
pub proof fn lemma_without_removes_owner(
    t: Seq<ShortcutView>,
    session: Seq<char>,
    id: Option<Seq<char>>,
)
    ensures
        forall|i: int|
            0 <= i < without(t, session, id).len() ==> !owned_by(
                #[trigger] without(t, session, id)[i],
                session,
                id,
            ),
{
    lemma_without_members(t, session, id);
    assert forall|i: int| 0 <= i < without(t, session, id).len() implies !owned_by(
        #[trigger] without(t, session, id)[i],
        session,
        id,
    ) by {
        let j = choose|j: int|
            0 <= j < t.len() && #[trigger] without(t, session, id)[i] == t[j] && !owned_by(
                t[j],
                session,
                id,
            );
    }
}

} // verus!
