use vstd::prelude::*;

use crate::text::str_eq;

verus! {

// ---------------------------------------------------------------------------
// The KDL document as this crate reads it
// ---------------------------------------------------------------------------

#[verifier::external_type_specification]
#[verifier::external_body]
pub struct ExKdlDocument(kdl::KdlDocument);

/// One entry of a node: a positional argument (`name` is `None`) or a
/// property `name=value`, with its type annotation `(ty)` if it has one.
/// The value is read the three ways the configuration reads values:
/// as a string, as an integer and as a boolean; at most one of them is set.
pub struct Entry {
    pub name: Option<String>,
    pub ty: Option<String>,
    pub text: Option<String>,
    pub int: Option<i64>,
    pub flag: Option<bool>,
}

/// One node: its name, its entries in order, and its children block, if any.
pub struct Node {
    pub name: String,
    pub entries: Vec<Entry>,
    pub children: Option<kdl::KdlDocument>,
}

/// The nodes of a KDL document, in order, as `Node` values.
pub uninterp spec fn kdl_nodes(doc: kdl::KdlDocument) -> Seq<Node>;

/// What parsing a text as a KDL document gives: its nodes, or the
/// parser's message.
pub uninterp spec fn kdl_parse(content: Seq<char>) -> Result<Seq<Node>, Seq<char>>;

/// Parses `content` with `kdl::KdlDocument`'s `FromStr`; a failure is handed
/// back as the error's `Display` text.
#[verifier::external_body]
pub(crate) fn parse_document(content: &str) -> (r: Result<kdl::KdlDocument, String>)
    ensures
        match r {
            Ok(doc) => kdl_parse(content@) == Ok::<Seq<Node>, Seq<char>>(kdl_nodes(doc)),
            Err(e) => kdl_parse(content@) == Err::<Seq<Node>, Seq<char>>(e@),
        },
{
    content.parse::<kdl::KdlDocument>().map_err(|e| e.to_string())
}

/// `kdl::KdlDocument::nodes`, each node taken apart into a `Node`: its name's
/// value, its entries (name, type annotation, and the value through
/// `KdlValue::as_string`, `as_i64` and `as_bool`), and a copy of its children.
#[verifier::external_body]
pub(crate) fn document_nodes(doc: &kdl::KdlDocument) -> (r: Vec<Node>)
    ensures
        r@ == kdl_nodes(*doc),
{
    doc.nodes().iter().map(|n| Node {
        name: n.name().value().to_string(),
        entries: n.entries().iter().map(|e| Entry {
            name: e.name().map(|i| i.value().to_string()),
            ty: e.ty().map(|i| i.value().to_string()),
            text: e.value().as_string().map(|s| s.to_string()),
            int: e.value().as_i64(),
            flag: e.value().as_bool(),
        }).collect(),
        children: n.children().cloned(),
    }).collect()
}

// ---------------------------------------------------------------------------
// Reading nodes
// ---------------------------------------------------------------------------

/// The view of an optional string.
pub open spec fn opt_text(o: Option<String>) -> Option<Seq<char>> {
    match o {
        Some(s) => Some(s@),
        None => None,
    }
}

/// An optional index as an integer.
pub open spec fn opt_index(o: Option<usize>) -> Option<int> {
    match o {
        Some(i) => Some(i as int),
        None => None,
    }
}

/// The first index at or after `i` whose element satisfies `p`.
pub open spec fn first_from<A>(s: Seq<A>, p: spec_fn(A) -> bool, i: int) -> Option<int>
    decreases s.len() - i,
{
    if i < 0 || i >= s.len() {
        None
    } else if p(s[i]) {
        Some(i)
    } else {
        first_from(s, p, i + 1)
    }
}

/// The first index whose element satisfies `p`.
pub open spec fn first_index<A>(s: Seq<A>, p: spec_fn(A) -> bool) -> Option<int> {
    first_from(s, p, 0)
}

/// The first element that satisfies `p`.
pub open spec fn first_such<A>(s: Seq<A>, p: spec_fn(A) -> bool) -> Option<A> {
    match first_index(s, p) {
        Some(i) => Some(s[i]),
        None => None,
    }
}

pub proof fn lemma_first_from_bounds<A>(s: Seq<A>, p: spec_fn(A) -> bool, i: int)
    requires
        0 <= i,
    ensures
        match first_from(s, p, i) {
            Some(j) => i <= j < s.len() && p(s[j]) && forall|k: int| i <= k < j ==> !p(#[trigger] s[k]),
            None => forall|k: int| i <= k < s.len() ==> !p(#[trigger] s[k]),
        },
    decreases s.len() - i,
{
    if i >= s.len() {
    } else if p(s[i]) {
    } else {
        lemma_first_from_bounds(s, p, i + 1);
    }
}

/// The nodes in a node's children block (none when it has no block).
pub open spec fn child_nodes(n: Node) -> Seq<Node> {
    match n.children {
        Some(d) => kdl_nodes(d),
        None => Seq::empty(),
    }
}

/// A node named `name` with at least one entry.
pub open spec fn named_with_arg(name: Seq<char>) -> spec_fn(Node) -> bool {
    |n: Node| n.name@ == name && n.entries@.len() > 0
}

/// A node named `name`.
pub open spec fn named(name: Seq<char>) -> spec_fn(Node) -> bool {
    |n: Node| n.name@ == name
}

/// A property entry called `key`.
pub open spec fn prop_named(key: Seq<char>) -> spec_fn(Entry) -> bool {
    |e: Entry| e.name matches Some(k) && k@ == key
}

/// The first argument of the first child called `name` that has an argument.
pub open spec fn child_arg(n: Node, name: Seq<char>) -> Option<Entry> {
    match first_such(child_nodes(n), named_with_arg(name)) {
        Some(c) => Some(c.entries@[0]),
        None => None,
    }
}

/// The entry of the property `key` of a node (the first one so named).
pub open spec fn prop(n: Node, key: Seq<char>) -> Option<Entry> {
    first_such(n.entries@, prop_named(key))
}

/// A child called `child` that has a property `key`.
pub open spec fn named_with_prop(child: Seq<char>, key: Seq<char>) -> spec_fn(Node) -> bool {
    |c: Node| c.name@ == child && prop(c, key) is Some
}

/// The property `key` of the first child called `child` that has one.
pub open spec fn nested_prop(n: Node, child: Seq<char>, key: Seq<char>) -> Option<Entry> {
    match first_such(child_nodes(n), named_with_prop(child, key)) {
        Some(c) => prop(c, key),
        None => None,
    }
}

/// The nodes of a node's children block.
pub fn children_of(node: &Node) -> (r: Vec<Node>)
    ensures
        r@ == child_nodes(*node),
{
    match &node.children {
        Some(d) => document_nodes(d),
        None => Vec::new(),
    }
}

/// The index of the first node of `ns` called `name` (with an argument,
/// when `with_arg`).
pub fn find_node(ns: &Vec<Node>, name: &str, with_arg: bool) -> (r: Option<usize>)
    ensures
        opt_index(r) == (if with_arg {
            first_index(ns@, named_with_arg(name@))
        } else {
            first_index(ns@, named(name@))
        }),
        r matches Some(i) ==> i < ns.len() && ns@[i as int].name@ == name@ && (with_arg
            ==> ns@[i as int].entries@.len() > 0),
{
    let ghost p = if with_arg { named_with_arg(name@) } else { named(name@) };
    let mut i: usize = 0;
    while i < ns.len()
        invariant
            0 <= i <= ns.len(),
            p == (if with_arg { named_with_arg(name@) } else { named(name@) }),
            first_from(ns@, p, 0) == first_from(ns@, p, i as int),
        decreases ns.len() - i,
    {
        let hit = str_eq(ns[i].name.as_str(), name) && (!with_arg || ns[i].entries.len() > 0);
        if hit {
            assert(p(ns@[i as int]));
            return Some(i);
        }
        assert(!p(ns@[i as int]));
        i = i + 1;
    }
    None
}

/// The index of the first entry of `es` that is the property `key`.
pub fn find_prop(es: &Vec<Entry>, key: &str) -> (r: Option<usize>)
    ensures
        opt_index(r) == first_index(es@, prop_named(key@)),
        r matches Some(i) ==> i < es.len(),
{
    let ghost p = prop_named(key@);
    let mut i: usize = 0;
    while i < es.len()
        invariant
            0 <= i <= es.len(),
            p == prop_named(key@),
            first_from(es@, p, 0) == first_from(es@, p, i as int),
        decreases es.len() - i,
    {
        let hit = match &es[i].name {
            Some(k) => str_eq(k.as_str(), key),
            None => false,
        };
        if hit {
            assert(p(es@[i as int]));
            return Some(i);
        }
        assert(!p(es@[i as int]));
        i = i + 1;
    }
    None
}


// ---------------------------------------------------------------------------
// Typed reads with defaults
// ---------------------------------------------------------------------------

/// An entry's integer, or `default`.
pub open spec fn int_or(e: Option<Entry>, default: i64) -> i64 {
    match e {
        Some(e) => match e.int {
            Some(v) => v,
            None => default,
        },
        None => default,
    }
}

/// An entry's boolean, or `default`.
pub open spec fn flag_or(e: Option<Entry>, default: bool) -> bool {
    match e {
        Some(e) => match e.flag {
            Some(v) => v,
            None => default,
        },
        None => default,
    }
}

/// An entry's string, or `default`.
pub open spec fn text_or(e: Option<Entry>, default: Seq<char>) -> Seq<char> {
    match e {
        Some(e) => match e.text {
            Some(t) => t@,
            None => default,
        },
        None => default,
    }
}

/// An entry's integer, if it is one.
pub open spec fn int_of(e: Option<Entry>) -> Option<i64> {
    match e {
        Some(e) => e.int,
        None => None,
    }
}

/// An entry's boolean, if it is one.
pub open spec fn flag_of(e: Option<Entry>) -> Option<bool> {
    match e {
        Some(e) => e.flag,
        None => None,
    }
}

/// An entry's string, if it is one.
pub open spec fn text_of(e: Option<Entry>) -> Option<Seq<char>> {
    match e {
        Some(e) => opt_text(e.text),
        None => None,
    }
}

fn entry_int_or(e: &Entry, default: i64) -> (r: i64)
    ensures
        r == int_or(Some(*e), default),
{
    match e.int {
        Some(v) => v,
        None => default,
    }
}

fn entry_flag_or(e: &Entry, default: bool) -> (r: bool)
    ensures
        r == flag_or(Some(*e), default),
{
    match e.flag {
        Some(v) => v,
        None => default,
    }
}

fn entry_text_or(e: &Entry, default: &str) -> (r: String)
    ensures
        r@ == text_or(Some(*e), default@),
{
    match &e.text {
        Some(t) => t.clone(),
        None => default.to_owned(),
    }
}

fn entry_text(e: &Entry) -> (r: Option<String>)
    ensures
        opt_text(r) == text_of(Some(*e)),
{
    match &e.text {
        Some(t) => Some(t.clone()),
        None => None,
    }
}

/// The integer argument of the child `child_name` of `node`, or `default`.
pub fn get_child_arg_i64(node: &Node, child_name: &str, default: i64) -> (r: i64)
    ensures
        r == int_or(child_arg(*node, child_name@), default),
{
    let children = children_of(node);
    match find_node(&children, child_name, true) {
        Some(i) => {
            entry_int_or(&children[i].entries[0], default)
        },
        None => default,
    }
}

/// The boolean argument of the child `child_name` of `node`, or `default`.
pub fn get_child_arg_bool(node: &Node, child_name: &str, default: bool) -> (r: bool)
    ensures
        r == flag_or(child_arg(*node, child_name@), default),
{
    let children = children_of(node);
    match find_node(&children, child_name, true) {
        Some(i) => {
            entry_flag_or(&children[i].entries[0], default)
        },
        None => default,
    }
}

/// The string argument of the child `child_name` of `node`, or `default`.
pub fn get_child_arg_string(node: &Node, child_name: &str, default: &str) -> (r: String)
    ensures
        r@ == text_or(child_arg(*node, child_name@), default@),
{
    let children = children_of(node);
    match find_node(&children, child_name, true) {
        Some(i) => {
            entry_text_or(&children[i].entries[0], default)
        },
        None => default.to_owned(),
    }
}

/// The boolean argument of the child `child_name` of `node`, if it has one.
pub fn get_child_arg_bool_opt(node: &Node, child_name: &str) -> (r: Option<bool>)
    ensures
        r == flag_of(child_arg(*node, child_name@)),
{
    let children = children_of(node);
    match find_node(&children, child_name, true) {
        Some(i) => {
            children[i].entries[0].flag
        },
        None => None,
    }
}

/// The string argument of the child `child_name` of `node`, if it has one.
pub fn get_child_arg_string_opt(node: &Node, child_name: &str) -> (r: Option<String>)
    ensures
        opt_text(r) == text_of(child_arg(*node, child_name@)),
{
    let children = children_of(node);
    match find_node(&children, child_name, true) {
        Some(i) => {
            entry_text(&children[i].entries[0])
        },
        None => None,
    }
}

/// The string property `key` of `node`, or `default`.
pub fn get_prop_string(node: &Node, key: &str, default: &str) -> (r: String)
    ensures
        r@ == text_or(prop(*node, key@), default@),
{
    match find_prop(&node.entries, key) {
        Some(i) => entry_text_or(&node.entries[i], default),
        None => default.to_owned(),
    }
}

/// The string property `key` of `node`, if it is a string.
pub fn get_prop_string_opt(node: &Node, key: &str) -> (r: Option<String>)
    ensures
        opt_text(r) == text_of(prop(*node, key@)),
{
    match find_prop(&node.entries, key) {
        Some(i) => entry_text(&node.entries[i]),
        None => None,
    }
}

/// The integer property `key` of `node`, or `default`.
pub fn get_prop_i64(node: &Node, key: &str, default: i64) -> (r: i64)
    ensures
        r == int_or(prop(*node, key@), default),
{
    match find_prop(&node.entries, key) {
        Some(i) => entry_int_or(&node.entries[i], default),
        None => default,
    }
}

/// The boolean property `key` of `node`, or `default`.
pub fn get_prop_bool(node: &Node, key: &str, default: bool) -> (r: bool)
    ensures
        r == flag_or(prop(*node, key@), default),
{
    match find_prop(&node.entries, key) {
        Some(i) => entry_flag_or(&node.entries[i], default),
        None => default,
    }
}

/// The boolean property `key` of `node`, if it is a boolean.
pub fn get_prop_bool_opt(node: &Node, key: &str) -> (r: Option<bool>)
    ensures
        r == flag_of(prop(*node, key@)),
{
    match find_prop(&node.entries, key) {
        Some(i) => node.entries[i].flag,
        None => None,
    }
}

/// The integer property `key` of `node`, if it is an integer.
pub fn get_prop_i64_opt(node: &Node, key: &str) -> (r: Option<i64>)
    ensures
        r == int_of(prop(*node, key@)),
{
    match find_prop(&node.entries, key) {
        Some(i) => node.entries[i].int,
        None => None,
    }
}

/// The index of the first node of `ns` called `child_name` that has a
/// property `key`, and the index of that property in it.
pub fn find_nested_prop(ns: &Vec<Node>, child_name: &str, key: &str) -> (r: Option<(usize, usize)>)
    ensures
        match r {
            Some((i, j)) => first_index(ns@, named_with_prop(child_name@, key@)) == Some(i as int)
                && i < ns.len() && first_index(ns@[i as int].entries@, prop_named(key@)) == Some(
                j as int,
            ) && j < ns@[i as int].entries.len(),
            None => first_index(ns@, named_with_prop(child_name@, key@)) is None,
        },
{
    let ghost p = named_with_prop(child_name@, key@);
    let mut i: usize = 0;
    while i < ns.len()
        invariant
            0 <= i <= ns.len(),
            p == named_with_prop(child_name@, key@),
            first_from(ns@, p, 0) == first_from(ns@, p, i as int),
        decreases ns.len() - i,
    {
        if str_eq(ns[i].name.as_str(), child_name) {
            match find_prop(&ns[i].entries, key) {
                Some(j) => {
                    assert(p(ns@[i as int]));
                    return Some((i, j));
                },
                None => {
                    assert(!p(ns@[i as int]));
                },
            }
        } else {
            assert(!p(ns@[i as int]));
        }
        i = i + 1;
    }
    None
}

/// The string property `prop_name` of the first child `child_name` of `node`
/// that has it, or `default`.
pub fn get_nested_prop_string(node: &Node, child_name: &str, prop_name: &str, default: &str) -> (r:
    String)
    ensures
        r@ == text_or(nested_prop(*node, child_name@, prop_name@), default@),
{
    let children = children_of(node);
    match find_nested_prop(&children, child_name, prop_name) {
        Some((i, j)) => entry_text_or(&children[i].entries[j], default),
        None => default.to_owned(),
    }
}

/// The integer property `prop_name` of the first child `child_name` of
/// `node` that has it, or `default`.
pub fn get_nested_prop_i64(node: &Node, child_name: &str, prop_name: &str, default: i64) -> (r: i64)
    ensures
        r == int_or(nested_prop(*node, child_name@, prop_name@), default),
{
    let children = children_of(node);
    match find_nested_prop(&children, child_name, prop_name) {
        Some((i, j)) => entry_int_or(&children[i].entries[j], default),
        None => default,
    }
}

/// The boolean property `prop_name` of the first child `child_name` of
/// `node` that has it, or `default`.
pub fn get_nested_prop_bool(node: &Node, child_name: &str, prop_name: &str, default: bool) -> (r:
    bool)
    ensures
        r == flag_or(nested_prop(*node, child_name@, prop_name@), default),
{
    let children = children_of(node);
    match find_nested_prop(&children, child_name, prop_name) {
        Some((i, j)) => entry_flag_or(&children[i].entries[j], default),
        None => default,
    }
}

/// The integer property `prop_name` of the first child `child_name` of
/// `node` that has it, if it is an integer.
pub fn get_nested_prop_i64_opt(node: &Node, child_name: &str, prop_name: &str) -> (r: Option<i64>)
    ensures
        r == int_of(nested_prop(*node, child_name@, prop_name@)),
{
    let children = children_of(node);
    match find_nested_prop(&children, child_name, prop_name) {
        Some((i, j)) => children[i].entries[j].int,
        None => None,
    }
}

/// The strings among the positional arguments `es`, in order.
pub open spec fn positional_texts(es: Seq<Entry>) -> Seq<Seq<char>>
    decreases es.len(),
{
    if es.len() == 0 {
        Seq::empty()
    } else {
        let rest = positional_texts(es.drop_last());
        let e = es.last();
        if e.name is None && e.text is Some {
            rest.push(e.text.unwrap()@)
        } else {
            rest
        }
    }
}

/// The views of a sequence of strings.
pub open spec fn texts(v: Seq<String>) -> Seq<Seq<char>> {
    v.map_values(|s: String| s@)
}

/// All positional string arguments of the first child `child_name` of
/// `node`: `Some` when that child is present (even with no arguments),
/// `None` when it is absent.
pub fn get_child_args_string_vec_opt(node: &Node, child_name: &str) -> (r: Option<Vec<String>>)
    ensures
        match first_such(child_nodes(*node), named(child_name@)) {
            Some(c) => r matches Some(v) && texts(v@) == positional_texts(c.entries@),
            None => r is None,
        },
{
    let children = children_of(node);
    match find_node(&children, child_name, false) {
        Some(i) => {
            let es = &children[i].entries;
            let mut out: Vec<String> = Vec::new();
            let mut k: usize = 0;
            while k < es.len()
                invariant
                    0 <= k <= es.len(),
                    texts(out@) == positional_texts(es@.subrange(0, k as int)),
                decreases es.len() - k,
            {
                assert(es@.subrange(0, k as int) == es@.subrange(0, k as int + 1).drop_last());
                if es[k].name.is_none() {
                    match &es[k].text {
                        Some(t) => {
                            out.push(t.clone());
                        },
                        None => {},
                    }
                }
                assert(texts(out@) == positional_texts(es@.subrange(0, k as int + 1)));
                k = k + 1;
            }
            assert(es@.subrange(0, es.len() as int) == es@);
            Some(out)
        },
        None => None,
    }
}

/// A child called `name` with two or more arguments, the first annotated
/// `(vec2i)`.
pub open spec fn vec2i_node(name: Seq<char>) -> spec_fn(Node) -> bool {
    |n: Node|
        n.name@ == name && n.entries@.len() >= 2 && opt_text(n.entries@[0].ty) == Some(
            "vec2i"@,
        )
}

/// The pair that a `(vec2i)x y` child gives: both arguments as integers,
/// each taken to 32 bits.
pub open spec fn vec2i_of(n: Node) -> Option<Seq<i32>> {
    match (n.entries@[0].int, n.entries@[1].int) {
        (Some(x), Some(y)) => Some(seq![x as i32, y as i32]),
        _ => None,
    }
}

/// The `(vec2i)x y` pair of the first child `child_name` of `node` written
/// that way.
pub fn get_child_arg_vec2i_opt(node: &Node, child_name: &str) -> (r: Option<[i32; 2]>)
    ensures
        match first_such(child_nodes(*node), vec2i_node(child_name@)) {
            Some(c) => match vec2i_of(c) {
                Some(p) => r matches Some(a) && a@ == p,
                None => r is None,
            },
            None => r is None,
        },
{
    proof { reveal_strlit("vec2i"); }
    let children = children_of(node);
    let ghost p = vec2i_node(child_name@);
    let mut i: usize = 0;
    while i < children.len()
        invariant
            0 <= i <= children.len(),
            p == vec2i_node(child_name@),
            children@ == child_nodes(*node),
            first_from(children@, p, 0) == first_from(children@, p, i as int),
        decreases children.len() - i,
    {
        let c = &children[i];
        let tagged = c.entries.len() >= 2 && match &c.entries[0].ty {
            Some(t) => str_eq(t.as_str(), "vec2i"),
            None => false,
        };
        if str_eq(c.name.as_str(), child_name) && tagged {
            assert(p(children@[i as int]));
            assert(first_from(children@, p, i as int) == Some(i as int));
            let x = match c.entries[0].int {
                Some(x) => x,
                None => {
                    return None;
                },
            };
            let y = match c.entries[1].int {
                Some(y) => y,
                None => return None,
            };
            let a: [i32; 2] = [x as i32, y as i32];
            assert(a@ == seq![x as i32, y as i32]);
            return Some(a);
        }
        assert(!p(children@[i as int]));
        i = i + 1;
    }
    None
}

// ---------------------------------------------------------------------------
// The last property of a kind
// ---------------------------------------------------------------------------

/// Which reading of a value a lookup wants.
#[derive(Clone, Copy, PartialEq, Eq, Structural)]
pub enum ValueKind {
    Text,
    Int,
    Flag,
}

/// Whether an entry's value reads as `kind`.
pub open spec fn reads_as(e: Entry, kind: ValueKind) -> bool {
    match kind {
        ValueKind::Text => e.text is Some,
        ValueKind::Int => e.int is Some,
        ValueKind::Flag => e.flag is Some,
    }
}

/// A property entry called `key` whose value reads as `kind`.
pub open spec fn typed_prop(key: Seq<char>, kind: ValueKind) -> spec_fn(Entry) -> bool {
    |e: Entry| e.name matches Some(k) && k@ == key && reads_as(e, kind)
}

/// The last index before `i` whose element satisfies `p`.
pub open spec fn last_before<A>(s: Seq<A>, p: spec_fn(A) -> bool, i: int) -> Option<int>
    decreases i,
{
    if i <= 0 || i > s.len() {
        None
    } else if p(s[i - 1]) {
        Some(i - 1)
    } else {
        last_before(s, p, i - 1)
    }
}

/// The last index whose element satisfies `p`.
pub open spec fn last_index<A>(s: Seq<A>, p: spec_fn(A) -> bool) -> Option<int> {
    last_before(s, p, s.len() as int)
}

/// The last property `key` of `es` whose value reads as `kind`.
pub open spec fn last_typed(es: Seq<Entry>, key: Seq<char>, kind: ValueKind) -> Option<Entry> {
    match last_index(es, typed_prop(key, kind)) {
        Some(i) => Some(es[i]),
        None => None,
    }
}

pub proof fn lemma_last_before_bounds<A>(s: Seq<A>, p: spec_fn(A) -> bool, i: int)
    requires
        i <= s.len(),
    ensures
        last_before(s, p, i) matches Some(j) ==> 0 <= j < i && p(s[j]),
    decreases i,
{
    if i <= 0 {
    } else if p(s[i - 1]) {
    } else {
        lemma_last_before_bounds(s, p, i - 1);
    }
}

/// The index of the last property `key` of `es` whose value reads as `kind`.
pub fn find_last_typed(es: &Vec<Entry>, key: &str, kind: ValueKind) -> (r: Option<usize>)
    ensures
        opt_index(r) == last_index(es@, typed_prop(key@, kind)),
        r matches Some(i) ==> i < es.len() && reads_as(es@[i as int], kind),
{
    let ghost p = typed_prop(key@, kind);
    let mut i: usize = es.len();
    while i > 0
        invariant
            0 <= i <= es.len(),
            p == typed_prop(key@, kind),
            last_before(es@, p, es.len() as int) == last_before(es@, p, i as int),
        decreases i,
    {
        let e = &es[i - 1];
        let typed = match kind {
            ValueKind::Text => e.text.is_some(),
            ValueKind::Int => e.int.is_some(),
            ValueKind::Flag => e.flag.is_some(),
        };
        let hit = typed && match &e.name {
            Some(k) => str_eq(k.as_str(), key),
            None => false,
        };
        if hit {
            assert(p(es@[i - 1]));
            return Some(i - 1);
        }
        assert(!p(es@[i - 1]));
        i = i - 1;
    }
    None
}

/// The string of the last property `key` of `es` that is a string.
pub fn last_text(es: &Vec<Entry>, key: &str) -> (r: Option<String>)
    ensures
        opt_text(r) == text_of(last_typed(es@, key@, ValueKind::Text)),
{
    match find_last_typed(es, key, ValueKind::Text) {
        Some(i) => entry_text(&es[i]),
        None => None,
    }
}

/// The integer of the last property `key` of `es` that is an integer.
pub fn last_int(es: &Vec<Entry>, key: &str) -> (r: Option<i64>)
    ensures
        r == int_of(last_typed(es@, key@, ValueKind::Int)),
{
    match find_last_typed(es, key, ValueKind::Int) {
        Some(i) => es[i].int,
        None => None,
    }
}

/// The boolean of the last property `key` of `es` that is a boolean.
pub fn last_flag(es: &Vec<Entry>, key: &str) -> (r: Option<bool>)
    ensures
        r == flag_of(last_typed(es@, key@, ValueKind::Flag)),
{
    match find_last_typed(es, key, ValueKind::Flag) {
        Some(i) => es[i].flag,
        None => None,
    }
}

} // verus!
