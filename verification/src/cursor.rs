use vstd::prelude::*;

verus! {

/// The window edges a resize acts on.
#[derive(Debug, Clone, Copy, PartialEq, Eq, Structural)]
pub struct Edges {
    pub top: bool,
    pub bottom: bool,
    pub left: bool,
    pub right: bool,
}

/// One of the eight resize handles around a window: the middle of each side
/// and each corner.
#[derive(Debug, Clone, Copy, PartialEq, Eq, Structural)]
pub enum BorderElement {
    Top,
    Bottom,
    Left,
    Right,
    TopLeft,
    TopRight,
    BottomLeft,
    BottomRight,
}

/// What a pointer position over a window grabs.
#[derive(Debug, Clone, Copy, PartialEq, Eq, Structural)]
pub enum BorderZone {
    /// Nothing: the pointer belongs to the client.
    NoZone,
    /// The window moves.
    Move,
    /// The window resizes along these edges.
    Resize(Edges),
}

pub open spec fn edges_of(element: BorderElement) -> Edges {
    let (top, bottom, left, right) = match element {
        BorderElement::Top => (true, false, false, false),
        BorderElement::Bottom => (false, true, false, false),
        BorderElement::Left => (false, false, true, false),
        BorderElement::Right => (false, false, false, true),
        BorderElement::TopLeft => (true, false, true, false),
        BorderElement::TopRight => (true, false, false, true),
        BorderElement::BottomLeft => (false, true, true, false),
        BorderElement::BottomRight => (false, true, false, true),
    };
    Edges { top, bottom, left, right }
}

pub open spec fn element_of(edges: Edges) -> BorderElement {
    if edges.top && edges.left {
        BorderElement::TopLeft
    } else if edges.top && edges.right {
        BorderElement::TopRight
    } else if edges.bottom && edges.left {
        BorderElement::BottomLeft
    } else if edges.bottom && edges.right {
        BorderElement::BottomRight
    } else if edges.bottom {
        BorderElement::Bottom
    } else if edges.left {
        BorderElement::Left
    } else if edges.right {
        BorderElement::Right
    } else {
        BorderElement::Top
    }
}

/// The resize edges a handle stands for — the inverse of
/// `border_element_for_edges`.
pub fn edges_for_border_element(element: BorderElement) -> (e: Edges)
    ensures
        e == edges_of(element),
{
    let (top, bottom, left, right) = match element {
        BorderElement::Top => (true, false, false, false),
        BorderElement::Bottom => (false, true, false, false),
        BorderElement::Left => (false, false, true, false),
        BorderElement::Right => (false, false, false, true),
        BorderElement::TopLeft => (true, false, true, false),
        BorderElement::TopRight => (true, false, false, true),
        BorderElement::BottomLeft => (false, true, true, false),
        BorderElement::BottomRight => (false, true, false, true),
    };
    Edges { top, bottom, left, right }
}

/// The handle that highlights for a resize along `edges`: a corner when a
/// vertical and a horizontal edge are both set (top before bottom, left
/// before right), else the side, else the top.
pub fn border_element_for_edges(edges: Edges) -> (b: BorderElement)
    ensures
        b == element_of(edges),
{
    if edges.top && edges.left {
        BorderElement::TopLeft
    } else if edges.top && edges.right {
        BorderElement::TopRight
    } else if edges.bottom && edges.left {
        BorderElement::BottomLeft
    } else if edges.bottom && edges.right {
        BorderElement::BottomRight
    } else if edges.bottom {
        BorderElement::Bottom
    } else if edges.left {
        BorderElement::Left
    } else if edges.right {
        BorderElement::Right
    } else {
        BorderElement::Top
    }
}

/// Every handle maps to its edges and back to itself.
pub proof fn lemma_border_element_round_trip(element: BorderElement)
    ensures
        element_of(edges_of(element)) == element,
{
}

/// A set of edges made of at most one vertical and at most one horizontal
/// edge, not empty, survives the trip through its handle.
pub proof fn lemma_edges_round_trip(edges: Edges)
    requires
        !(edges.top && edges.bottom),
        !(edges.left && edges.right),
        edges.top || edges.bottom || edges.left || edges.right,
    ensures
        edges_of(element_of(edges)) == edges,
{
}

pub open spec fn cursor_name_of(edges: Edges) -> Seq<char> {
    if edges.top && edges.left {
        "nw-resize"@
    } else if edges.top && edges.right {
        "ne-resize"@
    } else if edges.bottom && edges.left {
        "sw-resize"@
    } else if edges.bottom && edges.right {
        "se-resize"@
    } else if edges.top {
        "n-resize"@
    } else if edges.bottom {
        "s-resize"@
    } else if edges.left {
        "w-resize"@
    } else if edges.right {
        "e-resize"@
    } else {
        "default"@
    }
}

/// The xcursor name for resizing along `edges` (`default` for none).
pub fn get_resize_cursor_name(edges: Edges) -> (r: &'static str)
    ensures
        r@ == cursor_name_of(edges),
{
    if edges.top && edges.left {
        "nw-resize"
    } else if edges.top && edges.right {
        "ne-resize"
    } else if edges.bottom && edges.left {
        "sw-resize"
    } else if edges.bottom && edges.right {
        "se-resize"
    } else if edges.top {
        "n-resize"
    } else if edges.bottom {
        "s-resize"
    } else if edges.left {
        "w-resize"
    } else if edges.right {
        "e-resize"
    } else {
        "default"
    }
}

} // verus!
