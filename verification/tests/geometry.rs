use cce_fx::cursor::{
    border_element_for_edges, edges_for_border_element, get_resize_cursor_name, BorderElement,
    Edges,
};
use cce_fx::geometry::{place_input_popup, Rect};

fn rect(x: i32, y: i32, w: i32, h: i32) -> Rect {
    Rect { x, y, w, h }
}

#[test]
fn overlap_area_and_rect() {
    let a = rect(0, 0, 10, 10);
    let b = rect(5, 6, 10, 10);
    assert_eq!(a.intersect_area(&b), 20);
    assert_eq!(b.intersect_area(&a), 20, "the overlap does not depend on the order");
    assert!(a.intersects(&b));
    assert_eq!(a.intersection(&b), Some(rect(5, 6, 5, 4)));
    assert_eq!(a.right(), 10);
    assert_eq!(b.bottom(), 16);
}

#[test]
fn touching_rects_do_not_overlap() {
    let a = rect(0, 0, 10, 10);
    let b = rect(10, 0, 5, 5);
    assert_eq!(a.intersect_area(&b), 0);
    assert!(!a.intersects(&b));
    assert_eq!(a.intersection(&b), None);
    let c = rect(-20, -20, 5, 5);
    assert_eq!(a.intersection(&c), None);
}

#[test]
fn a_rect_meets_itself_whole() {
    let a = rect(3, -4, 7, 2);
    assert_eq!(a.intersection(&a), Some(a));
    assert_eq!(a.intersect_area(&a), 14);
}

#[test]
fn border_elements_and_edges_round_trip() {
    let all = [
        BorderElement::Top,
        BorderElement::Bottom,
        BorderElement::Left,
        BorderElement::Right,
        BorderElement::TopLeft,
        BorderElement::TopRight,
        BorderElement::BottomLeft,
        BorderElement::BottomRight,
    ];
    for e in all {
        assert_eq!(border_element_for_edges(edges_for_border_element(e)), e);
    }
    let corner = edges_for_border_element(BorderElement::TopRight);
    assert_eq!(corner, Edges { top: true, bottom: false, left: false, right: true });
}

#[test]
fn resize_cursor_names() {
    let e = |top, bottom, left, right| Edges { top, bottom, left, right };
    assert_eq!(get_resize_cursor_name(e(true, false, true, false)), "nw-resize");
    assert_eq!(get_resize_cursor_name(e(false, true, false, true)), "se-resize");
    assert_eq!(get_resize_cursor_name(e(false, false, true, false)), "w-resize");
    assert_eq!(get_resize_cursor_name(e(true, false, false, false)), "n-resize");
    assert_eq!(get_resize_cursor_name(e(false, false, false, false)), "default");
}

#[test]
fn input_popup_goes_below_the_cursor_when_it_fits() {
    let p = place_input_popup(100, 200, rect(10, 20, 2, 18), rect(0, 0, 1920, 1080), 300, 40);
    assert_eq!((p.node_x, p.node_y), (10, 38));
    assert_eq!((p.cursor_x, p.cursor_y), (0, -18));
}

#[test]
fn input_popup_flips_at_the_output_edges() {
    let p = place_input_popup(1800, 1060, rect(10, 5, 2, 10), rect(0, 0, 1920, 1080), 300, 40);
    assert_eq!((p.node_x, p.node_y), (10 + 2 - 300, 5 - 40));
    assert_eq!((p.cursor_x, p.cursor_y), (298, 40));
}

#[test]
fn input_popup_on_a_second_output() {
    let p = place_input_popup(2000, 100, rect(0, 0, 4, 20), rect(1920, 0, 1280, 1024), 100, 30);
    assert_eq!((p.node_x, p.node_y), (0, 20));
}
