use iui::{ClippedRectangle, Rectangle, raw_rect};

#[test]
fn contains_is_inclusive_on_both_edges() {
    let r = Rectangle { x: 0, y: 0, w: 50, h: 50 };
    assert!(r.contains((0, 10)));
    assert!(r.contains((50, 10)));
    assert!(r.contains((10, 0)));
    assert!(r.contains((10, 50)));
    assert!(r.contains((50, 50)));
    assert!(!r.contains((51, 10)));
    assert!(!r.contains((10, 51)));
    assert!(!r.contains((-1, 10)));
    assert!(!r.contains((10, -1)));
}

#[test]
fn contains_with_negative_origin() {
    let r = Rectangle { x: -20, y: -20, w: 10, h: 10 };
    assert!(r.contains((-20, -20)));
    assert!(r.contains((-10, -10)));
    assert!(!r.contains((0, 0)));
}

#[test]
fn intersects_is_symmetric() {
    let a = Rectangle { x: 0, y: 0, w: 10, h: 10 };
    let b = Rectangle { x: 5, y: 5, w: 10, h: 10 };
    let c = Rectangle { x: 30, y: 0, w: 10, h: 10 };
    assert!(a.intersects(&b));
    assert!(b.intersects(&a));
    assert!(!a.intersects(&c));
    assert!(!c.intersects(&a));
}

#[test]
fn touching_edges_do_not_intersect() {
    let a = Rectangle { x: 0, y: 0, w: 10, h: 10 };
    let b = Rectangle { x: 10, y: 0, w: 10, h: 10 };
    assert!(!a.intersects(&b));
    assert!(!b.intersects(&a));
}

#[test]
fn zero_size_touching_rectangles_do_not_intersect() {
    let a = Rectangle { x: 0, y: 0, w: 0, h: 0 };
    let b = Rectangle { x: 0, y: 0, w: 0, h: 0 };
    assert!(!a.intersects(&b));
}

#[test]
fn clipped_contains_requires_both_rectangles() {
    let c = ClippedRectangle {
        bounds: Rectangle { x: 0, y: 0, w: 50, h: 50 },
        clipping_box: Rectangle { x: 0, y: 0, w: 10, h: 10 },
    };
    assert!(c.contains((5, 5)));
    assert!(!c.contains((20, 5)));
    let d = ClippedRectangle {
        bounds: Rectangle { x: 0, y: 0, w: 10, h: 10 },
        clipping_box: Rectangle { x: 5, y: 5, w: 50, h: 50 },
    };
    assert!(!d.contains((2, 2)));
    assert!(d.contains((7, 7)));
}

#[test]
fn raw_rect_is_unclipped() {
    let c = raw_rect(1, 2, 3, 4);
    assert_eq!(c.bounds, Rectangle { x: 1, y: 2, w: 3, h: 4 });
    assert_eq!(c.clipping_box, Rectangle { x: 1, y: 2, w: 3, h: 4 });
}

#[test]
fn part_visible_tracks_clip_overlap() {
    let visible = ClippedRectangle {
        bounds: Rectangle { x: 0, y: 0, w: 10, h: 10 },
        clipping_box: Rectangle { x: 5, y: 5, w: 10, h: 10 },
    };
    assert!(visible.is_part_visible());
    let hidden = ClippedRectangle {
        bounds: Rectangle { x: 0, y: 0, w: 10, h: 10 },
        clipping_box: Rectangle { x: 100, y: 100, w: 10, h: 10 },
    };
    assert!(!hidden.is_part_visible());
}
