use pukeko::layout::{menu_layout, Area};
use pukeko::session::Viewport;

#[test]
fn frame_covers_viewport_and_body_is_inside_border() {
    let l = menu_layout(Viewport { width: 80, height: 24 });
    assert_eq!(l.frame, Area { x: 0, y: 0, width: 80, height: 24 });
    assert_eq!(l.body, Area { x: 1, y: 1, width: 78, height: 22 });
}

#[test]
fn list_region_is_centred_inside_body() {
    let l = menu_layout(Viewport { width: 100, height: 40 });
    let (b, r) = (l.body, l.list);
    assert!(r.x > b.x && r.y > b.y);
    assert!(r.width < b.width && r.height < b.height);
    assert!(r.x + r.width < b.x + b.width);
    assert!(r.y + r.height < b.y + b.height);
    let left = r.x - b.x;
    let right = b.x + b.width - (r.x + r.width);
    assert!(left.abs_diff(right) <= 1);
    let top = r.y - b.y;
    let bottom = b.y + b.height - (r.y + r.height);
    assert!(top.abs_diff(bottom) <= 1);
}

#[test]
fn empty_viewport_gives_empty_areas() {
    let l = menu_layout(Viewport { width: 0, height: 0 });
    assert_eq!(l.body, Area { x: 0, y: 0, width: 0, height: 0 });
    assert_eq!(l.list.width, 0);
    assert_eq!(l.list.height, 0);
}

#[test]
fn one_cell_viewport_body() {
    let l = menu_layout(Viewport { width: 1, height: 1 });
    assert_eq!(l.body, Area { x: 1, y: 1, width: 0, height: 0 });
}
