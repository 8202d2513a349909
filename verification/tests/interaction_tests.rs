use print_layout::interaction::{
    get_resize_handle_at_point, resize_rect, DragMode, InteractionState, ResizeHandle,
};
use print_layout::layout::{Layout, PlacedImage};

fn layout_with_image() -> (Layout, String) {
    let mut layout = Layout::new();
    layout.add_image(PlacedImage::new(String::from("a.png"), 1000, 500));
    let id = layout.images[0].id.clone();
    (layout, id)
}

#[test]
fn test_resize_bottom_right_free() {
    let r = resize_rect(ResizeHandle::BottomRight, 10000, 10000, 100000, 50000, 20000, 5000, false);
    assert_eq!(r, (10000, 10000, 120000, 55000));
}

#[test]
fn test_resize_bottom_right_aspect_locked() {
    // Width grows to 150 mm; the height follows the 2:1 ratio.
    let r = resize_rect(ResizeHandle::BottomRight, 10000, 10000, 100000, 50000, 50000, 0, true);
    assert_eq!(r, (10000, 10000, 150000, 75000));
    // The ratio is preserved exactly here.
    assert_eq!(r.2 * 50000, r.3 * 100000);
}

#[test]
fn test_resize_never_below_minimum() {
    // An arbitrarily large negative drag cannot shrink below 10 mm.
    let r = resize_rect(
        ResizeHandle::BottomRight,
        10000,
        10000,
        100000,
        50000,
        -4_000_000_000,
        -4_000_000_000,
        false,
    );
    assert_eq!(r.2, 10000);
    assert_eq!(r.3, 10000);
    // Under aspect lock the pinned dimension is re-derived so both stay
    // at or above the minimum.
    let r = resize_rect(
        ResizeHandle::BottomRight,
        10000,
        10000,
        100000,
        50000,
        -4_000_000_000,
        0,
        true,
    );
    assert!(r.2 >= 10000);
    assert_eq!(r.3, 10000);
    assert_eq!(r.2, 20000);
}

#[test]
fn test_resize_top_left_anchors_opposite_corner() {
    let r = resize_rect(ResizeHandle::TopLeft, 10000, 10000, 100000, 50000, 20000, 5000, false);
    assert_eq!(r.2, 80000);
    assert_eq!(r.3, 45000);
    // The bottom-right corner stays at (110000, 60000).
    assert_eq!(r.0 + r.2, 110000);
    assert_eq!(r.1 + r.3, 60000);
}

#[test]
fn test_resize_edges() {
    let r = resize_rect(ResizeHandle::Right, 0, 0, 100000, 50000, 30000, 999, false);
    assert_eq!(r, (0, 0, 130000, 50000));
    let r = resize_rect(ResizeHandle::Bottom, 0, 0, 100000, 50000, 999, 30000, false);
    assert_eq!(r, (0, 0, 100000, 80000));
    let r = resize_rect(ResizeHandle::Left, 0, 0, 100000, 50000, 30000, 0, false);
    assert_eq!(r, (30000, 0, 70000, 50000));
    let r = resize_rect(ResizeHandle::Top, 0, 0, 100000, 50000, 0, 30000, false);
    assert_eq!(r, (0, 30000, 100000, 20000));
    // Edge drags under aspect lock derive the other dimension too.
    let r = resize_rect(ResizeHandle::Right, 0, 0, 100000, 50000, 100000, 0, true);
    assert_eq!(r, (0, 0, 200000, 100000));
}

#[test]
fn test_drag_move_uses_first_sample_as_baseline() {
    let (mut layout, id) = layout_with_image();
    let mut state = InteractionState::new();
    assert!(state.on_select_image(&mut layout, &id));
    assert_eq!(state.drag_mode, DragMode::Move);
    // The first move only establishes the baseline; the image stays put.
    state.on_mouse_moved(&mut layout, 70000, 70000);
    assert_eq!(layout.images[0].x_um, 50000);
    assert_eq!(layout.images[0].y_um, 50000);
    // The second move applies the delta from the baseline.
    state.on_mouse_moved(&mut layout, 75000, 68000);
    assert_eq!(layout.images[0].x_um, 55000);
    assert_eq!(layout.images[0].y_um, 48000);
    assert!(state.on_mouse_released());
    assert_eq!(state.drag_mode, DragMode::Idle);
    assert!(!state.on_mouse_released());
}

#[test]
fn test_drag_resize_via_state_machine() {
    let (mut layout, id) = layout_with_image();
    let mut state = InteractionState::new();
    state.maintain_aspect_ratio = false;
    assert!(state.on_start_resize(&mut layout, &id, ResizeHandle::BottomRight));
    assert_eq!(state.drag_mode, DragMode::Resize(ResizeHandle::BottomRight));
    state.on_mouse_moved(&mut layout, 100000, 100000);
    state.on_mouse_moved(&mut layout, 120000, 110000);
    assert_eq!(layout.images[0].width_um, 120000);
    assert_eq!(layout.images[0].height_um, 60000);
    // Position is unchanged by a bottom-right drag.
    assert_eq!(layout.images[0].x_um, 50000);
    assert_eq!(layout.images[0].y_um, 50000);
}

#[test]
fn test_mouse_move_without_drag_is_ignored() {
    let (mut layout, _id) = layout_with_image();
    let mut state = InteractionState::new();
    state.on_mouse_moved(&mut layout, 1000, 1000);
    assert_eq!(layout.images[0].x_um, 50000);
}

#[test]
fn test_deselect_clears_selection_and_drag() {
    let (mut layout, id) = layout_with_image();
    let mut state = InteractionState::new();
    state.on_select_image(&mut layout, &id);
    state.on_deselect(&mut layout);
    assert_eq!(layout.selected_image_id, None);
    assert_eq!(state.drag_mode, DragMode::Idle);
}

#[test]
fn test_resize_handle_hit_testing() {
    let (mut layout, id) = layout_with_image();
    layout.select_image(&id);
    // At 100% zoom the image corner at (50 mm, 50 mm) sits at
    // 188976 thousandths of a pixel on each axis.
    let corner = 188976;
    let hit = get_resize_handle_at_point(&layout, 1000, corner + 5000, corner - 5000);
    assert_eq!(hit.as_ref().map(|p| p.1), Some(ResizeHandle::TopLeft));
    assert_eq!(hit.unwrap().0, id);
    // Just outside the 8-pixel radius nothing is hit.
    assert!(get_resize_handle_at_point(&layout, 1000, corner + 9000, corner).is_none());
    // Without a selection nothing is hit.
    layout.deselect();
    assert!(get_resize_handle_at_point(&layout, 1000, corner, corner).is_none());
}

#[test]
fn test_handle_priority_corners_before_edges() {
    let (mut layout, id) = layout_with_image();
    assert!(layout.set_image_bounds(&id, 0, 0, 10000, 10000));
    layout.select_image(&id);
    // At 10% zoom the whole 10 mm box spans under four pixels, so the
    // pointer is within the radius of several handles; the top-left
    // corner has priority.
    let hit = get_resize_handle_at_point(&layout, 100, 1500, 500);
    assert_eq!(hit.map(|p| p.1), Some(ResizeHandle::TopLeft));
}
