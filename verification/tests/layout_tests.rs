use print_layout::layout::{Layout, PlacedImage};

fn sample_image(path: &str) -> PlacedImage {
    PlacedImage::new(String::from(path), 1000, 500)
}

#[test]
fn test_new_image_defaults() {
    let img = sample_image("a.png");
    assert_eq!(img.id.len(), 36);
    assert_eq!(img.path, "a.png");
    assert_eq!(img.x_um, 50000);
    assert_eq!(img.y_um, 50000);
    assert_eq!(img.width_um, 100000);
    // 100 mm wide at a 1000x500 source keeps the 2:1 aspect ratio.
    assert_eq!(img.height_um, 50000);
    assert_eq!(img.rotation_mdeg, 0);
    assert_eq!(img.z_index, 0);
    assert!(!img.locked);
    assert!(!img.flip_horizontal);
    assert!(!img.flip_vertical);
    assert_eq!(img.opacity_pm, 1000);
}

#[test]
fn test_new_layout_defaults() {
    let layout = Layout::new();
    assert!(layout.images.is_empty());
    assert_eq!(layout.selected_image_id, None);
    assert_eq!(layout.page.width_um, 210000);
    assert_eq!(layout.page.height_um, 297000);
    assert_eq!(layout.page.margin_top_um, 25400);
    assert_eq!(layout.page.margin_left_um, 25400);
    assert!(!layout.page.borderless);
}

#[test]
fn test_add_image_assigns_dense_z_indices() {
    let mut layout = Layout::new();
    layout.add_image(sample_image("a.png"));
    layout.add_image(sample_image("b.png"));
    layout.add_image(sample_image("c.png"));
    for (i, img) in layout.images.iter().enumerate() {
        assert_eq!(img.z_index, i);
    }
}

#[test]
fn test_remove_image_reindexes() {
    let mut layout = Layout::new();
    layout.add_image(sample_image("a.png"));
    layout.add_image(sample_image("b.png"));
    layout.add_image(sample_image("c.png"));
    let middle = layout.images[1].id.clone();
    let removed = layout.remove_image(&middle);
    assert!(removed.is_some());
    assert_eq!(removed.unwrap().id, middle);
    assert_eq!(layout.images.len(), 2);
    for (i, img) in layout.images.iter().enumerate() {
        assert_eq!(img.z_index, i);
    }
    assert_eq!(layout.images[0].path, "a.png");
    assert_eq!(layout.images[1].path, "c.png");
}

#[test]
fn test_remove_missing_image_changes_nothing() {
    let mut layout = Layout::new();
    layout.add_image(sample_image("a.png"));
    let bogus = String::from("no-such-id");
    assert!(layout.remove_image(&bogus).is_none());
    assert_eq!(layout.images.len(), 1);
}

#[test]
fn test_remove_selected_clears_selection() {
    let mut layout = Layout::new();
    layout.add_image(sample_image("a.png"));
    layout.add_image(sample_image("b.png"));
    let first = layout.images[0].id.clone();
    assert!(layout.select_image(&first));
    assert_eq!(layout.selected_image_id.as_ref(), Some(&first));
    layout.remove_image(&first);
    assert_eq!(layout.selected_image_id, None);
}

#[test]
fn test_remove_other_keeps_selection() {
    let mut layout = Layout::new();
    layout.add_image(sample_image("a.png"));
    layout.add_image(sample_image("b.png"));
    let first = layout.images[0].id.clone();
    let second = layout.images[1].id.clone();
    assert!(layout.select_image(&first));
    layout.remove_image(&second);
    assert_eq!(layout.selected_image_id.as_ref(), Some(&first));
}

#[test]
fn test_find_image_at_point_returns_topmost() {
    let mut layout = Layout::new();
    // Two images covering the same region; the second one paints on top.
    layout.add_image(sample_image("under.png"));
    layout.add_image(sample_image("over.png"));
    let top_id = layout.images[1].id.clone();
    let hit = layout.find_image_at_point(60000, 60000);
    assert!(hit.is_some());
    assert_eq!(hit.unwrap().id, top_id);
    assert!(layout.find_image_at_point(500000, 500000).is_none());
}

#[test]
fn test_contains_point_includes_edges() {
    let img = sample_image("a.png");
    assert!(img.contains_point(50000, 50000));
    assert!(img.contains_point(150000, 100000));
    assert!(!img.contains_point(150001, 100000));
    assert!(!img.contains_point(49999, 50000));
}

#[test]
fn test_bounds() {
    let img = sample_image("a.png");
    assert_eq!(img.bounds(), (50000, 50000, 100000, 50000));
}

#[test]
fn test_effective_dpi() {
    // 1000 px spread over 100 mm is 254 dots per inch.
    let img = sample_image("a.png");
    assert_eq!(img.effective_dpi(), (254, 254));
}

#[test]
fn test_rotate_selected_cw_swaps_dimensions() {
    let mut layout = Layout::new();
    layout.add_image(sample_image("a.png"));
    let id = layout.images[0].id.clone();
    layout.select_image(&id);
    assert!(layout.rotate_selected_cw());
    assert_eq!(layout.images[0].width_um, 50000);
    assert_eq!(layout.images[0].height_um, 100000);
    assert_eq!(layout.images[0].rotation_mdeg, 90000);
}

#[test]
fn test_rotate_cw_four_times_is_identity() {
    let mut img = sample_image("a.png");
    let w = img.width_um;
    let h = img.height_um;
    let r = img.rotation_mdeg;
    for _ in 0..4 {
        img.rotate_cw();
    }
    assert_eq!(img.width_um, w);
    assert_eq!(img.height_um, h);
    assert_eq!(img.rotation_mdeg, r);
}

#[test]
fn test_rotate_ccw() {
    let mut img = sample_image("a.png");
    img.rotate_ccw();
    assert_eq!(img.width_um, 50000);
    assert_eq!(img.height_um, 100000);
    assert_eq!(img.rotation_mdeg, 270000);
    img.rotate_cw();
    assert_eq!(img.rotation_mdeg, 0);
}

#[test]
fn test_rotate_without_selection_does_nothing() {
    let mut layout = Layout::new();
    layout.add_image(sample_image("a.png"));
    assert!(!layout.rotate_selected_cw());
    assert_eq!(layout.images[0].width_um, 100000);
}

#[test]
fn test_flip_selected_toggles() {
    let mut layout = Layout::new();
    layout.add_image(sample_image("a.png"));
    let id = layout.images[0].id.clone();
    layout.select_image(&id);
    assert!(layout.flip_selected_horizontal());
    assert!(layout.images[0].flip_horizontal);
    assert!(layout.flip_selected_horizontal());
    assert!(!layout.images[0].flip_horizontal);
    assert!(layout.flip_selected_vertical());
    assert!(layout.images[0].flip_vertical);
}

#[test]
fn test_set_selected_opacity_clamps() {
    let mut layout = Layout::new();
    layout.add_image(sample_image("a.png"));
    let id = layout.images[0].id.clone();
    layout.select_image(&id);
    assert!(layout.set_selected_opacity_pm(501));
    assert_eq!(layout.images[0].opacity_pm, 501);
    assert!(layout.set_selected_opacity_pm(2000));
    assert_eq!(layout.images[0].opacity_pm, 1000);
}

#[test]
fn test_set_image_position_and_bounds() {
    let mut layout = Layout::new();
    layout.add_image(sample_image("a.png"));
    let id = layout.images[0].id.clone();
    assert!(layout.set_image_position(&id, 10000, 20000));
    assert_eq!(layout.images[0].x_um, 10000);
    assert_eq!(layout.images[0].y_um, 20000);
    assert!(layout.set_image_bounds(&id, 0, 0, 30000, 40000));
    assert_eq!(layout.images[0].bounds(), (0, 0, 30000, 40000));
    let bogus = String::from("no-such-id");
    assert!(!layout.set_image_position(&bogus, 1, 1));
}

#[test]
fn test_get_image_and_selected_image() {
    let mut layout = Layout::new();
    layout.add_image(sample_image("a.png"));
    let id = layout.images[0].id.clone();
    assert!(layout.get_image(&id).is_some());
    assert!(layout.selected_image().is_none());
    layout.select_image(&id);
    assert_eq!(layout.selected_image().unwrap().id, id);
    layout.deselect();
    assert!(layout.selected_image().is_none());
}
