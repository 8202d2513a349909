use image::GenericImageView;
use print_layout::bitmap::{new_white_canvas, transform_image};
use print_layout::layout::{Layout, PlacedImage};
use print_layout::paper::{Page, PaperSize};
use print_layout::raster::{composite_image, image_target_rect, render_layout_to_image};
use print_layout::transform::{ImageCache, SourceImageCache, TransformKey};

fn rgba_2x1(left: [u8; 4], right: [u8; 4]) -> image::DynamicImage {
    let mut buf = image::RgbaImage::new(2, 1);
    buf.put_pixel(0, 0, image::Rgba(left));
    buf.put_pixel(1, 0, image::Rgba(right));
    image::DynamicImage::ImageRgba8(buf)
}

#[test]
fn test_page_to_pixels_a4_at_300_dpi() {
    let page = Page::new(PaperSize::A4);
    assert_eq!(page.to_pixels(300), (2480, 3508));
}

#[test]
fn test_image_target_rect_at_300_dpi() {
    // A 1000x1000 px image placed at (50, 50) mm sized 100x100 mm lands
    // at dots (591, 591) through (1772, 1772).
    let mut img = PlacedImage::new(String::from("a.png"), 1000, 1000);
    img.width_um = 100000;
    img.height_um = 100000;
    let (x, y, w, h) = image_target_rect(&img, 300);
    assert_eq!((x, y, w, h), (591, 591, 1181, 1181));
    assert_eq!(x + w, 1772);
    assert_eq!(y + h, 1772);
}

#[test]
fn test_render_empty_layout_is_white_page() {
    let layout = Layout::new();
    let img = render_layout_to_image(&layout, 300).unwrap();
    assert_eq!(img.dimensions(), (2480, 3508));
    assert_eq!(img.get_pixel(0, 0), image::Rgba([255, 255, 255, 255]));
    assert_eq!(img.get_pixel(1200, 1700), image::Rgba([255, 255, 255, 255]));
}

#[test]
fn test_render_skips_missing_source() {
    let mut layout = Layout::new();
    layout.add_image(PlacedImage::new(String::from("/no/such/file.png"), 10, 10));
    let img = render_layout_to_image(&layout, 300).unwrap();
    assert_eq!(img.dimensions(), (2480, 3508));
    assert_eq!(img.get_pixel(700, 700), image::Rgba([255, 255, 255, 255]));
}

#[test]
fn test_render_composites_image_at_target_rect() {
    // Write a small red source image to disk, place it on a 20x20 mm
    // custom page, and check the composited region.
    let path = "/tmp/print_layout_raster_test_red.png";
    let red = image::RgbaImage::from_pixel(10, 10, image::Rgba([255, 0, 0, 255]));
    red.save(path).unwrap();

    let mut layout = Layout::new();
    layout.page = Page::new(PaperSize::Custom(20000, 20000));
    let mut placed = PlacedImage::new(String::from(path), 10, 10);
    placed.x_um = 0;
    placed.y_um = 0;
    placed.width_um = 10000;
    placed.height_um = 10000;
    layout.add_image(placed);

    // 20 mm at 254 DPI is 200 dots; the image covers dots 0..100.
    let img = render_layout_to_image(&layout, 254).unwrap();
    assert_eq!(img.dimensions(), (200, 200));
    assert_eq!(img.get_pixel(50, 50), image::Rgba([255, 0, 0, 255]));
    assert_eq!(img.get_pixel(150, 150), image::Rgba([255, 255, 255, 255]));
}

#[test]
fn test_composite_image_paints_target_rectangle() {
    // A fully opaque 2x2 green source placed at (25.4, 0) mm sized
    // 25.4x25.4 mm lands at dots (100, 0) through (200, 100) at 100 DPI.
    let mut canvas = new_white_canvas(300, 300);
    let source = image::DynamicImage::ImageRgba8(image::RgbaImage::from_pixel(
        2,
        2,
        image::Rgba([0, 200, 0, 255]),
    ));
    let mut placed = PlacedImage::new(String::from("unused.png"), 2, 2);
    placed.x_um = 25400;
    placed.y_um = 0;
    placed.width_um = 25400;
    placed.height_um = 25400;
    assert!(composite_image(&mut canvas, &source, &placed, 100));
    assert_eq!(canvas.dimensions(), (300, 300));
    assert_eq!(canvas.get_pixel(150, 50), image::Rgba([0, 200, 0, 255]));
    // Outside the target rectangle the canvas stays white.
    assert_eq!(canvas.get_pixel(50, 50), image::Rgba([255, 255, 255, 255]));
    assert_eq!(canvas.get_pixel(150, 150), image::Rgba([255, 255, 255, 255]));
}

#[test]
fn test_render_paints_in_ascending_z_order() {
    // Two fully opaque images overlap; the later one (higher z-index)
    // must win inside the overlap.
    let red_path = "/tmp/print_layout_raster_test_zorder_red.png";
    let blue_path = "/tmp/print_layout_raster_test_zorder_blue.png";
    image::RgbaImage::from_pixel(8, 8, image::Rgba([255, 0, 0, 255])).save(red_path).unwrap();
    image::RgbaImage::from_pixel(8, 8, image::Rgba([0, 0, 255, 255])).save(blue_path).unwrap();

    let mut layout = Layout::new();
    layout.page = Page::new(PaperSize::Custom(20000, 20000));
    let mut under = PlacedImage::new(String::from(red_path), 8, 8);
    under.x_um = 0;
    under.y_um = 0;
    under.width_um = 10000;
    under.height_um = 10000;
    layout.add_image(under);
    let mut over = PlacedImage::new(String::from(blue_path), 8, 8);
    over.x_um = 5000;
    over.y_um = 5000;
    over.width_um = 10000;
    over.height_um = 10000;
    layout.add_image(over);

    // At 254 DPI: red covers dots 0..100, blue covers 50..150.
    let img = render_layout_to_image(&layout, 254).unwrap();
    assert_eq!(img.get_pixel(25, 25), image::Rgba([255, 0, 0, 255]));
    assert_eq!(img.get_pixel(75, 75), image::Rgba([0, 0, 255, 255]));
    assert_eq!(img.get_pixel(125, 125), image::Rgba([0, 0, 255, 255]));
    assert_eq!(img.get_pixel(175, 175), image::Rgba([255, 255, 255, 255]));
}

#[test]
fn test_transform_image_rotates_quarter_turn() {
    let src = rgba_2x1([1, 2, 3, 255], [9, 8, 7, 255]);
    let out = transform_image(&src, 90000, false, false, 1000);
    // A 2x1 image turned clockwise becomes 1x2 with the left pixel on top.
    assert_eq!(out.dimensions(), (1, 2));
    assert_eq!(out.get_pixel(0, 0), image::Rgba([1, 2, 3, 255]));
    assert_eq!(out.get_pixel(0, 1), image::Rgba([9, 8, 7, 255]));
}

#[test]
fn test_transform_image_half_and_three_quarter_turns() {
    let src = rgba_2x1([1, 2, 3, 255], [9, 8, 7, 255]);
    let half = transform_image(&src, 180000, false, false, 1000);
    assert_eq!(half.dimensions(), (2, 1));
    assert_eq!(half.get_pixel(0, 0), image::Rgba([9, 8, 7, 255]));
    assert_eq!(half.get_pixel(1, 0), image::Rgba([1, 2, 3, 255]));
    let three_quarters = transform_image(&src, 270000, false, false, 1000);
    assert_eq!(three_quarters.dimensions(), (1, 2));
    assert_eq!(three_quarters.get_pixel(0, 0), image::Rgba([9, 8, 7, 255]));
    assert_eq!(three_quarters.get_pixel(0, 1), image::Rgba([1, 2, 3, 255]));
    // An angle away from every bucket applies no rotation.
    let none = transform_image(&src, 45000, false, false, 1000);
    assert_eq!(none.dimensions(), (2, 1));
    assert_eq!(none.get_pixel(0, 0), image::Rgba([1, 2, 3, 255]));
}

#[test]
fn test_transform_image_flips() {
    let src = rgba_2x1([1, 2, 3, 255], [9, 8, 7, 255]);
    let out = transform_image(&src, 0, true, false, 1000);
    assert_eq!(out.dimensions(), (2, 1));
    assert_eq!(out.get_pixel(0, 0), image::Rgba([9, 8, 7, 255]));
    assert_eq!(out.get_pixel(1, 0), image::Rgba([1, 2, 3, 255]));
}

#[test]
fn test_transform_image_scales_alpha() {
    let src = rgba_2x1([10, 20, 30, 200], [1, 1, 1, 255]);
    // Half opacity: each alpha is scaled and truncated, colors untouched.
    let out = transform_image(&src, 0, false, false, 500);
    assert_eq!(out.get_pixel(0, 0), image::Rgba([10, 20, 30, 100]));
    assert_eq!(out.get_pixel(1, 0), image::Rgba([1, 1, 1, 127]));
}

#[test]
fn test_transform_key_ignores_placement() {
    let mut a = PlacedImage::new(String::from("same.png"), 100, 100);
    let mut b = PlacedImage::new(String::from("same.png"), 100, 100);
    a.x_um = 0;
    b.x_um = 99999;
    b.y_um = 12345;
    b.z_index = 7;
    b.width_um = 77777;
    a.opacity_pm = 501;
    b.opacity_pm = 504;
    a.rotation_mdeg = 90500;
    b.rotation_mdeg = 88000;
    let ka = TransformKey::from_placed_image(&a);
    let kb = TransformKey::from_placed_image(&b);
    // Identity, position, size and z-order play no part in the key, and
    // nearby opacities and rotations collapse into the same bucket.
    assert!(ka.matches(&kb));
    assert_eq!(ka.rotation_degrees, 90);
    assert_eq!(ka.opacity_percent, 50);
    let mut c = PlacedImage::new(String::from("same.png"), 100, 100);
    c.flip_horizontal = true;
    let kc = TransformKey::from_placed_image(&c);
    assert!(!ka.matches(&kc));
}

#[test]
fn test_caches_miss_on_unreadable_source() {
    let mut source_cache = SourceImageCache::new();
    let mut image_cache = ImageCache::new();
    let missing = PlacedImage::new(String::from("/no/such/file.png"), 10, 10);
    assert!(source_cache.get_or_load(&missing.path).is_none());
    assert!(image_cache.get_transformed_handle(&missing, &mut source_cache).is_none());
    source_cache.remove(&missing.path);
    source_cache.clear();
    image_cache.clear();
}

#[test]
fn test_transform_cache_hits_cached_source_on_new_key() {
    // Once the source is cached, a new transform key must still yield a
    // rendering: no disk is involved for a cached path.
    let path = "/tmp/print_layout_raster_test_cached_source.png";
    image::RgbaImage::from_pixel(3, 3, image::Rgba([9, 9, 9, 255])).save(path).unwrap();

    let mut source_cache = SourceImageCache::new();
    let mut image_cache = ImageCache::new();
    let plain = PlacedImage::new(String::from(path), 3, 3);
    assert!(image_cache.get_transformed_handle(&plain, &mut source_cache).is_some());
    let mut flipped = PlacedImage::new(String::from(path), 3, 3);
    flipped.flip_horizontal = true;
    assert!(image_cache.get_transformed_handle(&flipped, &mut source_cache).is_some());
}

#[test]
fn test_transform_cache_serves_equal_keys() {
    // A real source on disk: the transform cache must yield the same
    // rendering for two placed images with equal derived keys.
    let path = "/tmp/print_layout_raster_test_cache.png";
    let src = image::RgbaImage::from_pixel(4, 2, image::Rgba([0, 255, 0, 255]));
    src.save(path).unwrap();

    let mut source_cache = SourceImageCache::new();
    let mut image_cache = ImageCache::new();
    let mut a = PlacedImage::new(String::from(path), 4, 2);
    a.rotation_mdeg = 90000;
    let mut b = PlacedImage::new(String::from(path), 4, 2);
    b.rotation_mdeg = 93000;
    b.x_um = 1;
    b.z_index = 3;
    let ra = image_cache.get_transformed_handle(&a, &mut source_cache).unwrap();
    let rb = image_cache.get_transformed_handle(&b, &mut source_cache).unwrap();
    assert_eq!(ra.dimensions(), (2, 4));
    assert_eq!(rb.dimensions(), (2, 4));
    assert_eq!(ra.get_pixel(0, 0), rb.get_pixel(0, 0));
}
