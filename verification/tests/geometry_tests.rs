use print_layout::geometry::{clamp_coord, clamp_zoom, mm_to_px, mm_to_px_print, px_to_mm};

#[test]
fn test_mm_to_px_at_full_zoom() {
    // 100 mm at 100% zoom and the 96 DPI reference:
    // 100 * (96 / 25.4) px = 377.952... px, in thousandths of a pixel.
    assert_eq!(mm_to_px(100000, 1000), 377952);
}

#[test]
fn test_mm_to_px_negative() {
    assert_eq!(mm_to_px(-100000, 1000), -377952);
}

#[test]
fn test_px_to_mm_inverse_ratio() {
    // 96 px back to 25.4 mm, exactly.
    assert_eq!(px_to_mm(96000, 1000), 25400);
}

#[test]
fn test_round_trip_within_tolerance() {
    for &zoom in &[100u32, 250, 1000, 3333, 5000] {
        for &mm in &[1i64, 9, 10000, 99999, 100000, 123456789] {
            let back = px_to_mm(mm_to_px(mm, zoom), zoom);
            assert!(mm - 3 <= back && back <= mm, "mm={} zoom={} back={}", mm, zoom, back);
        }
    }
}

#[test]
fn test_clamp_zoom() {
    assert_eq!(clamp_zoom(50), 100);
    assert_eq!(clamp_zoom(100), 100);
    assert_eq!(clamp_zoom(1000), 1000);
    assert_eq!(clamp_zoom(5000), 5000);
    assert_eq!(clamp_zoom(9000), 5000);
}

#[test]
fn test_clamp_coord() {
    assert_eq!(clamp_coord(0), 0);
    assert_eq!(clamp_coord(-3_000_000_000), -2_000_000_000);
    assert_eq!(clamp_coord(3_000_000_000), 2_000_000_000);
}

#[test]
fn test_print_conversion_rounds_half_up() {
    // One A4 page at 300 DPI: 210 mm -> 2480 dots, 297 mm -> 3508 dots.
    assert_eq!(mm_to_px_print(210000, 300), 2480);
    assert_eq!(mm_to_px_print(297000, 300), 3508);
    // Negative positions clamp to dot zero.
    assert_eq!(mm_to_px_print(-5000, 300), 0);
    assert_eq!(mm_to_px_print(0, 300), 0);
    // 25.4 mm at 300 DPI is exactly 300 dots.
    assert_eq!(mm_to_px_print(25400, 300), 300);
    // Half a dot rounds up: 25.4 mm at 25 DPI is 25 dots, plus half a
    // dot's worth of micrometers rounds to 26.
    assert_eq!(mm_to_px_print(25400, 25), 25);
    assert_eq!(mm_to_px_print(25908, 25), 26);
}
