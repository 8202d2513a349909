use print_layout::layout::Layout;
use print_layout::paper::{ColorMode, Orientation, Page, PaperSize, PaperType, PrintQuality};

#[test]
fn test_paper_dimensions() {
    assert_eq!(PaperSize::A4.to_dimensions(), (210000, 297000));
    assert_eq!(PaperSize::A0.to_dimensions(), (841000, 1189000));
    assert_eq!(PaperSize::Letter.to_dimensions(), (215900, 279400));
    assert_eq!(PaperSize::Photo4x6.to_dimensions(), (101600, 152400));
    assert_eq!(PaperSize::Panorama.to_dimensions(), (210000, 594000));
    assert_eq!(PaperSize::Custom(123000, 456000).to_dimensions(), (123000, 456000));
}

#[test]
fn test_paper_type_as_str() {
    assert_eq!(PaperType::Plain.as_str(), "Plain Paper");
    assert_eq!(PaperType::SuperHighGloss.as_str(), "Super High Gloss");
    assert_eq!(PaperType::Glossy.as_str(), "Glossy");
    assert_eq!(PaperType::SemiGloss.as_str(), "Semi-Gloss");
    assert_eq!(PaperType::Matte.as_str(), "Matte");
    assert_eq!(PaperType::FineArt.as_str(), "Fine Art");
}

#[test]
fn test_defaults() {
    assert_eq!(PaperSize::default(), PaperSize::A4);
    assert_eq!(PaperType::default(), PaperType::Plain);
    assert_eq!(PrintQuality::default(), PrintQuality::Standard);
    assert_eq!(ColorMode::default(), ColorMode::UseICCProfile);
    assert_eq!(Orientation::default(), Orientation::Portrait);
}

#[test]
fn test_page_new_defaults() {
    let page = Page::new(PaperSize::A4);
    assert_eq!(page.width_um, 210000);
    assert_eq!(page.height_um, 297000);
    assert_eq!(page.margin_top_um, 25400);
    assert_eq!(page.margin_bottom_um, 25400);
    assert_eq!(page.margin_left_um, 25400);
    assert_eq!(page.margin_right_um, 25400);
    assert_eq!(page.paper_type, PaperType::Plain);
    assert_eq!(page.orientation, Orientation::Portrait);
    assert!(!page.borderless);
}

#[test]
fn test_printable_area() {
    let page = Page::new(PaperSize::A4);
    assert_eq!(page.printable_area(), (25400, 25400, 210000 - 50800, 297000 - 50800));
}

#[test]
fn test_printable_area_may_be_degenerate() {
    let mut page = Page::new(PaperSize::A10);
    // Margins larger than half the page leave a non-positive area.
    page.margin_left_um = 20000;
    page.margin_right_um = 20000;
    let (_, _, w, _) = page.printable_area();
    assert!(w < 0);
}

#[test]
fn test_toggle_orientation_swaps_dimensions() {
    let mut layout = Layout::new();
    layout.add_image(print_layout::layout::PlacedImage::new(String::from("a.png"), 100, 100));
    let before = layout.images[0].clone();
    assert_eq!(layout.page.width_um, 210000);
    assert_eq!(layout.page.height_um, 297000);
    layout.page.toggle_orientation();
    assert_eq!(layout.page.width_um, 297000);
    assert_eq!(layout.page.height_um, 210000);
    assert_eq!(layout.page.orientation, Orientation::Landscape);
    // No placed image changes when the page flips.
    assert_eq!(layout.images[0].x_um, before.x_um);
    assert_eq!(layout.images[0].y_um, before.y_um);
    assert_eq!(layout.images[0].width_um, before.width_um);
    assert_eq!(layout.images[0].height_um, before.height_um);
    assert_eq!(layout.images[0].rotation_mdeg, before.rotation_mdeg);
    layout.page.toggle_orientation();
    assert_eq!(layout.page.width_um, 210000);
    assert_eq!(layout.page.height_um, 297000);
    assert_eq!(layout.page.orientation, Orientation::Portrait);
}

#[test]
fn test_margin_setters_validate() {
    let mut page = Page::new(PaperSize::A4);
    assert!(page.set_margin_top(10000));
    assert_eq!(page.margin_top_um, 10000);
    // Half the page height or more is rejected.
    assert!(!page.set_margin_top(148500));
    assert_eq!(page.margin_top_um, 10000);
    assert!(!page.set_margin_left(-1));
    assert!(page.set_margin_left(0));
    assert_eq!(page.margin_left_um, 0);
    assert!(page.set_margin_bottom(5000));
    assert!(page.set_margin_right(7000));
    assert_eq!(page.margin_bottom_um, 5000);
    assert_eq!(page.margin_right_um, 7000);
}

#[test]
fn test_borderless_toggles_margins() {
    let mut page = Page::new(PaperSize::A4);
    page.set_borderless(true);
    assert!(page.borderless);
    assert_eq!(page.margin_top_um, 0);
    assert_eq!(page.margin_bottom_um, 0);
    assert_eq!(page.margin_left_um, 0);
    assert_eq!(page.margin_right_um, 0);
    page.set_borderless(false);
    assert!(!page.borderless);
    assert_eq!(page.margin_top_um, 25400);
    assert_eq!(page.margin_right_um, 25400);
}

#[test]
fn test_option_labels() {
    assert_eq!(PrintQuality::Highest.label(), "Highest");
    assert_eq!(PrintQuality::Draft.label(), "Draft");
    assert_eq!(ColorMode::UseICCProfile.label(), "Use ICC Profile");
    assert_eq!(ColorMode::BlackAndWhite.label(), "Black and White");
    assert_eq!(Orientation::Portrait.label(), "Portrait");
    assert_eq!(Orientation::Landscape.label(), "Landscape");
}

#[test]
fn test_paper_size_labels() {
    assert_eq!(PaperSize::A4.label(), "A4");
    assert_eq!(PaperSize::Letter.label(), "Letter (8.5x11 in)");
    assert_eq!(PaperSize::Custom(215900, 101600).label(), "Custom (215.9x101.6mm)");
    assert_eq!(PaperSize::Custom(210000, 297000).label(), "Custom (210x297mm)");
    assert_eq!(PaperSize::Custom(100123, 55010).label(), "Custom (100.123x55.01mm)");
}
