//! Paper sizes, print options, and the page configuration.

use vstd::prelude::*;
use crate::geometry::{mm_to_px_print, mm_to_px_print_spec, MAX_COORD_UM};
use crate::text::{dec_spec, digit_char, u32_to_string};

verus! {

/// A micrometer length rendered as millimeters: the whole part in
/// decimal, then up to three fraction digits with trailing zeros
/// dropped, or none when the length is whole.
pub open spec fn mm_label_spec(um: int) -> Seq<char> {
    let whole = dec_spec(um / 1000);
    let frac = um % 1000;
    let d1 = digit_char(frac / 100);
    let d2 = digit_char((frac / 10) % 10);
    let d3 = digit_char(frac % 10);
    if frac == 0 {
        whole
    } else if frac % 10 != 0 {
        whole + "."@ + seq![d1, d2, d3]
    } else if (frac / 10) % 10 != 0 {
        whole + "."@ + seq![d1, d2]
    } else {
        whole + "."@ + seq![d1]
    }
}

/// Render a micrometer length as millimeters.
fn mm_label(um: i64) -> (r: String)
    requires
        0 <= um <= MAX_COORD_UM,
    ensures
        r@ == mm_label_spec(um as int),
{
    let mut s = u32_to_string((um / 1000) as u32);
    let frac: i64 = um % 1000;
    if frac != 0 {
        let digits = "0123456789";
        proof {
            reveal_strlit("0123456789");
        }
        s.append(".");
        let d1: usize = (frac / 100) as usize;
        let d2: usize = ((frac / 10) % 10) as usize;
        let d3: usize = (frac % 10) as usize;
        if frac % 10 != 0 {
            s.append(digits.substring_char(d1, d1 + 1));
            s.append(digits.substring_char(d2, d2 + 1));
            s.append(digits.substring_char(d3, d3 + 1));
        } else if (frac / 10) % 10 != 0 {
            s.append(digits.substring_char(d1, d1 + 1));
            s.append(digits.substring_char(d2, d2 + 1));
        } else {
            s.append(digits.substring_char(d1, d1 + 1));
        }
    }
    proof {
        assert(s@ =~= mm_label_spec(um as int));
    }
    s
}

/// Default page margin: one inch, in micrometers.
pub const DEFAULT_MARGIN_UM: i64 = 25400;

/// A paper size with physical dimensions in millimeters.
/// `Custom` carries width and height in micrometers.
#[derive(Debug, Clone, Copy, PartialEq, Eq, Structural)]
pub enum PaperSize {
    A0,
    A1,
    A2,
    A3,
    A4,
    A5,
    A6,
    A7,
    A8,
    A9,
    A10,
    B0,
    B1,
    B2,
    B3,
    B4,
    B5,
    B6,
    B7,
    B8,
    B9,
    B10,
    Letter,
    Legal,
    Tabloid,
    Ledger,
    Photo3_5x5,
    Photo4x6,
    Photo5x5,
    Photo5x7,
    Photo7x10,
    Photo8x10,
    Photo10x12,
    Photo11x17,
    Photo12x12,
    Photo13x19,
    Panorama,
    CustomLarge,
    Custom(i64, i64),
}

/// The physical dimensions of a paper size, in micrometers (width, height).
pub open spec fn paper_dims_spec(ps: PaperSize) -> (i64, i64) {
    match ps {
        PaperSize::A0 => (841000, 1189000),
        PaperSize::A1 => (594000, 841000),
        PaperSize::A2 => (420000, 594000),
        PaperSize::A3 => (297000, 420000),
        PaperSize::A4 => (210000, 297000),
        PaperSize::A5 => (148000, 210000),
        PaperSize::A6 => (105000, 148000),
        PaperSize::A7 => (74000, 105000),
        PaperSize::A8 => (52000, 74000),
        PaperSize::A9 => (37000, 52000),
        PaperSize::A10 => (26000, 37000),
        PaperSize::B0 => (1000000, 1414000),
        PaperSize::B1 => (707000, 1000000),
        PaperSize::B2 => (500000, 707000),
        PaperSize::B3 => (353000, 500000),
        PaperSize::B4 => (250000, 353000),
        PaperSize::B5 => (176000, 250000),
        PaperSize::B6 => (125000, 176000),
        PaperSize::B7 => (88000, 125000),
        PaperSize::B8 => (62000, 88000),
        PaperSize::B9 => (44000, 62000),
        PaperSize::B10 => (31000, 44000),
        PaperSize::Letter => (215900, 279400),
        PaperSize::Legal => (215900, 355600),
        PaperSize::Tabloid => (279400, 431800),
        PaperSize::Ledger => (431800, 279400),
        PaperSize::Photo3_5x5 => (88900, 127000),
        PaperSize::Photo4x6 => (101600, 152400),
        PaperSize::Photo5x5 => (127000, 127000),
        PaperSize::Photo5x7 => (127000, 177800),
        PaperSize::Photo7x10 => (177800, 254000),
        PaperSize::Photo8x10 => (203200, 254000),
        PaperSize::Photo10x12 => (254000, 304800),
        PaperSize::Photo11x17 => (279400, 431800),
        PaperSize::Photo12x12 => (304800, 304800),
        PaperSize::Photo13x19 => (330200, 482600),
        PaperSize::Panorama => (210000, 594000),
        PaperSize::CustomLarge => (330200, 990600),
        PaperSize::Custom(w, h) => (w, h),
    }
}

impl PaperSize {
    /// A paper size is well formed when its dimensions are positive and
    /// within the supported coordinate range; only `Custom` can stray.
    pub open spec fn wf(self) -> bool {
        0 < paper_dims_spec(self).0 <= MAX_COORD_UM
            && 0 < paper_dims_spec(self).1 <= MAX_COORD_UM
    }

    /// The physical dimensions in micrometers (width, height).
    pub fn to_dimensions(&self) -> (r: (i64, i64))
        ensures
            r == paper_dims_spec(*self),
    {
        match self {
            PaperSize::A0 => (841000, 1189000),
            PaperSize::A1 => (594000, 841000),
            PaperSize::A2 => (420000, 594000),
            PaperSize::A3 => (297000, 420000),
            PaperSize::A4 => (210000, 297000),
            PaperSize::A5 => (148000, 210000),
            PaperSize::A6 => (105000, 148000),
            PaperSize::A7 => (74000, 105000),
            PaperSize::A8 => (52000, 74000),
            PaperSize::A9 => (37000, 52000),
            PaperSize::A10 => (26000, 37000),
            PaperSize::B0 => (1000000, 1414000),
            PaperSize::B1 => (707000, 1000000),
            PaperSize::B2 => (500000, 707000),
            PaperSize::B3 => (353000, 500000),
            PaperSize::B4 => (250000, 353000),
            PaperSize::B5 => (176000, 250000),
            PaperSize::B6 => (125000, 176000),
            PaperSize::B7 => (88000, 125000),
            PaperSize::B8 => (62000, 88000),
            PaperSize::B9 => (44000, 62000),
            PaperSize::B10 => (31000, 44000),
            PaperSize::Letter => (215900, 279400),
            PaperSize::Legal => (215900, 355600),
            PaperSize::Tabloid => (279400, 431800),
            PaperSize::Ledger => (431800, 279400),
            PaperSize::Photo3_5x5 => (88900, 127000),
            PaperSize::Photo4x6 => (101600, 152400),
            PaperSize::Photo5x5 => (127000, 127000),
            PaperSize::Photo5x7 => (127000, 177800),
            PaperSize::Photo7x10 => (177800, 254000),
            PaperSize::Photo8x10 => (203200, 254000),
            PaperSize::Photo10x12 => (254000, 304800),
            PaperSize::Photo11x17 => (279400, 431800),
            PaperSize::Photo12x12 => (304800, 304800),
            PaperSize::Photo13x19 => (330200, 482600),
            PaperSize::Panorama => (210000, 594000),
            PaperSize::CustomLarge => (330200, 990600),
            PaperSize::Custom(w, h) => (*w, *h),
        }
    }
}

/// The display label of a paper size.
pub open spec fn paper_size_label_spec(ps: PaperSize) -> Seq<char> {
    match ps {
        PaperSize::A0 => "A0"@,
        PaperSize::A1 => "A1"@,
        PaperSize::A2 => "A2"@,
        PaperSize::A3 => "A3"@,
        PaperSize::A4 => "A4"@,
        PaperSize::A5 => "A5"@,
        PaperSize::A6 => "A6"@,
        PaperSize::A7 => "A7"@,
        PaperSize::A8 => "A8"@,
        PaperSize::A9 => "A9"@,
        PaperSize::A10 => "A10"@,
        PaperSize::B0 => "B0"@,
        PaperSize::B1 => "B1"@,
        PaperSize::B2 => "B2"@,
        PaperSize::B3 => "B3"@,
        PaperSize::B4 => "B4"@,
        PaperSize::B5 => "B5"@,
        PaperSize::B6 => "B6"@,
        PaperSize::B7 => "B7"@,
        PaperSize::B8 => "B8"@,
        PaperSize::B9 => "B9"@,
        PaperSize::B10 => "B10"@,
        PaperSize::Letter => "Letter (8.5x11 in)"@,
        PaperSize::Legal => "Legal (8.5x14 in)"@,
        PaperSize::Tabloid => "Tabloid (11x17 in)"@,
        PaperSize::Ledger => "Ledger (17x11 in)"@,
        PaperSize::Photo3_5x5 => "3.5x5 in"@,
        PaperSize::Photo4x6 => "4x6 in"@,
        PaperSize::Photo5x5 => "5x5 in Square"@,
        PaperSize::Photo5x7 => "5x7 in"@,
        PaperSize::Photo7x10 => "7x10 in"@,
        PaperSize::Photo8x10 => "8x10 in"@,
        PaperSize::Photo10x12 => "10x12 in"@,
        PaperSize::Photo11x17 => "11x17 in Ledger"@,
        PaperSize::Photo12x12 => "12x12 in Square"@,
        PaperSize::Photo13x19 => "13x19 in (A3+)"@,
        PaperSize::Panorama => "210x594mm Panorama"@,
        PaperSize::CustomLarge => "Custom (up to 13x39 in)"@,
        PaperSize::Custom(w, h) => "Custom ("@ + mm_label_spec(w as int) + "x"@ + mm_label_spec(
            h as int,
        ) + "mm)"@,
    }
}

impl PaperSize {
    /// The display label of this paper size; a custom size shows its
    /// millimeter dimensions.
    pub fn label(&self) -> (r: String)
        requires
            self.wf(),
        ensures
            r@ == paper_size_label_spec(*self),
    {
        match self {
            PaperSize::A0 => String::from_str("A0"),
            PaperSize::A1 => String::from_str("A1"),
            PaperSize::A2 => String::from_str("A2"),
            PaperSize::A3 => String::from_str("A3"),
            PaperSize::A4 => String::from_str("A4"),
            PaperSize::A5 => String::from_str("A5"),
            PaperSize::A6 => String::from_str("A6"),
            PaperSize::A7 => String::from_str("A7"),
            PaperSize::A8 => String::from_str("A8"),
            PaperSize::A9 => String::from_str("A9"),
            PaperSize::A10 => String::from_str("A10"),
            PaperSize::B0 => String::from_str("B0"),
            PaperSize::B1 => String::from_str("B1"),
            PaperSize::B2 => String::from_str("B2"),
            PaperSize::B3 => String::from_str("B3"),
            PaperSize::B4 => String::from_str("B4"),
            PaperSize::B5 => String::from_str("B5"),
            PaperSize::B6 => String::from_str("B6"),
            PaperSize::B7 => String::from_str("B7"),
            PaperSize::B8 => String::from_str("B8"),
            PaperSize::B9 => String::from_str("B9"),
            PaperSize::B10 => String::from_str("B10"),
            PaperSize::Letter => String::from_str("Letter (8.5x11 in)"),
            PaperSize::Legal => String::from_str("Legal (8.5x14 in)"),
            PaperSize::Tabloid => String::from_str("Tabloid (11x17 in)"),
            PaperSize::Ledger => String::from_str("Ledger (17x11 in)"),
            PaperSize::Photo3_5x5 => String::from_str("3.5x5 in"),
            PaperSize::Photo4x6 => String::from_str("4x6 in"),
            PaperSize::Photo5x5 => String::from_str("5x5 in Square"),
            PaperSize::Photo5x7 => String::from_str("5x7 in"),
            PaperSize::Photo7x10 => String::from_str("7x10 in"),
            PaperSize::Photo8x10 => String::from_str("8x10 in"),
            PaperSize::Photo10x12 => String::from_str("10x12 in"),
            PaperSize::Photo11x17 => String::from_str("11x17 in Ledger"),
            PaperSize::Photo12x12 => String::from_str("12x12 in Square"),
            PaperSize::Photo13x19 => String::from_str("13x19 in (A3+)"),
            PaperSize::Panorama => String::from_str("210x594mm Panorama"),
            PaperSize::CustomLarge => String::from_str("Custom (up to 13x39 in)"),
            PaperSize::Custom(w, h) => {
                let mut s = String::from_str("Custom (");
                let wl = mm_label(*w);
                s.append(wl.as_str());
                s.append("x");
                let hl = mm_label(*h);
                s.append(hl.as_str());
                s.append("mm)");
                proof {
                    assert(s@ =~= paper_size_label_spec(*self));
                }
                s
            },
        }
    }
}

impl Default for PaperSize {
    /// A4 is the default paper size.
    fn default() -> (r: Self)
        ensures
            r == PaperSize::A4,
    {
        PaperSize::A4
    }
}

/// Paper material for printing.
#[derive(Debug, Clone, Copy, PartialEq, Eq, Structural)]
pub enum PaperType {
    Plain,
    SuperHighGloss,
    Glossy,
    SemiGloss,
    Matte,
    FineArt,
}

/// The short human-readable name of a paper type.
pub open spec fn paper_type_label_spec(pt: PaperType) -> Seq<char> {
    match pt {
        PaperType::Plain => "Plain Paper"@,
        PaperType::SuperHighGloss => "Super High Gloss"@,
        PaperType::Glossy => "Glossy"@,
        PaperType::SemiGloss => "Semi-Gloss"@,
        PaperType::Matte => "Matte"@,
        PaperType::FineArt => "Fine Art"@,
    }
}

impl PaperType {
    /// The short human-readable name of this paper type.
    pub fn as_str(&self) -> (r: &str)
        ensures
            r@ == paper_type_label_spec(*self),
    {
        match self {
            PaperType::Plain => "Plain Paper",
            PaperType::SuperHighGloss => "Super High Gloss",
            PaperType::Glossy => "Glossy",
            PaperType::SemiGloss => "Semi-Gloss",
            PaperType::Matte => "Matte",
            PaperType::FineArt => "Fine Art",
        }
    }
}

impl Default for PaperType {
    /// Plain paper is the default material.
    fn default() -> (r: Self)
        ensures
            r == PaperType::Plain,
    {
        PaperType::Plain
    }
}

/// Print quality setting.
#[derive(Debug, Clone, Copy, PartialEq, Eq, Structural)]
pub enum PrintQuality {
    Highest,
    High,
    Standard,
    Draft,
}

/// The display label of a print quality.
pub open spec fn print_quality_label_spec(q: PrintQuality) -> Seq<char> {
    match q {
        PrintQuality::Highest => "Highest"@,
        PrintQuality::High => "High"@,
        PrintQuality::Standard => "Standard"@,
        PrintQuality::Draft => "Draft"@,
    }
}

impl PrintQuality {
    /// The display label of this quality setting.
    pub fn label(&self) -> (r: &str)
        ensures
            r@ == print_quality_label_spec(*self),
    {
        match self {
            PrintQuality::Highest => "Highest",
            PrintQuality::High => "High",
            PrintQuality::Standard => "Standard",
            PrintQuality::Draft => "Draft",
        }
    }
}

impl Default for PrintQuality {
    /// Standard quality is the default.
    fn default() -> (r: Self)
        ensures
            r == PrintQuality::Standard,
    {
        PrintQuality::Standard
    }
}

/// Color handling mode for printing.
#[derive(Debug, Clone, Copy, PartialEq, Eq, Structural)]
pub enum ColorMode {
    UseICCProfile,
    DriverMatching,
    NoColorCorrection,
    BlackAndWhite,
}

/// The display label of a color mode.
pub open spec fn color_mode_label_spec(m: ColorMode) -> Seq<char> {
    match m {
        ColorMode::UseICCProfile => "Use ICC Profile"@,
        ColorMode::DriverMatching => "Driver Matching"@,
        ColorMode::NoColorCorrection => "No Color Correction"@,
        ColorMode::BlackAndWhite => "Black and White"@,
    }
}

impl ColorMode {
    /// The display label of this color mode.
    pub fn label(&self) -> (r: &str)
        ensures
            r@ == color_mode_label_spec(*self),
    {
        match self {
            ColorMode::UseICCProfile => "Use ICC Profile",
            ColorMode::DriverMatching => "Driver Matching",
            ColorMode::NoColorCorrection => "No Color Correction",
            ColorMode::BlackAndWhite => "Black and White",
        }
    }
}

impl Default for ColorMode {
    /// Color-managed output through the ICC profile is the default.
    fn default() -> (r: Self)
        ensures
            r == ColorMode::UseICCProfile,
    {
        ColorMode::UseICCProfile
    }
}

/// Page orientation. The physical width/height of the page are the source
/// of truth; this flag only records which way they were last swapped.
#[derive(Debug, Clone, Copy, PartialEq, Eq, Structural)]
pub enum Orientation {
    Portrait,
    Landscape,
}

/// The display label of an orientation.
pub open spec fn orientation_label_spec(o: Orientation) -> Seq<char> {
    match o {
        Orientation::Portrait => "Portrait"@,
        Orientation::Landscape => "Landscape"@,
    }
}

impl Orientation {
    /// The display label of this orientation.
    pub fn label(&self) -> (r: &str)
        ensures
            r@ == orientation_label_spec(*self),
    {
        match self {
            Orientation::Portrait => "Portrait",
            Orientation::Landscape => "Landscape",
        }
    }
}

impl Default for Orientation {
    /// Portrait is the default orientation.
    fn default() -> (r: Self)
        ensures
            r == Orientation::Portrait,
    {
        Orientation::Portrait
    }
}

/// The page configuration: physical size, margins, and print options.
/// All lengths are in micrometers.
#[derive(Debug, Clone, PartialEq, Eq, Structural)]
pub struct Page {
    pub width_um: i64,
    pub height_um: i64,
    pub margin_top_um: i64,
    pub margin_bottom_um: i64,
    pub margin_left_um: i64,
    pub margin_right_um: i64,
    pub paper_size: PaperSize,
    pub paper_type: PaperType,
    pub print_quality: PrintQuality,
    pub color_mode: ColorMode,
    pub orientation: Orientation,
    pub borderless: bool,
}

impl Page {
    /// Dimensions are positive and margins nonnegative, all within the
    /// supported coordinate range. The printable area may still be
    /// degenerate (non-positive) when margins exceed half the page.
    pub open spec fn wf(self) -> bool {
        &&& 0 < self.width_um <= MAX_COORD_UM
        &&& 0 < self.height_um <= MAX_COORD_UM
        &&& 0 <= self.margin_top_um <= MAX_COORD_UM
        &&& 0 <= self.margin_bottom_um <= MAX_COORD_UM
        &&& 0 <= self.margin_left_um <= MAX_COORD_UM
        &&& 0 <= self.margin_right_um <= MAX_COORD_UM
    }

    /// A new page of the given paper size, with one-inch margins and
    /// default print options.
    pub fn new(paper_size: PaperSize) -> (r: Self)
        requires
            paper_size.wf(),
        ensures
            r.wf(),
            r.width_um == paper_dims_spec(paper_size).0,
            r.height_um == paper_dims_spec(paper_size).1,
            r.margin_top_um == DEFAULT_MARGIN_UM,
            r.margin_bottom_um == DEFAULT_MARGIN_UM,
            r.margin_left_um == DEFAULT_MARGIN_UM,
            r.margin_right_um == DEFAULT_MARGIN_UM,
            r.paper_size == paper_size,
            r.paper_type == PaperType::Plain,
            r.print_quality == PrintQuality::Standard,
            r.color_mode == ColorMode::UseICCProfile,
            r.orientation == Orientation::Portrait,
            !r.borderless,
    {
        let (width_um, height_um) = paper_size.to_dimensions();
        Page {
            width_um,
            height_um,
            margin_top_um: DEFAULT_MARGIN_UM,
            margin_bottom_um: DEFAULT_MARGIN_UM,
            margin_left_um: DEFAULT_MARGIN_UM,
            margin_right_um: DEFAULT_MARGIN_UM,
            paper_size,
            paper_type: PaperType::Plain,
            print_quality: PrintQuality::Standard,
            color_mode: ColorMode::UseICCProfile,
            orientation: Orientation::Portrait,
            borderless: false,
        }
    }

    /// Page dimensions in whole pixels at the given print DPI.
    pub fn to_pixels(&self, dpi: u32) -> (r: (u32, u32))
        requires
            self.wf(),
            0 < dpi <= 6000,
        ensures
            r.0 == mm_to_px_print_spec(self.width_um as int, dpi as int),
            r.1 == mm_to_px_print_spec(self.height_um as int, dpi as int),
    {
        let width_px = mm_to_px_print(self.width_um, dpi);
        let height_px = mm_to_px_print(self.height_um, dpi);
        (width_px, height_px)
    }

    /// The printable area, excluding margins, in micrometers:
    /// (x, y, width, height). The width or height is non-positive when
    /// the margins exceed the page; consumers must tolerate that.
    pub fn printable_area(&self) -> (r: (i64, i64, i64, i64))
        requires
            self.wf(),
        ensures
            r.0 == self.margin_left_um,
            r.1 == self.margin_top_um,
            r.2 == self.width_um - self.margin_left_um - self.margin_right_um,
            r.3 == self.height_um - self.margin_top_um - self.margin_bottom_um,
    {
        let x: i64 = self.margin_left_um;
        let y: i64 = self.margin_top_um;
        let width: i64 = self.width_um - self.margin_left_um - self.margin_right_um;
        let height: i64 = self.height_um - self.margin_top_um - self.margin_bottom_um;
        (x, y, width, height)
    }

    /// Swap the physical width and height and flip the orientation flag.
    /// Nothing else on the page changes.
    pub fn toggle_orientation(&mut self)
        ensures
            final(self).width_um == old(self).height_um,
            final(self).height_um == old(self).width_um,
            old(self).orientation == Orientation::Portrait
                ==> final(self).orientation == Orientation::Landscape,
            old(self).orientation == Orientation::Landscape
                ==> final(self).orientation == Orientation::Portrait,
            final(self).margin_top_um == old(self).margin_top_um,
            final(self).margin_bottom_um == old(self).margin_bottom_um,
            final(self).margin_left_um == old(self).margin_left_um,
            final(self).margin_right_um == old(self).margin_right_um,
            final(self).paper_size == old(self).paper_size,
            final(self).paper_type == old(self).paper_type,
            final(self).print_quality == old(self).print_quality,
            final(self).color_mode == old(self).color_mode,
            final(self).borderless == old(self).borderless,
    {
        let w: i64 = self.width_um;
        self.width_um = self.height_um;
        self.height_um = w;
        self.orientation = match self.orientation {
            Orientation::Portrait => Orientation::Landscape,
            Orientation::Landscape => Orientation::Portrait,
        };
    }

    /// Set the top margin if it is nonnegative and under half the page
    /// height; report whether it was applied.
    pub fn set_margin_top(&mut self, margin_um: i64) -> (applied: bool)
        requires
            old(self).wf(),
        ensures
            applied == (0 <= margin_um && 2 * margin_um < old(self).height_um),
            applied ==> *final(self) == (Page { margin_top_um: margin_um, ..*old(self) }),
            !applied ==> *final(self) == *old(self),
            final(self).wf(),
    {
        if 0 <= margin_um && margin_um < self.height_um - margin_um {
            self.margin_top_um = margin_um;
            true
        } else {
            false
        }
    }

    /// Set the bottom margin if it is nonnegative and under half the page
    /// height; report whether it was applied.
    pub fn set_margin_bottom(&mut self, margin_um: i64) -> (applied: bool)
        requires
            old(self).wf(),
        ensures
            applied == (0 <= margin_um && 2 * margin_um < old(self).height_um),
            applied ==> *final(self) == (Page { margin_bottom_um: margin_um, ..*old(self) }),
            !applied ==> *final(self) == *old(self),
            final(self).wf(),
    {
        if 0 <= margin_um && margin_um < self.height_um - margin_um {
            self.margin_bottom_um = margin_um;
            true
        } else {
            false
        }
    }

    /// Set the left margin if it is nonnegative and under half the page
    /// width; report whether it was applied.
    pub fn set_margin_left(&mut self, margin_um: i64) -> (applied: bool)
        requires
            old(self).wf(),
        ensures
            applied == (0 <= margin_um && 2 * margin_um < old(self).width_um),
            applied ==> *final(self) == (Page { margin_left_um: margin_um, ..*old(self) }),
            !applied ==> *final(self) == *old(self),
            final(self).wf(),
    {
        if 0 <= margin_um && margin_um < self.width_um - margin_um {
            self.margin_left_um = margin_um;
            true
        } else {
            false
        }
    }

    /// Set the right margin if it is nonnegative and under half the page
    /// width; report whether it was applied.
    pub fn set_margin_right(&mut self, margin_um: i64) -> (applied: bool)
        requires
            old(self).wf(),
        ensures
            applied == (0 <= margin_um && 2 * margin_um < old(self).width_um),
            applied ==> *final(self) == (Page { margin_right_um: margin_um, ..*old(self) }),
            !applied ==> *final(self) == *old(self),
            final(self).wf(),
    {
        if 0 <= margin_um && margin_um < self.width_um - margin_um {
            self.margin_right_um = margin_um;
            true
        } else {
            false
        }
    }

    /// Turn borderless printing on or off. Turning it on zeroes every
    /// margin; turning it off restores the one-inch defaults.
    pub fn set_borderless(&mut self, enabled: bool)
        ensures
            final(self).borderless == enabled,
            final(self).margin_top_um == if enabled { 0int } else { DEFAULT_MARGIN_UM as int },
            final(self).margin_bottom_um == final(self).margin_top_um,
            final(self).margin_left_um == final(self).margin_top_um,
            final(self).margin_right_um == final(self).margin_top_um,
            final(self).width_um == old(self).width_um,
            final(self).height_um == old(self).height_um,
            final(self).paper_size == old(self).paper_size,
            final(self).paper_type == old(self).paper_type,
            final(self).print_quality == old(self).print_quality,
            final(self).color_mode == old(self).color_mode,
            final(self).orientation == old(self).orientation,
            old(self).wf() ==> final(self).wf(),
    {
        self.borderless = enabled;
        let m: i64 = if enabled { 0 } else { DEFAULT_MARGIN_UM };
        self.margin_top_um = m;
        self.margin_bottom_um = m;
        self.margin_left_um = m;
        self.margin_right_um = m;
    }
}

impl Default for Page {
    /// A default page: A4 with one-inch margins.
    fn default() -> (r: Self)
        ensures
            r.wf(),
            r.paper_size == PaperSize::A4,
            r.width_um == paper_dims_spec(PaperSize::A4).0,
            r.height_um == paper_dims_spec(PaperSize::A4).1,
            r.margin_top_um == DEFAULT_MARGIN_UM,
            r.margin_bottom_um == DEFAULT_MARGIN_UM,
            r.margin_left_um == DEFAULT_MARGIN_UM,
            r.margin_right_um == DEFAULT_MARGIN_UM,
            r.paper_type == PaperType::Plain,
            r.print_quality == PrintQuality::Standard,
            r.color_mode == ColorMode::UseICCProfile,
            r.orientation == Orientation::Portrait,
            !r.borderless,
    {
        Page::new(PaperSize::A4)
    }
}

} // verus!
