//! Millimeter/pixel conversion.
//!
//! Two distinct unit systems live here and must never be conflated:
//! screen conversion assumes a fixed 96 DPI reference scaled by the zoom
//! factor, while print conversion uses an explicitly supplied printer DPI.
//!
//! Lengths are integers in micrometers (um, thousandths of a millimeter),
//! screen pixel coordinates are integers in thousandths of a pixel, and
//! zoom factors are integers in thousandths (1000 = 100%).

use vstd::prelude::*;

verus! {

/// Smallest zoom factor, in thousandths (10%).
pub const ZOOM_MIN_PM: u32 = 100;

/// Largest zoom factor, in thousandths (500%).
pub const ZOOM_MAX_PM: u32 = 5000;

/// Largest magnitude, in micrometers, accepted by the screen conversions.
pub const MAX_COORD_UM: i64 = 2_000_000_000;

/// Largest magnitude, in thousandths of a pixel, accepted by `px_to_mm`.
pub const MAX_COORD_MPX: i64 = 1_000_000_000_000;

/// Millimeters (in micrometers) to screen pixels (in thousandths of a pixel)
/// at the given zoom: `mm * (96/25.4) * zoom`, truncated toward zero.
/// 96/25.4 is the ratio 480/127 in lowest terms, and the length and
/// pixel scales cancel, so the factor is `480 * zoom_pm / 127000`.
pub open spec fn mm_to_px_spec(mm_um: int, zoom_pm: int) -> int {
    if mm_um >= 0 {
        (mm_um * 480 * zoom_pm) / 127000
    } else {
        -(((-mm_um) * 480 * zoom_pm) / 127000)
    }
}

/// Screen pixels (in thousandths of a pixel) back to millimeters (in
/// micrometers): the exact inverse ratio, truncated toward zero.
pub open spec fn px_to_mm_spec(px_mpx: int, zoom_pm: int) -> int {
    if px_mpx >= 0 {
        (px_mpx * 127000) / (480 * zoom_pm)
    } else {
        -(((-px_mpx) * 127000) / (480 * zoom_pm))
    }
}

/// Millimeters (in micrometers) to whole printer dots at the given DPI:
/// `round(mm / 25.4 * dpi)`, with negative positions clamped to dot zero.
/// One rounding policy is applied across every print conversion.
pub open spec fn mm_to_px_print_spec(mm_um: int, dpi: int) -> int {
    if mm_um <= 0 {
        0
    } else {
        (mm_um * dpi + 12700) / 25400
    }
}

/// Convert a length on screen: millimeters (micrometers) to pixels
/// (thousandths of a pixel) at the given zoom.
pub fn mm_to_px(mm_um: i64, zoom_pm: u32) -> (r: i64)
    requires
        ZOOM_MIN_PM <= zoom_pm <= ZOOM_MAX_PM,
        -MAX_COORD_UM <= mm_um <= MAX_COORD_UM,
    ensures
        r == mm_to_px_spec(mm_um as int, zoom_pm as int),
        -MAX_COORD_MPX <= r <= MAX_COORD_MPX,
{
    proof {
        let a = if mm_um >= 0 { mm_um as int } else { -mm_um as int };
        lemma_scale_bound(a, zoom_pm as int);
        vstd::arithmetic::div_mod::lemma_div_is_ordered(
            a * 480 * zoom_pm,
            MAX_COORD_UM * 480 * 5000,
            127000,
        );
        vstd::arithmetic::div_mod::lemma_div_pos_is_pos(a * 480 * zoom_pm, 127000);
    }
    if mm_um >= 0 {
        (mm_um * 480 * (zoom_pm as i64)) / 127000
    } else {
        let n: i64 = (-mm_um) * 480 * (zoom_pm as i64);
        -(n / 127000)
    }
}

/// The screen conversion's intermediate product stays within `i64`.
proof fn lemma_scale_bound(a: int, zoom_pm: int) by (nonlinear_arith)
    requires
        0 <= a <= MAX_COORD_UM,
        0 < zoom_pm <= ZOOM_MAX_PM,
    ensures
        0 <= a * 480 <= MAX_COORD_UM * 480,
        0 <= a * 480 * zoom_pm <= MAX_COORD_UM * 480 * 5000,
{
}

/// Truncating division of a nonnegative value by a positive divisor stays
/// between zero and the dividend.
pub proof fn lemma_div_shrinks(n: int, d: int) by (nonlinear_arith)
    requires
        0 <= n,
        0 < d,
    ensures
        0 <= n / d <= n,
{
}

/// Convert a length on screen: pixels (thousandths of a pixel) back to
/// millimeters (micrometers) at the given zoom.
pub fn px_to_mm(px_mpx: i64, zoom_pm: u32) -> (r: i64)
    requires
        ZOOM_MIN_PM <= zoom_pm <= ZOOM_MAX_PM,
        -MAX_COORD_MPX <= px_mpx <= MAX_COORD_MPX,
    ensures
        r == px_to_mm_spec(px_mpx as int, zoom_pm as int),
{
    proof {
        lemma_div_shrinks(
            (if px_mpx >= 0 { px_mpx as int } else { -px_mpx as int }) * 127000,
            480 * zoom_pm as int,
        );
    }
    if px_mpx >= 0 {
        (px_mpx * 127000) / (480 * (zoom_pm as i64))
    } else {
        let n: i64 = (-px_mpx) * 127000;
        -(n / (480 * (zoom_pm as i64)))
    }
}

/// `v` clamped to the supported coordinate range.
pub open spec fn clamp_coord_spec(v: int) -> int {
    if v < -MAX_COORD_UM {
        -MAX_COORD_UM as int
    } else if v > MAX_COORD_UM {
        MAX_COORD_UM as int
    } else {
        v
    }
}

/// Clamp a coordinate (in micrometers) to the supported range.
pub fn clamp_coord(v: i64) -> (r: i64)
    ensures
        r == clamp_coord_spec(v as int),
{
    if v < -MAX_COORD_UM {
        -MAX_COORD_UM
    } else if v > MAX_COORD_UM {
        MAX_COORD_UM
    } else {
        v
    }
}

/// Clamp a zoom factor (in thousandths) to the supported range.
pub fn clamp_zoom(zoom_pm: u32) -> (r: u32)
    ensures
        ZOOM_MIN_PM <= r <= ZOOM_MAX_PM,
        zoom_pm < ZOOM_MIN_PM ==> r == ZOOM_MIN_PM,
        zoom_pm > ZOOM_MAX_PM ==> r == ZOOM_MAX_PM,
        ZOOM_MIN_PM <= zoom_pm <= ZOOM_MAX_PM ==> r == zoom_pm,
{
    if zoom_pm < ZOOM_MIN_PM {
        ZOOM_MIN_PM
    } else if zoom_pm > ZOOM_MAX_PM {
        ZOOM_MAX_PM
    } else {
        zoom_pm
    }
}

/// Convert a nonnegative length for print: millimeters (micrometers) to
/// whole dots at the given DPI, rounding half up.
pub fn mm_to_px_print(mm_um: i64, dpi: u32) -> (r: u32)
    requires
        mm_um <= MAX_COORD_UM,
        0 < dpi <= 6000,
    ensures
        r == mm_to_px_print_spec(mm_um as int, dpi as int),
{
    if mm_um <= 0 {
        0
    } else {
        assert(0 < mm_um * (dpi as i64) <= MAX_COORD_UM * 6000) by (nonlinear_arith)
            requires
                0 < mm_um <= MAX_COORD_UM,
                0 < dpi <= 6000,
        ;
        let n: i64 = (mm_um * (dpi as i64) + 12700) / 25400;
        n as u32
    }
}

/// Converting millimeters to screen pixels and back returns to the
/// starting value, up to three micrometers of truncation loss.
pub proof fn lemma_mm_px_round_trip(mm_um: int, zoom_pm: int)
    requires
        0 < mm_um,
        ZOOM_MIN_PM <= zoom_pm <= ZOOM_MAX_PM,
    ensures
        mm_um - 3 <= px_to_mm_spec(mm_to_px_spec(mm_um, zoom_pm), zoom_pm) <= mm_um,
{
    let n = mm_um * 480 * zoom_pm;
    let q = n / 127000;
    assert(n >= 0) by (nonlinear_arith)
        requires
            mm_um > 0,
            zoom_pm >= 100,
            n == mm_um * 480 * zoom_pm,
    ;
    vstd::arithmetic::div_mod::lemma_fundamental_div_mod(n, 127000);
    assert(q * 127000 <= n < q * 127000 + 127000);
    assert(q >= 0) by (nonlinear_arith)
        requires
            n >= 0,
            q * 127000 <= n < q * 127000 + 127000,
    ;
    let d2 = 480 * zoom_pm;
    let m = (q * 127000) / d2;
    vstd::arithmetic::div_mod::lemma_fundamental_div_mod(q * 127000, d2);
    assert(m * d2 <= q * 127000 < m * d2 + d2);
    // Upper bound: m * d2 <= q * 127000 <= n == mm_um * d2, so m <= mm_um.
    assert(q * 127000 <= n);
    assert(n == mm_um * d2) by (nonlinear_arith)
        requires
            n == mm_um * 480 * zoom_pm,
            d2 == 480 * zoom_pm,
    ;
    assert(m <= mm_um) by (nonlinear_arith)
        requires
            m * d2 <= mm_um * d2,
            d2 > 0,
    ;
    // Lower bound: q * 127000 > n - 127000 and d2 >= 48000, so
    // (mm_um - 3) * d2 <= mm_um * d2 - 127000 - d2 < m * d2.
    assert(d2 >= 48000) by (nonlinear_arith)
        requires
            d2 == 480 * zoom_pm,
            zoom_pm >= 100,
    ;
    assert(m * d2 + d2 > q * 127000 > n - 127000);
    assert(m * d2 > mm_um * d2 - 127000 - d2);
    assert(m >= mm_um - 3) by (nonlinear_arith)
        requires
            m * d2 > mm_um * d2 - 127000 - d2,
            d2 >= 48000,
    ;
    assert(mm_to_px_spec(mm_um, zoom_pm) == q);
    assert(px_to_mm_spec(q, zoom_pm) == m);
}

} // verus!
