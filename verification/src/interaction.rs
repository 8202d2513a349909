//! The canvas interaction state machine: hit-testing of resize handles,
//! drag tracking, and the aspect-preserving resize geometry.
//!
//! The session owning the layout feeds pointer events in (already
//! converted to micrometers) and the state machine applies the resulting
//! moves and resizes to the layout.

use vstd::prelude::*;
use crate::geometry::{
    clamp_coord, clamp_coord_spec, mm_to_px, mm_to_px_spec, MAX_COORD_MPX, MAX_COORD_UM,
    ZOOM_MAX_PM, ZOOM_MIN_PM,
};
use crate::layout::{has_image_spec, Layout, PlacedImage, MIN_IMAGE_SIZE_UM};

verus! {

/// One of the eight draggable hotspots on a selected image's bounding
/// box: the four corners and the four edge midpoints.
#[derive(Debug, Clone, Copy, PartialEq, Eq, Structural)]
pub enum ResizeHandle {
    TopLeft,
    TopRight,
    BottomLeft,
    BottomRight,
    Top,
    Bottom,
    Left,
    Right,
}

/// What kind of drag is in progress.
#[derive(Debug, Clone, Copy, PartialEq, Eq, Structural)]
pub enum DragMode {
    Idle,
    Move,
    Resize(ResizeHandle),
}

/// A discriminated interaction outcome reported by the canvas, for the
/// owning session to apply. Coordinates are in micrometers.
#[derive(Debug, Clone)]
pub enum CanvasMessage {
    SelectImage(String),
    DeselectAll,
    ImageMoved(String, i64, i64),
    ImageResized(String, i64, i64),
    CanvasClicked(i64, i64),
    MouseMoved(i64, i64),
    MouseReleased,
    StartResize(String, ResizeHandle),
}

/// The settings sidebar's tab selector.
#[derive(Debug, Clone, Copy, PartialEq, Eq, Structural)]
pub enum SettingsTab {
    PrintSettings,
    Layout,
    ColorManagement,
    ImageTools,
}

impl Default for SettingsTab {
    /// The print settings tab is shown first.
    fn default() -> (r: Self)
        ensures
            r == SettingsTab::PrintSettings,
    {
        SettingsTab::PrintSettings
    }
}

/// `v` clamped to the supported size range for placed images.
pub open spec fn clamp_size_spec(v: int) -> int {
    if v < MIN_IMAGE_SIZE_UM {
        MIN_IMAGE_SIZE_UM as int
    } else if v > MAX_COORD_UM {
        MAX_COORD_UM as int
    } else {
        v
    }
}

/// Clamp a size (in micrometers) to the supported range for placed
/// images: at least the fixed minimum, at most the coordinate bound.
pub fn clamp_size(v: i64) -> (r: i64)
    ensures
        r == clamp_size_spec(v as int),
{
    if v < MIN_IMAGE_SIZE_UM {
        MIN_IMAGE_SIZE_UM
    } else if v > MAX_COORD_UM {
        MAX_COORD_UM
    } else {
        v
    }
}

/// The aspect-locked (width, height) derived from a raw width: the width
/// is clamped to the supported size range and the height follows the
/// initial ratio; where the derived height leaves the range, the height
/// is pinned to the bound and the width re-derived so the ratio is kept.
pub open spec fn locked_pair_from_width_spec(raw_w: int, init_w: int, init_h: int) -> (int, int) {
    let w0 = clamp_size_spec(raw_w);
    let h0 = w0 * init_h / init_w;
    if h0 < MIN_IMAGE_SIZE_UM {
        ((MIN_IMAGE_SIZE_UM * init_w / init_h), MIN_IMAGE_SIZE_UM as int)
    } else if h0 > MAX_COORD_UM {
        ((MAX_COORD_UM * init_w / init_h), MAX_COORD_UM as int)
    } else {
        (w0, h0)
    }
}

/// The aspect-locked (width, height) derived from a raw height,
/// symmetric to `locked_pair_from_width_spec`.
pub open spec fn locked_pair_from_height_spec(raw_h: int, init_w: int, init_h: int) -> (int, int) {
    let h0 = clamp_size_spec(raw_h);
    let w0 = h0 * init_w / init_h;
    if w0 < MIN_IMAGE_SIZE_UM {
        (MIN_IMAGE_SIZE_UM as int, (MIN_IMAGE_SIZE_UM * init_h / init_w))
    } else if w0 > MAX_COORD_UM {
        (MAX_COORD_UM as int, (MAX_COORD_UM * init_h / init_w))
    } else {
        (w0, h0)
    }
}

/// `0 <= a` and `b <= c` give `a * b <= a * c`.
proof fn lemma_mul_le(a: int, b: int, c: int) by (nonlinear_arith)
    requires
        0 <= a,
        b <= c,
    ensures
        a * b <= a * c,
{
}

/// For positive `den <= num` and `0 <= a`, scaling `a` by `num / den`
/// does not shrink it; for `num <= den` it does not grow it; and the
/// scaled value differs from the exact ratio by less than one `den`.
proof fn lemma_scaled_bounds(a: int, num: int, den: int)
    requires
        0 <= a,
        0 < num,
        0 < den,
    ensures
        den <= num ==> a <= a * num / den,
        num <= den ==> a * num / den <= a,
        0 <= a * num / den,
        a * num / den * den <= a * num < a * num / den * den + den,
{
    vstd::arithmetic::div_mod::lemma_fundamental_div_mod(a * num, den);
    vstd::arithmetic::div_mod::lemma_div_multiples_vanish(a, den);
    assert(a * den / den == a);
    if den <= num {
        lemma_mul_le(a, den, num);
        vstd::arithmetic::div_mod::lemma_div_is_ordered(a * den, a * num, den);
    }
    if num <= den {
        lemma_mul_le(a, num, den);
        vstd::arithmetic::div_mod::lemma_div_is_ordered(a * num, a * den, den);
    }
    let q = a * num / den;
    assert(q * den <= a * num < q * den + den) by {
        vstd::arithmetic::div_mod::lemma_fundamental_div_mod(a * num, den);
        vstd::arithmetic::div_mod::lemma_remainder_upper(a * num, den);
        vstd::arithmetic::div_mod::lemma_remainder_lower(a * num, den);
    }
    assert(0 <= q) by {
        vstd::arithmetic::div_mod::lemma_div_pos_is_pos(a * num, den);
        assert(0 <= a * num) by (nonlinear_arith)
            requires
                0 <= a,
                0 < num,
        ;
    }
}

/// Compute the aspect-locked pair from a raw width. Both results stay in
/// the supported size range, and the pair keeps the initial ratio up to
/// one unit of truncation: `-init_h < w * init_h - h * init_w < init_w`.
fn locked_pair_from_width(raw_w: i64, init_w: i64, init_h: i64) -> (r: (i64, i64))
    requires
        MIN_IMAGE_SIZE_UM <= init_w <= MAX_COORD_UM,
        MIN_IMAGE_SIZE_UM <= init_h <= MAX_COORD_UM,
    ensures
        r.0 == locked_pair_from_width_spec(raw_w as int, init_w as int, init_h as int).0,
        r.1 == locked_pair_from_width_spec(raw_w as int, init_w as int, init_h as int).1,
        MIN_IMAGE_SIZE_UM <= r.0 <= MAX_COORD_UM,
        MIN_IMAGE_SIZE_UM <= r.1 <= MAX_COORD_UM,
        -init_h < r.0 * init_h - r.1 * init_w < init_w,
{
    let w0: i64 = clamp_size(raw_w);
    proof {
        lemma_scaled_bounds(w0 as int, init_h as int, init_w as int);
        lemma_mul_le(w0 as int, init_h as int, MAX_COORD_UM as int);
    }
    let h0: i64 = w0 * init_h / init_w;
    if h0 < MIN_IMAGE_SIZE_UM {
        proof {
            // Here the height shrank below the width, so the ratio leans
            // wide: init_h < init_w.
            if init_w <= init_h {
                lemma_scaled_bounds(w0 as int, init_h as int, init_w as int);
                assert(w0 <= h0);
            }
            lemma_scaled_bounds(MIN_IMAGE_SIZE_UM as int, init_w as int, init_h as int);
            lemma_mul_le(MIN_IMAGE_SIZE_UM as int, init_w as int, MAX_COORD_UM as int);
            vstd::arithmetic::div_mod::lemma_div_is_ordered(
                MIN_IMAGE_SIZE_UM * init_w,
                MIN_IMAGE_SIZE_UM * MAX_COORD_UM,
                init_h as int,
            );
            vstd::arithmetic::div_mod::lemma_div_is_ordered_by_denominator(
                MIN_IMAGE_SIZE_UM * MAX_COORD_UM,
                MIN_IMAGE_SIZE_UM as int,
                init_h as int,
            );
        }
        let w1: i64 = MIN_IMAGE_SIZE_UM * init_w / init_h;
        (w1, MIN_IMAGE_SIZE_UM)
    } else if h0 > MAX_COORD_UM {
        proof {
            // Here the height outgrew the bound while the width is within
            // it, so the ratio leans tall: init_w < init_h.
            if init_h <= init_w {
                lemma_scaled_bounds(w0 as int, init_h as int, init_w as int);
                assert(h0 <= w0);
            }
            lemma_scaled_bounds(MAX_COORD_UM as int, init_w as int, init_h as int);
            assert(MIN_IMAGE_SIZE_UM <= MAX_COORD_UM * (init_w as int) / (init_h as int)) by {
                lemma_mul_le(init_w as int, MIN_IMAGE_SIZE_UM as int, MAX_COORD_UM as int);
                assert(init_w * MIN_IMAGE_SIZE_UM <= MAX_COORD_UM * init_w);
                vstd::arithmetic::div_mod::lemma_div_is_ordered(
                    MIN_IMAGE_SIZE_UM * init_h,
                    MAX_COORD_UM * init_w,
                    init_h as int,
                );
                vstd::arithmetic::div_mod::lemma_div_multiples_vanish(
                    MIN_IMAGE_SIZE_UM as int,
                    init_h as int,
                );
                lemma_mul_le(MIN_IMAGE_SIZE_UM as int, init_h as int, init_h as int);
            }
        }
        let w1: i64 = MAX_COORD_UM * init_w / init_h;
        (w1, MAX_COORD_UM)
    } else {
        (w0, h0)
    }
}

/// Compute the aspect-locked pair from a raw height, symmetric to
/// `locked_pair_from_width`.
fn locked_pair_from_height(raw_h: i64, init_w: i64, init_h: i64) -> (r: (i64, i64))
    requires
        MIN_IMAGE_SIZE_UM <= init_w <= MAX_COORD_UM,
        MIN_IMAGE_SIZE_UM <= init_h <= MAX_COORD_UM,
    ensures
        r.0 == locked_pair_from_height_spec(raw_h as int, init_w as int, init_h as int).0,
        r.1 == locked_pair_from_height_spec(raw_h as int, init_w as int, init_h as int).1,
        MIN_IMAGE_SIZE_UM <= r.0 <= MAX_COORD_UM,
        MIN_IMAGE_SIZE_UM <= r.1 <= MAX_COORD_UM,
        -init_w < r.1 * init_w - r.0 * init_h < init_h,
{
    let h0: i64 = clamp_size(raw_h);
    proof {
        lemma_scaled_bounds(h0 as int, init_w as int, init_h as int);
        lemma_mul_le(h0 as int, init_w as int, MAX_COORD_UM as int);
    }
    let w0: i64 = h0 * init_w / init_h;
    if w0 < MIN_IMAGE_SIZE_UM {
        proof {
            if init_h <= init_w {
                lemma_scaled_bounds(h0 as int, init_w as int, init_h as int);
                assert(h0 <= w0);
            }
            lemma_scaled_bounds(MIN_IMAGE_SIZE_UM as int, init_h as int, init_w as int);
            lemma_mul_le(MIN_IMAGE_SIZE_UM as int, init_h as int, MAX_COORD_UM as int);
            vstd::arithmetic::div_mod::lemma_div_is_ordered(
                MIN_IMAGE_SIZE_UM * init_h,
                MIN_IMAGE_SIZE_UM * MAX_COORD_UM,
                init_w as int,
            );
            vstd::arithmetic::div_mod::lemma_div_is_ordered_by_denominator(
                MIN_IMAGE_SIZE_UM * MAX_COORD_UM,
                MIN_IMAGE_SIZE_UM as int,
                init_w as int,
            );
        }
        let h1: i64 = MIN_IMAGE_SIZE_UM * init_h / init_w;
        (MIN_IMAGE_SIZE_UM, h1)
    } else if w0 > MAX_COORD_UM {
        proof {
            if init_w <= init_h {
                lemma_scaled_bounds(h0 as int, init_w as int, init_h as int);
                assert(w0 <= h0);
            }
            lemma_scaled_bounds(MAX_COORD_UM as int, init_h as int, init_w as int);
            assert(MIN_IMAGE_SIZE_UM <= MAX_COORD_UM * (init_h as int) / (init_w as int)) by {
                lemma_mul_le(init_h as int, MIN_IMAGE_SIZE_UM as int, MAX_COORD_UM as int);
                assert(init_h * MIN_IMAGE_SIZE_UM <= MAX_COORD_UM * init_h);
                vstd::arithmetic::div_mod::lemma_div_is_ordered(
                    MIN_IMAGE_SIZE_UM * init_w,
                    MAX_COORD_UM * init_h,
                    init_w as int,
                );
                vstd::arithmetic::div_mod::lemma_div_multiples_vanish(
                    MIN_IMAGE_SIZE_UM as int,
                    init_w as int,
                );
                lemma_mul_le(MIN_IMAGE_SIZE_UM as int, init_w as int, init_w as int);
            }
        }
        let h1: i64 = MAX_COORD_UM * init_h / init_w;
        (MAX_COORD_UM, h1)
    } else {
        (w0, h0)
    }
}

/// The rectangle that a resize drag produces, before it is applied:
/// (x, y, width, height), all in micrometers. The dragged corner or edge
/// follows the pointer delta, the opposite one stays anchored (up to the
/// coordinate-range clamp), and sizes are clamped so neither dimension
/// ever drops below the fixed minimum.
pub open spec fn resize_rect_spec(
    handle: ResizeHandle,
    init_x: int,
    init_y: int,
    init_w: int,
    init_h: int,
    dx: int,
    dy: int,
    aspect_lock: bool,
) -> (int, int, int, int) {
    let pair = match handle {
        ResizeHandle::BottomRight | ResizeHandle::TopRight | ResizeHandle::Right => {
            if aspect_lock {
                locked_pair_from_width_spec(init_w + dx, init_w, init_h)
            } else {
                match handle {
                    ResizeHandle::BottomRight => (
                        clamp_size_spec(init_w + dx),
                        clamp_size_spec(init_h + dy),
                    ),
                    ResizeHandle::TopRight => (
                        clamp_size_spec(init_w + dx),
                        clamp_size_spec(init_h - dy),
                    ),
                    _ => (clamp_size_spec(init_w + dx), init_h),
                }
            }
        },
        ResizeHandle::BottomLeft | ResizeHandle::TopLeft | ResizeHandle::Left => {
            if aspect_lock {
                locked_pair_from_width_spec(init_w - dx, init_w, init_h)
            } else {
                match handle {
                    ResizeHandle::BottomLeft => (
                        clamp_size_spec(init_w - dx),
                        clamp_size_spec(init_h + dy),
                    ),
                    ResizeHandle::TopLeft => (
                        clamp_size_spec(init_w - dx),
                        clamp_size_spec(init_h - dy),
                    ),
                    _ => (clamp_size_spec(init_w - dx), init_h),
                }
            }
        },
        ResizeHandle::Bottom => {
            if aspect_lock {
                locked_pair_from_height_spec(init_h + dy, init_w, init_h)
            } else {
                (init_w, clamp_size_spec(init_h + dy))
            }
        },
        ResizeHandle::Top => {
            if aspect_lock {
                locked_pair_from_height_spec(init_h - dy, init_w, init_h)
            } else {
                (init_w, clamp_size_spec(init_h - dy))
            }
        },
    };
    let x = match handle {
        ResizeHandle::BottomLeft | ResizeHandle::TopLeft | ResizeHandle::Left => clamp_coord_spec(
            init_x + init_w - pair.0,
        ),
        _ => init_x,
    };
    let y = match handle {
        ResizeHandle::TopRight | ResizeHandle::TopLeft | ResizeHandle::Top => clamp_coord_spec(
            init_y + init_h - pair.1,
        ),
        _ => init_y,
    };
    (x, y, pair.0, pair.1)
}

/// Apply the per-handle resize geometry to the initial rectangle and the
/// pointer delta. Width and height never drop below the fixed minimum
/// however far the pointer overshoots, and under aspect lock the result
/// keeps the initial ratio up to one unit of truncation.
pub fn resize_rect(
    handle: ResizeHandle,
    init_x: i64,
    init_y: i64,
    init_w: i64,
    init_h: i64,
    dx: i64,
    dy: i64,
    aspect_lock: bool,
) -> (r: (i64, i64, i64, i64))
    requires
        -MAX_COORD_UM <= init_x <= MAX_COORD_UM,
        -MAX_COORD_UM <= init_y <= MAX_COORD_UM,
        MIN_IMAGE_SIZE_UM <= init_w <= MAX_COORD_UM,
        MIN_IMAGE_SIZE_UM <= init_h <= MAX_COORD_UM,
        -4 * MAX_COORD_UM <= dx <= 4 * MAX_COORD_UM,
        -4 * MAX_COORD_UM <= dy <= 4 * MAX_COORD_UM,
    ensures
        ({
            let s = resize_rect_spec(
                handle,
                init_x as int,
                init_y as int,
                init_w as int,
                init_h as int,
                dx as int,
                dy as int,
                aspect_lock,
            );
            r.0 == s.0 && r.1 == s.1 && r.2 == s.2 && r.3 == s.3
        }),
        -MAX_COORD_UM <= r.0 <= MAX_COORD_UM,
        -MAX_COORD_UM <= r.1 <= MAX_COORD_UM,
        MIN_IMAGE_SIZE_UM <= r.2 <= MAX_COORD_UM,
        MIN_IMAGE_SIZE_UM <= r.3 <= MAX_COORD_UM,
        aspect_lock ==> -(init_h + init_w) < r.2 * init_h - r.3 * init_w < init_h + init_w,
{
    let pair: (i64, i64) = match handle {
        ResizeHandle::BottomRight | ResizeHandle::TopRight | ResizeHandle::Right => {
            if aspect_lock {
                locked_pair_from_width(init_w + dx, init_w, init_h)
            } else {
                match handle {
                    ResizeHandle::BottomRight => (clamp_size(init_w + dx), clamp_size(init_h + dy)),
                    ResizeHandle::TopRight => (clamp_size(init_w + dx), clamp_size(init_h - dy)),
                    _ => (clamp_size(init_w + dx), init_h),
                }
            }
        },
        ResizeHandle::BottomLeft | ResizeHandle::TopLeft | ResizeHandle::Left => {
            if aspect_lock {
                locked_pair_from_width(init_w - dx, init_w, init_h)
            } else {
                match handle {
                    ResizeHandle::BottomLeft => (clamp_size(init_w - dx), clamp_size(init_h + dy)),
                    ResizeHandle::TopLeft => (clamp_size(init_w - dx), clamp_size(init_h - dy)),
                    _ => (clamp_size(init_w - dx), init_h),
                }
            }
        },
        ResizeHandle::Bottom => {
            if aspect_lock {
                locked_pair_from_height(init_h + dy, init_w, init_h)
            } else {
                (init_w, clamp_size(init_h + dy))
            }
        },
        ResizeHandle::Top => {
            if aspect_lock {
                locked_pair_from_height(init_h - dy, init_w, init_h)
            } else {
                (init_w, clamp_size(init_h - dy))
            }
        },
    };
    let x: i64 = match handle {
        ResizeHandle::BottomLeft | ResizeHandle::TopLeft | ResizeHandle::Left => clamp_coord(
            init_x + init_w - pair.0,
        ),
        _ => init_x,
    };
    let y: i64 = match handle {
        ResizeHandle::TopRight | ResizeHandle::TopLeft | ResizeHandle::Top => clamp_coord(
            init_y + init_h - pair.1,
        ),
        _ => init_y,
    };
    (x, y, pair.0, pair.1)
}

/// Hit radius of a resize handle, in thousandths of a screen pixel.
/// Fixed in pixel space, independent of the zoom level.
pub const HANDLE_RADIUS_MPX: i64 = 8000;

/// The center of a resize handle in screen pixel space (thousandths of a
/// pixel): corners sit on the box's corners, edge handles on the edge
/// midpoints. Each box coordinate is converted separately, as on screen.
pub open spec fn handle_center_spec(img: PlacedImage, zoom_pm: int, handle: ResizeHandle) -> (
    int,
    int,
) {
    let x = mm_to_px_spec(img.x_um as int, zoom_pm);
    let y = mm_to_px_spec(img.y_um as int, zoom_pm);
    let w = mm_to_px_spec(img.width_um as int, zoom_pm);
    let h = mm_to_px_spec(img.height_um as int, zoom_pm);
    match handle {
        ResizeHandle::TopLeft => (x, y),
        ResizeHandle::TopRight => (x + w, y),
        ResizeHandle::BottomLeft => (x, y + h),
        ResizeHandle::BottomRight => (x + w, y + h),
        ResizeHandle::Top => (x + w / 2, y),
        ResizeHandle::Bottom => (x + w / 2, y + h),
        ResizeHandle::Left => (x, y + h / 2),
        ResizeHandle::Right => (x + w, y + h / 2),
    }
}

/// Whether the pointer lies within the hit radius of the handle's center,
/// on both axes.
pub open spec fn near_handle_spec(
    img: PlacedImage,
    zoom_pm: int,
    handle: ResizeHandle,
    px: int,
    py: int,
) -> bool {
    let c = handle_center_spec(img, zoom_pm, handle);
    &&& -HANDLE_RADIUS_MPX < px - c.0 < HANDLE_RADIUS_MPX
    &&& -HANDLE_RADIUS_MPX < py - c.1 < HANDLE_RADIUS_MPX
}

/// The handle hit by the pointer, if any: corners take priority over
/// edges, and within each group the first in reading order wins.
pub open spec fn hit_handle_spec(img: PlacedImage, zoom_pm: int, px: int, py: int) -> Option<
    ResizeHandle,
> {
    if near_handle_spec(img, zoom_pm, ResizeHandle::TopLeft, px, py) {
        Option::Some(ResizeHandle::TopLeft)
    } else if near_handle_spec(img, zoom_pm, ResizeHandle::TopRight, px, py) {
        Option::Some(ResizeHandle::TopRight)
    } else if near_handle_spec(img, zoom_pm, ResizeHandle::BottomLeft, px, py) {
        Option::Some(ResizeHandle::BottomLeft)
    } else if near_handle_spec(img, zoom_pm, ResizeHandle::BottomRight, px, py) {
        Option::Some(ResizeHandle::BottomRight)
    } else if near_handle_spec(img, zoom_pm, ResizeHandle::Top, px, py) {
        Option::Some(ResizeHandle::Top)
    } else if near_handle_spec(img, zoom_pm, ResizeHandle::Bottom, px, py) {
        Option::Some(ResizeHandle::Bottom)
    } else if near_handle_spec(img, zoom_pm, ResizeHandle::Left, px, py) {
        Option::Some(ResizeHandle::Left)
    } else if near_handle_spec(img, zoom_pm, ResizeHandle::Right, px, py) {
        Option::Some(ResizeHandle::Right)
    } else {
        Option::None
    }
}

/// Whether the pointer is within the handle hit radius of a center
/// point, on both axes; all values in thousandths of a screen pixel.
fn near_point(px: i64, py: i64, cx: i64, cy: i64) -> (hit: bool)
    requires
        -MAX_COORD_MPX <= px <= MAX_COORD_MPX,
        -MAX_COORD_MPX <= py <= MAX_COORD_MPX,
        -4 * MAX_COORD_MPX <= cx <= 4 * MAX_COORD_MPX,
        -4 * MAX_COORD_MPX <= cy <= 4 * MAX_COORD_MPX,
    ensures
        hit == (-HANDLE_RADIUS_MPX < px - cx < HANDLE_RADIUS_MPX && -HANDLE_RADIUS_MPX < py - cy
            < HANDLE_RADIUS_MPX),
{
    px - cx < HANDLE_RADIUS_MPX && cx - px < HANDLE_RADIUS_MPX && py - cy < HANDLE_RADIUS_MPX && cy
        - py < HANDLE_RADIUS_MPX
}

/// Whether the pointer (in thousandths of a screen pixel) is over a
/// resize handle of the selected image, and which; `None` without a
/// selection or away from every handle.
pub fn get_resize_handle_at_point(layout: &Layout, zoom_pm: u32, px_mpx: i64, py_mpx: i64) -> (r:
    Option<(String, ResizeHandle)>)
    requires
        layout.wf(),
        ZOOM_MIN_PM <= zoom_pm <= ZOOM_MAX_PM,
        -MAX_COORD_MPX <= px_mpx <= MAX_COORD_MPX,
        -MAX_COORD_MPX <= py_mpx <= MAX_COORD_MPX,
    ensures
        layout.selected_image_id is None ==> r is None,
        layout.selected_image_id matches Option::Some(id) ==> exists|k: int|
            {
                &&& 0 <= k < layout.images@.len()
                &&& #[trigger] layout.images@[k].id@ == id@
                &&& forall|j: int| 0 <= j < k ==> layout.images@[j].id@ != id@
                &&& match hit_handle_spec(
                    layout.images@[k],
                    zoom_pm as int,
                    px_mpx as int,
                    py_mpx as int,
                ) {
                    Option::Some(h) => r matches Option::Some(p) && p.0@ == id@ && p.1 == h,
                    Option::None => r is None,
                }
            },
{
    let id = match &layout.selected_image_id {
        Option::None => {
            return Option::None;
        },
        Option::Some(id) => id,
    };
    let k = match layout.get_image_index(id) {
        Option::None => {
            proof {
                assert(has_image_spec(layout.images@, id@));
            }
            return Option::None;
        },
        Option::Some(k) => k,
    };
    let img = &layout.images[k];
    let x: i64 = mm_to_px(img.x_um, zoom_pm);
    let y: i64 = mm_to_px(img.y_um, zoom_pm);
    let w: i64 = mm_to_px(img.width_um, zoom_pm);
    let h: i64 = mm_to_px(img.height_um, zoom_pm);
    if near_point(px_mpx, py_mpx, x, y) {
        Option::Some((id.clone(), ResizeHandle::TopLeft))
    } else if near_point(px_mpx, py_mpx, x + w, y) {
        Option::Some((id.clone(), ResizeHandle::TopRight))
    } else if near_point(px_mpx, py_mpx, x, y + h) {
        Option::Some((id.clone(), ResizeHandle::BottomLeft))
    } else if near_point(px_mpx, py_mpx, x + w, y + h) {
        Option::Some((id.clone(), ResizeHandle::BottomRight))
    } else if near_point(px_mpx, py_mpx, x + w / 2, y) {
        Option::Some((id.clone(), ResizeHandle::Top))
    } else if near_point(px_mpx, py_mpx, x + w / 2, y + h) {
        Option::Some((id.clone(), ResizeHandle::Bottom))
    } else if near_point(px_mpx, py_mpx, x, y + h / 2) {
        Option::Some((id.clone(), ResizeHandle::Left))
    } else if near_point(px_mpx, py_mpx, x + w, y + h / 2) {
        Option::Some((id.clone(), ResizeHandle::Right))
    } else {
        Option::None
    }
}

/// Drag-tracking state: what kind of drag is running, the first pointer
/// sample (captured lazily on the first move after the press), and the
/// dragged image's position and size at press time.
#[derive(Debug, Clone, Copy)]
pub struct InteractionState {
    pub drag_mode: DragMode,
    pub drag_start_pos: Option<(i64, i64)>,
    pub drag_image_initial_pos: (i64, i64),
    pub drag_image_initial_size: (i64, i64),
    pub maintain_aspect_ratio: bool,
}

impl InteractionState {
    /// Anchors stay within the coordinate range; the anchored size stays
    /// within the supported size range.
    pub open spec fn wf(self) -> bool {
        &&& -MAX_COORD_UM <= self.drag_image_initial_pos.0 <= MAX_COORD_UM
        &&& -MAX_COORD_UM <= self.drag_image_initial_pos.1 <= MAX_COORD_UM
        &&& MIN_IMAGE_SIZE_UM <= self.drag_image_initial_size.0 <= MAX_COORD_UM
        &&& MIN_IMAGE_SIZE_UM <= self.drag_image_initial_size.1 <= MAX_COORD_UM
        &&& match self.drag_start_pos {
            Option::Some(p) => -MAX_COORD_UM <= p.0 <= MAX_COORD_UM && -MAX_COORD_UM <= p.1
                <= MAX_COORD_UM,
            Option::None => true,
        }
    }

    /// A fresh idle state with aspect-ratio lock enabled and placeholder
    /// anchors.
    pub fn new() -> (r: Self)
        ensures
            r.wf(),
            r.drag_mode == DragMode::Idle,
            r.drag_start_pos is None,
            r.maintain_aspect_ratio,
    {
        InteractionState {
            drag_mode: DragMode::Idle,
            drag_start_pos: Option::None,
            drag_image_initial_pos: (0, 0),
            drag_image_initial_size: (MIN_IMAGE_SIZE_UM, MIN_IMAGE_SIZE_UM),
            maintain_aspect_ratio: true,
        }
    }

    /// A press on an image: select it, remember its position and size as
    /// drag anchors (the size clamped into the supported range), and
    /// enter the move drag. A press naming a missing image changes
    /// nothing.
    pub fn on_select_image(&mut self, layout: &mut Layout, id: &String) -> (selected: bool)
        requires
            old(self).wf(),
            old(layout).wf(),
        ensures
            final(self).wf(),
            final(layout).wf(),
            selected == has_image_spec(old(layout).images@, id@),
            !selected ==> *final(self) == *old(self) && *final(layout) == *old(layout),
            final(layout).images@ == old(layout).images@,
            final(layout).page == old(layout).page,
            selected ==> (final(layout).selected_image_id matches Option::Some(s) && s@ == id@),
            selected ==> final(self).drag_mode == DragMode::Move,
            selected ==> final(self).drag_start_pos is None,
            selected ==> final(self).maintain_aspect_ratio == old(self).maintain_aspect_ratio,
            selected ==> exists|k: int|
                {
                    &&& 0 <= k < old(layout).images@.len()
                    &&& #[trigger] old(layout).images@[k].id@ == id@
                    &&& forall|j: int| 0 <= j < k ==> old(layout).images@[j].id@ != id@
                    &&& final(self).drag_image_initial_pos == (
                        old(layout).images@[k].x_um,
                        old(layout).images@[k].y_um,
                    )
                    &&& final(self).drag_image_initial_size.0 == clamp_size_spec(
                        old(layout).images@[k].width_um as int,
                    )
                    &&& final(self).drag_image_initial_size.1 == clamp_size_spec(
                        old(layout).images@[k].height_um as int,
                    )
                },
    {
        match layout.get_image_index(id) {
            Option::None => false,
            Option::Some(k) => {
                layout.selected_image_id = Option::Some(id.clone());
                let img = &layout.images[k];
                self.drag_mode = DragMode::Move;
                self.drag_image_initial_pos = (img.x_um, img.y_um);
                self.drag_image_initial_size = (clamp_size(img.width_um), clamp_size(img.height_um));
                self.drag_start_pos = Option::None;
                proof {
                    assert(layout.images@[k as int].id@ == id@);
                }
                true
            },
        }
    }

    /// A press on a resize handle of an already-selected image: select it,
    /// remember the drag anchors, and enter the resize drag for that
    /// handle. A press naming a missing image changes nothing.
    pub fn on_start_resize(&mut self, layout: &mut Layout, id: &String, handle: ResizeHandle) -> (
        started: bool)
        requires
            old(self).wf(),
            old(layout).wf(),
        ensures
            final(self).wf(),
            final(layout).wf(),
            started == has_image_spec(old(layout).images@, id@),
            !started ==> *final(self) == *old(self) && *final(layout) == *old(layout),
            final(layout).images@ == old(layout).images@,
            final(layout).page == old(layout).page,
            started ==> (final(layout).selected_image_id matches Option::Some(s) && s@ == id@),
            started ==> final(self).drag_mode == DragMode::Resize(handle),
            started ==> final(self).drag_start_pos is None,
            started ==> final(self).maintain_aspect_ratio == old(self).maintain_aspect_ratio,
            started ==> exists|k: int|
                {
                    &&& 0 <= k < old(layout).images@.len()
                    &&& #[trigger] old(layout).images@[k].id@ == id@
                    &&& forall|j: int| 0 <= j < k ==> old(layout).images@[j].id@ != id@
                    &&& final(self).drag_image_initial_pos == (
                        old(layout).images@[k].x_um,
                        old(layout).images@[k].y_um,
                    )
                    &&& final(self).drag_image_initial_size.0 == clamp_size_spec(
                        old(layout).images@[k].width_um as int,
                    )
                    &&& final(self).drag_image_initial_size.1 == clamp_size_spec(
                        old(layout).images@[k].height_um as int,
                    )
                },
    {
        match layout.get_image_index(id) {
            Option::None => false,
            Option::Some(k) => {
                layout.selected_image_id = Option::Some(id.clone());
                let img = &layout.images[k];
                self.drag_mode = DragMode::Resize(handle);
                self.drag_image_initial_pos = (img.x_um, img.y_um);
                self.drag_image_initial_size = (clamp_size(img.width_um), clamp_size(img.height_um));
                self.drag_start_pos = Option::None;
                proof {
                    assert(layout.images@[k as int].id@ == id@);
                }
                true
            },
        }
    }

    /// A press on empty canvas: clear the selection and end any drag.
    pub fn on_deselect(&mut self, layout: &mut Layout)
        requires
            old(self).wf(),
            old(layout).wf(),
        ensures
            final(self).wf(),
            final(layout).wf(),
            final(layout).images@ == old(layout).images@,
            final(layout).page == old(layout).page,
            final(layout).selected_image_id is None,
            final(self).drag_mode == DragMode::Idle,
            final(self).drag_start_pos == old(self).drag_start_pos,
            final(self).drag_image_initial_pos == old(self).drag_image_initial_pos,
            final(self).drag_image_initial_size == old(self).drag_image_initial_size,
            final(self).maintain_aspect_ratio == old(self).maintain_aspect_ratio,
    {
        layout.selected_image_id = Option::None;
        self.drag_mode = DragMode::Idle;
    }

    /// A pointer move at (x, y) in micrometers (clamped to the coordinate
    /// range). While idle or without a selection nothing happens. The
    /// first move after a press only establishes the zero-delta baseline;
    /// later moves recompute the selected image's position (move drag) or
    /// rectangle (resize drag) from the anchors and the pointer delta. A
    /// move whose image no longer exists is silently dropped.
    pub fn on_mouse_moved(&mut self, layout: &mut Layout, x_um: i64, y_um: i64)
        requires
            old(self).wf(),
            old(layout).wf(),
        ensures
            final(self).wf(),
            final(layout).wf(),
            final(layout).page == old(layout).page,
            final(layout).selected_image_id == old(layout).selected_image_id,
            final(self).drag_mode == old(self).drag_mode,
            final(self).drag_image_initial_pos == old(self).drag_image_initial_pos,
            final(self).drag_image_initial_size == old(self).drag_image_initial_size,
            final(self).maintain_aspect_ratio == old(self).maintain_aspect_ratio,
            (old(self).drag_mode == DragMode::Idle || old(layout).selected_image_id is None) ==> (
            *final(layout) == *old(layout) && *final(self) == *old(self)),
            (old(self).drag_mode != DragMode::Idle && old(layout).selected_image_id is Some) ==> ({
                let cx = clamp_coord_spec(x_um as int);
                let cy = clamp_coord_spec(y_um as int);
                let start = match old(self).drag_start_pos {
                    Option::Some(p) => (p.0 as int, p.1 as int),
                    Option::None => (cx, cy),
                };
                let dx = cx - start.0;
                let dy = cy - start.1;
                let sel = old(layout).selected_image_id->0;
                &&& final(self).drag_start_pos matches Option::Some(p) && p.0 == start.0 && p.1
                    == start.1
                &&& exists|k: int|
                    {
                        &&& 0 <= k < old(layout).images@.len()
                        &&& #[trigger] old(layout).images@[k].id@ == sel@
                        &&& forall|j: int| 0 <= j < k ==> old(layout).images@[j].id@ != sel@
                        &&& final(layout).images@ == old(layout).images@.update(
                            k,
                            match old(self).drag_mode {
                                DragMode::Move => PlacedImage {
                                    x_um: clamp_coord_spec(
                                        old(self).drag_image_initial_pos.0 + dx,
                                    ) as i64,
                                    y_um: clamp_coord_spec(
                                        old(self).drag_image_initial_pos.1 + dy,
                                    ) as i64,
                                    ..old(layout).images@[k]
                                },
                                DragMode::Resize(h) => ({
                                    let rect = resize_rect_spec(
                                        h,
                                        old(self).drag_image_initial_pos.0 as int,
                                        old(self).drag_image_initial_pos.1 as int,
                                        old(self).drag_image_initial_size.0 as int,
                                        old(self).drag_image_initial_size.1 as int,
                                        dx,
                                        dy,
                                        old(self).maintain_aspect_ratio,
                                    );
                                    PlacedImage {
                                        x_um: rect.0 as i64,
                                        y_um: rect.1 as i64,
                                        width_um: rect.2 as i64,
                                        height_um: rect.3 as i64,
                                        ..old(layout).images@[k]
                                    }
                                }),
                                DragMode::Idle => old(layout).images@[k],
                            },
                        )
                    }
            }),
    {
        if matches!(self.drag_mode, DragMode::Idle) {
            return ;
        }
        let sel: String = match &layout.selected_image_id {
            Option::None => {
                return ;
            },
            Option::Some(s) => s.clone(),
        };
        let cx: i64 = clamp_coord(x_um);
        let cy: i64 = clamp_coord(y_um);
        let start: (i64, i64) = match self.drag_start_pos {
            Option::Some(p) => p,
            Option::None => (cx, cy),
        };
        self.drag_start_pos = Option::Some(start);
        let dx: i64 = cx - start.0;
        let dy: i64 = cy - start.1;
        match self.drag_mode {
            DragMode::Idle => {},
            DragMode::Move => {
                let nx: i64 = clamp_coord(self.drag_image_initial_pos.0 + dx);
                let ny: i64 = clamp_coord(self.drag_image_initial_pos.1 + dy);
                let _moved = layout.set_image_position(&sel, nx, ny);
                proof {
                    assert(has_image_spec(old(layout).images@, sel@));
                }
            },
            DragMode::Resize(handle) => {
                let rect = resize_rect(
                    handle,
                    self.drag_image_initial_pos.0,
                    self.drag_image_initial_pos.1,
                    self.drag_image_initial_size.0,
                    self.drag_image_initial_size.1,
                    dx,
                    dy,
                    self.maintain_aspect_ratio,
                );
                let _resized = layout.set_image_bounds(&sel, rect.0, rect.1, rect.2, rect.3);
                proof {
                    assert(has_image_spec(old(layout).images@, sel@));
                }
            },
        }
    }

    /// A release: end any drag and forget the first pointer sample.
    /// Reports whether a drag was in progress.
    pub fn on_mouse_released(&mut self) -> (was_dragging: bool)
        requires
            old(self).wf(),
        ensures
            final(self).wf(),
            was_dragging == (old(self).drag_mode != DragMode::Idle),
            final(self).drag_mode == DragMode::Idle,
            final(self).drag_start_pos is None,
            final(self).drag_image_initial_pos == old(self).drag_image_initial_pos,
            final(self).drag_image_initial_size == old(self).drag_image_initial_size,
            final(self).maintain_aspect_ratio == old(self).maintain_aspect_ratio,
    {
        let was_dragging = !matches!(self.drag_mode, DragMode::Idle);
        self.drag_mode = DragMode::Idle;
        self.drag_start_pos = Option::None;
        was_dragging
    }
}

} // verus!
