//! The print rasterizer: compose a layout onto a full-page pixel canvas
//! at a target DPI.
//!
//! Millimeter-to-dot conversion rounds half up, and the one policy is
//! applied to the page size, the image positions and the image sizes
//! alike. Landscape orientation is already expressed by the page's
//! swapped width and height; no page-level rotation is applied here, and
//! nothing below reads the orientation flag.

use vstd::prelude::*;
use crate::bitmap::{
    alpha_scaled_spec, bucket_rotated_grid, bytes_grid, decode_image, dyn_grid, flat_of_grid,
    fliph, flipped_grid, flipv, grid_height, grid_wf, grid_width, is_rgba8,
    lemma_transform_grids_wf, new_white_canvas, overlaid_grid, overlay_at, resize_exact,
    resized_of, rgba_from_bytes, rotate180, rotate270, rotate90, scale_alpha, to_rgba_bytes,
    white_grid, Rgba8,
};
use crate::geometry::{mm_to_px_print, mm_to_px_print_spec};
use crate::layout::{Layout, PlacedImage};
use crate::printing::PrintError;

verus! {

/// The target rectangle of a placed image on the page raster, in whole
/// dots: (x, y, width, height). Position and size follow the one
/// rounding policy; negative positions clamp to dot zero, and the target
/// size is at least one dot on each side.
pub open spec fn image_target_rect_spec(img: PlacedImage, dpi: int) -> (int, int, int, int) {
    let w = mm_to_px_print_spec(img.width_um as int, dpi);
    let h = mm_to_px_print_spec(img.height_um as int, dpi);
    (
        mm_to_px_print_spec(img.x_um as int, dpi),
        mm_to_px_print_spec(img.y_um as int, dpi),
        if w < 1 {
            1int
        } else {
            w
        },
        if h < 1 {
            1int
        } else {
            h
        },
    )
}

/// Whether the dot at (row, col) lies inside the rectangle
/// (x, y, width, height).
pub open spec fn in_rect_spec(rect: (int, int, int, int), row: int, col: int) -> bool {
    rect.1 <= row < rect.1 + rect.3 && rect.0 <= col < rect.0 + rect.2
}

/// Compute a placed image's target rectangle on the page raster.
pub fn image_target_rect(img: &PlacedImage, dpi: u32) -> (r: (u32, u32, u32, u32))
    requires
        img.wf(),
        0 < dpi <= 6000,
    ensures
        r.0 == image_target_rect_spec(*img, dpi as int).0,
        r.1 == image_target_rect_spec(*img, dpi as int).1,
        r.2 == image_target_rect_spec(*img, dpi as int).2,
        r.3 == image_target_rect_spec(*img, dpi as int).3,
        r.2 >= 1,
        r.3 >= 1,
{
    let x: u32 = mm_to_px_print(img.x_um, dpi);
    let y: u32 = mm_to_px_print(img.y_um, dpi);
    let w: u32 = mm_to_px_print(img.width_um, dpi);
    let h: u32 = mm_to_px_print(img.height_um, dpi);
    (x, y, if w < 1 { 1 } else { w }, if h < 1 { 1 } else { h })
}

/// What a placed image paints: its decoded source after the quarter-turn
/// bucket and the flips (held by the intermediate image value `mid`),
/// resampled to the target rectangle, with every alpha scaled by the
/// opacity.
pub open spec fn composited_top_grid(
    mid: image::DynamicImage,
    img: PlacedImage,
    dpi: int,
) -> Seq<Seq<Rgba8>> {
    let rect = image_target_rect_spec(img, dpi);
    bytes_grid(
        alpha_scaled_spec(
            flat_of_grid(resized_of(mid, rect.2 as u32, rect.3 as u32)),
            img.opacity_pm as int,
        ),
        rect.2,
        rect.3,
    )
}

/// One step of the compositing fold: what the canvas becomes for one
/// placed image, given its decode outcome. An unreadable source, or a
/// target rectangle whose raster cannot fit in memory, leaves the canvas
/// untouched; otherwise the rotated, flipped, resampled and
/// opacity-scaled source is alpha-blended over the canvas at the target
/// rectangle, clipped to the page.
pub open spec fn composite_step_rel(
    before: Seq<Seq<Rgba8>>,
    after: Seq<Seq<Rgba8>>,
    img: PlacedImage,
    dpi: int,
    source: Option<image::DynamicImage>,
) -> bool {
    match source {
        Option::None => after == before,
        Option::Some(src) => {
            let rect = image_target_rect_spec(img, dpi);
            if rect.2 * rect.3 > usize::MAX as int / 4 {
                after == before
            } else {
                exists|mid: image::DynamicImage|
                    {
                        &&& #[trigger] dyn_grid(mid) == flipped_grid(
                            bucket_rotated_grid(dyn_grid(src), img.rotation_mdeg as int),
                            img.flip_horizontal,
                            img.flip_vertical,
                        )
                        &&& after == overlaid_grid(
                            before,
                            composited_top_grid(mid, img, dpi),
                            rect.0,
                            rect.1,
                        )
                    }
            }
        },
    }
}

/// A full render, witnessed step by step: some sequence of decode
/// outcomes, one per placed image in paint order, takes the opaque white
/// page through one compositing step per image to the output grid.
pub open spec fn render_trace_spec(
    layout: Layout,
    dpi: int,
    sources: Seq<Option<image::DynamicImage>>,
    stages: Seq<Seq<Seq<Rgba8>>>,
    out: Seq<Seq<Rgba8>>,
) -> bool {
    &&& sources.len() == layout.images@.len()
    &&& stages.len() == layout.images@.len() + 1
    &&& stages[0] == white_grid(
        mm_to_px_print_spec(layout.page.width_um as int, dpi),
        mm_to_px_print_spec(layout.page.height_um as int, dpi),
    )
    &&& (forall|j: int|
        0 <= j < sources.len() ==> composite_step_rel(
            #[trigger] stages[j],
            stages[j + 1],
            layout.images@[j],
            dpi,
            sources[j],
        ))
    &&& out == stages[stages.len() - 1]
}

/// Composite one placed image's decoded source onto the page canvas:
/// rotation snapped to its quarter-turn bucket, flips, high-quality
/// resize to the target rectangle, per-pixel opacity, then alpha
/// blending at the rectangle's position. The canvas keeps its
/// dimensions, only dots inside the target rectangle change, and an
/// image whose target raster cannot fit in memory is skipped.
pub fn composite_image(
    canvas: &mut image::DynamicImage,
    source: &image::DynamicImage,
    img: &PlacedImage,
    dpi: u32,
) -> (painted: bool)
    requires
        img.wf(),
        0 < dpi <= 6000,
        grid_wf(dyn_grid(*old(canvas))),
        is_rgba8(*old(canvas)),
        grid_wf(dyn_grid(*source)),
        grid_height(dyn_grid(*source)) <= u32::MAX,
        grid_width(dyn_grid(*source)) <= u32::MAX,
    ensures
        grid_wf(dyn_grid(*final(canvas))),
        is_rgba8(*final(canvas)),
        grid_height(dyn_grid(*final(canvas))) == grid_height(dyn_grid(*old(canvas))),
        grid_width(dyn_grid(*final(canvas))) == grid_width(dyn_grid(*old(canvas))),
        composite_step_rel(
            dyn_grid(*old(canvas)),
            dyn_grid(*final(canvas)),
            *img,
            dpi as int,
            Option::Some(*source),
        ),
        painted == (image_target_rect_spec(*img, dpi as int).2 * image_target_rect_spec(
            *img,
            dpi as int,
        ).3 <= usize::MAX as int / 4),
        forall|row: int, col: int|
            0 <= row < grid_height(dyn_grid(*old(canvas))) && 0 <= col < grid_width(
                dyn_grid(*old(canvas)),
            ) && !in_rect_spec(image_target_rect_spec(*img, dpi as int), row, col)
                ==> #[trigger] dyn_grid(*final(canvas))[row][col] == dyn_grid(
                *old(canvas),
            )[row][col],
{
    let (x_px, y_px, w_px, h_px) = image_target_rect(img, dpi);
    proof {
        assert((w_px as u64) * (h_px as u64) <= u64::MAX) by (nonlinear_arith)
            requires
                w_px <= u32::MAX,
                h_px <= u32::MAX,
        ;
    }
    if (w_px as u64) * (h_px as u64) > (usize::MAX as u64) / 4 {
        // The target raster cannot fit in memory: skip this image.
        return false;
    }
    proof {
        assert(4 * (w_px as int) * (h_px as int) <= usize::MAX) by (nonlinear_arith)
            requires
                (w_px as u64) * (h_px as u64) <= (usize::MAX as u64) / 4,
                w_px >= 0,
                h_px >= 0,
        ;
    }
    let rotated: image::DynamicImage = if img.rotation_mdeg >= 85000 && img.rotation_mdeg <= 95000 {
        rotate90(source)
    } else if img.rotation_mdeg >= 175000 && img.rotation_mdeg <= 185000 {
        rotate180(source)
    } else if img.rotation_mdeg >= 265000 && img.rotation_mdeg <= 275000 {
        rotate270(source)
    } else {
        crate::bitmap::clone_image(source)
    };
    proof {
        lemma_transform_grids_wf(dyn_grid(*source));
        lemma_transform_grids_wf(dyn_grid(rotated));
        assert(dyn_grid(rotated) == bucket_rotated_grid(dyn_grid(*source), img.rotation_mdeg as int));
    }
    let flipped: image::DynamicImage = if img.flip_horizontal && img.flip_vertical {
        let f = fliph(&rotated);
        proof {
            lemma_transform_grids_wf(dyn_grid(f));
        }
        flipv(&f)
    } else if img.flip_horizontal {
        fliph(&rotated)
    } else if img.flip_vertical {
        flipv(&rotated)
    } else {
        rotated
    };
    let resized = resize_exact(&flipped, w_px, h_px);
    proof {
        let g = dyn_grid(resized);
        assert(4 * grid_height(g) * grid_width(g) == 4 * (w_px as int) * (h_px as int))
            by (nonlinear_arith)
            requires
                h_px == grid_height(g),
                w_px == grid_width(g),
        ;
    }
    let bytes = to_rgba_bytes(&resized);
    let scaled = scale_alpha(bytes, img.opacity_pm);
    match rgba_from_bytes(w_px, h_px, scaled) {
        Option::None => {
            proof {
                assert(false);
            }
            false
        },
        Option::Some(top) => {
            proof {
                let ghost rect = image_target_rect_spec(*img, dpi as int);
                assert(rect.2 as u32 == w_px && rect.3 as u32 == h_px);
                assert(dyn_grid(top) == composited_top_grid(flipped, *img, dpi as int));
            }
            overlay_at(canvas, &top, x_px, y_px);
            proof {
                let rect = image_target_rect_spec(*img, dpi as int);
                let top_grid = composited_top_grid(flipped, *img, dpi as int);
                assert(grid_height(top_grid) == rect.3);
                assert(grid_width(top_grid) == rect.2);
                assert(dyn_grid(flipped) == flipped_grid(
                    bucket_rotated_grid(dyn_grid(*source), img.rotation_mdeg as int),
                    img.flip_horizontal,
                    img.flip_vertical,
                ));
                assert(composite_step_rel(
                    dyn_grid(*old(canvas)),
                    dyn_grid(*canvas),
                    *img,
                    dpi as int,
                    Option::Some(*source),
                ));
                assert forall|row: int, col: int|
                    0 <= row < grid_height(dyn_grid(*old(canvas))) && 0 <= col < grid_width(
                        dyn_grid(*old(canvas)),
                    ) && !in_rect_spec(rect, row, col) implies #[trigger] dyn_grid(
                    *canvas,
                )[row][col] == dyn_grid(*old(canvas))[row][col] by {
                    assert(dyn_grid(*canvas)[row][col] == overlaid_grid(
                        dyn_grid(*old(canvas)),
                        top_grid,
                        rect.0,
                        rect.1,
                    )[row][col]);
                }
            }
            true
        },
    }
}

/// Render the layout onto an opaque white page canvas at the given DPI,
/// compositing the images in ascending z-order, each by one
/// `composite_step_rel` step on its decode outcome. An image whose
/// source cannot be read or decoded is skipped and never fails the job,
/// so the render always succeeds; dots outside every image's target
/// rectangle stay opaque white. Nothing here reads the page's
/// orientation flag: landscape is already expressed by the swapped
/// width and height.
pub fn render_layout_to_image(layout: &Layout, dpi: u32) -> (r: Result<
    image::DynamicImage,
    PrintError,
>)
    requires
        layout.wf(),
        0 < dpi <= 6000,
        4 * mm_to_px_print_spec(layout.page.width_um as int, dpi as int) * mm_to_px_print_spec(
            layout.page.height_um as int,
            dpi as int,
        ) <= usize::MAX,
    ensures
        r is Ok,
        r matches Ok(img) ==> {
            &&& grid_wf(dyn_grid(img))
            &&& grid_height(dyn_grid(img)) == mm_to_px_print_spec(
                layout.page.height_um as int,
                dpi as int,
            )
            &&& grid_height(dyn_grid(img)) > 0 ==> grid_width(dyn_grid(img)) == mm_to_px_print_spec(
                layout.page.width_um as int,
                dpi as int,
            )
            &&& (exists|sources: Seq<Option<image::DynamicImage>>, stages: Seq<Seq<Seq<Rgba8>>>|
                render_trace_spec(*layout, dpi as int, sources, stages, dyn_grid(img)))
            &&& (forall|row: int, col: int|
                0 <= row < grid_height(dyn_grid(img)) && 0 <= col < grid_width(dyn_grid(img)) && (
                forall|k: int|
                    0 <= k < layout.images@.len() ==> !in_rect_spec(
                        image_target_rect_spec(#[trigger] layout.images@[k], dpi as int),
                        row,
                        col,
                    )) ==> #[trigger] dyn_grid(img)[row][col] == (255u8, 255u8, 255u8, 255u8))
        },
{
    let (width_px, height_px) = layout.page.to_pixels(dpi);
    let mut canvas = new_white_canvas(width_px, height_px);
    let ghost mut sources_g: Seq<Option<image::DynamicImage>> = Seq::empty();
    let ghost mut stages_g: Seq<Seq<Seq<Rgba8>>> = seq![dyn_grid(canvas)];
    let n: usize = layout.images.len();
    let mut i: usize = 0;
    while i < n
        invariant
            0 <= i <= n,
            n == layout.images@.len(),
            layout.wf(),
            0 < dpi <= 6000,
            grid_wf(dyn_grid(canvas)),
            is_rgba8(canvas),
            grid_height(dyn_grid(canvas)) == height_px,
            height_px > 0 ==> grid_width(dyn_grid(canvas)) == width_px,
            height_px == mm_to_px_print_spec(layout.page.height_um as int, dpi as int),
            width_px == mm_to_px_print_spec(layout.page.width_um as int, dpi as int),
            sources_g.len() == i,
            stages_g.len() == i + 1,
            stages_g[0] == white_grid(width_px as int, height_px as int),
            forall|j: int|
                0 <= j < i ==> composite_step_rel(
                    #[trigger] stages_g[j],
                    stages_g[j + 1],
                    layout.images@[j],
                    dpi as int,
                    sources_g[j],
                ),
            stages_g[stages_g.len() - 1] == dyn_grid(canvas),
            forall|row: int, col: int|
                0 <= row < grid_height(dyn_grid(canvas)) && 0 <= col < grid_width(dyn_grid(canvas))
                    && (forall|k: int|
                    0 <= k < n ==> !in_rect_spec(
                        image_target_rect_spec(#[trigger] layout.images@[k], dpi as int),
                        row,
                        col,
                    )) ==> #[trigger] dyn_grid(canvas)[row][col] == (255u8, 255u8, 255u8, 255u8),
        decreases n - i,
    {
        let img = &layout.images[i];
        let ghost before = dyn_grid(canvas);
        match decode_image(&img.path) {
            Result::Err(_) => {
                // A broken source never fails the whole job: this image
                // is omitted and the canvas is unchanged.
                proof {
                    sources_g = sources_g.push(Option::None);
                    stages_g = stages_g.push(dyn_grid(canvas));
                }
            },
            Result::Ok(source) => {
                let _painted = composite_image(&mut canvas, &source, img, dpi);
                proof {
                    sources_g = sources_g.push(Option::Some(source));
                    stages_g = stages_g.push(dyn_grid(canvas));
                    assert forall|row: int, col: int|
                        0 <= row < grid_height(dyn_grid(canvas)) && 0 <= col < grid_width(
                            dyn_grid(canvas),
                        ) && (forall|k: int|
                            0 <= k < n ==> !in_rect_spec(
                                image_target_rect_spec(#[trigger] layout.images@[k], dpi as int),
                                row,
                                col,
                            )) implies #[trigger] dyn_grid(canvas)[row][col] == (
                        255u8,
                        255u8,
                        255u8,
                        255u8,
                    ) by {
                        assert(!in_rect_spec(
                            image_target_rect_spec(layout.images@[i as int], dpi as int),
                            row,
                            col,
                        ));
                        assert(dyn_grid(canvas)[row][col] == before[row][col]);
                        assert(before[row][col] == (255u8, 255u8, 255u8, 255u8));
                    }
                }
            },
        }
        i = i + 1;
    }
    proof {
        assert(render_trace_spec(*layout, dpi as int, sources_g, stages_g, dyn_grid(canvas)));
    }
    Result::Ok(canvas)
}

} // verus!
