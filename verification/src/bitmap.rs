//! Pixel-level transforms over decoded images.
//!
//! Decoded images are values of `image::DynamicImage`, opaque to the
//! verifier; what such a value holds is modelled by the uninterpreted
//! `dyn_grid`: the image's pixels as rows of RGBA tuples, top to bottom
//! and left to right. The trusted wrappers below state, against that
//! model, exactly what each call of the outside crate does; the alpha
//! scaling itself is performed here, verified, on the raw bytes.

use vstd::prelude::*;

verus! {

#[verifier::external_type_specification]
#[verifier::external_body]
pub struct ExDynamicImage(image::DynamicImage);

/// One RGBA pixel: red, green, blue, alpha.
pub type Rgba8 = (u8, u8, u8, u8);

/// The pixels of a decoded image, as RGBA, row by row from the top, each
/// row left to right.
pub uninterp spec fn dyn_grid(img: image::DynamicImage) -> Seq<Seq<Rgba8>>;

/// The height of a pixel grid: its number of rows.
pub open spec fn grid_height(g: Seq<Seq<Rgba8>>) -> int {
    g.len() as int
}

/// The width of a pixel grid: the length of its first row, or zero when
/// it has no rows.
pub open spec fn grid_width(g: Seq<Seq<Rgba8>>) -> int {
    if g.len() == 0 {
        0
    } else {
        g[0].len() as int
    }
}

/// A rectangular grid: every row has the same length.
pub open spec fn grid_wf(g: Seq<Seq<Rgba8>>) -> bool {
    forall|r: int| 0 <= r < g.len() ==> (#[trigger] g[r]).len() == grid_width(g)
}

/// `g` turned a quarter turn clockwise.
pub open spec fn rot90_grid(g: Seq<Seq<Rgba8>>) -> Seq<Seq<Rgba8>> {
    Seq::new(
        grid_width(g) as nat,
        |r: int| Seq::new(grid_height(g) as nat, |c: int| g[grid_height(g) - 1 - c][r]),
    )
}

/// `g` turned a half turn.
pub open spec fn rot180_grid(g: Seq<Seq<Rgba8>>) -> Seq<Seq<Rgba8>> {
    Seq::new(
        grid_height(g) as nat,
        |r: int| Seq::new(grid_width(g) as nat, |c: int| g[grid_height(g) - 1 - r][grid_width(g) - 1 - c]),
    )
}

/// `g` turned a quarter turn counter-clockwise.
pub open spec fn rot270_grid(g: Seq<Seq<Rgba8>>) -> Seq<Seq<Rgba8>> {
    Seq::new(
        grid_width(g) as nat,
        |r: int| Seq::new(grid_height(g) as nat, |c: int| g[c][grid_width(g) - 1 - r]),
    )
}

/// `g` mirrored left-to-right.
pub open spec fn fliph_grid(g: Seq<Seq<Rgba8>>) -> Seq<Seq<Rgba8>> {
    Seq::new(
        grid_height(g) as nat,
        |r: int| Seq::new(grid_width(g) as nat, |c: int| g[r][grid_width(g) - 1 - c]),
    )
}

/// `g` mirrored top-to-bottom.
pub open spec fn flipv_grid(g: Seq<Seq<Rgba8>>) -> Seq<Seq<Rgba8>> {
    Seq::new(
        grid_height(g) as nat,
        |r: int| Seq::new(grid_width(g) as nat, |c: int| g[grid_height(g) - 1 - r][c]),
    )
}

/// One channel of a pixel: 0 = red, 1 = green, 2 = blue, otherwise alpha.
pub open spec fn px_channel(p: Rgba8, ch: int) -> u8 {
    if ch == 0 {
        p.0
    } else if ch == 1 {
        p.1
    } else if ch == 2 {
        p.2
    } else {
        p.3
    }
}

/// The raw RGBA bytes of a grid, row-major, four bytes per pixel.
pub open spec fn flat_of_grid(g: Seq<Seq<Rgba8>>) -> Seq<u8> {
    Seq::new(
        (4 * grid_height(g) * grid_width(g)) as nat,
        |i: int| px_channel(g[i / (4 * grid_width(g))][(i % (4 * grid_width(g))) / 4], i % 4),
    )
}

/// The grid of the given dimensions read out of raw RGBA bytes,
/// row-major, four bytes per pixel.
pub open spec fn bytes_grid(b: Seq<u8>, w: int, h: int) -> Seq<Seq<Rgba8>> {
    Seq::new(
        h as nat,
        |r: int| Seq::new(
            w as nat,
            |c: int| (
                b[4 * (r * w + c)],
                b[4 * (r * w + c) + 1],
                b[4 * (r * w + c) + 2],
                b[4 * (r * w + c) + 3],
            ),
        ),
    )
}

/// `b` with every fourth byte (the alpha channel) scaled by the opacity
/// factor in thousandths, truncated; the color bytes are untouched.
pub open spec fn alpha_scaled_spec(b: Seq<u8>, opacity_pm: int) -> Seq<u8> {
    Seq::new(
        b.len(),
        |i: int| if i % 4 == 3 {
            ((b[i] * opacity_pm) / 1000) as u8
        } else {
            b[i]
        },
    )
}

/// What one pixel painted over another yields under alpha blending, as
/// `image::imageops::overlay` computes it. The result is a function of
/// the two pixels alone.
pub uninterp spec fn blended(bottom: Rgba8, top: Rgba8) -> Rgba8;

/// `bottom` with `top` painted over it with its top-left corner at column
/// `x`, row `y`; pixels outside `bottom` are clipped away.
pub open spec fn overlaid_grid(
    bottom: Seq<Seq<Rgba8>>,
    top: Seq<Seq<Rgba8>>,
    x: int,
    y: int,
) -> Seq<Seq<Rgba8>> {
    Seq::new(
        grid_height(bottom) as nat,
        |r: int| Seq::new(
            grid_width(bottom) as nat,
            |c: int| if y <= r < y + grid_height(top) && x <= c < x + grid_width(top) {
                blended(bottom[r][c], top[r - y][c - x])
            } else {
                bottom[r][c]
            },
        ),
    )
}

/// What `image::imageops::resize` produces for the given source image
/// and target dimensions with the Lanczos filter, as RGBA pixels: a
/// resampling too long to state, but a function of its arguments alone.
pub uninterp spec fn resized_of(img: image::DynamicImage, w: u32, h: u32) -> Seq<Seq<Rgba8>>;

/// Whether a decoded image is stored as eight-bit RGBA. Only such an
/// image takes blended pixels back without loss when painted on.
pub uninterp spec fn is_rgba8(img: image::DynamicImage) -> bool;

/// An opaque white grid of the given dimensions.
pub open spec fn white_grid(w: int, h: int) -> Seq<Seq<Rgba8>> {
    Seq::new(h as nat, |r: int| Seq::new(w as nat, |c: int| (255u8, 255u8, 255u8, 255u8)))
}

/// Relies on `image::ImageReader`: `open` reads the file at `path`,
/// `with_guessed_format` sniffs the container, and `decode` yields the
/// pixels. What comes back depends on the disk, so nothing is promised
/// of the pixels beyond the shape every decoded image has: rectangular,
/// dimensions stored in 32 bits, and -- by the reader's default
/// allocation limit of half a gibibyte, at no less than one byte per
/// pixel -- small enough that four bytes per pixel still fit in memory.
/// Any failure is returned as its message.
#[verifier::external_body]
pub fn decode_image(path: &String) -> (r: Result<image::DynamicImage, String>)
    ensures
        r matches Ok(img) ==> {
            &&& grid_wf(dyn_grid(img))
            &&& grid_height(dyn_grid(img)) <= u32::MAX
            &&& grid_width(dyn_grid(img)) <= u32::MAX
            &&& 4 * grid_height(dyn_grid(img)) * grid_width(dyn_grid(img)) <= 0x8000_0000
        },
{
    let reader = image::ImageReader::open(path.as_str())
        .map_err(|e| format!("Cannot open image: {}", e))?
        .with_guessed_format()
        .map_err(|e| format!("Cannot detect format: {}", e))?;
    reader.decode().map_err(|e| format!("Cannot decode image: {}", e))
}

/// Relies on `image::DynamicImage::clone`: the copy holds the same
/// pixels.
#[verifier::external_body]
pub fn clone_image(img: &image::DynamicImage) -> (r: image::DynamicImage)
    ensures
        dyn_grid(r) == dyn_grid(*img),
{
    img.clone()
}

/// Relies on `image::DynamicImage::width` and `height`: the stored
/// dimensions, which match the pixel grid.
#[verifier::external_body]
pub fn dyn_dimensions(img: &image::DynamicImage) -> (r: (u32, u32))
    requires
        grid_wf(dyn_grid(*img)),
        grid_height(dyn_grid(*img)) <= u32::MAX,
        grid_width(dyn_grid(*img)) <= u32::MAX,
    ensures
        r.1 == grid_height(dyn_grid(*img)),
        r.1 > 0 ==> r.0 == grid_width(dyn_grid(*img)),
{
    (img.width(), img.height())
}

/// Relies on `image::DynamicImage::rotate90` (through
/// `imageops::rotate90`): the pixel at source row `y`, column `x` moves
/// to row `x`, column `height - 1 - y` of a grid with the dimensions
/// swapped.
#[verifier::external_body]
pub fn rotate90(img: &image::DynamicImage) -> (r: image::DynamicImage)
    requires
        grid_wf(dyn_grid(*img)),
    ensures
        dyn_grid(r) == rot90_grid(dyn_grid(*img)),
{
    img.rotate90()
}

/// Relies on `image::DynamicImage::rotate180` (through
/// `imageops::rotate180`): every pixel moves to the mirrored position on
/// both axes; the dimensions are kept.
#[verifier::external_body]
pub fn rotate180(img: &image::DynamicImage) -> (r: image::DynamicImage)
    requires
        grid_wf(dyn_grid(*img)),
    ensures
        dyn_grid(r) == rot180_grid(dyn_grid(*img)),
{
    img.rotate180()
}

/// Relies on `image::DynamicImage::rotate270` (through
/// `imageops::rotate270`): the pixel at source row `y`, column `x` moves
/// to row `width - 1 - x`, column `y` of a grid with the dimensions
/// swapped.
#[verifier::external_body]
pub fn rotate270(img: &image::DynamicImage) -> (r: image::DynamicImage)
    requires
        grid_wf(dyn_grid(*img)),
    ensures
        dyn_grid(r) == rot270_grid(dyn_grid(*img)),
{
    img.rotate270()
}

/// Relies on `image::DynamicImage::fliph` (through
/// `imageops::flip_horizontal`): each row is reversed.
#[verifier::external_body]
pub fn fliph(img: &image::DynamicImage) -> (r: image::DynamicImage)
    requires
        grid_wf(dyn_grid(*img)),
    ensures
        dyn_grid(r) == fliph_grid(dyn_grid(*img)),
{
    img.fliph()
}

/// Relies on `image::DynamicImage::flipv` (through
/// `imageops::flip_vertical`): the order of the rows is reversed.
#[verifier::external_body]
pub fn flipv(img: &image::DynamicImage) -> (r: image::DynamicImage)
    requires
        grid_wf(dyn_grid(*img)),
    ensures
        dyn_grid(r) == flipv_grid(dyn_grid(*img)),
{
    img.flipv()
}

/// Relies on `image::DynamicImage::resize_exact` with the Lanczos
/// filter: a new image of exactly the requested dimensions, resampled
/// from the source pixels alone; the aspect ratio is not preserved. The
/// target buffer must fit in memory.
#[verifier::external_body]
pub fn resize_exact(img: &image::DynamicImage, w: u32, h: u32) -> (r: image::DynamicImage)
    requires
        grid_wf(dyn_grid(*img)),
        w > 0,
        h > 0,
        4 * (w as int) * (h as int) <= usize::MAX,
    ensures
        dyn_grid(r) == resized_of(*img, w, h),
        grid_wf(dyn_grid(r)),
        grid_height(dyn_grid(r)) == h,
        grid_width(dyn_grid(r)) == w,
{
    img.resize_exact(w, h, image::imageops::FilterType::Lanczos3)
}

/// Relies on `image::DynamicImage::to_rgba8` and
/// `image::ImageBuffer::into_raw`: the pixels converted to RGBA and laid
/// out row-major, four bytes per pixel. The converted buffer must fit in
/// memory.
#[verifier::external_body]
pub fn to_rgba_bytes(img: &image::DynamicImage) -> (r: Vec<u8>)
    requires
        grid_wf(dyn_grid(*img)),
        4 * grid_height(dyn_grid(*img)) * grid_width(dyn_grid(*img)) <= usize::MAX,
    ensures
        r@ == flat_of_grid(dyn_grid(*img)),
        r@.len() == 4 * grid_height(dyn_grid(*img)) * grid_width(dyn_grid(*img)),
{
    img.to_rgba8().into_raw()
}

/// Relies on `image::ImageBuffer::from_raw`: a buffer holding exactly
/// four bytes per pixel becomes an RGBA image of the given dimensions
/// over those bytes, row-major.
#[verifier::external_body]
pub fn rgba_from_bytes(w: u32, h: u32, bytes: Vec<u8>) -> (r: Option<image::DynamicImage>)
    ensures
        bytes@.len() == 4 * (w as int) * (h as int) ==> r is Some,
        r matches Some(img) ==> {
            &&& dyn_grid(img) == bytes_grid(bytes@, w as int, h as int)
            &&& is_rgba8(img)
            &&& grid_wf(dyn_grid(img))
            &&& grid_height(dyn_grid(img)) == h
            &&& h > 0 ==> grid_width(dyn_grid(img)) == w
        },
{
    let buffer: image::RgbaImage = image::ImageBuffer::from_raw(w, h, bytes)?;
    Some(image::DynamicImage::ImageRgba8(buffer))
}

/// Relies on `image::ImageBuffer::from_pixel`: an opaque white canvas of
/// the given dimensions.
#[verifier::external_body]
pub fn new_white_canvas(w: u32, h: u32) -> (r: image::DynamicImage)
    requires
        4 * (w as int) * (h as int) <= usize::MAX,
    ensures
        dyn_grid(r) == white_grid(w as int, h as int),
        grid_wf(dyn_grid(r)),
        is_rgba8(r),
        grid_height(dyn_grid(r)) == h,
        h > 0 ==> grid_width(dyn_grid(r)) == w,
{
    let buffer: image::RgbaImage = image::ImageBuffer::from_pixel(
        w,
        h,
        image::Rgba([255, 255, 255, 255]),
    );
    image::DynamicImage::ImageRgba8(buffer)
}

/// Relies on `image::imageops::overlay`: `top` is alpha-blended onto
/// `bottom` with its corner at (x, y), clipped to `bottom`; the
/// dimensions of `bottom` are kept and pixels outside the covered
/// rectangle are untouched. The bottom image must be stored as RGBA so
/// the blended pixels are written back without loss.
#[verifier::external_body]
pub fn overlay_at(bottom: &mut image::DynamicImage, top: &image::DynamicImage, x: u32, y: u32)
    requires
        grid_wf(dyn_grid(*old(bottom))),
        is_rgba8(*old(bottom)),
        grid_wf(dyn_grid(*top)),
    ensures
        is_rgba8(*final(bottom)),
        dyn_grid(*final(bottom)) == overlaid_grid(
            dyn_grid(*old(bottom)),
            dyn_grid(*top),
            x as int,
            y as int,
        ),
        forall|r: int, c: int|
            y <= r < y + grid_height(dyn_grid(*top)) && x <= c < x + grid_width(dyn_grid(*top))
                && 0 <= r < grid_height(dyn_grid(*old(bottom))) && 0 <= c < grid_width(
                dyn_grid(*old(bottom)),
            ) ==> #[trigger] dyn_grid(*final(bottom))[r][c] == blended(
                dyn_grid(*old(bottom))[r][c],
                dyn_grid(*top)[r - y][c - x],
            ),
{
    image::imageops::overlay(bottom, top, x as i64, y as i64);
}

/// Scale every alpha byte (each fourth byte) by the opacity factor in
/// thousandths, truncating; color bytes are untouched.
pub fn scale_alpha(bytes: Vec<u8>, opacity_pm: u32) -> (r: Vec<u8>)
    requires
        opacity_pm <= 1000,
    ensures
        r@ == alpha_scaled_spec(bytes@, opacity_pm as int),
{
    let mut bytes = bytes;
    let n: usize = bytes.len();
    let ghost orig = bytes@;
    let mut i: usize = 0;
    while i < n
        invariant
            0 <= i <= n,
            n == bytes@.len(),
            n == orig.len(),
            opacity_pm <= 1000,
            forall|j: int| 0 <= j < i ==> bytes@[j] == alpha_scaled_spec(orig, opacity_pm as int)[j],
            forall|j: int| i <= j < n ==> bytes@[j] == orig[j],
        decreases n - i,
    {
        if i % 4 == 3 {
            let a: u32 = bytes[i] as u32;
            assert(a * opacity_pm <= 255000) by (nonlinear_arith)
                requires
                    a <= 255,
                    opacity_pm <= 1000,
            ;
            bytes[i] = ((a * opacity_pm) / 1000) as u8;
        }
        i = i + 1;
    }
    proof {
        assert(bytes@ =~= alpha_scaled_spec(orig, opacity_pm as int));
    }
    bytes
}

/// The rotation bucket a free angle snaps to: angles within five degrees
/// of a quarter-turn multiple snap to it, all others to no rotation.
/// The angle is in millidegrees, normalized to one turn; the result is
/// one of 0, 90, 180, 270 (degrees).
pub open spec fn rotation_bucket_spec(rotation_mdeg: int) -> int {
    if 85000 <= rotation_mdeg <= 95000 {
        90
    } else if 175000 <= rotation_mdeg <= 185000 {
        180
    } else if 265000 <= rotation_mdeg <= 275000 {
        270
    } else {
        0
    }
}

/// The grid after snapping the rotation to its bucket and turning.
pub open spec fn bucket_rotated_grid(g: Seq<Seq<Rgba8>>, rotation_mdeg: int) -> Seq<Seq<Rgba8>> {
    let bucket = rotation_bucket_spec(rotation_mdeg);
    if bucket == 90 {
        rot90_grid(g)
    } else if bucket == 180 {
        rot180_grid(g)
    } else if bucket == 270 {
        rot270_grid(g)
    } else {
        g
    }
}

/// The grid after applying the horizontal and/or vertical flips.
pub open spec fn flipped_grid(g: Seq<Seq<Rgba8>>, flip_h: bool, flip_v: bool) -> Seq<Seq<Rgba8>> {
    let g1 = if flip_h {
        fliph_grid(g)
    } else {
        g
    };
    if flip_v {
        flipv_grid(g1)
    } else {
        g1
    }
}

/// The full per-image transform of the rendering pipeline: rotation
/// snapped to its bucket, then flips, then per-pixel alpha scaling by
/// the opacity.
pub open spec fn transformed_grid(
    g: Seq<Seq<Rgba8>>,
    rotation_mdeg: int,
    flip_h: bool,
    flip_v: bool,
    opacity_pm: int,
) -> Seq<Seq<Rgba8>> {
    let g1 = flipped_grid(bucket_rotated_grid(g, rotation_mdeg), flip_h, flip_v);
    bytes_grid(
        alpha_scaled_spec(flat_of_grid(g1), opacity_pm),
        grid_width(g1),
        grid_height(g1),
    )
}

/// Rotation, flips and opacity applied to a decoded image, in that
/// order, as the canvas and the print rasterizer both do.
pub fn transform_image(
    source: &image::DynamicImage,
    rotation_mdeg: i64,
    flip_h: bool,
    flip_v: bool,
    opacity_pm: u32,
) -> (r: image::DynamicImage)
    requires
        grid_wf(dyn_grid(*source)),
        grid_height(dyn_grid(*source)) <= u32::MAX,
        grid_width(dyn_grid(*source)) <= u32::MAX,
        4 * grid_height(dyn_grid(*source)) * grid_width(dyn_grid(*source)) <= 0x8000_0000,
        0 <= rotation_mdeg < 360000,
        opacity_pm <= 1000,
    ensures
        dyn_grid(r) == transformed_grid(
            dyn_grid(*source),
            rotation_mdeg as int,
            flip_h,
            flip_v,
            opacity_pm as int,
        ),
        grid_wf(dyn_grid(r)),
{
    let rotated: image::DynamicImage = if rotation_mdeg >= 85000 && rotation_mdeg <= 95000 {
        rotate90(source)
    } else if rotation_mdeg >= 175000 && rotation_mdeg <= 185000 {
        rotate180(source)
    } else if rotation_mdeg >= 265000 && rotation_mdeg <= 275000 {
        rotate270(source)
    } else {
        clone_image(source)
    };
    proof {
        lemma_transform_grids_wf(dyn_grid(*source));
        assert(dyn_grid(rotated) == bucket_rotated_grid(dyn_grid(*source), rotation_mdeg as int));
    }
    proof {
        lemma_transform_grids_wf(dyn_grid(rotated));
    }
    let flipped: image::DynamicImage = if flip_h && flip_v {
        let f = fliph(&rotated);
        proof {
            lemma_transform_grids_wf(dyn_grid(f));
        }
        flipv(&f)
    } else if flip_h {
        fliph(&rotated)
    } else if flip_v {
        flipv(&rotated)
    } else {
        rotated
    };
    proof {
        lemma_transform_grids_wf(dyn_grid(flipped));
        let g0 = dyn_grid(*source);
        let g1 = dyn_grid(flipped);
        assert(4 * grid_height(g1) * grid_width(g1) <= 0x8000_0000) by (nonlinear_arith)
            requires
                4 * grid_height(g0) * grid_width(g0) <= 0x8000_0000,
                grid_height(g0) >= 0,
                grid_width(g0) >= 0,
                (grid_height(g1) == grid_height(g0) && grid_width(g1) == grid_width(g0))
                    || (grid_height(g1) == grid_width(g0) && grid_width(g1) == grid_height(g0))
                    || (grid_height(g1) == grid_width(g0) && grid_width(g1) == 0)
                    || (grid_height(g1) == grid_height(g0) && grid_width(g1) == 0),
        ;
    }
    let (w, h) = dyn_dimensions(&flipped);
    let bytes = to_rgba_bytes(&flipped);
    let scaled = scale_alpha(bytes, opacity_pm);
    let ghost g1 = dyn_grid(flipped);
    proof {
        assert(4 * grid_height(g1) * grid_width(g1) == 4 * (w as int) * (h as int))
            by (nonlinear_arith)
            requires
                h == grid_height(g1),
                h > 0 ==> w == grid_width(g1),
        ;
    }
    let out = rgba_from_bytes(w, h, scaled);
    match out {
        Option::Some(img) => {
            proof {
                if h == 0 {
                    assert(dyn_grid(img) =~= transformed_grid(
                        dyn_grid(*source),
                        rotation_mdeg as int,
                        flip_h,
                        flip_v,
                        opacity_pm as int,
                    ));
                }
            }
            img
        },
        Option::None => {
            proof {
                assert(false);
            }
            clone_image(source)
        },
    }
}

/// Rotating or flipping a rectangular grid yields a rectangular grid of
/// the expected dimensions, within the same bounds.
pub proof fn lemma_transform_grids_wf(g: Seq<Seq<Rgba8>>)
    requires
        grid_wf(g),
        grid_height(g) <= u32::MAX,
        grid_width(g) <= u32::MAX,
    ensures
        grid_wf(rot90_grid(g)),
        grid_height(rot90_grid(g)) == grid_width(g),
        grid_width(g) > 0 ==> grid_width(rot90_grid(g)) == grid_height(g),
        grid_width(g) == 0 ==> grid_width(rot90_grid(g)) == 0,
        grid_wf(rot180_grid(g)),
        grid_height(rot180_grid(g)) == grid_height(g),
        grid_height(g) > 0 ==> grid_width(rot180_grid(g)) == grid_width(g),
        grid_wf(rot270_grid(g)),
        grid_height(rot270_grid(g)) == grid_width(g),
        grid_width(g) > 0 ==> grid_width(rot270_grid(g)) == grid_height(g),
        grid_width(g) == 0 ==> grid_width(rot270_grid(g)) == 0,
        grid_wf(fliph_grid(g)),
        grid_height(fliph_grid(g)) == grid_height(g),
        grid_height(g) > 0 ==> grid_width(fliph_grid(g)) == grid_width(g),
        grid_height(g) == 0 ==> grid_width(fliph_grid(g)) == 0,
        grid_wf(flipv_grid(g)),
        grid_height(flipv_grid(g)) == grid_height(g),
        grid_height(g) > 0 ==> grid_width(flipv_grid(g)) == grid_width(g),
        grid_height(g) == 0 ==> grid_width(flipv_grid(g)) == 0,
{
}

} // verus!
