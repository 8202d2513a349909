//! Placed images and the layout aggregate.
//!
//! A layout owns one page and an ordered sequence of placed images; the
//! sequence order is the paint order, and every image's `z_index` equals
//! its position in the sequence. An optional selection always refers to
//! an existing image; removing that image clears the selection in the
//! same operation.

use vstd::prelude::*;
use crate::geometry::MAX_COORD_UM;
use crate::paper::{Page, PaperSize};

verus! {

/// Smallest width or height of a placed image, in micrometers (10 mm).
pub const MIN_IMAGE_SIZE_UM: i64 = 10000;

/// Default width of a newly placed image, in micrometers (100 mm).
pub const DEFAULT_IMAGE_WIDTH_UM: i64 = 100000;

/// Default position of a newly placed image, in micrometers (50 mm).
pub const DEFAULT_IMAGE_POS_UM: i64 = 50000;

/// One full turn, in millidegrees.
pub const FULL_TURN_MDEG: i64 = 360000;

/// A quarter turn, in millidegrees.
pub const QUARTER_TURN_MDEG: i64 = 90000;

/// Relies on `uuid::Uuid::new_v4` and its hyphenated rendering through
/// `to_string`: a freshly generated random identifier, 36 characters long.
/// Nothing else can be promised of a random value.
#[verifier::external_body]
fn new_image_id() -> (r: String)
    ensures
        r@.len() == 36,
{
    uuid::Uuid::new_v4().to_string()
}

/// An image instance positioned on the layout. Positions and sizes are in
/// micrometers, the rotation in millidegrees, and the opacity in
/// thousandths (0 = transparent, 1000 = fully opaque).
#[derive(Debug, Clone)]
pub struct PlacedImage {
    /// Opaque identifier, generated once at creation and stable afterwards.
    pub id: String,
    /// Path of the source file; the same file may be placed several times.
    pub path: String,
    pub x_um: i64,
    pub y_um: i64,
    pub width_um: i64,
    pub height_um: i64,
    pub rotation_mdeg: i64,
    /// Dense rank in the paint order, maintained by the layout.
    pub z_index: usize,
    pub original_width_px: u32,
    pub original_height_px: u32,
    pub locked: bool,
    pub flip_horizontal: bool,
    pub flip_vertical: bool,
    pub opacity_pm: u32,
}

/// Whether the axis-aligned, unrotated bounding box of `img` contains the
/// point, edges included. Rotation is deliberately ignored: hit-testing
/// uses the unrotated box even for rotated images.
pub open spec fn contains_point_spec(img: PlacedImage, x_um: int, y_um: int) -> bool {
    &&& img.x_um <= x_um <= img.x_um + img.width_um
    &&& img.y_um <= y_um <= img.y_um + img.height_um
}

/// `img` with its z-index replaced.
pub open spec fn with_z(img: PlacedImage, z: usize) -> PlacedImage {
    PlacedImage { z_index: z, ..img }
}

/// A quarter turn clockwise: width and height swap and the rotation
/// advances by 90 degrees, wrapping at a full turn.
pub open spec fn rotated_cw(img: PlacedImage) -> PlacedImage {
    PlacedImage {
        width_um: img.height_um,
        height_um: img.width_um,
        rotation_mdeg: (((img.rotation_mdeg + QUARTER_TURN_MDEG) as int % (
        FULL_TURN_MDEG as int)) as i64),
        ..img
    }
}

/// A quarter turn counter-clockwise: width and height swap and the
/// rotation advances by 270 degrees, wrapping at a full turn.
pub open spec fn rotated_ccw(img: PlacedImage) -> PlacedImage {
    PlacedImage {
        width_um: img.height_um,
        height_um: img.width_um,
        rotation_mdeg: (((img.rotation_mdeg + 3 * QUARTER_TURN_MDEG) as int % (
        FULL_TURN_MDEG as int)) as i64),
        ..img
    }
}

impl PlacedImage {
    /// Positions stay in the supported coordinate range, sizes are
    /// positive, the rotation is normalized to one turn, and the opacity
    /// stays within its scale.
    pub open spec fn wf(self) -> bool {
        &&& -MAX_COORD_UM <= self.x_um <= MAX_COORD_UM
        &&& -MAX_COORD_UM <= self.y_um <= MAX_COORD_UM
        &&& 0 < self.width_um <= MAX_COORD_UM
        &&& 0 < self.height_um <= MAX_COORD_UM
        &&& 0 <= self.rotation_mdeg < FULL_TURN_MDEG
        &&& self.opacity_pm <= 1000
    }

    /// A new placed image at the default position, 100 mm wide, with the
    /// height following the source's aspect ratio (clamped to the
    /// supported coordinate range and at least one micrometer),
    /// unrotated, unflipped, fully opaque, with a fresh id.
    pub fn new(path: String, original_width_px: u32, original_height_px: u32) -> (r: Self)
        requires
            original_width_px > 0,
            original_height_px > 0,
        ensures
            r.wf(),
            r.id@.len() == 36,
            r.path == path,
            r.x_um == DEFAULT_IMAGE_POS_UM,
            r.y_um == DEFAULT_IMAGE_POS_UM,
            r.width_um == DEFAULT_IMAGE_WIDTH_UM,
            r.height_um == ({
                let q = DEFAULT_IMAGE_WIDTH_UM * original_height_px / (original_width_px as int);
                if q == 0 {
                    1int
                } else if q > MAX_COORD_UM {
                    MAX_COORD_UM as int
                } else {
                    q
                }
            }),
            r.rotation_mdeg == 0,
            r.z_index == 0,
            r.original_width_px == original_width_px,
            r.original_height_px == original_height_px,
            !r.locked,
            !r.flip_horizontal,
            !r.flip_vertical,
            r.opacity_pm == 1000,
    {
        let id = new_image_id();
        let q: i64 = DEFAULT_IMAGE_WIDTH_UM * (original_height_px as i64) / (original_width_px as i64);
        let height_um: i64 = if q == 0 {
            1
        } else if q > MAX_COORD_UM {
            MAX_COORD_UM
        } else {
            q
        };
        PlacedImage {
            id,
            path,
            x_um: DEFAULT_IMAGE_POS_UM,
            y_um: DEFAULT_IMAGE_POS_UM,
            width_um: DEFAULT_IMAGE_WIDTH_UM,
            height_um,
            rotation_mdeg: 0,
            z_index: 0,
            original_width_px,
            original_height_px,
            locked: false,
            flip_horizontal: false,
            flip_vertical: false,
            opacity_pm: 1000,
        }
    }

    /// The effective print resolution in dots per inch (horizontal,
    /// vertical) when the source pixels are spread over the placed size.
    pub fn effective_dpi(&self) -> (r: (i64, i64))
        requires
            self.wf(),
        ensures
            r.0 == (self.original_width_px * 25400) / (self.width_um as int),
            r.1 == (self.original_height_px * 25400) / (self.height_um as int),
    {
        let dpi_x: i64 = ((self.original_width_px as i64) * 25400) / self.width_um;
        let dpi_y: i64 = ((self.original_height_px as i64) * 25400) / self.height_um;
        (dpi_x, dpi_y)
    }

    /// Whether the point lies within this image's unrotated bounding box,
    /// edges included.
    pub fn contains_point(&self, x_um: i64, y_um: i64) -> (r: bool)
        requires
            self.wf(),
        ensures
            r == contains_point_spec(*self, x_um as int, y_um as int),
    {
        x_um >= self.x_um && x_um <= self.x_um + self.width_um && y_um >= self.y_um && y_um
            <= self.y_um + self.height_um
    }

    /// The bounding box in micrometers: (x, y, width, height).
    pub fn bounds(&self) -> (r: (i64, i64, i64, i64))
        ensures
            r == (self.x_um, self.y_um, self.width_um, self.height_um),
    {
        (self.x_um, self.y_um, self.width_um, self.height_um)
    }

    /// Rotate a quarter turn clockwise: the width and height swap and the
    /// rotation advances by 90 degrees, wrapping at a full turn. Nothing
    /// else changes.
    pub fn rotate_cw(&mut self)
        requires
            old(self).wf(),
        ensures
            final(self).wf(),
            *final(self) == rotated_cw(*old(self)),
    {
        let w: i64 = self.width_um;
        self.width_um = self.height_um;
        self.height_um = w;
        let mut r: i64 = self.rotation_mdeg + QUARTER_TURN_MDEG;
        if r >= FULL_TURN_MDEG {
            r = r - FULL_TURN_MDEG;
        }
        self.rotation_mdeg = r;
    }

    /// Rotate a quarter turn counter-clockwise: the width and height swap
    /// and the rotation advances by 270 degrees, wrapping at a full turn.
    pub fn rotate_ccw(&mut self)
        requires
            old(self).wf(),
        ensures
            final(self).wf(),
            *final(self) == rotated_ccw(*old(self)),
    {
        let w: i64 = self.width_um;
        self.width_um = self.height_um;
        self.height_um = w;
        let mut r: i64 = self.rotation_mdeg + 3 * QUARTER_TURN_MDEG;
        if r >= FULL_TURN_MDEG {
            r = r - FULL_TURN_MDEG;
        }
        self.rotation_mdeg = r;
    }

    /// Set the opacity, clamped to its scale of thousandths.
    pub fn set_opacity_pm(&mut self, opacity_pm: u32)
        ensures
            final(self).opacity_pm == if opacity_pm > 1000 { 1000u32 } else { opacity_pm },
            *final(self) == (PlacedImage { opacity_pm: final(self).opacity_pm, ..*old(self) }),
            old(self).wf() ==> final(self).wf(),
    {
        self.opacity_pm = if opacity_pm > 1000 { 1000 } else { opacity_pm };
    }
}

/// Four quarter turns clockwise return an image to its original state.
pub proof fn lemma_rotate_cw_four_times_identity(img: PlacedImage)
    requires
        img.wf(),
    ensures
        rotated_cw(rotated_cw(rotated_cw(rotated_cw(img)))) == img,
{
}

/// Whether some image in `s` carries the identifier `id`.
pub open spec fn has_image_spec(s: Seq<PlacedImage>, id: Seq<char>) -> bool {
    exists|i: int| 0 <= i < s.len() && s[i].id@ == id
}

/// The complete layout: one page, the placed images in paint order, and
/// the optional selection.
#[derive(Debug, Clone)]
pub struct Layout {
    pub page: Page,
    pub images: Vec<PlacedImage>,
    pub selected_image_id: Option<String>,
}

impl Layout {
    /// Every image's `z_index` equals its position in the sequence:
    /// dense, zero-based, matching the paint order.
    pub open spec fn z_dense(self) -> bool {
        forall|i: int| 0 <= i < self.images@.len() ==> #[trigger] self.images@[i].z_index == i
    }

    /// No two images carry the same identifier: the id is unique among
    /// siblings, so an id names at most one image.
    pub open spec fn ids_unique(self) -> bool {
        forall|i: int, j: int|
            0 <= i < j < self.images@.len() ==> (#[trigger] self.images@[i]).id@ != (
            #[trigger] self.images@[j]).id@
    }

    /// The selection, when present, refers to an existing image.
    pub open spec fn selection_valid(self) -> bool {
        match self.selected_image_id {
            Option::None => true,
            Option::Some(id) => has_image_spec(self.images@, id@),
        }
    }

    /// Every placed image is well formed.
    pub open spec fn images_wf(self) -> bool {
        forall|i: int| 0 <= i < self.images@.len() ==> (#[trigger] self.images@[i]).wf()
    }

    pub open spec fn wf(self) -> bool {
        self.page.wf() && self.z_dense() && self.ids_unique() && self.selection_valid()
            && self.images_wf()
    }

    /// A new empty layout with the default page and no selection.
    pub fn new() -> (r: Self)
        ensures
            r.wf(),
            r.images@.len() == 0,
            r.selected_image_id is None,
            r.page.paper_size == PaperSize::A4,
            r.page.width_um == crate::paper::paper_dims_spec(PaperSize::A4).0,
            r.page.height_um == crate::paper::paper_dims_spec(PaperSize::A4).1,
            r.page.margin_top_um == crate::paper::DEFAULT_MARGIN_UM,
            r.page.margin_bottom_um == crate::paper::DEFAULT_MARGIN_UM,
            r.page.margin_left_um == crate::paper::DEFAULT_MARGIN_UM,
            r.page.margin_right_um == crate::paper::DEFAULT_MARGIN_UM,
            r.page.paper_type == crate::paper::PaperType::Plain,
            r.page.print_quality == crate::paper::PrintQuality::Standard,
            r.page.color_mode == crate::paper::ColorMode::UseICCProfile,
            r.page.orientation == crate::paper::Orientation::Portrait,
            !r.page.borderless,
    {
        Layout { page: Page::default(), images: Vec::new(), selected_image_id: Option::None }
    }

    /// Append an image, assigning it the next z-index. The image's
    /// identifier must be fresh, as a newly generated one is. The page
    /// and the selection are untouched.
    pub fn add_image(&mut self, image: PlacedImage)
        requires
            old(self).wf(),
            image.wf(),
            !has_image_spec(old(self).images@, image.id@),
        ensures
            final(self).wf(),
            final(self).images@ == old(self).images@.push(
                with_z(image, old(self).images@.len() as usize),
            ),
            final(self).page == old(self).page,
            final(self).selected_image_id == old(self).selected_image_id,
    {
        let z_index: usize = self.images.len();
        let mut image = image;
        image.z_index = z_index;
        self.images.push(image);
        proof {
            assert forall|i: int| 0 <= i < self.images@.len() implies #[trigger] self.images@[i].z_index
                == i by {
                if i < old(self).images@.len() {
                    assert(self.images@[i] == old(self).images@[i]);
                }
            }
            assert forall|i: int, j: int| 0 <= i < j < self.images@.len() implies (
            #[trigger] self.images@[i]).id@ != (#[trigger] self.images@[j]).id@ by {
                if j < old(self).images@.len() {
                    assert(self.images@[i] == old(self).images@[i]);
                    assert(self.images@[j] == old(self).images@[j]);
                } else {
                    assert(self.images@[i] == old(self).images@[i]);
                    assert(!(0 <= i < old(self).images@.len() && old(self).images@[i].id@
                        == image.id@));
                }
            }
            if old(self).selected_image_id is Some {
                let id = old(self).selected_image_id->0@;
                let w = choose|i: int|
                    0 <= i < old(self).images@.len() && old(self).images@[i].id@ == id;
                assert(self.images@[w].id@ == id);
            }
        }
    }

    /// The position of the first image carrying `id`, scanning in paint
    /// order, or `None` when no image carries it.
    pub fn get_image_index(&self, id: &String) -> (r: Option<usize>)
        ensures
            match r {
                Option::Some(k) => {
                    &&& 0 <= k < self.images@.len()
                    &&& self.images@[k as int].id@ == id@
                    &&& forall|j: int| 0 <= j < k ==> self.images@[j].id@ != id@
                },
                Option::None => forall|j: int|
                    0 <= j < self.images@.len() ==> self.images@[j].id@ != id@,
            },
            r is Some <==> has_image_spec(self.images@, id@),
    {
        let n: usize = self.images.len();
        let mut k: usize = 0;
        while k < n
            invariant
                0 <= k <= n,
                n == self.images@.len(),
                forall|j: int| 0 <= j < k ==> self.images@[j].id@ != id@,
            decreases n - k,
        {
            if self.images[k].id.eq(id) {
                return Option::Some(k);
            }
            k = k + 1;
        }
        Option::None
    }

    /// The first image carrying `id`, or `None` when no image does.
    pub fn get_image(&self, id: &String) -> (r: Option<&PlacedImage>)
        ensures
            match r {
                Option::Some(img) => exists|k: int|
                    {
                        &&& 0 <= k < self.images@.len()
                        &&& *img == self.images@[k]
                        &&& #[trigger] self.images@[k].id@ == id@
                        &&& forall|j: int| 0 <= j < k ==> self.images@[j].id@ != id@
                    },
                Option::None => !has_image_spec(self.images@, id@),
            },
            r is Some <==> has_image_spec(self.images@, id@),
    {
        match self.get_image_index(id) {
            Option::Some(k) => Option::Some(&self.images[k]),
            Option::None => Option::None,
        }
    }

    /// Remove the first image carrying `id` and return it; the images
    /// behind it move one rank forward and every z-index is made dense
    /// again. A selection pointing at the removed image is cleared in the
    /// same operation; any other selection is kept. Without a match
    /// nothing changes and `None` is returned.
    pub fn remove_image(&mut self, id: &String) -> (r: Option<PlacedImage>)
        requires
            old(self).wf(),
        ensures
            final(self).wf(),
            final(self).page == old(self).page,
            r is Some <==> has_image_spec(old(self).images@, id@),
            r is None ==> *final(self) == *old(self),
            match r {
                Option::Some(removed) => {
                    &&& exists|k: int|
                        {
                            &&& 0 <= k < old(self).images@.len()
                            &&& removed == old(self).images@[k]
                            &&& #[trigger] old(self).images@[k].id@ == id@
                            &&& forall|j: int| 0 <= j < k ==> old(self).images@[j].id@ != id@
                            &&& final(self).images@.len() == old(self).images@.len() - 1
                            &&& forall|j: int|
                                0 <= j < final(self).images@.len()
                                    ==> #[trigger] final(self).images@[j] == with_z(
                                    if j < k { old(self).images@[j] } else { old(self).images@[j + 1] },
                                    j as usize,
                                )
                        }
                    &&& final(self).selected_image_id == (match old(self).selected_image_id {
                        Option::Some(sel) => if sel@ == id@ {
                            Option::<String>::None
                        } else {
                            old(self).selected_image_id
                        },
                        Option::None => Option::<String>::None,
                    })
                },
                Option::None => true,
            },
    {
        let found = self.get_image_index(id);
        match found {
            Option::None => Option::None,
            Option::Some(k) => {
                let removed = self.images.remove(k);
                let n: usize = self.images.len();
                let ghost mid = self.images@;
                let mut j: usize = 0;
                while j < n
                    invariant
                        0 <= j <= n,
                        n == self.images@.len(),
                        n == mid.len(),
                        self.selected_image_id == old(self).selected_image_id,
                        self.page == old(self).page,
                        forall|i: int| 0 <= i < j ==> #[trigger] self.images@[i] == with_z(
                            mid[i],
                            i as usize,
                        ),
                        forall|i: int| j <= i < n ==> #[trigger] self.images@[i] == mid[i],
                    decreases n - j,
                {
                    self.images[j].z_index = j;
                    j = j + 1;
                }
                let clear_selection = match &self.selected_image_id {
                    Option::Some(sel) => sel.eq(id),
                    Option::None => false,
                };
                if clear_selection {
                    self.selected_image_id = Option::None;
                }
                proof {
                    old(self).images@.remove_ensures(k as int);
                    assert forall|i: int| 0 <= i < self.images@.len() implies (
                    #[trigger] self.images@[i]).wf() by {
                        assert(self.images@[i] == with_z(mid[i], i as usize));
                    }
                    assert forall|i1: int, i2: int| 0 <= i1 < i2 < self.images@.len() implies (
                    #[trigger] self.images@[i1]).id@ != (#[trigger] self.images@[i2]).id@ by {
                        assert(self.images@[i1] == with_z(mid[i1], i1 as usize));
                        assert(self.images@[i2] == with_z(mid[i2], i2 as usize));
                        let o1: int = if i1 < k { i1 } else { i1 + 1 };
                        let o2: int = if i2 < k { i2 } else { i2 + 1 };
                        assert(mid[i1] == old(self).images@[o1]);
                        assert(mid[i2] == old(self).images@[o2]);
                        assert(o1 < o2);
                    }
                    if self.selected_image_id is Some {
                        let sel = self.selected_image_id->0@;
                        assert(has_image_spec(old(self).images@, sel));
                        let w = choose|i: int|
                            0 <= i < old(self).images@.len() && old(self).images@[i].id@ == sel;
                        assert(sel != id@);
                        if w < k {
                            assert(self.images@[w] == with_z(mid[w], w as usize));
                            assert(self.images@[w].id@ == sel);
                        } else {
                            assert(w != k) by {
                                assert(old(self).images@[k as int].id@ == id@);
                            }
                            assert(self.images@[w - 1] == with_z(mid[w - 1], (w - 1) as usize));
                            assert(self.images@[w - 1].id@ == sel);
                        }
                        assert(has_image_spec(self.images@, sel));
                    }
                }
                Option::Some(removed)
            },
        }
    }

    /// The topmost image whose unrotated bounding box contains the point:
    /// among all containing images, the one with the highest z-index, or
    /// `None` when no box contains the point.
    pub fn find_image_at_point(&self, x_um: i64, y_um: i64) -> (r: Option<&PlacedImage>)
        requires
            self.wf(),
        ensures
            match r {
                Option::Some(img) => exists|k: int|
                    {
                        &&& 0 <= k < self.images@.len()
                        &&& *img == self.images@[k]
                        &&& #[trigger] contains_point_spec(
                            self.images@[k],
                            x_um as int,
                            y_um as int,
                        )
                        &&& forall|j: int|
                            k < j < self.images@.len() ==> !contains_point_spec(
                                self.images@[j],
                                x_um as int,
                                y_um as int,
                            )
                    },
                Option::None => forall|j: int|
                    0 <= j < self.images@.len() ==> !contains_point_spec(
                        self.images@[j],
                        x_um as int,
                        y_um as int,
                    ),
            },
    {
        let n: usize = self.images.len();
        let mut k: usize = n;
        while k > 0
            invariant
                0 <= k <= n,
                n == self.images@.len(),
                self.wf(),
                forall|j: int| k <= j < n ==> !contains_point_spec(
                    self.images@[j],
                    x_um as int,
                    y_um as int,
                ),
            decreases k,
        {
            k = k - 1;
            if self.images[k].contains_point(x_um, y_um) {
                return Option::Some(&self.images[k]);
            }
        }
        Option::None
    }

    /// The currently selected image, or `None` when nothing is selected.
    pub fn selected_image(&self) -> (r: Option<&PlacedImage>)
        requires
            self.wf(),
        ensures
            r is Some <==> self.selected_image_id is Some,
            match r {
                Option::Some(img) => {
                    &&& self.selected_image_id is Some
                    &&& img.id@ == self.selected_image_id->0@
                    &&& exists|k: int|
                        0 <= k < self.images@.len() && *img == #[trigger] self.images@[k]
                },
                Option::None => self.selected_image_id is None,
            },
    {
        match &self.selected_image_id {
            Option::None => Option::None,
            Option::Some(id) => {
                let r = self.get_image(id);
                proof {
                    assert(has_image_spec(self.images@, id@));
                }
                r
            },
        }
    }
}

impl Layout {
    /// Select the first image carrying `id`; without a match the
    /// selection is left alone. Reports whether the selection was set.
    pub fn select_image(&mut self, id: &String) -> (r: bool)
        requires
            old(self).wf(),
        ensures
            final(self).wf(),
            r == has_image_spec(old(self).images@, id@),
            final(self).images@ == old(self).images@,
            final(self).page == old(self).page,
            r ==> (final(self).selected_image_id matches Option::Some(s) && s@ == id@),
            !r ==> final(self).selected_image_id == old(self).selected_image_id,
    {
        match self.get_image_index(id) {
            Option::Some(_) => {
                self.selected_image_id = Option::Some(id.clone());
                true
            },
            Option::None => false,
        }
    }

    /// Clear the selection.
    pub fn deselect(&mut self)
        requires
            old(self).wf(),
        ensures
            final(self).wf(),
            final(self).images@ == old(self).images@,
            final(self).page == old(self).page,
            final(self).selected_image_id is None,
    {
        self.selected_image_id = Option::None;
    }

    /// The position of the selected image in paint order, or `None` when
    /// nothing is selected.
    pub fn selected_index(&self) -> (r: Option<usize>)
        requires
            self.wf(),
        ensures
            r is Some <==> self.selected_image_id is Some,
            match r {
                Option::Some(k) => {
                    &&& 0 <= k < self.images@.len()
                    &&& self.selected_image_id is Some
                    &&& self.images@[k as int].id@ == self.selected_image_id->0@
                    &&& forall|j: int|
                        0 <= j < k ==> self.images@[j].id@ != self.selected_image_id->0@
                },
                Option::None => true,
            },
    {
        match &self.selected_image_id {
            Option::None => Option::None,
            Option::Some(id) => {
                let r = self.get_image_index(id);
                proof {
                    assert(has_image_spec(self.images@, id@));
                }
                r
            },
        }
    }

    /// Move the first image carrying `id` to the given position; updates
    /// arriving for an image that no longer exists are silently dropped.
    pub fn set_image_position(&mut self, id: &String, x_um: i64, y_um: i64) -> (r: bool)
        requires
            old(self).wf(),
            -MAX_COORD_UM <= x_um <= MAX_COORD_UM,
            -MAX_COORD_UM <= y_um <= MAX_COORD_UM,
        ensures
            final(self).wf(),
            final(self).page == old(self).page,
            final(self).selected_image_id == old(self).selected_image_id,
            r == has_image_spec(old(self).images@, id@),
            !r ==> final(self).images@ == old(self).images@,
            r ==> exists|k: int|
                {
                    &&& 0 <= k < old(self).images@.len()
                    &&& #[trigger] old(self).images@[k].id@ == id@
                    &&& forall|j: int| 0 <= j < k ==> old(self).images@[j].id@ != id@
                    &&& final(self).images@ == old(self).images@.update(
                        k,
                        PlacedImage { x_um, y_um, ..old(self).images@[k] },
                    )
                },
    {
        match self.get_image_index(id) {
            Option::None => false,
            Option::Some(k) => {
                self.images[k].x_um = x_um;
                self.images[k].y_um = y_um;
                proof {
                    assert(old(self).images@[k as int].wf());
                    assert(self.images@ =~= old(self).images@.update(
                        k as int,
                        PlacedImage { x_um, y_um, ..old(self).images@[k as int] },
                    ));
                    lemma_selection_kept_on_update(*old(self), *self, k as int);
                }
                true
            },
        }
    }

    /// Set the bounding box of the first image carrying `id`; updates
    /// arriving for an image that no longer exists are silently dropped.
    pub fn set_image_bounds(&mut self, id: &String, x_um: i64, y_um: i64, w_um: i64, h_um: i64) -> (r:
        bool)
        requires
            old(self).wf(),
            -MAX_COORD_UM <= x_um <= MAX_COORD_UM,
            -MAX_COORD_UM <= y_um <= MAX_COORD_UM,
            0 < w_um <= MAX_COORD_UM,
            0 < h_um <= MAX_COORD_UM,
        ensures
            final(self).wf(),
            final(self).page == old(self).page,
            final(self).selected_image_id == old(self).selected_image_id,
            r == has_image_spec(old(self).images@, id@),
            !r ==> final(self).images@ == old(self).images@,
            r ==> exists|k: int|
                {
                    &&& 0 <= k < old(self).images@.len()
                    &&& #[trigger] old(self).images@[k].id@ == id@
                    &&& forall|j: int| 0 <= j < k ==> old(self).images@[j].id@ != id@
                    &&& final(self).images@ == old(self).images@.update(
                        k,
                        PlacedImage {
                            x_um,
                            y_um,
                            width_um: w_um,
                            height_um: h_um,
                            ..old(self).images@[k]
                        },
                    )
                },
    {
        match self.get_image_index(id) {
            Option::None => false,
            Option::Some(k) => {
                self.images[k].x_um = x_um;
                self.images[k].y_um = y_um;
                self.images[k].width_um = w_um;
                self.images[k].height_um = h_um;
                proof {
                    assert(old(self).images@[k as int].wf());
                    assert(self.images@ =~= old(self).images@.update(
                        k as int,
                        PlacedImage {
                            x_um,
                            y_um,
                            width_um: w_um,
                            height_um: h_um,
                            ..old(self).images@[k as int]
                        },
                    ));
                    lemma_selection_kept_on_update(*old(self), *self, k as int);
                }
                true
            },
        }
    }

    /// Rotate the selected image a quarter turn clockwise; with no
    /// selection nothing happens. Reports whether an image was rotated.
    pub fn rotate_selected_cw(&mut self) -> (r: bool)
        requires
            old(self).wf(),
        ensures
            final(self).wf(),
            final(self).page == old(self).page,
            final(self).selected_image_id == old(self).selected_image_id,
            r == (old(self).selected_image_id is Some),
            !r ==> final(self).images@ == old(self).images@,
            r ==> exists|k: int|
                {
                    &&& 0 <= k < old(self).images@.len()
                    &&& #[trigger] old(self).images@[k].id@ == old(self).selected_image_id->0@
                    &&& final(self).images@ == old(self).images@.update(
                        k,
                        rotated_cw(old(self).images@[k]),
                    )
                },
    {
        match self.selected_index() {
            Option::None => false,
            Option::Some(k) => {
                let w: i64 = self.images[k].width_um;
                let h: i64 = self.images[k].height_um;
                self.images[k].width_um = h;
                self.images[k].height_um = w;
                let mut rot: i64 = self.images[k].rotation_mdeg + QUARTER_TURN_MDEG;
                if rot >= FULL_TURN_MDEG {
                    rot = rot - FULL_TURN_MDEG;
                }
                self.images[k].rotation_mdeg = rot;
                proof {
                    assert(old(self).images@[k as int].wf());
                    assert(self.images@ =~= old(self).images@.update(
                        k as int,
                        rotated_cw(old(self).images@[k as int]),
                    ));
                    lemma_selection_kept_on_update(*old(self), *self, k as int);
                }
                true
            },
        }
    }

    /// Rotate the selected image a quarter turn counter-clockwise; with
    /// no selection nothing happens. Reports whether an image was rotated.
    pub fn rotate_selected_ccw(&mut self) -> (r: bool)
        requires
            old(self).wf(),
        ensures
            final(self).wf(),
            final(self).page == old(self).page,
            final(self).selected_image_id == old(self).selected_image_id,
            r == (old(self).selected_image_id is Some),
            !r ==> final(self).images@ == old(self).images@,
            r ==> exists|k: int|
                {
                    &&& 0 <= k < old(self).images@.len()
                    &&& #[trigger] old(self).images@[k].id@ == old(self).selected_image_id->0@
                    &&& final(self).images@ == old(self).images@.update(
                        k,
                        rotated_ccw(old(self).images@[k]),
                    )
                },
    {
        match self.selected_index() {
            Option::None => false,
            Option::Some(k) => {
                let w: i64 = self.images[k].width_um;
                let h: i64 = self.images[k].height_um;
                self.images[k].width_um = h;
                self.images[k].height_um = w;
                let mut rot: i64 = self.images[k].rotation_mdeg + 3 * QUARTER_TURN_MDEG;
                if rot >= FULL_TURN_MDEG {
                    rot = rot - FULL_TURN_MDEG;
                }
                self.images[k].rotation_mdeg = rot;
                proof {
                    assert(old(self).images@[k as int].wf());
                    assert(self.images@ =~= old(self).images@.update(
                        k as int,
                        rotated_ccw(old(self).images@[k as int]),
                    ));
                    lemma_selection_kept_on_update(*old(self), *self, k as int);
                }
                true
            },
        }
    }

    /// Toggle the horizontal flip of the selected image; with no
    /// selection nothing happens.
    pub fn flip_selected_horizontal(&mut self) -> (r: bool)
        requires
            old(self).wf(),
        ensures
            final(self).wf(),
            final(self).page == old(self).page,
            final(self).selected_image_id == old(self).selected_image_id,
            r == (old(self).selected_image_id is Some),
            !r ==> final(self).images@ == old(self).images@,
            r ==> exists|k: int|
                {
                    &&& 0 <= k < old(self).images@.len()
                    &&& #[trigger] old(self).images@[k].id@ == old(self).selected_image_id->0@
                    &&& final(self).images@ == old(self).images@.update(
                        k,
                        PlacedImage {
                            flip_horizontal: !old(self).images@[k].flip_horizontal,
                            ..old(self).images@[k]
                        },
                    )
                },
    {
        match self.selected_index() {
            Option::None => false,
            Option::Some(k) => {
                let f: bool = self.images[k].flip_horizontal;
                self.images[k].flip_horizontal = !f;
                proof {
                    assert(old(self).images@[k as int].wf());
                    lemma_selection_kept_on_update(*old(self), *self, k as int);
                }
                true
            },
        }
    }

    /// Toggle the vertical flip of the selected image; with no selection
    /// nothing happens.
    pub fn flip_selected_vertical(&mut self) -> (r: bool)
        requires
            old(self).wf(),
        ensures
            final(self).wf(),
            final(self).page == old(self).page,
            final(self).selected_image_id == old(self).selected_image_id,
            r == (old(self).selected_image_id is Some),
            !r ==> final(self).images@ == old(self).images@,
            r ==> exists|k: int|
                {
                    &&& 0 <= k < old(self).images@.len()
                    &&& #[trigger] old(self).images@[k].id@ == old(self).selected_image_id->0@
                    &&& final(self).images@ == old(self).images@.update(
                        k,
                        PlacedImage {
                            flip_vertical: !old(self).images@[k].flip_vertical,
                            ..old(self).images@[k]
                        },
                    )
                },
    {
        match self.selected_index() {
            Option::None => false,
            Option::Some(k) => {
                let f: bool = self.images[k].flip_vertical;
                self.images[k].flip_vertical = !f;
                proof {
                    assert(old(self).images@[k as int].wf());
                    lemma_selection_kept_on_update(*old(self), *self, k as int);
                }
                true
            },
        }
    }

    /// Set the opacity of the selected image, clamped to its scale of
    /// thousandths; with no selection nothing happens.
    pub fn set_selected_opacity_pm(&mut self, opacity_pm: u32) -> (r: bool)
        requires
            old(self).wf(),
        ensures
            final(self).wf(),
            final(self).page == old(self).page,
            final(self).selected_image_id == old(self).selected_image_id,
            r == (old(self).selected_image_id is Some),
            !r ==> final(self).images@ == old(self).images@,
            r ==> exists|k: int|
                {
                    &&& 0 <= k < old(self).images@.len()
                    &&& #[trigger] old(self).images@[k].id@ == old(self).selected_image_id->0@
                    &&& final(self).images@ == old(self).images@.update(
                        k,
                        PlacedImage {
                            opacity_pm: if opacity_pm > 1000 { 1000u32 } else { opacity_pm },
                            ..old(self).images@[k]
                        },
                    )
                },
    {
        match self.selected_index() {
            Option::None => false,
            Option::Some(k) => {
                self.images[k].opacity_pm = if opacity_pm > 1000 {
                    1000
                } else {
                    opacity_pm
                };
                proof {
                    assert(old(self).images@[k as int].wf());
                    lemma_selection_kept_on_update(*old(self), *self, k as int);
                }
                true
            },
        }
    }
}

/// Updating one image in place, without touching its identifier, keeps
/// the selection valid and the z-order dense.
proof fn lemma_selection_kept_on_update(before: Layout, after: Layout, k: int)
    requires
        before.wf(),
        0 <= k < before.images@.len(),
        after.images@.len() == before.images@.len(),
        after.selected_image_id == before.selected_image_id,
        after.page == before.page,
        forall|j: int| 0 <= j < after.images@.len() && j != k ==> #[trigger] after.images@[j]
            == before.images@[j],
        after.images@[k].id@ == before.images@[k].id@,
        after.images@[k].z_index == before.images@[k].z_index,
        after.images@[k].wf(),
    ensures
        after.wf(),
{
    assert forall|i: int| 0 <= i < after.images@.len() implies #[trigger] after.images@[i].z_index
        == i by {
        if i != k {
            assert(after.images@[i] == before.images@[i]);
        }
    }
    assert forall|i: int| 0 <= i < after.images@.len() implies (#[trigger] after.images@[i]).wf() by {
        if i != k {
            assert(after.images@[i] == before.images@[i]);
        }
    }
    assert forall|i1: int, i2: int| 0 <= i1 < i2 < after.images@.len() implies (
    #[trigger] after.images@[i1]).id@ != (#[trigger] after.images@[i2]).id@ by {
        assert(after.images@[i1].id@ == before.images@[i1].id@);
        assert(after.images@[i2].id@ == before.images@[i2].id@);
    }
    if after.selected_image_id is Some {
        let sel = after.selected_image_id->0@;
        let w = choose|i: int|
            0 <= i < before.images@.len() && before.images@[i].id@ == sel;
        assert(after.images@[w].id@ == sel);
    }
}

impl Default for Layout {
    /// A new empty layout.
    fn default() -> (r: Self)
        ensures
            r.wf(),
            r.images@.len() == 0,
            r.selected_image_id is None,
    {
        Layout::new()
    }
}

} // verus!
