//! The two-tier image cache behind the interactive canvas.
//!
//! The source cache maps a file path to its decoded pixels: populated on
//! first access, never evicted on its own, emptied only by an explicit
//! removal or a full reset. The transform cache maps a key derived from
//! a placed image's visual parameters to the transformed pixels; two
//! placed images with equal derived keys share one cached rendering.

use vstd::prelude::*;
use crate::bitmap::{
    clone_image, decode_image, dyn_grid, grid_wf, grid_height, grid_width, rotation_bucket_spec,
    transform_image, transformed_grid,
};
use crate::layout::PlacedImage;

verus! {

/// The cache key derived from a placed image: the source path, the
/// rotation snapped to a quarter-turn bucket (in degrees), the flips,
/// and the opacity quantized to a whole percent. Position, size and
/// identity play no part in it.
#[derive(Debug, Clone)]
pub struct TransformKey {
    pub path: String,
    pub rotation_degrees: u32,
    pub flip_horizontal: bool,
    pub flip_vertical: bool,
    pub opacity_percent: u8,
}

/// The mathematical content of a cache key.
pub open spec fn key_view(k: TransformKey) -> (Seq<char>, int, bool, bool, int) {
    (k.path@, k.rotation_degrees as int, k.flip_horizontal, k.flip_vertical, k.opacity_percent as int)
}

/// The key a placed image derives: its path, its rotation's bucket, its
/// flips, and its opacity truncated to a whole percent.
pub open spec fn key_of_image(img: PlacedImage) -> (Seq<char>, int, bool, bool, int) {
    (
        img.path@,
        rotation_bucket_spec(img.rotation_mdeg as int),
        img.flip_horizontal,
        img.flip_vertical,
        img.opacity_pm as int / 10,
    )
}

/// Two placed images that agree on the visual transform parameters --
/// path, rotation, flips, opacity -- derive the same cache key and so
/// share one cached rendering, however much they differ in identity,
/// position, size, or z-order.
pub proof fn lemma_key_ignores_placement(a: PlacedImage, b: PlacedImage)
    requires
        a.path@ == b.path@,
        a.rotation_mdeg == b.rotation_mdeg,
        a.flip_horizontal == b.flip_horizontal,
        a.flip_vertical == b.flip_vertical,
        a.opacity_pm == b.opacity_pm,
    ensures
        key_of_image(a) == key_of_image(b),
{
}

/// The rotation bucket a normalized angle in millidegrees snaps to, in
/// degrees: 0, 90, 180 or 270.
pub fn rotation_bucket(rotation_mdeg: i64) -> (r: u32)
    requires
        0 <= rotation_mdeg < 360000,
    ensures
        r == rotation_bucket_spec(rotation_mdeg as int),
{
    if rotation_mdeg >= 85000 && rotation_mdeg <= 95000 {
        90
    } else if rotation_mdeg >= 175000 && rotation_mdeg <= 185000 {
        180
    } else if rotation_mdeg >= 265000 && rotation_mdeg <= 275000 {
        270
    } else {
        0
    }
}

impl TransformKey {
    /// Derive the cache key from a placed image.
    pub fn from_placed_image(img: &PlacedImage) -> (r: TransformKey)
        requires
            img.wf(),
        ensures
            key_view(r) == key_of_image(*img),
    {
        TransformKey {
            path: img.path.clone(),
            rotation_degrees: rotation_bucket(img.rotation_mdeg),
            flip_horizontal: img.flip_horizontal,
            flip_vertical: img.flip_vertical,
            opacity_percent: (img.opacity_pm / 10) as u8,
        }
    }

    /// Whether two keys are equal in every field.
    pub fn matches(&self, other: &TransformKey) -> (r: bool)
        ensures
            r == (key_view(*self) == key_view(*other)),
    {
        let same = self.path.eq(&other.path) && self.rotation_degrees == other.rotation_degrees
            && self.flip_horizontal == other.flip_horizontal && self.flip_vertical
            == other.flip_vertical && self.opacity_percent == other.opacity_percent;
        proof {
            if same {
                assert(key_view(*self) == key_view(*other));
            }
        }
        same
    }
}

/// Whether some entry carries the path.
pub open spec fn has_path_spec(s: Seq<(String, image::DynamicImage)>, path: Seq<char>) -> bool {
    exists|i: int| 0 <= i < s.len() && s[i].0@ == path
}

/// Cache of decoded source images, keyed by file path, to avoid repeated
/// disk reads. Never evicts on its own.
pub struct SourceImageCache {
    pub entries: Vec<(String, image::DynamicImage)>,
}

impl SourceImageCache {
    /// Paths are unique, and every cached image is a well-formed pixel
    /// grid within the dimension bounds of a decoded image.
    pub open spec fn wf(self) -> bool {
        &&& forall|i: int, j: int|
            0 <= i < j < self.entries@.len() ==> (#[trigger] self.entries@[i]).0@ != (
            #[trigger] self.entries@[j]).0@
        &&& forall|i: int|
            0 <= i < self.entries@.len() ==> {
                &&& grid_wf(dyn_grid((#[trigger] self.entries@[i]).1))
                &&& grid_height(dyn_grid(self.entries@[i].1)) <= u32::MAX
                &&& grid_width(dyn_grid(self.entries@[i].1)) <= u32::MAX
                &&& 4 * grid_height(dyn_grid(self.entries@[i].1)) * grid_width(
                    dyn_grid(self.entries@[i].1),
                ) <= 0x8000_0000
            }
    }

    /// A new empty cache.
    pub fn new() -> (r: Self)
        ensures
            r.wf(),
            r.entries@.len() == 0,
    {
        SourceImageCache { entries: Vec::new() }
    }

    /// The position of the entry carrying `path`, if any.
    fn find(&self, path: &String) -> (r: Option<usize>)
        ensures
            match r {
                Option::Some(k) => 0 <= k < self.entries@.len() && self.entries@[k as int].0@
                    == path@,
                Option::None => !has_path_spec(self.entries@, path@),
            },
            r is Some <==> has_path_spec(self.entries@, path@),
    {
        let n: usize = self.entries.len();
        let mut k: usize = 0;
        while k < n
            invariant
                0 <= k <= n,
                n == self.entries@.len(),
                forall|j: int| 0 <= j < k ==> (#[trigger] self.entries@[j]).0@ != path@,
            decreases n - k,
        {
            if self.entries[k].0.eq(path) {
                return Option::Some(k);
            }
            k = k + 1;
        }
        Option::None
    }

    /// The decoded image for `path`: served from the cache when present,
    /// decoded from disk and remembered otherwise. `None` only when the
    /// source cannot be read or decoded; a failure is not cached.
    pub fn get_or_load(&mut self, path: &String) -> (r: Option<image::DynamicImage>)
        requires
            old(self).wf(),
        ensures
            final(self).wf(),
            r matches Some(img) ==> {
                &&& grid_wf(dyn_grid(img))
                &&& grid_height(dyn_grid(img)) <= u32::MAX
                &&& grid_width(dyn_grid(img)) <= u32::MAX
                &&& 4 * grid_height(dyn_grid(img)) * grid_width(dyn_grid(img)) <= 0x8000_0000
            },
            has_path_spec(old(self).entries@, path@) ==> {
                &&& *final(self) == *old(self)
                &&& r matches Some(img) && exists|k: int|
                    {
                        &&& 0 <= k < old(self).entries@.len()
                        &&& (#[trigger] old(self).entries@[k]).0@ == path@
                        &&& dyn_grid(img) == dyn_grid(old(self).entries@[k].1)
                    }
            },
            !has_path_spec(old(self).entries@, path@) ==> match r {
                Option::None => *final(self) == *old(self),
                Option::Some(img) => {
                    &&& final(self).entries@.len() == old(self).entries@.len() + 1
                    &&& forall|j: int|
                        0 <= j < old(self).entries@.len() ==> #[trigger] final(self).entries@[j]
                            == old(self).entries@[j]
                    &&& final(self).entries@.last().0@ == path@
                    &&& dyn_grid(final(self).entries@.last().1) == dyn_grid(img)
                },
            },
            has_path_spec(final(self).entries@, path@) <==> r is Some,
    {
        match self.find(path) {
            Option::Some(k) => {
                let img = clone_image(&self.entries[k].1);
                Option::Some(img)
            },
            Option::None => {
                match decode_image(path) {
                    Result::Err(_) => Option::None,
                    Result::Ok(img) => {
                        let out = clone_image(&img);
                        self.entries.push((path.clone(), img));
                        proof {
                            assert forall|i: int, j: int|
                                0 <= i < j < self.entries@.len() implies (
                            #[trigger] self.entries@[i]).0@ != (#[trigger] self.entries@[j]).0@ by {
                                if j < self.entries@.len() - 1 {
                                    assert(self.entries@[i] == old(self).entries@[i]);
                                    assert(self.entries@[j] == old(self).entries@[j]);
                                } else {
                                    assert(self.entries@[i] == old(self).entries@[i]);
                                }
                            }
                            assert(has_path_spec(self.entries@, path@)) by {
                                assert(self.entries@[self.entries@.len() - 1].0@ == path@);
                            }
                        }
                        Option::Some(out)
                    },
                }
            },
        }
    }

    /// Drop the entry for `path`, if any; other entries are kept. Called
    /// when an image is deleted from the layout.
    pub fn remove(&mut self, path: &String)
        requires
            old(self).wf(),
        ensures
            final(self).wf(),
            !has_path_spec(final(self).entries@, path@),
            !has_path_spec(old(self).entries@, path@) ==> *final(self) == *old(self),
            has_path_spec(old(self).entries@, path@) ==> exists|k: int|
                {
                    &&& 0 <= k < old(self).entries@.len()
                    &&& (#[trigger] old(self).entries@[k]).0@ == path@
                    &&& final(self).entries@ == old(self).entries@.remove(k)
                },
    {
        match self.find(path) {
            Option::None => {},
            Option::Some(k) => {
                self.entries.remove(k);
                proof {
                    old(self).entries@.remove_ensures(k as int);
                    assert forall|i: int| 0 <= i < self.entries@.len() implies (
                    #[trigger] self.entries@[i]).0@ != path@ by {
                        if i < k {
                            assert(self.entries@[i] == old(self).entries@[i]);
                        } else {
                            assert(self.entries@[i] == old(self).entries@[i + 1]);
                        }
                    }
                }
            },
        }
    }

    /// Empty the cache.
    pub fn clear(&mut self)
        ensures
            final(self).wf(),
            final(self).entries@.len() == 0,
    {
        self.entries.clear();
    }
}

/// Whether some entry carries the key.
pub open spec fn has_key_spec(
    s: Seq<(TransformKey, image::DynamicImage)>,
    key: (Seq<char>, int, bool, bool, int),
) -> bool {
    exists|i: int| 0 <= i < s.len() && key_view(s[i].0) == key
}

/// Cache of transformed renderings, keyed by the derived transform key.
/// Entries are never invalidated: a changed transform parameter derives
/// a new key and simply misses.
pub struct ImageCache {
    pub entries: Vec<(TransformKey, image::DynamicImage)>,
}

impl ImageCache {
    /// Keys are unique.
    pub open spec fn wf(self) -> bool {
        forall|i: int, j: int|
            0 <= i < j < self.entries@.len() ==> key_view((#[trigger] self.entries@[i]).0)
                != key_view((#[trigger] self.entries@[j]).0)
    }

    /// A new empty cache.
    pub fn new() -> (r: Self)
        ensures
            r.wf(),
            r.entries@.len() == 0,
    {
        ImageCache { entries: Vec::new() }
    }

    /// The position of the entry carrying `key`, if any.
    fn find(&self, key: &TransformKey) -> (r: Option<usize>)
        ensures
            match r {
                Option::Some(k) => 0 <= k < self.entries@.len() && key_view(
                    self.entries@[k as int].0,
                ) == key_view(*key),
                Option::None => !has_key_spec(self.entries@, key_view(*key)),
            },
            r is Some <==> has_key_spec(self.entries@, key_view(*key)),
    {
        let n: usize = self.entries.len();
        let mut k: usize = 0;
        while k < n
            invariant
                0 <= k <= n,
                n == self.entries@.len(),
                forall|j: int| 0 <= j < k ==> key_view((#[trigger] self.entries@[j]).0) != key_view(
                    *key,
                ),
            decreases n - k,
        {
            if self.entries[k].0.matches(key) {
                return Option::Some(k);
            }
            k = k + 1;
        }
        Option::None
    }

    /// The rendering for a placed image's derived key: the cached one
    /// when the key is known, else the source (served or loaded through
    /// the source cache) transformed by the image's rotation bucket,
    /// flips and opacity, remembered under the key. `None` only when the
    /// source is neither cached nor readable, and then both caches are
    /// left as they were; the caller renders a placeholder in that case.
    pub fn get_transformed_handle(
        &mut self,
        img: &PlacedImage,
        source_cache: &mut SourceImageCache,
    ) -> (r: Option<image::DynamicImage>)
        requires
            old(self).wf(),
            old(source_cache).wf(),
            img.wf(),
        ensures
            final(self).wf(),
            final(source_cache).wf(),
            has_path_spec(old(source_cache).entries@, img.path@) ==> r is Some,
            r is None ==> *final(source_cache) == *old(source_cache),
            has_key_spec(old(self).entries@, key_of_image(*img)) ==> {
                &&& *final(self) == *old(self)
                &&& *final(source_cache) == *old(source_cache)
                &&& r matches Some(out) && exists|k: int|
                    {
                        &&& 0 <= k < old(self).entries@.len()
                        &&& key_view((#[trigger] old(self).entries@[k]).0) == key_of_image(*img)
                        &&& dyn_grid(out) == dyn_grid(old(self).entries@[k].1)
                    }
            },
            !has_key_spec(old(self).entries@, key_of_image(*img)) ==> match r {
                Option::None => *final(self) == *old(self),
                Option::Some(out) => {
                    &&& exists|k: int|
                        {
                            &&& 0 <= k < final(source_cache).entries@.len()
                            &&& (#[trigger] final(source_cache).entries@[k]).0@ == img.path@
                            &&& dyn_grid(out) == transformed_grid(
                                dyn_grid(final(source_cache).entries@[k].1),
                                img.rotation_mdeg as int,
                                img.flip_horizontal,
                                img.flip_vertical,
                                img.opacity_pm as int,
                            )
                        }
                    &&& final(self).entries@.len() == old(self).entries@.len() + 1
                    &&& forall|j: int|
                        0 <= j < old(self).entries@.len() ==> #[trigger] final(self).entries@[j]
                            == old(self).entries@[j]
                    &&& key_view(final(self).entries@.last().0) == key_of_image(*img)
                    &&& dyn_grid(final(self).entries@.last().1) == dyn_grid(out)
                },
            },
    {
        let key = TransformKey::from_placed_image(img);
        match self.find(&key) {
            Option::Some(k) => {
                let out = clone_image(&self.entries[k].1);
                Option::Some(out)
            },
            Option::None => {
                match source_cache.get_or_load(&img.path) {
                    Option::None => Option::None,
                    Option::Some(src) => {
                        let out = transform_image(
                            &src,
                            img.rotation_mdeg,
                            img.flip_horizontal,
                            img.flip_vertical,
                            img.opacity_pm,
                        );
                        let stored = clone_image(&out);
                        self.entries.push((key, stored));
                        proof {
                            assert forall|i: int, j: int|
                                0 <= i < j < self.entries@.len() implies key_view((
                            #[trigger] self.entries@[i]).0) != key_view(
                                (#[trigger] self.entries@[j]).0,
                            ) by {
                                if j < self.entries@.len() - 1 {
                                    assert(self.entries@[i] == old(self).entries@[i]);
                                    assert(self.entries@[j] == old(self).entries@[j]);
                                } else {
                                    assert(self.entries@[i] == old(self).entries@[i]);
                                }
                            }
                        }
                        Option::Some(out)
                    },
                }
            },
        }
    }

    /// Empty the cache, for a full reset.
    pub fn clear(&mut self)
        ensures
            final(self).wf(),
            final(self).entries@.len() == 0,
    {
        self.entries.clear();
    }
}

} // verus!
