//! The image ingestion pipeline: decoded or raw pixel input plus a
//! transform recipe, producing an [`ImageAsset`].
//!
//! The stages run in a fixed order — crop, vertical flip, resize, alpha
//! premultiplication, colorspace conversion — and every stage is skipped
//! when it would be a no-op. Any failure (rejected input, zero-area crop,
//! zero or oversized target) short-circuits to the empty sentinel asset
//! instead of an error: the host boundary this library sits behind cannot
//! carry rich error objects.

use vstd::prelude::*;

use crate::asset::{AlphaType, AssetModel, ColorSpaceTag, ImageAsset};
use crate::color::Color;
use crate::device::MAX_DIM;
use crate::pixels::{
    copy_pixels, crop_fn, crop_pixels, flip_fn, flip_pixels, nearest_fn, pixels_from_rgba,
    pixels_of_rgba, premul_pixel, premultiply_pixels, resize_nearest, resize_smooth, smooth_fn,
    unpremul_pixel, unpremultiply_pixels,
};
use crate::state::FilterQuality;

verus! {

/// A crop rectangle in source pixel coordinates. It may lie partly or
/// wholly outside the source; the pipeline deterministically clamps it to
/// the source bounds before cropping.
#[derive(PartialEq, Eq, Structural, Clone, Copy, Debug)]
pub struct CropRect {
    pub x: i32,
    pub y: i32,
    pub width: i32,
    pub height: i32,
}

/// Whether the output must have its color channels multiplied by alpha:
/// `AsSource` preserves the source's native representation unchanged.
#[derive(PartialEq, Eq, Structural, Clone, Copy, Debug)]
pub enum AlphaPolicy {
    AsSource,
    ForceOn,
    ForceOff,
}

/// Whether the output is tagged with the normalized working colorspace:
/// `AsSource` passes the source tag through unchanged.
#[derive(PartialEq, Eq, Structural, Clone, Copy, Debug)]
pub enum ColorSpacePolicy {
    AsSource,
    ForceSrgb,
    ForceUntagged,
}

/// The output dimensions a resize step aims for.
#[derive(PartialEq, Eq, Structural, Clone, Copy, Debug)]
pub struct TargetSize {
    pub width: u32,
    pub height: u32,
}

/// The transform recipe of one ingestion: what to crop, whether to
/// mirror, how to resample to which size, and the alpha and colorspace
/// policies.
#[derive(Clone, Copy, Debug)]
pub struct Recipe {
    pub source_rect: Option<CropRect>,
    pub flip_y: bool,
    pub premultiply_alpha: AlphaPolicy,
    pub color_space_conversion: ColorSpacePolicy,
    pub resize_quality: FilterQuality,
    pub target_size: Option<TargetSize>,
}

// ---------------------------------------------------------------------
// Rectangle clamping
// ---------------------------------------------------------------------
/// `v` forced into `[lo, hi]`.
pub open spec fn clamp_i(v: int, lo: int, hi: int) -> int {
    if v < lo {
        lo
    } else if v > hi {
        hi
    } else {
        v
    }
}

/// The intersection of a requested crop rectangle with the `w` by `h`
/// source, as `(x, y, width, height)` with a non-negative area.
pub open spec fn clamped_rect(r: CropRect, w: int, h: int) -> (int, int, int, int) {
    let x0 = clamp_i(r.x as int, 0, w);
    let y0 = clamp_i(r.y as int, 0, h);
    let x1 = clamp_i(r.x as int + r.width as int, x0, w);
    let y1 = clamp_i(r.y as int + r.height as int, y0, h);
    (x0, y0, x1 - x0, y1 - y0)
}

/// Clamps a requested crop rectangle to the source bounds.
fn clamp_rect(r: CropRect, w: u32, h: u32) -> (out: (u32, u32, u32, u32))
    requires
        w <= MAX_DIM,
        h <= MAX_DIM,
    ensures
        out.0 == clamped_rect(r, w as int, h as int).0,
        out.1 == clamped_rect(r, w as int, h as int).1,
        out.2 == clamped_rect(r, w as int, h as int).2,
        out.3 == clamped_rect(r, w as int, h as int).3,
        out.0 + out.2 <= w,
        out.1 + out.3 <= h,
{
    let x0: i64 = clamp_exec(r.x as i64, 0, w as i64);
    let y0: i64 = clamp_exec(r.y as i64, 0, h as i64);
    let x1: i64 = clamp_exec(r.x as i64 + r.width as i64, x0, w as i64);
    let y1: i64 = clamp_exec(r.y as i64 + r.height as i64, y0, h as i64);
    ((x0 as u32), (y0 as u32), ((x1 - x0) as u32), ((y1 - y0) as u32))
}

/// Clamps `v` into `[lo, hi]`; `lo` must not exceed `hi`.
fn clamp_exec(v: i64, lo: i64, hi: i64) -> (out: i64)
    requires
        lo <= hi,
    ensures
        out == clamp_i(v as int, lo as int, hi as int),
{
    if v < lo {
        lo
    } else if v > hi {
        hi
    } else {
        v
    }
}

// ---------------------------------------------------------------------
// Stage semantics
// ---------------------------------------------------------------------
/// Crop stage: clamp the requested rectangle and keep only its pixels; a
/// clamped-away (zero-area) rectangle is a failure.
pub open spec fn crop_stage(m: AssetModel, rect: Option<CropRect>) -> AssetModel {
    match rect {
        Option::None => m,
        Option::Some(r) => {
            let (rx, ry, cw, ch) = clamped_rect(r, m.width, m.height);
            if m.is_empty() || cw <= 0 || ch <= 0 {
                AssetModel::empty()
            } else {
                AssetModel {
                    data: crop_fn(m.data, m.width, rx, ry, cw, ch),
                    width: cw,
                    height: ch,
                    alpha: m.alpha,
                    color_space: m.color_space,
                }
            }
        },
    }
}

/// Flip stage: mirror the rows when requested.
pub open spec fn flip_stage(m: AssetModel, flip_y: bool) -> AssetModel {
    if !flip_y || m.is_empty() {
        m
    } else {
        AssetModel {
            data: flip_fn(m.data, m.width, m.height),
            width: m.width,
            height: m.height,
            alpha: m.alpha,
            color_space: m.color_space,
        }
    }
}

/// Resize stage: absent or equal target sizes resample nothing at all; a
/// zero or out-of-bounds target is a failure; otherwise nearest quality
/// point-samples and every other quality smooths.
pub open spec fn resize_stage(
    m: AssetModel,
    quality: FilterQuality,
    target: Option<TargetSize>,
) -> AssetModel {
    match target {
        Option::None => m,
        Option::Some(t) => {
            if t.width == m.width && t.height == m.height {
                m
            } else if m.is_empty() || t.width == 0 || t.height == 0 || t.width > MAX_DIM
                || t.height > MAX_DIM {
                AssetModel::empty()
            } else {
                AssetModel {
                    data: if quality == FilterQuality::Nearest {
                        nearest_fn(m.data, m.width, m.height, t.width as int, t.height as int)
                    } else {
                        smooth_fn(m.data, m.width, m.height, t.width as int, t.height as int)
                    },
                    width: t.width as int,
                    height: t.height as int,
                    alpha: m.alpha,
                    color_space: m.color_space,
                }
            }
        },
    }
}

/// Alpha stage: force the premultiplied or the unpremultiplied
/// representation, or keep the source's.
pub open spec fn alpha_stage(m: AssetModel, policy: AlphaPolicy) -> AssetModel {
    match policy {
        AlphaPolicy::AsSource => m,
        AlphaPolicy::ForceOn => {
            if m.alpha == AlphaType::Premultiplied || m.is_empty() {
                m
            } else {
                AssetModel {
                    data: m.data.map_values(|p: Color| premul_pixel(p)),
                    width: m.width,
                    height: m.height,
                    alpha: AlphaType::Premultiplied,
                    color_space: m.color_space,
                }
            }
        },
        AlphaPolicy::ForceOff => {
            if m.alpha == AlphaType::Unpremultiplied || m.is_empty() {
                m
            } else {
                AssetModel {
                    data: m.data.map_values(|p: Color| unpremul_pixel(p)),
                    width: m.width,
                    height: m.height,
                    alpha: AlphaType::Unpremultiplied,
                    color_space: m.color_space,
                }
            }
        },
    }
}

/// Colorspace stage: tag the output with the normalized working
/// colorspace, strip the tag, or keep the source's. The stored 8-bit
/// channel values are kept either way.
pub open spec fn color_space_stage(m: AssetModel, policy: ColorSpacePolicy) -> AssetModel {
    match policy {
        ColorSpacePolicy::AsSource => m,
        ColorSpacePolicy::ForceSrgb => {
            if m.is_empty() {
                m
            } else {
                AssetModel {
                    data: m.data,
                    width: m.width,
                    height: m.height,
                    alpha: m.alpha,
                    color_space: ColorSpaceTag::Srgb,
                }
            }
        },
        ColorSpacePolicy::ForceUntagged => {
            if m.is_empty() {
                m
            } else {
                AssetModel {
                    data: m.data,
                    width: m.width,
                    height: m.height,
                    alpha: m.alpha,
                    color_space: ColorSpaceTag::Untagged,
                }
            }
        },
    }
}

/// The whole pipeline: crop, then flip, then resize, then alpha policy,
/// then colorspace policy — in exactly this order.
pub open spec fn pipeline_spec(m: AssetModel, r: Recipe) -> AssetModel {
    color_space_stage(
        alpha_stage(
            resize_stage(
                flip_stage(crop_stage(m, r.source_rect), r.flip_y),
                r.resize_quality,
                r.target_size,
            ),
            r.premultiply_alpha,
        ),
        r.color_space_conversion,
    )
}

// ---------------------------------------------------------------------
// Stage execution
// ---------------------------------------------------------------------
fn crop_stage_exec(a: ImageAsset, rect: Option<CropRect>) -> (out: ImageAsset)
    requires
        a.wf(),
    ensures
        out@ == crop_stage(a@, rect),
        out.wf(),
{
    match rect {
        None => a,
        Some(r) => {
            let (rx, ry, cw, ch) = clamp_rect(r, a.width, a.height);
            if a.width == 0 || a.height == 0 || cw == 0 || ch == 0 {
                ImageAsset::empty()
            } else {
                let data = crop_pixels(&a.data, a.width, a.height, rx, ry, cw, ch);
                ImageAsset {
                    data,
                    width: cw,
                    height: ch,
                    alpha_type: a.alpha_type,
                    color_space: a.color_space,
                }
            }
        },
    }
}

fn flip_stage_exec(a: ImageAsset, flip_y: bool) -> (out: ImageAsset)
    requires
        a.wf(),
    ensures
        out@ == flip_stage(a@, flip_y),
        out.wf(),
{
    if !flip_y || a.width == 0 || a.height == 0 {
        a
    } else {
        let data = flip_pixels(&a.data, a.width, a.height);
        ImageAsset {
            data,
            width: a.width,
            height: a.height,
            alpha_type: a.alpha_type,
            color_space: a.color_space,
        }
    }
}

fn resize_stage_exec(a: ImageAsset, quality: FilterQuality, target: Option<TargetSize>) -> (out:
    ImageAsset)
    requires
        a.wf(),
    ensures
        out@ == resize_stage(a@, quality, target),
        out.wf(),
{
    match target {
        None => a,
        Some(t) => {
            if t.width == a.width && t.height == a.height {
                a
            } else if a.width == 0 || a.height == 0 || t.width == 0 || t.height == 0 || t.width
                > MAX_DIM || t.height > MAX_DIM {
                ImageAsset::empty()
            } else {
                let data = if matches!(quality, FilterQuality::Nearest) {
                    resize_nearest(&a.data, a.width, a.height, t.width, t.height)
                } else {
                    resize_smooth(&a.data, a.width, a.height, t.width, t.height)
                };
                ImageAsset {
                    data,
                    width: t.width,
                    height: t.height,
                    alpha_type: a.alpha_type,
                    color_space: a.color_space,
                }
            }
        },
    }
}

fn alpha_stage_exec(a: ImageAsset, policy: AlphaPolicy) -> (out: ImageAsset)
    requires
        a.wf(),
    ensures
        out@ == alpha_stage(a@, policy),
        out.wf(),
{
    match policy {
        AlphaPolicy::AsSource => a,
        AlphaPolicy::ForceOn => {
            if matches!(a.alpha_type, AlphaType::Premultiplied) || a.width == 0 || a.height == 0 {
                a
            } else {
                let data = premultiply_pixels(&a.data);
                ImageAsset {
                    data,
                    width: a.width,
                    height: a.height,
                    alpha_type: AlphaType::Premultiplied,
                    color_space: a.color_space,
                }
            }
        },
        AlphaPolicy::ForceOff => {
            if matches!(a.alpha_type, AlphaType::Unpremultiplied) || a.width == 0 || a.height == 0 {
                a
            } else {
                let data = unpremultiply_pixels(&a.data);
                ImageAsset {
                    data,
                    width: a.width,
                    height: a.height,
                    alpha_type: AlphaType::Unpremultiplied,
                    color_space: a.color_space,
                }
            }
        },
    }
}

fn color_space_stage_exec(a: ImageAsset, policy: ColorSpacePolicy) -> (out: ImageAsset)
    requires
        a.wf(),
    ensures
        out@ == color_space_stage(a@, policy),
        out.wf(),
{
    match policy {
        ColorSpacePolicy::AsSource => a,
        ColorSpacePolicy::ForceSrgb => {
            if a.width == 0 || a.height == 0 {
                a
            } else {
                ImageAsset {
                    data: a.data,
                    width: a.width,
                    height: a.height,
                    alpha_type: a.alpha_type,
                    color_space: ColorSpaceTag::Srgb,
                }
            }
        },
        ColorSpacePolicy::ForceUntagged => {
            if a.width == 0 || a.height == 0 {
                a
            } else {
                ImageAsset {
                    data: a.data,
                    width: a.width,
                    height: a.height,
                    alpha_type: a.alpha_type,
                    color_space: ColorSpaceTag::Untagged,
                }
            }
        },
    }
}

/// Runs the five stages in their fixed order on an owned asset.
pub fn run_pipeline(asset: ImageAsset, recipe: Recipe) -> (out: ImageAsset)
    requires
        asset.wf(),
    ensures
        out@ == pipeline_spec(asset@, recipe),
        out.wf(),
{
    let cropped = crop_stage_exec(asset, recipe.source_rect);
    let flipped = flip_stage_exec(cropped, recipe.flip_y);
    let resized = resize_stage_exec(flipped, recipe.resize_quality, recipe.target_size);
    let alphaed = alpha_stage_exec(resized, recipe.premultiply_alpha);
    color_space_stage_exec(alphaed, recipe.color_space_conversion)
}

// ---------------------------------------------------------------------
// Entry points
// ---------------------------------------------------------------------
/// The output of the decode codec: raw RGBA bytes with their dimensions.
/// The codec itself runs in the host layer; this library consumes its
/// result as plain values.
#[derive(Clone, Debug)]
pub struct DecodedImage {
    pub width: u32,
    pub height: u32,
    pub bytes: Vec<u8>,
}

/// Whether a raw RGBA buffer with claimed dimensions is accepted for
/// ingestion: positive in-bounds dimensions and exactly four bytes per
/// pixel. A zero-length buffer is never accepted.
pub open spec fn raw_accepted(b: Seq<u8>, w: int, h: int) -> bool {
    &&& 0 < w <= MAX_DIM
    &&& 0 < h <= MAX_DIM
    &&& b.len() == 4 * w * h
}

/// The asset a raw RGBA buffer ingests to before any transform: its
/// pixel grid, unpremultiplied, with no colorspace tag.
pub open spec fn raw_asset_model(b: Seq<u8>, w: int, h: int) -> AssetModel {
    AssetModel {
        data: pixels_of_rgba(b),
        width: w,
        height: h,
        alpha: AlphaType::Unpremultiplied,
        color_space: ColorSpaceTag::Untagged,
    }
}

/// Ingests a raw RGBA pixel buffer with known dimensions through the
/// pipeline. A rejected buffer — empty, wrongly sized, or with zero or
/// oversized dimensions — yields the empty sentinel asset, never an
/// error.
pub fn create_image_asset(bytes: &Vec<u8>, width: u32, height: u32, recipe: Recipe) -> (out:
    ImageAsset)
    ensures
        raw_accepted(bytes@, width as int, height as int) ==> out@ == pipeline_spec(
            raw_asset_model(bytes@, width as int, height as int),
            recipe,
        ),
        !raw_accepted(bytes@, width as int, height as int) ==> out@ == AssetModel::empty(),
        out.wf(),
{
    if width == 0 || height == 0 || width > MAX_DIM || height > MAX_DIM {
        return ImageAsset::empty();
    }
    proof {
        crate::grid::lemma_mul_le(width as int, height as int, MAX_DIM as int, MAX_DIM as int);
    }
    let area: usize = (width as usize) * (height as usize);
    proof {
        assert(4 * (width as int) * (height as int) == 4 * ((width as int) * (height as int)))
            by (nonlinear_arith);
        vstd::arithmetic::div_mod::lemma_fundamental_div_mod(bytes@.len() as int, 4);
        vstd::arithmetic::div_mod::lemma_mod_multiples_basic(area as int, 4);
        vstd::arithmetic::div_mod::lemma_div_by_multiple(area as int, 4);
    }
    if bytes.len() / 4 != area || bytes.len() % 4 != 0 {
        return ImageAsset::empty();
    }
    let data = pixels_from_rgba(bytes);
    let raw = ImageAsset {
        data,
        width,
        height,
        alpha_type: AlphaType::Unpremultiplied,
        color_space: ColorSpaceTag::Untagged,
    };
    run_pipeline(raw, recipe)
}

/// Ingests what the decode codec returned for an encoded byte buffer: a
/// failed decode (`None`) yields the empty sentinel asset; a successful
/// decode continues through the pipeline exactly as a raw buffer would.
pub fn create_image_asset_decoded(decoded: Option<DecodedImage>, recipe: Recipe) -> (out:
    ImageAsset)
    ensures
        decoded matches Some(d) ==> {
            &&& raw_accepted(d.bytes@, d.width as int, d.height as int) ==> out@
                == pipeline_spec(
                raw_asset_model(d.bytes@, d.width as int, d.height as int),
                recipe,
            )
            &&& !raw_accepted(d.bytes@, d.width as int, d.height as int) ==> out@
                == AssetModel::empty()
        },
        decoded is None ==> out@ == AssetModel::empty(),
        out.wf(),
{
    match decoded {
        None => ImageAsset::empty(),
        Some(d) => create_image_asset(&d.bytes, d.width, d.height, recipe),
    }
}

/// Re-ingests an existing asset — re-crop, re-flip, re-resize — without
/// touching the original.
pub fn create_from_image_asset_src_rect(asset: &ImageAsset, recipe: Recipe) -> (out: ImageAsset)
    requires
        asset.wf(),
    ensures
        out@ == pipeline_spec(asset@, recipe),
        out.wf(),
{
    let owned = ImageAsset {
        data: copy_pixels(&asset.data),
        width: asset.width,
        height: asset.height,
        alpha_type: asset.alpha_type,
        color_space: asset.color_space,
    };
    run_pipeline(owned, recipe)
}


/// Premultiply toggle round-trip: forcing premultiply on and then off on
/// an unpremultiplied, fully opaque source (without other transforms)
/// restores the original channel values exactly. Pixels with partial
/// alpha are outside this law: the 8-bit multiply rounds, so their round
/// trip may differ by rounding.
pub proof fn law_premultiply_toggle_roundtrip(m: AssetModel)
    requires
        m.alpha == AlphaType::Unpremultiplied,
        forall|i: int| 0 <= i < m.data.len() ==> (#[trigger] m.data[i]).a == 255,
    ensures
        alpha_stage(alpha_stage(m, AlphaPolicy::ForceOn), AlphaPolicy::ForceOff) == m,
{
    let on = alpha_stage(m, AlphaPolicy::ForceOn);
    assert(on.data == m.data.map_values(|p: Color| premul_pixel(p)));
    assert forall|i: int| 0 <= i < on.data.len() implies (#[trigger] on.data[i]).a == 255 by {
        assert(on.data[i] == premul_pixel(m.data[i]));
    }
    let back = alpha_stage(on, AlphaPolicy::ForceOff);
    assert(back.data == m.data.map_values(|p: Color| premul_pixel(p)).map_values(
        |p: Color| unpremul_pixel(p),
    ));
    crate::pixels::lemma_premul_roundtrip_opaque_seq(m.data);
}


/// Crop precedes flip: after cropping to a single row — a single pixel
/// included — the flip stage is an exact no-op, so what comes out is the
/// cropped pixels as authored, not a mirror of the whole source.
pub proof fn law_flip_after_crop_to_single_row(m: AssetModel)
    requires
        m.wf(),
        m.height == 1,
    ensures
        flip_stage(m, true) == m,
{
    if !m.is_empty() {
        crate::pixels::lemma_flip_single_row(m.data, m.width);
    }
}

/// Nearest-quality exactness: resizing a 1 by 1 source to any target
/// size with nearest quality yields the single source pixel in every
/// output cell — a true point sample, with no blending.
pub proof fn law_nearest_resize_exact_on_unit_source(m: AssetModel, t: TargetSize)
    requires
        m.wf(),
        m.width == 1,
        m.height == 1,
        0 < t.width <= MAX_DIM,
        0 < t.height <= MAX_DIM,
    ensures
        resize_stage(m, FilterQuality::Nearest, Some(t)).data.len() == t.width * t.height,
        forall|k: int|
            0 <= k < t.width * t.height ==> resize_stage(
                m,
                FilterQuality::Nearest,
                Some(t),
            ).data[k] == m.data[0],
{
    if t.width == 1 && t.height == 1 {
        assert(resize_stage(m, FilterQuality::Nearest, Some(t)) == m);
    } else {
        crate::pixels::lemma_nearest_unit_source(m.data, t.width as int, t.height as int);
    }
}

} // verus!
