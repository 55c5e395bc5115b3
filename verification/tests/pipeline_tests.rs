use canvas_core::asset::{AlphaType, ColorSpaceTag};
use canvas_core::color::Color;
use canvas_core::pipeline::{
    create_from_image_asset_src_rect, create_image_asset, create_image_asset_decoded, AlphaPolicy,
    ColorSpacePolicy, CropRect, DecodedImage, Recipe, TargetSize,
};
use canvas_core::state::FilterQuality;

fn rgba(r: u8, g: u8, b: u8, a: u8) -> Color {
    Color { r, g, b, a }
}

fn bytes_of(pixels: &[Color]) -> Vec<u8> {
    let mut out = Vec::new();
    for p in pixels {
        out.push(p.r);
        out.push(p.g);
        out.push(p.b);
        out.push(p.a);
    }
    out
}

fn plain_recipe() -> Recipe {
    Recipe {
        source_rect: None,
        flip_y: false,
        premultiply_alpha: AlphaPolicy::AsSource,
        color_space_conversion: ColorSpacePolicy::AsSource,
        resize_quality: FilterQuality::Low,
        target_size: None,
    }
}

#[test]
fn empty_input_returns_sentinel() {
    let out = create_image_asset(&Vec::new(), 0, 0, plain_recipe());
    assert_eq!(out.width, 0);
    assert_eq!(out.height, 0);
    assert_eq!(out.data.len(), 0);
}

#[test]
fn empty_bytes_with_claimed_dims_return_sentinel() {
    let out = create_image_asset(&Vec::new(), 4, 4, plain_recipe());
    assert_eq!(out.width, 0);
    assert_eq!(out.height, 0);
    assert_eq!(out.data.len(), 0);
}

#[test]
fn wrong_byte_count_returns_sentinel() {
    let out = create_image_asset(&vec![1, 2, 3], 1, 1, plain_recipe());
    assert!(out.is_empty());
}

#[test]
fn failed_decode_returns_sentinel() {
    let out = create_image_asset_decoded(None, plain_recipe());
    assert_eq!(out.width, 0);
    assert_eq!(out.height, 0);
    assert_eq!(out.data.len(), 0);
}

#[test]
fn decoded_buffer_ingests_like_raw() {
    let px = [rgba(1, 2, 3, 255), rgba(4, 5, 6, 255)];
    let decoded = DecodedImage { width: 2, height: 1, bytes: bytes_of(&px) };
    let out = create_image_asset_decoded(Some(decoded), plain_recipe());
    assert_eq!(out.width, 2);
    assert_eq!(out.height, 1);
    assert_eq!(out.data, vec![rgba(1, 2, 3, 255), rgba(4, 5, 6, 255)]);
    assert_eq!(out.alpha_type, AlphaType::Unpremultiplied);
    assert_eq!(out.color_space, ColorSpaceTag::Untagged);
}

#[test]
fn crop_precedes_flip() {
    // A 2x2 source with distinct per-pixel colors; cropping to the
    // bottom-right 1x1 pixel and then flipping must return that same
    // pixel's original color: the flip of a 1x1 region is a no-op.
    let px = [
        rgba(10, 0, 0, 255),
        rgba(0, 20, 0, 255),
        rgba(0, 0, 30, 255),
        rgba(40, 40, 40, 255),
    ];
    let mut recipe = plain_recipe();
    recipe.source_rect = Some(CropRect { x: 1, y: 1, width: 1, height: 1 });
    recipe.flip_y = true;
    let out = create_image_asset(&bytes_of(&px), 2, 2, recipe);
    assert_eq!(out.width, 1);
    assert_eq!(out.height, 1);
    assert_eq!(out.data, vec![rgba(40, 40, 40, 255)]);
}

#[test]
fn flip_reverses_rows() {
    let px = [rgba(1, 1, 1, 255), rgba(2, 2, 2, 255)];
    let mut recipe = plain_recipe();
    recipe.flip_y = true;
    let out = create_image_asset(&bytes_of(&px), 1, 2, recipe);
    assert_eq!(out.data, vec![rgba(2, 2, 2, 255), rgba(1, 1, 1, 255)]);
}

#[test]
fn nearest_resize_is_exact_on_solid_source() {
    // Resizing a solid 1x1 source to 4x4 with nearest quality must
    // yield all 16 output pixels equal to the source pixel's color.
    let px = [rgba(200, 100, 50, 128)];
    let mut recipe = plain_recipe();
    recipe.resize_quality = FilterQuality::Nearest;
    recipe.target_size = Some(TargetSize { width: 4, height: 4 });
    let out = create_image_asset(&bytes_of(&px), 1, 1, recipe);
    assert_eq!(out.width, 4);
    assert_eq!(out.height, 4);
    assert_eq!(out.data.len(), 16);
    for p in &out.data {
        assert_eq!(*p, rgba(200, 100, 50, 128));
    }
}

#[test]
fn nearest_downscale_point_samples() {
    let px = [
        rgba(10, 0, 0, 255),
        rgba(0, 20, 0, 255),
        rgba(0, 0, 30, 255),
        rgba(40, 40, 40, 255),
    ];
    let mut recipe = plain_recipe();
    recipe.resize_quality = FilterQuality::Nearest;
    recipe.target_size = Some(TargetSize { width: 1, height: 1 });
    let out = create_image_asset(&bytes_of(&px), 2, 2, recipe);
    assert_eq!(out.data, vec![rgba(10, 0, 0, 255)]);
}

#[test]
fn smooth_downscale_averages_neighbours() {
    // 2x2 down to 1x1 with a smoothing quality: the rounded average of
    // all four pixels, channel by channel: (10+0+0+40+2)/4 = 13.
    let px = [
        rgba(10, 0, 0, 255),
        rgba(0, 20, 0, 255),
        rgba(0, 0, 30, 255),
        rgba(40, 40, 40, 255),
    ];
    let mut recipe = plain_recipe();
    recipe.resize_quality = FilterQuality::High;
    recipe.target_size = Some(TargetSize { width: 1, height: 1 });
    let out = create_image_asset(&bytes_of(&px), 2, 2, recipe);
    assert_eq!(out.data, vec![rgba(13, 15, 18, 255)]);
}

#[test]
fn equal_target_size_is_a_no_op() {
    let px = [rgba(9, 9, 9, 9), rgba(7, 7, 7, 7)];
    let mut recipe = plain_recipe();
    recipe.target_size = Some(TargetSize { width: 2, height: 1 });
    let out = create_image_asset(&bytes_of(&px), 2, 1, recipe);
    assert_eq!(out.data, vec![rgba(9, 9, 9, 9), rgba(7, 7, 7, 7)]);
}

#[test]
fn zero_target_size_returns_sentinel() {
    let px = [rgba(9, 9, 9, 9)];
    let mut recipe = plain_recipe();
    recipe.target_size = Some(TargetSize { width: 0, height: 4 });
    let out = create_image_asset(&bytes_of(&px), 1, 1, recipe);
    assert!(out.is_empty());
}

#[test]
fn out_of_range_crop_is_clamped() {
    let px = [
        rgba(10, 0, 0, 255),
        rgba(0, 20, 0, 255),
        rgba(0, 0, 30, 255),
        rgba(40, 40, 40, 255),
    ];
    let mut recipe = plain_recipe();
    recipe.source_rect = Some(CropRect { x: -1, y: -1, width: 5, height: 5 });
    let out = create_image_asset(&bytes_of(&px), 2, 2, recipe);
    assert_eq!(out.width, 2);
    assert_eq!(out.height, 2);
    assert_eq!(out.data.len(), 4);
    assert_eq!(out.data[3], rgba(40, 40, 40, 255));
}

#[test]
fn crop_fully_outside_returns_sentinel() {
    let px = [rgba(1, 1, 1, 1)];
    let mut recipe = plain_recipe();
    recipe.source_rect = Some(CropRect { x: 5, y: 5, width: 2, height: 2 });
    let out = create_image_asset(&bytes_of(&px), 1, 1, recipe);
    assert!(out.is_empty());
}

#[test]
fn premultiply_multiplies_channels() {
    // (200 * 51 + 127) / 255 = 40 for each color channel at alpha 51.
    let px = [rgba(200, 200, 200, 51)];
    let mut recipe = plain_recipe();
    recipe.premultiply_alpha = AlphaPolicy::ForceOn;
    let out = create_image_asset(&bytes_of(&px), 1, 1, recipe);
    assert_eq!(out.data, vec![rgba(40, 40, 40, 51)]);
    assert_eq!(out.alpha_type, AlphaType::Premultiplied);
}

#[test]
fn premultiply_toggle_roundtrip_opaque() {
    // Force premultiply on, then force it off on the result: fully
    // opaque pixels come back exactly.
    let px = [rgba(200, 100, 50, 255), rgba(3, 250, 77, 255)];
    let mut on = plain_recipe();
    on.premultiply_alpha = AlphaPolicy::ForceOn;
    let mid = create_image_asset(&bytes_of(&px), 2, 1, on);
    let mut off = plain_recipe();
    off.premultiply_alpha = AlphaPolicy::ForceOff;
    let back = create_from_image_asset_src_rect(&mid, off);
    assert_eq!(back.data, vec![rgba(200, 100, 50, 255), rgba(3, 250, 77, 255)]);
    assert_eq!(back.alpha_type, AlphaType::Unpremultiplied);
}

#[test]
fn premultiply_toggle_roundtrip_half_alpha() {
    // (100 * 128 + 127) / 255 = 50, and (50 * 255 + 64) / 128 = 100:
    // this partially transparent value happens to round-trip exactly.
    let px = [rgba(100, 100, 100, 128)];
    let mut on = plain_recipe();
    on.premultiply_alpha = AlphaPolicy::ForceOn;
    let mid = create_image_asset(&bytes_of(&px), 1, 1, on);
    assert_eq!(mid.data, vec![rgba(50, 50, 50, 128)]);
    let mut off = plain_recipe();
    off.premultiply_alpha = AlphaPolicy::ForceOff;
    let back = create_from_image_asset_src_rect(&mid, off);
    assert_eq!(back.data, vec![rgba(100, 100, 100, 128)]);
}

#[test]
fn color_space_policies_retag_only() {
    let px = [rgba(8, 8, 8, 8)];
    let mut recipe = plain_recipe();
    recipe.color_space_conversion = ColorSpacePolicy::ForceSrgb;
    let tagged = create_image_asset(&bytes_of(&px), 1, 1, recipe);
    assert_eq!(tagged.color_space, ColorSpaceTag::Srgb);
    assert_eq!(tagged.data, vec![rgba(8, 8, 8, 8)]);

    let mut strip = plain_recipe();
    strip.color_space_conversion = ColorSpacePolicy::ForceUntagged;
    let untagged = create_from_image_asset_src_rect(&tagged, strip);
    assert_eq!(untagged.color_space, ColorSpaceTag::Untagged);
    assert_eq!(untagged.data, vec![rgba(8, 8, 8, 8)]);
}

#[test]
fn reingest_does_not_touch_the_source() {
    let px = [rgba(1, 2, 3, 4), rgba(5, 6, 7, 8)];
    let source = create_image_asset(&bytes_of(&px), 2, 1, plain_recipe());
    let mut recipe = plain_recipe();
    recipe.flip_y = true;
    let _derived = create_from_image_asset_src_rect(&source, recipe);
    assert_eq!(source.data, vec![rgba(1, 2, 3, 4), rgba(5, 6, 7, 8)]);
    assert_eq!(source.width, 2);
}

#[test]
fn reingesting_the_sentinel_stays_the_sentinel() {
    let empty = canvas_core::asset::ImageAsset::empty();
    let mut recipe = plain_recipe();
    recipe.flip_y = true;
    recipe.premultiply_alpha = AlphaPolicy::ForceOn;
    recipe.color_space_conversion = ColorSpacePolicy::ForceSrgb;
    let out = create_from_image_asset_src_rect(&empty, recipe);
    assert_eq!(out.width, 0);
    assert_eq!(out.height, 0);
    assert_eq!(out.data.len(), 0);
}

#[test]
fn negative_crop_extent_returns_sentinel() {
    let px = [rgba(1, 1, 1, 1)];
    let mut recipe = plain_recipe();
    recipe.source_rect = Some(CropRect { x: 0, y: 0, width: -3, height: 1 });
    let out = create_image_asset(&bytes_of(&px), 1, 1, recipe);
    assert!(out.is_empty());
}
