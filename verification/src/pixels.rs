//! The pixel transforms of the ingestion pipeline: byte conversion,
//! cropping, vertical flipping, resampling and alpha premultiplication.
//!
//! Each transform is a pure function of its input grid; the spec functions
//! here are the reference semantics the executable loops are proved
//! against.

use vstd::prelude::*;

use crate::color::Color;
use crate::device::MAX_DIM;
use crate::grid::{
    lemma_div_strict_bound, lemma_flat_index, lemma_grid_index_bound, lemma_mul_le,
    lemma_scaled_coord_bound,
};

verus! {

// ---------------------------------------------------------------------
// Bytes <-> pixels
// ---------------------------------------------------------------------
/// The color stored at pixel `i` of an RGBA byte buffer.
pub open spec fn rgba_at(b: Seq<u8>, i: int) -> Color {
    Color { r: b[4 * i], g: b[4 * i + 1], b: b[4 * i + 2], a: b[4 * i + 3] }
}

/// The pixel grid held by an RGBA byte buffer, four bytes per pixel.
pub open spec fn pixels_of_rgba(b: Seq<u8>) -> Seq<Color> {
    Seq::new((b.len() / 4) as nat, |i: int| rgba_at(b, i))
}

/// The RGBA byte buffer of a pixel grid, four bytes per pixel.
pub open spec fn rgba_bytes_of(s: Seq<Color>) -> Seq<u8> {
    Seq::new((s.len() * 4) as nat,
        |j: int|
            {
                let c = s[j / 4];
                if j % 4 == 0 {
                    c.r
                } else if j % 4 == 1 {
                    c.g
                } else if j % 4 == 2 {
                    c.b
                } else {
                    c.a
                }
            },
    )
}

/// Reads an RGBA byte buffer into one `Color` per pixel.
pub fn pixels_from_rgba(bytes: &Vec<u8>) -> (out: Vec<Color>)
    requires
        bytes@.len() % 4 == 0,
    ensures
        out@ == pixels_of_rgba(bytes@),
{
    let ghost target = pixels_of_rgba(bytes@);
    let n: usize = bytes.len() / 4;
    let mut out: Vec<Color> = Vec::new();
    let mut i: usize = 0;
    while i < n
        invariant
            n == bytes@.len() / 4,
            bytes@.len() % 4 == 0,
            bytes@.len() <= usize::MAX,
            i <= n,
            target == pixels_of_rgba(bytes@),
            out@ == target.take(i as int),
        decreases n - i,
    {
        proof {
            vstd::arithmetic::div_mod::lemma_fundamental_div_mod(bytes@.len() as int, 4);
            assert(4 * n == bytes@.len());
            assert(4 * i + 3 < bytes@.len());
        }
        let c = Color {
            r: bytes[4 * i],
            g: bytes[4 * i + 1],
            b: bytes[4 * i + 2],
            a: bytes[4 * i + 3],
        };
        out.push(c);
        proof {
            assert(out@ =~= target.take(i + 1));
        }
        i = i + 1;
    }
    proof {
        assert(out@ =~= target);
    }
    out
}

/// Writes a pixel grid out as an RGBA byte buffer.
pub fn rgba_from_pixels(px: &Vec<Color>) -> (out: Vec<u8>)
    requires
        px@.len() * 4 <= usize::MAX,
    ensures
        out@ == rgba_bytes_of(px@),
{
    let ghost target = rgba_bytes_of(px@);
    let n: usize = px.len();
    let mut out: Vec<u8> = Vec::new();
    let mut i: usize = 0;
    while i < n
        invariant
            n == px@.len(),
            n * 4 <= usize::MAX,
            i <= n,
            target == rgba_bytes_of(px@),
            out@ == target.take(4 * i as int),
        decreases n - i,
    {
        let c = px[i];
        out.push(c.r);
        out.push(c.g);
        out.push(c.b);
        out.push(c.a);
        proof {
            assert((4 * i as int) / 4 == i as int && (4 * i as int) % 4 == 0);
            assert((4 * i as int + 1) / 4 == i as int && (4 * i as int + 1) % 4 == 1);
            assert((4 * i as int + 2) / 4 == i as int && (4 * i as int + 2) % 4 == 2);
            assert((4 * i as int + 3) / 4 == i as int && (4 * i as int + 3) % 4 == 3);
            assert(out@ =~= target.take(4 * (i + 1)));
        }
        i = i + 1;
    }
    proof {
        assert(out@ =~= target);
    }
    out
}

// ---------------------------------------------------------------------
// Crop
// ---------------------------------------------------------------------
/// The `cw` by `ch` sub-grid of `s` (of width `w`) whose top-left corner
/// is at `(rx, ry)`.
pub open spec fn crop_fn(s: Seq<Color>, w: int, rx: int, ry: int, cw: int, ch: int) -> Seq<
    Color,
> {
    Seq::new((cw * ch) as nat, |k: int| s[(ry + k / cw) * w + rx + k % cw])
}

/// Crops the grid to the given in-bounds rectangle.
pub fn crop_pixels(src: &Vec<Color>, w: u32, h: u32, rx: u32, ry: u32, cw: u32, ch: u32) -> (out:
    Vec<Color>)
    requires
        src@.len() == w * h,
        w <= MAX_DIM,
        h <= MAX_DIM,
        0 < cw,
        0 < ch,
        rx + cw <= w,
        ry + ch <= h,
    ensures
        out@ == crop_fn(src@, w as int, rx as int, ry as int, cw as int, ch as int),
{
    let ghost target = crop_fn(src@, w as int, rx as int, ry as int, cw as int, ch as int);
    proof {
        lemma_mul_le(cw as int, ch as int, MAX_DIM as int, MAX_DIM as int);
    }
    let total: usize = (cw as usize) * (ch as usize);
    let mut out: Vec<Color> = Vec::new();
    let mut k: usize = 0;
    while k < total
        invariant
            src@.len() == w * h,
            w <= MAX_DIM,
            h <= MAX_DIM,
            0 < cw,
            0 < ch,
            rx + cw <= w,
            ry + ch <= h,
            total == cw * ch,
            k <= total,
            target == crop_fn(src@, w as int, rx as int, ry as int, cw as int, ch as int),
            out@ == target.take(k as int),
        decreases total - k,
    {
        proof {
            lemma_flat_index(k as int, cw as int, ch as int);
        }
        let x: usize = k % (cw as usize);
        let y: usize = k / (cw as usize);
        proof {
            lemma_grid_index_bound(rx + x as int, ry + y as int, w as int, h as int);
            lemma_mul_le(ry + y as int, w as int, MAX_DIM as int, MAX_DIM as int);
        }
        let idx: usize = (ry as usize + y) * (w as usize) + rx as usize + x;
        out.push(src[idx]);
        proof {
            assert(out@ =~= target.take(k + 1));
        }
        k = k + 1;
    }
    proof {
        assert(out@ =~= target);
    }
    out
}

// ---------------------------------------------------------------------
// Vertical flip
// ---------------------------------------------------------------------
/// The grid with its rows in reverse order.
pub open spec fn flip_fn(s: Seq<Color>, w: int, h: int) -> Seq<Color> {
    Seq::new((w * h) as nat, |k: int| s[(h - 1 - k / w) * w + k % w])
}

/// Mirrors the grid vertically.
pub fn flip_pixels(src: &Vec<Color>, w: u32, h: u32) -> (out: Vec<Color>)
    requires
        src@.len() == w * h,
        0 < w <= MAX_DIM,
        0 < h <= MAX_DIM,
    ensures
        out@ == flip_fn(src@, w as int, h as int),
{
    let ghost target = flip_fn(src@, w as int, h as int);
    proof {
        lemma_mul_le(w as int, h as int, MAX_DIM as int, MAX_DIM as int);
    }
    let total: usize = (w as usize) * (h as usize);
    let mut out: Vec<Color> = Vec::new();
    let mut k: usize = 0;
    while k < total
        invariant
            src@.len() == w * h,
            0 < w <= MAX_DIM,
            0 < h <= MAX_DIM,
            total == w * h,
            k <= total,
            target == flip_fn(src@, w as int, h as int),
            out@ == target.take(k as int),
        decreases total - k,
    {
        proof {
            lemma_flat_index(k as int, w as int, h as int);
        }
        let x: usize = k % (w as usize);
        let y: usize = k / (w as usize);
        proof {
            lemma_grid_index_bound(x as int, h - 1 - y as int, w as int, h as int);
            lemma_mul_le(h - 1 - y as int, w as int, MAX_DIM as int, MAX_DIM as int);
        }
        let idx: usize = (h as usize - 1 - y) * (w as usize) + x;
        out.push(src[idx]);
        proof {
            assert(out@ =~= target.take(k + 1));
        }
        k = k + 1;
    }
    proof {
        assert(out@ =~= target);
    }
    out
}

// ---------------------------------------------------------------------
// Resampling
// ---------------------------------------------------------------------
/// Point-sampled resize: output cell `(x, y)` takes the source cell at
/// `(x * sw / tw, y * sh / th)`, with no blending at all.
pub open spec fn nearest_fn(s: Seq<Color>, sw: int, sh: int, tw: int, th: int) -> Seq<Color> {
    Seq::new((tw * th) as nat, |k: int| s[(k / tw * sh / th) * sw + (k % tw) * sw / tw])
}

/// Resizes by pure point sampling; used for nearest quality.
pub fn resize_nearest(src: &Vec<Color>, sw: u32, sh: u32, tw: u32, th: u32) -> (out: Vec<Color>)
    requires
        src@.len() == sw * sh,
        0 < sw <= MAX_DIM,
        0 < sh <= MAX_DIM,
        0 < tw <= MAX_DIM,
        0 < th <= MAX_DIM,
    ensures
        out@ == nearest_fn(src@, sw as int, sh as int, tw as int, th as int),
{
    let ghost target = nearest_fn(src@, sw as int, sh as int, tw as int, th as int);
    proof {
        lemma_mul_le(tw as int, th as int, MAX_DIM as int, MAX_DIM as int);
    }
    let total: usize = (tw as usize) * (th as usize);
    let mut out: Vec<Color> = Vec::new();
    let mut k: usize = 0;
    while k < total
        invariant
            src@.len() == sw * sh,
            0 < sw <= MAX_DIM,
            0 < sh <= MAX_DIM,
            0 < tw <= MAX_DIM,
            0 < th <= MAX_DIM,
            total == tw * th,
            k <= total,
            target == nearest_fn(src@, sw as int, sh as int, tw as int, th as int),
            out@ == target.take(k as int),
        decreases total - k,
    {
        proof {
            lemma_flat_index(k as int, tw as int, th as int);
        }
        let x: usize = k % (tw as usize);
        let y: usize = k / (tw as usize);
        proof {
            lemma_scaled_coord_bound(x as int, sw as int, tw as int);
            lemma_scaled_coord_bound(y as int, sh as int, th as int);
            lemma_mul_le(x as int, sw as int, MAX_DIM as int, MAX_DIM as int);
            lemma_mul_le(y as int, sh as int, MAX_DIM as int, MAX_DIM as int);
        }
        let sx: usize = x * (sw as usize) / (tw as usize);
        let sy: usize = y * (sh as usize) / (th as usize);
        proof {
            lemma_grid_index_bound(sx as int, sy as int, sw as int, sh as int);
            lemma_mul_le(sy as int, sw as int, MAX_DIM as int, MAX_DIM as int);
            assert(y as int * sh as int / th as int == k as int / tw as int * sh as int
                / th as int);
        }
        let idx: usize = sy * (sw as usize) + sx;
        out.push(src[idx]);
        proof {
            assert(out@ =~= target.take(k + 1));
        }
        k = k + 1;
    }
    proof {
        assert(out@ =~= target);
    }
    out
}

/// Rounded average of four channel values.
pub open spec fn avg4_ch(c1: u8, c2: u8, c3: u8, c4: u8) -> u8 {
    ((c1 + c2 + c3 + c4 + 2) / 4) as u8
}

/// Rounded channel-wise average of four colors.
pub open spec fn avg4(p1: Color, p2: Color, p3: Color, p4: Color) -> Color {
    Color {
        r: avg4_ch(p1.r, p2.r, p3.r, p4.r),
        g: avg4_ch(p1.g, p2.g, p3.g, p4.g),
        b: avg4_ch(p1.b, p2.b, p3.b, p4.b),
        a: avg4_ch(p1.a, p2.a, p3.a, p4.a),
    }
}

/// Smoothed sample for output cell `(x, y)`: the average of the point
/// sample and its right, lower and lower-right neighbours (clamped to the
/// source edge). All smoothing qualities share this one reconstruction
/// filter.
pub open spec fn smooth_sample(
    s: Seq<Color>,
    sw: int,
    sh: int,
    tw: int,
    th: int,
    x: int,
    y: int,
) -> Color {
    let sx = x * sw / tw;
    let sy = y * sh / th;
    let x2 = if sx + 1 < sw {
        sx + 1
    } else {
        sw - 1
    };
    let y2 = if sy + 1 < sh {
        sy + 1
    } else {
        sh - 1
    };
    avg4(
        s[sy * sw + sx],
        s[sy * sw + x2],
        s[y2 * sw + sx],
        s[y2 * sw + x2],
    )
}

/// Smoothed resize: every output cell is the smoothed sample at its
/// scaled source position.
pub open spec fn smooth_fn(s: Seq<Color>, sw: int, sh: int, tw: int, th: int) -> Seq<Color> {
    Seq::new((tw * th) as nat, |k: int| smooth_sample(s, sw, sh, tw, th, k % tw, k / tw))
}

/// Resizes with the smoothing filter; used for the low, medium and high
/// qualities.
pub fn resize_smooth(src: &Vec<Color>, sw: u32, sh: u32, tw: u32, th: u32) -> (out: Vec<Color>)
    requires
        src@.len() == sw * sh,
        0 < sw <= MAX_DIM,
        0 < sh <= MAX_DIM,
        0 < tw <= MAX_DIM,
        0 < th <= MAX_DIM,
    ensures
        out@ == smooth_fn(src@, sw as int, sh as int, tw as int, th as int),
{
    let ghost target = smooth_fn(src@, sw as int, sh as int, tw as int, th as int);
    proof {
        lemma_mul_le(tw as int, th as int, MAX_DIM as int, MAX_DIM as int);
    }
    let total: usize = (tw as usize) * (th as usize);
    let mut out: Vec<Color> = Vec::new();
    let mut k: usize = 0;
    while k < total
        invariant
            src@.len() == sw * sh,
            0 < sw <= MAX_DIM,
            0 < sh <= MAX_DIM,
            0 < tw <= MAX_DIM,
            0 < th <= MAX_DIM,
            total == tw * th,
            k <= total,
            target == smooth_fn(src@, sw as int, sh as int, tw as int, th as int),
            out@ == target.take(k as int),
        decreases total - k,
    {
        proof {
            lemma_flat_index(k as int, tw as int, th as int);
        }
        let x: usize = k % (tw as usize);
        let y: usize = k / (tw as usize);
        proof {
            lemma_scaled_coord_bound(x as int, sw as int, tw as int);
            lemma_scaled_coord_bound(y as int, sh as int, th as int);
            lemma_mul_le(x as int, sw as int, MAX_DIM as int, MAX_DIM as int);
            lemma_mul_le(y as int, sh as int, MAX_DIM as int, MAX_DIM as int);
        }
        let sx: usize = x * (sw as usize) / (tw as usize);
        let sy: usize = y * (sh as usize) / (th as usize);
        let x2: usize = if sx + 1 < sw as usize {
            sx + 1
        } else {
            sw as usize - 1
        };
        let y2: usize = if sy + 1 < sh as usize {
            sy + 1
        } else {
            sh as usize - 1
        };
        proof {
            lemma_grid_index_bound(sx as int, sy as int, sw as int, sh as int);
            lemma_grid_index_bound(x2 as int, sy as int, sw as int, sh as int);
            lemma_grid_index_bound(sx as int, y2 as int, sw as int, sh as int);
            lemma_grid_index_bound(x2 as int, y2 as int, sw as int, sh as int);
            lemma_mul_le(sy as int, sw as int, MAX_DIM as int, MAX_DIM as int);
            lemma_mul_le(y2 as int, sw as int, MAX_DIM as int, MAX_DIM as int);
        }
        let p11 = src[sy * (sw as usize) + sx];
        let p12 = src[sy * (sw as usize) + x2];
        let p21 = src[y2 * (sw as usize) + sx];
        let p22 = src[y2 * (sw as usize) + x2];
        let c = Color {
            r: ((p11.r as u32 + p12.r as u32 + p21.r as u32 + p22.r as u32 + 2) / 4) as u8,
            g: ((p11.g as u32 + p12.g as u32 + p21.g as u32 + p22.g as u32 + 2) / 4) as u8,
            b: ((p11.b as u32 + p12.b as u32 + p21.b as u32 + p22.b as u32 + 2) / 4) as u8,
            a: ((p11.a as u32 + p12.a as u32 + p21.a as u32 + p22.a as u32 + 2) / 4) as u8,
        };
        out.push(c);
        proof {
            assert(c == smooth_sample(
                src@,
                sw as int,
                sh as int,
                tw as int,
                th as int,
                x as int,
                y as int,
            ));
            assert(out@ =~= target.take(k + 1));
        }
        k = k + 1;
    }
    proof {
        assert(out@ =~= target);
    }
    out
}

// ---------------------------------------------------------------------
// Alpha premultiplication
// ---------------------------------------------------------------------
/// A channel multiplied by the pixel's alpha, rounded to nearest.
pub open spec fn premul_ch(c: u8, a: u8) -> u8 {
    ((c * a + 127) / 255) as u8
}

/// A premultiplied channel divided back out by the pixel's alpha, rounded
/// to nearest and clamped; an alpha of zero yields zero.
pub open spec fn unpremul_ch(c: u8, a: u8) -> u8 {
    if a == 0 {
        0
    } else {
        let v = (c as int * 255 + a as int / 2) / a as int;
        if v > 255 {
            255
        } else {
            v as u8
        }
    }
}

pub open spec fn premul_pixel(p: Color) -> Color {
    Color { r: premul_ch(p.r, p.a), g: premul_ch(p.g, p.a), b: premul_ch(p.b, p.a), a: p.a }
}

pub open spec fn unpremul_pixel(p: Color) -> Color {
    Color {
        r: unpremul_ch(p.r, p.a),
        g: unpremul_ch(p.g, p.a),
        b: unpremul_ch(p.b, p.a),
        a: p.a,
    }
}

/// Multiplies every color channel by its pixel's alpha.
pub fn premultiply_pixels(src: &Vec<Color>) -> (out: Vec<Color>)
    ensures
        out@ == src@.map_values(|p: Color| premul_pixel(p)),
{
    let ghost target = src@.map_values(|p: Color| premul_pixel(p));
    let mut out: Vec<Color> = Vec::new();
    let mut i: usize = 0;
    while i < src.len()
        invariant
            i <= src@.len(),
            target == src@.map_values(|p: Color| premul_pixel(p)),
            out@ == target.take(i as int),
        decreases src@.len() - i,
    {
        let p = src[i];
        proof {
            assert(p.r * p.a <= 255 * 255) by (nonlinear_arith)
                requires
                    p.r <= 255,
                    p.a <= 255,
            ;
            assert(p.g * p.a <= 255 * 255) by (nonlinear_arith)
                requires
                    p.g <= 255,
                    p.a <= 255,
            ;
            assert(p.b * p.a <= 255 * 255) by (nonlinear_arith)
                requires
                    p.b <= 255,
                    p.a <= 255,
            ;
        }
        let c = Color {
            r: ((p.r as u32 * p.a as u32 + 127) / 255) as u8,
            g: ((p.g as u32 * p.a as u32 + 127) / 255) as u8,
            b: ((p.b as u32 * p.a as u32 + 127) / 255) as u8,
            a: p.a,
        };
        out.push(c);
        proof {
            assert(out@ =~= target.take(i + 1));
        }
        i = i + 1;
    }
    proof {
        assert(out@ =~= target);
    }
    out
}

/// Divides every color channel back out by its pixel's alpha.
pub fn unpremultiply_pixels(src: &Vec<Color>) -> (out: Vec<Color>)
    ensures
        out@ == src@.map_values(|p: Color| unpremul_pixel(p)),
{
    let ghost target = src@.map_values(|p: Color| unpremul_pixel(p));
    let mut out: Vec<Color> = Vec::new();
    let mut i: usize = 0;
    while i < src.len()
        invariant
            i <= src@.len(),
            target == src@.map_values(|p: Color| unpremul_pixel(p)),
            out@ == target.take(i as int),
        decreases src@.len() - i,
    {
        let p = src[i];
        let c = Color {
            r: unpremul_channel(p.r, p.a),
            g: unpremul_channel(p.g, p.a),
            b: unpremul_channel(p.b, p.a),
            a: p.a,
        };
        out.push(c);
        proof {
            assert(out@ =~= target.take(i + 1));
        }
        i = i + 1;
    }
    proof {
        assert(out@ =~= target);
    }
    out
}

/// One channel of [`unpremultiply_pixels`].
fn unpremul_channel(c: u8, a: u8) -> (r: u8)
    ensures
        r == unpremul_ch(c, a),
{
    if a == 0 {
        0
    } else {
        let v: u32 = (c as u32 * 255 + a as u32 / 2) / a as u32;
        if v > 255 {
            255
        } else {
            v as u8
        }
    }
}

/// Premultiplying a fully opaque pixel and dividing the alpha back out
/// restores the pixel exactly: at alpha 255 both channel maps are the
/// identity.
pub proof fn lemma_premul_roundtrip_opaque(p: Color)
    requires
        p.a == 255,
    ensures
        unpremul_pixel(premul_pixel(p)) == p,
{
    lemma_premul_ch_opaque(p.r);
    lemma_premul_ch_opaque(p.g);
    lemma_premul_ch_opaque(p.b);
    lemma_unpremul_ch_opaque(p.r);
    lemma_unpremul_ch_opaque(p.g);
    lemma_unpremul_ch_opaque(p.b);
}

/// At alpha 255, premultiplication keeps every channel value.
pub proof fn lemma_premul_ch_opaque(c: u8)
    ensures
        premul_ch(c, 255) == c,
{
    vstd::arithmetic::div_mod::lemma_fundamental_div_mod_converse(
        c * 255 + 127,
        255,
        c as int,
        127,
    );
}

/// At alpha 255, unpremultiplication keeps every channel value.
pub proof fn lemma_unpremul_ch_opaque(c: u8)
    ensures
        unpremul_ch(c, 255) == c,
{
    vstd::arithmetic::div_mod::lemma_fundamental_div_mod_converse(
        c * 255 + 127,
        255,
        c as int,
        127,
    );
}


/// An owned copy of a pixel buffer.
pub fn copy_pixels(src: &Vec<Color>) -> (out: Vec<Color>)
    ensures
        out@ == src@,
{
    let mut out: Vec<Color> = Vec::new();
    let mut i: usize = 0;
    while i < src.len()
        invariant
            i <= src@.len(),
            out@ == src@.take(i as int),
        decreases src@.len() - i,
    {
        out.push(src[i]);
        proof {
            assert(out@ =~= src@.take(i + 1));
        }
        i = i + 1;
    }
    proof {
        assert(out@ =~= src@);
    }
    out
}


/// A vertical flip of a single-row grid is a no-op: with one row there
/// is nothing to mirror.
pub proof fn lemma_flip_single_row(s: Seq<Color>, w: int)
    requires
        s.len() == w,
        0 < w,
    ensures
        flip_fn(s, w, 1) == s,
{
    assert forall|k: int| 0 <= k < w implies flip_fn(s, w, 1)[k] == s[k] by {
        lemma_flat_index(k, w, 1);
    }
    assert(flip_fn(s, w, 1) =~= s);
}

/// Nearest-quality exactness from a single-pixel source: point sampling
/// a 1 by 1 grid to any size yields that pixel everywhere, with no
/// blending at all.
pub proof fn lemma_nearest_unit_source(s: Seq<Color>, tw: int, th: int)
    requires
        s.len() == 1,
        0 < tw,
        0 < th,
    ensures
        nearest_fn(s, 1, 1, tw, th).len() == tw * th,
        forall|k: int| 0 <= k < tw * th ==> nearest_fn(s, 1, 1, tw, th)[k] == s[0],
{
    assert forall|k: int| 0 <= k < tw * th implies nearest_fn(s, 1, 1, tw, th)[k] == s[0] by {
        lemma_flat_index(k, tw, th);
        lemma_div_strict_bound(k / tw, 1, th);
        lemma_div_strict_bound(k % tw, 1, tw);
        assert(k / tw * 1 == k / tw);
        assert((k % tw) * 1 == k % tw);
        assert((k / tw * 1 / th) * 1 + (k % tw) * 1 / tw == 0);
    }
}

/// Premultiplying and then unpremultiplying a fully opaque grid restores
/// every pixel exactly.
pub proof fn lemma_premul_roundtrip_opaque_seq(s: Seq<Color>)
    requires
        forall|i: int| 0 <= i < s.len() ==> (#[trigger] s[i]).a == 255,
    ensures
        s.map_values(|p: Color| premul_pixel(p)).map_values(|p: Color| unpremul_pixel(p)) == s,
{
    let m = s.map_values(|p: Color| premul_pixel(p)).map_values(|p: Color| unpremul_pixel(p));
    assert forall|i: int| 0 <= i < s.len() implies m[i] == s[i] by {
        lemma_premul_roundtrip_opaque(s[i]);
    }
    assert(m =~= s);
}


/// The premultiply round trip at any nonzero alpha restores the channel
/// up to rounding: the result differs from the original by at most
/// `(127 + a) / a`, which shrinks to zero as alpha approaches full
/// opacity. (At alpha 255 the round trip is exact; see
/// [`lemma_premul_roundtrip_opaque`].)
pub proof fn lemma_premul_roundtrip_bounded(c: u8, a: u8)
    requires
        a > 0,
    ensures
        a * (unpremul_ch(premul_ch(c, a), a) - c) <= 127 + a,
        a * (c - unpremul_ch(premul_ch(c, a), a)) <= 127 + a,
{
    let ci = c as int;
    let ai = a as int;
    let ca = ci * ai;
    let p = (ca + 127) / 255;
    assert(0 <= ca <= 255 * 255) by (nonlinear_arith)
        requires
            ca == ci * ai,
            0 <= ci <= 255,
            0 < ai <= 255,
    ;
    vstd::arithmetic::div_mod::lemma_fundamental_div_mod(ca + 127, 255);
    vstd::arithmetic::div_mod::lemma_mod_bound(ca + 127, 255);
    assert(ca - 127 <= 255 * p <= ca + 127);
    assert(0 <= p <= 255);
    assert(premul_ch(c, a) == p as u8);
    let half = ai / 2;
    vstd::arithmetic::div_mod::lemma_fundamental_div_mod(ai, 2);
    assert(2 * half <= ai <= 2 * half + 1);
    let v = (p * 255 + half) / ai;
    vstd::arithmetic::div_mod::lemma_fundamental_div_mod(p * 255 + half, ai);
    vstd::arithmetic::div_mod::lemma_mod_bound(p * 255 + half, ai);
    assert(p * 255 + half - (ai - 1) <= ai * v <= p * 255 + half);
    assert(p * 255 == 255 * p);
    assert(0 <= v);
    let u = unpremul_ch(premul_ch(c, a), a) as int;
    if v > 255 {
        assert(u == 255);
        assert(ai * 256 <= ai * v) by (nonlinear_arith)
            requires
                256 <= v,
                0 < ai,
        ;
        assert(ai * v <= 255 * p + half);
        assert(ai * 256 <= ca + 127 + half);
        assert(ai * (u - ci) == ai * 256 - ai - ca) by (nonlinear_arith)
            requires
                u == 255,
                ca == ci * ai,
        ;
        assert(ai * 256 <= ca + 127 + half);
        assert(ai * (u - ci) <= 127 + ai);
        assert(ai * (ci - u) <= 0) by (nonlinear_arith)
            requires
                ci <= 255,
                u == 255,
                0 < ai,
        ;
        assert(ai * (ci - u) <= 127 + ai);
    } else {
        assert(u == v);
        assert(ai * u - ai * ci == ai * (u - ci)) by (nonlinear_arith);
        assert(ai * u <= ca + 127 + half);
        assert(ai * (u - ci) <= 127 + half);
        assert(ai * u >= ca - 127 + half - ai + 1);
        assert(ai * ci - ai * u == ai * (ci - u)) by (nonlinear_arith);
        assert(ai * (ci - u) <= 127 - half + ai - 1);
    }
}

} // verus!
