//! Images held as their samples, and what the processor does to them:
//! flips, rotations by right angles, crops, brightness and grey levels are
//! computed here and proved sample by sample; decoding, encoding and
//! resampling are the image crate's.

use vstd::prelude::*;
use crate::error::{ClaudeError, Result, is_general_msg};
use crate::image_processing::{ImageProcessor, ImageFormatKind, aspect_fit};
use image::{DynamicImage, ImageBuffer, ImageFormat, ImageReader};
use image::imageops::FilterType;
use std::io::Cursor;

verus! {

/// How the samples of a pixel are laid out: one byte per channel.
#[derive(Debug, Clone, Copy, PartialEq, Eq, Structural)]
pub enum ColorKind {
    /// Grey level.
    L8,
    /// Grey level and alpha.
    La8,
    /// Red, green and blue.
    Rgb8,
    /// Red, green, blue and alpha.
    Rgba8,
}

/// The number of channels of a pixel.
pub open spec fn channels(c: ColorKind) -> nat {
    match c {
        ColorKind::L8 => 1,
        ColorKind::La8 => 2,
        ColorKind::Rgb8 => 3,
        ColorKind::Rgba8 => 4,
    }
}

/// Whether the last channel of a pixel is its alpha.
pub open spec fn has_alpha(c: ColorKind) -> bool {
    c == ColorKind::La8 || c == ColorKind::Rgba8
}

/// An image: its width, height and colour layout, and its samples, row by
/// row from the top, pixel by pixel from the left.
#[derive(Debug, Clone)]
pub struct Image {
    pub width: u32,
    pub height: u32,
    pub color: ColorKind,
    pub samples: Vec<u8>,
}

/// Whether the samples are exactly those of `width` x `height` pixels.
pub open spec fn image_ok(img: Image) -> bool {
    img.samples@.len() == channels(img.color) * img.width * img.height
}

/// The position of channel `k` of pixel (`x`, `y`) among the samples of an
/// image `w` pixels wide with `c` channels.
pub open spec fn sample_index(c: int, w: int, x: int, y: int, k: int) -> int {
    (y * w + x) * c + k
}

/// Channel `k` of the pixel at (`x`, `y`).
pub open spec fn sample_at(img: Image, x: int, y: int, k: int) -> u8 {
    img.samples@[sample_index(channels(img.color) as int, img.width as int, x, y, k)]
}

/// The exact number of channels of a layout.
pub fn channel_count(c: ColorKind) -> (n: usize)
    ensures
        n == channels(c),
{
    match c {
        ColorKind::L8 => 1,
        ColorKind::La8 => 2,
        ColorKind::Rgb8 => 3,
        ColorKind::Rgba8 => 4,
    }
}

/// A rearrangement of pixels: a flip, a rotation clockwise by a right
/// angle, or a crop whose top left corner is at (`x`, `y`).
#[derive(Debug, Clone, Copy, PartialEq, Eq, Structural)]
pub enum Geometry {
    FlipHorizontal,
    FlipVertical,
    Rotate90,
    Rotate180,
    Rotate270,
    Crop { x: u32, y: u32 },
}

/// The pixel of a `w` x `h` image that lands at (`x`, `y`) of the result.
pub open spec fn source_of(g: Geometry, w: int, h: int, x: int, y: int) -> (int, int) {
    match g {
        Geometry::FlipHorizontal => (w - 1 - x, y),
        Geometry::FlipVertical => (x, h - 1 - y),
        Geometry::Rotate90 => (y, h - 1 - x),
        Geometry::Rotate180 => (w - 1 - x, h - 1 - y),
        Geometry::Rotate270 => (w - 1 - y, x),
        Geometry::Crop { x: cx, y: cy } => (cx + x, cy + y),
    }
}

/// Whether every pixel of an `nw` x `nh` result comes from inside the
/// `w` x `h` image.
pub open spec fn sources_inside(g: Geometry, w: int, h: int, nw: int, nh: int) -> bool {
    forall|x: int, y: int| 0 <= x < nw && 0 <= y < nh ==> {
        let s = #[trigger] source_of(g, w, h, x, y);
        0 <= s.0 < w && 0 <= s.1 < h
    }
}

/// The sample that lands at position `i` of the rearranged samples.
pub open spec fn remapped_sample(img: Image, g: Geometry, nw: int, i: int) -> u8 {
    let c = channels(img.color) as int;
    let p = i / c;
    let s = source_of(g, img.width as int, img.height as int, p % nw, p / nw);
    sample_at(img, s.0, s.1, i % c)
}

proof fn lemma_index(c: int, w: int, x: int, y: int, k: int)
    requires
        c > 0,
        w > 0,
        0 <= x < w,
        0 <= y,
        0 <= k < c,
    ensures
        sample_index(c, w, x, y, k) / c == y * w + x,
        sample_index(c, w, x, y, k) % c == k,
        (y * w + x) % w == x,
        (y * w + x) / w == y,
{
    vstd::arithmetic::div_mod::lemma_fundamental_div_mod_converse(sample_index(c, w, x, y, k), c, y * w + x, k);
    vstd::arithmetic::div_mod::lemma_fundamental_div_mod_converse(y * w + x, w, y, x);
}

proof fn lemma_index_bound(c: int, w: int, h: int, x: int, y: int, k: int)
    requires
        0 <= x < w,
        0 <= y < h,
        0 <= k < c,
    ensures
        0 <= sample_index(c, w, x, y, k) < c * w * h,
{
    assert(0 <= y * w + x < w * h) by (nonlinear_arith)
        requires 0 <= x < w, 0 <= y < h;
    assert(0 <= (y * w + x) * c + k < c * w * h) by (nonlinear_arith)
        requires 0 <= y * w + x < w * h, 0 <= k < c;
}

/// The source pixel of (`x`, `y`), computed.
fn source_exec(g: Geometry, w: u32, h: u32, x: u32, y: u32) -> (s: (u32, u32))
    requires
        0 <= source_of(g, w as int, h as int, x as int, y as int).0 < w,
        0 <= source_of(g, w as int, h as int, x as int, y as int).1 < h,
    ensures
        s.0 as int == source_of(g, w as int, h as int, x as int, y as int).0,
        s.1 as int == source_of(g, w as int, h as int, x as int, y as int).1,
{
    match g {
        Geometry::FlipHorizontal => (w - 1 - x, y),
        Geometry::FlipVertical => (x, h - 1 - y),
        Geometry::Rotate90 => (y, h - 1 - x),
        Geometry::Rotate180 => (w - 1 - x, h - 1 - y),
        Geometry::Rotate270 => (w - 1 - y, x),
        Geometry::Crop { x: cx, y: cy } => (cx + x, cy + y),
    }
}

/// The `nw` x `nh` image whose pixel (`x`, `y`) is the source pixel that
/// `g` names.
fn remap(img: &Image, g: Geometry, nw: u32, nh: u32) -> (out: Image)
    requires
        image_ok(*img),
        sources_inside(g, img.width as int, img.height as int, nw as int, nh as int),
        channels(img.color) * nw * nh <= usize::MAX,
    ensures
        out.width == nw,
        out.height == nh,
        out.color == img.color,
        image_ok(out),
        forall|x: int, y: int, k: int| 0 <= x < nw && 0 <= y < nh && 0 <= k < channels(img.color) ==>
            #[trigger] sample_at(out, x, y, k) == sample_at(*img, source_of(g, img.width as int, img.height as int, x, y).0,
                source_of(g, img.width as int, img.height as int, x, y).1, k),
{
    let c = channel_count(img.color);
    assert(c >= 1);
    let n = img.samples.len();
    let w = img.width;
    let h = img.height;
    let ghost ci = c as int;
    let mut out: Vec<u8> = Vec::new();
    let mut y: u32 = 0;
    while y < nh
        invariant
            image_ok(*img),
            n == img.samples@.len(),
            c == channels(img.color),
            w == img.width,
            h == img.height,
            sources_inside(g, w as int, h as int, nw as int, nh as int),
            c * nw * nh <= usize::MAX,
            y <= nh,
            out@.len() == (y * nw) * c,
            forall|i: int| 0 <= i < out@.len() ==> #[trigger] out@[i] == remapped_sample(*img, g, nw as int, i),
        decreases nh - y,
    {
        let mut x: u32 = 0;
        while x < nw
            invariant
                image_ok(*img),
                n == img.samples@.len(),
                c == channels(img.color),
                w == img.width,
                h == img.height,
                sources_inside(g, w as int, h as int, nw as int, nh as int),
                c * nw * nh <= usize::MAX,
                y < nh,
                x <= nw,
                out@.len() == (y * nw + x) * c,
                forall|i: int| 0 <= i < out@.len() ==> #[trigger] out@[i] == remapped_sample(*img, g, nw as int, i),
            decreases nw - x,
        {
            let ghost s = source_of(g, w as int, h as int, x as int, y as int);
            assert(0 <= s.0 < w && 0 <= s.1 < h);
            let (sx, sy) = source_exec(g, w, h, x, y);
            proof {
                assert(0 <= sy * w + sx < w * h) by (nonlinear_arith)
                    requires 0 <= sx < w, 0 <= sy < h;
                assert((sy * w + sx) * c + c <= c * w * h) by (nonlinear_arith)
                    requires 0 <= sy * w + sx < w * h, c >= 0;
                assert(sy * w <= (sy * w + sx) * c) by (nonlinear_arith)
                    requires 0 <= sx, 0 <= sy, 0 <= w, c >= 1;
                assert(c * w * h == img.samples@.len());
            }
            let base: usize = (sy as usize * w as usize + sx as usize) * c;
            let mut k: usize = 0;
            while k < c
                invariant
                    image_ok(*img),
                    n == img.samples@.len(),
                    c == channels(img.color),
                    w == img.width,
                    c * nw * nh <= usize::MAX,
                    y < nh,
                    x < nw,
                    k <= c,
                    base == sample_index(c as int, w as int, sx as int, sy as int, 0),
                    base + c <= img.samples@.len(),
                    s == (sx as int, sy as int),
                    s == source_of(g, w as int, img.height as int, x as int, y as int),
                    out@.len() == (y * nw + x) * c + k,
                    forall|i: int| 0 <= i < out@.len() ==> #[trigger] out@[i] == remapped_sample(*img, g, nw as int, i),
                decreases c - k,
            {
                let v = img.samples[base + k];
                proof {
                    lemma_index(c as int, nw as int, x as int, y as int, k as int);
                    assert(sample_index(c as int, nw as int, x as int, y as int, k as int) == out@.len());
                    assert(base + k == sample_index(c as int, w as int, sx as int, sy as int, k as int));
                }
                out.push(v);
                k = k + 1;
            }
            proof {
                assert((y * nw + x) * c + c == (y * nw + (x + 1)) * c) by (nonlinear_arith);
            }
            x = x + 1;
        }
        proof {
            assert((y * nw + nw) * c == ((y + 1) * nw) * c) by (nonlinear_arith);
        }
        y = y + 1;
    }
    let res = Image { width: nw, height: nh, color: img.color, samples: out };
    proof {
        assert(res.samples@.len() == channels(img.color) * nw * nh) by (nonlinear_arith)
            requires res.samples@.len() == (nh * nw) * c, c == channels(img.color);
        assert forall|x: int, y: int, k: int| 0 <= x < nw && 0 <= y < nh && 0 <= k < channels(img.color) implies
            #[trigger] sample_at(res, x, y, k) == sample_at(*img, source_of(g, img.width as int, img.height as int, x, y).0,
                source_of(g, img.width as int, img.height as int, x, y).1, k) by {
            lemma_index(c as int, nw as int, x, y, k);
            lemma_index_bound(c as int, nw as int, nh as int, x, y, k);
            assert(c * nw * nh == (nh * nw) * c) by (nonlinear_arith);
        }
    }
    res
}

/// Whether `out` is the `nw` x `nh` image whose pixel (`x`, `y`) is the
/// pixel of `img` that `g` names, channel by channel.
pub open spec fn is_remap(img: Image, out: Image, g: Geometry, nw: int, nh: int) -> bool {
    &&& out.width == nw
    &&& out.height == nh
    &&& out.color == img.color
    &&& image_ok(out)
    &&& forall|x: int, y: int, k: int| 0 <= x < nw && 0 <= y < nh && 0 <= k < channels(img.color) ==>
        #[trigger] sample_at(out, x, y, k) == sample_at(img, source_of(g, img.width as int, img.height as int, x, y).0,
            source_of(g, img.width as int, img.height as int, x, y).1, k)
}

/// The remainder of `d` divided by 360, with the sign of `d` (Rust's `%`).
pub open spec fn rem_360(d: int) -> int {
    if d >= 0 { d % 360 } else { -((-d) % 360) }
}

/// The rearrangement that rotating by `degrees` makes: a quarter, half or
/// three-quarter turn clockwise, or none for a whole turn; other angles
/// are not right angles and have none.
pub open spec fn rotation_for(degrees: int) -> Option<Geometry> {
    let r = rem_360(degrees);
    if r == 90 || r == -270 {
        Some(Geometry::Rotate90)
    } else if r == 180 || r == -180 {
        Some(Geometry::Rotate180)
    } else if r == 270 || r == -90 {
        Some(Geometry::Rotate270)
    } else if r == 0 {
        Some(Geometry::Crop { x: 0, y: 0 })
    } else {
        None
    }
}

/// The size of the image that a rotation gives: quarter turns swap the sides.
pub open spec fn rotated_size(g: Geometry, w: int, h: int) -> (int, int) {
    if g == Geometry::Rotate90 || g == Geometry::Rotate270 { (h, w) } else { (w, h) }
}

impl ImageProcessor {
    /// The image mirrored left to right when `horizontal` holds, top to
    /// bottom otherwise.
    pub fn flip(&self, img: &Image, horizontal: bool) -> (res: Result<Image>)
        requires
            image_ok(*img),
        ensures
            res matches Ok(out) && is_remap(*img, out,
                if horizontal { Geometry::FlipHorizontal } else { Geometry::FlipVertical },
                img.width as int, img.height as int),
    {
        let n = img.samples.len();
        let g = if horizontal { Geometry::FlipHorizontal } else { Geometry::FlipVertical };
        assert(sources_inside(g, img.width as int, img.height as int, img.width as int, img.height as int));
        Ok(remap(img, g, img.width, img.height))
    }

    /// The image rotated clockwise by `degrees`, which must be a multiple
    /// of a right angle.
    pub fn rotate(&self, img: &Image, degrees: i32) -> (res: Result<Image>)
        requires
            image_ok(*img),
        ensures
            res is Ok <==> rotation_for(degrees as int) is Some,
            rotation_for(degrees as int) matches Some(g) ==> (res matches Ok(out) && is_remap(*img, out, g,
                rotated_size(g, img.width as int, img.height as int).0,
                rotated_size(g, img.width as int, img.height as int).1)),
            res matches Err(e) ==> is_general_msg(e, "Only 90, 180, 270 degree rotations are supported"@),
    {
        let n = img.samples.len();
        let d = degrees as i64;
        let r: i64 = if d >= 0 { d % 360 } else { -((-d) % 360) };
        let w = img.width;
        let h = img.height;
        proof {
            assert(channels(img.color) * h * w == channels(img.color) * w * h) by (nonlinear_arith);
        }
        if r == 90 || r == -270 {
            Ok(remap(img, Geometry::Rotate90, h, w))
        } else if r == 180 || r == -180 {
            Ok(remap(img, Geometry::Rotate180, w, h))
        } else if r == 270 || r == -90 {
            Ok(remap(img, Geometry::Rotate270, h, w))
        } else if r == 0 {
            Ok(remap(img, Geometry::Crop { x: 0, y: 0 }, w, h))
        } else {
            Err(ClaudeError::General(String::from_str("Only 90, 180, 270 degree rotations are supported")))
        }
    }

    /// The `width` x `height` part of the image whose top left corner is at
    /// (`x`, `y`); a part that reaches past the image is refused.
    pub fn crop(&self, img: &Image, x: u32, y: u32, width: u32, height: u32) -> (res: Result<Image>)
        requires
            image_ok(*img),
            x + width <= u32::MAX,
            y + height <= u32::MAX,
        ensures
            res is Ok <==> x + width <= img.width && y + height <= img.height,
            res matches Ok(out) ==> is_remap(*img, out, Geometry::Crop { x, y }, width as int, height as int),
            res matches Err(e) ==> is_general_msg(e, "Crop area exceeds image boundaries"@),
    {
        if x + width > img.width || y + height > img.height {
            return Err(ClaudeError::General(String::from_str("Crop area exceeds image boundaries")));
        }
        let n = img.samples.len();
        proof {
            let c = channels(img.color);
            assert(c * width * height <= c * img.width * img.height) by (nonlinear_arith)
                requires width <= img.width, height <= img.height;
        }
        Ok(remap(img, Geometry::Crop { x, y }, width, height))
    }
}

/// A sample moved by `value`, kept within 0 to 255.
pub open spec fn brightened(v: u8, value: int) -> u8 {
    if v + value < 0 { 0 } else if v + value > 255 { 255 } else { (v + value) as u8 }
}

/// Whether sample position `i` of an image with layout `c` holds an alpha.
pub open spec fn is_alpha_sample(c: ColorKind, i: int) -> bool {
    has_alpha(c) && i % (channels(c) as int) == channels(c) - 1
}

/// The grey level of a red, green and blue: the weighted sum with weights
/// 2126, 7152 and 722, divided by 10000 and rounded down.
pub open spec fn luma(r: u8, g: u8, b: u8) -> u8 {
    ((2126 * r + 7152 * g + 722 * b) / 10000) as u8
}

/// Whether `out` is `img` in grey: the same size, one grey level per pixel,
/// followed by the pixel's alpha where `img` has one.
pub open spec fn is_gray_of(img: Image, out: Image) -> bool {
    &&& out.width == img.width
    &&& out.height == img.height
    &&& out.color == gray_kind(img.color)
    &&& image_ok(out)
    &&& has_alpha(img.color) ==> forall|p: int| 0 <= p < img.width * img.height ==>
        out.samples@[2 * p] == #[trigger] gray_level(img, p) && out.samples@[2 * p + 1] == alpha_of(img, p)
    &&& !has_alpha(img.color) ==> forall|p: int| 0 <= p < img.width * img.height ==>
        out.samples@[p] == #[trigger] gray_level(img, p)
}

/// The layout of the grey image made from one with layout `c`.
pub open spec fn gray_kind(c: ColorKind) -> ColorKind {
    if has_alpha(c) { ColorKind::La8 } else { ColorKind::L8 }
}

/// The grey level of pixel `p` (counted row by row) of `img`.
pub open spec fn gray_level(img: Image, p: int) -> u8 {
    let s = img.samples@;
    match img.color {
        ColorKind::L8 => s[p],
        ColorKind::La8 => s[2 * p],
        ColorKind::Rgb8 => luma(s[3 * p], s[3 * p + 1], s[3 * p + 2]),
        ColorKind::Rgba8 => luma(s[4 * p], s[4 * p + 1], s[4 * p + 2]),
    }
}

/// The alpha of pixel `p` of an image with an alpha channel.
pub open spec fn alpha_of(img: Image, p: int) -> u8 {
    let s = img.samples@;
    match img.color {
        ColorKind::La8 => s[2 * p + 1],
        ColorKind::Rgba8 => s[4 * p + 3],
        _ => 255,
    }
}

/// The samples of `img` as red, green, blue and alpha, four per pixel.
pub open spec fn rgba_view(img: Image) -> Seq<u8> {
    Seq::new((4 * img.width * img.height) as nat, |i: int| rgba_sample(img, i / 4, i % 4))
}

/// Channel `j` of pixel `p` of `img` as red, green, blue and alpha: a grey
/// level fills the three colours, and a missing alpha is 255.
pub open spec fn rgba_sample(img: Image, p: int, j: int) -> u8 {
    let s = img.samples@;
    match img.color {
        ColorKind::L8 => if j < 3 { s[p] } else { 255 },
        ColorKind::La8 => if j < 3 { s[2 * p] } else { s[2 * p + 1] },
        ColorKind::Rgb8 => if j < 3 { s[3 * p + j] } else { 255 },
        ColorKind::Rgba8 => s[4 * p + j],
    }
}

proof fn lemma_pixels(img: Image)
    requires
        image_ok(img),
    ensures
        img.samples@.len() == channels(img.color) * (img.width * img.height),
        img.width * img.height <= img.samples@.len(),
{
    let c = channels(img.color);
    assert(c * img.width * img.height == c * (img.width * img.height)) by (nonlinear_arith);
    assert(img.width * img.height <= c * (img.width * img.height)) by (nonlinear_arith)
        requires c >= 1;
}

/// `v` moved by `value`, within 0 to 255.
fn brighten_sample(v: u8, value: i32) -> (r: u8)
    requires
        value <= i32::MAX - 255,
    ensures
        r == brightened(v, value as int),
{
    let t = v as i32 + value;
    if t < 0 { 0 } else if t > 255 { 255 } else { t as u8 }
}

/// The grey level of a red, green and blue.
fn luma_exec(r: u8, g: u8, b: u8) -> (l: u8)
    ensures
        l == luma(r, g, b),
{
    let t: u32 = 2126 * (r as u32) + 7152 * (g as u32) + 722 * (b as u32);
    (t / 10000) as u8
}

impl ImageProcessor {
    /// The image with every colour sample moved by `value` and kept within
    /// 0 to 255; alpha samples are kept as they are.
    pub fn adjust_brightness(&self, img: &Image, value: i32) -> (res: Result<Image>)
        requires
            image_ok(*img),
            value <= i32::MAX - 255,
        ensures
            res matches Ok(out) && {
                &&& out.width == img.width
                &&& out.height == img.height
                &&& out.color == img.color
                &&& image_ok(out)
                &&& forall|i: int| 0 <= i < img.samples@.len() ==> #[trigger] out.samples@[i] == if is_alpha_sample(img.color, i) {
                    img.samples@[i]
                } else {
                    brightened(img.samples@[i], value as int)
                }
            },
    {
        let c = channel_count(img.color);
        let alpha = match img.color {
            ColorKind::La8 | ColorKind::Rgba8 => true,
            _ => false,
        };
        let n = img.samples.len();
        let mut out: Vec<u8> = Vec::new();
        let mut i: usize = 0;
        let mut k: usize = 0;
        while i < n
            invariant
                n == img.samples@.len(),
                c == channels(img.color),
                c >= 1,
                alpha == has_alpha(img.color),
                value <= i32::MAX - 255,
                i <= n,
                k < c,
                k as int == (i as int) % (c as int),
                out@.len() == i,
                forall|j: int| 0 <= j < i ==> #[trigger] out@[j] == if is_alpha_sample(img.color, j) {
                    img.samples@[j]
                } else {
                    brightened(img.samples@[j], value as int)
                },
            decreases n - i,
        {
            let v = img.samples[i];
            let nv = if alpha && k == c - 1 { v } else { brighten_sample(v, value) };
            out.push(nv);
            proof {
                vstd::arithmetic::div_mod::lemma_fundamental_div_mod(i as int, c as int);
                if k + 1 < c {
                    vstd::arithmetic::div_mod::lemma_fundamental_div_mod_converse(i + 1, c as int, (i as int) / (c as int), k + 1);
                } else {
                    vstd::arithmetic::div_mod::lemma_fundamental_div_mod_converse(i + 1, c as int, (i as int) / (c as int) + 1, 0);
                }
            }
            k = if k + 1 == c { 0 } else { k + 1 };
            i = i + 1;
        }
        Ok(Image { width: img.width, height: img.height, color: img.color, samples: out })
    }

    /// The image in grey: one grey level per pixel, with the alpha kept
    /// where the image has one.
    pub fn to_grayscale(&self, img: &Image) -> (res: Result<Image>)
        requires
            image_ok(*img),
        ensures
            res matches Ok(out) && is_gray_of(*img, out),
    {
        proof { lemma_pixels(*img); }
        let n = img.samples.len();
        let np = img.width as usize * img.height as usize;
        let alpha = match img.color {
            ColorKind::La8 | ColorKind::Rgba8 => true,
            _ => false,
        };
        let oc: usize = if alpha { 2 } else { 1 };
        let mut out: Vec<u8> = Vec::new();
        let mut p: usize = 0;
        while p < np
            invariant
                image_ok(*img),
                n == img.samples@.len(),
                img.samples@.len() == channels(img.color) * np,
                np == img.width * img.height,
                alpha == has_alpha(img.color),
                oc == channels(gray_kind(img.color)),
                p <= np,
                out@.len() == if alpha { 2 * p } else { p as int },
                alpha ==> forall|q: int| 0 <= q < p ==>
                    out@[2 * q] == #[trigger] gray_level(*img, q) && out@[2 * q + 1] == alpha_of(*img, q),
                !alpha ==> forall|q: int| 0 <= q < p ==> out@[q] == #[trigger] gray_level(*img, q),
            decreases np - p,
        {
            let s = &img.samples;
            match img.color {
                ColorKind::L8 => {
                    out.push(s[p]);
                },
                ColorKind::La8 => {
                    out.push(s[2 * p]);
                    out.push(s[2 * p + 1]);
                },
                ColorKind::Rgb8 => {
                    out.push(luma_exec(s[3 * p], s[3 * p + 1], s[3 * p + 2]));
                },
                ColorKind::Rgba8 => {
                    out.push(luma_exec(s[4 * p], s[4 * p + 1], s[4 * p + 2]));
                    out.push(s[4 * p + 3]);
                },
            }
            p = p + 1;
        }
        let res = Image { width: img.width, height: img.height, color: if alpha { ColorKind::La8 } else { ColorKind::L8 }, samples: out };
        proof {
            assert(res.samples@.len() == channels(res.color) * res.width * res.height) by (nonlinear_arith)
                requires res.samples@.len() == (if alpha { 2 * np } else { np as int }), np == res.width * res.height,
                    channels(res.color) == (if alpha { 2int } else { 1int });
        }
        assert(is_gray_of(*img, res));
        Ok(res)
    }
}

/// The image as red, green, blue and alpha samples.
fn to_rgba(img: &Image) -> (out: Image)
    requires
        image_ok(*img),
        4 * img.width * img.height <= usize::MAX,
    ensures
        out.width == img.width,
        out.height == img.height,
        out.color == ColorKind::Rgba8,
        image_ok(out),
        out.samples@ == rgba_view(*img),
{
    proof { lemma_pixels(*img); }
    let n = img.samples.len();
    let np = img.width as usize * img.height as usize;
    assert(4 * np <= usize::MAX) by (nonlinear_arith)
        requires 4 * img.width * img.height <= usize::MAX, np == img.width * img.height;
    let mut out: Vec<u8> = Vec::new();
    let mut p: usize = 0;
    while p < np
        invariant
            image_ok(*img),
            n == img.samples@.len(),
            4 * np <= usize::MAX,
            img.samples@.len() == channels(img.color) * np,
            np == img.width * img.height,
            p <= np,
            out@.len() == 4 * p,
            forall|q: int, j: int| 0 <= q < p && 0 <= j < 4 ==> #[trigger] out@[4 * q + j] == rgba_sample(*img, q, j),
        decreases np - p,
    {
        let s = &img.samples;
        match img.color {
            ColorKind::L8 => {
                let l = s[p];
                out.push(l);
                out.push(l);
                out.push(l);
                out.push(255);
            },
            ColorKind::La8 => {
                assert(img.samples@.len() == 2 * np);
                let l = s[2 * p];
                out.push(l);
                out.push(l);
                out.push(l);
                out.push(s[2 * p + 1]);
            },
            ColorKind::Rgb8 => {
                assert(img.samples@.len() == 3 * np);
                out.push(s[3 * p]);
                out.push(s[3 * p + 1]);
                out.push(s[3 * p + 2]);
                out.push(255);
            },
            ColorKind::Rgba8 => {
                assert(img.samples@.len() == 4 * np);
                out.push(s[4 * p]);
                out.push(s[4 * p + 1]);
                out.push(s[4 * p + 2]);
                out.push(s[4 * p + 3]);
            },
        }
        p = p + 1;
    }
    let res = Image { width: img.width, height: img.height, color: ColorKind::Rgba8, samples: out };
    proof {
        assert(res.samples@.len() == 4 * res.width * res.height) by (nonlinear_arith)
            requires res.samples@.len() == 4 * np, np == res.width * res.height;
        assert forall|i: int| 0 <= i < 4 * np implies #[trigger] res.samples@[i] == rgba_sample(*img, i / 4, i % 4) by {
            vstd::arithmetic::div_mod::lemma_fundamental_div_mod(i, 4);
            assert(res.samples@[4 * (i / 4) + i % 4] == rgba_sample(*img, i / 4, i % 4));
        }
        assert(res.samples@ =~= rgba_view(*img));
    }
    res
}

/// The resampling filter of a resize.
#[derive(Debug, Clone, Copy, PartialEq, Eq, Structural)]
pub enum ResizeFilter {
    Nearest,
    Triangle,
    CatmullRom,
    Gaussian,
    Lanczos3,
}

/// How images are resized and written.
#[derive(Debug, Clone)]
pub struct ImageProcessingConfig {
    /// Output quality, 1 to 100.
    pub quality: u8,
    /// Whether a resize keeps the aspect ratio.
    pub preserve_aspect_ratio: bool,
    /// The resampling filter.
    pub filter: ResizeFilter,
}

impl Default for ImageProcessingConfig {
    fn default() -> (c: ImageProcessingConfig)
        ensures
            c.quality == 80,
            c.preserve_aspect_ratio,
            c.filter == ResizeFilter::Lanczos3,
    {
        ImageProcessingConfig { quality: 80, preserve_aspect_ratio: true, filter: ResizeFilter::Lanczos3 }
    }
}

/// What is known of an image: its size, the format it came in (not kept
/// once decoded), and the name of its colour layout.
#[derive(Debug, Clone)]
pub struct ImageInfo {
    pub width: u32,
    pub height: u32,
    pub format: Option<ImageFormatKind>,
    pub color_type: String,
}

/// The name of a colour layout.
pub open spec fn color_name(c: ColorKind) -> Seq<char> {
    match c {
        ColorKind::L8 => "L8"@,
        ColorKind::La8 => "La8"@,
        ColorKind::Rgb8 => "Rgb8"@,
        ColorKind::Rgba8 => "Rgba8"@,
    }
}

/// The file extension the encoder is chosen by for each format.
pub open spec fn format_extension(f: ImageFormatKind) -> Seq<char> {
    match f {
        ImageFormatKind::Jpeg => "jpg"@,
        ImageFormatKind::Png => "png"@,
        ImageFormatKind::Gif => "gif"@,
        ImageFormatKind::Bmp => "bmp"@,
        ImageFormatKind::Ico => "ico"@,
        ImageFormatKind::Tiff => "tiff"@,
        ImageFormatKind::WebP => "webp"@,
        ImageFormatKind::Avif => "avif"@,
    }
}

/// Whether `e` is the extension of one of the formats.
pub open spec fn is_format_extension(e: Seq<char>) -> bool {
    e == "jpg"@ || e == "png"@ || e == "gif"@ || e == "bmp"@ || e == "ico"@ || e == "tiff"@ || e == "webp"@ || e == "avif"@
}

/// The image that decoding `data` gives: its width, height, colour layout
/// and samples; none where the data is no image the decoder reads.
pub uninterp spec fn decoded_image(data: Seq<u8>) -> Option<(u32, u32, ColorKind, Seq<u8>)>;

/// The bytes of an image encoded in the format with the given extension;
/// none where the encoder refuses it.
pub uninterp spec fn encoded_image(width: u32, height: u32, color: ColorKind, samples: Seq<u8>, extension: Seq<char>) -> Option<Seq<u8>>;

/// The samples of a red, green, blue and alpha image resampled to a new size.
pub uninterp spec fn resampled(width: u32, height: u32, samples: Seq<u8>, new_width: u32, new_height: u32, filter: ResizeFilter) -> Seq<u8>;

/// Decodes `data` with `image::ImageReader` after guessing its format.
/// Images with 8-bit grey, grey and alpha, colour, or colour and alpha
/// samples are taken as they are; any other layout is converted to 8-bit
/// colour and alpha (`DynamicImage::to_rgba8`). The samples come out
/// exactly as many as the size needs. The failure message is the crate's,
/// and is not stated.
#[verifier::external_body]
fn decode_image(data: &[u8]) -> (res: std::result::Result<Image, String>)
    ensures
        match res {
            Ok(img) => decoded_image(data@) == Some((img.width, img.height, img.color, img.samples@)) && image_ok(img),
            Err(_) => decoded_image(data@) is None,
        },
{
    let reader = ImageReader::new(Cursor::new(data)).with_guessed_format()
        .map_err(|e| format!("Failed to guess image format: {}", e))?;
    let d = reader.decode().map_err(|e| format!("Failed to decode image from bytes: {}", e))?;
    let (width, height) = (d.width(), d.height());
    let (color, samples) = match d {
        DynamicImage::ImageLuma8(b) => (ColorKind::L8, b.into_raw()),
        DynamicImage::ImageLumaA8(b) => (ColorKind::La8, b.into_raw()),
        DynamicImage::ImageRgb8(b) => (ColorKind::Rgb8, b.into_raw()),
        DynamicImage::ImageRgba8(b) => (ColorKind::Rgba8, b.into_raw()),
        other => (ColorKind::Rgba8, other.to_rgba8().into_raw()),
    };
    Ok(Image { width, height, color, samples })
}

/// Encodes the image with `DynamicImage::write_to` in the format that
/// `ImageFormat::from_extension` gives for `extension`. The failure
/// message is the crate's, and is not stated.
#[verifier::external_body]
fn encode_image(img: &Image, extension: &str) -> (res: std::result::Result<Vec<u8>, String>)
    requires
        image_ok(*img),
        is_format_extension(extension@),
    ensures
        match res {
            Ok(b) => encoded_image(img.width, img.height, img.color, img.samples@, extension@) == Some(b@),
            Err(_) => encoded_image(img.width, img.height, img.color, img.samples@, extension@) is None,
        },
{
    let (w, h, s) = (img.width, img.height, img.samples.clone());
    let d = match img.color {
        ColorKind::L8 => DynamicImage::ImageLuma8(ImageBuffer::from_raw(w, h, s).unwrap()),
        ColorKind::La8 => DynamicImage::ImageLumaA8(ImageBuffer::from_raw(w, h, s).unwrap()),
        ColorKind::Rgb8 => DynamicImage::ImageRgb8(ImageBuffer::from_raw(w, h, s).unwrap()),
        ColorKind::Rgba8 => DynamicImage::ImageRgba8(ImageBuffer::from_raw(w, h, s).unwrap()),
    };
    let mut out = Vec::new();
    let written = d.write_to(Cursor::new(&mut out), ImageFormat::from_extension(extension).unwrap());
    written.map(|_| out).map_err(|e| format!("Failed to encode image: {}", e))
}

/// Resizes a red, green, blue and alpha image with `imageops::resize`:
/// the result has the new size, and where the size does not change its
/// samples are those given.
#[verifier::external_body]
fn resample(img: &Image, new_width: u32, new_height: u32, filter: ResizeFilter) -> (out: Image)
    requires
        img.color == ColorKind::Rgba8,
        image_ok(*img),
        4 * new_width * new_height <= usize::MAX,
        4 * img.width * new_height <= usize::MAX,
    ensures
        out.width == new_width,
        out.height == new_height,
        out.color == ColorKind::Rgba8,
        image_ok(out),
        out.samples@ == resampled(img.width, img.height, img.samples@, new_width, new_height, filter),
        new_width == img.width && new_height == img.height ==> out.samples@ == img.samples@,
{
    let buf: image::RgbaImage = ImageBuffer::from_raw(img.width, img.height, img.samples.clone()).unwrap();
    let f = match filter {
        ResizeFilter::Nearest => FilterType::Nearest,
        ResizeFilter::Triangle => FilterType::Triangle,
        ResizeFilter::CatmullRom => FilterType::CatmullRom,
        ResizeFilter::Gaussian => FilterType::Gaussian,
        ResizeFilter::Lanczos3 => FilterType::Lanczos3,
    };
    let r = image::imageops::resize(&buf, new_width, new_height, f);
    Image { width: r.width(), height: r.height(), color: ColorKind::Rgba8, samples: r.into_raw() }
}

proof fn lemma_fit_within(ow: nat, oh: nat, tw: nat, th: nat)
    ensures
        aspect_fit(ow, oh, tw, th).0 <= tw,
        aspect_fit(ow, oh, tw, th).1 <= th,
{
    if ow > 0 && oh > 0 {
        if tw * oh <= th * ow {
            assert((oh * tw) / ow <= th) by (nonlinear_arith)
                requires tw * oh <= th * ow, ow > 0;
        } else {
            assert((ow * th) / oh <= tw) by (nonlinear_arith)
                requires tw * oh > th * ow, oh > 0;
        }
    }
}

/// The size a resize to `width` x `height` gives an `ow` x `oh` image.
pub open spec fn resize_size(ow: nat, oh: nat, width: nat, height: nat, preserve: bool) -> (nat, nat) {
    if preserve { aspect_fit(ow, oh, width, height) } else { (width, height) }
}

impl ImageProcessor {
    /// Decodes an image from its bytes; data that is no image is refused.
    pub fn load_from_bytes(&self, data: &[u8]) -> (res: Result<Image>)
        ensures
            res is Ok <==> decoded_image(data@) is Some,
            res matches Ok(img) ==> image_ok(img)
                && decoded_image(data@) == Some((img.width, img.height, img.color, img.samples@)),
            res matches Err(e) ==> e is General,
    {
        match decode_image(data) {
            Ok(img) => Ok(img),
            Err(msg) => Err(ClaudeError::General(msg)),
        }
    }

    /// The image resized to `width` x `height`, or to the largest size
    /// within it with the same aspect ratio when the configuration keeps
    /// the ratio; the result has red, green, blue and alpha samples.
    pub fn resize(&self, img: &Image, width: u32, height: u32, config: &ImageProcessingConfig) -> (res: Result<Image>)
        requires
            image_ok(*img),
            4 * img.width * img.height <= usize::MAX,
            4 * width * height <= usize::MAX,
            4 * img.width * height <= usize::MAX,
        ensures
            res matches Ok(out) && {
                let sz = resize_size(img.width as nat, img.height as nat, width as nat, height as nat, config.preserve_aspect_ratio);
                &&& out.width == sz.0
                &&& out.height == sz.1
                &&& out.color == ColorKind::Rgba8
                &&& image_ok(out)
                &&& out.samples@ == resampled(img.width, img.height, rgba_view(*img), out.width, out.height, config.filter)
            },
    {
        let (nw, nh) = self.resize_dimensions(img.width, img.height, width, height, config.preserve_aspect_ratio);
        proof {
            lemma_fit_within(img.width as nat, img.height as nat, width as nat, height as nat);
            assert(4 * nw * nh <= 4 * width * height) by (nonlinear_arith)
                requires nw <= width, nh <= height;
            assert(4 * img.width * nh <= 4 * img.width * height) by (nonlinear_arith)
                requires nh <= height;
        }
        let rgba = to_rgba(img);
        Ok(resample(&rgba, nw, nh, config.filter))
    }

    /// Encodes the image in `format`; a format the encoder refuses gives an error.
    pub fn save_to_bytes(&self, img: &Image, format: ImageFormatKind, config: &ImageProcessingConfig) -> (res: Result<Vec<u8>>)
        requires
            image_ok(*img),
        ensures
            res is Ok <==> encoded_image(img.width, img.height, img.color, img.samples@, format_extension(format)) is Some,
            res matches Ok(b) ==> encoded_image(img.width, img.height, img.color, img.samples@, format_extension(format)) == Some(b@),
            res matches Err(e) ==> e is General,
    {
        let ext = match format {
            ImageFormatKind::Jpeg => "jpg",
            ImageFormatKind::Png => "png",
            ImageFormatKind::Gif => "gif",
            ImageFormatKind::Bmp => "bmp",
            ImageFormatKind::Ico => "ico",
            ImageFormatKind::Tiff => "tiff",
            ImageFormatKind::WebP => "webp",
            ImageFormatKind::Avif => "avif",
        };
        assert(ext@ == format_extension(format));
        match encode_image(img, ext) {
            Ok(b) => Ok(b),
            Err(msg) => Err(ClaudeError::General(msg)),
        }
    }

    /// The size and colour layout of the image; a decoded image keeps no format.
    pub fn get_image_info(&self, img: &Image) -> (info: ImageInfo)
        ensures
            info.width == img.width,
            info.height == img.height,
            info.format is None,
            info.color_type@ == color_name(img.color),
    {
        let name = match img.color {
            ColorKind::L8 => "L8",
            ColorKind::La8 => "La8",
            ColorKind::Rgb8 => "Rgb8",
            ColorKind::Rgba8 => "Rgba8",
        };
        ImageInfo { width: img.width, height: img.height, format: None, color_type: String::from_str(name) }
    }

    /// The image scaled down so that its larger side is `max_size`, or the
    /// image itself when it already fits.
    pub fn create_thumbnail(&self, img: &Image, max_size: u32, config: &ImageProcessingConfig) -> (res: Result<Image>)
        requires
            image_ok(*img),
            4 * img.width * img.height <= usize::MAX,
        ensures
            res is Ok,
            (if img.width >= img.height { img.width } else { img.height }) <= max_size ==>
                (res matches Ok(out) && is_remap(*img, out, Geometry::Crop { x: 0, y: 0 }, img.width as int, img.height as int)),
            (if img.width >= img.height { img.width } else { img.height }) > max_size ==> (res matches Ok(out) && {
                let m = if img.width >= img.height { img.width } else { img.height };
                let tw = (img.width * max_size) / (m as int);
                let th = (img.height * max_size) / (m as int);
                let sz = resize_size(img.width as nat, img.height as nat, tw as nat, th as nat, config.preserve_aspect_ratio);
                &&& out.width == sz.0
                &&& out.height == sz.1
                &&& out.color == ColorKind::Rgba8
                &&& out.samples@ == resampled(img.width, img.height, rgba_view(*img), out.width, out.height, config.filter)
            }),
    {
        let n = img.samples.len();
        match self.thumbnail_size(img.width, img.height, max_size) {
            None => {
                proof { lemma_pixels(*img); }
                Ok(remap(img, Geometry::Crop { x: 0, y: 0 }, img.width, img.height))
            },
            Some((tw, th)) => {
                proof {
                    let m = if img.width >= img.height { img.width } else { img.height };
                    assert(tw <= img.width && th <= img.height) by (nonlinear_arith)
                        requires tw == (img.width * max_size) / (m as int), th == (img.height * max_size) / (m as int),
                            max_size < m, m >= img.width, m >= img.height, m > 0;
                    assert(4 * tw * th <= 4 * img.width * img.height) by (nonlinear_arith)
                        requires tw <= img.width, th <= img.height;
                    assert(4 * img.width * th <= 4 * img.width * img.height) by (nonlinear_arith)
                        requires th <= img.height;
                }
                self.resize(img, tw, th, config)
            },
        }
    }
}

proof fn lemma_same_samples(a: Image, b: Image)
    requires
        image_ok(a),
        image_ok(b),
        a.width == b.width,
        a.height == b.height,
        a.color == b.color,
        forall|x: int, y: int, k: int| 0 <= x < a.width && 0 <= y < a.height && 0 <= k < channels(a.color) ==>
            #[trigger] sample_at(a, x, y, k) == sample_at(b, x, y, k),
    ensures
        a.samples@ == b.samples@,
{
    let c = channels(a.color) as int;
    let w = a.width as int;
    let h = a.height as int;
    assert forall|i: int| 0 <= i < a.samples@.len() implies a.samples@[i] == b.samples@[i] by {
        assert(c >= 1);
        assert(w > 0 && h > 0) by (nonlinear_arith)
            requires a.samples@.len() == c * w * h, 0 <= i < a.samples@.len(), w >= 0, h >= 0, c >= 1;
        let p = i / c;
        let k = i % c;
        let x = p % w;
        let y = p / w;
        vstd::arithmetic::div_mod::lemma_fundamental_div_mod(i, c);
        vstd::arithmetic::div_mod::lemma_fundamental_div_mod(p, w);
        assert(c * w * h == c * (w * h)) by (nonlinear_arith);
        assert(0 <= p < w * h) by (nonlinear_arith)
            requires i == c * p + k, 0 <= k < c, 0 <= i < c * (w * h), c >= 1;
        assert(0 <= y < h) by (nonlinear_arith)
            requires p == w * y + x, 0 <= x < w, 0 <= p < w * h, w > 0;
        assert(i == sample_index(c, w, x, y, k)) by (nonlinear_arith)
            requires i == c * p + k, p == w * y + x;
        assert(sample_at(a, x, y, k) == sample_at(b, x, y, k));
    }
    assert(a.samples@ =~= b.samples@);
}

/// Flipping an image twice the same way gives it back, and so does
/// turning it half round twice.
pub proof fn law_flip_twice_restores(img: Image, once: Image, twice: Image, g: Geometry)
    requires
        image_ok(img),
        g == Geometry::FlipHorizontal || g == Geometry::FlipVertical || g == Geometry::Rotate180,
        is_remap(img, once, g, img.width as int, img.height as int),
        is_remap(once, twice, g, img.width as int, img.height as int),
    ensures
        twice.width == img.width,
        twice.height == img.height,
        twice.color == img.color,
        twice.samples@ == img.samples@,
{
    assert forall|x: int, y: int, k: int| 0 <= x < img.width && 0 <= y < img.height && 0 <= k < channels(img.color) implies
        #[trigger] sample_at(twice, x, y, k) == sample_at(img, x, y, k) by {
        let s = source_of(g, img.width as int, img.height as int, x, y);
        assert(sample_at(twice, x, y, k) == sample_at(once, s.0, s.1, k));
        assert(sample_at(once, s.0, s.1, k) == sample_at(img, x, y, k));
    }
    lemma_same_samples(twice, img);
}

/// Turning an image a quarter round clockwise and then three quarters
/// round clockwise gives it back.
pub proof fn law_quarter_turns_restore(img: Image, once: Image, twice: Image)
    requires
        image_ok(img),
        is_remap(img, once, Geometry::Rotate90, img.height as int, img.width as int),
        is_remap(once, twice, Geometry::Rotate270, img.width as int, img.height as int),
    ensures
        twice.width == img.width,
        twice.height == img.height,
        twice.color == img.color,
        twice.samples@ == img.samples@,
{
    assert forall|x: int, y: int, k: int| 0 <= x < img.width && 0 <= y < img.height && 0 <= k < channels(img.color) implies
        #[trigger] sample_at(twice, x, y, k) == sample_at(img, x, y, k) by {
        let s = source_of(Geometry::Rotate270, once.width as int, once.height as int, x, y);
        assert(sample_at(twice, x, y, k) == sample_at(once, s.0, s.1, k));
        assert(sample_at(once, s.0, s.1, k) == sample_at(img, x, y, k));
    }
    lemma_same_samples(twice, img);
}

} // verus!
