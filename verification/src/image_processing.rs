//! Image geometry: the sizes an image is resized or thumbnailed to, the
//! bounds checks of cropping and watermarking, and the recognised formats.

use vstd::prelude::*;
use crate::error::{ClaudeError, Result, concat_str, is_general_with, is_general_msg};
use crate::paths::{file_extension, path_extension};

verus! {

/// Processes images; it holds no state.
#[derive(Debug, Clone, Copy, PartialEq, Eq, Structural)]
pub struct ImageProcessor;

/// The image formats the processor reads and writes.
#[derive(Debug, Clone, Copy, PartialEq, Eq, Structural)]
pub enum ImageFormatKind {
    Jpeg,
    Png,
    Gif,
    Bmp,
    Ico,
    Tiff,
    WebP,
    Avif,
}

/// The size that fits an `ow` x `oh` image into `tw` x `th` keeping its
/// aspect ratio: the image is scaled by the smaller of the two ratios and
/// each side rounded down. A zero side counts as an unbounded ratio.
pub open spec fn aspect_fit(ow: nat, oh: nat, tw: nat, th: nat) -> (nat, nat) {
    if ow == 0 && oh == 0 {
        (0, 0)
    } else if ow == 0 {
        (0, th)
    } else if oh == 0 {
        (tw, 0)
    } else if tw * oh <= th * ow {
        (tw, (oh * tw) / ow)
    } else {
        ((ow * th) / oh, th)
    }
}

/// Fitting keeps the aspect ratio: for an image with two nonzero sides the
/// result lies within the target box, one side equals its target, and the
/// other is that target scaled by the image's ratio, rounded down.
pub proof fn law_fit_keeps_aspect_ratio(ow: nat, oh: nat, tw: nat, th: nat)
    requires
        ow > 0,
        oh > 0,
    ensures
        aspect_fit(ow, oh, tw, th).0 <= tw,
        aspect_fit(ow, oh, tw, th).1 <= th,
        ({
            let (w, h) = aspect_fit(ow, oh, tw, th);
            ||| (w == tw && h * ow <= oh * tw && oh * tw < (h + 1) * ow)
            ||| (h == th && w * oh <= ow * th && ow * th < (w + 1) * oh)
        }),
{
    if tw * oh <= th * ow {
        let h = (oh * tw) / ow;
        assert(h * ow <= oh * tw && oh * tw < (h + 1) * ow && h <= th) by (nonlinear_arith)
            requires h == (oh * tw) / ow, ow > 0, tw * oh <= th * ow;
    } else {
        let w = (ow * th) / oh;
        assert(w * oh <= ow * th && ow * th < (w + 1) * oh && w <= tw) by (nonlinear_arith)
            requires w == (ow * th) / oh, oh > 0, tw * oh > th * ow;
    }
}

/// The format named by `name`, compared without regard to ASCII case.
pub open spec fn format_named(name: Seq<char>) -> Option<ImageFormatKind> {
    let n = ascii_lower(name);
    if n == "jpg"@ || n == "jpeg"@ { Some(ImageFormatKind::Jpeg) }
    else if n == "png"@ { Some(ImageFormatKind::Png) }
    else if n == "gif"@ { Some(ImageFormatKind::Gif) }
    else if n == "bmp"@ { Some(ImageFormatKind::Bmp) }
    else if n == "ico"@ { Some(ImageFormatKind::Ico) }
    else if n == "tiff"@ || n == "tif"@ { Some(ImageFormatKind::Tiff) }
    else if n == "webp"@ { Some(ImageFormatKind::WebP) }
    else if n == "avif"@ { Some(ImageFormatKind::Avif) }
    else { None }
}

/// A character with ASCII capitals turned into small letters.
pub open spec fn ascii_lower_char(c: char) -> char {
    if 'A' <= c && c <= 'Z' { ((c as u32) + 32) as char } else { c }
}

/// A sequence with ASCII capitals turned into small letters.
pub open spec fn ascii_lower(s: Seq<char>) -> Seq<char> {
    s.map_values(|c: char| ascii_lower_char(c))
}

/// The ASCII-lower-case copy of `s`.
pub fn to_ascii_lower(s: &str) -> (res: String)
    ensures
        res@ == ascii_lower(s@),
{
    let n = s.unicode_len();
    let mut res = String::new();
    let mut i: usize = 0;
    while i < n
        invariant
            i <= n,
            n == s@.len(),
            res@ == ascii_lower(s@.take(i as int)),
        decreases n - i,
    {
        let c = s.get_char(i);
        let d = if 'A' <= c && c <= 'Z' { ((c as u32) + 32) as u8 as char } else { c };
        assert(d == ascii_lower_char(c)) by {
            if 'A' <= c && c <= 'Z' {
                assert(((c as u32) + 32) < 256);
            }
        };
        crate::text::string_push_char(&mut res, d);
        assert(ascii_lower(s@.take(i + 1)) =~= ascii_lower(s@.take(i as int)).push(d));
        i = i + 1;
    }
    assert(s@.take(n as int) =~= s@);
    res
}

impl ImageProcessor {
    /// A new processor.
    pub fn new() -> (p: ImageProcessor)
        ensures
            p == ImageProcessor,
    {
        ImageProcessor
    }

    /// The largest size within `target_width` x `target_height` with the
    /// aspect ratio of an `orig_width` x `orig_height` image.
    pub fn calculate_aspect_ratio_size(&self, orig_width: u32, orig_height: u32, target_width: u32, target_height: u32) -> (res: (u32, u32))
        ensures
            (res.0 as nat, res.1 as nat) == aspect_fit(orig_width as nat, orig_height as nat, target_width as nat, target_height as nat),
    {
        if orig_width == 0 && orig_height == 0 {
            (0, 0)
        } else if orig_width == 0 {
            (0, target_height)
        } else if orig_height == 0 {
            (target_width, 0)
        } else {
            let ow = orig_width as u64;
            let oh = orig_height as u64;
            let tw = target_width as u64;
            let th = target_height as u64;
            assert(tw * oh <= u32::MAX * u32::MAX) by (nonlinear_arith)
                requires tw <= u32::MAX, oh <= u32::MAX;
            assert(th * ow <= u32::MAX * u32::MAX) by (nonlinear_arith)
                requires th <= u32::MAX, ow <= u32::MAX;
            if tw * oh <= th * ow {
                let h = oh * tw / ow;
                assert(h <= th) by (nonlinear_arith)
                    requires h == (oh * tw) as int / ow as int, tw * oh <= th * ow, ow > 0;
                (target_width, h as u32)
            } else {
                let w = ow * th / oh;
                assert(w <= tw) by (nonlinear_arith)
                    requires w == (ow * th) as int / oh as int, tw * oh > th * ow, oh > 0;
                (w as u32, target_height)
            }
        }
    }

    /// The size a resize produces: the aspect-preserving fit when
    /// `preserve_aspect_ratio` holds, the requested size otherwise.
    pub fn resize_dimensions(&self, orig_width: u32, orig_height: u32, width: u32, height: u32,
        preserve_aspect_ratio: bool) -> (res: (u32, u32))
        ensures
            preserve_aspect_ratio ==> (res.0 as nat, res.1 as nat) == aspect_fit(orig_width as nat,
                orig_height as nat, width as nat, height as nat),
            !preserve_aspect_ratio ==> res == (width, height),
    {
        if preserve_aspect_ratio {
            self.calculate_aspect_ratio_size(orig_width, orig_height, width, height)
        } else {
            (width, height)
        }
    }

    /// Whether a crop of `width` x `height` at (`x`, `y`) fits in the image;
    /// otherwise the error that a crop reports.
    pub fn check_crop(&self, x: u32, y: u32, width: u32, height: u32, image_width: u32, image_height: u32) -> (res: Result<()>)
        requires
            x + width <= u32::MAX,
            y + height <= u32::MAX,
        ensures
            res is Ok <==> x + width <= image_width && y + height <= image_height,
            res matches Err(e) ==> is_general_msg(e, "Crop area exceeds image boundaries"@),
    {
        if x + width > image_width || y + height > image_height {
            let e = ClaudeError::General(String::from_str("Crop area exceeds image boundaries"));
            return Err(e);
        }
        Ok(())
    }

    /// Whether a watermark of `wm_width` x `wm_height` at (`x`, `y`) fits in
    /// the base image; otherwise the error that watermarking reports.
    pub fn check_watermark(&self, x: u32, y: u32, wm_width: u32, wm_height: u32, base_width: u32, base_height: u32) -> (res: Result<()>)
        requires
            x + wm_width <= u32::MAX,
            y + wm_height <= u32::MAX,
        ensures
            res is Ok <==> x + wm_width <= base_width && y + wm_height <= base_height,
            res matches Err(e) ==> is_general_msg(e, "Watermark position exceeds image boundaries"@),
    {
        if x + wm_width > base_width || y + wm_height > base_height {
            let e = ClaudeError::General(String::from_str("Watermark position exceeds image boundaries"));
            return Err(e);
        }
        Ok(())
    }

    /// The size of the thumbnail of a `width` x `height` image bounded by
    /// `max_size`: `None` when the image already fits (it is kept as it is),
    /// otherwise both sides scaled by `max_size` over the larger side, rounded down.
    pub fn thumbnail_size(&self, width: u32, height: u32, max_size: u32) -> (res: Option<(u32, u32)>)
        ensures
            (if width >= height { width } else { height }) <= max_size <==> res is None,
            res matches Some(sz) ==> sz.0 == (width * max_size) as int / (if width >= height { width } else { height }) as int
                && sz.1 == (height * max_size) as int / (if width >= height { width } else { height }) as int,
    {
        let max_dimension = if width >= height { width } else { height };
        if max_dimension <= max_size {
            return None;
        }
        assert(width as u64 * max_size as u64 <= u32::MAX * u32::MAX) by (nonlinear_arith)
            requires width <= u32::MAX, max_size <= u32::MAX;
        assert(height as u64 * max_size as u64 <= u32::MAX * u32::MAX) by (nonlinear_arith)
            requires height <= u32::MAX, max_size <= u32::MAX;
        let w = width as u64 * max_size as u64 / max_dimension as u64;
        let h = height as u64 * max_size as u64 / max_dimension as u64;
        assert(w <= max_size) by (nonlinear_arith)
            requires w == (width * max_size) as int / max_dimension as int, width <= max_dimension, max_dimension > 0;
        assert(h <= max_size) by (nonlinear_arith)
            requires h == (height * max_size) as int / max_dimension as int, height <= max_dimension, max_dimension > 0;
        Some((w as u32, h as u32))
    }

    /// The format named by `format_str` (case-insensitive); unknown names are refused.
    pub fn parse_format_string(&self, format_str: &str) -> (res: Result<ImageFormatKind>)
        ensures
            format_named(format_str@) matches Some(f) ==> res == Ok::<ImageFormatKind, ClaudeError>(f),
            format_named(format_str@) is None ==> (res matches Err(e)
                && is_general_with(e, "Unsupported image format: "@, format_str@)),
    {
        let lower = to_ascii_lower(format_str);
        match format_of_lower(&lower) {
            Some(f) => Ok(f),
            None => Err(ClaudeError::General(concat_str("Unsupported image format: ", format_str))),
        }
    }

    /// The format of a file from the extension of its path (`None` when the
    /// path has none); unknown extensions are refused.
    pub fn infer_format_from_extension(&self, extension: Option<&str>) -> (res: Result<ImageFormatKind>)
        ensures
            inferred_format(res, match extension { Some(e) => Some(e@), None => None }),
    {
        match extension {
            None => {
                Err(ClaudeError::General(String::from_str("Cannot determine file format from path")))
            },
            Some(ext) => self.parse_format_string(ext),
        }
    }
}

/// Whether `res` is the format of a file whose path has the extension
/// `extension`: refused without an extension or with an unknown one.
pub open spec fn inferred_format(res: Result<ImageFormatKind>, extension: Option<Seq<char>>) -> bool {
    &&& extension is None ==> (res matches Err(e)
        && is_general_msg(e, "Cannot determine file format from path"@))
    &&& extension matches Some(ext) ==> {
        &&& format_named(ext) matches Some(f) ==> res == Ok::<ImageFormatKind, ClaudeError>(f)
        &&& format_named(ext) is None ==> (res matches Err(e)
            && is_general_with(e, "Unsupported image format: "@, ext))
    }
}

impl ImageProcessor {
    /// The format of the file at `path`, from the path's extension.
    pub fn infer_format_from_path(&self, path: &str) -> (res: Result<ImageFormatKind>)
        ensures
            inferred_format(res, path_extension(path@)),
    {
        match file_extension(path) {
            Some(e) => self.infer_format_from_extension(Some(e.as_str())),
            None => self.infer_format_from_extension(None),
        }
    }
}

/// The format whose lower-case name is `n`.
fn format_of_lower(n: &String) -> (res: Option<ImageFormatKind>)
    ensures
        res == format_named_lower(n@),
{
    if str_is(n, "jpg") || str_is(n, "jpeg") { Some(ImageFormatKind::Jpeg) }
    else if str_is(n, "png") { Some(ImageFormatKind::Png) }
    else if str_is(n, "gif") { Some(ImageFormatKind::Gif) }
    else if str_is(n, "bmp") { Some(ImageFormatKind::Bmp) }
    else if str_is(n, "ico") { Some(ImageFormatKind::Ico) }
    else if str_is(n, "tiff") || str_is(n, "tif") { Some(ImageFormatKind::Tiff) }
    else if str_is(n, "webp") { Some(ImageFormatKind::WebP) }
    else if str_is(n, "avif") { Some(ImageFormatKind::Avif) }
    else { None }
}

/// The format whose name, already in lower case, is `n`.
pub open spec fn format_named_lower(n: Seq<char>) -> Option<ImageFormatKind> {
    if n == "jpg"@ || n == "jpeg"@ { Some(ImageFormatKind::Jpeg) }
    else if n == "png"@ { Some(ImageFormatKind::Png) }
    else if n == "gif"@ { Some(ImageFormatKind::Gif) }
    else if n == "bmp"@ { Some(ImageFormatKind::Bmp) }
    else if n == "ico"@ { Some(ImageFormatKind::Ico) }
    else if n == "tiff"@ || n == "tif"@ { Some(ImageFormatKind::Tiff) }
    else if n == "webp"@ { Some(ImageFormatKind::WebP) }
    else if n == "avif"@ { Some(ImageFormatKind::Avif) }
    else { None }
}

/// Whether `s` holds exactly the characters of `lit`.
pub fn str_is(s: &String, lit: &str) -> (b: bool)
    ensures
        b == (s@ == lit@),
{
    let t = String::from_str(lit);
    *s == t
}

} // verus!
