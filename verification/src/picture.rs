//! Decoded images as plain values, and the image operations of the `image` and
//! `thumbhash` crates on them.
//!
//! A picture holds its pixels as 8-bit RGBA, row by row, together with the pixel
//! layout it was decoded in: the WebP encoder accepts only 8-bit RGB and RGBA
//! images, and refuses the others. An image of 16 bits per sample also keeps its
//! samples as 16-bit RGBA, and is resized from them.

use vstd::prelude::*;
use crate::path_name::{has_extension, names_extension};

verus! {

/// The pixel layout an image was decoded in.
#[derive(Clone, Copy, Debug, PartialEq, Eq, Structural)]
pub enum Layout {
    /// 8-bit RGB.
    Rgb8,
    /// 8-bit RGBA.
    Rgba8,
    /// 16 bits per sample: gray, gray with alpha, RGB or RGBA.
    Deep16,
    /// Any other layout (8-bit gray, with or without alpha; floating point).
    Other,
}

/// An image: its size, its pixels as RGBA bytes row by row, its layout, and for a
/// 16-bit layout its samples as 16-bit RGBA row by row (empty otherwise).
pub struct Picture {
    pub width: u32,
    pub height: u32,
    pub rgba: Vec<u8>,
    pub rgba16: Vec<u16>,
    pub layout: Layout,
}

/// One RGBA pixel.
#[derive(Clone, Copy, Debug, PartialEq, Eq, Structural)]
pub struct Pixel {
    pub r: u8,
    pub g: u8,
    pub b: u8,
    pub a: u8,
}

/// A buffer of `w * h` pixels with `channels` values of `bytes` bytes each can be
/// allocated: its length in bytes fits in `isize`.
pub open spec fn fits(w: u32, h: u32, channels: int, bytes: int) -> bool {
    w as int * h as int * channels * bytes <= isize::MAX
}

/// A resize of an image `width` wide to at most `w` by `h` can run: the image
/// crate builds an intermediate buffer `width` wide and as high as the result,
/// of four `f32` channels, and the result (each side of which is at least 1).
pub open spec fn resize_fits(width: u32, w: u32, h: u32) -> bool {
    fits(width, side_bound(h), 4, 4) && fits(side_bound(w), side_bound(h), 4, 4)
}

impl Picture {
    /// The pixel bytes are exactly `width * height` RGBA pixels, and so are the
    /// 16-bit samples of a 16-bit layout.
    pub open spec fn wf(&self) -> bool {
        &&& self.rgba@.len() == self.width as int * self.height as int * 4
        &&& self.layout == Layout::Deep16 ==> self.rgba16@.len() == self.width as int * self.height as int * 4
    }

    /// The size and RGBA bytes of the picture resized to fit in `w` by `h`
    /// (`DynamicImage::resize` with `FilterType::Triangle`): from its 16-bit
    /// samples for a 16-bit layout, from its RGBA bytes otherwise.
    pub open spec fn fit_within(&self, w: u32, h: u32) -> (u32, u32, Seq<u8>) {
        if self.layout == Layout::Deep16 {
            fitted16(self.width, self.height, self.rgba16@, w, h)
        } else {
            fitted(self.width, self.height, self.rgba@, w, h)
        }
    }

    /// The WebP encoder takes this picture (8-bit RGB or RGBA).
    pub open spec fn webp_ready(&self) -> bool {
        self.layout == Layout::Rgb8 || self.layout == Layout::Rgba8
    }

    /// The empty 0 by 0 RGBA picture.
    pub fn empty() -> (res: Picture)
        ensures
            res.width == 0,
            res.height == 0,
            res.rgba@.len() == 0,
            res.layout == Layout::Rgba8,
            res.wf(),
    {
        Picture { width: 0, height: 0, rgba: Vec::new(), rgba16: Vec::new(), layout: Layout::Rgba8 }
    }
}

/// `image::DynamicImage`, a decoded image of any layout.
#[verifier::external_type_specification]
#[verifier::external_body]
pub struct ExDynamicImage(image::DynamicImage);

/// A decoded image as a picture: its size, its pixels converted to 8-bit RGBA
/// (`DynamicImage::to_rgba8`), its layout, and for 16 bits per sample its samples
/// converted to 16-bit RGBA (`DynamicImage::to_rgba16`).
///
/// Claimed of `DynamicImage::to_rgba8` and `to_rgba16`: each holds
/// `width * height` pixels.
#[verifier::external_body]
fn picture_of(img: image::DynamicImage) -> (res: Picture)
    ensures
        res.wf(),
{
    let (layout, rgba16) = match &img {
        image::DynamicImage::ImageRgb8(_) => (Layout::Rgb8, Vec::new()),
        image::DynamicImage::ImageRgba8(_) => (Layout::Rgba8, Vec::new()),
        image::DynamicImage::ImageLuma16(_) | image::DynamicImage::ImageLumaA16(_)
        | image::DynamicImage::ImageRgb16(_) | image::DynamicImage::ImageRgba16(_) =>
            (Layout::Deep16, img.to_rgba16().into_raw()),
        _ => (Layout::Other, Vec::new()),
    };
    Picture { width: img.width(), height: img.height(), rgba: img.to_rgba8().into_raw(), rgba16, layout }
}

/// What `image::load_from_memory` gives for `bytes`: the width, height, RGBA bytes
/// (`to_rgba8`), layout and 16-bit RGBA samples (`to_rgba16`, for a 16-bit layout)
/// of the decoded image, or the text of the error.
pub uninterp spec fn decoded(bytes: Seq<u8>) -> Result<(u32, u32, Seq<u8>, Layout, Seq<u16>), Seq<u8>>;

/// The text of the error `image::ImageFormat::from_path(path)` gives when it
/// knows no image format for the path's extension (none when it knows one).
pub uninterp spec fn extension_refusal(path: Seq<u8>) -> Option<Seq<u8>>;

/// What `ImageReader::decode` gives for `bytes` with the format
/// `ImageFormat::from_path(path)` finds, or with no format when it finds none.
pub uninterp spec fn decoded_by_path(path: Seq<u8>, bytes: Seq<u8>)
    -> Result<(u32, u32, Seq<u8>, Layout, Seq<u16>), Seq<u8>>;

/// What `ImageReader::open(path)` followed by `decode()` gives for a file at
/// `path` that holds `bytes`. `open` keeps a non-empty extension as the format,
/// and `decode` refuses one it does not know with the error `from_path` gives for
/// it; otherwise the bytes are decoded with the format of the extension, or with
/// none (which fails) when there is no extension or an empty one.
pub open spec fn decoded_file(path: Seq<u8>, bytes: Seq<u8>) -> Result<(u32, u32, Seq<u8>, Layout, Seq<u16>), Seq<u8>> {
    match extension_refusal(path) {
        Some(m) if names_extension(path) => Err(m),
        _ => decoded_by_path(path, bytes),
    }
}

/// `image::load_from_memory(bytes)`, as a picture, or the error's text.
///
/// Claimed of `image::load_from_memory`: the result is `decoded` of the bytes (the
/// format is guessed from the leading bytes and the decoders depend on the bytes
/// alone).
#[verifier::external_body]
fn load_from_memory(bytes: &[u8]) -> (res: Result<Picture, Vec<u8>>)
    ensures
        match decoded(bytes@) {
            Ok(t) => res matches Ok(p) && p.width == t.0 && p.height == t.1 && p.rgba@ == t.2 && p.layout == t.3
                && p.rgba16@ == t.4,
            Err(m) => res matches Err(e) && e@ == m,
        },
        res matches Ok(p) ==> p.wf(),
{
    image::load_from_memory(bytes).map(picture_of).map_err(|e| e.to_string().into_bytes())
}

/// The error text of `image::ImageFormat::from_path(path)`, if it knows no format
/// for the path.
///
/// Claimed of `image::ImageFormat::from_path`: the result is `extension_refusal` of
/// the path.
#[verifier::external_body]
fn format_refusal(path: &[u8]) -> (res: Option<Vec<u8>>)
    ensures
        match extension_refusal(path@) {
            Some(m) => res matches Some(e) && e@ == m,
            None => res is None,
        },
{
    image::ImageFormat::from_path(String::from_utf8_lossy(path).as_ref()).err().map(|e| e.to_string().into_bytes())
}

/// `ImageReader::new(Cursor::new(bytes))`, with the format
/// `ImageFormat::from_path(path)` gives when it gives one, then `decode()`.
///
/// Claimed of `image::ImageFormat::from_path` and `image::ImageReader::decode`:
/// the result is `decoded_by_path` of the path and the bytes.
#[verifier::external_body]
fn decode_with_path_format(path: &[u8], bytes: &[u8]) -> (res: Result<Picture, Vec<u8>>)
    ensures
        match decoded_by_path(path@, bytes@) {
            Ok(t) => res matches Ok(p) && p.width == t.0 && p.height == t.1 && p.rgba@ == t.2 && p.layout == t.3
                && p.rgba16@ == t.4,
            Err(m) => res matches Err(e) && e@ == m,
        },
        res matches Ok(p) ==> p.wf(),
{
    let mut reader = image::ImageReader::new(std::io::Cursor::new(bytes));
    if let Ok(format) = image::ImageFormat::from_path(String::from_utf8_lossy(path).as_ref()) {
        reader.set_format(format);
    }
    reader.decode().map(picture_of).map_err(|e| e.to_string().into_bytes())
}

/// Decodes the bytes of the image file at `path` (`decoded_file`: the format is
/// that of the path's extension), or gives the decoder's error text.
pub fn decode_file_picture(path: &[u8], bytes: &[u8]) -> (res: Result<Picture, Vec<u8>>)
    ensures
        match decoded_file(path@, bytes@) {
            Ok(t) => res matches Ok(p) && p.width == t.0 && p.height == t.1 && p.rgba@ == t.2 && p.layout == t.3
                && p.rgba16@ == t.4,
            Err(m) => res matches Err(e) && e@ == m,
        },
        res matches Ok(p) ==> p.wf(),
{
    if has_extension(path) {
        if let Some(e) = format_refusal(path) {
            return Err(e);
        }
    }
    decode_with_path_format(path, bytes)
}

/// Decodes an image held in memory (`decoded`), or gives the decoder's error text.
pub fn decode_picture(bytes: &[u8]) -> (res: Result<Picture, Vec<u8>>)
    ensures
        match decoded(bytes@) {
            Ok(t) => res matches Ok(p) && p.width == t.0 && p.height == t.1 && p.rgba@ == t.2 && p.layout == t.3
                && p.rgba16@ == t.4,
            Err(m) => res matches Err(e) && e@ == m,
        },
        res matches Ok(p) ==> p.wf(),
{
    load_from_memory(bytes)
}

/// The size and RGBA bytes that `DynamicImage::resize(w, h, FilterType::Triangle)`
/// gives for a `width` by `height` RGBA image `rgba`.
pub uninterp spec fn fitted(width: u32, height: u32, rgba: Seq<u8>, w: u32, h: u32) -> (u32, u32, Seq<u8>);

/// The size and RGBA bytes (`to_rgba8`) that `DynamicImage::resize(w, h,
/// FilterType::Triangle)` gives for a `width` by `height` 16-bit RGBA image
/// `rgba16`.
pub uninterp spec fn fitted16(width: u32, height: u32, rgba16: Seq<u16>, w: u32, h: u32) -> (u32, u32, Seq<u8>);

/// The RGBA bytes that `imageops::resize(image, w, h, FilterType::Triangle)` gives
/// for a `width` by `height` RGBA image `rgba`.
pub uninterp spec fn squeezed(width: u32, height: u32, rgba: Seq<u8>, w: u32, h: u32) -> Seq<u8>;

/// The RGBA bytes of `bottom` after `imageops::overlay(bottom, top, x, y)`.
pub uninterp spec fn overlaid(
    bottom_width: u32,
    bottom_height: u32,
    bottom: Seq<u8>,
    top_width: u32,
    top_height: u32,
    top: Seq<u8>,
    x: i64,
    y: i64,
) -> Seq<u8>;

/// The largest side a resize to `side` can give: `side`, or 1 when it is 0.
pub open spec fn side_bound(side: u32) -> u32 {
    if side == 0 { 1 } else { side }
}

/// `DynamicImage::resize(w, h, FilterType::Triangle)` on the picture's RGBA bytes.
///
/// Claimed of `image::DynamicImage::resize`: the result is `fitted` of the
/// picture's size and pixels and of `w` and `h` (the image crate computes it with
/// plain `f32`/`f64` arithmetic, the same everywhere) and holds `width * height`
/// pixels. Asked for the picture's own size, it returns the picture unchanged;
/// otherwise each side is at least 1 and at most the side asked for (or 1 when
/// that is 0), as `resize_dimensions` rounds the largest size with the same
/// aspect ratio. The pixels are not described further.
#[verifier::external_body]
fn resize_rgba8(p: &Picture, w: u32, h: u32) -> (res: Picture)
    requires
        p.wf(),
        p.layout != Layout::Deep16,
        resize_fits(p.width, w, h),
    ensures
        res.wf(),
        res.layout == p.layout,
        (res.width, res.height, res.rgba@) == fitted(p.width, p.height, p.rgba@, w, h),
        (w == p.width && h == p.height) ==> res.width == w && res.height == h && res.rgba@ == p.rgba@,
        !(w == p.width && h == p.height) ==> 1 <= res.width <= side_bound(w) && 1 <= res.height <= side_bound(h),
{
    let img = image::DynamicImage::ImageRgba8(image::RgbaImage::from_raw(p.width, p.height, p.rgba.clone()).unwrap());
    let out = img.resize(w, h, image::imageops::FilterType::Triangle).into_rgba8();
    Picture { width: out.width(), height: out.height(), rgba: out.into_raw(), rgba16: Vec::new(), layout: p.layout }
}

/// `DynamicImage::resize(w, h, FilterType::Triangle)` on the picture's 16-bit
/// samples, then `to_rgba8`.
///
/// Claimed of `image::DynamicImage::resize`: the RGBA bytes of the result are
/// `fitted16` of the picture's size and 16-bit samples and of `w` and `h`, and
/// each holds `width * height` pixels. Asked for the picture's own size, it keeps
/// the size; otherwise each side is at least 1 and at most the side asked for (or
/// 1 when that is 0). The pixels are not described further.
#[verifier::external_body]
fn resize_rgba16(p: &Picture, w: u32, h: u32) -> (res: Picture)
    requires
        p.wf(),
        p.layout == Layout::Deep16,
        resize_fits(p.width, w, h),
    ensures
        res.wf(),
        res.layout == p.layout,
        (res.width, res.height, res.rgba@) == fitted16(p.width, p.height, p.rgba16@, w, h),
        (w == p.width && h == p.height) ==> res.width == w && res.height == h,
        !(w == p.width && h == p.height) ==> 1 <= res.width <= side_bound(w) && 1 <= res.height <= side_bound(h),
{
    let buf = image::ImageBuffer::from_raw(p.width, p.height, p.rgba16.clone()).unwrap();
    let out = image::DynamicImage::ImageRgba16(buf).resize(w, h, image::imageops::FilterType::Triangle);
    let (width, height, rgba) = (out.width(), out.height(), out.to_rgba8().into_raw());
    Picture { width, height, rgba, rgba16: out.into_rgba16().into_raw(), layout: p.layout }
}

/// The picture resized to fit in `w` by `h` (`DynamicImage::resize` with
/// `FilterType::Triangle`), keeping its layout: a 16-bit picture is resized from
/// its 16-bit samples.
pub(crate) fn resize_within(p: &Picture, w: u32, h: u32) -> (res: Picture)
    requires
        p.wf(),
        resize_fits(p.width, w, h),
    ensures
        res.wf(),
        res.layout == p.layout,
        (res.width, res.height, res.rgba@) == p.fit_within(w, h),
        (w == p.width && h == p.height) ==> res.width == w && res.height == h,
        (w == p.width && h == p.height && p.layout != Layout::Deep16) ==> res.rgba@ == p.rgba@,
        !(w == p.width && h == p.height) ==> 1 <= res.width <= side_bound(w) && 1 <= res.height <= side_bound(h),
{
    if p.layout == Layout::Deep16 {
        resize_rgba16(p, w, h)
    } else {
        resize_rgba8(p, w, h)
    }
}

/// `imageops::resize(image, w, h, FilterType::Triangle)`: exactly `w` by `h`.
///
/// Claimed of `image::imageops::resize`: the result is `w` by `h` RGBA pixels, and
/// they are `squeezed` of the picture's size and pixels and of `w` and `h`.
#[verifier::external_body]
fn resize_to(p: &Picture, w: u32, h: u32) -> (res: Picture)
    requires
        p.wf(),
        resize_fits(p.width, w, h),
    ensures
        res.width == w,
        res.height == h,
        res.layout == Layout::Rgba8,
        res.wf(),
        res.rgba@ == squeezed(p.width, p.height, p.rgba@, w, h),
{
    let img = image::DynamicImage::ImageRgba8(image::RgbaImage::from_raw(p.width, p.height, p.rgba.clone()).unwrap());
    let out = image::imageops::resize(&img, w, h, image::imageops::FilterType::Triangle);
    Picture { width: w, height: h, rgba: out.into_raw(), rgba16: Vec::new(), layout: Layout::Rgba8 }
}

/// The pixel at column `px` and row `py` lies outside the `w` by `h` rectangle
/// whose top left corner is at `(x, y)`.
pub open spec fn outside_rect(px: int, py: int, x: int, y: int, w: int, h: int) -> bool {
    px < x || px >= x + w || py < y || py >= y + h
}

/// `imageops::overlay(bottom, top, x, y)`: `top` blended onto `bottom` with its
/// top left corner at `(x, y)`.
///
/// Claimed of `image::imageops::overlay`: the result keeps the size of `bottom`,
/// its pixels are `overlaid` of both images and of `x` and `y`, and every pixel
/// of `bottom` outside the rectangle that `top` covers is left as it was (the
/// crate only writes the pixels of that rectangle clipped to `bottom`).
#[verifier::external_body]
fn overlay_at(bottom: Picture, top: &Picture, x: i64, y: i64) -> (res: Picture)
    requires
        bottom.wf(),
        top.wf(),
    ensures
        res.width == bottom.width,
        res.height == bottom.height,
        res.layout == Layout::Rgba8,
        res.wf(),
        res.rgba@ == overlaid(bottom.width, bottom.height, bottom.rgba@, top.width, top.height, top.rgba@, x, y),
        forall|i: int| 0 <= i < res.rgba@.len() && outside_rect(i / 4 % bottom.width as int,
            i / 4 / bottom.width as int, x as int, y as int, top.width as int, top.height as int)
            ==> #[trigger] res.rgba@[i] == bottom.rgba@[i],
{
    let mut canvas = image::RgbaImage::from_raw(bottom.width, bottom.height, bottom.rgba).unwrap();
    let over = image::RgbaImage::from_raw(top.width, top.height, top.rgba.clone()).unwrap();
    image::imageops::overlay(&mut canvas, &over, x, y);
    Picture { width: bottom.width, height: bottom.height, rgba: canvas.into_raw(), rgba16: Vec::new(), layout: Layout::Rgba8 }
}

/// Some pixel of the `n` RGBA pixels `rgba` is not opaque.
pub open spec fn has_transparency(rgba: Seq<u8>, n: int) -> bool {
    exists|k: int| 0 <= k < n && #[trigger] rgba[4 * k + 3] < 255
}

/// `round(limit * side / longest)`, at least 1: the number of luminance terms
/// ThumbHash keeps along a side.
pub open spec fn luma_terms(limit: int, side: int, longest: int) -> int {
    let r = (2 * limit * side + longest) / (2 * longest);
    if r < 1 { 1 } else { r }
}

/// The number of DCT terms `(cx, cy)` with `cy` from `cy0` below `ny` and
/// `cx * ny < nx * (ny - cy)`.
pub open spec fn dct_terms(nx: int, ny: int, cy0: int) -> int
    decreases ny - cy0,
{
    if ny <= 0 || cy0 >= ny || cy0 < 0 {
        0
    } else {
        (nx * (ny - cy0) + ny - 1) / ny + dct_terms(nx, ny, cy0 + 1)
    }
}

/// The length of the ThumbHash of a `w` by `h` image: five header bytes, one more
/// with transparency, and the AC terms packed two per byte.
pub open spec fn thumb_hash_len(w: int, h: int, alpha: bool) -> int {
    let longest = if w > h { w } else { h };
    let limit = if alpha { 5int } else { 7int };
    let lx = luma_terms(limit, w, longest);
    let ly = luma_terms(limit, h, longest);
    let nl = dct_terms(if lx > 3 { lx } else { 3 }, if ly > 3 { ly } else { 3 }, 0) - 1;
    let terms = nl + 5 + 5 + (if alpha { 14int } else { 0int });
    5 + (if alpha { 1int } else { 0int }) + (terms + 1) / 2
}

/// What holds of every ThumbHash of a `w` by `h` image `rgba` (both sides at least
/// 1): its length; the transparency flag (top bit of byte 2) is set exactly when
/// some pixel is not opaque; the landscape flag (top bit of byte 4) exactly when
/// `w > h`; and the low 3 bits of byte 3 give the luminance terms along the
/// shorter side (or along the width when square).
pub open spec fn thumb_hash_facts(w: u32, h: u32, rgba: Seq<u8>, hash: Seq<u8>) -> bool {
    let alpha = has_transparency(rgba, w as int * h as int);
    let longest = if w > h { w as int } else { h as int };
    let limit = if alpha { 5int } else { 7int };
    &&& hash.len() == thumb_hash_len(w as int, h as int, alpha)
    &&& (hash[2] >= 128) == alpha
    &&& (hash[4] >= 128) == (w > h)
    &&& hash[3] % 8 == (if w > h { luma_terms(limit, h as int, longest) } else { luma_terms(limit, w as int, longest) })
}

/// `hash` is a ThumbHash that `thumbhash::rgba_to_thumb_hash` may give for the
/// `w` by `h` image whose RGBA bytes are `rgba`.
pub uninterp spec fn thumb_may_give(w: u32, h: u32, rgba: Seq<u8>, hash: Seq<u8>) -> bool;

/// `thumbhash::rgba_to_thumb_hash(w, h, rgba)`.
///
/// Claimed of `thumbhash::rgba_to_thumb_hash`: it returns when the image is at most
/// 100 by 100 and `rgba` holds its `w * h` pixels (it asserts both); the hash
/// starts with its five header bytes; and for an image of at least 1 by 1 the
/// whole-number facts `thumb_hash_facts` hold (the transparency test sums
/// `alpha / 255` in `f32`, which reaches `w * h` only when every alpha is 255).
/// The DC and AC values, computed in `f32` with `cos` (whose last bits may differ
/// between platforms), are not described; what is returned is a hash the function
/// may give for exactly these pixels (`thumb_may_give`).
#[verifier::external_body]
fn thumb_hash(w: u32, h: u32, rgba: &[u8]) -> (res: Vec<u8>)
    requires
        w <= 100,
        h <= 100,
        rgba@.len() == w as int * h as int * 4,
    ensures
        thumb_may_give(w, h, rgba@, res@),
        res@.len() >= 5,
        w >= 1 && h >= 1 ==> thumb_hash_facts(w, h, rgba@, res@),
{
    thumbhash::rgba_to_thumb_hash(w as usize, h as usize, rgba)
}

/// `n` bytes of 255: the RGBA bytes of an opaque white image of `n / 4` pixels.
pub open spec fn white(n: nat) -> Seq<u8> {
    Seq::new(n, |i: int| 255u8)
}

/// A `w` by `h` picture whose pixels are all opaque white:
/// `RgbaImage::from_pixel(w, h, Rgba([255, 255, 255, 255]))`.
pub fn white_canvas(w: u32, h: u32) -> (res: Picture)
    requires
        fits(w, h, 4, 1),
    ensures
        res.width == w,
        res.height == h,
        res.layout == Layout::Rgba8,
        res.wf(),
        forall|i: int| 0 <= i < res.rgba@.len() ==> res.rgba@[i] == 255,
{
    let n: usize = (w as usize) * (h as usize) * 4;
    let mut rgba: Vec<u8> = Vec::new();
    let mut i: usize = 0;
    while i < n
        invariant
            i <= n,
            rgba@.len() == i,
            forall|j: int| 0 <= j < i ==> rgba@[j] == 255,
        decreases n - i,
    {
        rgba.push(255);
        i = i + 1;
    }
    Picture { width: w, height: h, rgba, rgba16: Vec::new(), layout: Layout::Rgba8 }
}

/// The pixel at index `k` (row-major) of the RGBA bytes `rgba`.
pub open spec fn pixel_at(rgba: Seq<u8>, k: int) -> Pixel {
    Pixel { r: rgba[4 * k], g: rgba[4 * k + 1], b: rgba[4 * k + 2], a: rgba[4 * k + 3] }
}

proof fn lemma_row_step(i: int, w: int, h: int)
    requires
        0 <= i < h,
        0 <= w,
    ensures
        (i + 1) * w == i * w + w,
        (i + 1) * w <= h * w,
{
    assert((i + 1) * w == i * w + w) by (nonlinear_arith);
    assert((i + 1) * w <= h * w) by (nonlinear_arith)
        requires
            i + 1 <= h,
            0 <= w,
    ;
}

/// The pixels of `p` read row by row, each row left to right, as
/// `get_pixel(x, y)` gives them.
pub fn pixels_row_major(p: &Picture) -> (res: Vec<Pixel>)
    requires
        p.wf(),
    ensures
        res@.len() == p.width as int * p.height as int,
        forall|k: int| 0 <= k < res@.len() ==> res@[k] == pixel_at(p.rgba@, k),
{
    let w: usize = p.width as usize;
    let h: usize = p.height as usize;
    let ghost total = h as int * w as int;
    assert(total == p.width as int * p.height as int) by (nonlinear_arith)
        requires
            total == h as int * w as int,
            w == p.width,
            h == p.height,
    ;
    let len: usize = p.rgba.len();
    let mut res: Vec<Pixel> = Vec::new();
    let mut i: usize = 0;
    let mut k: usize = 0;
    assert(0 * w == 0) by (nonlinear_arith);
    while i < h
        invariant
            p.wf(),
            w == p.width,
            h == p.height,
            total == h * w,
            p.rgba@.len() == total * 4,
            len == p.rgba@.len(),
            i <= h,
            k == i * w,
            k <= total,
            res@.len() == k,
            forall|m: int| 0 <= m < k ==> res@[m] == pixel_at(p.rgba@, m),
        decreases h - i,
    {
        proof {
            lemma_row_step(i as int, w as int, h as int);
        }
        let mut j: usize = 0;
        while j < w
            invariant
                p.wf(),
                w == p.width,
                h == p.height,
                total == h * w,
                p.rgba@.len() == total * 4,
            len == p.rgba@.len(),
                i < h,
                j <= w,
                k == i * w + j,
                i * w + w <= total,
                res@.len() == k,
                forall|m: int| 0 <= m < k ==> res@[m] == pixel_at(p.rgba@, m),
            decreases w - j,
        {
            assert(k < total);
            let base: usize = 4 * k;
            res.push(Pixel { r: p.rgba[base], g: p.rgba[base + 1], b: p.rgba[base + 2], a: p.rgba[base + 3] });
            j = j + 1;
            k = k + 1;
        }
        i = i + 1;
    }
    assert(k == total);
    res
}


/// The first thumbnail mode: the image squeezed to 100 by 100.
pub fn square_thumbnail(p: &Picture) -> (res: Picture)
    requires
        p.wf(),
        resize_fits(p.width, 100, 100),
    ensures
        res.width == 100,
        res.height == 100,
        res.wf(),
        res.rgba@ == squeezed(p.width, p.height, p.rgba@, 100, 100),
{
    resize_to(p, 100, 100)
}

/// The second thumbnail mode: the image resized to `w` by `h` (at most 100 each)
/// and centred on a 100 by 100 white canvas; around it the thumbnail stays white.
pub fn padded_thumbnail(p: &Picture, w: u32, h: u32) -> (res: Picture)
    requires
        p.wf(),
        w <= 100,
        h <= 100,
        resize_fits(p.width, w, h),
    ensures
        res.width == 100,
        res.height == 100,
        res.wf(),
        res.rgba@ == overlaid(100, 100, white(40000), w, h, squeezed(p.width, p.height, p.rgba@, w, h),
            ((100 - w) / 2) as i64, ((100 - h) / 2) as i64),
        forall|i: int| 0 <= i < 40000 && outside_rect(i / 4 % 100, i / 4 / 100, (100 - w) / 2, (100 - h) / 2,
            w as int, h as int) ==> #[trigger] res.rgba@[i] == 255,
{
    let resized = resize_to(p, w, h);
    let canvas = white_canvas(100, 100);
    let x: u32 = (100 - w) / 2;
    let y: u32 = (100 - h) / 2;
    assert(canvas.rgba@ =~= white(40000));
    overlay_at(canvas, &resized, x as i64, y as i64)
}

/// The ThumbHash of a picture of at most 100 by 100: a hash of exactly its pixels.
pub fn hash_thumbnail(p: &Picture) -> (res: Vec<u8>)
    requires
        p.wf(),
        p.width <= 100,
        p.height <= 100,
    ensures
        thumb_may_give(p.width, p.height, p.rgba@, res@),
        res@.len() >= 5,
        p.width >= 1 && p.height >= 1 ==> thumb_hash_facts(p.width, p.height, p.rgba@, res@),
{
    thumb_hash(p.width, p.height, &p.rgba)
}

} // verus!
