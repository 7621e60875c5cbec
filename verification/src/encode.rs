//! WebP and AVIF encoding, through the `webp`, `ravif` and `imgref` crates.
//!
//! Each encoding is asked for with a request that holds everything handed to the
//! encoder; the requests of a conversion are built from its settings and the
//! resized image.

use vstd::prelude::*;
use crate::options::ConverArgs;
use crate::picture::{Layout, Picture, Pixel, pixel_at, pixels_row_major};
use crate::words;

verus! {

/// The widest RGBA image whose row stride in bytes (`width * 4`) fits in an
/// `i32`, as libwebp takes it.
pub const WEBP_MAX_WIDTH: u32 = 536870911;

/// What is handed to the WebP encoder: RGBA pixels, their size, and the settings
/// of the `WebPConfig`.
pub struct WebpRequest {
    pub rgba: Vec<u8>,
    pub width: u32,
    pub height: u32,
    pub lossless: i32,
    pub alpha_compression: i32,
    pub quality: u32,
    pub method: i32,
}

/// What is handed to the AVIF encoder: row-major pixels, their size, the quality
/// and the speed.
pub struct AvifRequest {
    pub pixels: Vec<Pixel>,
    pub width: u32,
    pub height: u32,
    pub quality: u32,
    pub speed: u8,
}

/// libwebp accepts the settings of the request (`WebPValidateConfig`, with the
/// other fields at their defaults).
pub open spec fn webp_config_ok(quality: u32, method: i32, lossless: i32, alpha_compression: i32) -> bool {
    quality <= 100 && 0 <= method <= 6 && 0 <= lossless <= 1 && alpha_compression >= 0
}

/// Whether the WebP encoder takes an image of the layout:
/// `webp::Encoder::from_image` on an empty image of it.
///
/// Claimed of `webp::Encoder::from_image`: it takes `ImageRgb8` and `ImageRgba8`
/// and refuses every other variant with `"Unimplemented"` (its `Debug` text is
/// returned); a 16-bit layout is asked as `ImageRgba16`, an `Other` one as
/// `ImageLuma8`.
#[verifier::external_body]
pub(crate) fn webp_takes(layout: Layout) -> (res: Result<(), Vec<u8>>)
    ensures
        res is Ok <==> (layout == Layout::Rgb8 || layout == Layout::Rgba8),
        res matches Err(e) ==> e@ == words::unimplemented_quoted(),
{
    let image = match layout {
        Layout::Rgb8 => image::DynamicImage::new_rgb8(0, 0),
        Layout::Rgba8 => image::DynamicImage::new_rgba8(0, 0),
        Layout::Deep16 => image::DynamicImage::new_rgba16(0, 0),
        Layout::Other => image::DynamicImage::new_luma8(0, 0),
    };
    webp::Encoder::from_image(&image).map(|_| ()).map_err(|e| format!("{:?}", e).into_bytes())
}

/// The view of an encoder's result: the encoded bytes, or the error text.
pub open spec fn outcome_view(o: Result<Vec<u8>, Vec<u8>>) -> Result<Seq<u8>, Seq<u8>> {
    match o {
        Ok(b) => Ok(b@),
        Err(e) => Err(e@),
    }
}

/// `outcome` is a result the WebP encoder may give when handed the RGBA bytes
/// `rgba` of a `width` by `height` image and these `WebPConfig` settings.
pub uninterp spec fn webp_may_give(
    rgba: Seq<u8>,
    width: u32,
    height: u32,
    lossless: i32,
    alpha_compression: i32,
    quality: u32,
    method: i32,
    outcome: Result<Seq<u8>, Seq<u8>>,
) -> bool;

/// `outcome` is a result the AVIF encoder may give when handed the row-major
/// pixels of a `width` by `height` image, the quality and the speed.
pub uninterp spec fn avif_may_give(
    pixels: Seq<Pixel>,
    width: u32,
    height: u32,
    quality: u32,
    speed: u8,
    outcome: Result<Seq<u8>, Seq<u8>>,
) -> bool;

/// WebP encoding of the request, or the encoder's error as `Debug` shows it.
///
/// Calls `webp::Encoder::from_rgba(rgba, w, h).encode_advanced(&config)`, where
/// `config` is `webp::WebPConfig::new()` with `lossless`, `alpha_compression`,
/// `quality` and `method` set. Claimed: it returns when `rgba` holds `w * h`
/// pixels (the encoder asserts that) and `w` is at most `WEBP_MAX_WIDTH` (so the
/// row stride `w as i32 * 4` does not overflow; a height past `i32::MAX` turns
/// negative and libwebp refuses it before reading a byte); and what it returns
/// is a result the encoder may give for exactly this request (`webp_may_give`).
/// Which bytes, or which error (invalid settings, a side over 16383, out of
/// memory), is not described: libwebp picks SIMD code at run time and uses
/// floating point.
#[verifier::external_body]
pub(crate) fn webp_encode(req: &WebpRequest) -> (res: Result<Vec<u8>, Vec<u8>>)
    requires
        req.rgba@.len() == req.width as int * req.height as int * 4,
        req.width <= WEBP_MAX_WIDTH,
    ensures
        webp_may_give(req.rgba@, req.width, req.height, req.lossless, req.alpha_compression, req.quality,
            req.method, outcome_view(res)),
{
    let encoder = webp::Encoder::from_rgba(&req.rgba, req.width, req.height);
    let mut config = webp::WebPConfig::new().unwrap();
    config.lossless = req.lossless;
    config.alpha_compression = req.alpha_compression;
    config.quality = req.quality as _;
    config.method = req.method;
    encoder.encode_advanced(&config).map(|m| m.to_vec()).map_err(|e| format!("{:?}", e).into_bytes())
}

/// AVIF encoding of the request, or the encoder's error text.
///
/// Calls `ravif::Encoder::new().with_quality(quality).with_speed(speed)
/// .encode_rgba(imgref::Img::new(pixels, w, h))` and keeps the `avif_file`.
/// Claimed: it returns when `w > 0` (`Img::new` panics on a zero stride), the
/// quality is in `1..=100` and the speed in `1..=10` (`ravif` asserts both); and
/// what it returns is a result the encoder may give for exactly this request
/// (`avif_may_give`). The encoded bytes depend on the number of threads of the
/// machine (`ravif` picks its tiles from it) and are not described.
#[verifier::external_body]
pub(crate) fn avif_encode(req: &AvifRequest) -> (res: Result<Vec<u8>, Vec<u8>>)
    requires
        req.width > 0,
        1 <= req.quality <= 100,
        1 <= req.speed <= 10,
        req.pixels@.len() == req.width as int * req.height as int,
    ensures
        avif_may_give(req.pixels@, req.width, req.height, req.quality, req.speed, outcome_view(res)),
{
    let buf: Vec<ravif::RGBA8> = req.pixels.iter().map(|p| ravif::RGBA8::new(p.r, p.g, p.b, p.a)).collect();
    let img = imgref::Img::new(&buf[..], req.width as usize, req.height as usize);
    let encoder = ravif::Encoder::new().with_quality(req.quality as _).with_speed(req.speed);
    encoder.encode_rgba(img).map(|e| e.avif_file).map_err(|e| e.to_string().into_bytes())
}

/// The WebP request of a conversion for the resized image `resized`: its pixels
/// and size, lossy (`lossless = 0`) with compressed alpha (`alpha_compression =
/// 1`), at the WebP quality and method of the settings. An 8-bit RGB image goes
/// as opaque RGBA, which libwebp encodes as the same image in RGB: it looks for
/// transparency (`WebPPictureHasTransparency`) before writing an alpha plane.
pub fn webp_request(a: &ConverArgs, resized: &Picture) -> (res: WebpRequest)
    ensures
        res.rgba@ == resized.rgba@,
        res.width == resized.width,
        res.height == resized.height,
        res.lossless == 0,
        res.alpha_compression == 1,
        res.quality == a.webp_quality,
        res.method == a.webp_method,
{
    let rgba = crate::text::copy_range(&resized.rgba, 0, resized.rgba.len());
    assert(resized.rgba@.subrange(0, resized.rgba@.len() as int) =~= resized.rgba@);
    WebpRequest {
        rgba,
        width: resized.width,
        height: resized.height,
        lossless: 0,
        alpha_compression: 1,
        quality: a.webp_quality,
        method: a.webp_method,
    }
}

/// The AVIF request of a conversion for the resized image `resized`: its pixels
/// row by row, its size, and the AVIF quality and speed of the settings.
pub fn avif_request(a: &ConverArgs, resized: &Picture) -> (res: AvifRequest)
    requires
        resized.wf(),
    ensures
        res.pixels@.len() == resized.width as int * resized.height as int,
        forall|k: int| 0 <= k < res.pixels@.len() ==> res.pixels@[k] == pixel_at(resized.rgba@, k),
        res.width == resized.width,
        res.height == resized.height,
        res.quality == a.avif_quality,
        res.speed == a.avif_speed,
{
    AvifRequest {
        pixels: pixels_row_major(resized),
        width: resized.width,
        height: resized.height,
        quality: a.avif_quality,
        speed: a.avif_speed,
    }
}

} // verus!
