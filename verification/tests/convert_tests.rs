use imgconvert::b64::decode_base64;
use imgconvert::convert::{avif_delivery, convert_image, deliver, file_name_bytes, thumbnail_of, webp_delivery, Action};
use imgconvert::encode::{avif_request, webp_request};
use imgconvert::options::ConverArgs;
use imgconvert::picture::{decode_file_picture, decode_picture, hash_thumbnail, padded_thumbnail, pixels_row_major, square_thumbnail, white_canvas, Layout, Picture, Pixel};

fn gradient(w: u32, h: u32, layout: Layout) -> Picture {
    let mut rgba = Vec::new();
    for y in 0..h {
        for x in 0..w {
            rgba.extend_from_slice(&[(x * 30) as u8, (y * 30) as u8, 128, 255]);
        }
    }
    Picture { width: w, height: h, rgba, rgba16: Vec::new(), layout }
}

fn cli_args(image: Picture) -> ConverArgs {
    let mut a = ConverArgs::new(b"/out".to_vec());
    a.take_memory_image(image);
    a
}

/// The planned sizes, with the resolutions of the settings set to match them.
fn plan(a: &mut ConverArgs, dims: &[(u32, u32, u32)]) -> Vec<(u32, u32, u32)> {
    a.resolutions = dims.iter().map(|d| d.0).collect();
    dims.to_vec()
}

fn printed(a: &Action) -> Option<Vec<u8>> {
    match a {
        Action::Print(t) => Some(t.clone()),
        _ => None,
    }
}

#[test]
fn file_names() {
    assert_eq!(file_name_bytes(b"cat.png", 800, 800, 600, b"webp"), b"cat.png-800i-800x600.webp".to_vec());
}

#[test]
fn deliver_as_record() {
    let mut a = cli_args(gradient(2, 2, Layout::Rgba8));
    a.name = b"cat".to_vec();
    let acts = deliver(&a, 10, 12, 9, b"hello".to_vec(), b"avif".to_vec(), b"saved: ".to_vec(), false, &b"th".to_vec());
    assert_eq!(acts.len(), 1);
    match &acts[0] {
        Action::Emit(o) => {
            assert_eq!(o.image, b"aGVsbG8=".to_vec());
            assert_eq!(o.name, b"cat-10i-12x9.avif".to_vec());
            assert_eq!(o.resolution, 10);
            assert_eq!(o.format, b"avif".to_vec());
            assert_eq!(o.thumbhash, b"th".to_vec());
        },
        _ => panic!("expected a record"),
    }
}

#[test]
fn deliver_as_file() {
    let mut a = ConverArgs::new(b"/out".to_vec());
    a.name = b"cat".to_vec();
    let acts = deliver(&a, 10, 12, 9, b"hello".to_vec(), b"webp".to_vec(), b"Imagen WEBP guardada en: ".to_vec(), true, &Vec::new());
    assert_eq!(acts.len(), 2);
    match &acts[0] {
        Action::Save { path, data, fatal } => {
            assert_eq!(path, &b"/out/cat-10i-12x9.webp".to_vec());
            assert_eq!(data, &b"hello".to_vec());
            assert!(*fatal);
        },
        _ => panic!("expected a write"),
    }
    assert_eq!(printed(&acts[1]), Some(b"Imagen WEBP guardada en: /out/cat-10i-12x9.webp".to_vec()));
}

#[test]
fn webp_record() {
    let mut a = cli_args(gradient(8, 8, Layout::Rgba8));
    a.use_webp = true;
    let dims = plan(&mut a, &[(4, 4, 4)]);
    let acts = convert_image(&a, &dims, (0, 0));
    assert_eq!(acts.len(), 2);
    assert_eq!(printed(&acts[0]), Some(b"Conviertiendo imagen .webp en dimension: 4x4...".to_vec()));
    match &acts[1] {
        Action::Emit(o) => {
            assert_eq!(o.name, b"image-4i-4x4.webp".to_vec());
            assert_eq!(o.format, b"webp".to_vec());
            assert_eq!(o.resolution, 4);
            assert!(o.thumbhash.is_empty());
            let bytes = decode_base64(&o.image).unwrap();
            assert_eq!(&bytes[0..4], b"RIFF");
            assert_eq!(&bytes[8..12], b"WEBP");
        },
        _ => panic!("expected a record"),
    }
}

#[test]
fn webp_refuses_other_layouts() {
    let mut a = cli_args(gradient(4, 4, Layout::Other));
    a.use_webp = true;
    a.use_avif = true;
    let dims = plan(&mut a, &[(2, 2, 2), (3, 3, 3)]);
    let acts = convert_image(&a, &dims, (0, 0));
    assert_eq!(acts.len(), 2);
    match &acts[1] {
        Action::Abort(t) => assert_eq!(t, &b"called `Result::unwrap()` on an `Err` value: \"Unimplemented\"".to_vec()),
        _ => panic!("expected a panic"),
    }
}

#[test]
fn avif_files() {
    let mut a = ConverArgs::new(b"/out".to_vec());
    a.take_file_image(gradient(6, 6, Layout::Rgb8), b"cat.png".to_vec());
    a.use_avif = true;
    a.avif_speed = 10;
    let dims = plan(&mut a, &[(3, 3, 3)]);
    let acts = convert_image(&a, &dims, (0, 0));
    assert_eq!(acts.len(), 3);
    assert_eq!(printed(&acts[0]), Some(b"Conviertiendo imagen .avif en dimension: 3x3...".to_vec()));
    match &acts[1] {
        Action::Save { path, data, fatal } => {
            assert_eq!(path, &b"/out/cat.png-3i-3x3.avif".to_vec());
            assert_eq!(&data[4..8], b"ftyp");
            assert!(!*fatal);
        },
        _ => panic!("expected a write"),
    }
    assert_eq!(printed(&acts[2]), Some(b"Imagen AVIF guardada en: /out/cat.png-3i-3x3.avif".to_vec()));
}

#[test]
fn avif_quality_out_of_range_panics() {
    let mut a = cli_args(gradient(4, 4, Layout::Rgba8));
    a.use_avif = true;
    a.avif_quality = 0;
    let dims = plan(&mut a, &[(2, 2, 2)]);
    let acts = convert_image(&a, &dims, (0, 0));
    match &acts[1] {
        Action::Abort(t) => assert_eq!(t, &b"assertion failed: quality >= 1. && quality <= 100.".to_vec()),
        _ => panic!("expected a panic"),
    }
    a.avif_quality = 50;
    a.avif_speed = 11;
    let dims = plan(&mut a, &[(2, 2, 2)]);
    let acts = convert_image(&a, &dims, (0, 0));
    match &acts[1] {
        Action::Abort(t) => assert_eq!(t, &b"assertion failed: speed >= 1 && speed <= 10".to_vec()),
        _ => panic!("expected a panic"),
    }
}

#[test]
fn nothing_chosen_does_nothing() {
    let mut a = cli_args(gradient(4, 4, Layout::Rgba8));
    let dims = plan(&mut a, &[(2, 2, 2), (3, 3, 3)]);
    assert!(convert_image(&a, &dims, (0, 0)).is_empty());
}

#[test]
fn unknown_thumbnail_mode_stops() {
    let mut a = cli_args(gradient(4, 4, Layout::Rgba8));
    a.use_webp = true;
    a.use_thumbhash = 3;
    let dims = plan(&mut a, &[(2, 2, 2)]);
    let acts = convert_image(&a, &dims, (0, 0));
    assert_eq!(acts.len(), 1);
    match &acts[0] {
        Action::Stop(t) => assert_eq!(t, &b"Error: Thumbnail was not generated for thumbhash.".to_vec()),
        _ => panic!("expected a stop"),
    }
}

#[test]
fn thumbnail_hash_is_attached() {
    let mut a = cli_args(gradient(8, 4, Layout::Rgba8));
    a.use_webp = true;
    a.use_thumbhash = 1;
    let dims = plan(&mut a, &[(2, 2, 1)]);
    let acts = convert_image(&a, &dims, (0, 0));
    match &acts[1] {
        Action::Emit(o) => {
            let hash = decode_base64(&o.thumbhash).unwrap();
            assert!(hash.len() >= 5);
        },
        _ => panic!("expected a record"),
    }
    a.use_thumbhash = 2;
    let dims = plan(&mut a, &[(2, 2, 1)]);
    let acts = convert_image(&a, &dims, (100, 50));
    match &acts[1] {
        Action::Emit(o) => assert!(!o.thumbhash.is_empty()),
        _ => panic!("expected a record"),
    }
}

#[test]
fn thumbnails_are_square() {
    let p = gradient(8, 4, Layout::Rgba8);
    let t = square_thumbnail(&p);
    assert_eq!((t.width, t.height, t.rgba.len()), (100, 100, 40000));
    let u = padded_thumbnail(&p, 100, 50);
    assert_eq!((u.width, u.height), (100, 100));
    assert_eq!(&u.rgba[0..4], &[255, 255, 255, 255]);
}

#[test]
fn canvas_is_white() {
    let c = white_canvas(3, 2);
    assert_eq!(c.rgba, vec![255u8; 24]);
}

#[test]
fn pixels_in_row_order() {
    let p = gradient(2, 2, Layout::Rgba8);
    let px = pixels_row_major(&p);
    assert_eq!(px.len(), 4);
    assert_eq!(px[1], Pixel { r: 30, g: 0, b: 128, a: 255 });
    assert_eq!(px[2], Pixel { r: 0, g: 30, b: 128, a: 255 });
}

#[test]
fn decode_png_from_memory() {
    let mut png = Vec::new();
    let img = image::RgbaImage::from_raw(2, 1, vec![1, 2, 3, 255, 4, 5, 6, 128]).unwrap();
    img.write_to(&mut std::io::Cursor::new(&mut png), image::ImageFormat::Png).unwrap();
    let p = decode_picture(&png).ok().unwrap();
    assert_eq!((p.width, p.height), (2, 1));
    assert_eq!(p.rgba, vec![1, 2, 3, 255, 4, 5, 6, 128]);
    assert_eq!(p.layout, Layout::Rgba8);
    assert!(decode_picture(b"not an image").is_err());
}

#[test]
fn webp_results_are_delivered() {
    let mut a = ConverArgs::new(b"/out".to_vec());
    a.name = b"cat".to_vec();
    let acts = webp_delivery(&a, 5, 6, 7, Ok(b"RIFF".to_vec()), &Vec::new());
    assert_eq!(acts.len(), 2);
    match &acts[0] {
        Action::Save { path, data, fatal } => {
            assert_eq!(path, &b"/out/cat-5i-6x7.webp".to_vec());
            assert_eq!(data, &b"RIFF".to_vec());
            assert!(*fatal);
        },
        _ => panic!("expected a write"),
    }
    let acts = webp_delivery(&a, 5, 6, 7, Err(b"VP8_ENC_ERROR_OUT_OF_MEMORY".to_vec()), &Vec::new());
    match &acts[..] {
        [Action::Abort(t)] => assert_eq!(t, &b"called `Result::unwrap()` on an `Err` value: VP8_ENC_ERROR_OUT_OF_MEMORY".to_vec()),
        _ => panic!("expected a panic"),
    }
}

#[test]
fn avif_results_are_delivered() {
    let mut a = cli_args(gradient(2, 2, Layout::Rgba8));
    a.name = b"dog".to_vec();
    let acts = avif_delivery(&a, 5, 6, 7, Ok(b"hel".to_vec()), &b"TH".to_vec());
    match &acts[..] {
        [Action::Emit(o)] => {
            assert_eq!(o.image, b"aGVs".to_vec());
            assert_eq!(o.name, b"dog-5i-6x7.avif".to_vec());
            assert_eq!(o.format, b"avif".to_vec());
            assert_eq!(o.thumbhash, b"TH".to_vec());
        },
        _ => panic!("expected a record"),
    }
    let acts = avif_delivery(&a, 5, 6, 7, Err(b"Encoding error reported by rav1e".to_vec()), &Vec::new());
    match &acts[..] {
        [Action::Stop(t)] => assert_eq!(t, &b"Error encoding image: Encoding error reported by rav1e".to_vec()),
        _ => panic!("expected a stop"),
    }
}

#[test]
fn requests_carry_the_settings() {
    let mut a = ConverArgs::new(Vec::new());
    a.webp_quality = 70;
    a.webp_method = 2;
    a.avif_quality = 60;
    a.avif_speed = 9;
    let p = gradient(2, 2, Layout::Rgb8);
    let w = webp_request(&a, &p);
    assert_eq!((w.width, w.height, w.lossless, w.alpha_compression, w.quality, w.method), (2, 2, 0, 1, 70, 2));
    assert_eq!(w.rgba, p.rgba);
    let v = avif_request(&a, &p);
    assert_eq!((v.width, v.height, v.quality, v.speed), (2, 2, 60, 9));
    assert_eq!(v.pixels[3], Pixel { r: 30, g: 30, b: 128, a: 255 });
}

#[test]
fn oversized_webp_panics_like_libwebp() {
    let mut a = cli_args(gradient(16384, 1, Layout::Rgba8));
    a.use_webp = true;
    let dims = plan(&mut a, &[(7, 16384, 1)]);
    let acts = convert_image(&a, &dims, (0, 0));
    assert_eq!(acts.len(), 2);
    match &acts[1] {
        Action::Abort(t) => assert_eq!(t, &b"called `Result::unwrap()` on an `Err` value: VP8_ENC_ERROR_BAD_DIMENSION".to_vec()),
        _ => panic!("expected a panic"),
    }
    a.webp_quality = 101;
    let dims = plan(&mut a, &[(7, 16384, 1)]);
    let acts = convert_image(&a, &dims, (0, 0));
    match &acts[1] {
        Action::Abort(t) => {
            assert_eq!(t, &b"called `Result::unwrap()` on an `Err` value: VP8_ENC_ERROR_INVALID_CONFIGURATION".to_vec())
        },
        _ => panic!("expected a panic"),
    }
}

#[test]
fn invalid_webp_settings_fail_in_the_encoder() {
    let mut a = cli_args(gradient(4, 4, Layout::Rgba8));
    a.use_webp = true;
    a.webp_method = 9;
    let dims = plan(&mut a, &[(2, 2, 2)]);
    let acts = convert_image(&a, &dims, (0, 0));
    match &acts[1] {
        Action::Abort(t) => {
            assert_eq!(t, &b"called `Result::unwrap()` on an `Err` value: VP8_ENC_ERROR_INVALID_CONFIGURATION".to_vec())
        },
        _ => panic!("expected a panic"),
    }
}

#[test]
fn thumbnails_by_mode() {
    let mut a = cli_args(gradient(8, 4, Layout::Rgba8));
    assert!(thumbnail_of(&a, (0, 0)).is_none());
    a.use_thumbhash = 1;
    let t = thumbnail_of(&a, (0, 0)).unwrap();
    assert_eq!((t.width, t.height), (100, 100));
    a.use_thumbhash = 2;
    let u = thumbnail_of(&a, (100, 50)).unwrap();
    assert_eq!((u.width, u.height), (100, 100));
    assert_eq!(&u.rgba[0..4], &[255, 255, 255, 255]);
    assert_eq!(&u.rgba[40000 - 4..], &[255, 255, 255, 255]);
    a.use_thumbhash = 3;
    assert!(thumbnail_of(&a, (0, 0)).is_none());
}

#[test]
fn thumb_hash_whole_number_facts() {
    let grey: Vec<u8> = (0..10000).flat_map(|_| [200u8, 200, 200, 255]).collect();
    let opaque = Picture { width: 100, height: 100, rgba: grey.clone(), rgba16: Vec::new(), layout: Layout::Rgba8 };
    let h = hash_thumbnail(&opaque);
    assert_eq!(h.len(), 24);
    assert!(h[2] < 128);
    assert!(h[4] < 128);
    assert_eq!(h[3] % 8, 7);

    let mut rgba = grey;
    rgba[3] = 0;
    let clear = Picture { width: 100, height: 100, rgba, rgba16: Vec::new(), layout: Layout::Rgba8 };
    let h = hash_thumbnail(&clear);
    assert_eq!(h.len(), 25);
    assert!(h[2] >= 128);
    assert_eq!(h[3] % 8, 5);

    let wide = gradient(8, 4, Layout::Rgba8);
    let h = hash_thumbnail(&wide);
    assert_eq!(h.len(), 19);
    assert!(h[4] >= 128);
    assert_eq!(h[3] % 8, 4);
}

#[test]
fn decode_file_by_extension() {
    let mut png = Vec::new();
    let img = image::RgbImage::from_raw(1, 2, vec![1, 2, 3, 4, 5, 6]).unwrap();
    img.write_to(&mut std::io::Cursor::new(&mut png), image::ImageFormat::Png).unwrap();
    let p = decode_file_picture(b"/pics/a.PNG", &png).ok().unwrap();
    assert_eq!((p.width, p.height), (1, 2));
    assert_eq!(p.layout, Layout::Rgb8);
    assert_eq!(p.rgba, vec![1, 2, 3, 255, 4, 5, 6, 255]);
    assert!(decode_file_picture(b"/pics/a", &png).is_err());
    assert!(decode_file_picture(b"/pics/a.jpg", &png).is_err());
}

#[test]
fn decode_file_error_texts() {
    let unknown = decode_file_picture(b"/pics/a.xyz", b"whatever").err().unwrap();
    assert_eq!(
        String::from_utf8(unknown).unwrap(),
        "The file extension `.\"xyz\"` was not recognized as an image format"
    );
    for path in [&b"/pics/a"[..], &b"/pics/a."[..]] {
        let none = decode_file_picture(path, b"whatever").err().unwrap();
        assert_eq!(String::from_utf8(none).unwrap(), "The image format could not be determined");
    }
}

fn luma_terms(limit: usize, side: usize, longest: usize) -> usize {
    ((2 * limit * side + longest) / (2 * longest)).max(1)
}

fn dct_terms(nx: usize, ny: usize) -> usize {
    (0..ny).map(|cy| (nx * (ny - cy) + ny - 1) / ny).sum()
}

#[test]
fn thumb_hash_facts_across_sizes() {
    let sides = [1usize, 2, 3, 7, 14, 33, 50, 99, 100];
    for &w in &sides {
        for &h in &sides {
            for variant in 0..3 {
                let mut rgba: Vec<u8> = (0..w * h).flat_map(|k| [(k % 251) as u8, 40, 90, 255]).collect();
                if variant == 1 {
                    rgba[(w * h - 1) * 4 + 3] = 254;
                } else if variant == 2 {
                    for k in 0..w * h {
                        rgba[k * 4 + 3] = (k % 7) as u8 * 30;
                    }
                }
                let alpha = variant != 0;
                let p = Picture { width: w as u32, height: h as u32, rgba, rgba16: Vec::new(), layout: Layout::Rgba8 };
                let hash = hash_thumbnail(&p);
                let longest = w.max(h);
                let limit = if alpha { 5 } else { 7 };
                let lx = luma_terms(limit, w, longest);
                let ly = luma_terms(limit, h, longest);
                let terms = dct_terms(lx.max(3), ly.max(3)) - 1 + 10 + if alpha { 14 } else { 0 };
                let len = 5 + alpha as usize + (terms + 1) / 2;
                assert_eq!(hash.len(), len, "{}x{} {}", w, h, variant);
                assert_eq!(hash[2] >= 128, alpha, "{}x{} {}", w, h, variant);
                assert_eq!(hash[4] >= 128, w > h);
                assert_eq!((hash[3] % 8) as usize, if w > h { ly } else { lx }, "{}x{} {}", w, h, variant);
            }
        }
    }
}

#[test]
fn webp_file_for_one_resolution() {
    let mut a = ConverArgs::new(b"/out".to_vec());
    a.take_file_image(gradient(400, 100, Layout::Rgba8), b"img".to_vec());
    a.use_webp = true;
    let dims = plan(&mut a, &[(100, 200, 50)]);
    let acts = convert_image(&a, &dims, (0, 0));
    assert_eq!(acts.len(), 3);
    assert_eq!(printed(&acts[0]), Some(b"Conviertiendo imagen .webp en dimension: 200x50...".to_vec()));
    match &acts[1] {
        Action::Save { path, data, fatal } => {
            assert_eq!(path, &b"/out/img-100i-200x50.webp".to_vec());
            assert_eq!(&data[0..4], b"RIFF");
            assert!(*fatal);
        },
        _ => panic!("expected a write"),
    }
    assert_eq!(printed(&acts[2]), Some(b"Imagen WEBP guardada en: /out/img-100i-200x50.webp".to_vec()));
}

#[test]
fn empty_image_has_no_avif_stride() {
    let mut a = cli_args(Picture { width: 0, height: 0, rgba: Vec::new(), rgba16: Vec::new(), layout: Layout::Rgba8 });
    a.use_avif = true;
    let dims = plan(&mut a, &[(1, 0, 0)]);
    let acts = convert_image(&a, &dims, (0, 0));
    match &acts[1] {
        Action::Abort(t) => assert_eq!(t, &"Invalid ImgRef params. Got stride=0 for 0\u{d7}0; len=0 (needed 0)".as_bytes().to_vec()),
        _ => panic!("expected a panic"),
    }
}

#[test]
fn padded_thumbnail_border_is_white() {
    let dark = Picture { width: 4, height: 2, rgba: vec![0, 0, 0, 255].repeat(8), rgba16: Vec::new(), layout: Layout::Rgba8 };
    let mut a = cli_args(dark);
    a.use_thumbhash = 2;
    let t = thumbnail_of(&a, (100, 50)).unwrap();
    for (k, px) in t.rgba.chunks(4).enumerate() {
        let row = k / 100;
        if row < 25 || row >= 75 {
            assert_eq!(px, &[255, 255, 255, 255]);
        } else {
            assert_eq!(px, &[0, 0, 0, 255]);
        }
    }
}

/// The actions with the encoded bytes left out.
fn skeleton(acts: &[Action]) -> Vec<String> {
    acts.iter()
        .map(|x| match x {
            Action::Print(t) => format!("print {}", String::from_utf8_lossy(t)),
            Action::Emit(o) => format!(
                "emit {} {} {}",
                String::from_utf8_lossy(&o.name),
                o.resolution,
                String::from_utf8_lossy(&o.format)
            ),
            Action::Save { path, fatal, .. } => format!("save {} {}", String::from_utf8_lossy(path), fatal),
            Action::Stop(t) => format!("stop {}", String::from_utf8_lossy(t)),
            Action::Abort(t) => format!("abort {}", String::from_utf8_lossy(t)),
        })
        .collect()
}

#[test]
fn names_ignore_pixels() {
    for output_cli in [true, false] {
        let mut runs = Vec::new();
        for dark in [false, true] {
            let image = if dark {
                Picture { width: 8, height: 8, rgba: vec![10, 20, 30, 200].repeat(64), rgba16: Vec::new(), layout: Layout::Rgba8 }
            } else {
                gradient(8, 8, Layout::Rgba8)
            };
            let mut a = ConverArgs::new(b"/out".to_vec());
            a.take_file_image(image, b"pic.png".to_vec());
            a.output_cli = output_cli;
            a.use_webp = true;
            a.use_avif = true;
            a.avif_speed = 10;
            a.use_thumbhash = 1;
            let dims = plan(&mut a, &[(4, 4, 4), (2, 2, 2)]);
            runs.push(convert_image(&a, &dims, (0, 0)));
        }
        assert_eq!(skeleton(&runs[0]), skeleton(&runs[1]));
        assert_eq!(runs[0].len(), if output_cli { 8 } else { 12 });
    }
}

#[test]
fn sixteen_bit_images() {
    let samples: Vec<u16> = vec![0, 65535, 2570, 1000, 2000, 3000, 40000, 50000, 60000, 7, 8, 9];
    let img = image::DynamicImage::ImageRgb16(image::ImageBuffer::from_raw(2, 2, samples.clone()).unwrap());
    let mut png = Vec::new();
    img.write_to(&mut std::io::Cursor::new(&mut png), image::ImageFormat::Png).unwrap();
    let p = decode_picture(&png).ok().unwrap();
    assert_eq!((p.width, p.height), (2, 2));
    assert_eq!(p.layout, Layout::Deep16);
    assert_eq!(p.rgba16, img.to_rgba16().into_raw());
    assert_eq!(p.rgba, img.to_rgba8().into_raw());
    assert_eq!(&p.rgba16[0..8], &[0, 65535, 2570, 65535, 1000, 2000, 3000, 65535]);

    let mut a = ConverArgs::new(b"/out".to_vec());
    a.take_file_image(p, b"deep.png".to_vec());
    a.use_webp = true;
    let dims = plan(&mut a, &[(1, 1, 1)]);
    let acts = convert_image(&a, &dims, (0, 0));
    match &acts[1] {
        Action::Abort(t) => assert_eq!(t, &b"called `Result::unwrap()` on an `Err` value: \"Unimplemented\"".to_vec()),
        _ => panic!("expected a panic"),
    }
    a.use_webp = false;
    a.use_avif = true;
    a.avif_speed = 10;
    let acts = convert_image(&a, &dims, (0, 0));
    assert_eq!(acts.len(), 3);
    match &acts[1] {
        Action::Save { path, data, .. } => {
            assert_eq!(path, &b"/out/deep.png-1i-1x1.avif".to_vec());
            assert_eq!(&data[4..8], b"ftyp");
        },
        _ => panic!("expected a write"),
    }
}
