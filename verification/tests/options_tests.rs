use imgconvert::number::IntError;
use imgconvert::options::{ConverArgs, OptionError};
use imgconvert::picture::{Layout, Picture};

fn argv(list: &[&str]) -> Vec<Vec<u8>> {
    list.iter().map(|s| s.as_bytes().to_vec()).collect()
}

#[test]
fn defaults() {
    let a = ConverArgs::new(b"/work".to_vec());
    assert_eq!(a.output_directory, b"/work".to_vec());
    assert_eq!((a.webp_quality, a.webp_method, a.avif_quality, a.avif_speed), (82, 6, 82, 3));
    assert!(!a.use_webp && !a.use_avif && !a.output_cli);
    assert_eq!(a.use_thumbhash, 0);
    assert!(a.resolutions.is_empty());
}

#[test]
fn formats_and_numbers() {
    let mut a = ConverArgs::new(b"/work".to_vec());
    let r = a.apply_options(&argv(&["conv", "x.png", "-webp", "-avif-quality=50", "-avif-speed=7", "-webp-method=4", "-webp-quality=90"]));
    assert_eq!(r, Ok(()));
    assert!(a.use_webp && a.use_avif);
    assert_eq!((a.webp_quality, a.webp_method, a.avif_quality, a.avif_speed), (90, 4, 50, 7));
}

#[test]
fn webp_method_chooses_avif() {
    let mut a = ConverArgs::new(Vec::new());
    assert_eq!(a.apply_options(&argv(&["-webp-method=3"])), Ok(()));
    assert!(a.use_avif);
    assert!(!a.use_webp);
}

#[test]
fn output_and_resolutions() {
    let mut a = ConverArgs::new(b"/work".to_vec());
    let r = a.apply_options(&argv(&["conv", "-output=/tmp/out=ignored", "-resolutions=100,200", "-resolutions=4000"]));
    assert_eq!(r, Ok(()));
    assert_eq!(a.output_directory, b"/tmp/out".to_vec());
    assert_eq!(a.resolutions, vec![100, 200, 4000]);
}

#[test]
fn inline_image_is_no_option() {
    let mut a = ConverArgs::new(Vec::new());
    assert_eq!(a.apply_options(&argv(&["-image=aGVsbG8=", "-avif"])), Ok(()));
    assert!(a.use_avif);
    assert!(a.resolutions.is_empty());
}

#[test]
fn resolution_errors() {
    let mut a = ConverArgs::new(Vec::new());
    let r = a.apply_options(&argv(&["-resolutions=100,abc", "-webp"]));
    assert_eq!(r, Err(OptionError::BadResolution(IntError::InvalidDigit)));
    assert!(a.resolutions.is_empty());
    assert!(!a.use_webp);
    assert_eq!(r.unwrap_err().message(), b"Error: Invalid resolution format: invalid digit found in string".to_vec());

    let r = a.apply_options(&argv(&["-resolutions=4001"]));
    assert_eq!(r, Err(OptionError::TooBig(4001)));
    assert_eq!(r.unwrap_err().message(), b"Error: Invalid resolution: 4001 | Too Big (>16 mpx)".to_vec());

    let r = a.apply_options(&argv(&["-resolutions=100,"]));
    assert_eq!(r, Err(OptionError::BadResolution(IntError::Empty)));
}

#[test]
fn bad_numbers() {
    let mut a = ConverArgs::new(Vec::new());
    let r = a.apply_options(&argv(&["-avif-speed=300"]));
    assert_eq!(r, Err(OptionError::BadNumber(IntError::PosOverflow)));
    assert_eq!(
        r.unwrap_err().message(),
        b"called `Result::unwrap()` on an `Err` value: ParseIntError { kind: PosOverflow }".to_vec()
    );
    let expected = format!("called `Result::unwrap()` on an `Err` value: {:?}", "x".parse::<u32>().unwrap_err());
    let r = a.apply_options(&argv(&["-webp-quality=x"]));
    assert_eq!(r.unwrap_err().message(), expected.into_bytes());
}

#[test]
fn summary_line() {
    let mut a = ConverArgs::new(Vec::new());
    a.apply_options(&argv(&["-webp"])).unwrap();
    assert_eq!(a.summary(), b"Convertig: WEBP=true | AVIF=false | OUTPUT_CLI=false".to_vec());
}

#[test]
fn images_taken() {
    let mut a = ConverArgs::new(Vec::new());
    let p = Picture { width: 1, height: 1, rgba: vec![1, 2, 3, 4], rgba16: Vec::new(), layout: Layout::Rgba8 };
    a.take_memory_image(p);
    assert_eq!(a.name, b"image".to_vec());
    assert!(a.output_cli);
    let q = Picture { width: 1, height: 1, rgba: vec![1, 2, 3, 4], rgba16: Vec::new(), layout: Layout::Rgb8 };
    a.take_file_image(q, b"cat.png".to_vec());
    assert_eq!(a.name, b"cat.png".to_vec());
    assert_eq!(a.image.layout, Layout::Rgb8);
}
