use imgconvert::cli::{choose_origin, first_argument, last_part, origin_is_safe, requested_input, scan_is_safe, Input, Origin};

fn argv(list: &[&str]) -> Vec<Vec<u8>> {
    list.iter().map(|s| s.as_bytes().to_vec()).collect()
}

#[test]
fn image_argument_is_last_plain_argument_before_options() {
    let a = argv(&["/usr/bin/conv", "photo.jpg", "-webp", "other.jpg"]);
    assert!(scan_is_safe(&a));
    assert_eq!(first_argument(&a), b"photo.jpg".to_vec());
}

#[test]
fn image_argument_without_others_is_the_program() {
    let a = argv(&["/usr/bin/conv"]);
    assert_eq!(first_argument(&a), b"/usr/bin/conv".to_vec());
}

#[test]
fn image_argument_is_trimmed() {
    let a = argv(&["conv", "  photo.jpg  ", "-avif"]);
    assert_eq!(first_argument(&a), b"photo.jpg".to_vec());
}

#[test]
fn inline_image_argument_is_taken_at_once() {
    let a = argv(&["conv", "-image=aGVsbG8=", "later.jpg"]);
    assert_eq!(first_argument(&a), b"-image=aGVsbG8=".to_vec());
    let b = argv(&["conv", " -image-stdin ", "-webp"]);
    assert_eq!(first_argument(&b), b"-image-stdin".to_vec());
}

#[test]
fn short_image_marker_is_an_option() {
    let a = argv(&["conv", "-image=", "x.jpg"]);
    assert_eq!(first_argument(&a), b"conv".to_vec());
}

#[test]
fn unsafe_scans_are_reported() {
    assert!(!scan_is_safe(&argv(&["conv", ""])));
    assert!(!scan_is_safe(&argv(&["conv", "   "])));
    assert!(!scan_is_safe(&argv(&["conv", "\u{00e9}t\u{00e9}"])));
    assert!(!scan_is_safe(&argv(&["conv", "-image\u{20ac}"])));
    assert!(scan_is_safe(&argv(&["conv", "-x", ""])));
    assert!(!scan_is_safe(&argv(&["conv", "abcdef\u{00e9}"])));
    assert!(scan_is_safe(&argv(&["conv", "abcdefg\u{00e9}"])));
}

#[test]
fn requested_inputs() {
    match requested_input(b"-image=aGVsbG8=") {
        Input::Base64(t) => assert_eq!(t, b"aGVsbG8=".to_vec()),
        _ => panic!("expected base64"),
    }
    assert!(matches!(requested_input(b"-image-stdin"), Input::Stdin));
    assert!(matches!(requested_input(b"photo.png"), Input::Named));
    assert!(matches!(requested_input(b"-image="), Input::Named));
}

#[test]
fn origins() {
    assert!(matches!(choose_origin(b"-image-stdin", b"/work", true), Origin::Memory));
    assert!(matches!(choose_origin(b"-image-stdin", b"/work", false), Origin::Missing));
    match choose_origin(b"/data/pics/cat.png", b"/work", false) {
        Origin::File { path, name } => {
            assert_eq!(path, b"/data/pics/cat.png".to_vec());
            assert_eq!(name, b"cat.png".to_vec());
        },
        _ => panic!("expected a file"),
    }
    match choose_origin(b"./pics/dog.jpg", b"/work", false) {
        Origin::File { path, name } => {
            assert_eq!(path, b"/work/pics/dog.jpg".to_vec());
            assert_eq!(name, b"dog.jpg".to_vec());
        },
        _ => panic!("expected a file"),
    }
    match choose_origin(b"bird.webp", b"/work", false) {
        Origin::File { path, name } => {
            assert_eq!(path, b"/work/bird.webp".to_vec());
            assert_eq!(name, b"bird.webp".to_vec());
        },
        _ => panic!("expected a file"),
    }
}

#[test]
fn origin_safety() {
    assert!(origin_is_safe(b"", true));
    assert!(!origin_is_safe(b"", false));
    assert!(!origin_is_safe(b"a", false));
    assert!(origin_is_safe(b"/", false));
    assert!(origin_is_safe(b"-", false));
    assert!(origin_is_safe(b"ab", false));
    assert!(!origin_is_safe("\u{00e9}".as_bytes(), false));
}

#[test]
fn last_parts() {
    assert_eq!(last_part(b"/a/b/c.png"), b"c.png".to_vec());
    assert_eq!(last_part(b"c.png"), b"c.png".to_vec());
    assert_eq!(last_part(b"/a/b/"), Vec::<u8>::new());
}
