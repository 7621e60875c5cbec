use imgconvert::path_name::has_extension;

fn std_has_extension(p: &str) -> bool {
    std::path::Path::new(p).extension().map_or(false, |x| !x.is_empty())
}

#[test]
fn extensions_as_std_finds_them() {
    let paths = [
        "", "/", ".", "..", "/a/b.png", "/a/b.", "/a/.bashrc", "/a/b.png/", "/a/b.png/.", "/a/b.png/./",
        "/a/..", "a..b", "...", "a.b.c", "/x.png/y", "./a.jpg", "a/./", ".a.b", "/dir.d/file", "x.",
        "//a.png//", "/a/../b.gif",
    ];
    for p in paths {
        assert_eq!(has_extension(p.as_bytes()), std_has_extension(p), "{:?}", p);
    }
    assert!(has_extension(b"/pics/a.PNG"));
    assert!(!has_extension(b"/pics/a."));
    assert!(!has_extension(b"/pics/.hidden"));
}
