use wallpaper_engine::{is_image_extension, is_valid_image};

#[test]
fn image_extensions_in_any_case() {
    assert!(is_valid_image("photos/beach.png"));
    assert!(is_valid_image("a.JPG"));
    assert!(is_valid_image("/tmp/x.Jpeg"));
    assert!(is_valid_image("b.bmp"));
    assert!(is_valid_image("archive.tar.GIF"));
    assert!(is_valid_image("c.webp"));
}

#[test]
fn other_paths_are_not_images() {
    assert!(!is_valid_image("notes.txt"));
    assert!(!is_valid_image("noextension"));
    assert!(!is_valid_image(".png"));
    assert!(!is_valid_image("image.png.bak"));
    assert!(!is_valid_image(""));
}

#[test]
fn lowercase_extension_list() {
    for e in ["png", "jpg", "jpeg", "bmp", "gif", "webp"] {
        assert!(is_image_extension(e));
    }
    assert!(!is_image_extension("PNG"));
    assert!(!is_image_extension("tiff"));
    assert!(!is_image_extension(""));
}
