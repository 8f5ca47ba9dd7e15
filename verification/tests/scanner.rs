use image_viewer::scan::{
    eq_ignore_ascii_case, initial_index, is_image_extension, is_image_path,
    or_current_directory, scan_target, select_images, accepts_extension,
};
use image_viewer::viewer::ImageViewer;

fn list(names: &[&str]) -> Vec<String> {
    names.iter().map(|n| n.to_string()).collect()
}

#[test]
fn directory_scan_keeps_images_only() {
    let entries = list(&["dir/a.png", "dir/b.txt", "dir/c.JPG", "dir/d.jpeg"]);
    assert_eq!(select_images(entries), list(&["dir/a.png", "dir/c.JPG", "dir/d.jpeg"]));
}

#[test]
fn directory_scan_keeps_the_listing_order() {
    let entries = list(&["z.png", "m.jpg", "x.gif", "a.jpeg", "m.jpg", "b"]);
    assert_eq!(select_images(entries), list(&["z.png", "m.jpg", "a.jpeg", "m.jpg"]));
}

#[test]
fn directory_scan_of_nothing_is_empty() {
    assert_eq!(select_images(Vec::new()), Vec::<String>::new());
    assert_eq!(select_images(list(&["a.txt", "b", ".png"])), Vec::<String>::new());
}

#[test]
fn starting_file_gives_its_position() {
    let images = list(&["dir/a.jpg", "dir/b.jpg", "dir/c.jpg"]);
    assert_eq!(initial_index(&images, Some("dir/b.jpg")), 1);
    assert_eq!(initial_index(&images, Some("dir/a.jpg")), 0);
    assert_eq!(initial_index(&images, Some("dir/c.jpg")), 2);
}

#[test]
fn starting_file_is_found_as_a_path() {
    let images = list(&["dir/a.jpg", "dir/b.jpg", "dir/c.jpg"]);
    assert_eq!(initial_index(&images, Some("dir//b.jpg")), 1);
    assert_eq!(initial_index(&images, Some("dir/./c.jpg")), 2);
    assert_eq!(initial_index(&images, Some("dir/b.jpg/")), 1);
}

#[test]
fn starting_file_gives_its_first_position() {
    let images = list(&["dir/a.jpg", "dir/b.jpg", "dir/b.jpg"]);
    assert_eq!(initial_index(&images, Some("dir/b.jpg")), 1);
}

#[test]
fn missing_starting_file_falls_back_to_zero() {
    let images = list(&["dir/a.jpg", "dir/b.jpg", "dir/c.jpg"]);
    assert_eq!(initial_index(&images, Some("dir/notes.txt")), 0);
    assert_eq!(initial_index(&images, Some("other/b.jpg")), 0);
    assert_eq!(initial_index(&images, Some("dir/B.jpg")), 0);
    assert_eq!(initial_index(&images, None), 0);
    assert_eq!(initial_index(&Vec::new(), Some("dir/b.jpg")), 0);
}

#[test]
fn viewer_from_scan_starts_at_the_file() {
    let entries = list(&["dir/a.jpg", "dir/readme.md", "dir/b.jpg", "dir/c.jpg"]);
    let viewer = ImageViewer::from_scan(entries, Some("dir/b.jpg"));
    assert_eq!(viewer.len(), 3);
    assert_eq!(viewer.current_index(), 1);
    assert_eq!(viewer.current_path(), Some("dir/b.jpg"));
    assert_eq!(viewer.filename(), "b.jpg");
}

#[test]
fn viewer_from_scan_of_a_directory_starts_at_the_first() {
    let entries = list(&["dir/x.txt", "dir/a.png", "dir/b.png"]);
    let viewer = ImageViewer::from_scan(entries, None);
    assert_eq!(viewer.len(), 2);
    assert_eq!(viewer.current_index(), 0);
    assert_eq!(viewer.current_path(), Some("dir/a.png"));
}

#[test]
fn viewer_from_scan_of_a_file_without_image_extension() {
    let entries = list(&["dir/a.png", "dir/notes.txt", "dir/b.png"]);
    let viewer = ImageViewer::from_scan(entries, Some("dir/notes.txt"));
    assert_eq!(viewer.len(), 2);
    assert_eq!(viewer.current_index(), 0);
}

#[test]
fn viewer_from_scan_without_images_is_empty() {
    let mut viewer = ImageViewer::from_scan(list(&["dir/a.txt"]), Some("dir/a.txt"));
    assert_eq!(viewer.len(), 0);
    assert_eq!(viewer.current_index(), 0);
    assert_eq!(viewer.navigate("next"), None);
}

#[test]
fn image_extensions_in_any_case() {
    for ext in ["png", "PNG", "Png", "pNg", "jpg", "JPG", "jPg", "jpeg", "JPEG", "JpEg"] {
        assert!(is_image_extension(ext), "{ext}");
    }
}

#[test]
fn other_extensions_are_no_images() {
    for ext in ["", "gif", "pn", "pngx", "xpng", "jpe", "jpegs", "txt", "p\u{147}g", "bmp", "webp"] {
        assert!(!is_image_extension(ext), "{ext}");
    }
}

#[test]
fn accepts_extension_wants_one() {
    assert!(accepts_extension(Some("png".to_string())));
    assert!(accepts_extension(Some("JPeG".to_string())));
    assert!(!accepts_extension(Some("gif".to_string())));
    assert!(!accepts_extension(Some(String::new())));
    assert!(!accepts_extension(None));
}

#[test]
fn ascii_case_is_ignored_and_nothing_else() {
    assert!(eq_ignore_ascii_case("", ""));
    assert!(eq_ignore_ascii_case("AbC", "aBc"));
    assert!(eq_ignore_ascii_case("a1-Z", "A1-z"));
    assert!(!eq_ignore_ascii_case("abc", "abd"));
    assert!(!eq_ignore_ascii_case("abc", "ab"));
    assert!(!eq_ignore_ascii_case("ab", "abc"));
    assert!(!eq_ignore_ascii_case("@", "`"));
    assert!(!eq_ignore_ascii_case("[", "{"));
    assert!(!eq_ignore_ascii_case("\u{e9}", "\u{c9}"));
    assert!(eq_ignore_ascii_case("\u{e9}X", "\u{e9}x"));
    assert!(!eq_ignore_ascii_case("k", "\u{212a}"));
}

#[test]
fn image_paths_are_judged_by_the_final_extension() {
    assert!(is_image_path("a.png"));
    assert!(is_image_path("dir/sub/a.b.JPG"));
    assert!(is_image_path("/abs/.hidden.jpeg"));
    assert!(is_image_path("archive.tar.png"));
    assert!(!is_image_path("a.png.txt"));
    assert!(!is_image_path("png"));
    assert!(!is_image_path(".png"));
    assert!(!is_image_path("dir.png/file"));
    assert!(!is_image_path("a.png."));
    assert!(!is_image_path(""));
    assert!(!is_image_path("dir/.."));
}

#[test]
fn missing_argument_means_current_directory() {
    assert_eq!(or_current_directory(None), ".");
    assert_eq!(or_current_directory(Some("pictures".to_string())), "pictures");
    assert_eq!(or_current_directory(Some(String::new())), "");
}

#[test]
fn directory_argument_is_scanned_itself() {
    let target = scan_target("pictures/holiday".to_string(), true);
    assert_eq!(target.directory, "pictures/holiday");
    assert_eq!(target.start, None);
}

#[test]
fn file_argument_scans_its_parent() {
    let target = scan_target("dir/b.jpg".to_string(), false);
    assert_eq!(target.directory, "dir");
    assert_eq!(target.start, Some("dir/b.jpg".to_string()));
    let target = scan_target("/abs/dir/b.jpg".to_string(), false);
    assert_eq!(target.directory, "/abs/dir");
    assert_eq!(target.start, Some("/abs/dir/b.jpg".to_string()));
}

#[test]
fn file_argument_of_one_component_has_an_empty_parent() {
    let target = scan_target("b.jpg".to_string(), false);
    assert_eq!(target.directory, "");
    assert_eq!(target.start, Some("b.jpg".to_string()));
}

#[test]
fn file_argument_without_parent_scans_current_directory() {
    let target = scan_target(String::new(), false);
    assert_eq!(target.directory, ".");
    assert_eq!(target.start, Some(String::new()));
    let target = scan_target("/".to_string(), false);
    assert_eq!(target.directory, ".");
}
