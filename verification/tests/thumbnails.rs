use gallery::errors::ThumbnailError;
use gallery::gallery::Gallery;
use gallery::pathutil::{file_name, join_path, replace_extension, thumbnail_format_ext};
use gallery::reactor::{EventKind, WatchedEvent};
use gallery::scan::{DirScan, ScanEntry};
use gallery::thumbs::{has_file_name, make_thumbnail_bytes, thumbnail_path};
use image::GenericImageView;

fn png_bytes(width: u32, height: u32) -> Vec<u8> {
    let img = image::DynamicImage::ImageRgba8(image::RgbaImage::new(width, height));
    let mut cursor = std::io::Cursor::new(Vec::new());
    img.write_to(&mut cursor, image::ImageOutputFormat::Png).expect("encoding a PNG in memory");
    cursor.into_inner()
}

#[test]
fn thumbnail_extension_is_jpg() {
    assert_eq!(thumbnail_format_ext(), "jpg");
}

#[test]
fn file_name_is_after_last_separator() {
    assert_eq!(file_name("/media/pics/photo.png"), "photo.png");
    assert_eq!(file_name("photo.png"), "photo.png");
    assert_eq!(file_name("/media/pics/"), "");
    assert!(has_file_name("/media/pics/photo.png"));
    assert!(has_file_name(".hidden"));
    assert!(!has_file_name("/media/pics/"));
    // The dot components are not file names: no preview is derived for them.
    assert!(!has_file_name("a/.."));
    assert!(!has_file_name("a/."));
    assert!(!has_file_name(".."));
    assert!(!has_file_name("."));
}

#[test]
fn extension_replacement_keeps_the_stem() {
    assert_eq!(replace_extension("photo.png", "jpg"), "photo.jpg");
    assert_eq!(replace_extension("photo", "jpg"), "photo.jpg");
    assert_eq!(replace_extension("archive.tar.gz", "jpg"), "archive.tar.jpg");
    // A name that is only a leading dot has no extension to replace.
    assert_eq!(replace_extension(".hidden", "jpg"), ".hidden.jpg");
}

#[test]
fn join_adds_one_separator() {
    assert_eq!(join_path("/cache", "photo.jpg"), "/cache/photo.jpg");
    assert_eq!(join_path("/cache/", "photo.jpg"), "/cache/photo.jpg");
}

#[test]
fn thumbnail_path_is_derived_from_the_file_name() {
    assert_eq!(thumbnail_path("/cache", "/media/pics/photo.png"), "/cache/photo.jpg");
    assert_eq!(thumbnail_path("/cache", "/media/pics/clip"), "/cache/clip.jpg");
}

// The preview pipeline is a function of the bytes alone: running it twice
// on the same input yields the same bytes.
#[test]
fn preview_bytes_are_deterministic() {
    let bytes = png_bytes(640, 480);
    let first = make_thumbnail_bytes(&bytes).expect("a valid PNG decodes");
    let second = make_thumbnail_bytes(&bytes).expect("a valid PNG decodes");
    assert_eq!(first, second);
    assert_ne!(first, bytes);
}

// The derivation is pure: equal inputs always give equal outputs.
#[test]
fn thumbnail_path_is_deterministic() {
    let first = thumbnail_path("/cache", "/media/pics/photo.png");
    let second = thumbnail_path("/cache", "/media/pics/photo.png");
    assert_eq!(first, second);
}

#[test]
fn gallery_thumbnail_path_matches_free_derivation() {
    let scans = vec![DirScan {
        dir: "/media/pics".to_owned(),
        entries: Some(vec![ScanEntry { name: "photo.png".to_owned(), is_dir: false }]),
    }];
    let gallery = Gallery::new("/cache", &scans).expect("scan should succeed");
    assert_eq!(gallery.get_thumbnail_path("/media/pics/photo.png"), "/cache/photo.jpg");
}

#[test]
fn thumbnail_fits_the_bounding_box() {
    let bytes = png_bytes(640, 480);
    let out = make_thumbnail_bytes(&bytes).expect("a valid PNG decodes");
    let scaled = image::load_from_memory(&out).expect("the preview decodes");
    let (w, h) = scaled.dimensions();
    // 640x480 scaled to fit within 320x180 preserving aspect ratio.
    assert_eq!((w, h), (240, 180));
}

#[test]
fn small_images_are_scaled_up_to_the_box() {
    let bytes = png_bytes(32, 18);
    let out = make_thumbnail_bytes(&bytes).expect("a valid PNG decodes");
    let scaled = image::load_from_memory(&out).expect("the preview decodes");
    let (w, h) = scaled.dimensions();
    assert_eq!((w, h), (320, 180));
}

#[test]
fn undecodable_bytes_give_a_decode_error() {
    let bytes = vec![0u8, 1, 2, 3, 4, 5, 6, 7];
    let err = make_thumbnail_bytes(&bytes).err().expect("garbage must not decode");
    assert!(matches!(err, ThumbnailError::Decode { .. }));
    assert!(err.message().starts_with("failed to decode the source image: "));
}

// Copying a new image into a watched directory makes the snapshot grow by
// one and a cache file appear; deleting the image shrinks the snapshot back
// while the cache file remains — the cache is not pruned on deletion.
#[test]
fn created_file_gains_a_preview_that_deletion_keeps() {
    let scans = vec![DirScan {
        dir: "/media/pics".to_owned(),
        entries: Some(vec![ScanEntry { name: "photo.png".to_owned(), is_dir: false }]),
    }];
    let mut gallery = Gallery::new("/cache", &scans).expect("scan should succeed");
    let before = gallery.snapshot().paths.len();

    let mut cache: Vec<(String, Vec<u8>)> = Vec::new();
    let created = gallery
        .apply_events(&vec![WatchedEvent {
            dir: "/media/pics".to_owned(),
            name: Some("new.png".to_owned()),
            is_dir: false,
            kind: EventKind::Create,
        }])
        .expect("a create notification is applied");
    for path in &created {
        let target = gallery.get_thumbnail_path(path);
        if !cache.iter().any(|(p, _)| *p == target) {
            let preview =
                make_thumbnail_bytes(&png_bytes(640, 480)).expect("a valid PNG decodes");
            cache.push((target, preview));
        }
    }
    assert_eq!(gallery.snapshot().paths.len(), before + 1);
    assert!(cache.iter().any(|(p, _)| p == "/cache/new.jpg"));

    gallery
        .apply_events(&vec![WatchedEvent {
            dir: "/media/pics".to_owned(),
            name: Some("new.png".to_owned()),
            is_dir: false,
            kind: EventKind::Delete,
        }])
        .expect("a delete notification is applied");
    assert_eq!(gallery.snapshot().paths.len(), before);
    // The preview file is still there: nothing prunes the cache.
    assert!(cache.iter().any(|(p, _)| p == "/cache/new.jpg"));
}

// The cache-ensure operation is idempotent: with presence checked first, a
// second run for the same source leaves exactly one preview file, unchanged,
// even when the source changed in between.
#[test]
fn ensure_is_idempotent_on_the_cache() {
    let mut cache: Vec<(String, Vec<u8>)> = Vec::new();
    let cache_dir = "/cache";
    let source = "/media/pics/photo.png";

    let ensure = |cache: &mut Vec<(String, Vec<u8>)>, source_bytes: &[u8]| {
        let target = thumbnail_path(cache_dir, source);
        if cache.iter().any(|(p, _)| *p == target) {
            return;
        }
        let out = make_thumbnail_bytes(source_bytes).expect("a valid PNG decodes");
        cache.push((target, out));
    };

    ensure(&mut cache, &png_bytes(640, 480));
    assert_eq!(cache.len(), 1);
    let first = cache[0].clone();

    // The source changed; the stale preview is kept by design.
    ensure(&mut cache, &png_bytes(100, 100));
    assert_eq!(cache.len(), 1);
    assert_eq!(cache[0], first);
}
