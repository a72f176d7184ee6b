use gallery::config::{default_logging_level, default_port, GalleryConfig, SerializableLoggingLevel};
use gallery::gallery::Gallery;
use gallery::lifecycle::{reactor_step_decision, Lifecycle, ReactorStep};
use gallery::reactor::{EventKind, WatchedEvent};
use gallery::scan::{DirScan, ScanEntry};

fn entry(name: &str, is_dir: bool) -> ScanEntry {
    ScanEntry { name: name.to_owned(), is_dir }
}

fn readable(dir: &str, entries: Vec<ScanEntry>) -> DirScan {
    DirScan { dir: dir.to_owned(), entries: Some(entries) }
}

fn unreadable(dir: &str) -> DirScan {
    DirScan { dir: dir.to_owned(), entries: None }
}

fn event(dir: &str, name: Option<&str>, is_dir: bool, kind: EventKind) -> WatchedEvent {
    WatchedEvent { dir: dir.to_owned(), name: name.map(|n| n.to_owned()), is_dir, kind }
}

fn testdata_gallery() -> Gallery {
    let scans = vec![readable(
        "./testdata/pics",
        vec![entry("1.png", false), entry("2.png", false), entry("nested", true)],
    )];
    Gallery::new("/tmp/gallery-cache", &scans).expect("could not create the Gallery")
}

#[test]
fn initial_scan_tracks_immediate_files() {
    let gallery = testdata_gallery();
    let snap = gallery.snapshot();
    assert_eq!(
        snap.paths,
        vec!["./testdata/pics/1.png".to_owned(), "./testdata/pics/2.png".to_owned()]
    );
}

// Two directories, each with one file and one subdirectory holding a third
// image: the initial snapshot has length 2, the nested image is excluded.
#[test]
fn nested_directories_are_excluded() {
    let scans = vec![
        readable("/media/a", vec![entry("one.png", false), entry("sub", true)]),
        readable("/media/b", vec![entry("two.png", false), entry("sub", true)]),
    ];
    let gallery = Gallery::new("/cache", &scans).expect("scan should succeed");
    let snap = gallery.snapshot();
    assert_eq!(snap.paths.len(), 2);
    assert_eq!(snap.paths, vec!["/media/a/one.png".to_owned(), "/media/b/two.png".to_owned()]);
    assert!(!gallery.has("/media/a/sub"));
    assert!(!gallery.has("/media/a/sub/third.png"));
}

#[test]
fn scan_fails_fast_on_unreadable_directory() {
    let scans = vec![readable("/media/a", vec![entry("one.png", false)]), unreadable(
        "./foo/i_dont_exist",
    )];
    let err = Gallery::new("/cache", &scans).err().expect("the scan must fail");
    assert_eq!(err.dir().as_str(), "./foo/i_dont_exist");
}

// A configuration naming a directory that cannot be opened aborts startup,
// and the error names that directory.
#[test]
fn nonexistent_directory() {
    let scans = vec![unreadable("./foo/i_dont_exist")];
    let err = Gallery::new("/cache", &scans).err().expect("the scan must fail");
    assert_eq!(err.message(), "failed to open directory './foo/i_dont_exist'");
}

#[test]
fn first_unreadable_directory_is_reported() {
    let scans = vec![unreadable("/media/a"), unreadable("/media/b")];
    let err = Gallery::new("/cache", &scans).err().expect("the scan must fail");
    assert_eq!(err.dir().as_str(), "/media/a");
}

#[test]
fn duplicate_scan_entries_collapse() {
    let dir = readable("/media/a", vec![entry("one.png", false)]);
    let again = readable("/media/a", vec![entry("one.png", false)]);
    let gallery = Gallery::new("/cache", &vec![dir, again]).expect("scan should succeed");
    assert_eq!(gallery.snapshot().paths.len(), 1);
}

// Membership after a batch equals the mathematical set reached by applying
// the creates and deletes to the scanned set: duplicate creates collapse,
// deletes of absent paths are no-ops.
#[test]
fn batch_has_set_semantics() {
    let scans = vec![readable("/media", vec![entry("a.png", false)])];
    let mut gallery = Gallery::new("/cache", &scans).expect("scan should succeed");
    let events = vec![
        event("/media", Some("a.png"), false, EventKind::Create),
        event("/media", Some("missing.png"), false, EventKind::Delete),
        event("/media", Some("b.png"), false, EventKind::Create),
        event("/media", Some("b.png"), false, EventKind::Create),
        event("/media", Some("a.png"), false, EventKind::Delete),
    ];
    let created = gallery.apply_events(&events).expect("only creates and deletes");
    assert_eq!(created, vec![
        "/media/a.png".to_owned(),
        "/media/b.png".to_owned(),
        "/media/b.png".to_owned(),
    ]);
    let snap = gallery.snapshot();
    assert_eq!(snap.paths, vec!["/media/b.png".to_owned()]);
}

// A created file shows up in the next snapshot, a deleted one disappears
// from it, and the preview path never changes.
#[test]
fn added_and_removed_images_are_detected() {
    let gallery = testdata_gallery();
    let new_file_path = "./testdata/pics/3.png";
    let thumbnail_path = gallery.get_thumbnail_path(new_file_path);
    let mut gallery = gallery;
    assert_eq!(gallery.snapshot().paths.len(), 2);

    let created = gallery
        .apply_events(&vec![event("./testdata/pics", Some("3.png"), false, EventKind::Create)])
        .expect("a create notification is applied");
    assert_eq!(gallery.snapshot().paths.len(), 3);
    assert!(gallery.has(new_file_path));
    assert_eq!(created, vec![new_file_path.to_owned()]);

    gallery
        .apply_events(&vec![event("./testdata/pics", Some("3.png"), false, EventKind::Delete)])
        .expect("a delete notification is applied");
    assert_eq!(gallery.snapshot().paths.len(), 2);
    assert!(!gallery.has(new_file_path));
    // The preview is not pruned on deletion: its path is still derived the
    // same way, so a cache file written earlier stays where it was.
    assert_eq!(gallery.get_thumbnail_path(new_file_path), thumbnail_path);
}

#[test]
fn events_without_a_name_are_ignored() {
    let mut gallery = testdata_gallery();
    gallery
        .apply_events(&vec![event("./testdata/pics", None, false, EventKind::Other)])
        .expect("a nameless notification is skipped, whatever its kind");
    assert_eq!(gallery.snapshot().paths.len(), 2);
}

#[test]
fn directory_events_are_ignored() {
    let mut gallery = testdata_gallery();
    gallery
        .apply_events(&vec![event("./testdata/pics", Some("newdir"), true, EventKind::Create)])
        .expect("a directory notification is skipped");
    assert_eq!(gallery.snapshot().paths.len(), 2);
}

#[test]
fn unexpected_event_kind_is_fatal() {
    let mut gallery = testdata_gallery();
    let events = vec![
        event("./testdata/pics", Some("3.png"), false, EventKind::Create),
        event("./testdata/pics", Some("1.png"), false, EventKind::Other),
        event("./testdata/pics", Some("2.png"), false, EventKind::Delete),
    ];
    let err = gallery.apply_events(&events).err().expect("the batch must fail");
    assert_eq!(err.message(), "unexpected notification kind for './testdata/pics/1.png'");
    // The notifications before the fatal one were applied; the rest of the
    // batch was dropped.
    let snap = gallery.snapshot();
    assert_eq!(snap.paths.len(), 3);
    assert!(gallery.has("./testdata/pics/2.png"));
}

// A path the gallery does not track is rejected by the membership gate, for
// the raw image and for the thumbnail alike, even if it exists on disk.
#[test]
fn file_not_in_gallery_is_rejected() {
    let gallery = testdata_gallery();
    let img_path = "/home/oblivious_bob/.ssh/id_rsa";
    // The serving boundary asks `has` before opening either byte stream.
    assert!(!gallery.has(img_path));
    assert!(gallery.has("./testdata/pics/2.png"));
}

// `has(p)` answers true exactly for the paths the most recent snapshot
// holds.
#[test]
fn has_agrees_with_snapshot() {
    let mut gallery = testdata_gallery();
    gallery
        .apply_events(&vec![event("./testdata/pics", Some("4.png"), false, EventKind::Create)])
        .expect("a create notification is applied");
    gallery.no_duplicates_holds();
    let snap = gallery.snapshot();
    for p in &snap.paths {
        assert!(gallery.has(p));
    }
    assert!(!snap.paths.iter().any(|p| p == "./testdata/pics/9.png"));
    assert!(!gallery.has("./testdata/pics/9.png"));
}

#[test]
fn lifecycle_runs_stop_join_once() {
    let mut lc = Lifecycle::new();
    assert!(!lc.stopped());
    assert!(!lc.joined());
    lc.request_stop();
    assert!(lc.stopped());
    assert!(!lc.joined());
    lc.mark_joined();
    lc.joined_implies_stopped();
    assert!(lc.stopped());
    assert!(lc.joined());
}

// The reactor exits at the first iteration boundary where the stop flag is
// observed: shutdown latency is bounded by one polling interval.
#[test]
fn reactor_exits_exactly_on_stop() {
    assert_eq!(reactor_step_decision(true), ReactorStep::Exit);
    assert_eq!(reactor_step_decision(false), ReactorStep::ProcessBatch);
    assert_eq!(Gallery::periodicity_millis(), 1000);
    assert_eq!(Gallery::periodicity(), std::time::Duration::from_millis(1000));
}

#[test]
fn config_defaults() {
    assert_eq!(default_port(), 8000);
    assert_eq!(default_logging_level(), SerializableLoggingLevel::Normal);
}

#[test]
fn logging_levels_map_to_rocket() {
    let mut cfg = GalleryConfig {
        dirs: vec!["/media".to_owned()],
        port: default_port(),
        logging_level: SerializableLoggingLevel::Debug,
    };
    assert_eq!(cfg.get_rocket_logging_level(), rocket::config::LogLevel::Debug);
    cfg.logging_level = SerializableLoggingLevel::Normal;
    assert_eq!(cfg.get_rocket_logging_level(), rocket::config::LogLevel::Normal);
    cfg.logging_level = SerializableLoggingLevel::Critical;
    assert_eq!(cfg.get_rocket_logging_level(), rocket::config::LogLevel::Critical);
    cfg.logging_level = SerializableLoggingLevel::Off;
    assert_eq!(cfg.get_rocket_logging_level(), rocket::config::LogLevel::Off);
}
