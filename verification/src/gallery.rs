//! The gallery core: the live index of tracked files together with the
//! cache directory its previews are derived under.
//!
//! Construction folds the scanner's findings into the initial index;
//! thereafter the reactor's batches are the only mutations. Readers take
//! snapshots or ask for membership; membership is the authorization gate
//! before any file is served.

use vstd::prelude::*;

use crate::errors::{ReactorError, ScanError};
use crate::index::{insert_path, LiveIndex};
use crate::reactor::{apply_batch, batch_run, WatchedEvent};
use crate::scan::{first_unreadable, scan_paths, scanned_files, DirScan};
use crate::thumbs::{spec_has_file_name, thumbnail_path, thumbnail_path_spec};

verus! {

/// How long the reactor waits between two polls of the notification stream
/// and the stop flag, in milliseconds: the bound on shutdown latency.
pub const PERIODICITY_MILLIS: u64 = 1000;

/// A sequence of paths folded into an index from the left, keeping the
/// first occurrence of each path: what seeding an empty index with the
/// scanner's findings yields.
pub open spec fn dedup_paths(s: Seq<Seq<char>>) -> Seq<Seq<char>>
    decreases s.len(),
{
    if s.len() == 0 {
        Seq::empty()
    } else {
        insert_path(dedup_paths(s.drop_last()), s.last())
    }
}

/// Relies on std's Duration::from_millis.
#[verifier::external_body]
fn duration_from_millis(ms: u64) -> std::time::Duration {
    std::time::Duration::from_millis(ms)
}

/// The gallery core. Its view is the sequence of tracked paths, in
/// insertion order and without duplicates.
#[derive(Debug)]
pub struct Gallery {
    index: LiveIndex,
    cache_dir: String,
}

/// A point-in-time copy of a gallery's contents; it never changes after it
/// is taken.
#[derive(Debug)]
pub struct GallerySnapshot {
    pub paths: Vec<String>,
}

impl View for Gallery {
    type V = Seq<Seq<char>>;

    closed spec fn view(&self) -> Seq<Seq<char>> {
        self.index@
    }
}

impl Gallery {
    /// The cache directory this gallery derives thumbnail paths under.
    pub closed spec fn cache_dir_view(&self) -> Seq<char> {
        self.cache_dir@
    }

    /// Builds the gallery core from the configured directories' listings:
    /// every file found directly inside a readable directory is tracked
    /// once. If any configured directory could not be opened the whole
    /// construction fails with that directory's name — fail-fast, no
    /// partial index.
    pub fn new(cache_dir: &str, scans: &Vec<DirScan>) -> (r: Result<Gallery, ScanError>)
        ensures
            match r {
                Ok(g) => first_unreadable(scans.deep_view()) is None && g@ == dedup_paths(
                    scanned_files(scans.deep_view()),
                ) && g.cache_dir_view() == cache_dir@,
                Err(e) => first_unreadable(scans.deep_view()) is Some && (e matches
                    ScanError::DirectoryUnreadable { dir } && dir@ == first_unreadable(
                    scans.deep_view(),
                ).unwrap()),
            },
    {
        let found = match scan_paths(scans) {
            Ok(v) => v,
            Err(e) => {
                return Err(e);
            },
        };
        let ghost fv = found.deep_view();
        let mut index = LiveIndex::new();
        let n = found.len();
        let mut i: usize = 0;
        while i < n
            invariant
                n == found@.len(),
                fv == found.deep_view(),
                i <= n,
                index@ == dedup_paths(fv.take(i as int)),
            decreases n - i,
        {
            proof {
                assert(fv.take(i + 1).drop_last() =~= fv.take(i as int));
                assert(fv.take(i + 1).last() == fv[i as int]);
                assert(fv[i as int] == found@[i as int]@);
            }
            index.insert(found[i].clone());
            i = i + 1;
        }
        proof {
            assert(fv.take(n as int) =~= fv);
        }
        Ok(Gallery { index, cache_dir: cache_dir.to_owned() })
    }

    /// An independent copy of the current contents, reflecting one
    /// consistent instant.
    pub fn snapshot(&self) -> (r: GallerySnapshot)
        ensures
            r.paths.deep_view() == self@,
    {
        GallerySnapshot { paths: self.index.snapshot_paths() }
    }

    /// Whether `path` is tracked. This is the authorization gate before any
    /// raw file or preview is served: a path the gallery does not track is
    /// never served, whether or not it exists on disk.
    pub fn has(&self, path: &str) -> (r: bool)
        ensures
            r == self@.contains(path@),
    {
        self.index.contains(&path.to_owned())
    }

    /// Where the preview for `path` lives. A pure derivation: no I/O, no
    /// lock, and equal inputs give equal results. Callers pass only paths
    /// whose last component is a real file name (non-empty, not `.` or
    /// `..`), which every tracked path has.
    pub fn get_thumbnail_path(&self, path: &str) -> (r: String)
        requires
            spec_has_file_name(path@),
        ensures
            r@ == thumbnail_path_spec(self.cache_dir_view(), path@),
    {
        thumbnail_path(self.cache_dir.as_str(), path)
    }

    /// Applies one batch of filesystem notifications to the index, in
    /// delivery order. On success the returned paths are the ones whose
    /// creation was observed, each owed a preview; a notification of an
    /// unexpected kind is fatal, leaves the batch's earlier notifications
    /// applied, and names the offending path.
    pub fn apply_events(&mut self, events: &Vec<WatchedEvent>) -> (r: Result<
        Vec<String>,
        ReactorError,
    >)
        ensures
            final(self)@ == batch_run(old(self)@, events.deep_view()).index,
            final(self).cache_dir_view() == old(self).cache_dir_view(),
            match r {
                Ok(created) => batch_run(old(self)@, events.deep_view()).fatal is None
                    && created.deep_view() == batch_run(old(self)@, events.deep_view()).created,
                Err(e) => batch_run(old(self)@, events.deep_view()).fatal is Some && (e matches
                    ReactorError::UnexpectedEventKind { path } && path@ == batch_run(
                    old(self)@,
                    events.deep_view(),
                ).fatal.unwrap()),
            },
    {
        apply_batch(&mut self.index, events)
    }

    /// The index never holds the same path twice; callers may rely on it
    /// without any precondition.
    pub fn no_duplicates_holds(&self)
        ensures
            self@.no_duplicates(),
    {
        self.index.no_duplicates_holds()
    }

    /// The interval the reactor waits before it checks for filesystem
    /// changes (and the stop flag) again.
    pub fn periodicity() -> std::time::Duration {
        duration_from_millis(PERIODICITY_MILLIS)
    }

    /// The polling interval in milliseconds: shutdown latency is bounded by
    /// one such interval plus any in-flight batch.
    pub fn periodicity_millis() -> (r: u64)
        ensures
            r == PERIODICITY_MILLIS,
    {
        PERIODICITY_MILLIS
    }
}

/// Law: membership agrees with snapshots. `has` answers over the same view
/// a snapshot copies, so a path is reported tracked exactly when the
/// snapshot taken of the same state holds it.
pub proof fn lemma_has_iff_in_snapshot(
    gallery_view: Seq<Seq<char>>,
    snapshot_paths: Seq<Seq<char>>,
    p: Seq<char>,
)
    requires
        snapshot_paths == gallery_view,
    ensures
        gallery_view.contains(p) <==> snapshot_paths.contains(p),
{
}

} // verus!
