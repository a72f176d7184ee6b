//! The directory scanner's logic: turning the listings of the configured
//! directories into the initial set of tracked files.
//!
//! Reading the directories happens outside the library; each directory's
//! listing (or the fact that it could not be opened) is handed in as plain
//! values. Scanning never recurses: entries flagged as directories are
//! dropped. If any configured directory could not be opened the whole scan
//! fails — no partial index is ever built.

use vstd::prelude::*;

use crate::errors::ScanError;
use crate::pathutil::{join_path, join_path_spec};

verus! {

/// One entry found directly inside a configured directory.
#[derive(Debug)]
pub struct ScanEntry {
    pub name: String,
    pub is_dir: bool,
}

/// The mathematical content of a [`ScanEntry`].
pub struct ScanEntryV {
    pub name: Seq<char>,
    pub is_dir: bool,
}

impl View for ScanEntry {
    type V = ScanEntryV;

    open spec fn view(&self) -> ScanEntryV {
        ScanEntryV { name: self.name@, is_dir: self.is_dir }
    }
}

impl DeepView for ScanEntry {
    type V = ScanEntryV;

    open spec fn deep_view(&self) -> ScanEntryV {
        self.view()
    }
}

/// What one configured directory yielded: its immediate entries in listing
/// order, or `None` when the directory could not be opened.
#[derive(Debug)]
pub struct DirScan {
    pub dir: String,
    pub entries: Option<Vec<ScanEntry>>,
}

/// The mathematical content of a [`DirScan`].
pub struct DirScanV {
    pub dir: Seq<char>,
    pub entries: Option<Seq<ScanEntryV>>,
}

impl View for DirScan {
    type V = DirScanV;

    open spec fn view(&self) -> DirScanV {
        DirScanV { dir: self.dir@, entries: self.entries.deep_view() }
    }
}

impl DeepView for DirScan {
    type V = DirScanV;

    open spec fn deep_view(&self) -> DirScanV {
        self.view()
    }
}

/// The files one readable directory contributes: every entry not flagged as
/// a directory, joined under the directory, in listing order.
pub open spec fn files_of_entries(dir: Seq<char>, entries: Seq<ScanEntryV>) -> Seq<Seq<char>>
    decreases entries.len(),
{
    if entries.len() == 0 {
        Seq::empty()
    } else {
        let rest = files_of_entries(dir, entries.drop_last());
        if entries.last().is_dir {
            rest
        } else {
            rest.push(join_path_spec(dir, entries.last().name))
        }
    }
}

/// All files found by the scan, directory by directory, in configuration
/// order. Unreadable directories contribute nothing here; they make the
/// whole scan fail instead.
pub open spec fn scanned_files(scans: Seq<DirScanV>) -> Seq<Seq<char>>
    decreases scans.len(),
{
    if scans.len() == 0 {
        Seq::empty()
    } else {
        scanned_files(scans.drop_last()) + (match scans.last().entries {
            Some(es) => files_of_entries(scans.last().dir, es),
            None => Seq::empty(),
        })
    }
}

/// The first configured directory that could not be opened, if any.
pub open spec fn first_unreadable(scans: Seq<DirScanV>) -> Option<Seq<char>>
    decreases scans.len(),
{
    if scans.len() == 0 {
        None
    } else {
        match first_unreadable(scans.drop_last()) {
            Some(d) => Some(d),
            None => if scans.last().entries is None {
                Some(scans.last().dir)
            } else {
                None
            },
        }
    }
}

/// Once a prefix of the scans holds an unreadable directory, the rest of the
/// scans cannot change which directory is reported first.
proof fn lemma_first_unreadable_stable(scans: Seq<DirScanV>, i: int)
    requires
        0 <= i <= scans.len(),
        first_unreadable(scans.take(i)) is Some,
    ensures
        first_unreadable(scans) == first_unreadable(scans.take(i)),
    decreases scans.len() - i,
{
    if i == scans.len() {
        assert(scans.take(i) =~= scans);
    } else {
        assert(scans.take(i + 1).drop_last() =~= scans.take(i));
        assert(scans.take(i + 1).last() == scans[i]);
        lemma_first_unreadable_stable(scans, i + 1);
    }
}

/// Collects the files the scan found, failing fast when any configured
/// directory could not be opened: the error names the first such directory
/// and no partial result is returned.
pub fn scan_paths(scans: &Vec<DirScan>) -> (r: Result<Vec<String>, ScanError>)
    ensures
        match r {
            Ok(paths) => first_unreadable(scans.deep_view()) is None && paths.deep_view()
                == scanned_files(scans.deep_view()),
            Err(e) => first_unreadable(scans.deep_view()) is Some && (e matches
                ScanError::DirectoryUnreadable { dir } && dir@ == first_unreadable(
                scans.deep_view(),
            ).unwrap()),
        },
{
    let ghost sv = scans.deep_view();
    let n = scans.len();
    let mut paths: Vec<String> = Vec::new();
    let mut i: usize = 0;
    while i < n
        invariant
            n == scans@.len(),
            sv == scans.deep_view(),
            i <= n,
            first_unreadable(sv.take(i as int)) is None,
            paths.deep_view() == scanned_files(sv.take(i as int)),
        decreases n - i,
    {
        proof {
            assert(sv.take(i + 1).drop_last() =~= sv.take(i as int));
            assert(sv.take(i + 1).last() == sv[i as int]);
            assert(sv[i as int] == scans@[i as int]@);
        }
        let scan = &scans[i];
        match &scan.entries {
            None => {
                proof {
                    lemma_first_unreadable_stable(sv, i + 1);
                }
                return Err(ScanError::DirectoryUnreadable { dir: scan.dir.clone() });
            },
            Some(entries) => {
                let ghost ev = entries.deep_view();
                let ghost before = paths.deep_view();
                let m = entries.len();
                let mut j: usize = 0;
                while j < m
                    invariant
                        m == entries@.len(),
                        ev == entries.deep_view(),
                        j <= m,
                        paths.deep_view() == before + files_of_entries(sv[i as int].dir, ev.take(
                            j as int,
                        )),
                        sv[i as int].entries == Some(ev),
                        sv == scans.deep_view(),
                        n == scans@.len(),
                        i < n,
                        scan == &scans@[i as int],
                    decreases m - j,
                {
                    proof {
                        assert(ev.take(j + 1).drop_last() =~= ev.take(j as int));
                        assert(ev.take(j + 1).last() == ev[j as int]);
                        assert(ev[j as int] == entries@[j as int]@);
                    }
                    let entry = &entries[j];
                    if !entry.is_dir {
                        let p = join_path(scan.dir.as_str(), entry.name.as_str());
                        let ghost pv = p@;
                        let ghost prev = paths@;
                        let ghost dprev = paths.deep_view();
                        paths.push(p);
                        proof {
                            assert(pv == join_path_spec(sv[i as int].dir, ev[j as int].name));
                            assert(files_of_entries(sv[i as int].dir, ev.take(j + 1))
                                == files_of_entries(sv[i as int].dir, ev.take(j as int)).push(pv));
                            assert(paths@.len() == prev.len() + 1);
                            assert(paths@[prev.len() as int]@ == pv);
                            assert(forall|k: int| 0 <= k < prev.len() ==> paths@[k] == prev[k]);
                            assert(dprev.len() == prev.len());
                            assert(paths.deep_view() =~= dprev.push(pv));
                            assert(dprev.push(pv) =~= before + files_of_entries(
                                sv[i as int].dir,
                                ev.take(j + 1),
                            ));
                        }
                    }
                    j = j + 1;
                }
                proof {
                    assert(ev.take(m as int) =~= ev);
                    assert(scanned_files(sv.take(i + 1)) == scanned_files(sv.take(i as int))
                        + files_of_entries(sv[i as int].dir, ev));
                }
            },
        }
        i = i + 1;
    }
    proof {
        assert(sv.take(n as int) =~= sv);
    }
    Ok(paths)
}

} // verus!
