//! The scan pipeline: paths of a photo library, reconciliation of discovered
//! files with the store, bookkeeping counters, and cooperative cancellation.
//!
//! Directory walking and file reading are I/O and live with the caller; the
//! decisions — which file becomes a job, what is written to the store, how
//! the counters move, when to stop — are all here and verified.

use vstd::prelude::*;
use vstd::string::StrSliceExecFns;
use vstd::string::StringExecFns;
use crate::error::ArchiveError;
use crate::formats::PhotoInfo;
use crate::photodb::{Photo, PhotoDatabase, PhotoId, spec_find_by_path};
use crate::db::PhotoRecord;

verus! {

/// `root` and `rel` joined with exactly one separator between them.
pub open spec fn joined(root: Seq<char>, rel: Seq<char>) -> Seq<char> {
    if root.len() > 0 && root[root.len() - 1] == '/' {
        root + rel
    } else {
        root + seq!['/'] + rel
    }
}

/// The path of `abs` relative to the directory `root`: the tail of `abs`
/// after `root` and the separator, `None` when `abs` does not lie under
/// `root`. An empty root means the filesystem root, so every path lies
/// under it.
pub open spec fn rel_of(root: Seq<char>, abs: Seq<char>) -> Option<Seq<char>> {
    if root.len() == 0 {
        Some(abs)
    } else if abs == root {
        Some(Seq::empty())
    } else if abs.len() > root.len() && abs.subrange(0, root.len() as int) == root {
        if root[root.len() - 1] == '/' {
            Some(abs.skip(root.len() as int))
        } else if abs[root.len() as int] == '/' {
            Some(abs.skip((root.len() + 1) as int))
        } else {
            None
        }
    } else {
        None
    }
}

/// Join a root directory and a relative path with one separator.
pub fn join_path(root: &str, rel: &str) -> (r: String)
    ensures
        r@ == joined(root@, rel@),
{
    let n = root.unicode_len();
    if n > 0 && root.get_char(n - 1) == '/' {
        let out = root.to_owned();
        out.concat(rel)
    } else {
        let out = root.to_owned();
        let out = out.concat("/");
        proof {
            assert(out@ == root@ + "/"@);
            reveal_strlit("/");
            assert("/"@ =~= seq!['/']);
        }
        out.concat(rel)
    }
}

/// Whether a directory entry name counts as hidden: it starts with a dot.
/// The directory walk skips hidden entries before they are ever counted.
pub open spec fn spec_is_hidden(name: Seq<char>) -> bool {
    name.len() > 0 && name[0] == '.'
}

/// The hidden-entry rule of the directory walk.
pub fn is_hidden_name(name: &str) -> (r: bool)
    ensures
        r == spec_is_hidden(name@),
{
    name.unicode_len() > 0 && name.get_char(0) == '.'
}

/// Holds the paths a photo library consists of.
#[derive(Debug)]
pub struct LibraryFiles {
    /// The directory all the photos live under; photos outside it cannot be
    /// indexed.
    pub root_dir: String,
    /// Path of the SQLite database holding the photo metadata and the cached
    /// thumbnails.
    pub photo_db_file: String,
}

impl LibraryFiles {
    /// The library rooted at the given directory, with its database file
    /// `photos.db` directly under the root.
    pub fn new(root_path: &str) -> (r: LibraryFiles)
        ensures
            r.root_dir@ == root_path@,
            r.photo_db_file@ == joined(root_path@, "photos.db"@),
    {
        let root_dir = root_path.to_owned();
        let photo_db_file = join_path(root_path, "photos.db");
        LibraryFiles { root_dir, photo_db_file }
    }

    /// The full path of a photo stored in the database.
    pub fn get_full_path(&self, photo: &Photo) -> (r: String)
        ensures
            r@ == joined(self.root_dir@, photo.relative_path@),
    {
        join_path(self.root_dir.as_str(), photo.relative_path.as_str())
    }
}

/// Path to a photo file, carrying both the path relative to the library root
/// and the full path.
#[derive(Debug, Clone)]
pub struct PhotoPath {
    pub full_path: String,
    pub relative_path: String,
}

impl PhotoPath {
    /// Split an absolute path into a `PhotoPath` under the given root.
    /// Fails when the path does not lie under the root directory.
    pub fn from_absolute(root_dir: &str, absolute_path: &str) -> (r: Result<
        PhotoPath,
        ArchiveError,
    >)
        ensures
            r matches Ok(p) ==> rel_of(root_dir@, absolute_path@) == Some(p.relative_path@)
                && p.full_path@ == absolute_path@,
            r is Err <==> rel_of(root_dir@, absolute_path@) is None,
            r matches Err(e) ==> e is Io,
    {
        let n = root_dir.unicode_len();
        let m = absolute_path.unicode_len();
        if n == 0 {
            return Ok(
                PhotoPath {
                    full_path: absolute_path.to_owned(),
                    relative_path: absolute_path.to_owned(),
                },
            );
        }
        if m < n {
            proof {
                if absolute_path@ == root_dir@ {
                    assert(m == n);
                }
            }
            return Err(ArchiveError::Io("path is not under the library root".to_owned()));
        }
        let mut i: usize = 0;
        while i < n
            invariant
                n == root_dir@.len(),
                m == absolute_path@.len(),
                n <= m,
                i <= n,
                forall|j: int| 0 <= j < i ==> absolute_path@[j] == root_dir@[j],
            decreases n - i,
        {
            if absolute_path.get_char(i) != root_dir.get_char(i) {
                proof {
                    assert(absolute_path@.subrange(0, n as int)[i as int] == absolute_path@[
                        i as int
                    ]);
                    assert(absolute_path@.subrange(0, n as int) != root_dir@);
                    if absolute_path@ == root_dir@ {
                        assert(absolute_path@[i as int] == root_dir@[i as int]);
                    }
                }
                return Err(ArchiveError::Io("path is not under the library root".to_owned()));
            }
            i += 1;
        }
        proof {
            assert(absolute_path@.subrange(0, n as int) =~= root_dir@);
        }
        if m == n {
            proof {
                assert(absolute_path@ =~= root_dir@);
            }
            return Ok(
                PhotoPath {
                    full_path: absolute_path.to_owned(),
                    relative_path: String::new(),
                },
            );
        }
        proof {
            assert(absolute_path@ != root_dir@) by {
                assert(absolute_path@.len() != root_dir@.len());
            }
        }
        if root_dir.get_char(n - 1) == '/' {
            let rel = absolute_path.substring_char(n, m).to_owned();
            proof {
                assert(rel@ =~= absolute_path@.skip(n as int));
            }
            Ok(PhotoPath { full_path: absolute_path.to_owned(), relative_path: rel })
        } else if absolute_path.get_char(n) == '/' {
            let rel = absolute_path.substring_char(n + 1, m).to_owned();
            proof {
                assert(rel@ =~= absolute_path@.skip(n + 1));
            }
            Ok(PhotoPath { full_path: absolute_path.to_owned(), relative_path: rel })
        } else {
            Err(ArchiveError::Io("path is not under the library root".to_owned()))
        }
    }

    /// The `PhotoPath` of a stored relative path under the given root.
    pub fn from_relative(root_dir: &str, relative_path: &str) -> (r: PhotoPath)
        ensures
            r.full_path@ == joined(root_dir@, relative_path@),
            r.relative_path@ == relative_path@,
    {
        PhotoPath {
            full_path: join_path(root_dir, relative_path),
            relative_path: relative_path.to_owned(),
        }
    }
}

/// A shared cancellation flag: an external signal handler triggers it, every
/// pipeline stage polls it at item boundaries. What a poll returns depends
/// on the other threads, so nothing is promised about it.
#[derive(Debug)]
pub struct InterruptToken {
    flag: std::sync::Arc<core::sync::atomic::AtomicBool>,
}

impl InterruptToken {
    /// A fresh, untriggered token.
    pub fn new() -> (r: InterruptToken) {
        InterruptToken {
            flag: std::sync::Arc::new(core::sync::atomic::AtomicBool::new(false)),
        }
    }

    /// Mark the token as interrupted. Every holder of a copy observes it.
    pub fn trigger(&self) {
        self.flag.store(true, core::sync::atomic::Ordering::SeqCst);
    }

    /// Whether an interruption has been signaled.
    pub fn is_interrupted(&self) -> bool {
        self.flag.load(core::sync::atomic::Ordering::SeqCst)
    }

    /// Relies on Arc::clone: another handle to the same flag, for handing to
    /// a signal handler on another thread.
    #[verifier::external_body]
    pub fn dup(&self) -> InterruptToken {
        InterruptToken { flag: std::sync::Arc::clone(&self.flag) }
    }
}

/// Counters aggregated over one scan run.
#[derive(Debug, Copy, Clone, PartialEq, Eq, Structural)]
pub struct ScanStats {
    /// Photo files seen during collection.
    pub total: u64,
    /// Files skipped because they are already indexed and no rescan was
    /// forced.
    pub skipped: u64,
    /// Files whose metadata was written to the store.
    pub added: u64,
    /// Files that could not be collected or extracted.
    pub failed: u64,
}

/// The outcome of a scan run: the final counters, and whether the run was
/// interrupted (a clean partial stop — not an error).
#[derive(Debug, Copy, Clone, PartialEq, Eq, Structural)]
pub struct ScanOutcome {
    pub total: u64,
    pub skipped: u64,
    pub added: u64,
    pub failed: u64,
    pub interrupted: bool,
}

/// Task description for scanning one photo file.
#[derive(Debug, Clone)]
pub struct ScanJob {
    /// The id of the photo in the database, if it is already indexed.
    pub existing_id: Option<PhotoId>,
    /// The path to the photo.
    pub path: PhotoPath,
}

/// The job a collected file turns into, given what the store knows about its
/// relative path.
pub open spec fn spec_existing_id(found: Option<i64>) -> Option<PhotoId> {
    match found {
        Some(k) => Some(PhotoId(k)),
        None => None,
    }
}

/// The two-stage scan pipeline. Collection turns discovered files into jobs
/// while counting everything it sees; processing consumes the jobs in order
/// and writes extraction results to the store.
///
/// The invariant is the cancellation guarantee: every counted file is
/// skipped, failed, added, or still pending, so however early the run stops,
/// `added + failed + skipped` never exceeds `total`.
pub struct ScanPipeline {
    stats: ScanStats,
    jobs: Vec<ScanJob>,
    next: usize,
}

impl ScanPipeline {
    /// The counters so far.
    pub closed spec fn stats(&self) -> ScanStats {
        self.stats
    }

    /// The jobs collected so far.
    pub closed spec fn jobs(&self) -> Seq<ScanJob> {
        self.jobs@
    }

    /// How many jobs have been processed.
    pub closed spec fn processed(&self) -> int {
        self.next as int
    }

    /// Every counted file is accounted for: skipped, failed, added, or
    /// still pending in the job queue.
    pub open spec fn wf(&self) -> bool {
        &&& self.processed() <= self.jobs().len()
        &&& self.stats().total == self.stats().skipped + self.stats().failed + self.stats().added
            + (self.jobs().len() - self.processed())
    }

    /// A fresh pipeline with nothing counted.
    pub fn new() -> (r: ScanPipeline)
        ensures
            r.wf(),
            r.stats() == (ScanStats { total: 0u64, skipped: 0u64, added: 0u64, failed: 0u64 }),
            r.jobs() == Seq::<ScanJob>::empty(),
            r.processed() == 0,
    {
        ScanPipeline {
            stats: ScanStats { total: 0, skipped: 0, added: 0, failed: 0 },
            jobs: Vec::new(),
            next: 0,
        }
    }

    /// Offer one discovered file to the pipeline. The file is counted; it
    /// becomes a failure when its path does not lie under the root, is
    /// skipped when it is already indexed and no rescan is forced, and
    /// becomes a pending job otherwise. A store failure aborts the scan and
    /// counts nothing.
    pub fn collect_file(
        &mut self,
        store: &PhotoDatabase,
        root_dir: &str,
        rescan: bool,
        absolute_path: &str,
    ) -> (r: Result<(), ArchiveError>)
        requires
            old(self).wf(),
            old(self).stats().total < u64::MAX,
            store.wf(),
        ensures
            final(self).wf(),
            final(self).processed() == old(self).processed(),
            r is Ok ==> final(self).stats().total == old(self).stats().total + 1
                && final(self).stats().added == old(self).stats().added,
            r is Ok ==> (if rel_of(root_dir@, absolute_path@) is None {
                final(self).stats().failed == old(self).stats().failed + 1 && final(self).stats().skipped
                    == old(self).stats().skipped && final(self).jobs() == old(self).jobs()
            } else {
                (if spec_find_by_path(store.photos(), rel_of(root_dir@, absolute_path@)->0) is Some
                    && !rescan {
                    final(self).stats().skipped == old(self).stats().skipped + 1 && final(self).stats().failed == old(self).stats().failed && final(self).jobs() == old(
                        self,
                    ).jobs()
                } else {
                    final(self).stats().skipped == old(self).stats().skipped && final(self).stats().failed == old(self).stats().failed && final(self).jobs().len() == old(
                        self,
                    ).jobs().len() + 1 && final(self).jobs().last().existing_id == spec_existing_id(
                        spec_find_by_path(store.photos(), rel_of(root_dir@, absolute_path@)->0),
                    ) && final(self).jobs().last().path.relative_path@ == rel_of(
                        root_dir@,
                        absolute_path@,
                    )->0 && final(self).jobs().drop_last() == old(self).jobs()
                })
            }),
            r is Err ==> final(self).stats() == old(self).stats() && final(self).jobs() == old(
                self,
            ).jobs(),
            r matches Err(e) ==> e is Store,
            rel_of(root_dir@, absolute_path@) is None ==> r is Ok,
    {
        let path = match PhotoPath::from_absolute(root_dir, absolute_path) {
            Ok(p) => p,
            Err(_) => {
                self.stats.total = self.stats.total + 1;
                self.stats.failed = self.stats.failed + 1;
                return Ok(());
            },
        };
        let existing = match store.query_photo_id_by_path(path.relative_path.as_str()) {
            Ok(found) => found,
            Err(e) => {
                return Err(match e {
                    ArchiveError::Store(m) => ArchiveError::Store(m),
                    _ => ArchiveError::Store("store failure during collection".to_owned()),
                });
            },
        };
        self.stats.total = self.stats.total + 1;
        if existing.is_some() && !rescan {
            self.stats.skipped = self.stats.skipped + 1;
            return Ok(());
        }
        self.jobs.push(ScanJob { existing_id: existing, path });
        Ok(())
    }

    /// Count one discovered file as failed without creating a job: for a
    /// file the caller cannot even name, such as a path not representable
    /// as UTF-8 — a hard failure for that single file, not for the run.
    pub fn record_failed_file(&mut self)
        requires
            old(self).wf(),
            old(self).stats().total < u64::MAX,
        ensures
            final(self).wf(),
            final(self).processed() == old(self).processed(),
            final(self).jobs() == old(self).jobs(),
            final(self).stats().total == old(self).stats().total + 1,
            final(self).stats().failed == old(self).stats().failed + 1,
            final(self).stats().skipped == old(self).stats().skipped,
            final(self).stats().added == old(self).stats().added,
    {
        self.stats.total = self.stats.total + 1;
        self.stats.failed = self.stats.failed + 1;
    }

    /// Whether a collected job is still waiting to be processed.
    pub fn has_pending(&self) -> (r: bool)
        ensures
            r == (self.processed() < self.jobs().len()),
    {
        self.next < self.jobs.len()
    }

    /// The next job to process, for the caller to read the file and extract
    /// its metadata.
    pub fn peek_job(&self) -> (r: &ScanJob)
        requires
            self.processed() < self.jobs().len(),
        ensures
            *r == self.jobs()[self.processed()],
    {
        &self.jobs[self.next]
    }

    /// Consume the next job with the result of its extraction. A successful
    /// extraction is written to the store — inserted under a fresh id for a
    /// new path, updated in place for a known one — and counted as added; a
    /// failed extraction is counted as failed and writes nothing. A store
    /// failure aborts the scan, changing neither the store model, the
    /// counters, nor the queue.
    pub fn process_next(
        &mut self,
        store: &mut PhotoDatabase,
        extraction: &Result<PhotoInfo, String>,
    ) -> (r: Result<(), ArchiveError>)
        requires
            old(self).wf(),
            old(self).processed() < old(self).jobs().len(),
            old(store).wf(),
        ensures
            final(self).wf(),
            final(store).wf(),
            final(self).jobs() == old(self).jobs(),
            r is Ok ==> final(self).processed() == old(self).processed() + 1,
            r is Ok ==> final(self).stats().total == old(self).stats().total && final(self).stats().skipped == old(self).stats().skipped,
            r is Ok ==> (extraction is Err ==> final(self).stats().failed == old(
                self,
            ).stats().failed + 1 && final(self).stats().added == old(self).stats().added && final(store).photos() == old(store).photos() && final(store).thumbs() == old(store).thumbs()),
            r is Ok ==> (extraction matches Ok(info) ==> final(self).stats().added == old(
                self,
            ).stats().added + 1 && final(self).stats().failed == old(self).stats().failed && final(store).thumbs() == old(store).thumbs() && {
                let job = old(self).jobs()[old(self).processed()];
                let rec = PhotoRecord {
                    rel_path: job.path.relative_path@,
                    created: info.created.deep_view(),
                    file_hash: info.file_hash@,
                };
                match job.existing_id {
                    Some(id) => final(store).photos() == old(store).photos().insert(id.0, rec)
                        || final(store).photos() == old(store).photos(),
                    None => exists|id: i64|
                        !old(store).photos().contains_key(id) && final(store).photos() == old(
                            store,
                        ).photos().insert(id, rec),
                }
            }),
            r is Err ==> final(self).stats() == old(self).stats() && final(self).processed() == old(
                self,
            ).processed() && final(store).photos() == old(store).photos() && final(store).thumbs()
                == old(store).thumbs(),
            extraction is Err ==> r is Ok,
    {
        let _pending = self.jobs.len();
        match extraction {
            Ok(info) => {
                let job = &self.jobs[self.next];
                let outcome = match job.existing_id {
                    Some(id) => store.update_photo(id, job.path.relative_path.as_str(), info),
                    None => {
                        match store.insert_photo(job.path.relative_path.as_str(), info) {
                            Ok(_) => Ok(1),
                            Err(e) => Err(e),
                        }
                    },
                };
                match outcome {
                    Ok(_) => {
                        self.next = self.next + 1;
                        self.stats.added = self.stats.added + 1;
                        Ok(())
                    },
                    Err(e) => Err(e),
                }
            },
            Err(_) => {
                self.next = self.next + 1;
                self.stats.failed = self.stats.failed + 1;
                Ok(())
            },
        }
    }

    /// The outcome of the run so far. However early the run stops, the
    /// counted work never exceeds what was seen: `added + failed + skipped`
    /// is at most `total`, and an interrupted run is reported as such rather
    /// than as an error.
    pub fn outcome(&self, interrupted: bool) -> (r: ScanOutcome)
        requires
            self.wf(),
        ensures
            r.total == self.stats().total,
            r.skipped == self.stats().skipped,
            r.added == self.stats().added,
            r.failed == self.stats().failed,
            r.interrupted == interrupted,
            r.added + r.failed + r.skipped <= r.total,
    {
        ScanOutcome {
            total: self.stats.total,
            skipped: self.stats.skipped,
            added: self.stats.added,
            failed: self.stats.failed,
            interrupted,
        }
    }

    /// Process every pending job in order, polling the token before each
    /// one: once it is triggered no further job is dispatched and the run
    /// reports an interrupted outcome. The extraction results stand in the
    /// same order as the jobs.
    pub fn process_all(
        &mut self,
        store: &mut PhotoDatabase,
        extractions: &Vec<Result<PhotoInfo, String>>,
        token: &InterruptToken,
    ) -> (r: Result<ScanOutcome, ArchiveError>)
        requires
            old(self).wf(),
            old(store).wf(),
            extractions@.len() == old(self).jobs().len(),
            old(self).processed() == 0,
        ensures
            final(self).wf(),
            final(store).wf(),
            r matches Ok(o) ==> {
                &&& o.added + o.failed + o.skipped <= o.total
                &&& o.total == final(self).stats().total && o.total == old(self).stats().total
                &&& o.skipped == final(self).stats().skipped && o.skipped == old(
                    self,
                ).stats().skipped
                &&& o.added == final(self).stats().added
                &&& o.failed == final(self).stats().failed
                &&& !o.interrupted ==> final(self).processed() == final(self).jobs().len()
            },
            old(self).jobs().len() == 0 ==> r is Ok,
    {
        let n = self.jobs.len();
        let mut i: usize = 0;
        while i < n
            invariant
                self.wf(),
                store.wf(),
                n == self.jobs().len(),
                extractions@.len() == n,
                i == self.processed(),
                i <= n,
                self.stats().total == old(self).stats().total,
                self.stats().skipped == old(self).stats().skipped,
                self.jobs() == old(self).jobs(),
            decreases n - i,
        {
            if token.is_interrupted() {
                return Ok(self.outcome(true));
            }
            if let Err(e) = self.process_next(store, &extractions[i]) {
                return Err(e);
            }
            i += 1;
        }
        Ok(self.outcome(false))
    }
}

} // verus!
