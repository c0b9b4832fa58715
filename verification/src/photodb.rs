//! The photo database: a verified store of photo metadata and cached
//! thumbnails over the trusted SQL boundary in `db`.

use vstd::prelude::*;
use vstd::pervasive::unreached;
use vstd::slice::slice_to_vec;
use crate::db;
use crate::db::{
    PhotoRecord, ThumbRecord, listing_before, no_photo_rows, no_thumb_rows, paths_unique,
    photo_table, stored_version, thumb_table,
};
use crate::error::ArchiveError;
use crate::formats::{PhotoInfo, Thumbnail};
use crate::hash::{Sha256Hash, sha256_of};
use crate::schema::{PhotoDbSchema, Version, spec_latest_version};

verus! {

/// Key uniquely identifying a photo: the rowid the store assigned to it.
/// Stable for the lifetime of the record; rows are never deleted, so ids are
/// never reused.
#[derive(Debug, Copy, Clone, PartialEq, Eq, Structural, Hash)]
pub struct PhotoId(pub i64);

/// A row in the photo database.
pub struct Photo {
    pub id: PhotoId,
    pub relative_path: String,
    pub info: PhotoInfo,
}

impl Photo {
    /// The abstract record this row stands for.
    pub open spec fn record(&self) -> PhotoRecord {
        PhotoRecord {
            rel_path: self.relative_path@,
            created: self.info.created.deep_view(),
            file_hash: self.info.file_hash@,
        }
    }
}

/// The derived status of a photo's cached thumbnail. Not stored: computed
/// from whether a thumbnail row exists and which side it holds.
#[derive(Debug, Copy, Clone, PartialEq, Eq, Structural)]
pub enum ThumbnailState {
    Present,
    Absent,
    Error,
}

/// The thumbnail state a thumbnails table yields for a photo id.
pub open spec fn spec_thumb_state(t: Map<i64, ThumbRecord>, id: i64) -> ThumbnailState {
    if !t.contains_key(id) {
        ThumbnailState::Absent
    } else if t[id] is Image {
        ThumbnailState::Present
    } else {
        ThumbnailState::Error
    }
}

/// The payload bytes a thumbnails table yields for a photo id: only a row
/// holding an image has one.
pub open spec fn spec_thumb_payload(t: Map<i64, ThumbRecord>, id: i64) -> Option<Seq<u8>> {
    if t.contains_key(id) {
        match t[id] {
            ThumbRecord::Image { bytes, .. } => Some(bytes),
            ThumbRecord::Failure { .. } => None,
        }
    } else {
        None
    }
}

/// The stored digest a thumbnails table yields for a photo id.
pub open spec fn spec_thumb_hash(t: Map<i64, ThumbRecord>, id: i64) -> Option<Seq<u8>> {
    if t.contains_key(id) {
        match t[id] {
            ThumbRecord::Image { hash, .. } => Some(hash),
            ThumbRecord::Failure { .. } => None,
        }
    } else {
        None
    }
}

/// The id a photos table yields for a relative path, if any row has it.
/// Under `paths_unique` the witness is unique.
pub open spec fn spec_find_by_path(m: Map<i64, PhotoRecord>, path: Seq<char>) -> Option<i64> {
    if exists|k: i64| m.contains_key(k) && m[k].rel_path == path {
        Some(choose|k: i64| m.contains_key(k) && m[k].rel_path == path)
    } else {
        None
    }
}

/// Law: inserting a row with a fresh path keeps paths unique, provided no
/// row but possibly the overwritten one carries that path.
pub proof fn lemma_paths_unique_preserved(m: Map<i64, PhotoRecord>, id: i64, rec: PhotoRecord)
    requires
        paths_unique(m),
        forall|k: i64| m.contains_key(k) && k != id ==> m[k].rel_path != rec.rel_path,
    ensures
        paths_unique(m.insert(id, rec)),
{
    let m2 = m.insert(id, rec);
    assert forall|k1: i64, k2: i64|
        m2.contains_key(k1) && m2.contains_key(k2) && m2[k1].rel_path == m2[k2].rel_path implies k1
        == k2 by {
        if k1 == id && k2 != id {
            assert(m[k2].rel_path != rec.rel_path);
            assert(false);
        } else if k2 == id && k1 != id {
            assert(m[k1].rel_path != rec.rel_path);
            assert(false);
        }
    }
}

/// Law: after inserting a photo row at a fresh id with a path no existing
/// row carries, looking that path up finds exactly the new id.
pub proof fn lemma_insert_then_find(m: Map<i64, PhotoRecord>, id: i64, rec: PhotoRecord)
    requires
        paths_unique(m),
        !m.contains_key(id),
        forall|k: i64| m.contains_key(k) ==> m[k].rel_path != rec.rel_path,
    ensures
        paths_unique(m.insert(id, rec)),
        spec_find_by_path(m.insert(id, rec), rec.rel_path) == Some(id),
{
    lemma_paths_unique_preserved(m, id, rec);
    let m2 = m.insert(id, rec);
    assert(m2.contains_key(id) && m2[id].rel_path == rec.rel_path);
    let w = choose|k: i64| m2.contains_key(k) && m2[k].rel_path == rec.rel_path;
    assert(w == id);
}

/// Law: a thumbnail upsert round-trips. Writing an image leaves the state
/// `Present`, the exact payload bytes and their SHA-256 digest behind;
/// writing a failure leaves the state `Error` and no payload or digest.
pub proof fn lemma_thumbnail_round_trip(
    t: Map<i64, ThumbRecord>,
    id: i64,
    bytes: Seq<u8>,
    message: Seq<char>,
)
    ensures
        spec_thumb_state(t.insert(id, ThumbRecord::Image { bytes, hash: sha256_of(bytes) }), id)
            == ThumbnailState::Present,
        spec_thumb_payload(t.insert(id, ThumbRecord::Image { bytes, hash: sha256_of(bytes) }), id)
            == Some(bytes),
        spec_thumb_hash(t.insert(id, ThumbRecord::Image { bytes, hash: sha256_of(bytes) }), id)
            == Some(sha256_of(bytes)),
        spec_thumb_state(t.insert(id, ThumbRecord::Failure { message }), id)
            == ThumbnailState::Error,
        spec_thumb_payload(t.insert(id, ThumbRecord::Failure { message }), id) is None,
        spec_thumb_hash(t.insert(id, ThumbRecord::Failure { message }), id) is None,
{
}

/// Metadata about one stored thumbnail, for reporting.
pub struct ThumbnailInfo {
    /// The photo the thumbnail belongs to.
    pub photo_id: PhotoId,
    /// The size of the stored thumbnail image in bytes, absent for a failed
    /// attempt.
    pub size_bytes: Option<usize>,
    /// The digest of the thumbnail image, absent for a failed attempt.
    pub hash: Option<Sha256Hash>,
    /// The message of the failed generation attempt, absent for an image.
    pub error: Option<String>,
    /// The relative path of the photo the thumbnail belongs to.
    pub relative_path: String,
}

/// Database containing metadata about photos and their cached thumbnails.
pub struct PhotoDatabase {
    conn: rusqlite::Connection,
}

fn store_error(e: &rusqlite::Error) -> (r: ArchiveError)
    ensures
        r is Store,
{
    ArchiveError::Store(db::sqlite_error_message(e))
}

impl PhotoDatabase {
    /// The contents of the photos table.
    pub closed spec fn photos(&self) -> Map<i64, PhotoRecord> {
        photo_table(self.conn)
    }

    /// The contents of the thumbnails table.
    pub closed spec fn thumbs(&self) -> Map<i64, ThumbRecord> {
        thumb_table(self.conn)
    }

    /// The stored schema version.
    pub closed spec fn version(&self) -> Option<u32> {
        stored_version(self.conn)
    }

    /// A well-formed store is at the latest schema version and keeps its
    /// relative paths unique (the schema's UNIQUE index).
    pub open spec fn wf(&self) -> bool {
        self.version() == Some(spec_latest_version()) && paths_unique(self.photos())
    }

    /// Open a database file, creating it if absent, and bring it to the
    /// latest schema version. A store reporting a version newer than this
    /// code understands is rejected as `SchemaVersionUnknown`.
    pub fn open_or_create(path: &str) -> (r: Result<PhotoDatabase, ArchiveError>)
        ensures
            r matches Ok(store) ==> store.wf(),
            r matches Err(ArchiveError::SchemaVersionUnknown { version }) ==> version.0
                > spec_latest_version(),
    {
        let mut conn = match db::open_database(path) {
            Ok(c) => c,
            Err(e) => {
                return Err(store_error(&e));
            },
        };
        if let Err(e) = db::init_version_table(&mut conn) {
            return Err(store_error(&e));
        }
        let vopt = match db::read_version(&conn) {
            Ok(v) => v,
            Err(e) => {
                return Err(store_error(&e));
            },
        };
        let v: u32 = match vopt {
            Some(v) => v,
            None => {
                match db::write_initial_version(&mut conn) {
                    Ok(()) => 0,
                    Err(e) => {
                        return Err(store_error(&e));
                    },
                }
            },
        };
        if PhotoDbSchema::from_version(Version(v)).is_none() {
            return Err(ArchiveError::SchemaVersionUnknown { version: Version(v) });
        }
        let mut store = PhotoDatabase { conn };
        match store.upgrade() {
            Ok(()) => Ok(store),
            Err(e) => Err(e),
        }
    }

    /// Run every migration above the stored version, in strictly increasing
    /// order, each in its own transaction. On a store already at the latest
    /// version this performs no migrations and changes nothing, so running
    /// it twice in a row is idempotent.
    pub fn upgrade(&mut self) -> (r: Result<(), ArchiveError>)
        requires
            old(self).version() matches Some(v) && v <= spec_latest_version(),
        ensures
            r is Ok ==> final(self).version() == Some(spec_latest_version()),
            r is Ok && old(self).version() == Some(spec_latest_version()) ==> final(self).photos() == old(
                self,
            ).photos() && final(self).thumbs() == old(self).thumbs(),
            r is Ok && old(self).version() != Some(spec_latest_version()) ==> no_photo_rows(
                final(self).photos(),
            ) && no_thumb_rows(final(self).thumbs()),
            r is Err ==> final(self).version() == old(self).version() && final(self).photos() == old(
                self,
            ).photos() && final(self).thumbs() == old(self).thumbs(),
            r matches Err(e) ==> e is Store,
    {
        let vopt = match db::read_version(&self.conn) {
            Ok(v) => v,
            Err(e) => {
                return Err(store_error(&e));
            },
        };
        let mut v: u32 = match vopt {
            Some(v) => v,
            None => unreached(),
        };
        let ghost v0 = v;
        let latest = PhotoDbSchema::latest().version();
        while v < latest.0
            invariant
                latest.0 == spec_latest_version(),
                self.version() == Some(v),
                v <= latest.0,
                old(self).version() == Some(v0),
                v0 <= v,
                v == v0 ==> self.photos() == old(self).photos() && self.thumbs() == old(
                    self,
                ).thumbs(),
                v > v0 ==> no_photo_rows(self.photos()) && no_thumb_rows(self.thumbs()),
            decreases latest.0 - v,
        {
            match db::migrate_to_initial_version(&mut self.conn) {
                Ok(()) => {
                    v = v + 1;
                },
                Err(e) => {
                    return Err(store_error(&e));
                },
            }
        }
        Ok(())
    }

    /// Insert a new photo row. Fails if a row with this relative path
    /// already exists (the UNIQUE index rejects it); on success the fresh,
    /// never-before-used id is returned.
    pub fn insert_photo(&mut self, path_str: &str, info: &PhotoInfo) -> (r: Result<
        PhotoId,
        ArchiveError,
    >)
        requires
            old(self).wf(),
        ensures
            final(self).wf(),
            r matches Ok(id) ==> {
                &&& !old(self).photos().contains_key(id.0)
                &&& forall|k: i64|
                    old(self).photos().contains_key(k) ==> old(self).photos()[k].rel_path
                        != path_str@
                &&& final(self).photos() == old(self).photos().insert(
                    id.0,
                    PhotoRecord {
                        rel_path: path_str@,
                        created: info.created.deep_view(),
                        file_hash: info.file_hash@,
                    },
                )
                &&& final(self).thumbs() == old(self).thumbs()
            },
            (exists|k: i64|
                old(self).photos().contains_key(k) && old(self).photos()[k].rel_path
                    == path_str@) ==> r is Err,
            r is Err ==> final(self).photos() == old(self).photos() && final(self).thumbs() == old(
                self,
            ).thumbs(),
    {
        let path_string = path_str.to_owned();
        let hash_vec = slice_to_vec(info.file_hash.as_bytes());
        match db::insert_photo_row(&mut self.conn, &path_string, &info.created, &hash_vec) {
            Ok(id) => {
                proof {
                    lemma_paths_unique_preserved(
                        old(self).photos(),
                        id,
                        PhotoRecord {
                            rel_path: path_str@,
                            created: info.created.deep_view(),
                            file_hash: info.file_hash@,
                        },
                    );
                }
                Ok(PhotoId(id))
            },
            Err(e) => Err(store_error(&e)),
        }
    }

    /// Rewrite an existing photo row in place, returning the number of rows
    /// that matched the id (1 when it exists, 0 when it does not). Fails if
    /// the addressed row exists and the new path belongs to a different
    /// row; an unknown id touches no row and succeeds with a count of zero.
    pub fn update_photo(&mut self, id: PhotoId, path_str: &str, info: &PhotoInfo) -> (r: Result<
        usize,
        ArchiveError,
    >)
        requires
            old(self).wf(),
        ensures
            final(self).wf(),
            r matches Ok(n) ==> final(self).thumbs() == old(self).thumbs() && {
                &&& old(self).photos().contains_key(id.0) ==> n == 1 && final(self).photos() == old(
                    self,
                ).photos().insert(
                    id.0,
                    PhotoRecord {
                        rel_path: path_str@,
                        created: info.created.deep_view(),
                        file_hash: info.file_hash@,
                    },
                )
                &&& !old(self).photos().contains_key(id.0) ==> n == 0 && final(self).photos() == old(
                    self,
                ).photos()
            },
            (old(self).photos().contains_key(id.0) && exists|k: i64|
                k != id.0 && old(self).photos().contains_key(k) && old(self).photos()[k].rel_path
                    == path_str@) ==> r is Err,
            r is Err ==> final(self).photos() == old(self).photos() && final(self).thumbs() == old(
                self,
            ).thumbs(),
    {
        let path_string = path_str.to_owned();
        let hash_vec = slice_to_vec(info.file_hash.as_bytes());
        match db::update_photo_row(&mut self.conn, id.0, &path_string, &info.created, &hash_vec) {
            Ok(n) => {
                proof {
                    if old(self).photos().contains_key(id.0) {
                        lemma_paths_unique_preserved(
                            old(self).photos(),
                            id.0,
                            PhotoRecord {
                                rel_path: path_str@,
                                created: info.created.deep_view(),
                                file_hash: info.file_hash@,
                            },
                        );
                    }
                }
                Ok(n)
            },
            Err(e) => Err(store_error(&e)),
        }
    }

    /// Fetch one photo row by id.
    pub fn get_photo(&self, id: PhotoId) -> (r: Result<Option<Photo>, ArchiveError>)
        ensures
            r matches Ok(Some(p)) ==> self.photos().contains_key(id.0) && p.id == id && p.record()
                == self.photos()[id.0],
            r matches Ok(None) ==> !self.photos().contains_key(id.0),
    {
        match db::get_photo_row(&self.conn, id.0) {
            Ok(Some(row)) => {
                match Sha256Hash::from_bytes(row.file_hash.as_slice()) {
                    Some(h) => Ok(
                        Some(
                            Photo {
                                id: PhotoId(row.id),
                                relative_path: row.rel_path,
                                info: PhotoInfo { created: row.created, file_hash: h },
                            },
                        ),
                    ),
                    None => Err(
                        ArchiveError::Store(
                            "database corrupted: photo hash is not 32 bytes".to_owned(),
                        ),
                    ),
                }
            },
            Ok(None) => Ok(None),
            Err(e) => Err(store_error(&e)),
        }
    }

    /// Look a photo up by its relative path.
    pub fn query_photo_id_by_path(&self, path_str: &str) -> (r: Result<
        Option<PhotoId>,
        ArchiveError,
    >)
        requires
            self.wf(),
        ensures
            r matches Ok(Some(id)) ==> spec_find_by_path(self.photos(), path_str@) == Some(id.0),
            r matches Ok(None) ==> spec_find_by_path(self.photos(), path_str@) is None,
    {
        let path_string = path_str.to_owned();
        match db::find_photo_id_by_path(&self.conn, &path_string) {
            Ok(Some(id)) => {
                proof {
                    let w = choose|k: i64|
                        self.photos().contains_key(k) && self.photos()[k].rel_path == path_str@;
                    assert(self.photos().contains_key(id) && self.photos()[id].rel_path
                        == path_str@);
                    assert(w == id);
                }
                Ok(Some(PhotoId(id)))
            },
            Ok(None) => Ok(None),
            Err(e) => Err(store_error(&e)),
        }
    }

    /// All photos, newest creation time first, rows without one last, ties
    /// broken by insertion order.
    pub fn query_all_photos(&self) -> (r: Result<Vec<Photo>, ArchiveError>)
        ensures
            r matches Ok(photos) ==> {
                &&& self.photos().dom().finite()
                &&& photos@.len() == self.photos().dom().len()
                &&& forall|i: int|
                    #![trigger photos@[i]]
                    0 <= i < photos@.len() ==> self.photos().contains_key(photos@[i].id.0)
                        && photos@[i].record() == self.photos()[photos@[i].id.0]
                &&& forall|i: int, j: int|
                    0 <= i < j < photos@.len() ==> photos@[i].id.0 != photos@[j].id.0
                &&& forall|k: i64|
                    #[trigger] self.photos().contains_key(k) ==> exists|i: int|
                        0 <= i < photos@.len() && photos@[i].id.0 == k
                &&& forall|i: int, j: int|
                    0 <= i < j < photos@.len() ==> listing_before(
                        photos@[i].info.created.deep_view(),
                        photos@[i].id.0,
                        photos@[j].info.created.deep_view(),
                        photos@[j].id.0,
                    )
            },
    {
        let rows = match db::all_photo_rows(&self.conn) {
            Ok(rows) => rows,
            Err(e) => {
                return Err(store_error(&e));
            },
        };
        let mut out: Vec<Photo> = Vec::new();
        let mut i: usize = 0;
        while i < rows.len()
            invariant
                self.photos().dom().finite(),
                rows@.len() == self.photos().dom().len(),
                forall|n: int|
                    #![trigger rows@[n]]
                    0 <= n < rows@.len() ==> self.photos().contains_key(rows@[n].id)
                        && rows@[n].record() == self.photos()[rows@[n].id],
                forall|n: int, m: int| 0 <= n < m < rows@.len() ==> rows@[n].id != rows@[m].id,
                forall|k: i64|
                    #[trigger] self.photos().contains_key(k) ==> exists|n: int|
                        0 <= n < rows@.len() && rows@[n].id == k,
                forall|n: int, m: int|
                    0 <= n < m < rows@.len() ==> db::listing_le(&rows@[n], &rows@[m]),
                i <= rows@.len(),
                out@.len() == i,
                forall|n: int|
                    #![trigger out@[n]]
                    0 <= n < i ==> out@[n].id.0 == rows@[n].id && out@[n].record()
                        == rows@[n].record(),
            decreases rows@.len() - i,
        {
            let row = &rows[i];
            let h = match Sha256Hash::from_bytes(row.file_hash.as_slice()) {
                Some(h) => h,
                None => {
                    return Err(
                        ArchiveError::Store(
                            "database corrupted: photo hash is not 32 bytes".to_owned(),
                        ),
                    );
                },
            };
            let created_copy: Option<String> = match &row.created {
                Some(s) => Some(s.clone()),
                None => None,
            };
            out.push(
                Photo {
                    id: PhotoId(row.id),
                    relative_path: row.rel_path.clone(),
                    info: PhotoInfo { created: created_copy, file_hash: h },
                },
            );
            i += 1;
        }
        proof {
            assert forall|k: i64| #[trigger]
                self.photos().contains_key(k) implies exists|n: int|
                0 <= n < out@.len() && out@[n].id.0 == k by {
                let n = choose|n: int| 0 <= n < rows@.len() && rows@[n].id == k;
                assert(out@[n].id.0 == k);
            }
            assert forall|n: int, m: int|
                0 <= n < m < out@.len() implies listing_before(
                out@[n].info.created.deep_view(),
                out@[n].id.0,
                out@[m].info.created.deep_view(),
                out@[m].id.0,
            ) by {
                assert(db::listing_le(&rows@[n], &rows@[m]));
                assert(out@[n].record().created == rows@[n].record().created);
                assert(out@[m].record().created == rows@[m].record().created);
            }
        }
        Ok(out)
    }

    /// The ids of all photos, in the same listing order as
    /// `query_all_photos`.
    pub fn query_all_photo_ids(&self) -> (r: Result<Vec<PhotoId>, ArchiveError>)
        ensures
            r matches Ok(ids) ==> {
                &&& self.photos().dom().finite()
                &&& ids@.len() == self.photos().dom().len()
                &&& forall|i: int|
                    0 <= i < ids@.len() ==> #[trigger] self.photos().contains_key(ids@[i].0)
                &&& forall|i: int, j: int| 0 <= i < j < ids@.len() ==> ids@[i].0 != ids@[j].0
                &&& forall|k: i64|
                    #[trigger] self.photos().contains_key(k) ==> exists|i: int|
                        0 <= i < ids@.len() && ids@[i].0 == k
                &&& forall|i: int, j: int|
                    0 <= i < j < ids@.len() ==> listing_before(
                        self.photos()[ids@[i].0].created,
                        ids@[i].0,
                        self.photos()[ids@[j].0].created,
                        ids@[j].0,
                    )
            },
    {
        let photos = match self.query_all_photos() {
            Ok(photos) => photos,
            Err(e) => {
                return Err(e);
            },
        };
        let mut ids: Vec<PhotoId> = Vec::new();
        let mut i: usize = 0;
        while i < photos.len()
            invariant
                self.photos().dom().finite(),
                photos@.len() == self.photos().dom().len(),
                forall|n: int|
                    #![trigger photos@[n]]
                    0 <= n < photos@.len() ==> self.photos().contains_key(photos@[n].id.0)
                        && photos@[n].record() == self.photos()[photos@[n].id.0],
                forall|n: int, m: int|
                    0 <= n < m < photos@.len() ==> photos@[n].id.0 != photos@[m].id.0,
                forall|k: i64|
                    #[trigger] self.photos().contains_key(k) ==> exists|n: int|
                        0 <= n < photos@.len() && photos@[n].id.0 == k,
                forall|n: int, m: int|
                    0 <= n < m < photos@.len() ==> listing_before(
                        photos@[n].info.created.deep_view(),
                        photos@[n].id.0,
                        photos@[m].info.created.deep_view(),
                        photos@[m].id.0,
                    ),
                i <= photos@.len(),
                ids@.len() == i,
                forall|n: int| #![trigger ids@[n]] 0 <= n < i ==> ids@[n] == photos@[n].id,
            decreases photos@.len() - i,
        {
            ids.push(photos[i].id);
            i += 1;
        }
        proof {
            assert forall|k: i64| #[trigger]
                self.photos().contains_key(k) implies exists|n: int|
                0 <= n < ids@.len() && ids@[n].0 == k by {
                let n = choose|n: int| 0 <= n < photos@.len() && photos@[n].id.0 == k;
                assert(ids@[n].0 == k);
            }
            assert forall|n: int, m: int|
                0 <= n < m < ids@.len() implies listing_before(
                self.photos()[ids@[n].0].created,
                ids@[n].0,
                self.photos()[ids@[m].0].created,
                ids@[m].0,
            ) by {
                assert(photos@[n].record() == self.photos()[photos@[n].id.0]);
                assert(photos@[m].record() == self.photos()[photos@[m].id.0]);
            }
        }
        Ok(ids)
    }

    /// The number of photo rows.
    pub fn query_photo_count(&self) -> (r: Result<u32, ArchiveError>)
        ensures
            r matches Ok(n) ==> self.photos().dom().finite() && n == self.photos().dom().len(),
    {
        match db::count_photo_rows(&self.conn) {
            Ok(n) => Ok(n),
            Err(e) => Err(store_error(&e)),
        }
    }

    /// Insert or replace the thumbnail row of a photo: the JPEG bytes and
    /// their digest on success, the error message of the failed attempt
    /// otherwise — always the whole row at once. Fails if the photo itself
    /// does not exist.
    pub fn insert_thumbnail(&mut self, photo_id: PhotoId, thumbnail: &Result<Thumbnail, String>) -> (r:
        Result<(), ArchiveError>)
        requires
            old(self).wf(),
        ensures
            final(self).wf(),
            final(self).photos() == old(self).photos(),
            r is Ok ==> old(self).photos().contains_key(photo_id.0),
            r is Ok ==> (thumbnail matches Ok(t) ==> final(self).thumbs() == old(self).thumbs().insert(
                photo_id.0,
                ThumbRecord::Image { bytes: t@, hash: sha256_of(t@) },
            )),
            r is Ok ==> (thumbnail matches Err(m) ==> final(self).thumbs() == old(self).thumbs().insert(
                photo_id.0,
                ThumbRecord::Failure { message: m@ },
            )),
            !old(self).photos().contains_key(photo_id.0) ==> r is Err,
            r is Err ==> final(self).thumbs() == old(self).thumbs(),
    {
        let outcome = match thumbnail {
            Ok(t) => {
                let bytes = slice_to_vec(t.as_jpg_bytes());
                let digest = Sha256Hash::hash_bytes(t.as_jpg_bytes());
                let digest_vec = slice_to_vec(digest.as_bytes());
                db::upsert_thumbnail_row(
                    &mut self.conn,
                    photo_id.0,
                    &Some(bytes),
                    &Option::<String>::None,
                    &Some(digest_vec),
                )
            },
            Err(m) => {
                db::upsert_thumbnail_row(
                    &mut self.conn,
                    photo_id.0,
                    &Option::<Vec<u8>>::None,
                    &Some(m.clone()),
                    &Option::<Vec<u8>>::None,
                )
            },
        };
        match outcome {
            Ok(()) => Ok(()),
            Err(e) => Err(store_error(&e)),
        }
    }

    /// The derived thumbnail state of a photo: `Absent` without a row,
    /// `Present` with a stored image, `Error` with a stored failure.
    pub fn query_thumbnail_state(&self, photo_id: PhotoId) -> (r: Result<
        ThumbnailState,
        ArchiveError,
    >)
        ensures
            r matches Ok(s) ==> s == spec_thumb_state(self.thumbs(), photo_id.0),
    {
        match db::thumb_state_flag(&self.conn, photo_id.0) {
            Ok(None) => Ok(ThumbnailState::Absent),
            Ok(Some(true)) => Ok(ThumbnailState::Present),
            Ok(Some(false)) => Ok(ThumbnailState::Error),
            Err(e) => Err(store_error(&e)),
        }
    }

    /// The stored thumbnail of a photo, if its state is `Present`; a row
    /// holding an error never yields bytes.
    pub fn query_thumbnail(&self, photo: PhotoId) -> (r: Result<Option<Thumbnail>, ArchiveError>)
        ensures
            r matches Ok(Some(t)) ==> spec_thumb_payload(self.thumbs(), photo.0) == Some(t@),
            r matches Ok(None) ==> spec_thumb_payload(self.thumbs(), photo.0) is None,
    {
        match db::thumb_payload_row(&self.conn, photo.0) {
            Ok(Some(bytes)) => Ok(Some(Thumbnail::from_jpg_bytes(bytes))),
            Ok(None) => Ok(None),
            Err(e) => Err(store_error(&e)),
        }
    }

    /// The stored digest of a photo's thumbnail, if its state is `Present`.
    pub fn query_thumbnail_hash(&self, photo: PhotoId) -> (r: Result<
        Option<Sha256Hash>,
        ArchiveError,
    >)
        ensures
            r matches Ok(Some(h)) ==> spec_thumb_hash(self.thumbs(), photo.0) == Some(h@) && h.wf(),
            r matches Ok(None) ==> spec_thumb_hash(self.thumbs(), photo.0) is None,
    {
        match db::thumb_hash_row(&self.conn, photo.0) {
            Ok(Some(bytes)) => {
                match Sha256Hash::from_bytes(bytes.as_slice()) {
                    Some(h) => Ok(Some(h)),
                    None => Err(
                        ArchiveError::Store(
                            "database corrupted: thumbnail hash is not 32 bytes".to_owned(),
                        ),
                    ),
                }
            },
            Ok(None) => Ok(None),
            Err(e) => Err(store_error(&e)),
        }
    }

    /// The number of thumbnail rows, failed attempts included.
    pub fn query_thumbnail_row_count(&self) -> (r: Result<u32, ArchiveError>)
        ensures
            r matches Ok(n) ==> self.thumbs().dom().finite() && n == self.thumbs().dom().len(),
    {
        match db::count_thumb_rows(&self.conn) {
            Ok(n) => Ok(n),
            Err(e) => Err(store_error(&e)),
        }
    }

    /// The number of thumbnail rows that record a failed attempt.
    pub fn query_thumbnail_failed_count(&self) -> (r: Result<u32, ArchiveError>)
        ensures
            r matches Ok(n) ==> self.thumbs().dom().finite() && n == self.thumbs().dom().filter(
                |k: i64| self.thumbs()[k] is Failure,
            ).len(),
    {
        match db::count_failed_thumb_rows(&self.conn) {
            Ok(n) => Ok(n),
            Err(e) => Err(store_error(&e)),
        }
    }

    /// One report row per stored thumbnail whose photo is indexed: the
    /// payload size and digest for an image, the message for a failed
    /// attempt, with the photo's relative path, in listing order of the
    /// photos.
    pub fn query_thumbnail_infos(&self) -> (r: Result<Vec<ThumbnailInfo>, ArchiveError>)
        ensures
            r matches Ok(infos) ==> {
                &&& forall|i: int|
                    #![trigger infos@[i]]
                    0 <= i < infos@.len() ==> {
                        &&& self.thumbs().contains_key(infos@[i].photo_id.0)
                        &&& self.photos().contains_key(infos@[i].photo_id.0)
                        &&& infos@[i].relative_path@ == self.photos()[infos@[i].photo_id.0].rel_path
                        &&& (self.thumbs()[infos@[i].photo_id.0] matches ThumbRecord::Image {
                            bytes,
                            hash,
                        } ==> (infos@[i].size_bytes matches Some(sz) && sz == bytes.len()) && (
                        infos@[i].hash matches Some(h) && h@ == hash) && infos@[i].error is None)
                        &&& (self.thumbs()[infos@[i].photo_id.0] matches ThumbRecord::Failure {
                            message,
                        } ==> infos@[i].size_bytes is None && infos@[i].hash is None && (infos@[
                            i
                        ].error matches Some(m) && m@ == message))
                    }
                &&& forall|i: int, j: int|
                    0 <= i < j < infos@.len() ==> infos@[i].photo_id.0 != infos@[j].photo_id.0
                &&& forall|k: i64|
                    #![trigger self.thumbs().contains_key(k)]
                    self.thumbs().contains_key(k) && self.photos().contains_key(k) ==> exists|
                        i: int,
                    | 0 <= i < infos@.len() && infos@[i].photo_id.0 == k
                &&& forall|i: int, j: int|
                    0 <= i < j < infos@.len() ==> listing_before(
                        self.photos()[infos@[i].photo_id.0].created,
                        infos@[i].photo_id.0,
                        self.photos()[infos@[j].photo_id.0].created,
                        infos@[j].photo_id.0,
                    )
            },
    {
        let photos = match self.query_all_photos() {
            Ok(photos) => photos,
            Err(e) => {
                return Err(e);
            },
        };
        let mut infos: Vec<ThumbnailInfo> = Vec::new();
        let mut i: usize = 0;
        while i < photos.len()
            invariant
                photos@.len() == self.photos().dom().len(),
                self.photos().dom().finite(),
                forall|n: int|
                    #![trigger photos@[n]]
                    0 <= n < photos@.len() ==> self.photos().contains_key(photos@[n].id.0)
                        && photos@[n].record() == self.photos()[photos@[n].id.0],
                forall|n: int, m: int|
                    0 <= n < m < photos@.len() ==> photos@[n].id.0 != photos@[m].id.0,
                forall|k: i64|
                    #[trigger] self.photos().contains_key(k) ==> exists|n: int|
                        0 <= n < photos@.len() && photos@[n].id.0 == k,
                forall|n: int, m: int|
                    0 <= n < m < photos@.len() ==> listing_before(
                        photos@[n].info.created.deep_view(),
                        photos@[n].id.0,
                        photos@[m].info.created.deep_view(),
                        photos@[m].id.0,
                    ),
                i <= photos@.len(),
                forall|n: int|
                    #![trigger infos@[n]]
                    0 <= n < infos@.len() ==> {
                        &&& self.thumbs().contains_key(infos@[n].photo_id.0)
                        &&& self.photos().contains_key(infos@[n].photo_id.0)
                        &&& infos@[n].relative_path@ == self.photos()[infos@[n].photo_id.0].rel_path
                        &&& (self.thumbs()[infos@[n].photo_id.0] matches ThumbRecord::Image {
                            bytes,
                            hash,
                        } ==> (infos@[n].size_bytes matches Some(sz) && sz == bytes.len()) && (
                        infos@[n].hash matches Some(h) && h@ == hash) && infos@[n].error is None)
                        &&& (self.thumbs()[infos@[n].photo_id.0] matches ThumbRecord::Failure {
                            message,
                        } ==> infos@[n].size_bytes is None && infos@[n].hash is None && (infos@[
                            n
                        ].error matches Some(m) && m@ == message))
                    },
                forall|n: int, m: int|
                    0 <= n < m < infos@.len() ==> infos@[n].photo_id.0 != infos@[m].photo_id.0,
                forall|n: int|
                    0 <= n < infos@.len() ==> exists|m: int|
                        0 <= m < i && photos@[m].id.0 == #[trigger] infos@[n].photo_id.0,
                forall|m: int|
                    0 <= m < i && self.thumbs().contains_key(#[trigger] photos@[m].id.0) ==> exists|
                        n: int,
                    | 0 <= n < infos@.len() && infos@[n].photo_id.0 == photos@[m].id.0,
                forall|n: int, m: int|
                    0 <= n < m < infos@.len() ==> listing_before(
                        self.photos()[infos@[n].photo_id.0].created,
                        infos@[n].photo_id.0,
                        self.photos()[infos@[m].photo_id.0].created,
                        infos@[m].photo_id.0,
                    ),
            decreases photos@.len() - i,
        {
            let photo = &photos[i];
            let payload = match self.query_thumbnail(photo.id) {
                Ok(t) => t,
                Err(e) => {
                    return Err(e);
                },
            };
            let failure = match self.thumbnail_error(photo.id) {
                Ok(m) => m,
                Err(e) => {
                    return Err(e);
                },
            };
            let ghost old_infos = infos@;
            match (payload, failure) {
                (Some(thumb), _) => {
                    let digest = match self.query_thumbnail_hash(photo.id) {
                        Ok(Some(h)) => h,
                        Ok(None) => unreached(),
                        Err(e) => {
                            return Err(e);
                        },
                    };
                    let bytes = thumb.into_jpg_bytes();
                    infos.push(
                        ThumbnailInfo {
                            photo_id: photo.id,
                            size_bytes: Some(bytes.len()),
                            hash: Some(digest),
                            error: None,
                            relative_path: photo.relative_path.clone(),
                        },
                    );
                },
                (None, Some(message)) => {
                    infos.push(
                        ThumbnailInfo {
                            photo_id: photo.id,
                            size_bytes: None,
                            hash: None,
                            error: Some(message),
                            relative_path: photo.relative_path.clone(),
                        },
                    );
                },
                (None, None) => {},
            }
            proof {
                assert forall|m: int|
                    0 <= m < i + 1 && self.thumbs().contains_key(
                        #[trigger] photos@[m].id.0,
                    ) implies exists|n: int|
                    0 <= n < infos@.len() && infos@[n].photo_id.0 == photos@[m].id.0 by {
                    if m < i {
                        let n = choose|n: int|
                            0 <= n < old_infos.len() && old_infos[n].photo_id.0 == photos@[m].id.0;
                        assert(infos@[n].photo_id.0 == photos@[m].id.0);
                    } else {
                        assert(infos@[infos@.len() - 1].photo_id.0 == photos@[m].id.0);
                    }
                }
                if infos@.len() > old_infos.len() {
                    assert forall|n: int|
                        #![trigger infos@[n]]
                        0 <= n < infos@.len() - 1 implies listing_before(
                        self.photos()[infos@[n].photo_id.0].created,
                        infos@[n].photo_id.0,
                        self.photos()[infos@[infos@.len() - 1].photo_id.0].created,
                        infos@[infos@.len() - 1].photo_id.0,
                    ) by {
                        let m = choose|m: int|
                            0 <= m < i && photos@[m].id.0 == infos@[n].photo_id.0;
                        assert(listing_before(
                            photos@[m].info.created.deep_view(),
                            photos@[m].id.0,
                            photos@[i as int].info.created.deep_view(),
                            photos@[i as int].id.0,
                        ));
                        assert(photos@[m].record() == self.photos()[photos@[m].id.0]);
                        assert(photos@[i as int].record() == self.photos()[photos@[
                            i as int
                        ].id.0]);
                        assert(infos@[infos@.len() - 1].photo_id.0 == photos@[i as int].id.0);
                    }
                }
            }
            i += 1;
        }
        proof {
            assert forall|k: i64|
                #[trigger] self.thumbs().contains_key(k) && self.photos().contains_key(
                    k,
                ) implies exists|n: int| 0 <= n < infos@.len() && infos@[n].photo_id.0 == k by {
                let m = choose|m: int| 0 <= m < photos@.len() && photos@[m].id.0 == k;
                assert(self.thumbs().contains_key(photos@[m].id.0));
            }
        }
        Ok(infos)
    }

    fn thumbnail_error(&self, photo: PhotoId) -> (r: Result<Option<String>, ArchiveError>)
        ensures
            r matches Ok(Some(m)) ==> self.thumbs().contains_key(photo.0) && (self.thumbs()[
                photo.0
            ] matches ThumbRecord::Failure { message } && message == m@),
            r matches Ok(None) ==> !self.thumbs().contains_key(photo.0) || self.thumbs()[photo.0]
                is Image,
    {
        match db::thumb_error_row(&self.conn, photo.0) {
            Ok(m) => Ok(m),
            Err(e) => Err(store_error(&e)),
        }
    }

    /// The total byte size of all stored thumbnail payloads.
    pub fn query_total_thumbnail_size(&self) -> (r: Result<u64, ArchiveError>)
        ensures
            r matches Ok(n) ==> self.thumbs().dom().finite() && n == db::thumb_payload_total(
                self.thumbs(),
            ),
    {
        match db::total_thumb_payload_size(&self.conn) {
            Ok(n) => Ok(n as u64),
            Err(e) => Err(store_error(&e)),
        }
    }

    /// Delete every cached thumbnail and reclaim the space. Destructive and
    /// irreversible; photo rows are untouched.
    pub fn delete_all_thumbnails(&mut self) -> (r: Result<(), ArchiveError>)
        requires
            old(self).wf(),
        ensures
            final(self).wf(),
            final(self).photos() == old(self).photos(),
            r is Ok ==> no_thumb_rows(final(self).thumbs()),
            r is Err ==> no_thumb_rows(final(self).thumbs()) || final(self).thumbs() == old(self).thumbs(),
    {
        if let Err(e) = db::delete_all_thumbnail_rows(&mut self.conn) {
            return Err(store_error(&e));
        }
        if let Err(e) = db::vacuum_database(&mut self.conn) {
            return Err(store_error(&e));
        }
        Ok(())
    }
}

} // verus!
