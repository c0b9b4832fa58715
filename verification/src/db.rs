//! The trusted boundary to SQLite.
//!
//! The photo database is a single SQLite file with three tables: a one-row
//! `version` table, `photos` and `thumbnails`. Verified code never touches
//! SQL directly; each statement the engine runs stands behind exactly one
//! wrapper here, whose contract states over the three abstract table views
//! (`stored_version`, `photo_table`, `thumb_table`) what the statement does
//! according to SQLite's documented semantics. Everything above this module
//! is proved against these contracts.
//!
//! The contracts describe a database file that is laid out as this library's
//! own migrations create it: in particular, a file reporting schema version 1
//! is assumed to carry the `UNIQUE` index on `photos.rel_path`, the
//! `thumbnails` check constraints, and the foreign key from `thumbnails` to
//! `photos`, since the version-1 migration creates exactly those.

use vstd::prelude::*;

verus! {

#[verifier::external_type_specification]
#[verifier::external_body]
pub struct ExConnection(rusqlite::Connection);

#[verifier::external_type_specification]
#[verifier::external_body]
pub struct ExSqliteError(rusqlite::Error);

/// A row of the `photos` table, as the contracts see it.
pub ghost struct PhotoRecord {
    /// Path of the photo file relative to the library root; unique per row.
    pub rel_path: Seq<char>,
    /// Creation time in RFC 3339 form, or `None` when no source for it exists.
    pub created: Option<Seq<char>>,
    /// SHA-256 digest of the photo file's full contents.
    pub file_hash: Seq<u8>,
}

/// A row of the `thumbnails` table: either the JPEG payload with its digest,
/// or the message of the failed generation attempt — never both.
pub ghost enum ThumbRecord {
    Image { bytes: Seq<u8>, hash: Seq<u8> },
    Failure { message: Seq<char> },
}

/// The single row of the `version` table, or `None` when the table is empty
/// or absent.
pub uninterp spec fn stored_version(conn: rusqlite::Connection) -> Option<u32>;

/// The contents of the `photos` table, keyed by rowid.
pub uninterp spec fn photo_table(conn: rusqlite::Connection) -> Map<i64, PhotoRecord>;

/// The contents of the `thumbnails` table, keyed by the photo's rowid.
pub uninterp spec fn thumb_table(conn: rusqlite::Connection) -> Map<i64, ThumbRecord>;

/// An empty photos table.
pub open spec fn no_photo_rows(m: Map<i64, PhotoRecord>) -> bool {
    m == Map::<i64, PhotoRecord>::empty()
}

/// An empty thumbnails table.
pub open spec fn no_thumb_rows(m: Map<i64, ThumbRecord>) -> bool {
    m == Map::<i64, ThumbRecord>::empty()
}

/// The stored size of one thumbnail row: the payload length for an image,
/// nothing for a failed attempt.
pub open spec fn thumb_entry_size(entry: ThumbRecord) -> int {
    match entry {
        ThumbRecord::Image { bytes, .. } => bytes.len() as int,
        ThumbRecord::Failure { .. } => 0,
    }
}

/// The total byte size of all stored thumbnail payloads of a table.
pub open spec fn thumb_payload_total(m: Map<i64, ThumbRecord>) -> int
    decreases m.dom().len() when m.dom().finite()
{
    if !m.dom().finite() || m.dom().len() == 0 {
        0
    } else {
        let k = m.dom().choose();
        thumb_entry_size(m[k]) + thumb_payload_total(m.remove(k))
    }
}

/// No two rows of a photo table share a relative path.
pub open spec fn paths_unique(m: Map<i64, PhotoRecord>) -> bool {
    forall|k1: i64, k2: i64|
        m.contains_key(k1) && m.contains_key(k2) && m[k1].rel_path == m[k2].rel_path ==> k1 == k2
}

/// A row of `photos` as SQLite hands it back, before validation.
pub(crate) struct PhotoRow {
    pub id: i64,
    pub rel_path: String,
    pub created: Option<String>,
    pub file_hash: Vec<u8>,
}

impl PhotoRow {
    /// The abstract record this raw row stands for.
    pub(crate) open spec fn record(&self) -> PhotoRecord {
        PhotoRecord {
            rel_path: self.rel_path@,
            created: self.created.deep_view(),
            file_hash: self.file_hash@,
        }
    }
}

/// Ordering of the photo listing: newest creation time first (comparing the
/// RFC 3339 strings, which for a fixed UTC offset orders chronologically),
/// rows without a creation time last, ties broken by ascending id, which is
/// insertion order.
pub open spec fn listing_before(
    ca: Option<Seq<char>>,
    ia: i64,
    cb: Option<Seq<char>>,
    ib: i64,
) -> bool {
    match (ca, cb) {
        (Option::Some(sa), Option::Some(sb)) => lex_lt(sb, sa) || (sa == sb && ia <= ib),
        (Option::Some(_), Option::None) => true,
        (Option::None, Option::Some(_)) => false,
        (Option::None, Option::None) => ia <= ib,
    }
}

/// `listing_before` applied to two raw rows.
pub(crate) open spec fn listing_le(a: &PhotoRow, b: &PhotoRow) -> bool {
    listing_before(a.created.deep_view(), a.id, b.created.deep_view(), b.id)
}

/// Strict lexicographic order on character sequences by scalar value; on the
/// ASCII text stored in the `created` column this agrees with SQLite's binary
/// collation of the column's UTF-8 bytes.
pub open spec fn lex_lt(a: Seq<char>, b: Seq<char>) -> bool
    decreases a.len(),
{
    if b.len() == 0 {
        false
    } else if a.len() == 0 {
        true
    } else if a[0] != b[0] {
        (a[0] as u32) < (b[0] as u32)
    } else {
        lex_lt(a.drop_first(), b.drop_first())
    }
}

/// Relies on rusqlite::Error's Display impl for the human-readable message.
#[verifier::external_body]
pub(crate) fn sqlite_error_message(e: &rusqlite::Error) -> (r: String) {
    format!("{}", e)
}

/// Relies on rusqlite::Connection::open (creating the file if absent) and on
/// `PRAGMA foreign_keys = ON`, which makes SQLite enforce the declared
/// foreign keys for this connection. A database file already at schema
/// version 1 carries the `UNIQUE` index on `photos.rel_path`, so its photo
/// rows have pairwise distinct paths.
#[verifier::external_body]
pub(crate) fn open_database(path: &str) -> (r: Result<rusqlite::Connection, rusqlite::Error>)
    ensures
        r matches Ok(conn) ==> (stored_version(conn) == Some(1u32) ==> paths_unique(
            photo_table(conn),
        )),
{
    let conn = rusqlite::Connection::open(path)?;
    conn.execute("PRAGMA foreign_keys = ON", ())?;
    Ok(conn)
}

/// Relies on `CREATE TABLE IF NOT EXISTS`: creating the (possibly empty)
/// `version` table changes none of the three table views.
#[verifier::external_body]
pub(crate) fn init_version_table(conn: &mut rusqlite::Connection) -> (r: Result<
    (),
    rusqlite::Error,
>)
    ensures
        stored_version(*final(conn)) == stored_version(*old(conn)),
        photo_table(*final(conn)) == photo_table(*old(conn)),
        thumb_table(*final(conn)) == thumb_table(*old(conn)),
{
    conn.execute("CREATE TABLE IF NOT EXISTS version(version INTEGER)", ())?;
    Ok(())
}

/// Relies on a `SELECT` from the one-row `version` table: returns the stored
/// version, or `None` when the table is empty.
#[verifier::external_body]
pub(crate) fn read_version(conn: &rusqlite::Connection) -> (r: Result<Option<u32>, rusqlite::Error>)
    ensures
        r matches Ok(v) ==> v == stored_version(*conn),
{
    let mut stmt = conn.prepare("SELECT version FROM version")?;
    let mut rows = stmt.query(())?;
    match rows.next()? {
        Some(row) => Ok(Some(row.get(0)?)),
        None => Ok(None),
    }
}

/// Relies on `INSERT` into the empty `version` table: afterwards the stored
/// version is 0; the other tables are untouched.
#[verifier::external_body]
pub(crate) fn write_initial_version(conn: &mut rusqlite::Connection) -> (r: Result<
    (),
    rusqlite::Error,
>)
    requires
        stored_version(*old(conn)) is None,
    ensures
        r is Ok ==> stored_version(*final(conn)) == Some(0u32),
        r is Err ==> stored_version(*final(conn)) == stored_version(*old(conn)),
        photo_table(*final(conn)) == photo_table(*old(conn)),
        thumb_table(*final(conn)) == thumb_table(*old(conn)),
{
    conn.execute("INSERT INTO version(version) VALUES (0)", ())?;
    Ok(())
}

/// Relies on rusqlite transactions: the version-1 migration creates the empty
/// `photos` and `thumbnails` tables and advances the stored version to 1 in
/// one transaction; on failure the transaction rolls back when dropped and
/// the database is unchanged.
#[verifier::external_body]
pub(crate) fn migrate_to_initial_version(conn: &mut rusqlite::Connection) -> (r: Result<
    (),
    rusqlite::Error,
>)
    requires
        stored_version(*old(conn)) == Some(0u32),
    ensures
        r is Ok ==> stored_version(*final(conn)) == Some(1u32) && no_photo_rows(
            photo_table(*final(conn)),
        ) && no_thumb_rows(thumb_table(*final(conn))),
        r is Err ==> stored_version(*final(conn)) == stored_version(*old(conn)) && photo_table(
            *final(conn),
        ) == photo_table(*old(conn)) && thumb_table(*final(conn)) == thumb_table(*old(conn)),
{
    let tx = conn.transaction()?;
    tx.execute(
        "CREATE TABLE photos(id INTEGER PRIMARY KEY, rel_path TEXT NOT NULL, created TEXT, file_hash BLOB NOT NULL)",
        (),
    )?;
    tx.execute("CREATE UNIQUE INDEX photos_rel_path_index ON photos(rel_path)", ())?;
    tx.execute(
        "CREATE TABLE thumbnails(photo_id INTEGER PRIMARY KEY REFERENCES photos(id) ON DELETE CASCADE, thumbnail BLOB, error TEXT, hash BLOB, CONSTRAINT thumbnails_present_xor_error CHECK ((thumbnail IS NOT NULL) = (error IS NULL)), CONSTRAINT thumbnails_present_equiv_hash CHECK ((thumbnail IS NOT NULL) = (hash IS NOT NULL)))",
        (),
    )?;
    tx.execute("UPDATE version SET version = 1", ())?;
    tx.commit()
}

/// Relies on `INSERT` under the `UNIQUE` index on `rel_path` and on SQLite's
/// rowid assignment: a fresh row gets a positive rowid strictly greater than
/// every rowid in use, and the insert fails on a duplicate path, leaving the
/// table unchanged. SQLite picks rowids this way as long as the largest one
/// in use is below its maximum; a photos table can never practically reach
/// it, since rows are only ever added one at a time.
#[verifier::external_body]
pub(crate) fn insert_photo_row(
    conn: &mut rusqlite::Connection,
    rel_path: &String,
    created: &Option<String>,
    file_hash: &Vec<u8>,
) -> (r: Result<i64, rusqlite::Error>)
    ensures
        r matches Ok(id) ==> {
            &&& !photo_table(*old(conn)).contains_key(id)
            &&& id >= 1
            &&& forall|k: i64| photo_table(*old(conn)).contains_key(k) ==> k < id
            &&& forall|k: i64|
                photo_table(*old(conn)).contains_key(k) ==> photo_table(*old(conn))[k].rel_path
                    != rel_path@
            &&& photo_table(*final(conn)) == photo_table(*old(conn)).insert(
                id,
                PhotoRecord {
                    rel_path: rel_path@,
                    created: created.deep_view(),
                    file_hash: file_hash@,
                },
            )
        },
        (exists|k: i64|
            photo_table(*old(conn)).contains_key(k) && photo_table(*old(conn))[k].rel_path
                == rel_path@) ==> r is Err,
        r is Err ==> photo_table(*final(conn)) == photo_table(*old(conn)),
        stored_version(*final(conn)) == stored_version(*old(conn)),
        thumb_table(*final(conn)) == thumb_table(*old(conn)),
{
    conn.execute(
        "INSERT INTO photos(rel_path, created, file_hash) VALUES (?1, ?2, ?3)",
        (rel_path, created, file_hash),
    )?;
    Ok(conn.last_insert_rowid())
}

/// Relies on `UPDATE ... WHERE id = ?`: rewrites exactly the addressed row if
/// it exists (returning the number of affected rows), and fails under the
/// `UNIQUE` index when the addressed row exists and the new path belongs to
/// a different row. An id matching no row changes nothing and succeeds with
/// a count of zero — no constraint is ever evaluated for it.
#[verifier::external_body]
pub(crate) fn update_photo_row(
    conn: &mut rusqlite::Connection,
    id: i64,
    rel_path: &String,
    created: &Option<String>,
    file_hash: &Vec<u8>,
) -> (r: Result<usize, rusqlite::Error>)
    ensures
        r matches Ok(n) ==> {
            &&& photo_table(*old(conn)).contains_key(id) ==> n == 1 && photo_table(*final(conn))
                == photo_table(*old(conn)).insert(
                id,
                PhotoRecord {
                    rel_path: rel_path@,
                    created: created.deep_view(),
                    file_hash: file_hash@,
                },
            )
            &&& !photo_table(*old(conn)).contains_key(id) ==> n == 0 && photo_table(*final(conn))
                == photo_table(*old(conn))
        },
        (photo_table(*old(conn)).contains_key(id) && exists|k: i64|
            k != id && photo_table(*old(conn)).contains_key(k) && photo_table(*old(conn))[k].rel_path
                == rel_path@) ==> r is Err,
        r is Err ==> photo_table(*final(conn)) == photo_table(*old(conn)),
        stored_version(*final(conn)) == stored_version(*old(conn)),
        thumb_table(*final(conn)) == thumb_table(*old(conn)),
{
    let n = conn.execute(
        "UPDATE photos SET rel_path = ?1, created = ?2, file_hash = ?3 WHERE id = ?4",
        (rel_path, created, file_hash, id),
    )?;
    Ok(n)
}

/// Relies on `SELECT ... WHERE id = ?`: returns the addressed row exactly as
/// stored, or `None` when no such row exists.
#[verifier::external_body]
pub(crate) fn get_photo_row(conn: &rusqlite::Connection, id: i64) -> (r: Result<
    Option<PhotoRow>,
    rusqlite::Error,
>)
    ensures
        r matches Ok(Some(row)) ==> photo_table(*conn).contains_key(id) && row.id == id
            && row.record() == photo_table(*conn)[id],
        r matches Ok(None) ==> !photo_table(*conn).contains_key(id),
{
    let mut stmt = conn.prepare("SELECT id, rel_path, created, file_hash FROM photos WHERE id = ?1")?;
    let mut rows = stmt.query((id,))?;
    match rows.next()? {
        Some(row) => Ok(Some(PhotoRow {
            id: row.get(0)?,
            rel_path: row.get(1)?,
            created: row.get(2)?,
            file_hash: row.get(3)?,
        })),
        None => Ok(None),
    }
}

/// Relies on `SELECT id ... WHERE rel_path = ?`: returns the id of the row
/// with that path, or `None` when no row has it.
#[verifier::external_body]
pub(crate) fn find_photo_id_by_path(conn: &rusqlite::Connection, rel_path: &String) -> (r: Result<
    Option<i64>,
    rusqlite::Error,
>)
    ensures
        r matches Ok(Some(id)) ==> photo_table(*conn).contains_key(id) && photo_table(
            *conn,
        )[id].rel_path == rel_path@,
        r matches Ok(None) ==> forall|k: i64|
            photo_table(*conn).contains_key(k) ==> photo_table(*conn)[k].rel_path != rel_path@,
{
    let mut stmt = conn.prepare("SELECT id FROM photos WHERE rel_path = ?1")?;
    let mut rows = stmt.query((rel_path,))?;
    match rows.next()? {
        Some(row) => Ok(Some(row.get(0)?)),
        None => Ok(None),
    }
}

/// Relies on `SELECT ... ORDER BY created DESC, id ASC` under SQLite's binary
/// collation of TEXT (`NULL`s last in a descending order): returns every row
/// of `photos` exactly once, sorted as `listing_le` describes.
#[verifier::external_body]
pub(crate) fn all_photo_rows(conn: &rusqlite::Connection) -> (r: Result<
    Vec<PhotoRow>,
    rusqlite::Error,
>)
    ensures
        r matches Ok(rows) ==> {
            &&& photo_table(*conn).dom().finite()
            &&& rows@.len() == photo_table(*conn).dom().len()
            &&& forall|i: int|
                #![trigger rows@[i]]
                0 <= i < rows@.len() ==> photo_table(*conn).contains_key(rows@[i].id)
                    && rows@[i].record() == photo_table(*conn)[rows@[i].id]
            &&& forall|i: int, j: int|
                0 <= i < j < rows@.len() ==> rows@[i].id != rows@[j].id
            &&& forall|k: i64|
                #[trigger] photo_table(*conn).contains_key(k) ==> exists|i: int|
                    0 <= i < rows@.len() && rows@[i].id == k
            &&& forall|i: int, j: int|
                0 <= i < j < rows@.len() ==> listing_le(&rows@[i], &rows@[j])
        },
{
    let mut stmt = conn.prepare(
        "SELECT id, rel_path, created, file_hash FROM photos ORDER BY created DESC, id ASC",
    )?;
    let mut rows = stmt.query(())?;
    let mut out = Vec::new();
    while let Some(row) = rows.next()? {
        out.push(PhotoRow {
            id: row.get(0)?,
            rel_path: row.get(1)?,
            created: row.get(2)?,
            file_hash: row.get(3)?,
        });
    }
    Ok(out)
}

/// Relies on `SELECT COUNT(*)`: the number of rows of `photos`.
#[verifier::external_body]
pub(crate) fn count_photo_rows(conn: &rusqlite::Connection) -> (r: Result<u32, rusqlite::Error>)
    ensures
        r matches Ok(n) ==> photo_table(*conn).dom().finite() && n == photo_table(
            *conn,
        ).dom().len(),
{
    let mut stmt = conn.prepare("SELECT COUNT(*) FROM photos")?;
    let mut rows = stmt.query(())?;
    match rows.next()? {
        Some(row) => Ok(row.get(0)?),
        None => Err(rusqlite::Error::QueryReturnedNoRows),
    }
}

/// The thumbnail row that an upsert with these column values leaves behind.
pub open spec fn upsert_entry(
    thumbnail: Option<Vec<u8>>,
    error: Option<String>,
    hash: Option<Vec<u8>>,
) -> ThumbRecord {
    match thumbnail {
        Option::Some(b) => ThumbRecord::Image {
            bytes: b@,
            hash: match hash {
                Option::Some(h) => h@,
                Option::None => Seq::empty(),
            },
        },
        Option::None => ThumbRecord::Failure {
            message: match error {
                Option::Some(m) => m@,
                Option::None => Seq::empty(),
            },
        },
    }
}

/// Relies on `INSERT ... ON CONFLICT (photo_id) DO UPDATE`: replaces the
/// whole thumbnail row for the photo in one statement, and fails under the
/// foreign key when the photo does not exist, leaving the table unchanged.
#[verifier::external_body]
pub(crate) fn upsert_thumbnail_row(
    conn: &mut rusqlite::Connection,
    photo_id: i64,
    thumbnail: &Option<Vec<u8>>,
    error: &Option<String>,
    hash: &Option<Vec<u8>>,
) -> (r: Result<(), rusqlite::Error>)
    requires
        ((*thumbnail) is Some) <==> ((*error) is None),
        ((*thumbnail) is Some) <==> ((*hash) is Some),
    ensures
        r is Ok ==> photo_table(*old(conn)).contains_key(photo_id) && thumb_table(*final(conn))
            == thumb_table(*old(conn)).insert(photo_id, upsert_entry(*thumbnail, *error, *hash)),
        !photo_table(*old(conn)).contains_key(photo_id) ==> r is Err,
        r is Err ==> thumb_table(*final(conn)) == thumb_table(*old(conn)),
        photo_table(*final(conn)) == photo_table(*old(conn)),
        stored_version(*final(conn)) == stored_version(*old(conn)),
{
    conn.execute(
        "INSERT INTO thumbnails(photo_id, thumbnail, error, hash) VALUES (?1, ?2, ?3, ?4) ON CONFLICT (photo_id) DO UPDATE SET thumbnail=?2, error=?3, hash=?4",
        (photo_id, thumbnail, error, hash),
    )?;
    Ok(())
}

/// Relies on `SELECT thumbnail IS NOT NULL ... WHERE photo_id = ?`: `None`
/// when no row exists, `Some(true)` when the row holds a payload,
/// `Some(false)` when it holds an error.
#[verifier::external_body]
pub(crate) fn thumb_state_flag(conn: &rusqlite::Connection, photo_id: i64) -> (r: Result<
    Option<bool>,
    rusqlite::Error,
>)
    ensures
        r matches Ok(None) ==> !thumb_table(*conn).contains_key(photo_id),
        r matches Ok(Some(true)) ==> thumb_table(*conn).contains_key(photo_id) && thumb_table(
            *conn,
        )[photo_id] is Image,
        r matches Ok(Some(false)) ==> thumb_table(*conn).contains_key(photo_id) && thumb_table(
            *conn,
        )[photo_id] is Failure,
{
    let mut stmt = conn.prepare("SELECT thumbnail IS NOT NULL FROM thumbnails WHERE photo_id = ?1")?;
    let mut rows = stmt.query((photo_id,))?;
    match rows.next()? {
        Some(row) => Ok(Some(row.get(0)?)),
        None => Ok(None),
    }
}

/// Relies on `SELECT thumbnail ... WHERE photo_id = ? AND thumbnail IS NOT
/// NULL`: the stored payload bytes, or `None` when the row is missing or
/// holds an error.
#[verifier::external_body]
pub(crate) fn thumb_payload_row(conn: &rusqlite::Connection, photo_id: i64) -> (r: Result<
    Option<Vec<u8>>,
    rusqlite::Error,
>)
    ensures
        r matches Ok(Some(bytes)) ==> thumb_table(*conn).contains_key(photo_id) && (thumb_table(
            *conn,
        )[photo_id] matches ThumbRecord::Image { bytes: b, .. } && b == bytes@),
        r matches Ok(None) ==> !thumb_table(*conn).contains_key(photo_id) || thumb_table(
            *conn,
        )[photo_id] is Failure,
{
    let mut stmt = conn.prepare(
        "SELECT thumbnail FROM thumbnails WHERE photo_id = ?1 AND thumbnail IS NOT NULL",
    )?;
    let mut rows = stmt.query((photo_id,))?;
    match rows.next()? {
        Some(row) => Ok(Some(row.get(0)?)),
        None => Ok(None),
    }
}

/// Relies on `SELECT hash ... WHERE photo_id = ? AND hash IS NOT NULL`: the
/// stored digest bytes, or `None` when the row is missing or holds an error.
#[verifier::external_body]
pub(crate) fn thumb_hash_row(conn: &rusqlite::Connection, photo_id: i64) -> (r: Result<
    Option<Vec<u8>>,
    rusqlite::Error,
>)
    ensures
        r matches Ok(Some(h)) ==> thumb_table(*conn).contains_key(photo_id) && (thumb_table(
            *conn,
        )[photo_id] matches ThumbRecord::Image { hash: hh, .. } && hh == h@),
        r matches Ok(None) ==> !thumb_table(*conn).contains_key(photo_id) || thumb_table(
            *conn,
        )[photo_id] is Failure,
{
    let mut stmt = conn.prepare(
        "SELECT hash FROM thumbnails WHERE photo_id = ?1 AND hash IS NOT NULL",
    )?;
    let mut rows = stmt.query((photo_id,))?;
    match rows.next()? {
        Some(row) => Ok(Some(row.get(0)?)),
        None => Ok(None),
    }
}

/// Relies on `SELECT error ... WHERE photo_id = ? AND error IS NOT NULL`:
/// the stored failure message, or `None` when the row is missing or holds a
/// payload.
#[verifier::external_body]
pub(crate) fn thumb_error_row(conn: &rusqlite::Connection, photo_id: i64) -> (r: Result<
    Option<String>,
    rusqlite::Error,
>)
    ensures
        r matches Ok(Some(m)) ==> thumb_table(*conn).contains_key(photo_id) && (thumb_table(
            *conn,
        )[photo_id] matches ThumbRecord::Failure { message } && message == m@),
        r matches Ok(None) ==> !thumb_table(*conn).contains_key(photo_id) || thumb_table(
            *conn,
        )[photo_id] is Image,
{
    let mut stmt = conn.prepare(
        "SELECT error FROM thumbnails WHERE photo_id = ?1 AND error IS NOT NULL",
    )?;
    let mut rows = stmt.query((photo_id,))?;
    match rows.next()? {
        Some(row) => Ok(Some(row.get(0)?)),
        None => Ok(None),
    }
}

/// Relies on `SELECT COUNT(*)`: the number of rows of `thumbnails`.
#[verifier::external_body]
pub(crate) fn count_thumb_rows(conn: &rusqlite::Connection) -> (r: Result<u32, rusqlite::Error>)
    ensures
        r matches Ok(n) ==> thumb_table(*conn).dom().finite() && n == thumb_table(
            *conn,
        ).dom().len(),
{
    let mut stmt = conn.prepare("SELECT COUNT(*) FROM thumbnails")?;
    let mut rows = stmt.query(())?;
    match rows.next()? {
        Some(row) => Ok(row.get(0)?),
        None => Err(rusqlite::Error::QueryReturnedNoRows),
    }
}

/// Relies on `SELECT COUNT(*) ... WHERE error IS NOT NULL`: the number of
/// thumbnail rows that record a failed generation attempt.
#[verifier::external_body]
pub(crate) fn count_failed_thumb_rows(conn: &rusqlite::Connection) -> (r: Result<
    u32,
    rusqlite::Error,
>)
    ensures
        r matches Ok(n) ==> thumb_table(*conn).dom().finite() && n == thumb_table(
            *conn,
        ).dom().filter(|k: i64| thumb_table(*conn)[k] is Failure).len(),
{
    let mut stmt = conn.prepare("SELECT COUNT(*) FROM thumbnails WHERE error IS NOT NULL")?;
    let mut rows = stmt.query(())?;
    match rows.next()? {
        Some(row) => Ok(row.get(0)?),
        None => Err(rusqlite::Error::QueryReturnedNoRows),
    }
}

/// Relies on `SELECT COALESCE(SUM(LENGTH(thumbnail)), 0) FROM thumbnails`:
/// the total byte size of all stored thumbnail payloads (`LENGTH` of a NULL
/// payload is NULL and contributes nothing to the sum).
#[verifier::external_body]
pub(crate) fn total_thumb_payload_size(conn: &rusqlite::Connection) -> (r: Result<
    i64,
    rusqlite::Error,
>)
    ensures
        r matches Ok(n) ==> thumb_table(*conn).dom().finite() && n >= 0 && n
            == thumb_payload_total(thumb_table(*conn)),
{
    let mut stmt = conn.prepare("SELECT COALESCE(SUM(LENGTH(thumbnail)), 0) FROM thumbnails")?;
    let mut rows = stmt.query(())?;
    match rows.next()? {
        Some(row) => Ok(row.get(0)?),
        None => Err(rusqlite::Error::QueryReturnedNoRows),
    }
}

/// Relies on `DELETE FROM thumbnails`: removes every thumbnail row; on
/// failure the single statement changes nothing.
#[verifier::external_body]
pub(crate) fn delete_all_thumbnail_rows(conn: &mut rusqlite::Connection) -> (r: Result<
    (),
    rusqlite::Error,
>)
    ensures
        r is Ok ==> no_thumb_rows(thumb_table(*final(conn))),
        r is Err ==> thumb_table(*final(conn)) == thumb_table(*old(conn)),
        photo_table(*final(conn)) == photo_table(*old(conn)),
        stored_version(*final(conn)) == stored_version(*old(conn)),
{
    conn.execute("DELETE FROM thumbnails", ())?;
    Ok(())
}

/// Relies on `VACUUM`: reclaims the space of deleted rows and changes no
/// table contents.
#[verifier::external_body]
pub(crate) fn vacuum_database(conn: &mut rusqlite::Connection) -> (r: Result<(), rusqlite::Error>)
    ensures
        stored_version(*final(conn)) == stored_version(*old(conn)),
        photo_table(*final(conn)) == photo_table(*old(conn)),
        thumb_table(*final(conn)) == thumb_table(*old(conn)),
{
    conn.execute("VACUUM", ())?;
    Ok(())
}

} // verus!
