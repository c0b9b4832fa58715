use photo_archive::error::ArchiveError;
use photo_archive::formats::PhotoInfo;
use photo_archive::hash::Sha256Hash;
use photo_archive::photodb::{PhotoDatabase, PhotoId};
use photo_archive::schema::{PhotoDbSchema, Version};

/// A shared in-memory database reachable from several connections in this
/// process, so a test can inspect the file the store leaves behind.
fn shared_memory_db(name: &str) -> (rusqlite::Connection, String) {
    let uri = format!("file:{}?mode=memory&cache=shared", name);
    let keepalive = rusqlite::Connection::open(&uri).unwrap();
    (keepalive, uri)
}

fn info(created: Option<&str>, content: &[u8]) -> PhotoInfo {
    PhotoInfo {
        created: created.map(|c| c.to_string()),
        file_hash: Sha256Hash::hash_bytes(content),
    }
}

#[test]
fn open_creates_empty_store() {
    let db = PhotoDatabase::open_or_create(":memory:").unwrap();
    assert_eq!(db.query_photo_count().unwrap(), 0);
    assert_eq!(db.query_thumbnail_row_count().unwrap(), 0);
}

#[test]
fn upgrade_is_idempotent() {
    let mut db = PhotoDatabase::open_or_create(":memory:").unwrap();
    let id = db
        .insert_photo("a.jpg", &info(Some("2021-05-01T10:00:00+00:00"), b"a"))
        .unwrap();
    // The store is already at the latest version: a second upgrade performs
    // no migrations and leaves everything in place.
    db.upgrade().unwrap();
    assert_eq!(db.query_photo_count().unwrap(), 1);
    let photo = db.get_photo(id).unwrap().unwrap();
    assert_eq!(photo.relative_path, "a.jpg");
    db.upgrade().unwrap();
    assert_eq!(db.query_photo_count().unwrap(), 1);
}

#[test]
fn schema_versions_map_exhaustively() {
    assert_eq!(
        PhotoDbSchema::from_version(Version(0)),
        Some(PhotoDbSchema::Empty)
    );
    assert_eq!(
        PhotoDbSchema::from_version(Version(1)),
        Some(PhotoDbSchema::InitialVersion)
    );
    assert_eq!(PhotoDbSchema::from_version(Version(2)), None);
    assert_eq!(PhotoDbSchema::latest().version(), Version(1));
}

#[test]
fn insert_then_find_returns_the_inserted_id() {
    let mut db = PhotoDatabase::open_or_create(":memory:").unwrap();
    let id = db
        .insert_photo("pics/x.jpg", &info(None, b"x"))
        .unwrap();
    assert_eq!(db.query_photo_id_by_path("pics/x.jpg").unwrap(), Some(id));
    assert_eq!(db.query_photo_id_by_path("pics/other.jpg").unwrap(), None);
}

#[test]
fn inserting_the_same_path_twice_is_rejected() {
    let mut db = PhotoDatabase::open_or_create(":memory:").unwrap();
    db.insert_photo("dup.jpg", &info(None, b"1")).unwrap();
    let second = db.insert_photo("dup.jpg", &info(None, b"2"));
    assert!(matches!(second, Err(ArchiveError::Store(_))));
    assert_eq!(db.query_photo_count().unwrap(), 1);
}

#[test]
fn get_photo_round_trips_the_record() {
    let mut db = PhotoDatabase::open_or_create(":memory:").unwrap();
    let stamp = "2020-01-02T03:04:05+00:00";
    let id = db.insert_photo("p.jpg", &info(Some(stamp), b"data")).unwrap();
    let photo = db.get_photo(id).unwrap().unwrap();
    assert_eq!(photo.id, id);
    assert_eq!(photo.relative_path, "p.jpg");
    assert_eq!(photo.info.created.as_deref(), Some(stamp));
    assert_eq!(photo.info.file_hash, Sha256Hash::hash_bytes(b"data"));
    assert!(db.get_photo(PhotoId(4711)).unwrap().is_none());
}

#[test]
fn update_photo_rewrites_the_row_in_place() {
    let mut db = PhotoDatabase::open_or_create(":memory:").unwrap();
    let id = db.insert_photo("old.jpg", &info(None, b"v1")).unwrap();
    let n = db
        .update_photo(id, "new.jpg", &info(Some("2022-02-02T00:00:00+00:00"), b"v2"))
        .unwrap();
    assert_eq!(n, 1);
    let photo = db.get_photo(id).unwrap().unwrap();
    assert_eq!(photo.relative_path, "new.jpg");
    assert_eq!(photo.info.file_hash, Sha256Hash::hash_bytes(b"v2"));
    assert_eq!(db.query_photo_id_by_path("old.jpg").unwrap(), None);
    // Updating a row that does not exist affects nothing.
    let zero = db.update_photo(PhotoId(999), "x.jpg", &info(None, b"z")).unwrap();
    assert_eq!(zero, 0);
}

#[test]
fn listing_orders_newest_first_with_ties_by_insertion() {
    let mut db = PhotoDatabase::open_or_create(":memory:").unwrap();
    let c = db
        .insert_photo("c.jpg", &info(Some("2021-01-01T00:00:00+00:00"), b"c"))
        .unwrap();
    let a = db
        .insert_photo("a.jpg", &info(Some("2023-06-01T00:00:00+00:00"), b"a"))
        .unwrap();
    let b = db.insert_photo("b.jpg", &info(None, b"b")).unwrap();
    let d = db
        .insert_photo("d.jpg", &info(Some("2021-01-01T00:00:00+00:00"), b"d"))
        .unwrap();
    let listed: Vec<PhotoId> = db.query_all_photos().unwrap().iter().map(|p| p.id).collect();
    // Newest created first; equal timestamps in insertion order; no
    // timestamp last.
    assert_eq!(listed, vec![a, c, d, b]);
    assert_eq!(db.query_all_photo_ids().unwrap(), vec![a, c, d, b]);
    assert_eq!(db.query_photo_count().unwrap(), 4);
}

#[test]
fn opening_a_blank_store_migrates_it_to_the_latest_version() {
    let (keepalive, uri) = shared_memory_db("blankstore");
    let db = PhotoDatabase::open_or_create(&uri).unwrap();
    assert_eq!(db.query_photo_count().unwrap(), 0);
    let stored: u32 = keepalive
        .query_row("SELECT version FROM version", (), |row| row.get(0))
        .unwrap();
    assert_eq!(stored, 1);
    drop(db);
    // Opening again performs no further migration and leaves the version
    // unchanged.
    let again = PhotoDatabase::open_or_create(&uri).unwrap();
    assert_eq!(again.query_photo_count().unwrap(), 0);
    let stored: u32 = keepalive
        .query_row("SELECT version FROM version", (), |row| row.get(0))
        .unwrap();
    assert_eq!(stored, 1);
}

#[test]
fn a_store_from_the_future_is_rejected() {
    let (keepalive, uri) = shared_memory_db("futurestore");
    keepalive
        .execute("CREATE TABLE version(version INTEGER)", ())
        .unwrap();
    keepalive
        .execute("INSERT INTO version(version) VALUES (99)", ())
        .unwrap();
    match PhotoDatabase::open_or_create(&uri) {
        Err(ArchiveError::SchemaVersionUnknown { version }) => assert_eq!(version, Version(99)),
        Err(_) => panic!("wrong error class"),
        Ok(_) => panic!("a future schema version must be rejected"),
    }
    // The failed open wrote nothing.
    let stored: u32 = keepalive
        .query_row("SELECT version FROM version", (), |row| row.get(0))
        .unwrap();
    assert_eq!(stored, 99);
}

#[test]
fn updating_a_missing_id_to_an_occupied_path_changes_nothing() {
    let mut db = PhotoDatabase::open_or_create(":memory:").unwrap();
    let id = db.insert_photo("taken.jpg", &info(None, b"t")).unwrap();
    // The UPDATE addresses no row, so no constraint fires: zero rows change
    // and the call succeeds.
    let zero = db
        .update_photo(PhotoId(id.0 + 1), "taken.jpg", &info(None, b"u"))
        .unwrap();
    assert_eq!(zero, 0);
    assert_eq!(db.query_photo_count().unwrap(), 1);
    assert_eq!(db.query_photo_id_by_path("taken.jpg").unwrap(), Some(id));
    let photo = db.get_photo(id).unwrap().unwrap();
    assert_eq!(photo.info.file_hash, Sha256Hash::hash_bytes(b"t"));
}
