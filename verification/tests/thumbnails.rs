use photo_archive::error::ArchiveError;
use photo_archive::formats::{PhotoInfo, Thumbnail};
use photo_archive::hash::Sha256Hash;
use photo_archive::photodb::{PhotoDatabase, PhotoId, ThumbnailState};
use photo_archive::scan::InterruptToken;
use photo_archive::thumbs::{collect_generation_queue, generate_and_store, should_generate};

fn store_with_photo(path: &str) -> (PhotoDatabase, PhotoId) {
    let mut db = PhotoDatabase::open_or_create(":memory:").unwrap();
    let id = db
        .insert_photo(
            path,
            &PhotoInfo {
                created: None,
                file_hash: Sha256Hash::hash_bytes(path.as_bytes()),
            },
        )
        .unwrap();
    (db, id)
}

#[test]
fn upsert_ok_round_trips_bytes_state_and_hash() {
    let (mut db, id) = store_with_photo("a.jpg");
    assert_eq!(db.query_thumbnail_state(id).unwrap(), ThumbnailState::Absent);
    let bytes = vec![1u8, 2, 3, 4];
    db.insert_thumbnail(id, &Ok(Thumbnail::from_jpg_bytes(bytes.clone())))
        .unwrap();
    assert_eq!(db.query_thumbnail_state(id).unwrap(), ThumbnailState::Present);
    let stored = db.query_thumbnail(id).unwrap().unwrap();
    assert_eq!(stored.as_jpg_bytes(), &bytes[..]);
    let hash = db.query_thumbnail_hash(id).unwrap().unwrap();
    assert_eq!(hash, Sha256Hash::hash_bytes(&bytes));
}

#[test]
fn upsert_err_yields_error_state_and_no_bytes() {
    let (mut db, id) = store_with_photo("a.jpg");
    db.insert_thumbnail(id, &Err("decode failed".to_string())).unwrap();
    assert_eq!(db.query_thumbnail_state(id).unwrap(), ThumbnailState::Error);
    assert!(db.query_thumbnail(id).unwrap().is_none());
    assert!(db.query_thumbnail_hash(id).unwrap().is_none());
    assert_eq!(db.query_thumbnail_failed_count().unwrap(), 1);
}

#[test]
fn upsert_replaces_the_whole_row() {
    let (mut db, id) = store_with_photo("a.jpg");
    db.insert_thumbnail(id, &Err("first attempt failed".to_string()))
        .unwrap();
    db.insert_thumbnail(id, &Ok(Thumbnail::from_jpg_bytes(vec![9u8])))
        .unwrap();
    assert_eq!(db.query_thumbnail_state(id).unwrap(), ThumbnailState::Present);
    assert_eq!(db.query_thumbnail_row_count().unwrap(), 1);
    assert_eq!(db.query_thumbnail_failed_count().unwrap(), 0);
}

#[test]
fn upsert_for_unknown_photo_is_rejected() {
    let mut db = PhotoDatabase::open_or_create(":memory:").unwrap();
    let r = db.insert_thumbnail(PhotoId(12345), &Err("x".to_string()));
    assert!(matches!(r, Err(ArchiveError::Store(_))));
    assert_eq!(db.query_thumbnail_row_count().unwrap(), 0);
}

#[test]
fn delete_all_thumbnails_empties_the_table() {
    let (mut db, id) = store_with_photo("a.jpg");
    db.insert_thumbnail(id, &Ok(Thumbnail::from_jpg_bytes(vec![5u8, 6])))
        .unwrap();
    assert_eq!(db.query_thumbnail_row_count().unwrap(), 1);
    db.delete_all_thumbnails().unwrap();
    assert_eq!(db.query_thumbnail_row_count().unwrap(), 0);
    assert_eq!(db.query_thumbnail_state(id).unwrap(), ThumbnailState::Absent);
    // The photo itself stays indexed.
    assert_eq!(db.query_photo_count().unwrap(), 1);
}

#[test]
fn selection_rule_matches_the_three_states() {
    assert!(should_generate(ThumbnailState::Absent, false, false));
    assert!(!should_generate(ThumbnailState::Present, false, false));
    assert!(should_generate(ThumbnailState::Present, true, false));
    assert!(!should_generate(ThumbnailState::Error, false, false));
    assert!(should_generate(ThumbnailState::Error, false, true));
}

#[test]
fn deleted_source_file_stores_error_and_retry_selects_it() {
    let (mut db, id) = store_with_photo("gone.jpg");
    // The caller could not read the file: the message becomes the record.
    let unreadable: Result<Vec<u8>, String> =
        Err("No such file or directory (os error 2)".to_string());
    generate_and_store(&mut db, id, &unreadable, 400).unwrap();
    assert_eq!(db.query_thumbnail_state(id).unwrap(), ThumbnailState::Error);

    // A plain generation run leaves the failed photo alone...
    let token = InterruptToken::new();
    let (queue, interrupted) = collect_generation_queue(&db, false, false, &token).unwrap();
    assert!(!interrupted);
    assert!(queue.is_empty());

    // ...and a retry-failed run re-attempts exactly that photo.
    let (queue, interrupted) = collect_generation_queue(&db, false, true, &token).unwrap();
    assert!(!interrupted);
    assert_eq!(queue.len(), 1);
    assert_eq!(queue[0].id, id);
}

#[test]
fn generation_queue_respects_the_token() {
    let (db, _id) = store_with_photo("a.jpg");
    let token = InterruptToken::new();
    token.trigger();
    let (queue, interrupted) = collect_generation_queue(&db, false, false, &token).unwrap();
    assert!(interrupted);
    assert!(queue.is_empty());
}

#[test]
fn thumbnail_infos_report_images_and_failures() {
    let mut db = PhotoDatabase::open_or_create(":memory:").unwrap();
    let good = db
        .insert_photo(
            "good.jpg",
            &PhotoInfo {
                created: None,
                file_hash: Sha256Hash::hash_bytes(b"good"),
            },
        )
        .unwrap();
    let bad = db
        .insert_photo(
            "bad.jpg",
            &PhotoInfo {
                created: None,
                file_hash: Sha256Hash::hash_bytes(b"bad"),
            },
        )
        .unwrap();
    let bare = db
        .insert_photo(
            "bare.jpg",
            &PhotoInfo {
                created: None,
                file_hash: Sha256Hash::hash_bytes(b"bare"),
            },
        )
        .unwrap();
    let bytes = vec![1u8, 2, 3];
    db.insert_thumbnail(good, &Ok(Thumbnail::from_jpg_bytes(bytes.clone())))
        .unwrap();
    db.insert_thumbnail(bad, &Err("boom".to_string())).unwrap();

    let infos = db.query_thumbnail_infos().unwrap();
    assert_eq!(infos.len(), 2);
    assert!(infos.iter().all(|i| i.photo_id != bare));
    let good_info = infos.iter().find(|i| i.photo_id == good).unwrap();
    assert_eq!(good_info.size_bytes, Some(3));
    assert_eq!(good_info.hash.as_ref(), Some(&Sha256Hash::hash_bytes(&bytes)));
    assert!(good_info.error.is_none());
    assert_eq!(good_info.relative_path, "good.jpg");
    let bad_info = infos.iter().find(|i| i.photo_id == bad).unwrap();
    assert!(bad_info.size_bytes.is_none());
    assert!(bad_info.hash.is_none());
    assert_eq!(bad_info.error.as_deref(), Some("boom"));
}

#[test]
fn total_thumbnail_size_sums_the_stored_payloads() {
    let mut db = PhotoDatabase::open_or_create(":memory:").unwrap();
    assert_eq!(db.query_total_thumbnail_size().unwrap(), 0);
    let (paths, sizes) = (["one.jpg", "two.jpg"], [3usize, 5usize]);
    for (path, size) in paths.iter().zip(sizes.iter()) {
        let id = db
            .insert_photo(
                path,
                &PhotoInfo {
                    created: None,
                    file_hash: Sha256Hash::hash_bytes(path.as_bytes()),
                },
            )
            .unwrap();
        db.insert_thumbnail(id, &Ok(Thumbnail::from_jpg_bytes(vec![7u8; *size])))
            .unwrap();
    }
    let failed = db
        .insert_photo(
            "failed.jpg",
            &PhotoInfo {
                created: None,
                file_hash: Sha256Hash::hash_bytes(b"failed"),
            },
        )
        .unwrap();
    db.insert_thumbnail(failed, &Err("boom".to_string())).unwrap();
    // Failed attempts store no payload and contribute nothing.
    assert_eq!(db.query_total_thumbnail_size().unwrap(), 8);
}
