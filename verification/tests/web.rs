use photo_archive::formats::{PhotoInfo, Thumbnail};
use photo_archive::hash::Sha256Hash;
use photo_archive::http::{
    CachedReply, ErrorResponse, OriginalReply, parse_if_none_match, photo_detail,
    photo_original_reply, photo_thumbnail_reply, photos_listing,
};
use photo_archive::photodb::{PhotoDatabase, PhotoId};

fn store_with_thumbnail() -> (PhotoDatabase, PhotoId, Vec<u8>, Sha256Hash) {
    let mut db = PhotoDatabase::open_or_create(":memory:").unwrap();
    let id = db
        .insert_photo(
            "a.jpg",
            &PhotoInfo {
                created: Some("2021-07-07T07:00:00+00:00".to_string()),
                file_hash: Sha256Hash::hash_bytes(b"original bytes"),
            },
        )
        .unwrap();
    let bytes = vec![0xFFu8, 0xD8, 0xFF, 0xD9];
    db.insert_thumbnail(id, &Ok(Thumbnail::from_jpg_bytes(bytes.clone())))
        .unwrap();
    let hash = db.query_thumbnail_hash(id).unwrap().unwrap();
    (db, id, bytes, hash)
}

#[test]
fn matching_if_none_match_yields_not_modified() {
    let (db, id, _bytes, hash) = store_with_thumbnail();
    let reply = photo_thumbnail_reply(&db, id, &Some(hash)).unwrap();
    assert!(matches!(reply, CachedReply::NotModified));
}

#[test]
fn absent_or_different_tag_yields_the_payload_with_its_etag() {
    let (db, id, bytes, hash) = store_with_thumbnail();
    match photo_thumbnail_reply(&db, id, &None).unwrap() {
        CachedReply::Payload { bytes: sent, etag_hex } => {
            assert_eq!(sent, bytes);
            assert_eq!(etag_hex, hash.to_hex());
        }
        other => panic!("expected payload, got {}", reply_name(&other)),
    }
    let different = Sha256Hash::hash_bytes(b"something else");
    match photo_thumbnail_reply(&db, id, &Some(different)).unwrap() {
        CachedReply::Payload { bytes: sent, .. } => assert_eq!(sent, bytes),
        other => panic!("expected payload, got {}", reply_name(&other)),
    }
}

fn reply_name(r: &CachedReply) -> &'static str {
    match r {
        CachedReply::NotModified => "NotModified",
        CachedReply::Payload { .. } => "Payload",
        CachedReply::NotFound => "NotFound",
    }
}

#[test]
fn a_photo_without_thumbnail_is_not_found() {
    let (mut db, id, _bytes, _hash) = store_with_thumbnail();
    db.delete_all_thumbnails().unwrap();
    let reply = photo_thumbnail_reply(&db, id, &None).unwrap();
    assert!(matches!(reply, CachedReply::NotFound));
    let missing = photo_thumbnail_reply(&db, PhotoId(999), &None).unwrap();
    assert!(matches!(missing, CachedReply::NotFound));
}

#[test]
fn if_none_match_parsing_accepts_only_a_quoted_tag() {
    let digest = Sha256Hash::hash_bytes(b"etag");
    let mut header = Vec::new();
    header.push(b'"');
    header.extend_from_slice(&digest.to_hex());
    header.push(b'"');
    assert_eq!(parse_if_none_match(&header), Some(digest));
    assert_eq!(parse_if_none_match(b"\"too short\""), None);
    let unquoted = Sha256Hash::hash_bytes(b"etag").to_hex();
    assert_eq!(parse_if_none_match(&unquoted), None);
}

#[test]
fn original_reply_follows_the_stored_file_hash() {
    let (db, id, _bytes, _hash) = store_with_thumbnail();
    let file_hash = Sha256Hash::hash_bytes(b"original bytes");
    let not_modified = photo_original_reply(&db, "/root", id, &Some(file_hash.duplicate())).unwrap();
    assert!(matches!(not_modified, OriginalReply::NotModified));

    match photo_original_reply(&db, "/root", id, &None).unwrap() {
        OriginalReply::SendFile { full_path, etag_hex } => {
            assert_eq!(full_path, "/root/a.jpg");
            assert_eq!(etag_hex, file_hash.to_hex());
        }
        _ => panic!("expected a file to send"),
    }

    let missing = photo_original_reply(&db, "/root", PhotoId(999), &None).unwrap();
    assert!(matches!(missing, OriginalReply::NotFound));
}

#[test]
fn listing_and_detail_project_the_rows() {
    let (db, id, _bytes, _hash) = store_with_thumbnail();
    let objects = photos_listing(&db).unwrap();
    assert_eq!(objects.len(), 1);
    assert_eq!(objects[0].id, id);
    assert_eq!(objects[0].relative_path, "a.jpg");
    assert_eq!(
        objects[0].created.as_deref(),
        Some("2021-07-07T07:00:00+00:00")
    );

    let detail = photo_detail(&db, id).unwrap().unwrap();
    assert_eq!(detail.relative_path, "a.jpg");
    assert!(photo_detail(&db, PhotoId(999)).unwrap().is_none());
}

#[test]
fn error_response_carries_its_message() {
    let e = ErrorResponse::new("internal server error".to_string());
    assert_eq!(e.message, "internal server error");
}
