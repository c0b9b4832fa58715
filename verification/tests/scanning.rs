use photo_archive::error::ArchiveError;
use photo_archive::formats::{JpegFormat, PhotoInfo};
use photo_archive::hash::Sha256Hash;
use photo_archive::photodb::PhotoDatabase;
use photo_archive::scan::{InterruptToken, LibraryFiles, PhotoPath, ScanPipeline, is_hidden_name};

fn info(content: &[u8]) -> PhotoInfo {
    PhotoInfo {
        created: None,
        file_hash: Sha256Hash::hash_bytes(content),
    }
}

#[test]
fn library_files_carry_the_database_path() {
    let files = LibraryFiles::new("/photos");
    assert_eq!(files.root_dir, "/photos");
    assert_eq!(files.photo_db_file, "/photos/photos.db");
    let slashed = LibraryFiles::new("/photos/");
    assert_eq!(slashed.photo_db_file, "/photos/photos.db");
}

#[test]
fn photo_path_from_absolute_strips_the_root() {
    let p = PhotoPath::from_absolute("/photos", "/photos/2020/a.jpg").unwrap();
    assert_eq!(p.relative_path, "2020/a.jpg");
    assert_eq!(p.full_path, "/photos/2020/a.jpg");

    let slashed = PhotoPath::from_absolute("/photos/", "/photos/b.jpg").unwrap();
    assert_eq!(slashed.relative_path, "b.jpg");

    let outside = PhotoPath::from_absolute("/photos", "/movies/c.jpg");
    assert!(matches!(outside, Err(ArchiveError::Io(_))));

    // A sibling directory sharing the prefix is not under the root.
    let sibling = PhotoPath::from_absolute("/photos", "/photosbackup/d.jpg");
    assert!(matches!(sibling, Err(ArchiveError::Io(_))));
}

#[test]
fn photo_path_from_relative_joins_the_root() {
    let p = PhotoPath::from_relative("/photos", "x/y.jpg");
    assert_eq!(p.full_path, "/photos/x/y.jpg");
    assert_eq!(p.relative_path, "x/y.jpg");
}

#[test]
fn supported_extensions_are_the_four_jpeg_spellings() {
    let format = JpegFormat;
    assert!(format.supported_extension("a.jpg"));
    assert!(format.supported_extension("b.JPG"));
    assert!(format.supported_extension("c.jpeg"));
    assert!(format.supported_extension("d.JPEG"));
    assert!(!format.supported_extension("e.png"));
    assert!(!format.supported_extension("f.jpg.bak"));
    assert!(!format.supported_extension("g.Jpeg"));
}

#[test]
fn rescanning_an_unchanged_file_is_skipped_not_added() {
    let mut db = PhotoDatabase::open_or_create(":memory:").unwrap();
    let mut first = ScanPipeline::new();
    first
        .collect_file(&db, "/root", false, "/root/a.jpg")
        .unwrap();
    assert!(first.has_pending());
    first.process_next(&mut db, &Ok(info(b"a"))).unwrap();
    let outcome = first.outcome(false);
    assert_eq!(outcome.added, 1);
    assert_eq!(outcome.skipped, 0);

    // The second scan sees the same file already indexed.
    let mut second = ScanPipeline::new();
    second
        .collect_file(&db, "/root", false, "/root/a.jpg")
        .unwrap();
    assert!(!second.has_pending());
    let outcome = second.outcome(false);
    assert_eq!(outcome.total, 1);
    assert_eq!(outcome.skipped, 1);
    assert_eq!(outcome.added, 0);
    assert_eq!(db.query_photo_count().unwrap(), 1);
}

#[test]
fn forced_rescan_updates_in_place() {
    let mut db = PhotoDatabase::open_or_create(":memory:").unwrap();
    let mut first = ScanPipeline::new();
    first
        .collect_file(&db, "/root", false, "/root/a.jpg")
        .unwrap();
    first.process_next(&mut db, &Ok(info(b"v1"))).unwrap();
    let id = db.query_photo_id_by_path("a.jpg").unwrap().unwrap();

    let mut second = ScanPipeline::new();
    second
        .collect_file(&db, "/root", true, "/root/a.jpg")
        .unwrap();
    assert!(second.has_pending());
    assert_eq!(second.peek_job().existing_id, Some(id));
    second.process_next(&mut db, &Ok(info(b"v2"))).unwrap();
    assert_eq!(db.query_photo_count().unwrap(), 1);
    let photo = db.get_photo(id).unwrap().unwrap();
    assert_eq!(photo.info.file_hash, Sha256Hash::hash_bytes(b"v2"));
}

#[test]
fn a_file_outside_the_root_fails_alone() {
    let mut db = PhotoDatabase::open_or_create(":memory:").unwrap();
    let mut pipeline = ScanPipeline::new();
    pipeline
        .collect_file(&db, "/root", false, "/elsewhere/a.jpg")
        .unwrap();
    pipeline
        .collect_file(&db, "/root", false, "/root/b.jpg")
        .unwrap();
    pipeline.process_next(&mut db, &Ok(info(b"b"))).unwrap();
    let outcome = pipeline.outcome(false);
    assert_eq!(outcome.total, 2);
    assert_eq!(outcome.failed, 1);
    assert_eq!(outcome.added, 1);
    assert_eq!(db.query_photo_count().unwrap(), 1);
}

#[test]
fn a_failed_extraction_is_counted_and_writes_nothing() {
    let mut db = PhotoDatabase::open_or_create(":memory:").unwrap();
    let mut pipeline = ScanPipeline::new();
    pipeline
        .collect_file(&db, "/root", false, "/root/bad.jpg")
        .unwrap();
    pipeline
        .process_next(&mut db, &Err("corrupt file".to_string()))
        .unwrap();
    let outcome = pipeline.outcome(false);
    assert_eq!(outcome.failed, 1);
    assert_eq!(outcome.added, 0);
    assert_eq!(db.query_photo_count().unwrap(), 0);
}

#[test]
fn interruption_after_k_items_bounds_the_counters() {
    let mut db = PhotoDatabase::open_or_create(":memory:").unwrap();
    let n: usize = 5;
    let k: usize = 2;
    let mut pipeline = ScanPipeline::new();
    for i in 0..n {
        let path = format!("/root/photo{}.jpg", i);
        pipeline.collect_file(&db, "/root", false, &path).unwrap();
    }
    for i in 0..k {
        let content = format!("content{}", i);
        pipeline
            .process_next(&mut db, &Ok(info(content.as_bytes())))
            .unwrap();
    }
    // The interruption arrives before the remaining jobs are dispatched.
    let outcome = pipeline.outcome(true);
    assert!(outcome.interrupted);
    assert_eq!(outcome.total, n as u64);
    assert_eq!(outcome.added, k as u64);
    assert!(outcome.added + outcome.failed + outcome.skipped <= outcome.total);
    assert_eq!(db.query_photo_count().unwrap(), k as u32);
}

#[test]
fn process_all_honors_a_triggered_token() {
    let mut db = PhotoDatabase::open_or_create(":memory:").unwrap();
    let mut pipeline = ScanPipeline::new();
    pipeline
        .collect_file(&db, "/root", false, "/root/a.jpg")
        .unwrap();
    pipeline
        .collect_file(&db, "/root", false, "/root/b.jpg")
        .unwrap();
    let extractions = vec![Ok(info(b"a")), Ok(info(b"b"))];
    let token = InterruptToken::new();
    token.dup().trigger();
    let outcome = pipeline
        .process_all(&mut db, &extractions, &token)
        .unwrap();
    assert!(outcome.interrupted);
    assert_eq!(outcome.added, 0);
    assert_eq!(db.query_photo_count().unwrap(), 0);
}

#[test]
fn process_all_completes_without_interruption() {
    let mut db = PhotoDatabase::open_or_create(":memory:").unwrap();
    let mut pipeline = ScanPipeline::new();
    pipeline
        .collect_file(&db, "/root", false, "/root/a.jpg")
        .unwrap();
    pipeline
        .collect_file(&db, "/root", false, "/root/b.jpg")
        .unwrap();
    let extractions = vec![Ok(info(b"a")), Ok(info(b"b"))];
    let token = InterruptToken::new();
    let outcome = pipeline
        .process_all(&mut db, &extractions, &token)
        .unwrap();
    assert!(!outcome.interrupted);
    assert_eq!(outcome.added, 2);
    assert_eq!(db.query_photo_count().unwrap(), 2);
}

#[test]
fn an_unnameable_file_counts_as_one_failure() {
    let db = PhotoDatabase::open_or_create(":memory:").unwrap();
    let mut pipeline = ScanPipeline::new();
    pipeline
        .collect_file(&db, "/root", false, "/root/ok.jpg")
        .unwrap();
    pipeline.record_failed_file();
    let outcome = pipeline.outcome(false);
    assert_eq!(outcome.total, 2);
    assert_eq!(outcome.failed, 1);
    assert!(pipeline.has_pending());
}

#[test]
fn hidden_names_start_with_a_dot() {
    assert!(is_hidden_name(".thumbnails"));
    assert!(is_hidden_name("."));
    assert!(!is_hidden_name("photo.jpg"));
    assert!(!is_hidden_name(""));
}
