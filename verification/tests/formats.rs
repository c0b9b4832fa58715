use photo_archive::formats::{JpegFormat, Thumbnail, choose_created};
use photo_archive::hash::{Sha256Hash, hex_encode};
use photo_archive::photodb::PhotoDatabase;
use photo_archive::scan::ScanPipeline;

/// A minimal JPEG container holding one EXIF block whose `DateTimeOriginal`
/// is 2020:01:02 03:04:05, and nothing else.
fn jpeg_with_exif_datetime() -> Vec<u8> {
    let mut tiff: Vec<u8> = Vec::new();
    // Little-endian TIFF header, first IFD at offset 8.
    tiff.extend_from_slice(&[0x49, 0x49, 0x2A, 0x00, 0x08, 0x00, 0x00, 0x00]);
    // IFD0: one entry, the pointer to the Exif IFD (tag 0x8769, LONG, at 26).
    tiff.extend_from_slice(&[0x01, 0x00]);
    tiff.extend_from_slice(&[0x69, 0x87, 0x04, 0x00, 0x01, 0x00, 0x00, 0x00, 0x1A, 0x00, 0x00, 0x00]);
    tiff.extend_from_slice(&[0x00, 0x00, 0x00, 0x00]);
    // Exif IFD at 26: one entry, DateTimeOriginal (tag 0x9003, ASCII, 20
    // bytes at offset 44).
    tiff.extend_from_slice(&[0x01, 0x00]);
    tiff.extend_from_slice(&[0x03, 0x90, 0x02, 0x00, 0x14, 0x00, 0x00, 0x00, 0x2C, 0x00, 0x00, 0x00]);
    tiff.extend_from_slice(&[0x00, 0x00, 0x00, 0x00]);
    tiff.extend_from_slice(b"2020:01:02 03:04:05\0");
    assert_eq!(tiff.len(), 64);

    let mut jpeg: Vec<u8> = Vec::new();
    jpeg.extend_from_slice(&[0xFF, 0xD8]); // SOI
    jpeg.extend_from_slice(&[0xFF, 0xE1, 0x00, 0x48]); // APP1, length 72
    jpeg.extend_from_slice(b"Exif\0\0");
    jpeg.extend_from_slice(&tiff);
    jpeg.extend_from_slice(&[0xFF, 0xD9]); // EOI
    jpeg
}

fn tiny_jpeg() -> Vec<u8> {
    let img = image::DynamicImage::ImageRgb8(image::RgbImage::new(10, 10));
    let mut cursor = std::io::Cursor::new(Vec::new());
    img.write_to(&mut cursor, image::ImageFormat::Jpeg).unwrap();
    cursor.into_inner()
}

#[test]
fn sha256_matches_the_known_test_vector() {
    let digest = Sha256Hash::hash_bytes(b"abc");
    let expected = b"ba7816bf8f01cfea414140de5dae2223b00361a396177a9cb410ff61f20015ad";
    assert_eq!(digest.to_hex(), expected.to_vec());
}

#[test]
fn hex_codec_round_trips() {
    let digest = Sha256Hash::hash_bytes(b"round trip");
    let hex = digest.to_hex();
    let back = Sha256Hash::from_hex(&hex).unwrap();
    assert_eq!(back, digest);
    assert_eq!(hex_encode(&[0x00, 0x0f, 0xa5]), b"000fa5".to_vec());
}

#[test]
fn from_hex_rejects_bad_input() {
    assert!(Sha256Hash::from_hex(b"abc").is_none());
    let upper = b"BA7816BF8F01CFEA414140DE5DAE2223B00361A396177A9CB410FF61F20015AD";
    assert!(Sha256Hash::from_hex(upper).is_none());
    let bad = b"zz7816bf8f01cfea414140de5dae2223b00361a396177a9cb410ff61f20015ad";
    assert!(Sha256Hash::from_hex(bad).is_none());
}

#[test]
fn from_bytes_accepts_only_32_bytes() {
    assert!(Sha256Hash::from_bytes(&[0u8; 31]).is_none());
    assert!(Sha256Hash::from_bytes(&[0u8; 33]).is_none());
    let h = Sha256Hash::from_bytes(&[7u8; 32]).unwrap();
    assert_eq!(h.as_bytes(), &[7u8; 32]);
}

#[test]
fn read_info_prefers_exif_over_the_fallback() {
    let data = jpeg_with_exif_datetime();
    let fallback = Some("1999-09-09T09:09:09+00:00".to_string());
    let info = JpegFormat.read_info(&data, &fallback);
    let created = info.created.expect("EXIF timestamp expected");
    // The local-time interpretation shifts the UTC rendering by at most the
    // time zone offset, so the day stays within 2020-01-01..2020-01-03.
    assert!(created.starts_with("2020-01-0"), "unexpected created: {}", created);
    assert_ne!(created, fallback.unwrap());
    assert_eq!(info.file_hash, Sha256Hash::hash_bytes(&data));
}

#[test]
fn read_info_falls_back_to_the_file_time_and_then_to_nothing() {
    let plain = b"not an image at all";
    let fallback = Some("2018-03-03T12:00:00+00:00".to_string());
    let with_fallback = JpegFormat.read_info(plain, &fallback);
    assert_eq!(with_fallback.created, fallback);
    let without = JpegFormat.read_info(plain, &None);
    assert!(without.created.is_none());
}

#[test]
fn generate_keeps_small_images_and_shrinks_large_ones() {
    let source = tiny_jpeg();
    let untouched = Thumbnail::generate(&source, 400).unwrap();
    let img = image::load_from_memory(untouched.as_jpg_bytes()).unwrap();
    assert_eq!((img.width(), img.height()), (10, 10));

    let shrunk = Thumbnail::generate(&source, 4).unwrap();
    let img = image::load_from_memory(shrunk.as_jpg_bytes()).unwrap();
    assert!(img.width() <= 4 && img.height() <= 4);
}

#[test]
fn generate_reports_malformed_input_as_an_error() {
    let err = match Thumbnail::generate(b"garbage bytes", 400) {
        Err(message) => message,
        Ok(_) => panic!("garbage decoded"),
    };
    assert!(!err.is_empty());
}

#[test]
fn thumbnail_bytes_round_trip() {
    let t = Thumbnail::from_jpg_bytes(vec![1, 2, 3]);
    assert_eq!(t.as_jpg_bytes(), &[1, 2, 3]);
    assert_eq!(t.into_jpg_bytes(), vec![1, 2, 3]);
}

#[test]
fn one_scan_records_exif_and_fallback_timestamps() {
    let mut db = PhotoDatabase::open_or_create(":memory:").unwrap();
    let mut pipeline = ScanPipeline::new();
    pipeline
        .collect_file(&db, "/root", false, "/root/a.jpg")
        .unwrap();
    pipeline
        .collect_file(&db, "/root", false, "/root/b.jpg")
        .unwrap();

    // a.jpg carries no EXIF: its filesystem creation time is the fallback.
    let a_fallback = Some("2019-05-05T05:05:05+00:00".to_string());
    let a_info = JpegFormat.read_info(b"plain bytes without exif", &a_fallback);
    pipeline.process_next(&mut db, &Ok(a_info)).unwrap();

    // b.jpg carries EXIF DateTimeOriginal 2020-01-02 03:04:05.
    let b_bytes = jpeg_with_exif_datetime();
    let b_info = JpegFormat.read_info(&b_bytes, &None);
    pipeline.process_next(&mut db, &Ok(b_info)).unwrap();

    let photos = db.query_all_photos().unwrap();
    assert_eq!(photos.len(), 2);
    let a = photos.iter().find(|p| p.relative_path == "a.jpg").unwrap();
    let b = photos.iter().find(|p| p.relative_path == "b.jpg").unwrap();
    assert_eq!(a.info.created, a_fallback);
    let b_created = b.info.created.as_deref().expect("EXIF timestamp expected");
    assert!(b_created.starts_with("2020-01-0"), "unexpected created: {}", b_created);
}

#[test]
fn the_creation_time_policy_prefers_exif() {
    let exif = Some("2020-01-02T03:04:05+00:00".to_string());
    let file = Some("2019-01-01T00:00:00+00:00".to_string());
    assert_eq!(choose_created(exif.clone(), &file), exif);
    assert_eq!(choose_created(None, &file), file);
    assert_eq!(choose_created(None, &None), None);
}
