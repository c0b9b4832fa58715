//! Photo file formats: the metadata a reader extracts from a file, the JPEG
//! format reader, and the encoded thumbnail type.

use vstd::prelude::*;
use chrono::TimeZone;
use crate::hash::{Sha256Hash, sha256_of};

verus! {

/// General metadata of a photo file: the creation time, if any source for it
/// exists, as an RFC 3339 string, and the SHA-256 digest of the whole file.
pub struct PhotoInfo {
    /// Creation time of the photo; `None` is a valid, distinct state, never
    /// defaulted to an epoch.
    pub created: Option<String>,
    /// Hash of the photo file's full contents.
    pub file_hash: Sha256Hash,
}

/// A JPEG-encoded thumbnail image.
pub struct Thumbnail(Vec<u8>);

impl View for Thumbnail {
    type V = Seq<u8>;

    closed spec fn view(&self) -> Seq<u8> {
        self.0@
    }
}

impl Thumbnail {
    /// Wrap already-encoded JPEG bytes.
    pub fn from_jpg_bytes(data: Vec<u8>) -> (r: Thumbnail)
        ensures
            r@ == data@,
    {
        Thumbnail(data)
    }

    /// The JPEG-encoded bytes of the thumbnail.
    pub fn as_jpg_bytes(&self) -> (r: &[u8])
        ensures
            r@ == self@,
    {
        self.0.as_slice()
    }

    /// The JPEG-encoded bytes, giving up the thumbnail.
    pub fn into_jpg_bytes(self) -> (r: Vec<u8>)
        ensures
            r@ == self@,
    {
        self.0
    }
}

/// Whether `suffix` is the tail of `s`.
pub open spec fn ends_with(s: Seq<char>, suffix: Seq<char>) -> bool {
    s.len() >= suffix.len() && s.skip(s.len() - suffix.len()) == suffix
}

/// Test whether a string ends in the given suffix, character-wise.
pub fn str_ends_with(s: &str, suffix: &str) -> (r: bool)
    ensures
        r == ends_with(s@, suffix@),
{
    let n = s.unicode_len();
    let m = suffix.unicode_len();
    if n < m {
        return false;
    }
    let mut i: usize = 0;
    while i < m
        invariant
            n == s@.len(),
            m == suffix@.len(),
            m <= n,
            i <= m,
            forall|j: int| 0 <= j < i ==> s@[n - m + j] == suffix@[j],
        decreases m - i,
    {
        let c1 = s.get_char(n - m + i);
        let c2 = suffix.get_char(i);
        if c1 != c2 {
            proof {
                assert(s@.skip(n - m)[i as int] == s@[n - m + i]);
                assert(s@.skip(n - m) != suffix@);
            }
            return false;
        }
        i += 1;
    }
    proof {
        assert forall|j: int| 0 <= j < m implies s@.skip(n - m)[j] == suffix@[j] by {
            assert(s@.skip(n - m)[j] == s@[n - m + j]);
        }
        assert(s@.skip(n - m) =~= suffix@);
    }
    true
}

/// The extensions the JPEG reader accepts, as the tail of a relative path.
/// Hidden entries never reach this check: the directory walk already skips
/// them.
pub open spec fn spec_supported_extension(path: Seq<char>) -> bool {
    ||| ends_with(path, ".jpg"@)
    ||| ends_with(path, ".JPG"@)
    ||| ends_with(path, ".jpeg"@)
    ||| ends_with(path, ".JPEG"@)
}

#[verifier::external_type_specification]
#[verifier::external_body]
pub struct ExImageError(image::ImageError);

/// The date and time a JPEG file's EXIF block records, if it parses: a
/// function of the file bytes alone, so the result only gets a name here.
/// The fields are year, month, day, hour, minute, second, as the EXIF
/// `DateTimeOriginal` (or, failing that, `DateTimeDigitized`) tag stores
/// them, in the camera's local time.
pub uninterp spec fn exif_datetime_of(data: Seq<u8>) -> Option<(u16, u8, u8, u8, u8, u8)>;

/// Relies on exif::Reader::read_from_container, Exif::get_field and
/// exif::DateTime::from_ascii: the parsed `DateTimeOriginal` (or
/// `DateTimeDigitized`) timestamp of the image container, a function of the
/// bytes alone.
#[verifier::external_body]
fn exif_datetime_fields(data: &[u8]) -> (r: Option<(u16, u8, u8, u8, u8, u8)>)
    ensures
        r == exif_datetime_of(data@),
{
    let parsed = exif::Reader::new().read_from_container(&mut std::io::Cursor::new(data)).ok()?;
    let field = parsed
        .get_field(exif::Tag::DateTimeOriginal, exif::In::PRIMARY)
        .or_else(|| parsed.get_field(exif::Tag::DateTimeDigitized, exif::In::PRIMARY))?;
    let ascii = match &field.value {
        exif::Value::Ascii(ref vs) => vs.first(),
        _ => None,
    }?;
    let dt = exif::DateTime::from_ascii(ascii).ok()?;
    Some((dt.year, dt.month, dt.day, dt.hour, dt.minute, dt.second))
}

/// Days in a month of the proleptic Gregorian calendar.
pub open spec fn spec_days_in_month(y: u16, mo: u8) -> u8 {
    if mo == 2 {
        if (y % 4 == 0 && y % 100 != 0) || y % 400 == 0 {
            29
        } else {
            28
        }
    } else if mo == 4 || mo == 6 || mo == 9 || mo == 11 {
        30
    } else {
        31
    }
}

/// Whether the fields name a wall-clock time of the Gregorian calendar.
pub open spec fn spec_valid_calendar_fields(
    y: u16,
    mo: u8,
    d: u8,
    h: u8,
    mi: u8,
    s: u8,
) -> bool {
    &&& 1 <= mo <= 12
    &&& 1 <= d <= spec_days_in_month(y, mo)
    &&& h < 24
    &&& mi < 60
    &&& s < 60
}

/// Relies on chrono: interprets the given camera-local calendar time in this
/// machine's local time zone and renders it in UTC as RFC 3339. The value
/// depends on the machine's time zone, so nothing is promised of it; only
/// the time-zone-independent rejection of invalid calendar fields (by
/// `NaiveDate::from_ymd_opt` and `and_hms_opt`) is stated.
#[verifier::external_body]
fn local_fields_to_utc_rfc3339(y: u16, mo: u8, d: u8, h: u8, mi: u8, s: u8) -> (r: Option<String>)
    ensures
        !spec_valid_calendar_fields(y, mo, d, h, mi, s) ==> r is None,
{
    let date = chrono::NaiveDate::from_ymd_opt(y as i32, mo as u32, d as u32)?;
    let ndt = date.and_hms_opt(h as u32, mi as u32, s as u32)?;
    let local = chrono::Local.from_local_datetime(&ndt).earliest()?;
    Some(local.with_timezone(&chrono::Utc).to_rfc3339())
}

/// The width and height of the image the bytes decode to, or `None` when
/// they decode as no image: decoding is a function of the bytes alone, so
/// the result only gets a name here.
pub uninterp spec fn dims_of(data: Seq<u8>) -> Option<(u32, u32)>;

/// The quality-90 JPEG re-encoding of the image the bytes decode to, at its
/// original size, or `None` when decoding or encoding fails: a function of
/// the bytes alone.
pub uninterp spec fn jpeg_of(data: Seq<u8>) -> Option<Seq<u8>>;

/// As `jpeg_of`, after scaling the image down to fit a size-by-size box
/// with the triangle filter, preserving aspect ratio: a function of the
/// bytes and the size alone.
pub uninterp spec fn resized_jpeg_of(data: Seq<u8>, size: u32) -> Option<Seq<u8>>;

/// Relies on image::load_from_memory (format guessed from the bytes) and
/// DynamicImage::width/height: the decoded dimensions; malformed input
/// yields the error, never a panic.
#[verifier::external_body]
fn image_dims(data: &[u8]) -> (r: Result<(u32, u32), image::ImageError>)
    ensures
        r is Ok <==> dims_of(data@) is Some,
        r matches Ok(d) ==> dims_of(data@) == Some(d),
{
    let img = image::load_from_memory(data)?;
    Ok((img.width(), img.height()))
}

/// Relies on image::load_from_memory, the JPEG encoder at fixed quality 90
/// and DynamicImage::write_with_encoder: the decoded image re-encoded
/// unresized, failing exactly when `jpeg_of` has no value.
#[verifier::external_body]
fn encode_jpeg(data: &[u8]) -> (r: Result<Vec<u8>, image::ImageError>)
    ensures
        r is Ok <==> jpeg_of(data@) is Some,
        r matches Ok(b) ==> jpeg_of(data@) == Some(b@),
{
    let img = image::load_from_memory(data)?;
    let mut out = std::io::Cursor::new(Vec::new());
    let encoder = image::codecs::jpeg::JpegEncoder::new_with_quality(&mut out, 90);
    img.write_with_encoder(encoder)?;
    Ok(out.into_inner())
}

/// Relies on image::load_from_memory, DynamicImage::resize (down to a
/// size-by-size box, aspect ratio preserved, triangle filter), the JPEG
/// encoder at quality 90 and write_with_encoder: the decoded image scaled
/// and re-encoded, failing exactly when `resized_jpeg_of` has no value.
#[verifier::external_body]
fn resize_encode_jpeg(data: &[u8], size: u32) -> (r: Result<Vec<u8>, image::ImageError>)
    ensures
        r is Ok <==> resized_jpeg_of(data@, size) is Some,
        r matches Ok(b) ==> resized_jpeg_of(data@, size) == Some(b@),
{
    let img = image::load_from_memory(data)?;
    let scaled = img.resize(size, size, image::imageops::FilterType::Triangle);
    let mut out = std::io::Cursor::new(Vec::new());
    let encoder = image::codecs::jpeg::JpegEncoder::new_with_quality(&mut out, 90);
    scaled.write_with_encoder(encoder)?;
    Ok(out.into_inner())
}

/// Relies on ImageError's Display impl for the human-readable message.
#[verifier::external_body]
fn image_error_message(e: &image::ImageError) -> (r: String) {
    format!("{}", e)
}

/// Whether an image of these dimensions must be scaled down to fit the
/// target size: exactly when either side exceeds it.
pub open spec fn spec_needs_resize(width: u32, height: u32, size: u32) -> bool {
    width > size || height > size
}

/// The resize decision of thumbnail generation.
pub fn needs_resize(width: u32, height: u32, size: u32) -> (r: bool)
    ensures
        r == spec_needs_resize(width, height, size),
{
    width > size || height > size
}

/// What thumbnail generation yields for given bytes and size bound: nothing
/// for bytes that decode as no image or fail to re-encode; otherwise the
/// image re-encoded as JPEG, scaled down exactly when a side exceeds the
/// bound.
pub open spec fn spec_generate(data: Seq<u8>, size: u32) -> Option<Seq<u8>> {
    match dims_of(data) {
        Some(d) => if spec_needs_resize(d.0, d.1, size) {
            resized_jpeg_of(data, size)
        } else {
            jpeg_of(data)
        },
        None => None,
    }
}

/// The reader for JPEG files.
pub struct JpegFormat;

impl JpegFormat {
    /// The name of this format, for presenting to a user.
    pub fn name(&self) -> (r: &'static str)
        ensures
            r@ == "JPEG"@,
    {
        "JPEG"
    }

    /// Whether a path carries one of the file extensions this reader
    /// understands.
    pub fn supported_extension(&self, path: &str) -> (r: bool)
        ensures
            r == spec_supported_extension(path@),
    {
        str_ends_with(path, ".jpg") || str_ends_with(path, ".JPG") || str_ends_with(path, ".jpeg")
            || str_ends_with(path, ".JPEG")
    }

    /// Extract the metadata of a photo from the raw bytes of its file: the
    /// digest of the whole file, and a creation time chosen by
    /// `choose_created`. The value of the EXIF branch depends on this
    /// machine's time zone, so only the fallback branches are pinned here;
    /// the choice between the branches is pinned in `choose_created`.
    pub fn read_info(&self, data: &[u8], file_created: &Option<String>) -> (r: PhotoInfo)
        ensures
            r.file_hash@ == sha256_of(data@),
            exif_datetime_of(data@) is None ==> r.created.deep_view()
                == file_created.deep_view(),
            r.created is Some || r.created.deep_view() == file_created.deep_view(),
    {
        let from_exif: Option<String> = match exif_datetime_fields(data) {
            Some((y, mo, d, h, mi, s)) => local_fields_to_utc_rfc3339(y, mo, d, h, mi, s),
            None => None,
        };
        let created = choose_created(from_exif, file_created);
        PhotoInfo { created, file_hash: Sha256Hash::hash_bytes(data) }
    }
}

/// The creation-time policy of the format readers: a timestamp derived from
/// EXIF wins over the filesystem creation time, the filesystem time is the
/// fallback, and with no source at all the creation time stays absent —
/// never an epoch default.
pub fn choose_created(from_exif: Option<String>, file_created: &Option<String>) -> (r: Option<
    String,
>)
    ensures
        from_exif matches Some(c) ==> r == Some(c),
        from_exif is None ==> r.deep_view() == file_created.deep_view(),
{
    match from_exif {
        Some(c) => Some(c),
        None => match file_created {
            Some(c) => Some(c.clone()),
            None => None,
        },
    }
}

impl Thumbnail {
    /// Generate a thumbnail from the raw bytes of an image file: decode,
    /// scale down to fit a size-by-size box exactly when a side exceeds it
    /// (never scale up), and re-encode as JPEG at quality 90. The result is
    /// `spec_generate` of the bytes and the bound, so two calls on equal
    /// input agree; bytes that decode as no image surface as the error
    /// message, never a panic.
    pub fn generate(data: &[u8], size: u32) -> (r: Result<Thumbnail, String>)
        ensures
            r is Ok <==> spec_generate(data@, size) is Some,
            r matches Ok(t) ==> spec_generate(data@, size) == Some(t@),
            dims_of(data@) is None ==> r is Err,
    {
        let (width, height) = match image_dims(data) {
            Ok(d) => d,
            Err(e) => {
                return Err(image_error_message(&e));
            },
        };
        if needs_resize(width, height, size) {
            match resize_encode_jpeg(data, size) {
                Ok(bytes) => Ok(Thumbnail(bytes)),
                Err(e) => Err(image_error_message(&e)),
            }
        } else {
            match encode_jpeg(data) {
                Ok(bytes) => Ok(Thumbnail(bytes)),
                Err(e) => Err(image_error_message(&e)),
            }
        }
    }
}

} // verus!
