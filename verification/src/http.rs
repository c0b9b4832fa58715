//! Decisions of the web layer: what a request for a photo, a thumbnail or an
//! original yields, including conditional requests against the stored
//! content hashes. Routing, headers and socket I/O live with the caller;
//! every branch taken here is verified against the store model.

use vstd::prelude::*;
use vstd::slice::slice_subrange;
use crate::error::ArchiveError;
use crate::hash::{Sha256Hash, hex_of, is_hex_lower};
use crate::photodb::{
    Photo, PhotoDatabase, PhotoId, spec_thumb_hash, spec_thumb_payload,
};
use crate::scan::joined;

verus! {

/// JSON-ready error body returned by all endpoints.
pub struct ErrorResponse {
    pub message: String,
}

impl ErrorResponse {
    pub fn new(message: String) -> (r: ErrorResponse)
        ensures
            r.message == message,
    {
        ErrorResponse { message }
    }
}

/// The JSON projection of one photo row.
pub struct PhotoObject {
    pub id: PhotoId,
    pub relative_path: String,
    pub created: Option<String>,
}

/// Parse the `If-None-Match` header value: one leading quote, then 64
/// lowercase hex digits of the entity tag. Anything shorter or non-hex
/// yields no digest, and the request is treated as unconditional.
pub fn parse_if_none_match(header: &[u8]) -> (r: Option<Sha256Hash>)
    ensures
        r is Some <==> (header@.len() >= 65 && (forall|i: int|
            1 <= i < 65 ==> is_hex_lower(header@[i]))),
        r matches Some(h) ==> hex_of(h@) == header@.subrange(1, 65),
{
    if header.len() < 65 {
        return None;
    }
    let tag = slice_subrange(header, 1, 65);
    let r = Sha256Hash::from_hex(tag);
    proof {
        if forall|i: int| 0 <= i < 64 ==> is_hex_lower(tag@[i]) {
            assert forall|i: int| 1 <= i < 65 implies is_hex_lower(header@[i]) by {
                assert(header@[i] == tag@[i - 1]);
                assert(is_hex_lower(tag@[i - 1]));
            }
        }
        if forall|i: int| 1 <= i < 65 ==> is_hex_lower(header@[i]) {
            assert forall|i: int| 0 <= i < 64 implies is_hex_lower(tag@[i]) by {
                assert(tag@[i] == header@[i + 1]);
                assert(is_hex_lower(header@[i + 1]));
            }
        }
    }
    r
}

/// What a conditional request for a stored blob yields: nothing new for a
/// matching entity tag, the payload with its tag otherwise, or no such
/// resource at all.
pub enum CachedReply {
    /// The client's tag matches the stored one: an empty reply.
    NotModified,
    /// The payload, with the entity tag to label it with.
    Payload { bytes: Vec<u8>, etag_hex: Vec<u8> },
    /// No stored payload exists.
    NotFound,
}

/// Serve a photo's thumbnail under the conditional-request rule: a request
/// whose tag equals the stored digest is answered `NotModified` without
/// re-reading the blob; otherwise the stored JPEG bytes and their digest
/// come back, or `NotFound` when the photo has no usable thumbnail.
pub fn photo_thumbnail_reply(
    store: &PhotoDatabase,
    photo_id: PhotoId,
    if_none_match: &Option<Sha256Hash>,
) -> (r: Result<CachedReply, ArchiveError>)
    ensures
        r is Ok ==> ((match *if_none_match {
            Some(h) => spec_thumb_hash(store.thumbs(), photo_id.0) == Some(h@),
            None => false,
        }) <==> r matches Ok(CachedReply::NotModified)),
        r matches Ok(CachedReply::Payload { bytes, etag_hex }) ==> spec_thumb_payload(
            store.thumbs(),
            photo_id.0,
        ) == Some(bytes@) && (spec_thumb_hash(store.thumbs(), photo_id.0) matches Some(hh)
            && etag_hex@ == hex_of(hh)),
        r matches Ok(CachedReply::NotFound) ==> spec_thumb_payload(store.thumbs(), photo_id.0)
            is None,
{
    let stored_hash = match store.query_thumbnail_hash(photo_id) {
        Ok(h) => h,
        Err(e) => {
            return Err(e);
        },
    };
    if let Some(h) = &stored_hash {
        if let Some(request_tag) = if_none_match {
            if h.eq(request_tag) {
                return Ok(CachedReply::NotModified);
            }
        }
    }
    match store.query_thumbnail(photo_id) {
        Ok(Some(thumb)) => {
            let stored = match stored_hash {
                Some(h) => h,
                None => {
                    return Err(
                        ArchiveError::Store("thumbnail stored without its hash".to_owned()),
                    );
                },
            };
            Ok(
                CachedReply::Payload {
                    bytes: thumb.into_jpg_bytes(),
                    etag_hex: stored.to_hex(),
                },
            )
        },
        Ok(None) => Ok(CachedReply::NotFound),
        Err(e) => Err(e),
    }
}

/// What a request for a photo's original file yields: the decision is made
/// here against the stored file hash; reading and sending the file itself
/// is the caller's I/O.
pub enum OriginalReply {
    /// The client's tag matches the stored file hash: an empty reply.
    NotModified,
    /// The file to send, with the entity tag to label it with.
    SendFile { full_path: String, etag_hex: Vec<u8> },
    /// No such photo is indexed.
    NotFound,
}

/// Serve a photo's original under the conditional-request rule, against the
/// stored content hash of the file.
pub fn photo_original_reply(
    store: &PhotoDatabase,
    root_dir: &str,
    photo_id: PhotoId,
    if_none_match: &Option<Sha256Hash>,
) -> (r: Result<OriginalReply, ArchiveError>)
    ensures
        r is Ok ==> ((store.photos().contains_key(photo_id.0) && (match *if_none_match {
            Some(h) => store.photos()[photo_id.0].file_hash == h@,
            None => false,
        })) <==> r matches Ok(OriginalReply::NotModified)),
        r matches Ok(OriginalReply::SendFile { full_path, etag_hex }) ==> store.photos(
        ).contains_key(photo_id.0) && full_path@ == joined(
            root_dir@,
            store.photos()[photo_id.0].rel_path,
        ) && etag_hex@ == hex_of(store.photos()[photo_id.0].file_hash),
        r matches Ok(OriginalReply::NotFound) ==> !store.photos().contains_key(photo_id.0),
{
    let photo = match store.get_photo(photo_id) {
        Ok(Some(p)) => p,
        Ok(None) => {
            return Ok(OriginalReply::NotFound);
        },
        Err(e) => {
            return Err(e);
        },
    };
    if let Some(request_tag) = if_none_match {
        if photo.info.file_hash.eq(request_tag) {
            return Ok(OriginalReply::NotModified);
        }
    }
    let full_path = crate::scan::join_path(root_dir, photo.relative_path.as_str());
    let etag_hex = photo.info.file_hash.to_hex();
    Ok(OriginalReply::SendFile { full_path, etag_hex })
}

/// The JSON projection of one photo, or nothing when it is not indexed.
pub fn photo_detail(store: &PhotoDatabase, photo_id: PhotoId) -> (r: Result<
    Option<PhotoObject>,
    ArchiveError,
>)
    ensures
        r matches Ok(Some(o)) ==> store.photos().contains_key(photo_id.0) && o.id == photo_id
            && o.relative_path@ == store.photos()[photo_id.0].rel_path && o.created.deep_view()
            == store.photos()[photo_id.0].created,
        r matches Ok(None) ==> !store.photos().contains_key(photo_id.0),
{
    match store.get_photo(photo_id) {
        Ok(Some(p)) => Ok(
            Some(
                PhotoObject {
                    id: p.id,
                    relative_path: p.relative_path,
                    created: p.info.created,
                },
            ),
        ),
        Ok(None) => Ok(None),
        Err(e) => Err(e),
    }
}

/// The JSON projection of the whole listing, in listing order.
pub fn photos_listing(store: &PhotoDatabase) -> (r: Result<Vec<PhotoObject>, ArchiveError>)
    ensures
        r matches Ok(objects) ==> {
            &&& objects@.len() == store.photos().dom().len()
            &&& forall|i: int|
                #![trigger objects@[i]]
                0 <= i < objects@.len() ==> store.photos().contains_key(objects@[i].id.0)
                    && objects@[i].relative_path@ == store.photos()[objects@[i].id.0].rel_path
                    && objects@[i].created.deep_view() == store.photos()[objects@[i].id.0].created
            &&& forall|i: int, j: int|
                0 <= i < j < objects@.len() ==> objects@[i].id.0 != objects@[j].id.0
            &&& forall|k: i64|
                #[trigger] store.photos().contains_key(k) ==> exists|i: int|
                    0 <= i < objects@.len() && objects@[i].id.0 == k
        },
{
    let photos = match store.query_all_photos() {
        Ok(photos) => photos,
        Err(e) => {
            return Err(e);
        },
    };
    let mut objects: Vec<PhotoObject> = Vec::new();
    let mut i: usize = 0;
    while i < photos.len()
        invariant
            photos@.len() == store.photos().dom().len(),
            store.photos().dom().finite(),
            forall|n: int|
                #![trigger photos@[n]]
                0 <= n < photos@.len() ==> store.photos().contains_key(photos@[n].id.0)
                    && photos@[n].record() == store.photos()[photos@[n].id.0],
            forall|n: int, m: int|
                0 <= n < m < photos@.len() ==> photos@[n].id.0 != photos@[m].id.0,
            forall|k: i64|
                #[trigger] store.photos().contains_key(k) ==> exists|n: int|
                    0 <= n < photos@.len() && photos@[n].id.0 == k,
            i <= photos@.len(),
            objects@.len() == i,
            forall|n: int|
                #![trigger objects@[n]]
                0 <= n < i ==> objects@[n].id == photos@[n].id && objects@[n].relative_path@
                    == photos@[n].relative_path@ && objects@[n].created.deep_view() == photos@[
                    n
                ].info.created.deep_view(),
        decreases photos@.len() - i,
    {
        let p = &photos[i];
        let created_copy: Option<String> = match &p.info.created {
            Some(s) => Some(s.clone()),
            None => None,
        };
        objects.push(
            PhotoObject {
                id: p.id,
                relative_path: p.relative_path.clone(),
                created: created_copy,
            },
        );
        i += 1;
    }
    proof {
        assert forall|k: i64| #[trigger]
            store.photos().contains_key(k) implies exists|i2: int|
            0 <= i2 < objects@.len() && objects@[i2].id.0 == k by {
            let n = choose|n: int| 0 <= n < photos@.len() && photos@[n].id.0 == k;
            assert(objects@[n].id.0 == k);
        }
    }
    Ok(objects)
}

} // verus!
