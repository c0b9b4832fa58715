//! Driving thumbnail generation over the store: which photos need a
//! thumbnail, and writing each generation result back as an image or an
//! error record.

use vstd::prelude::*;
use crate::db::ThumbRecord;
use crate::error::ArchiveError;
use crate::formats::{Thumbnail, dims_of, spec_generate};
use crate::hash::sha256_of;
use crate::photodb::{
    Photo, PhotoDatabase, PhotoId, ThumbnailState, spec_thumb_state,
};
use crate::scan::InterruptToken;

verus! {

/// Whether a photo in this thumbnail state is due for generation: always
/// when no thumbnail exists, when one exists only if regeneration is forced,
/// and when the last attempt failed only if retrying failures was asked for.
pub open spec fn spec_should_generate(
    state: ThumbnailState,
    regenerate: bool,
    retry_failed: bool,
) -> bool {
    ||| state is Absent
    ||| (state is Present && regenerate)
    ||| (state is Error && retry_failed)
}

/// The selection rule of a thumbnail-generation run.
pub fn should_generate(state: ThumbnailState, regenerate: bool, retry_failed: bool) -> (r: bool)
    ensures
        r == spec_should_generate(state, regenerate, retry_failed),
{
    match state {
        ThumbnailState::Absent => true,
        ThumbnailState::Present => regenerate,
        ThumbnailState::Error => retry_failed,
    }
}

/// Collect the photos due for thumbnail generation, in listing order,
/// polling the token before each photo. An untriggered token yields exactly
/// the photos `should_generate` selects; once the token fires, collection
/// stops early and reports the run as interrupted.
pub fn collect_generation_queue(
    store: &PhotoDatabase,
    regenerate: bool,
    retry_failed: bool,
    token: &InterruptToken,
) -> (r: Result<(Vec<Photo>, bool), ArchiveError>)
    ensures
        r matches Ok((queue, interrupted)) ==> {
            &&& forall|i: int|
                #![trigger queue@[i]]
                0 <= i < queue@.len() ==> store.photos().contains_key(queue@[i].id.0)
                    && queue@[i].record() == store.photos()[queue@[i].id.0]
                    && spec_should_generate(
                    spec_thumb_state(store.thumbs(), queue@[i].id.0),
                    regenerate,
                    retry_failed,
                )
            &&& forall|i: int, j: int| 0 <= i < j < queue@.len() ==> queue@[i].id.0 != queue@[j].id.0
            &&& !interrupted ==> forall|k: i64|
                #[trigger] store.photos().contains_key(k) && spec_should_generate(
                    spec_thumb_state(store.thumbs(), k),
                    regenerate,
                    retry_failed,
                ) ==> exists|i: int| 0 <= i < queue@.len() && queue@[i].id.0 == k
        },
{
    let photos = match store.query_all_photos() {
        Ok(photos) => photos,
        Err(e) => {
            return Err(e);
        },
    };
    let mut queue: Vec<Photo> = Vec::new();
    let mut i: usize = 0;
    while i < photos.len()
        invariant
            photos@.len() == store.photos().dom().len(),
            store.photos().dom().finite(),
            forall|n: int|
                #![trigger photos@[n]]
                0 <= n < photos@.len() ==> store.photos().contains_key(photos@[n].id.0)
                    && photos@[n].record() == store.photos()[photos@[n].id.0],
            forall|n: int, m: int|
                0 <= n < m < photos@.len() ==> photos@[n].id.0 != photos@[m].id.0,
            forall|k: i64|
                #[trigger] store.photos().contains_key(k) ==> exists|n: int|
                    0 <= n < photos@.len() && photos@[n].id.0 == k,
            i <= photos@.len(),
            forall|n: int|
                #![trigger queue@[n]]
                0 <= n < queue@.len() ==> store.photos().contains_key(queue@[n].id.0)
                    && queue@[n].record() == store.photos()[queue@[n].id.0]
                    && spec_should_generate(
                    spec_thumb_state(store.thumbs(), queue@[n].id.0),
                    regenerate,
                    retry_failed,
                ),
            forall|n: int, m: int| 0 <= n < m < queue@.len() ==> queue@[n].id.0 != queue@[m].id.0,
            forall|n: int|
                0 <= n < queue@.len() ==> exists|m: int|
                    0 <= m < i && photos@[m].id.0 == #[trigger] queue@[n].id.0,
            forall|m: int|
                0 <= m < i && spec_should_generate(
                    spec_thumb_state(store.thumbs(), #[trigger] photos@[m].id.0),
                    regenerate,
                    retry_failed,
                ) ==> exists|n: int| 0 <= n < queue@.len() && queue@[n].id.0 == photos@[m].id.0,
        decreases photos@.len() - i,
    {
        if token.is_interrupted() {
            return Ok((queue, true));
        }
        let state = match store.query_thumbnail_state(photos[i].id) {
            Ok(state) => state,
            Err(e) => {
                return Err(e);
            },
        };
        if should_generate(state, regenerate, retry_failed) {
            let photo = &photos[i];
            let created_copy: Option<String> = match &photo.info.created {
                Some(s) => Some(s.clone()),
                None => None,
            };
            let ghost old_q = queue@;
            queue.push(
                Photo {
                    id: photo.id,
                    relative_path: photo.relative_path.clone(),
                    info: crate::formats::PhotoInfo {
                        created: created_copy,
                        file_hash: photo.info.file_hash.duplicate(),
                    },
                },
            );
            proof {
                assert(queue@.last().id == photos@[i as int].id);
                assert(queue@.last().record() == photos@[i as int].record());
                assert forall|m: int|
                    0 <= m < i + 1 && spec_should_generate(
                        spec_thumb_state(store.thumbs(), #[trigger] photos@[m].id.0),
                        regenerate,
                        retry_failed,
                    ) implies exists|n: int|
                    0 <= n < queue@.len() && queue@[n].id.0 == photos@[m].id.0 by {
                    if m == i {
                        assert(queue@[queue@.len() - 1].id.0 == photos@[m].id.0);
                    } else {
                        let n = choose|n: int| 0 <= n < old_q.len() && old_q[n].id.0 == photos@[
                            m
                        ].id.0;
                        assert(queue@[n].id.0 == photos@[m].id.0);
                    }
                }
            }
        }
        i += 1;
    }
    proof {
        assert forall|k: i64|
            store.photos().contains_key(k) && spec_should_generate(
                spec_thumb_state(store.thumbs(), k),
                regenerate,
                retry_failed,
            ) implies exists|n: int| 0 <= n < queue@.len() && queue@[n].id.0 == k by {
            let m = choose|m: int| 0 <= m < photos@.len() && photos@[m].id.0 == k;
            assert(spec_should_generate(
                spec_thumb_state(store.thumbs(), photos@[m].id.0),
                regenerate,
                retry_failed,
            ));
        }
    }
    Ok((queue, false))
}

/// Write one generation attempt for a photo into the store: for readable
/// source bytes exactly what `spec_generate` yields for them — the encoded
/// thumbnail, or the codec's message when they decode as no image — and
/// when the source file itself could not be read, exactly that message as
/// the error record, so a later retry-failed run selects the photo again.
pub fn generate_and_store(
    store: &mut PhotoDatabase,
    photo_id: PhotoId,
    source: &Result<Vec<u8>, String>,
    size: u32,
) -> (r: Result<(), ArchiveError>)
    requires
        old(store).wf(),
    ensures
        final(store).wf(),
        final(store).photos() == old(store).photos(),
        r is Ok ==> old(store).photos().contains_key(photo_id.0),
        !old(store).photos().contains_key(photo_id.0) ==> r is Err,
        r is Ok ==> spec_thumb_state(final(store).thumbs(), photo_id.0) != ThumbnailState::Absent,
        r is Ok ==> (source matches Err(m) ==> final(store).thumbs() == old(store).thumbs().insert(
            photo_id.0,
            ThumbRecord::Failure { message: m@ },
        )),
        r is Ok ==> (source matches Ok(bytes) ==> (match spec_generate(bytes@, size) {
            Some(b) => final(store).thumbs() == old(store).thumbs().insert(
                photo_id.0,
                ThumbRecord::Image { bytes: b, hash: sha256_of(b) },
            ),
            None => exists|msg: Seq<char>|
                final(store).thumbs() == old(store).thumbs().insert(
                    photo_id.0,
                    ThumbRecord::Failure { message: msg },
                ),
        })),
        r is Err ==> final(store).thumbs() == old(store).thumbs(),
    {
        let attempt: Result<Thumbnail, String> = match source {
            Ok(bytes) => Thumbnail::generate(bytes.as_slice(), size),
            Err(m) => Err(m.clone()),
        };
        store.insert_thumbnail(photo_id, &attempt)
    }

} // verus!
