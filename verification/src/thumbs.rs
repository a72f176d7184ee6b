//! The thumbnail cache manager's logic.
//!
//! A preview is keyed by file name alone: the cache path for a source is its
//! file name with the extension replaced by the thumbnail extension, rooted
//! under the cache directory. Presence of a file at that path is the only
//! cache-validity signal — once present, a preview is never regenerated,
//! even when the source changed.
//!
//! Producing the preview itself runs through the `image` crate on in-memory
//! bytes: the caller reads the source file and writes the result, so the
//! transformation here is a plain function from bytes to bytes.

use vstd::prelude::*;

use crate::errors::ThumbnailError;
use crate::pathutil::{
    file_name, file_name_of, join_path, join_path_spec, replace_extension, replace_extension_spec,
    thumbnail_ext_spec, thumbnail_format_ext,
};

verus! {

/// The bounding box previews are scaled into: a 16:9 box.
pub const THUMBNAIL_WIDTH: u32 = 16 * 20;

/// The bounding box previews are scaled into: a 16:9 box.
pub const THUMBNAIL_HEIGHT: u32 = 9 * 20;

/// Where the preview for `source` lives: the source's file name with its
/// extension replaced by the thumbnail extension, rooted under the cache
/// directory.
pub open spec fn thumbnail_path_spec(cache_dir: Seq<char>, source: Seq<char>) -> Seq<char> {
    join_path_spec(cache_dir, replace_extension_spec(file_name_of(source), thumbnail_ext_spec()))
}

/// Whether a path's last component is a real file name: non-empty and
/// neither the current-directory nor the parent-directory component. Paths
/// outside this domain (they end in a separator, `.` or `..`) have no
/// preview of their own; the scanner and the reactor never track them under
/// a name of their own.
pub open spec fn spec_has_file_name(path: Seq<char>) -> bool {
    let name = file_name_of(path);
    name.len() > 0 && name != "."@ && name != ".."@
}

/// Whether `path`'s last component is a real file name.
pub fn has_file_name(path: &str) -> (r: bool)
    ensures
        r == spec_has_file_name(path@),
{
    let name = file_name(path);
    if name.as_str().unicode_len() == 0 {
        return false;
    }
    let dot = ".".to_owned();
    let dot_dot = "..".to_owned();
    !name.eq(&dot) && !name.eq(&dot_dot)
}

/// Derives the cache path of the preview for `source`. A pure function: no
/// I/O, and equal inputs give equal results.
pub fn thumbnail_path(cache_dir: &str, source: &str) -> (r: String)
    requires
        spec_has_file_name(source@),
    ensures
        r@ == thumbnail_path_spec(cache_dir@, source@),
{
    let name = file_name(source);
    let thumb_name = replace_extension(name.as_str(), thumbnail_format_ext());
    join_path(cache_dir, thumb_name.as_str())
}

/// Law: the thumbnail path is a pure function of its inputs — two
/// derivations for the same cache directory and source are always equal.
pub proof fn lemma_thumbnail_path_deterministic(
    cache_dir: Seq<char>,
    source: Seq<char>,
    r1: Seq<char>,
    r2: Seq<char>,
)
    requires
        r1 == thumbnail_path_spec(cache_dir, source),
        r2 == thumbnail_path_spec(cache_dir, source),
    ensures
        r1 == r2,
{
}

/// The cache directory modelled as the set of paths at which a preview
/// presently exists, after the ensure operation ran for `source`: the
/// source's preview path is present and nothing else changed. When the
/// preview already existed the operation was a no-op.
pub open spec fn cache_after_ensure(
    cache: Set<Seq<char>>,
    cache_dir: Seq<char>,
    source: Seq<char>,
) -> Set<Seq<char>> {
    cache.insert(thumbnail_path_spec(cache_dir, source))
}

/// Law: the ensure operation is idempotent. Running it twice for the same
/// source leaves exactly the state the first run produced — one preview
/// file, unchanged by the second run.
pub proof fn lemma_ensure_idempotent(
    cache: Set<Seq<char>>,
    cache_dir: Seq<char>,
    source: Seq<char>,
)
    ensures
        cache_after_ensure(cache_after_ensure(cache, cache_dir, source), cache_dir, source)
            == cache_after_ensure(cache, cache_dir, source),
{
    assert(cache_after_ensure(cache_after_ensure(cache, cache_dir, source), cache_dir, source)
        =~= cache_after_ensure(cache, cache_dir, source));
}

/// The cache model after the previews owed by one batch are ensured, source
/// by source in order. Only creations reach this fold: delete notifications
/// leave the cache untouched.
pub open spec fn cache_after_batch(
    cache: Set<Seq<char>>,
    cache_dir: Seq<char>,
    created: Seq<Seq<char>>,
) -> Set<Seq<char>>
    decreases created.len(),
{
    if created.len() == 0 {
        cache
    } else {
        cache_after_ensure(
            cache_after_batch(cache, cache_dir, created.drop_last()),
            cache_dir,
            created.last(),
        )
    }
}

/// Law: the cache is append-only. Every preview present before a batch is
/// still present after it — in particular, deleting a tracked file never
/// removes its preview from the cache.
pub proof fn lemma_cache_never_pruned(
    cache: Set<Seq<char>>,
    cache_dir: Seq<char>,
    created: Seq<Seq<char>>,
)
    ensures
        forall|p: Seq<char>|
            cache.contains(p) ==> #[trigger] cache_after_batch(
                cache,
                cache_dir,
                created,
            ).contains(p),
    decreases created.len(),
{
    if created.len() > 0 {
        lemma_cache_never_pruned(cache, cache_dir, created.drop_last());
        assert forall|p: Seq<char>| cache.contains(p) implies #[trigger] cache_after_batch(
            cache,
            cache_dir,
            created,
        ).contains(p) by {
            assert(cache_after_batch(cache, cache_dir, created.drop_last()).contains(p));
        };
    }
}

/// Whether a byte sequence decodes as an image; what `image` accepts is a
/// function of the bytes alone.
pub uninterp spec fn image_decodes(bytes: Seq<u8>) -> bool;

#[verifier::external_type_specification]
#[verifier::external_body]
pub struct ExDynamicImage(image::DynamicImage);

#[verifier::external_type_specification]
#[verifier::external_body]
pub struct ExImageError(image::error::ImageError);

/// Relies on image::load_from_memory: guesses the format and decodes the
/// bytes; whether that succeeds depends on the bytes alone.
#[verifier::external_body]
fn decode_image(bytes: &[u8]) -> (r: Result<image::DynamicImage, image::error::ImageError>)
    ensures
        r is Ok <==> image_decodes(bytes@),
{
    image::load_from_memory(bytes)
}

/// The preview produced from a byte sequence: the decoded image scaled into
/// the thumbnail bounding box with its aspect ratio preserved, encoded in
/// the fixed output format. The whole pipeline is a function of the bytes
/// alone, so its result can carry a name; it is meaningful exactly where
/// [`preview_succeeds`] holds.
pub uninterp spec fn preview_of(bytes: Seq<u8>) -> Seq<u8>;

/// Whether the whole preview pipeline (decode, scale, encode) succeeds for a
/// byte sequence; a function of the bytes alone.
pub uninterp spec fn preview_succeeds(bytes: Seq<u8>) -> bool;

/// Relies on image::load_from_memory, DynamicImage::thumbnail with the
/// thumbnail bounding box, and DynamicImage::write_to with the PNG encoder
/// into an in-memory buffer: together one deterministic pipeline from bytes
/// to bytes, whose success and result the two names above stand for.
#[verifier::external_body]
fn render_preview(bytes: &[u8]) -> (r: Result<Vec<u8>, image::error::ImageError>)
    ensures
        r is Ok <==> preview_succeeds(bytes@),
        r is Ok ==> image_decodes(bytes@),
        r matches Ok(out) ==> out@ == preview_of(bytes@),
{
    let img = image::load_from_memory(bytes)?;
    let scaled = img.thumbnail(THUMBNAIL_WIDTH, THUMBNAIL_HEIGHT);
    let mut cursor = std::io::Cursor::new(Vec::new());
    scaled.write_to(&mut cursor, image::ImageOutputFormat::Png)?;
    Ok(cursor.into_inner())
}

/// Relies on ImageError's Display implementation for a description of what
/// went wrong.
#[verifier::external_body]
fn image_error_detail(e: &image::error::ImageError) -> String {
    e.to_string()
}

/// Produces the preview for one source image: decodes the bytes, scales the
/// result into the thumbnail bounding box preserving aspect ratio, and
/// encodes it in the fixed output format. Succeeds exactly where the
/// pipeline does, and the returned bytes are exactly its result.
///
/// Fails with a decode error exactly when the bytes are not a decodable
/// image; an encode failure of the scaled image is the only other error.
/// Writing the result to the cache is the caller's: no write error arises
/// here, and one failing file never aborts the batch around it.
pub fn make_thumbnail_bytes(bytes: &[u8]) -> (r: Result<Vec<u8>, ThumbnailError>)
    ensures
        r is Ok <==> preview_succeeds(bytes@),
        r matches Ok(out) ==> out@ == preview_of(bytes@),
        r is Ok ==> image_decodes(bytes@),
        r matches Err(e) ==> ((e is Decode <==> !image_decodes(bytes@)) && !(e is Write)),
{
    match render_preview(bytes) {
        Ok(out) => Ok(out),
        // The pipeline failed; one more decode tells a bad source apart
        // from an encode failure of the scaled image.
        Err(e) => match decode_image(bytes) {
            Err(de) => Err(ThumbnailError::Decode { detail: image_error_detail(&de) }),
            Ok(_) => Err(ThumbnailError::Encode { detail: image_error_detail(&e) }),
        },
    }
}

} // verus!
