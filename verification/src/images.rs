//! The rules of the image store: how many images of a listing are fetched,
//! how large one may be, how the stored files are named, and which paths are
//! handed on.
use vstd::prelude::*;

verus! {

/// At most this many images of a listing are fetched.
pub const MAX_IMAGES: usize = 20;

/// An image larger than this many bytes is skipped.
pub const MAX_IMAGE_BYTES: usize = 4 * 1024 * 1024;

/// At most this many images are downloaded at the same time.
pub const MAX_PARALLEL_DOWNLOADS: usize = 5;

/// The image addresses that are fetched: the first [`MAX_IMAGES`] of them, in order.
pub fn limit_image_urls(urls: Vec<String>) -> (r: Vec<String>)
    ensures
        r@.len() <= MAX_IMAGES,
        urls@.len() <= MAX_IMAGES ==> r@ == urls@,
        urls@.len() > MAX_IMAGES ==> r@ == urls@.take(MAX_IMAGES as int),
{
    let mut urls = urls;
    urls.truncate(MAX_IMAGES);
    urls
}

/// Whether an image of `len` bytes is kept.
pub fn image_size_allowed(len: usize) -> (r: bool)
    ensures
        r == (len <= MAX_IMAGE_BYTES),
{
    len <= MAX_IMAGE_BYTES
}

/// The paths of the images that were stored, in the order of the downloads;
/// a failed download (`None`) leaves no path.
pub open spec fn stored_paths(results: Seq<Option<Seq<char>>>) -> Seq<Seq<char>>
    decreases results.len(),
{
    if results.len() == 0 {
        Seq::empty()
    } else {
        let rest = stored_paths(results.drop_last());
        match results.last() {
            Some(p) => rest.push(p),
            None => rest,
        }
    }
}

/// Keeps the paths of the downloads that succeeded, in order.
pub fn collect_stored_paths(results: Vec<Option<String>>) -> (r: Vec<String>)
    ensures
        r.deep_view() == stored_paths(results.deep_view()),
{
    let mut out: Vec<String> = Vec::new();
    let n = results.len();
    let mut i: usize = 0;
    while i < n
        invariant
            n == results.len(),
            i <= n,
            out.deep_view() == stored_paths(results.deep_view().take(i as int)),
        decreases n - i,
    {
        let ghost rs = results.deep_view();
        assert(rs.take(i + 1).drop_last() =~= rs.take(i as int));
        match &results[i] {
            Some(p) => {
                out.push(p.clone());
                assert(out.deep_view() =~= stored_paths(rs.take(i + 1)));
            },
            None => {},
        }
        i = i + 1;
    }
    assert(results.deep_view().take(n as int) =~= results.deep_view());
    out
}

/// Whether `c` is a lowercase hexadecimal digit.
pub open spec fn lower_hex_digit(c: char) -> bool {
    ('0' <= c && c <= '9') || ('a' <= c && c <= 'f')
}

/// The hyphenated lowercase text form of a UUID:
/// `xxxxxxxx-xxxx-xxxx-xxxx-xxxxxxxxxxxx`.
pub open spec fn hyphenated_uuid(s: Seq<char>) -> bool {
    &&& s.len() == 36
    &&& forall|i: int|
        0 <= i < 36 ==> if i == 8 || i == 13 || i == 18 || i == 23 {
            #[trigger] s[i] == '-'
        } else {
            lower_hex_digit(s[i])
        }
}

/// Draws 16 bytes with `getrandom::fill` and makes a version-4 UUID of them
/// with `uuid::Builder::from_random_bytes(..).into_uuid()`, formatted with
/// `to_string`. The value is random and the draw may fail (`None`, when the
/// system has no entropy source); claimed is only the shape of the text:
/// `Display` for `Uuid` writes the hyphenated lowercase form (36 characters,
/// hyphens at 8, 13, 18 and 23, lowercase hex digits elsewhere).
#[verifier::external_body]
fn random_uuid_text() -> (r: Option<String>)
    ensures
        r matches Some(s) ==> hyphenated_uuid(s@),
{
    let mut bytes = [0u8; 16];
    match getrandom::fill(&mut bytes) {
        Ok(()) => Some(uuid::Builder::from_random_bytes(bytes).into_uuid().to_string()),
        Err(_) => None,
    }
}

/// A fresh name for the directory that holds the images of one request;
/// `None` when no random bytes could be drawn.
pub fn new_request_dir_name() -> (r: Option<String>)
    ensures
        r matches Some(s) ==> hyphenated_uuid(s@),
{
    random_uuid_text()
}

/// The file name of a stored image: its id and the `.jpg` extension.
pub fn image_file_name(id: &str) -> (r: String)
    ensures
        r@ == id@ + ".jpg"@,
{
    let mut r = id.to_owned();
    r.append(".jpg");
    r
}

/// A fresh file name for a stored image: a random UUID and `.jpg`; `None`
/// when no random bytes could be drawn.
pub fn new_image_file_name() -> (r: Option<String>)
    ensures
        r matches Some(n) ==> exists|id: Seq<char>| hyphenated_uuid(id) && n@ == id + ".jpg"@,
{
    match random_uuid_text() {
        Some(id) => {
            let r = image_file_name(id.as_str());
            assert(hyphenated_uuid(id@) && r@ == id@ + ".jpg"@);
            Some(r)
        },
        None => None,
    }
}

/// The JPEG file that an image in `bytes` is stored as: the image decoded
/// (its format guessed from its first bytes) and encoded again as JPEG, or
/// `None` when it cannot be decoded or encoded.
pub uninterp spec fn jpeg_reencoding(bytes: Seq<u8>) -> Option<Seq<u8>>;

/// Calls `image::load_from_memory` on `bytes` and `DynamicImage::write_to`
/// with `ImageFormat::Jpeg` into a buffer. Claimed: the result is
/// `jpeg_reencoding(bytes)`; a decoding or encoding error gives `None`.
#[verifier::external_body]
fn reencode_as_jpeg(bytes: &[u8]) -> (r: Option<Vec<u8>>)
    ensures
        r is Some <==> jpeg_reencoding(bytes@) is Some,
        r matches Some(v) ==> v@ == jpeg_reencoding(bytes@)->0,
{
    let img = image::load_from_memory(bytes).ok()?;
    let mut buf = std::io::Cursor::new(Vec::new());
    img.write_to(&mut buf, image::ImageFormat::Jpeg).ok()?;
    Some(buf.into_inner())
}

/// The bytes stored for a downloaded image: nothing for an image larger than
/// [`MAX_IMAGE_BYTES`], else its JPEG re-encoding (nothing when it is not an
/// image that can be re-encoded).
pub fn stored_image_bytes(bytes: &[u8]) -> (r: Option<Vec<u8>>)
    ensures
        bytes@.len() > MAX_IMAGE_BYTES ==> r is None,
        bytes@.len() <= MAX_IMAGE_BYTES ==> (r is Some <==> jpeg_reencoding(bytes@) is Some),
        r matches Some(v) ==> v@ == jpeg_reencoding(bytes@)->0,
{
    if !image_size_allowed(bytes.len()) {
        return None;
    }
    reencode_as_jpeg(bytes)
}

/// How long, in seconds, an image directory is kept after its last change;
/// older ones are left over from failed requests.
pub const STALE_IMAGE_DIR_SECS: u64 = 300;

/// Whether an entry of the image store is removed in a clean-up: it is a
/// directory older than [`STALE_IMAGE_DIR_SECS`]. An entry whose age is not
/// known (`None`) is kept.
pub fn should_remove_image_dir(is_dir: bool, age_secs: Option<u64>) -> (r: bool)
    ensures
        r <==> (is_dir && (age_secs matches Some(a) && a > STALE_IMAGE_DIR_SECS)),
{
    match age_secs {
        Some(a) => is_dir && a > STALE_IMAGE_DIR_SECS,
        None => false,
    }
}

} // verus!
