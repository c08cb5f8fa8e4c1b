//! Names under which uploaded images are stored.
use crate::ids::{uuid_hyphenated, uuid_text};
use crate::image_service::STORAGE_PATH;
use vstd::prelude::*;
use vstd::string::*;

verus! {

/// The extension of the last component of a path (text after its last `.`, not
/// counting a leading one), as `std::path::Path::extension` finds it.
pub uninterp spec fn path_extension(path: Seq<char>) -> Option<Seq<char>>;

/// The lowercase mapping of a text (`str::to_lowercase`).
pub uninterp spec fn lowercase_of(s: Seq<char>) -> Seq<char>;

/// Relies on std's `Path::extension` (the extension is a slice of the text, so
/// converting it back with `to_str` never fails).
#[verifier::external_body]
fn file_extension(path: &str) -> (r: Option<String>)
    ensures
        r matches Some(e) ==> path_extension(path@) == Some(e@),
        r is None ==> path_extension(path@) is None,
{
    std::path::Path::new(path).extension().and_then(|e| e.to_str()).map(String::from)
}

/// Relies on std's `str::to_lowercase`.
#[verifier::external_body]
fn to_lowercase(s: &str) -> (r: String)
    ensures
        r@ == lowercase_of(s@),
{
    s.to_lowercase()
}

/// Relies on uuid's `Uuid::new_v4`: a random identifier (nothing is known of it).
#[verifier::external_body]
fn random_id() -> (r: u128) {
    uuid::Uuid::new_v4().as_u128()
}

/// The stored file name for identifier `id` and an original file name: the
/// identifier, a dot, and the original extension in lowercase (`jpg` when none).
pub open spec fn stored_name(id: u128, original: Seq<char>) -> Seq<char> {
    let ext = match path_extension(original) {
        Some(e) => e,
        None => "jpg"@,
    };
    uuid_hyphenated(id) + "."@ + lowercase_of(ext)
}

/// (name, stored name) for identifier `id`: the name is `prefix` and the stored name.
pub fn storage_name_for(prefix: &str, id: u128, original_filename: &str) -> (r: (String, String))
    ensures
        r.1@ == stored_name(id, original_filename@),
        r.0@ == prefix@ + stored_name(id, original_filename@),
{
    let ext = match file_extension(original_filename) {
        Some(e) => e,
        None => "jpg".to_string(),
    };
    let lower = to_lowercase(ext.as_str());
    let filename = uuid_text(id).concat(".").concat(lower.as_str());
    let path = prefix.to_string().concat(filename.as_str());
    (path, filename)
}

/// (file path, file name) of a local upload under `STORAGE_PATH`, for a fresh
/// random identifier.
pub fn generate_storage_path(original_filename: &str) -> (r: (String, String))
    ensures
        exists|id: u128| r.1@ == stored_name(id, original_filename@),
        r.0@ == STORAGE_PATH@ + "/"@ + r.1@,
{
    let id = random_id();
    let prefix = STORAGE_PATH.to_string().concat("/");
    let r = storage_name_for(prefix.as_str(), id, original_filename);
    assert(r.0@ == STORAGE_PATH@ + "/"@ + r.1@);
    r
}

/// (object key, file name) of an upload in object storage, under `images/`,
/// for a fresh random identifier.
pub fn generate_object_key(original_filename: &str) -> (r: (String, String))
    ensures
        exists|id: u128| r.1@ == stored_name(id, original_filename@),
        r.0@ == "images/"@ + r.1@,
{
    let id = random_id();
    storage_name_for("images/", id, original_filename)
}

} // verus!
