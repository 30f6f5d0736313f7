//! Uploaded images: each is stored under a fresh random name that keeps the
//! extension of the name it was uploaded with.
use vstd::prelude::*;
use crate::error::StoreError;
use crate::sys::{extension_of, is_generated_id, new_id, path_extension};

verus! {

pub open spec fn png() -> Seq<char> {
    seq!['p', 'n', 'g']
}

pub open spec fn public_prefix() -> Seq<char> {
    seq!['/', 'a', 'p', 'i', '/', 'i', 'm', 'a', 'g', 'e', 's', '/']
}

/// The extension an upload named `original` is stored with: its own, or `png`
/// where it has none.
pub open spec fn image_extension(original: Seq<char>) -> Seq<char> {
    match extension_of(original) {
        Some(e) => e,
        None => png(),
    }
}

/// The stored name of an upload named `original` that was given the base name `stem`.
pub open spec fn stored_name(stem: Seq<char>, original: Seq<char>) -> Seq<char> {
    stem + seq!['.'] + image_extension(original)
}

/// The path under which the front end asks for the stored image `name`.
pub open spec fn public_path(name: Seq<char>) -> Seq<char> {
    public_prefix() + name
}

/// The record of a stored upload.
pub struct UploadedFile {
    /// The name the image is stored under.
    pub filename: String,
    /// The name it was uploaded with.
    pub original_name: String,
    /// Its length in bytes.
    pub size: u64,
    /// Where the front end asks for it.
    pub path: String,
}

/// The extension an upload named `original` is stored with.
pub fn extension_for(original: &str) -> (r: String)
    ensures
        r@ == image_extension(original@),
{
    match path_extension(original) {
        Some(e) => e,
        None => {
            proof {
                reveal_strlit("png");
            }
            let r = String::from_str("png");
            assert(r@ =~= png());
            r
        },
    }
}

/// The record of an upload named `original_name` of `size` bytes, stored
/// under the base name `stem`.
pub fn uploaded_file(stem: &str, original_name: String, size: usize) -> (r: UploadedFile)
    ensures
        r.filename@ == stored_name(stem@, original_name@),
        r.original_name == original_name,
        r.size == size as u64,
        r.path@ == public_path(r.filename@),
{
    let ext = extension_for(original_name.as_str());
    proof {
        reveal_strlit(".");
        reveal_strlit("/api/images/");
    }
    let mut filename = String::from_str(stem);
    filename.append(".");
    filename.append(ext.as_str());
    assert(filename@ =~= stored_name(stem@, original_name@));
    let mut path = String::from_str("/api/images/");
    path.append(filename.as_str());
    assert(path@ =~= public_path(filename@));
    UploadedFile { filename, original_name, size: size as u64, path }
}

/// Stores an upload named `filename` with content `data` under a fresh random
/// base name: the record to return; the content goes to the images directory
/// under the record's `filename`, unchanged.
pub fn save_image(filename: String, data: &Vec<u8>) -> (r: UploadedFile)
    ensures
        exists|stem: Seq<char>|
            is_generated_id(stem) && r.filename@ == #[trigger] stored_name(stem, filename@),
        r.original_name == filename,
        r.size == data@.len(),
        r.path@ == public_path(r.filename@),
{
    let stem = new_id();
    let r = uploaded_file(stem.as_str(), filename, data.len());
    assert(is_generated_id(stem@) && r.filename@ == stored_name(stem@, r.original_name@));
    r
}

/// The result of looking up a stored image, from its path and whether a file
/// is there.
pub fn found_image(path: String, exists: bool) -> (r: Result<String, StoreError>)
    ensures
        exists ==> r == Ok::<String, StoreError>(path),
        !exists ==> r matches Err(StoreError::ImageNotFound),
{
    if exists {
        Ok(path)
    } else {
        Err(StoreError::ImageNotFound)
    }
}

/// A stored image keeps the extension it was uploaded with (`png` where it
/// had none): its name ends in `.` and that extension, and its public path
/// ends in its name.
pub proof fn lemma_stored_name_keeps_extension(stem: Seq<char>, original: Seq<char>)
    ensures
        ({
            let n = stored_name(stem, original);
            let ext = image_extension(original);
            &&& n.len() == stem.len() + 1 + ext.len()
            &&& n.subrange(n.len() - ext.len() - 1, n.len() as int) == seq!['.'] + ext
            &&& extension_of(original) matches Some(e) ==> ext == e
            &&& extension_of(original) is None ==> ext == png()
            &&& public_path(n).subrange(public_prefix().len() as int, public_path(n).len() as int)
                == n
        }),
{
    let n = stored_name(stem, original);
    let ext = image_extension(original);
    assert(n.subrange(n.len() - ext.len() - 1, n.len() as int) =~= seq!['.'] + ext);
    assert(public_path(n).subrange(public_prefix().len() as int, public_path(n).len() as int)
        =~= n);
}

} // verus!
