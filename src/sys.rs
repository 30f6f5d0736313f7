//! The outside calls that the store builds on: fresh ids, the clock, and the
//! extension of a file name.
use vstd::prelude::*;

verus! {

/// A character of a hyphenated lower-case UUID.
pub open spec fn is_id_char(c: char) -> bool {
    ('0' <= c && c <= '9') || ('a' <= c && c <= 'f') || c == '-'
}

/// What every generated id looks like: 36 characters of lower-case hex digits and hyphens.
pub open spec fn is_generated_id(s: Seq<char>) -> bool {
    &&& s.len() == 36
    &&& forall|i: int| 0 <= i < s.len() ==> is_id_char(#[trigger] s[i])
}

/// The extension of the path `name`, as `Path::extension` gives it.
pub uninterp spec fn extension_of(name: Seq<char>) -> Option<Seq<char>>;

/// Relies on `uuid::Uuid::new_v4` and the `Display` of `Uuid`, which writes the
/// hyphenated lower-case form: a random id of 36 characters.
#[verifier::external_body]
pub(crate) fn new_id() -> (r: String)
    ensures
        is_generated_id(r@),
{
    uuid::Uuid::new_v4().to_string()
}

/// Relies on `chrono::Utc::now` and `DateTime::to_rfc3339`: the current time as
/// RFC 3339 text, which is never empty.
#[verifier::external_body]
pub(crate) fn now_rfc3339() -> (r: String)
    ensures
        r@.len() > 0,
{
    chrono::Utc::now().to_rfc3339()
}

/// Relies on `std::path::Path::extension`: the part of the file name after its
/// last `.`, absent where the name holds no `.`; it holds neither `.` nor `/`.
#[verifier::external_body]
pub(crate) fn path_extension(name: &str) -> (r: Option<String>)
    ensures
        match r {
            Some(e) => extension_of(name@) == Some(e@),
            None => extension_of(name@) is None,
        },
        (forall|i: int| 0 <= i < name@.len() ==> name@[i] != '.') ==> r is None,
        r matches Some(e) ==> forall|i: int|
            0 <= i < e@.len() ==> e@[i] != '.' && e@[i] != '/',
{
    std::path::Path::new(name).extension().and_then(|s| s.to_str()).map(|s| s.to_string())
}

} // verus!
