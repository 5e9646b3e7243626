//! Guessing a file's media type from its path.
//!
//! The upload refuses a file whose extension maps to no known media type,
//! before the file is even opened. The guess is delegated to an extension
//! table; what that table answers for a given path is named here by
//! [`media_type_guess`], and every contract that depends on the guess
//! speaks through that name.

use vstd::prelude::*;

verus! {

/// What the media-type table answers for a path: the essence
/// (`type/subtype`) of the first media type the path's extension maps to,
/// if it maps to any. A function of the path text alone.
pub uninterp spec fn media_type_guess(path: Seq<char>) -> Option<Seq<char>>;

/// Relies on `mime_guess::from_path` (a lookup of the path's extension in
/// a fixed table — no disk access, so the answer depends on the path text
/// alone) and on `Mime::essence_str` for the `type/subtype` text.
#[verifier::external_body]
pub(crate) fn guess_media_type(path: &str) -> (r: Option<String>)
    ensures
        r is Some <==> media_type_guess(path@) is Some,
        r matches Some(m) ==> Some(m@) == media_type_guess(path@),
{
    match mime_guess::from_path(path).first() {
        Some(m) => Some(m.essence_str().to_owned()),
        None => None,
    }
}

} // verus!
