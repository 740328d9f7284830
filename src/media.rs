//! Content types inferred from a path's extension.

use vstd::prelude::*;

verus! {

/// The MIME type that `mime_guess` infers first for a path, from its
/// extension alone; `None` where it knows none.
pub uninterp spec fn guessed_mime(path: Seq<char>) -> Option<Seq<char>>;

/// Relies on `mime_guess::from_path` and `MimeGuess::first_raw`: the first
/// guessed type for the path's extension, with no disk access.
#[verifier::external_body]
fn guess_mime(path: &str) -> (r: Option<String>)
    ensures
        match r {
            Some(m) => guessed_mime(path@) == Some(m@),
            None => guessed_mime(path@) is None,
        },
{
    mime_guess::from_path(path).first_raw().map(String::from)
}

/// A content type counts as video when its text begins with `video`.
pub open spec fn is_video_type(mime: Seq<char>) -> bool {
    mime.len() >= 5 && mime.subrange(0, 5) == seq!['v', 'i', 'd', 'e', 'o']
}

/// A path names video content when the type inferred for it is a video type.
/// A path with no inferred type is treated as `application/octet-stream`.
pub open spec fn is_video_path(path: Seq<char>) -> bool {
    match guessed_mime(path) {
        Some(m) => is_video_type(m),
        None => false,
    }
}

/// Whether the content type `mime` begins with `video`.
pub fn is_video_mime(mime: &str) -> (r: bool)
    ensures
        r == is_video_type(mime@),
{
    let n = mime.unicode_len();
    if n < 5 {
        return false;
    }
    let ok = mime.get_char(0) == 'v' && mime.get_char(1) == 'i' && mime.get_char(2) == 'd'
        && mime.get_char(3) == 'e' && mime.get_char(4) == 'o';
    assert(ok <==> mime@.subrange(0, 5) =~= seq!['v', 'i', 'd', 'e', 'o']);
    ok
}

/// Whether the type inferred for `path` from its extension is a video type.
pub fn is_video_file(path: &str) -> (r: bool)
    ensures
        r == is_video_path(path@),
{
    match guess_mime(path) {
        Some(m) => is_video_mime(m.as_str()),
        None => false,
    }
}

} // verus!
