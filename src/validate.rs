//! The input check that precedes any request.

use vstd::prelude::*;
use crate::error::ProcessError;
use crate::media::{is_video_file, is_video_path};

verus! {

/// The final component of a path, as `std::path::Path::file_name` gives it;
/// `None` where the path ends in `..` or has no component.
pub uninterp spec fn file_name_of(path: Seq<char>) -> Option<Seq<char>>;

/// Relies on `std::path::Path::file_name`: the last normal component of the
/// path. A component of a `&str` path is itself valid UTF-8.
#[verifier::external_body]
fn file_name(path: &str) -> (r: Option<String>)
    ensures
        match r {
            Some(n) => file_name_of(path@) == Some(n@),
            None => file_name_of(path@) is None,
        },
{
    std::path::Path::new(path).file_name().and_then(|n| n.to_str()).map(String::from)
}

/// A path that exists and names video content, with its file name.
#[derive(Debug, Clone)]
pub struct VideoFile {
    path: String,
    file_name: String,
}

impl View for VideoFile {
    /// The path and its file-name component.
    type V = (Seq<char>, Seq<char>);

    closed spec fn view(&self) -> (Seq<char>, Seq<char>) {
        (self.path@, self.file_name@)
    }
}

impl VideoFile {
    /// The validated path.
    pub fn path(&self) -> (r: &str)
        ensures
            r@ == self@.0,
    {
        self.path.as_str()
    }

    /// The path's file-name component, the name under which the upload is
    /// negotiated.
    pub fn file_name(&self) -> (r: &str)
        ensures
            r@ == self@.1,
    {
        self.file_name.as_str()
    }
}

/// The outcome of checking `path`, given whether it exists: its file name, or
/// the first reason to refuse it.
pub open spec fn validation(path: Seq<char>, exists: bool) -> Result<Seq<char>, ProcessError> {
    if !exists {
        Err(ProcessError::MissingFile)
    } else if !is_video_path(path) {
        Err(ProcessError::NotVideo)
    } else {
        match file_name_of(path) {
            Some(n) => Ok(n),
            None => Err(ProcessError::InvalidFileName),
        }
    }
}

/// Checks an input path whose existence the caller has looked up: it must
/// exist, name video content and have a file name.
pub fn validate_input(path: &str, exists: bool) -> (r: Result<VideoFile, ProcessError>)
    ensures
        match validation(path@, exists) {
            Ok(n) => r is Ok && r->Ok_0@ == (path@, n),
            Err(e) => r == Err::<VideoFile, ProcessError>(e),
        },
{
    if !exists {
        return Err(ProcessError::MissingFile);
    }
    if !is_video_file(path) {
        return Err(ProcessError::NotVideo);
    }
    match file_name(path) {
        Some(n) => Ok(VideoFile { path: path.to_owned(), file_name: n }),
        None => Err(ProcessError::InvalidFileName),
    }
}

/// A path that does not exist is refused as missing, whatever it names; no
/// `VideoFile` comes of it, so no request can follow.
pub proof fn missing_path_is_refused(path: Seq<char>)
    ensures
        validation(path, false) == Err::<Seq<char>, ProcessError>(ProcessError::MissingFile),
{
}

/// A path whose inferred type is not a video type is refused, whether it
/// exists or not, and never yields a `VideoFile`; if it exists, the reason is
/// that it is not a video.
pub proof fn non_video_path_is_refused(path: Seq<char>, exists: bool)
    requires
        !is_video_path(path),
    ensures
        validation(path, exists) is Err,
        validation(path, exists)->Err_0.spec_is_input_error(),
        exists ==> validation(path, exists) == Err::<Seq<char>, ProcessError>(ProcessError::NotVideo),
{
}

} // verus!
