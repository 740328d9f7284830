//! The upload negotiation and the upload that follows it.

use vstd::prelude::*;
use crate::error::ProcessError;
use crate::json::{json_document, json_strings, parse_json, string_at};

verus! {

/// Where to send the file's bytes, and the asset they become.
#[derive(Debug, Clone)]
pub struct UploadTarget {
    url: String,
    asset_id: String,
}

impl View for UploadTarget {
    /// The upload URL and the asset identifier.
    type V = (Seq<char>, Seq<char>);

    closed spec fn view(&self) -> (Seq<char>, Seq<char>) {
        (self.url@, self.asset_id@)
    }
}

impl UploadTarget {
    /// The URL that receives the file's bytes.
    pub fn url(&self) -> (r: &str)
        ensures
            r@ == self@.0,
    {
        self.url.as_str()
    }

    /// The identifier of the asset that the upload creates.
    pub fn asset_id(&self) -> (r: &str)
        ensures
            r@ == self@.1,
    {
        self.asset_id.as_str()
    }
}

/// The status with which the service grants an upload.
pub const STATUS_OK: u16 = 200;

/// The status with which the service refuses the credentials.
pub const STATUS_UNAUTHORIZED: u16 = 401;

/// What the negotiation status alone decides: `Ok` where the body is to be
/// read and parsed, otherwise the error, without looking at any body.
pub open spec fn negotiation_status_outcome(status: u16) -> Result<(), ProcessError> {
    if status == STATUS_OK {
        Ok(())
    } else if status == STATUS_UNAUTHORIZED {
        Err(ProcessError::Unauthorized)
    } else {
        Err(ProcessError::UnexpectedStatus { status })
    }
}

/// Interprets the status of the negotiation response. Only a success status
/// leads on to reading the body; the body is not an input here.
pub fn check_negotiation_status(status: u16) -> (r: Result<(), ProcessError>)
    ensures
        r == negotiation_status_outcome(status),
{
    if status == STATUS_OK {
        Ok(())
    } else if status == STATUS_UNAUTHORIZED {
        Err(ProcessError::Unauthorized)
    } else {
        Err(ProcessError::UnexpectedStatus { status })
    }
}

/// The upload target that a negotiation document describes: the string at
/// `url` and the string at `id` inside `asset`, both non-empty.
pub open spec fn target_in(doc: Map<Seq<char>, Seq<char>>) -> Option<(Seq<char>, Seq<char>)> {
    if doc.contains_key("/url"@) && doc.contains_key("/asset/id"@) && doc["/url"@].len() > 0
        && doc["/asset/id"@].len() > 0 {
        Some((doc["/url"@], doc["/asset/id"@]))
    } else {
        None
    }
}

/// What a negotiation body yields: its upload target, or a deserialization
/// error where it is not JSON or lacks either string.
pub open spec fn negotiation_body_outcome(body: Seq<char>) -> Result<(Seq<char>, Seq<char>), ProcessError> {
    match json_document(body) {
        Some(doc) => match target_in(doc) {
            Some(t) => Ok(t),
            None => Err(ProcessError::Deserialization),
        },
        None => Err(ProcessError::Deserialization),
    }
}

/// Reads the upload target out of a parsed negotiation document.
pub fn upload_target_from(doc: &serde_json::Value) -> (r: Result<UploadTarget, ProcessError>)
    ensures
        match target_in(json_strings(*doc)) {
            Some(t) => r is Ok && r->Ok_0@ == t,
            None => r == Err::<UploadTarget, ProcessError>(ProcessError::Deserialization),
        },
{
    let url = match string_at(doc, "/url") {
        Some(u) => u,
        None => return Err(ProcessError::Deserialization),
    };
    let asset_id = match string_at(doc, "/asset/id") {
        Some(a) => a,
        None => return Err(ProcessError::Deserialization),
    };
    if url.as_str().is_empty() || asset_id.as_str().is_empty() {
        return Err(ProcessError::Deserialization);
    }
    Ok(UploadTarget { url, asset_id })
}

/// Parses the body of a successful negotiation response.
pub fn parse_upload_target(body: &str) -> (r: Result<UploadTarget, ProcessError>)
    ensures
        match negotiation_body_outcome(body@) {
            Ok(t) => r is Ok && r->Ok_0@ == t,
            Err(e) => r == Err::<UploadTarget, ProcessError>(e),
        },
{
    match parse_json(body) {
        Some(doc) => upload_target_from(&doc),
        None => Err(ProcessError::Deserialization),
    }
}

/// What a whole negotiation response yields: the status decides first, and
/// only a success status lets the body decide.
pub open spec fn negotiation_outcome(status: u16, body: Seq<char>) -> Result<(Seq<char>, Seq<char>), ProcessError> {
    match negotiation_status_outcome(status) {
        Err(e) => Err(e),
        Ok(_) => negotiation_body_outcome(body),
    }
}

/// Interprets a whole negotiation response: the body is parsed only where the
/// status is a success.
pub fn interpret_negotiation(status: u16, body: &str) -> (r: Result<UploadTarget, ProcessError>)
    ensures
        match negotiation_outcome(status, body@) {
            Ok(t) => r is Ok && r->Ok_0@ == t,
            Err(e) => r == Err::<UploadTarget, ProcessError>(e),
        },
{
    match check_negotiation_status(status) {
        Err(e) => Err(e),
        Ok(()) => parse_upload_target(body),
    }
}

/// Unless the status is a success, the body plays no part: any two bodies give
/// the same error, and a refused status gives the authorization error.
pub proof fn status_decides_before_body(status: u16, body1: Seq<char>, body2: Seq<char>)
    requires
        status != STATUS_OK,
    ensures
        negotiation_outcome(status, body1) == negotiation_outcome(status, body2),
        negotiation_outcome(status, body1) is Err,
        status == STATUS_UNAUTHORIZED ==> negotiation_outcome(status, body1)
            == Err::<(Seq<char>, Seq<char>), ProcessError>(ProcessError::Unauthorized),
{
}

/// A success status with a body that is not JSON yields the deserialization
/// error, and no upload target.
pub proof fn malformed_body_is_refused(body: Seq<char>)
    requires
        json_document(body) is None,
    ensures
        negotiation_outcome(STATUS_OK, body)
            == Err::<(Seq<char>, Seq<char>), ProcessError>(ProcessError::Deserialization),
{
}

/// Interprets the status of the upload response: any status in `200..300`
/// accepts the bytes, any other rejects them.
pub fn check_upload_status(status: u16) -> (r: Result<(), ProcessError>)
    ensures
        200 <= status < 300 ==> r is Ok,
        !(200 <= status < 300) ==> r == Err::<(), ProcessError>(ProcessError::UploadRejected { status }),
{
    if 200 <= status && status < 300 {
        Ok(())
    } else {
        Err(ProcessError::UploadRejected { status })
    }
}

} // verus!
