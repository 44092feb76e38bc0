use vstd::prelude::*;

use crate::media::{Base64Rejection, FetchError};
use crate::pipeline::{UploadError, UploadedFile};

verus! {

/// The status class of the answer to an upload request.
#[derive(Debug, Clone, Copy, PartialEq, Eq, Structural)]
pub enum Reply {
    Success,
    BadRequest,
    UnsupportedMediaType,
    InternalServerError,
}

/// Why one item of an upload request was not stored.
#[derive(Debug)]
pub enum ItemFailure {
    /// The declared or detected MIME type is not supported.
    UnsupportedMediaType,
    /// An inline item is not valid base64.
    MalformedBase64,
    /// The upload itself failed.
    Upload(UploadError),
    /// A remote fetch failed.
    Fetch(FetchError),
}

/// The answer a failed item ends the request with: client faults give a
/// client-class status, storage and transport faults a server-class one.
pub open spec fn reply_for_failure(f: ItemFailure) -> Reply {
    match f {
        ItemFailure::UnsupportedMediaType => Reply::UnsupportedMediaType,
        ItemFailure::MalformedBase64 => Reply::BadRequest,
        ItemFailure::Upload(UploadError::Client(_)) => Reply::BadRequest,
        ItemFailure::Upload(UploadError::Server(_)) => Reply::InternalServerError,
        ItemFailure::Fetch(FetchError::ServerReturnedError) => Reply::BadRequest,
        ItemFailure::Fetch(FetchError::UnsupportedMediaType) => Reply::BadRequest,
        ItemFailure::Fetch(FetchError::FetchError(_)) => Reply::InternalServerError,
    }
}

/// The answer a request ends with when one of its items fails.
pub fn failure_reply(f: &ItemFailure) -> (r: Reply)
    ensures
        r == reply_for_failure(*f),
{
    match f {
        ItemFailure::UnsupportedMediaType => Reply::UnsupportedMediaType,
        ItemFailure::MalformedBase64 => Reply::BadRequest,
        ItemFailure::Upload(UploadError::Client(_)) => Reply::BadRequest,
        ItemFailure::Upload(UploadError::Server(_)) => Reply::InternalServerError,
        ItemFailure::Fetch(FetchError::ServerReturnedError) => Reply::BadRequest,
        ItemFailure::Fetch(FetchError::UnsupportedMediaType) => Reply::BadRequest,
        ItemFailure::Fetch(FetchError::FetchError(_)) => Reply::InternalServerError,
    }
}

/// The failure an inline base64 item is reported with.
pub fn base64_failure(r: Base64Rejection) -> (f: ItemFailure)
    ensures
        r == Base64Rejection::Malformed ==> f is MalformedBase64,
        r == Base64Rejection::UnsupportedMediaType ==> f is UnsupportedMediaType,
{
    match r {
        Base64Rejection::Malformed => ItemFailure::MalformedBase64,
        Base64Rejection::UnsupportedMediaType => ItemFailure::UnsupportedMediaType,
    }
}

/// The answer to a request whose items were all handled: success when at
/// least one file was stored.
pub fn completion_reply(stored: usize) -> (r: Reply)
    ensures
        stored > 0 ==> r == Reply::Success,
        stored == 0 ==> r == Reply::BadRequest,
{
    if stored > 0 {
        Reply::Success
    } else {
        Reply::BadRequest
    }
}

/// The identifiers of the stored files, in order.
pub fn uploaded_ids(files: &Vec<UploadedFile>) -> (ids: Vec<String>)
    ensures
        ids@.len() == files@.len(),
        forall|i: int| 0 <= i < files@.len() ==> #[trigger] ids@[i]@ == files@[i].id@,
{
    let mut ids: Vec<String> = Vec::new();
    let mut i: usize = 0;
    while i < files.len()
        invariant
            i <= files@.len(),
            ids@.len() == i,
            forall|j: int| 0 <= j < i ==> #[trigger] ids@[j]@ == files@[j].id@,
        decreases files@.len() - i,
    {
        ids.push(files[i].id.clone());
        i = i + 1;
    }
    ids
}

} // verus!
