//! The transfer cycle against the remote file store: the exact request URL
//! for each operation, and the classification of what a download brought
//! back. The HTTP exchange itself is the caller's: it hands the status and
//! body bytes in, and this module says what they mean.
use vstd::prelude::*;
use vstd::string::StringExecFns;
use crate::hashing::{digest_bytes, digest_hex};

verus! {

/// How one download attempt failed.
#[derive(Clone, Copy, Debug, PartialEq, Eq, Structural)]
pub enum DownloadError {
    /// The HTTP exchange failed, or the server answered outside the success
    /// range; carries the HTTP status, or 0 when no response arrived.
    Network(u16),
    /// The response body could not be read.
    Io,
}

/// What one operation asks of the remote store.
#[derive(Clone, Copy, Debug, PartialEq, Eq, Structural)]
pub enum OperationKind {
    Upload,
    Download,
    Delete,
}

/// Whether an HTTP status is in the success class.
pub open spec fn status_is_success(status: u16) -> bool {
    200 <= status < 300
}

/// The URL an upload is posted to: the multipart form goes to the store's
/// fixed upload route.
pub fn upload_url(server_url: &str) -> (url: String)
    ensures
        url@ == server_url@ + "/upload"@,
{
    String::from_str(server_url).concat("/upload")
}

/// The URL a download is fetched from: the plain route, or the alternate
/// chunked-transfer route when `chunked` is set. The flag picks the route
/// only; what comes back is treated identically.
pub fn download_url(server_url: &str, filename: &str, chunked: bool) -> (url: String)
    ensures
        url@ == server_url@ + (if chunked {
            "/download-chunked/"@
        } else {
            "/download/"@
        }) + filename@,
{
    let route = if chunked {
        "/download-chunked/"
    } else {
        "/download/"
    };
    String::from_str(server_url).concat(route).concat(filename)
}

/// The URL a delete is sent to: the filename appended directly to the server
/// URL.
pub fn delete_url(server_url: &str, filename: &str) -> (url: String)
    ensures
        url@ == server_url@ + "/"@ + filename@,
{
    String::from_str(server_url).concat("/").concat(filename)
}

/// What a completed download is reported as: how many bytes arrived, and
/// their digest as lowercase hexadecimal.
#[derive(Debug)]
pub struct DownloadSummary {
    pub size: usize,
    pub digest: String,
}

/// Classify a download exchange that produced an HTTP status and a body:
/// a success-class status yields the body's size and digest; any other
/// status is a failure carrying that status.
pub fn classify_download(status: u16, body: &Vec<u8>) -> (r: Result<DownloadSummary, DownloadError>)
    ensures
        status_is_success(status) ==> (r matches Ok(s) && s.size == body@.len() && s.digest@
            == digest_hex(body@)),
        !status_is_success(status) ==> r == Err::<DownloadSummary, DownloadError>(
            DownloadError::Network(status),
        ),
{
    if 200 <= status && status < 300 {
        let digest = digest_bytes(body);
        Ok(DownloadSummary { size: body.len(), digest })
    } else {
        Err(DownloadError::Network(status))
    }
}

/// Law: the client computes a download's size and digest from the body bytes
/// alone; the chunked flag picks the URL and nothing else. Two downloads that
/// deliver the same bytes — as the plain and chunked routes of a well-behaved
/// server do for one filename — therefore report the same size and the same
/// digest.
pub proof fn lemma_chunked_plain_agree(plain_body: Seq<u8>, chunked_body: Seq<u8>)
    requires
        plain_body == chunked_body,
    ensures
        plain_body.len() == chunked_body.len(),
        digest_hex(plain_body) == digest_hex(chunked_body),
{
}

} // verus!
