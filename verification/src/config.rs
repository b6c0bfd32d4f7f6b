//! Run configuration and the per-iteration plan: which operations are
//! requested, whether they may run at all, and the exact requests one
//! iteration issues, in order.
use vstd::prelude::*;
use crate::transfer::{delete_url, download_url, upload_url, OperationKind};

verus! {

/// A fatal misconfiguration: the run cannot start.
#[derive(Clone, Copy, Debug, PartialEq, Eq, Structural)]
pub enum ConfigError {
    /// An upload or download was requested without a server URL.
    MissingServerUrl,
}

/// One run's configuration, as resolved from the command line.
pub struct RunConfig {
    /// Base URL of the remote store; required if anything is transferred.
    pub server_url: Option<String>,
    /// Local path of the file to upload each iteration, if uploading.
    pub upload_path: Option<String>,
    /// Remote name of the file to download each iteration, if downloading.
    pub download_name: Option<String>,
    /// Whether downloads use the chunked-transfer route.
    pub chunked: bool,
    /// Timeout, in seconds, applied to each upload.
    pub timeout_secs: u64,
    /// How many iterations to run.
    pub iterations: usize,
}

/// Whether the configuration asks for any remote operation.
pub open spec fn needs_server(c: RunConfig) -> bool {
    c.upload_path is Some || c.download_name is Some
}

/// Check a configuration before any network call: a transfer without a
/// server URL is a fatal error, and nothing else is.
pub fn check_config(c: &RunConfig) -> (r: Result<(), ConfigError>)
    ensures
        r is Ok <==> (!needs_server(*c) || c.server_url is Some),
        r is Err ==> r == Err::<(), ConfigError>(ConfigError::MissingServerUrl),
{
    if (c.upload_path.is_some() || c.download_name.is_some()) && c.server_url.is_none() {
        Err(ConfigError::MissingServerUrl)
    } else {
        Ok(())
    }
}

/// One HTTP exchange an iteration asks for: the operation, the URL it goes
/// to, whether its outcome counts, and the timeout it runs under.
pub struct PlannedRequest {
    pub kind: OperationKind,
    pub url: String,
    /// A best-effort request's outcome is discarded: its failure is neither
    /// reported nor recorded.
    pub best_effort: bool,
    /// Timeout in seconds, where the operation is given one.
    pub timeout_secs: Option<u64>,
}

/// What one iteration does, in order: if an upload is configured, a
/// best-effort delete of the same remote name followed by the upload; then,
/// if a download is configured, the download.
pub fn plan_iteration(c: &RunConfig) -> (r: Vec<PlannedRequest>)
    requires
        needs_server(*c) ==> c.server_url is Some,
    ensures
        r@.len() == (if c.upload_path is Some {
            2int
        } else {
            0int
        }) + (if c.download_name is Some {
            1int
        } else {
            0int
        }),
        c.upload_path matches Some(f) ==> {
            &&& r@[0].kind == OperationKind::Delete
            &&& r@[0].url@ == c.server_url->0@ + "/"@ + f@
            &&& r@[0].best_effort
            &&& r@[0].timeout_secs is None
            &&& r@[1].kind == OperationKind::Upload
            &&& r@[1].url@ == c.server_url->0@ + "/upload"@
            &&& !r@[1].best_effort
            &&& r@[1].timeout_secs == Some(c.timeout_secs)
        },
        c.download_name matches Some(f) ==> {
            &&& r@.last().kind == OperationKind::Download
            &&& r@.last().url@ == c.server_url->0@ + (if c.chunked {
                "/download-chunked/"@
            } else {
                "/download/"@
            }) + f@
            &&& !r@.last().best_effort
            &&& r@.last().timeout_secs is None
        },
{
    let mut r: Vec<PlannedRequest> = Vec::new();
    if let Some(name) = &c.upload_path {
        let server = c.server_url.as_ref().unwrap();
        r.push(
            PlannedRequest {
                kind: OperationKind::Delete,
                url: delete_url(server.as_str(), name.as_str()),
                best_effort: true,
                timeout_secs: None,
            },
        );
        r.push(
            PlannedRequest {
                kind: OperationKind::Upload,
                url: upload_url(server.as_str()),
                best_effort: false,
                timeout_secs: Some(c.timeout_secs),
            },
        );
    }
    if let Some(name) = &c.download_name {
        let server = c.server_url.as_ref().unwrap();
        r.push(
            PlannedRequest {
                kind: OperationKind::Download,
                url: download_url(server.as_str(), name.as_str(), c.chunked),
                best_effort: false,
                timeout_secs: None,
            },
        );
    }
    r
}

} // verus!
