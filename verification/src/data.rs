//! Data model of the transfer engine: remote items, local candidates,
//! transfer tasks, and per-task outcomes.

use vstd::prelude::*;

verus! {

/// Retry budget of a transfer worker: a failed attempt is retried at
/// most this many times before the task is reported as failed.
pub const MAX_RETRIES: u32 = 3;

/// Which way a transfer task moves a file.
#[derive(Clone, Copy, PartialEq, Eq, Structural, Debug)]
pub enum Direction {
    Upload,
    Download,
}

/// One object in the remote folder, as the paginated list operation
/// reports it. Every field is optional on the wire.
pub struct RemoteItem {
    pub id: Option<String>,
    pub name: Option<String>,
    pub mime_type: Option<String>,
    pub size: Option<i64>,
}

/// One local filesystem entry considered for upload.
pub struct LocalCandidate {
    pub path: String,
    pub name: String,
    pub extension: Option<String>,
    pub size: u64,
}

/// One unit of work: a single file's upload or download. Created by the
/// dedup filter, consumed exactly once by a transfer worker.
pub struct TransferTask {
    /// Remote object id; known for downloads, absent for uploads.
    pub identifier: Option<String>,
    pub name: String,
    pub direction: Direction,
    /// Local path for an upload, remote folder id for a download.
    pub source: String,
    /// Remote folder id for an upload, local directory for a download.
    pub destination: String,
}

/// What one transfer worker reports for one task.
pub struct TransferOutcome {
    pub name: String,
    pub succeeded: bool,
    pub error: Option<String>,
    pub retries: u32,
    pub bytes: u64,
}

impl TransferOutcome {
    /// A worker never retries past its budget, and only a failed task
    /// carries an error.
    pub open spec fn wf(self) -> bool {
        &&& self.retries <= MAX_RETRIES
        &&& self.succeeded ==> self.error is None
    }
}

/// The view of an optional string, for contracts over optional names.
pub open spec fn opt_str_view(o: Option<String>) -> Option<Seq<char>> {
    match o {
        Some(s) => Some(s@),
        None => None,
    }
}

} // verus!
