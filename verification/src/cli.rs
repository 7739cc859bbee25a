//! The command surface: which run to perform and with what arguments,
//! and the authentication-method selector. Argument parsing itself is
//! the binary's concern; these are the parsed values the engine is
//! handed.

use vstd::prelude::*;

verus! {

/// Default concurrency ceiling for an upload run.
pub const DEFAULT_UPLOAD_CONCURRENCY: usize = 1000;

/// Default concurrency ceiling for a download run.
pub const DEFAULT_DOWNLOAD_CONCURRENCY: usize = 50;

/// How the remote client authenticates.
#[derive(Clone, Copy, PartialEq, Eq, Structural, Debug)]
pub enum AuthMethod {
    ServiceAccount,
    OAuth,
}

/// One invocation's subcommand.
pub enum Commands {
    /// Upload the directory's eligible files into the remote folder.
    Upload { directory: String, folder_id: String, concurrency: usize },
    /// Print the remote folder's contents.
    List { folder_id: String },
    /// Download the remote folder's files into the local path.
    Download { path: String, folder_id: String, concurrency: usize },
}

/// One invocation: the authentication method and the subcommand.
pub struct Cli {
    pub auth_method: AuthMethod,
    pub command: Commands,
}

} // verus!
