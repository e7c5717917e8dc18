//! The records that cross the library's boundary, each with its
//! mathematical view.

use vstd::prelude::*;

verus! {

/// The text of an optional string.
pub open spec fn opt_text(s: Option<String>) -> Option<Seq<char>> {
    match s {
        Some(s) => Some(s@),
        None => None,
    }
}

/// The texts of a list of strings.
pub open spec fn texts(list: Seq<String>) -> Seq<Seq<char>> {
    list.map_values(|s: String| s@)
}

/// Where a distribution is fetched from, and where the executable lies
/// inside it.
#[derive(Debug, Clone, PartialEq, Eq)]
pub struct DownloadConfig {
    /// The address of the archive.
    pub url: String,
    /// The path of the executable inside the archive.
    pub executable_path: String,
}

/// A configuration as plain values.
pub struct DownloadConfigView {
    pub url: Seq<char>,
    pub executable_path: Seq<char>,
}

impl View for DownloadConfig {
    type V = DownloadConfigView;

    open spec fn view(&self) -> DownloadConfigView {
        DownloadConfigView { url: self.url@, executable_path: self.executable_path@ }
    }
}

/// A request to download: with a configuration of the caller's, or with the
/// platform's default where there is none.
#[derive(Debug, PartialEq, Eq)]
pub struct DownloadRequest {
    pub config: Option<DownloadConfig>,
}

impl View for DownloadRequest {
    type V = Option<DownloadConfigView>;

    open spec fn view(&self) -> Option<DownloadConfigView> {
        match self.config {
            Some(c) => Some(c@),
            None => None,
        }
    }
}

/// The result of a download.
#[derive(Debug, Clone, PartialEq, Eq)]
pub struct DownloadResponse {
    pub success: bool,
    /// The path of the installed executable.
    pub path: Option<String>,
    pub message: Option<String>,
}

/// The result of a download as plain values.
pub struct DownloadResponseView {
    pub success: bool,
    pub path: Option<Seq<char>>,
    pub message: Option<Seq<char>>,
}

impl View for DownloadResponse {
    type V = DownloadResponseView;

    open spec fn view(&self) -> DownloadResponseView {
        DownloadResponseView {
            success: self.success,
            path: opt_text(self.path),
            message: opt_text(self.message),
        }
    }
}

/// The result of a check.
#[derive(Debug, Clone, PartialEq, Eq)]
pub struct CheckResponse {
    /// Whether the binary is installed and runs.
    pub available: bool,
    /// The path of the executable, where a file stands there.
    pub path: Option<String>,
    /// The first line of what the binary says of its version.
    pub version: Option<String>,
}

/// The result of a check as plain values.
pub struct CheckResponseView {
    pub available: bool,
    pub path: Option<Seq<char>>,
    pub version: Option<Seq<char>>,
}

impl View for CheckResponse {
    type V = CheckResponseView;

    open spec fn view(&self) -> CheckResponseView {
        CheckResponseView {
            available: self.available,
            path: opt_text(self.path),
            version: opt_text(self.version),
        }
    }
}

/// A request to run the binary.
#[derive(Debug, Clone, PartialEq, Eq)]
pub struct ExecuteRequest {
    /// The arguments, without the program's own name.
    pub args: Vec<String>,
}

impl View for ExecuteRequest {
    type V = Seq<Seq<char>>;

    open spec fn view(&self) -> Seq<Seq<char>> {
        texts(self.args@)
    }
}

/// The result of a run.
#[derive(Debug, Clone, PartialEq, Eq)]
pub struct ExecuteResponse {
    /// Whether the process exited with status 0.
    pub success: bool,
    pub stdout: String,
    pub stderr: String,
    /// The exit status; none where a signal ended the process.
    pub exit_code: Option<i32>,
}

/// The result of a run as plain values.
pub struct ExecuteResponseView {
    pub success: bool,
    pub stdout: Seq<char>,
    pub stderr: Seq<char>,
    pub exit_code: Option<i32>,
}

impl View for ExecuteResponse {
    type V = ExecuteResponseView;

    open spec fn view(&self) -> ExecuteResponseView {
        ExecuteResponseView {
            success: self.success,
            stdout: self.stdout@,
            stderr: self.stderr@,
            exit_code: self.exit_code,
        }
    }
}

/// How far a download has come. The share that is done can be told exactly
/// where `total` is known.
#[derive(Debug, Clone, Copy, PartialEq, Eq, Structural)]
pub struct DownloadProgress {
    /// The bytes received so far.
    pub downloaded: u64,
    /// The length that the server declared, if it declared one.
    pub total: Option<u64>,
}

/// The result of a removal.
#[derive(Debug, Clone, PartialEq, Eq)]
pub struct DeleteResponse {
    pub success: bool,
    pub message: Option<String>,
}

/// The result of a removal as plain values.
pub struct DeleteResponseView {
    pub success: bool,
    pub message: Option<Seq<char>>,
}

impl View for DeleteResponse {
    type V = DeleteResponseView;

    open spec fn view(&self) -> DeleteResponseView {
        DeleteResponseView { success: self.success, message: opt_text(self.message) }
    }
}

} // verus!
