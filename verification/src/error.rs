//! The error taxonomy that every operation reports in.

use vstd::prelude::*;
use vstd::string::*;

verus! {

/// Why an operation failed.
///
/// Payloads are the rendered text of the underlying failure, so that a value
/// can be handed to any caller without dragging its source along.
#[derive(Debug, PartialEq, Eq)]
pub enum Error {
    /// A filesystem or other operating-system failure.
    Io(String),
    /// The server answered, but not with a success status.
    Download(String),
    /// An invocation was asked for while no binary is installed.
    FfmpegNotFound,
    /// The archive holds no entry for the configured executable.
    Extraction(String),
    /// The transfer itself failed.
    Http(String),
    /// The archive could not be opened or read.
    Zip(String),
    /// The binary is present but could not be launched.
    CommandExecution(String),
    /// No profile exists for the running operating system.
    UnsupportedPlatform,
}

/// An error with its texts in place of its strings.
pub enum ErrorView {
    Io(Seq<char>),
    Download(Seq<char>),
    FfmpegNotFound,
    Extraction(Seq<char>),
    Http(Seq<char>),
    Zip(Seq<char>),
    CommandExecution(Seq<char>),
    UnsupportedPlatform,
}

impl View for Error {
    type V = ErrorView;

    open spec fn view(&self) -> ErrorView {
        match *self {
            Error::Io(m) => ErrorView::Io(m@),
            Error::Download(m) => ErrorView::Download(m@),
            Error::FfmpegNotFound => ErrorView::FfmpegNotFound,
            Error::Extraction(m) => ErrorView::Extraction(m@),
            Error::Http(m) => ErrorView::Http(m@),
            Error::Zip(m) => ErrorView::Zip(m@),
            Error::CommandExecution(m) => ErrorView::CommandExecution(m@),
            Error::UnsupportedPlatform => ErrorView::UnsupportedPlatform,
        }
    }
}

/// The six classes that callers can rely on, whatever the variant.
#[derive(Debug, Clone, Copy, PartialEq, Eq, Structural)]
pub enum ErrorKind {
    Io,
    Download,
    Extraction,
    FfmpegNotFound,
    CommandExecution,
    UnsupportedPlatform,
}

impl ErrorView {
    /// The class of this error: transport failures count as download
    /// failures, unreadable archives as extraction failures.
    pub open spec fn kind(self) -> ErrorKind {
        match self {
            ErrorView::Io(_) => ErrorKind::Io,
            ErrorView::Download(_) | ErrorView::Http(_) => ErrorKind::Download,
            ErrorView::Extraction(_) | ErrorView::Zip(_) => ErrorKind::Extraction,
            ErrorView::FfmpegNotFound => ErrorKind::FfmpegNotFound,
            ErrorView::CommandExecution(_) => ErrorKind::CommandExecution,
            ErrorView::UnsupportedPlatform => ErrorKind::UnsupportedPlatform,
        }
    }

    /// The tagged, human-readable text of this error. An I/O error speaks
    /// for itself; every other kind is named before its detail.
    pub open spec fn message(self) -> Seq<char> {
        match self {
            ErrorView::Io(m) => m,
            ErrorView::Download(m) => "Download error: "@ + m,
            ErrorView::FfmpegNotFound => "FFmpeg not found"@,
            ErrorView::Extraction(m) => "Extraction error: "@ + m,
            ErrorView::Http(m) => "HTTP error: "@ + m,
            ErrorView::Zip(m) => "Zip error: "@ + m,
            ErrorView::CommandExecution(m) => "Command execution error: "@ + m,
            ErrorView::UnsupportedPlatform => "Unsupported platform"@,
        }
    }
}

impl Error {
    pub fn kind(&self) -> (k: ErrorKind)
        ensures
            k == self@.kind(),
    {
        match self {
            Error::Io(_) => ErrorKind::Io,
            Error::Download(_) => ErrorKind::Download,
            Error::Http(_) => ErrorKind::Download,
            Error::Extraction(_) => ErrorKind::Extraction,
            Error::Zip(_) => ErrorKind::Extraction,
            Error::FfmpegNotFound => ErrorKind::FfmpegNotFound,
            Error::CommandExecution(_) => ErrorKind::CommandExecution,
            Error::UnsupportedPlatform => ErrorKind::UnsupportedPlatform,
        }
    }

    /// Renders the error as the text that is shown to the caller.
    pub fn message(&self) -> (s: String)
        ensures
            s@ == self@.message(),
    {
        match self {
            Error::Io(m) => m.clone(),
            Error::Download(m) => String::from_str("Download error: ").concat(m.as_str()),
            Error::FfmpegNotFound => String::from_str("FFmpeg not found"),
            Error::Extraction(m) => String::from_str("Extraction error: ").concat(m.as_str()),
            Error::Http(m) => String::from_str("HTTP error: ").concat(m.as_str()),
            Error::Zip(m) => String::from_str("Zip error: ").concat(m.as_str()),
            Error::CommandExecution(m) => String::from_str("Command execution error: ").concat(
                m.as_str(),
            ),
            Error::UnsupportedPlatform => String::from_str("Unsupported platform"),
        }
    }
}

} // verus!
