//! Lifecycle management for a locally installed `ffmpeg` binary.
//!
//! The crate decides; the host performs. Every operation (check, download,
//! execute, remove) is a small state machine: the host carries out the
//! [`Action`] it is handed and reports what happened as an [`Event`]. All
//! path composition, error classification, archive matching and progress
//! accounting are verified here.

pub mod archive;
pub mod desktop;
pub mod error;
pub mod host;
pub mod models;
pub mod operation;
pub mod platform;
pub mod text;

pub use desktop::Ffmpeg;
pub use error::{Error, ErrorKind};
pub use models::{
    CheckResponse, DeleteResponse, DownloadConfig, DownloadProgress, DownloadRequest,
    DownloadResponse, ExecuteRequest, ExecuteResponse,
};
pub use operation::{Action, Download, Event, Operation, Outcome, Phase, Step};
pub use platform::Platform;
