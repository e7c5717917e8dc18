//! The four operations as state machines.
//!
//! The library never touches the filesystem, the network or a process. It
//! hands the host an [`Action`], the host performs it and reports an
//! [`Event`], and [`Operation::step`] decides what comes next. A step is a
//! function of the state and the event alone.

use vstd::prelude::*;
use vstd::string::*;

use crate::archive::{
    extract_archive, extraction, lemma_extraction_by_first_match, names_of, no_match,
    not_found_message, zip_entries,
};
use crate::error::{Error, ErrorView};
use crate::models::{
    opt_text, texts, CheckResponse, CheckResponseView, DeleteResponse, DeleteResponseView,
    DownloadConfig, DownloadConfigView, DownloadProgress, DownloadResponse, DownloadResponseView,
    ExecuteResponse, ExecuteResponseView,
};
use crate::text::{decode_lossy, first_line, spec_first_line, utf8_lossy};

verus! {

/// The longest that a request may take as a whole, in seconds.
pub const REQUEST_TIMEOUT_SECS: u64 = 300;

/// The permission bits of the installed executable: `rwxr-xr-x`.
pub const EXECUTABLE_MODE: u32 = 0o755;

/// The name of the channel on which the host publishes progress.
pub open spec fn spec_progress_channel() -> Seq<char> {
    "use-ffmpeg://download-progress"@
}

/// The name of the channel on which the host publishes progress.
pub fn progress_channel() -> (name: &'static str)
    ensures
        name@ == spec_progress_channel(),
{
    "use-ffmpeg://download-progress"
}

/// What an operation returns when it succeeds.
#[derive(Debug, PartialEq, Eq)]
pub enum Outcome {
    Check(CheckResponse),
    Download(DownloadResponse),
    Execute(ExecuteResponse),
    Delete(DeleteResponse),
}

/// A result as plain values.
pub enum OutcomeView {
    Check(CheckResponseView),
    Download(DownloadResponseView),
    Execute(ExecuteResponseView),
    Delete(DeleteResponseView),
}

impl View for Outcome {
    type V = OutcomeView;

    open spec fn view(&self) -> OutcomeView {
        match *self {
            Outcome::Check(r) => OutcomeView::Check(r@),
            Outcome::Download(r) => OutcomeView::Download(r@),
            Outcome::Execute(r) => OutcomeView::Execute(r@),
            Outcome::Delete(r) => OutcomeView::Delete(r@),
        }
    }
}

/// What the host is asked to do. Each action but the last two is answered
/// with one event.
#[derive(Debug, PartialEq, Eq)]
pub enum Action {
    /// Tell whether anything exists at `path`. Answer: `Exists`.
    Stat { path: String },
    /// Run `program` with `args`, wait for it, and capture what it writes.
    /// Answer: `Exited`, or `SpawnFailed` where it could not be launched.
    Spawn { program: String, args: Vec<String> },
    /// Create the directory at `path` and its parents. Answer: `Done` or
    /// `IoFailed`.
    CreateDirAll { path: String },
    /// Open a streaming request for `url` that may take `timeout_secs` in
    /// all. Answer: `Headers` or `HttpFailed`.
    Request { url: String, timeout_secs: u64 },
    /// Create the file at `path`, empty, and keep it open. Answer: `Done` or
    /// `IoFailed`.
    CreateFile { path: String },
    /// Publish `progress`, if there is any, to whoever listens, without
    /// waiting for anybody; then take the next chunk of the response and
    /// append it to the open file. Answer: `Chunk`, `EndOfStream`,
    /// `HttpFailed` or `IoFailed`.
    Receive { progress: Option<DownloadProgress> },
    /// Close the open file and read the file at `path` whole. Answer:
    /// `Contents` or `IoFailed`.
    ReadFile { path: String },
    /// Write `data` to the file at `path`, replacing what is there. Answer:
    /// `Done` or `IoFailed`.
    WriteFile { path: String, data: Vec<u8> },
    /// Delete the file at `path`. Answer: `Done` or `IoFailed`.
    RemoveFile { path: String },
    /// Set the permission bits of the file at `path`. Answer: `Done` or
    /// `IoFailed`.
    SetMode { path: String, mode: u32 },
    /// Delete the directory at `path` with all that is in it. Answer: `Done`
    /// or `IoFailed`.
    RemoveDirAll { path: String },
    /// The operation is over and has this result.
    Finish(Outcome),
    /// The operation is over and has failed.
    Fail(Error),
}

/// An action as plain values.
pub enum ActionView {
    Stat { path: Seq<char> },
    Spawn { program: Seq<char>, args: Seq<Seq<char>> },
    CreateDirAll { path: Seq<char> },
    Request { url: Seq<char>, timeout_secs: u64 },
    CreateFile { path: Seq<char> },
    Receive { progress: Option<DownloadProgress> },
    ReadFile { path: Seq<char> },
    WriteFile { path: Seq<char>, data: Seq<u8> },
    RemoveFile { path: Seq<char> },
    SetMode { path: Seq<char>, mode: u32 },
    RemoveDirAll { path: Seq<char> },
    Finish(OutcomeView),
    Fail(ErrorView),
}

impl View for Action {
    type V = ActionView;

    open spec fn view(&self) -> ActionView {
        match *self {
            Action::Stat { path } => ActionView::Stat { path: path@ },
            Action::Spawn { program, args } => ActionView::Spawn {
                program: program@,
                args: texts(args@),
            },
            Action::CreateDirAll { path } => ActionView::CreateDirAll { path: path@ },
            Action::Request { url, timeout_secs } => ActionView::Request {
                url: url@,
                timeout_secs,
            },
            Action::CreateFile { path } => ActionView::CreateFile { path: path@ },
            Action::Receive { progress } => ActionView::Receive { progress },
            Action::ReadFile { path } => ActionView::ReadFile { path: path@ },
            Action::WriteFile { path, data } => ActionView::WriteFile { path: path@, data: data@ },
            Action::RemoveFile { path } => ActionView::RemoveFile { path: path@ },
            Action::SetMode { path, mode } => ActionView::SetMode { path: path@, mode },
            Action::RemoveDirAll { path } => ActionView::RemoveDirAll { path: path@ },
            Action::Finish(outcome) => ActionView::Finish(outcome@),
            Action::Fail(e) => ActionView::Fail(e@),
        }
    }
}

/// What the host reports of the action it performed.
#[derive(Debug, PartialEq, Eq)]
pub enum Event {
    /// The action was performed.
    Done,
    /// The filesystem refused; the text says why.
    IoFailed(String),
    /// The transfer failed; the text says why.
    HttpFailed(String),
    /// The program could not be launched; the text says why.
    SpawnFailed(String),
    /// Whether the path exists.
    Exists(bool),
    /// The process ran and ended. `code` is its exit status, none where a
    /// signal ended it.
    Exited { code: Option<i32>, stdout: Vec<u8>, stderr: Vec<u8> },
    /// The server answered with this status. `status_text` is the status
    /// as it is shown to people, number and reason.
    Headers { status: u16, status_text: String, content_length: Option<u64> },
    /// A chunk of `len` bytes was received and stored.
    Chunk { len: u64 },
    /// The response is complete.
    EndOfStream,
    /// What the file holds.
    Contents(Vec<u8>),
}

/// An event as plain values.
pub enum EventView {
    Done,
    IoFailed(Seq<char>),
    HttpFailed(Seq<char>),
    SpawnFailed(Seq<char>),
    Exists(bool),
    Exited { code: Option<i32>, stdout: Seq<u8>, stderr: Seq<u8> },
    Headers { status: u16, status_text: Seq<char>, content_length: Option<u64> },
    Chunk { len: u64 },
    EndOfStream,
    Contents(Seq<u8>),
}

impl View for Event {
    type V = EventView;

    open spec fn view(&self) -> EventView {
        match *self {
            Event::Done => EventView::Done,
            Event::IoFailed(text) => EventView::IoFailed(text@),
            Event::HttpFailed(text) => EventView::HttpFailed(text@),
            Event::SpawnFailed(text) => EventView::SpawnFailed(text@),
            Event::Exists(b) => EventView::Exists(b),
            Event::Exited { code, stdout, stderr } => EventView::Exited {
                code,
                stdout: stdout@,
                stderr: stderr@,
            },
            Event::Headers { status, status_text, content_length } => EventView::Headers {
                status,
                status_text: status_text@,
                content_length,
            },
            Event::Chunk { len } => EventView::Chunk { len },
            Event::EndOfStream => EventView::EndOfStream,
            Event::Contents(bytes) => EventView::Contents(bytes@),
        }
    }
}

/// Where a download stands: which action is pending.
#[derive(Debug, Clone, Copy, PartialEq, Eq, Structural)]
pub enum Phase {
    /// The installation root is being created.
    CreatingDir,
    /// The request is being opened.
    Requesting,
    /// The temporary file is being created.
    CreatingTemp,
    /// The response is being received, chunk by chunk.
    Receiving,
    /// The temporary file is being read back.
    Reading,
    /// The executable is being written.
    Installing,
    /// The temporary file is being deleted.
    Cleaning,
    /// The executable is being made executable.
    Permitting,
}

/// A download under way.
#[derive(Debug, PartialEq, Eq)]
pub struct Download {
    pub phase: Phase,
    /// Where the archive comes from, and where the executable lies in it.
    pub config: DownloadConfig,
    /// The installation root.
    pub dir: String,
    /// The file that the archive is collected in.
    pub temp_path: String,
    /// The file that the executable is written to.
    pub executable_path: String,
    /// Whether the executable is given permission bits at the end.
    pub mode_bits: bool,
    /// The bytes received so far.
    pub downloaded: u64,
    /// The length that the server declared, if it declared one.
    pub total: Option<u64>,
}

/// A download under way as plain values.
pub struct DownloadView {
    pub phase: Phase,
    pub config: DownloadConfigView,
    pub dir: Seq<char>,
    pub temp_path: Seq<char>,
    pub executable_path: Seq<char>,
    pub mode_bits: bool,
    pub downloaded: u64,
    pub total: Option<u64>,
}

impl View for Download {
    type V = DownloadView;

    open spec fn view(&self) -> DownloadView {
        DownloadView {
            phase: self.phase,
            config: self.config@,
            dir: self.dir@,
            temp_path: self.temp_path@,
            executable_path: self.executable_path@,
            mode_bits: self.mode_bits,
            downloaded: self.downloaded,
            total: self.total,
        }
    }
}

/// An operation under way: what it waits for, and what it has to remember.
#[derive(Debug, PartialEq, Eq)]
pub enum Operation {
    /// A check waits to learn whether the executable exists.
    CheckStat { path: String },
    /// A check waits for the binary to say its version.
    CheckProbe { path: String },
    /// An invocation waits to learn whether the executable exists.
    ExecuteStat { path: String, args: Vec<String> },
    /// An invocation waits for the process to end.
    ExecuteRun,
    /// A removal waits to learn whether the installation root exists.
    RemoveStat { dir: String },
    /// A removal waits for the installation root to be deleted.
    RemoveDelete,
    /// A download, in one of its phases.
    Download(Download),
    /// The operation is over.
    Finished,
}

/// An operation under way as plain values.
pub enum OperationView {
    CheckStat { path: Seq<char> },
    CheckProbe { path: Seq<char> },
    ExecuteStat { path: Seq<char>, args: Seq<Seq<char>> },
    ExecuteRun,
    RemoveStat { dir: Seq<char> },
    RemoveDelete,
    Download(DownloadView),
    Finished,
}

impl View for Operation {
    type V = OperationView;

    open spec fn view(&self) -> OperationView {
        match *self {
            Operation::CheckStat { path } => OperationView::CheckStat { path: path@ },
            Operation::CheckProbe { path } => OperationView::CheckProbe { path: path@ },
            Operation::ExecuteStat { path, args } => OperationView::ExecuteStat {
                path: path@,
                args: texts(args@),
            },
            Operation::ExecuteRun => OperationView::ExecuteRun,
            Operation::RemoveStat { dir } => OperationView::RemoveStat { dir: dir@ },
            Operation::RemoveDelete => OperationView::RemoveDelete,
            Operation::Download(d) => OperationView::Download(d@),
            Operation::Finished => OperationView::Finished,
        }
    }
}

/// The state after a step, and the action that the host performs next.
#[derive(Debug, PartialEq, Eq)]
pub struct Step {
    pub state: Operation,
    pub action: Action,
}

/// A step as plain values.
pub struct StepView {
    pub state: OperationView,
    pub action: ActionView,
}

impl View for Step {
    type V = StepView;

    open spec fn view(&self) -> StepView {
        StepView { state: self.state@, action: self.action@ }
    }
}

/// The step that ends an operation with a failure.
pub open spec fn failed(e: ErrorView) -> StepView {
    StepView { state: OperationView::Finished, action: ActionView::Fail(e) }
}

/// The step that ends an operation with a result.
pub open spec fn finished(outcome: OutcomeView) -> StepView {
    StepView { state: OperationView::Finished, action: ActionView::Finish(outcome) }
}

/// The text of the failure that an impossible event ends an operation with.
pub open spec fn unexpected_text() -> Seq<char> {
    "unexpected event"@
}

/// What becomes of an operation on an event that cannot be: one that does
/// not answer the pending action, or a chunk that would take the count of
/// bytes past what it can hold. The operation ends with an I/O failure.
pub open spec fn unexpected() -> StepView {
    failed(ErrorView::Io(unexpected_text()))
}

/// Whether a process that ended with `code` succeeded: it exited, with
/// status 0.
pub open spec fn exited_well(code: Option<i32>) -> bool {
    code == Some(0i32)
}

/// Whether an HTTP status is one of success: 200 to 299.
pub open spec fn is_success_status(status: u16) -> bool {
    200 <= status < 300
}

/// The result of a check that found no file at the executable's path.
pub open spec fn check_absent() -> CheckResponseView {
    CheckResponseView { available: false, path: None, version: None }
}

/// The result of a check that found a file at `path` which does not run.
pub open spec fn check_unusable(path: Seq<char>) -> CheckResponseView {
    CheckResponseView { available: false, path: Some(path), version: None }
}

/// The result of a check whose probe of the binary at `path` ended with
/// `code` and wrote `stdout`: available where the probe succeeded, the
/// version then being the first line of what it wrote.
pub open spec fn check_probed(path: Seq<char>, code: Option<i32>, stdout: Seq<u8>)
    -> CheckResponseView {
    if exited_well(code) {
        CheckResponseView {
            available: true,
            path: Some(path),
            version: spec_first_line(utf8_lossy(stdout)),
        }
    } else {
        check_unusable(path)
    }
}

/// The result of an invocation that ended with `code`.
pub open spec fn executed(code: Option<i32>, stdout: Seq<u8>, stderr: Seq<u8>)
    -> ExecuteResponseView {
    ExecuteResponseView {
        success: exited_well(code),
        stdout: utf8_lossy(stdout),
        stderr: utf8_lossy(stderr),
        exit_code: code,
    }
}

/// The result of a removal that found nothing to remove.
pub open spec fn removed_nothing() -> DeleteResponseView {
    DeleteResponseView { success: true, message: Some("FFmpeg directory does not exist"@) }
}

/// The result of a removal that removed the installation.
pub open spec fn removed() -> DeleteResponseView {
    DeleteResponseView { success: true, message: Some("FFmpeg deleted successfully"@) }
}

/// The result of a download that installed the executable at `path`.
pub open spec fn downloaded(path: Seq<char>) -> DownloadResponseView {
    DownloadResponseView {
        success: true,
        path: Some(path),
        message: Some("FFmpeg downloaded successfully"@),
    }
}

/// The text of the failure on a status that is not one of success.
pub open spec fn status_message(status_text: Seq<char>) -> Seq<char> {
    "Failed to download: HTTP "@ + status_text
}

/// A download in another phase.
pub open spec fn in_phase(d: DownloadView, phase: Phase) -> DownloadView {
    DownloadView { phase, ..d }
}

/// The step of a download that goes on in `phase` with `action`.
pub open spec fn proceed(d: DownloadView, phase: Phase, action: ActionView) -> StepView {
    StepView { state: OperationView::Download(in_phase(d, phase)), action }
}

/// The step of a download on an event. A failure of the filesystem ends the
/// download in whichever phase it is reported; a failure of the transfer
/// ends it while the request is open. Nothing is cleaned up on the way out:
/// what a failed download has written stays where it is.
pub open spec fn download_step(d: DownloadView, event: EventView) -> StepView {
    match (d.phase, event) {
        (_, EventView::IoFailed(text)) => failed(ErrorView::Io(text)),
        (Phase::CreatingDir, EventView::Done) => proceed(
            d,
            Phase::Requesting,
            ActionView::Request { url: d.config.url, timeout_secs: REQUEST_TIMEOUT_SECS },
        ),
        (Phase::Requesting, EventView::Headers { status, status_text, content_length }) => {
            if is_success_status(status) {
                proceed(
                    DownloadView { total: content_length, ..d },
                    Phase::CreatingTemp,
                    ActionView::CreateFile { path: d.temp_path },
                )
            } else {
                failed(ErrorView::Download(status_message(status_text)))
            }
        },
        (Phase::Requesting, EventView::HttpFailed(text)) => failed(ErrorView::Http(text)),
        (Phase::CreatingTemp, EventView::Done) => proceed(
            d,
            Phase::Receiving,
            ActionView::Receive { progress: None },
        ),
        (Phase::Receiving, EventView::Chunk { len }) => {
            if d.downloaded + len <= u64::MAX {
                let count = (d.downloaded + len) as u64;
                proceed(
                    DownloadView { downloaded: count, ..d },
                    Phase::Receiving,
                    ActionView::Receive {
                        progress: Some(DownloadProgress { downloaded: count, total: d.total }),
                    },
                )
            } else {
                unexpected()
            }
        },
        (Phase::Receiving, EventView::EndOfStream) => proceed(
            d,
            Phase::Reading,
            ActionView::ReadFile { path: d.temp_path },
        ),
        (Phase::Receiving, EventView::HttpFailed(text)) => failed(ErrorView::Http(text)),
        (Phase::Reading, EventView::Contents(bytes)) => {
            match extraction(zip_entries(bytes), d.config.executable_path) {
                Ok(data) => proceed(
                    d,
                    Phase::Installing,
                    ActionView::WriteFile { path: d.executable_path, data },
                ),
                Err(e) => failed(e),
            }
        },
        (Phase::Installing, EventView::Done) => proceed(
            d,
            Phase::Cleaning,
            ActionView::RemoveFile { path: d.temp_path },
        ),
        (Phase::Cleaning, EventView::Done) => {
            if d.mode_bits {
                proceed(
                    d,
                    Phase::Permitting,
                    ActionView::SetMode { path: d.executable_path, mode: EXECUTABLE_MODE },
                )
            } else {
                finished(OutcomeView::Download(downloaded(d.executable_path)))
            }
        },
        (Phase::Permitting, EventView::Done) => finished(
            OutcomeView::Download(downloaded(d.executable_path)),
        ),
        _ => unexpected(),
    }
}

/// The step of an operation on an event: the state that follows, and the
/// action that the host performs next.
pub open spec fn spec_step(op: OperationView, event: EventView) -> StepView {
    match (op, event) {
        (OperationView::CheckStat { path }, EventView::Exists(exists)) => {
            if exists {
                StepView {
                    state: OperationView::CheckProbe { path },
                    action: ActionView::Spawn { program: path, args: seq!["-version"@] },
                }
            } else {
                finished(OutcomeView::Check(check_absent()))
            }
        },
        (OperationView::CheckProbe { path }, EventView::Exited { code, stdout, stderr }) => {
            finished(OutcomeView::Check(check_probed(path, code, stdout)))
        },
        (OperationView::CheckProbe { path }, EventView::SpawnFailed(_)) => finished(
            OutcomeView::Check(check_unusable(path)),
        ),
        (OperationView::ExecuteStat { path, args }, EventView::Exists(exists)) => {
            if exists {
                StepView {
                    state: OperationView::ExecuteRun,
                    action: ActionView::Spawn { program: path, args },
                }
            } else {
                failed(ErrorView::FfmpegNotFound)
            }
        },
        (OperationView::ExecuteRun, EventView::Exited { code, stdout, stderr }) => finished(
            OutcomeView::Execute(executed(code, stdout, stderr)),
        ),
        (OperationView::ExecuteRun, EventView::SpawnFailed(text)) => failed(
            ErrorView::CommandExecution(text),
        ),
        (OperationView::RemoveStat { dir }, EventView::Exists(exists)) => {
            if exists {
                StepView {
                    state: OperationView::RemoveDelete,
                    action: ActionView::RemoveDirAll { path: dir },
                }
            } else {
                finished(OutcomeView::Delete(removed_nothing()))
            }
        },
        (OperationView::RemoveDelete, EventView::Done) => finished(
            OutcomeView::Delete(removed()),
        ),
        (OperationView::RemoveDelete, EventView::IoFailed(text)) => failed(ErrorView::Io(text)),
        (OperationView::Download(d), _) => download_step(d, event),
        _ => unexpected(),
    }
}

pub(crate) fn fail(e: Error) -> (s: Step)
    ensures
        s@ == failed(e@),
{
    Step { state: Operation::Finished, action: Action::Fail(e) }
}

pub(crate) fn finish(outcome: Outcome) -> (s: Step)
    ensures
        s@ == finished(outcome@),
{
    Step { state: Operation::Finished, action: Action::Finish(outcome) }
}

fn fail_unexpected() -> (s: Step)
    ensures
        s@ == unexpected(),
{
    fail(Error::Io(String::from_str("unexpected event")))
}

/// Whether a process that ended with `code` succeeded.
pub fn has_exited_well(code: Option<i32>) -> (b: bool)
    ensures
        b == exited_well(code),
{
    match code {
        Some(c) => c == 0,
        None => false,
    }
}

/// The result of a check whose probe of the binary at `path` ended with
/// `code` and wrote `stdout`.
pub fn check_response(path: String, code: Option<i32>, stdout: &Vec<u8>) -> (r: CheckResponse)
    ensures
        r@ == check_probed(path@, code, stdout@),
{
    if has_exited_well(code) {
        let text = decode_lossy(stdout.as_slice());
        CheckResponse { available: true, path: Some(path), version: first_line(text.as_str()) }
    } else {
        CheckResponse { available: false, path: Some(path), version: None }
    }
}

/// The result of an invocation that ended with `code` and wrote `stdout`
/// and `stderr`.
pub fn execute_response(code: Option<i32>, stdout: &Vec<u8>, stderr: &Vec<u8>) -> (r:
    ExecuteResponse)
    ensures
        r@ == executed(code, stdout@, stderr@),
{
    ExecuteResponse {
        success: has_exited_well(code),
        stdout: decode_lossy(stdout.as_slice()),
        stderr: decode_lossy(stderr.as_slice()),
        exit_code: code,
    }
}

impl Download {
    fn proceed(self, phase: Phase, action: Action) -> (s: Step)
        ensures
            s@ == proceed(self@, phase, action@),
    {
        let mut d = self;
        d.phase = phase;
        Step { state: Operation::Download(d), action }
    }

    fn finish(self) -> (s: Step)
        ensures
            s@ == finished(OutcomeView::Download(downloaded(self@.executable_path))),
    {
        finish(
            Outcome::Download(
                DownloadResponse {
                    success: true,
                    path: Some(self.executable_path),
                    message: Some(String::from_str("FFmpeg downloaded successfully")),
                },
            ),
        )
    }

    /// What the download does next on `event`.
    pub fn step(self, event: Event) -> (s: Step)
        ensures
            s@ == download_step(self@, event@),
    {
        match (self.phase, event) {
            (_, Event::IoFailed(text)) => fail(Error::Io(text)),
            (Phase::CreatingDir, Event::Done) => {
                let url = self.config.url.clone();
                self.proceed(
                    Phase::Requesting,
                    Action::Request { url, timeout_secs: REQUEST_TIMEOUT_SECS },
                )
            },
            (Phase::Requesting, Event::Headers { status, status_text, content_length }) => {
                if 200 <= status && status < 300 {
                    let mut d = self;
                    d.total = content_length;
                    let path = d.temp_path.clone();
                    d.proceed(Phase::CreatingTemp, Action::CreateFile { path })
                } else {
                    fail(
                        Error::Download(
                            String::from_str("Failed to download: HTTP ").concat(
                                status_text.as_str(),
                            ),
                        ),
                    )
                }
            },
            (Phase::Requesting, Event::HttpFailed(text)) => fail(Error::Http(text)),
            (Phase::CreatingTemp, Event::Done) => self.proceed(
                Phase::Receiving,
                Action::Receive { progress: None },
            ),
            (Phase::Receiving, Event::Chunk { len }) => {
                match self.downloaded.checked_add(len) {
                    Some(count) => {
                        let mut d = self;
                        d.downloaded = count;
                        let progress = DownloadProgress { downloaded: count, total: d.total };
                        d.proceed(Phase::Receiving, Action::Receive { progress: Some(progress) })
                    },
                    None => fail_unexpected(),
                }
            },
            (Phase::Receiving, Event::EndOfStream) => {
                let path = self.temp_path.clone();
                self.proceed(Phase::Reading, Action::ReadFile { path })
            },
            (Phase::Receiving, Event::HttpFailed(text)) => fail(Error::Http(text)),
            (Phase::Reading, Event::Contents(bytes)) => {
                match extract_archive(bytes, self.config.executable_path.as_str()) {
                    Ok(data) => {
                        let path = self.executable_path.clone();
                        self.proceed(Phase::Installing, Action::WriteFile { path, data })
                    },
                    Err(e) => fail(e),
                }
            },
            (Phase::Installing, Event::Done) => {
                let path = self.temp_path.clone();
                self.proceed(Phase::Cleaning, Action::RemoveFile { path })
            },
            (Phase::Cleaning, Event::Done) => {
                if self.mode_bits {
                    let path = self.executable_path.clone();
                    self.proceed(
                        Phase::Permitting,
                        Action::SetMode { path, mode: EXECUTABLE_MODE },
                    )
                } else {
                    self.finish()
                }
            },
            (Phase::Permitting, Event::Done) => self.finish(),
            _ => fail_unexpected(),
        }
    }
}

impl Operation {
    /// What the operation does next on `event`: the state that follows and
    /// the action that the host performs. Once the action is `Finish` or
    /// `Fail`, the operation is over.
    pub fn step(self, event: Event) -> (s: Step)
        ensures
            s@ == spec_step(self@, event@),
    {
        match (self, event) {
            (Operation::CheckStat { path }, Event::Exists(exists)) => {
                if exists {
                    let program = path.clone();
                    let mut args: Vec<String> = Vec::new();
                    args.push(String::from_str("-version"));
                    assert(texts(args@) =~= seq!["-version"@]);
                    Step {
                        state: Operation::CheckProbe { path },
                        action: Action::Spawn { program, args },
                    }
                } else {
                    finish(
                        Outcome::Check(
                            CheckResponse { available: false, path: None, version: None },
                        ),
                    )
                }
            },
            (Operation::CheckProbe { path }, Event::Exited { code, stdout, stderr }) => finish(
                Outcome::Check(check_response(path, code, &stdout)),
            ),
            (Operation::CheckProbe { path }, Event::SpawnFailed(_)) => finish(
                Outcome::Check(CheckResponse { available: false, path: Some(path), version: None }),
            ),
            (Operation::ExecuteStat { path, args }, Event::Exists(exists)) => {
                if exists {
                    Step {
                        state: Operation::ExecuteRun,
                        action: Action::Spawn { program: path, args },
                    }
                } else {
                    fail(Error::FfmpegNotFound)
                }
            },
            (Operation::ExecuteRun, Event::Exited { code, stdout, stderr }) => finish(
                Outcome::Execute(execute_response(code, &stdout, &stderr)),
            ),
            (Operation::ExecuteRun, Event::SpawnFailed(text)) => fail(
                Error::CommandExecution(text),
            ),
            (Operation::RemoveStat { dir }, Event::Exists(exists)) => {
                if exists {
                    Step {
                        state: Operation::RemoveDelete,
                        action: Action::RemoveDirAll { path: dir },
                    }
                } else {
                    finish(
                        Outcome::Delete(
                            DeleteResponse {
                                success: true,
                                message: Some(String::from_str("FFmpeg directory does not exist")),
                            },
                        ),
                    )
                }
            },
            (Operation::RemoveDelete, Event::Done) => finish(
                Outcome::Delete(
                    DeleteResponse {
                        success: true,
                        message: Some(String::from_str("FFmpeg deleted successfully")),
                    },
                ),
            ),
            (Operation::RemoveDelete, Event::IoFailed(text)) => fail(Error::Io(text)),
            (Operation::Download(d), event) => d.step(event),
            _ => fail_unexpected(),
        }
    }
}

/// A download whose archive holds no entry for the executable fails to
/// extract, and the host is asked to write nothing.
pub proof fn lemma_no_match_writes_nothing(
    d: DownloadView,
    bytes: Seq<u8>,
    entries: Seq<(Seq<char>, Result<Result<Seq<u8>, Seq<char>>, Seq<char>>)>,
)
    requires
        d.phase == Phase::Reading,
        zip_entries(bytes) == Ok::<_, Seq<char>>(entries),
        no_match(names_of(entries), d.config.executable_path),
    ensures
        download_step(d, EventView::Contents(bytes)) == failed(
            ErrorView::Extraction(not_found_message(d.config.executable_path)),
        ),
{
    lemma_extraction_by_first_match(entries, d.config.executable_path);
}

} // verus!
