use std::io::{Cursor, Write};

use use_ffmpeg::{
    Action, Download, DownloadConfig, DownloadProgress, DownloadRequest, DownloadResponse, Error,
    ErrorKind, Event, Ffmpeg, Operation, Outcome, Phase, Step,
};
use zip::write::SimpleFileOptions;
use zip::ZipWriter;

const DIR: &str = "/data/bin/linux";
const TEMP: &str = "/data/bin/linux/ffmpeg_download.tmp";
const EXE: &str = "/data/bin/linux/ffmpeg";

fn manager() -> Ffmpeg {
    Ffmpeg::new("linux".to_string(), Ok("/data".to_string()))
}

fn archive(entries: &[(&str, &[u8])]) -> Vec<u8> {
    let mut writer = ZipWriter::new(Cursor::new(Vec::new()));
    for (name, data) in entries {
        writer.start_file(*name, SimpleFileOptions::default()).unwrap();
        writer.write_all(data).unwrap();
    }
    writer.finish().unwrap().into_inner()
}

fn config(url: &str, executable_path: &str) -> DownloadConfig {
    DownloadConfig { url: url.to_string(), executable_path: executable_path.to_string() }
}

fn request(url: &str, executable_path: &str) -> DownloadRequest {
    DownloadRequest { config: Some(config(url, executable_path)) }
}

fn failed(e: Error) -> Step {
    Step { state: Operation::Finished, action: Action::Fail(e) }
}

fn ok_headers(content_length: Option<u64>) -> Event {
    Event::Headers { status: 200, status_text: "200 OK".to_string(), content_length }
}

fn phase(step: &Step) -> Phase {
    match &step.state {
        Operation::Download(d) => d.phase,
        other => panic!("{other:?}"),
    }
}

/// Drives a download up to the phase in which it receives chunks.
fn receiving(f: &Ffmpeg, content_length: Option<u64>) -> Step {
    let step = f.download(request("https://example.org/ffmpeg.zip", "ffmpeg"));
    let step = step.state.step(Event::Done);
    let step = step.state.step(ok_headers(content_length));
    step.state.step(Event::Done)
}

/// Drives a download up to the phase in which the archive is read back.
fn reading(f: &Ffmpeg, pattern: &str) -> Step {
    let step = f.download(request("https://example.org/ffmpeg.zip", pattern));
    let step = step.state.step(Event::Done);
    let step = step.state.step(ok_headers(None));
    let step = step.state.step(Event::Done);
    step.state.step(Event::EndOfStream)
}

#[test]
fn download_begins_by_creating_the_installation_root() {
    let step = manager().download(request("https://example.org/a.zip", "bin/ffmpeg"));
    assert_eq!(step.action, Action::CreateDirAll { path: DIR.to_string() });
    assert_eq!(
        step.state,
        Operation::Download(Download {
            phase: Phase::CreatingDir,
            config: config("https://example.org/a.zip", "bin/ffmpeg"),
            dir: DIR.to_string(),
            temp_path: TEMP.to_string(),
            executable_path: EXE.to_string(),
            mode_bits: true,
            downloaded: 0,
            total: None,
        })
    );
}

#[test]
fn download_without_config_takes_the_platform_default() {
    let step = Ffmpeg::new("macos".to_string(), Ok("/data".to_string()))
        .download(DownloadRequest { config: None });
    match &step.state {
        Operation::Download(d) => {
            assert_eq!(d.config, config("https://evermeet.cx/ffmpeg/ffmpeg-8.0.zip", "ffmpeg"));
        }
        other => panic!("{other:?}"),
    }
    let step = step.state.step(Event::Done);
    assert_eq!(
        step.action,
        Action::Request {
            url: "https://evermeet.cx/ffmpeg/ffmpeg-8.0.zip".to_string(),
            timeout_secs: 300,
        }
    );
}

#[test]
fn download_on_windows_has_no_mode_bits() {
    let step = Ffmpeg::new("windows".to_string(), Ok("C:\\app".to_string()))
        .download(DownloadRequest { config: None });
    match &step.state {
        Operation::Download(d) => {
            assert!(!d.mode_bits);
            assert_eq!(d.dir, "C:\\app\\bin\\windows");
            assert_eq!(d.temp_path, "C:\\app\\bin\\windows\\ffmpeg_download.tmp");
            assert_eq!(d.executable_path, "C:\\app\\bin\\windows\\ffmpeg.exe");
            assert_eq!(d.config.executable_path, "bin/ffmpeg.exe");
        }
        other => panic!("{other:?}"),
    }
}

#[test]
fn download_on_an_unsupported_platform_fails_at_once() {
    let f = Ffmpeg::new("openbsd".to_string(), Ok("/data".to_string()));
    assert_eq!(f.download(DownloadRequest { config: None }), failed(Error::UnsupportedPlatform));
    assert_eq!(
        f.download(request("https://example.org/a.zip", "ffmpeg")),
        failed(Error::UnsupportedPlatform)
    );
}

#[test]
fn download_without_data_directory_fails_at_once() {
    let f = Ffmpeg::new("linux".to_string(), Err("unknown path".to_string()));
    assert_eq!(
        f.download(DownloadRequest { config: None }),
        failed(Error::Io("unknown path".to_string()))
    );
}

#[test]
fn download_requests_with_a_timeout_of_five_minutes() {
    let step = manager().download(request("https://example.org/a.zip", "ffmpeg"));
    let step = step.state.step(Event::Done);
    assert_eq!(
        step.action,
        Action::Request { url: "https://example.org/a.zip".to_string(), timeout_secs: 300 }
    );
    assert_eq!(phase(&step), Phase::Requesting);
}

#[test]
fn download_fails_where_the_root_cannot_be_created() {
    let step = manager().download(request("u", "ffmpeg"));
    let step = step.state.step(Event::IoFailed("Read-only file system (os error 30)".to_string()));
    assert_eq!(step, failed(Error::Io("Read-only file system (os error 30)".to_string())));
}

#[test]
fn download_fails_on_a_status_that_is_no_success() {
    let begin = || manager().download(request("u", "ffmpeg")).state.step(Event::Done).state;
    let step = begin().step(Event::Headers {
        status: 404,
        status_text: "404 Not Found".to_string(),
        content_length: Some(9),
    });
    assert_eq!(step, failed(Error::Download("Failed to download: HTTP 404 Not Found".to_string())));
    match &step.action {
        Action::Fail(e) => {
            assert_eq!(e.kind(), ErrorKind::Download);
            assert_eq!(e.message(), "Download error: Failed to download: HTTP 404 Not Found");
        }
        other => panic!("{other:?}"),
    }
    for (status, text) in [
        (199u16, "199 <unknown status code>"),
        (300, "300 Multiple Choices"),
        (301, "301 Moved Permanently"),
        (500, "500 Internal Server Error"),
        (100, "100 Continue"),
    ] {
        let step = begin().step(Event::Headers {
            status,
            status_text: text.to_string(),
            content_length: None,
        });
        assert_eq!(step, failed(Error::Download(format!("Failed to download: HTTP {text}"))));
    }
}

#[test]
fn download_goes_on_with_every_status_of_success() {
    for status in [200u16, 201, 204, 206, 299] {
        let step = manager().download(request("u", "ffmpeg")).state.step(Event::Done);
        let step = step.state.step(Event::Headers {
            status,
            status_text: status.to_string(),
            content_length: Some(5),
        });
        assert_eq!(step.action, Action::CreateFile { path: TEMP.to_string() });
        match &step.state {
            Operation::Download(d) => {
                assert_eq!(d.phase, Phase::CreatingTemp);
                assert_eq!(d.total, Some(5));
                assert_eq!(d.downloaded, 0);
            }
            other => panic!("{other:?}"),
        }
    }
}

#[test]
fn download_fails_where_the_transfer_fails() {
    let step = manager().download(request("not a url", "ffmpeg")).state.step(Event::Done);
    let step = step.state.step(Event::HttpFailed("builder error".to_string()));
    assert_eq!(step, failed(Error::Http("builder error".to_string())));
    let step = receiving(&manager(), Some(10)).state.step(Event::Chunk { len: 4 });
    let step = step.state.step(Event::HttpFailed("connection reset".to_string()));
    assert_eq!(step, failed(Error::Http("connection reset".to_string())));
    match &step.action {
        Action::Fail(e) => assert_eq!(e.kind(), ErrorKind::Download),
        other => panic!("{other:?}"),
    }
}

#[test]
fn download_publishes_nothing_before_the_first_chunk() {
    let step = receiving(&manager(), Some(10));
    assert_eq!(step.action, Action::Receive { progress: None });
    assert_eq!(phase(&step), Phase::Receiving);
}

#[test]
fn download_counts_what_it_receives() {
    let mut step = receiving(&manager(), Some(10));
    let mut seen = Vec::new();
    for len in [4u64, 0, 5, 1] {
        step = step.state.step(Event::Chunk { len });
        match &step.action {
            Action::Receive { progress: Some(p) } => seen.push(*p),
            other => panic!("{other:?}"),
        }
    }
    assert_eq!(
        seen,
        vec![
            DownloadProgress { downloaded: 4, total: Some(10) },
            DownloadProgress { downloaded: 4, total: Some(10) },
            DownloadProgress { downloaded: 9, total: Some(10) },
            DownloadProgress { downloaded: 10, total: Some(10) },
        ]
    );
    let last = seen.last().unwrap();
    assert_eq!(Some(last.downloaded), last.total);
}

#[test]
fn download_without_declared_length_has_no_total() {
    let step = receiving(&manager(), None).state.step(Event::Chunk { len: 1024 });
    assert_eq!(
        step.action,
        Action::Receive { progress: Some(DownloadProgress { downloaded: 1024, total: None }) }
    );
}

#[test]
fn download_cannot_count_past_what_the_counter_holds() {
    let step = receiving(&manager(), None).state.step(Event::Chunk { len: u64::MAX });
    assert_eq!(
        step.action,
        Action::Receive { progress: Some(DownloadProgress { downloaded: u64::MAX, total: None }) }
    );
    let step = step.state.step(Event::Chunk { len: 1 });
    assert_eq!(step, failed(Error::Io("unexpected event".to_string())));
}

#[test]
fn download_reads_the_archive_back_when_the_response_is_complete() {
    let step = receiving(&manager(), Some(3)).state.step(Event::Chunk { len: 3 });
    let step = step.state.step(Event::EndOfStream);
    assert_eq!(step.action, Action::ReadFile { path: TEMP.to_string() });
    assert_eq!(phase(&step), Phase::Reading);
}

#[test]
fn download_fails_where_a_chunk_cannot_be_stored() {
    let step = receiving(&manager(), None);
    let step = step.state.step(Event::IoFailed("No space left on device (os error 28)".to_string()));
    assert_eq!(step, failed(Error::Io("No space left on device (os error 28)".to_string())));
}

#[test]
fn download_writes_the_executable_that_the_archive_holds() {
    let bytes = archive(&[("ffmpeg-8.0/README", b"read me"), ("ffmpeg-8.0/bin/ffmpeg", b"ELF")]);
    let step = reading(&manager(), "bin/ffmpeg").state.step(Event::Contents(bytes));
    assert_eq!(step.action, Action::WriteFile { path: EXE.to_string(), data: b"ELF".to_vec() });
    assert_eq!(phase(&step), Phase::Installing);
}

#[test]
fn download_of_an_archive_without_the_executable_writes_nothing() {
    let bytes = archive(&[("README", b"read me")]);
    let step = reading(&manager(), "ffmpeg").state.step(Event::Contents(bytes));
    assert_eq!(
        step,
        failed(Error::Extraction("Could not find executable at path: ffmpeg".to_string()))
    );
}

#[test]
fn download_of_what_is_no_zip_archive_fails() {
    let step = reading(&manager(), "ffmpeg").state.step(Event::Contents(b"\xfd7zXZ\x00 tar".to_vec()));
    assert!(matches!(step.action, Action::Fail(Error::Zip(_))), "{step:?}");
    assert_eq!(step.state, Operation::Finished);
}

#[test]
fn download_fails_where_the_archive_cannot_be_read_back() {
    let step = reading(&manager(), "ffmpeg").state.step(Event::IoFailed("gone".to_string()));
    assert_eq!(step, failed(Error::Io("gone".to_string())));
}

#[test]
fn download_cleans_up_and_sets_the_mode_on_posix() {
    let bytes = archive(&[("ffmpeg", b"ELF")]);
    let step = reading(&manager(), "ffmpeg").state.step(Event::Contents(bytes));
    let step = step.state.step(Event::Done);
    assert_eq!(step.action, Action::RemoveFile { path: TEMP.to_string() });
    assert_eq!(phase(&step), Phase::Cleaning);
    let step = step.state.step(Event::Done);
    assert_eq!(step.action, Action::SetMode { path: EXE.to_string(), mode: 0o755 });
    assert_eq!(phase(&step), Phase::Permitting);
    let step = step.state.step(Event::Done);
    assert_eq!(
        step,
        Step {
            state: Operation::Finished,
            action: Action::Finish(Outcome::Download(DownloadResponse {
                success: true,
                path: Some(EXE.to_string()),
                message: Some("FFmpeg downloaded successfully".to_string()),
            })),
        }
    );
}

#[test]
fn download_on_windows_ends_after_cleaning_up() {
    let f = Ffmpeg::new("windows".to_string(), Ok("C:\\app".to_string()));
    let bytes = archive(&[("ffmpeg-n8.0-latest-win64-gpl-8.0/bin/ffmpeg.exe", b"MZ")]);
    let step = reading(&f, "bin/ffmpeg.exe").state.step(Event::Contents(bytes));
    assert_eq!(
        step.action,
        Action::WriteFile { path: "C:\\app\\bin\\windows\\ffmpeg.exe".to_string(), data: b"MZ".to_vec() }
    );
    let step = step.state.step(Event::Done);
    assert_eq!(
        step.action,
        Action::RemoveFile { path: "C:\\app\\bin\\windows\\ffmpeg_download.tmp".to_string() }
    );
    let step = step.state.step(Event::Done);
    assert_eq!(
        step.action,
        Action::Finish(Outcome::Download(DownloadResponse {
            success: true,
            path: Some("C:\\app\\bin\\windows\\ffmpeg.exe".to_string()),
            message: Some("FFmpeg downloaded successfully".to_string()),
        }))
    );
}

#[test]
fn download_fails_where_installing_fails() {
    let bytes = archive(&[("ffmpeg", b"ELF")]);
    let installing = || reading(&manager(), "ffmpeg").state.step(Event::Contents(bytes.clone()));
    let io = |text: &str| failed(Error::Io(text.to_string()));
    assert_eq!(installing().state.step(Event::IoFailed("write".to_string())), io("write"));
    let cleaning = installing().state.step(Event::Done);
    assert_eq!(cleaning.state.step(Event::IoFailed("unlink".to_string())), io("unlink"));
    let permitting = installing().state.step(Event::Done).state.step(Event::Done);
    assert_eq!(permitting.state.step(Event::IoFailed("chmod".to_string())), io("chmod"));
}

#[test]
fn download_takes_no_event_that_answers_nothing() {
    let unexpected = || failed(Error::Io("unexpected event".to_string()));
    let begin = manager().download(request("u", "ffmpeg"));
    assert_eq!(begin.state.step(Event::Exists(true)), unexpected());
    let requesting = manager().download(request("u", "ffmpeg")).state.step(Event::Done);
    assert_eq!(requesting.state.step(Event::Done), unexpected());
    assert_eq!(receiving(&manager(), None).state.step(Event::Done), unexpected());
    assert_eq!(receiving(&manager(), None).state.step(Event::Contents(vec![])), unexpected());
    assert_eq!(reading(&manager(), "ffmpeg").state.step(Event::Chunk { len: 1 }), unexpected());
    assert_eq!(reading(&manager(), "ffmpeg").state.step(Event::EndOfStream), unexpected());
}

/// A host that keeps its files in memory and serves one response in chunks.
struct Host {
    files: Vec<(String, Vec<u8>, Option<u32>)>,
    body: Vec<u8>,
    sent: usize,
    chunk: usize,
    open: Option<String>,
    published: Vec<DownloadProgress>,
}

impl Host {
    fn file(&mut self, path: &str) -> &mut (String, Vec<u8>, Option<u32>) {
        if !self.files.iter().any(|f| f.0 == path) {
            self.files.push((path.to_string(), Vec::new(), None));
        }
        self.files.iter_mut().find(|f| f.0 == path).unwrap()
    }

    fn perform(&mut self, action: &Action) -> Event {
        match action {
            Action::CreateDirAll { path } => {
                self.file(path);
                Event::Done
            }
            Action::Request { .. } => Event::Headers {
                status: 200,
                status_text: "200 OK".to_string(),
                content_length: Some(self.body.len() as u64),
            },
            Action::CreateFile { path } => {
                self.file(path).1.clear();
                self.open = Some(path.clone());
                Event::Done
            }
            Action::Receive { progress } => {
                if let Some(p) = progress {
                    self.published.push(*p);
                }
                if self.sent == self.body.len() {
                    return Event::EndOfStream;
                }
                let end = (self.sent + self.chunk).min(self.body.len());
                let chunk = self.body[self.sent..end].to_vec();
                self.sent = end;
                let open = self.open.clone().unwrap();
                self.file(&open).1.extend_from_slice(&chunk);
                Event::Chunk { len: chunk.len() as u64 }
            }
            Action::ReadFile { path } => {
                self.open = None;
                Event::Contents(self.file(path).1.clone())
            }
            Action::WriteFile { path, data } => {
                self.file(path).1 = data.clone();
                Event::Done
            }
            Action::RemoveFile { path } => {
                self.files.retain(|f| &f.0 != path);
                Event::Done
            }
            Action::SetMode { path, mode } => {
                self.file(path).2 = Some(*mode);
                Event::Done
            }
            other => panic!("{other:?}"),
        }
    }
}

fn run_download(f: &Ffmpeg, request: DownloadRequest, host: &mut Host) -> Action {
    let mut step = f.download(request);
    loop {
        if matches!(step.action, Action::Finish(_) | Action::Fail(_)) {
            return step.action;
        }
        let event = host.perform(&step.action);
        step = step.state.step(event);
    }
}

#[test]
fn completed_download_leaves_the_executable_and_no_temporary_file() {
    let binary: Vec<u8> = (0..5000u32).map(|i| (i * 7 % 256) as u8).collect();
    let body = archive(&[("ffmpeg-8.0/LICENSE", b"gpl"), ("ffmpeg-8.0/bin/ffmpeg", &binary)]);
    let mut host = Host {
        files: Vec::new(),
        body: body.clone(),
        sent: 0,
        chunk: 333,
        open: None,
        published: Vec::new(),
    };
    let result = run_download(&manager(), request("https://example.org/f.zip", "bin/ffmpeg"), &mut host);
    assert_eq!(
        result,
        Action::Finish(Outcome::Download(DownloadResponse {
            success: true,
            path: Some(EXE.to_string()),
            message: Some("FFmpeg downloaded successfully".to_string()),
        }))
    );
    assert!(!host.files.iter().any(|f| f.0 == TEMP));
    let installed: Vec<_> = host.files.iter().filter(|f| f.0 == EXE).collect();
    assert_eq!(installed.len(), 1);
    assert_eq!(installed[0].1, binary);
    assert_eq!(installed[0].2, Some(0o755));
    let total = body.len() as u64;
    assert_eq!(host.published.last(), Some(&DownloadProgress { downloaded: total, total: Some(total) }));
    assert_eq!(host.published.len(), body.len().div_ceil(333));
    assert!(host.published.windows(2).all(|w| w[0].downloaded < w[1].downloaded));
}

#[test]
fn failed_extraction_leaves_the_temporary_file_and_no_executable() {
    let body = archive(&[("LICENSE", b"gpl")]);
    let mut host =
        Host { files: Vec::new(), body: body.clone(), sent: 0, chunk: 64, open: None, published: Vec::new() };
    let result = run_download(&manager(), request("https://example.org/f.zip", "ffmpeg"), &mut host);
    assert_eq!(
        result,
        Action::Fail(Error::Extraction("Could not find executable at path: ffmpeg".to_string()))
    );
    assert!(!host.files.iter().any(|f| f.0 == EXE));
    assert!(host.files.iter().any(|f| f.0 == TEMP && f.1 == body));
}

#[test]
fn progress_is_published_on_a_fixed_channel() {
    assert_eq!(use_ffmpeg::operation::progress_channel(), "use-ffmpeg://download-progress");
}
