//! The manager: where the installation lies, and how each of the four
//! operations begins.

use vstd::prelude::*;
use vstd::string::*;

use crate::error::{Error, ErrorView};
use crate::models::{
    CheckResponse, DownloadConfig, DownloadConfigView, DownloadRequest, ExecuteRequest,
};
use crate::operation::{
    check_absent, fail, failed, finish, finished, spec_step, Action, ActionView, Download,
    DownloadView, EventView, Operation, OperationView, Outcome, OutcomeView, Phase, Step,
    StepView,
};
use crate::platform::{resolve, spec_resolve, Platform};

verus! {

/// The name of the file that a download is collected in before the
/// executable is taken out of it.
pub open spec fn temp_name() -> Seq<char> {
    "ffmpeg_download.tmp"@
}

/// The directory of the installation under `base`: `base/bin/<platform>`.
pub open spec fn spec_dir(base: Seq<char>, platform: Platform) -> Seq<char> {
    base + platform.spec_separator() + "bin"@ + platform.spec_separator() + platform.spec_id()
}

/// The path of `name` inside the installation under `base`.
pub open spec fn spec_file(base: Seq<char>, platform: Platform, name: Seq<char>) -> Seq<char> {
    spec_dir(base, platform) + platform.spec_separator() + name
}

/// A text or an error, as plain values.
pub open spec fn text_view(r: Result<String, Error>) -> Result<Seq<char>, ErrorView> {
    match r {
        Ok(s) => Ok(s@),
        Err(e) => Err(e@),
    }
}

/// The manager of one installation: it knows the operating system it runs
/// on and the application's data directory, and nothing else.
#[derive(Debug)]
pub struct Ffmpeg {
    os: String,
    app_data_dir: Result<String, String>,
}

/// A manager as plain values.
pub struct FfmpegView {
    /// The identifier of the running operating system.
    pub os: Seq<char>,
    /// The application's data directory, or why it could not be determined.
    pub app_data_dir: Result<Seq<char>, Seq<char>>,
}

impl FfmpegView {
    /// The platform, where the operating system is one that is served.
    pub open spec fn platform(self) -> Result<Platform, ErrorView> {
        match spec_resolve(self.os) {
            Some(p) => Ok(p),
            None => Err(ErrorView::UnsupportedPlatform),
        }
    }

    /// The path of `name` inside the installation. The platform is resolved
    /// first: on an unsupported one nothing else is looked at.
    pub open spec fn file(self, name: Seq<char>) -> Result<Seq<char>, ErrorView> {
        match spec_resolve(self.os) {
            None => Err(ErrorView::UnsupportedPlatform),
            Some(p) => match self.app_data_dir {
                Err(why) => Err(ErrorView::Io(why)),
                Ok(base) => Ok(spec_file(base, p, name)),
            },
        }
    }

    /// The installation root.
    pub open spec fn dir(self) -> Result<Seq<char>, ErrorView> {
        match spec_resolve(self.os) {
            None => Err(ErrorView::UnsupportedPlatform),
            Some(p) => match self.app_data_dir {
                Err(why) => Err(ErrorView::Io(why)),
                Ok(base) => Ok(spec_dir(base, p)),
            },
        }
    }

    /// The path of the managed executable.
    pub open spec fn executable_path(self) -> Result<Seq<char>, ErrorView> {
        match spec_resolve(self.os) {
            None => Err(ErrorView::UnsupportedPlatform),
            Some(p) => self.file(p.spec_executable_name()),
        }
    }

    /// The distribution that is fetched where the caller names none.
    pub open spec fn default_config(self) -> Result<DownloadConfigView, ErrorView> {
        match spec_resolve(self.os) {
            None => Err(ErrorView::UnsupportedPlatform),
            Some(p) => Ok(p.spec_default_config()),
        }
    }
}

impl FfmpegView {
    /// How a check begins: by asking whether the executable exists. A check
    /// does not fail on a platform that is served: where the data directory
    /// cannot be determined there is nowhere that a binary could be, and the
    /// check is over at once with the result that nothing is installed.
    pub open spec fn check(self) -> StepView {
        match spec_resolve(self.os) {
            None => failed(ErrorView::UnsupportedPlatform),
            Some(p) => match self.app_data_dir {
                Err(_) => finished(OutcomeView::Check(check_absent())),
                Ok(base) => {
                    let path = spec_file(base, p, p.spec_executable_name());
                    StepView {
                        state: OperationView::CheckStat { path },
                        action: ActionView::Stat { path },
                    }
                },
            },
        }
    }

    /// How an invocation with `args` begins: by asking whether the
    /// executable exists.
    pub open spec fn execute(self, args: Seq<Seq<char>>) -> StepView {
        match self.executable_path() {
            Err(e) => failed(e),
            Ok(path) => StepView {
                state: OperationView::ExecuteStat { path, args },
                action: ActionView::Stat { path },
            },
        }
    }

    /// How a removal begins: by asking whether the installation root
    /// exists.
    pub open spec fn remove(self) -> StepView {
        match self.dir() {
            Err(e) => failed(e),
            Ok(dir) => StepView {
                state: OperationView::RemoveStat { dir },
                action: ActionView::Stat { path: dir },
            },
        }
    }

    /// The download that `config` asks for, before anything has been done.
    pub open spec fn new_download(self, config: DownloadConfigView) -> Result<
        DownloadView,
        ErrorView,
    > {
        match spec_resolve(self.os) {
            None => Err(ErrorView::UnsupportedPlatform),
            Some(p) => match self.app_data_dir {
                Err(why) => Err(ErrorView::Io(why)),
                Ok(base) => Ok(
                    DownloadView {
                        phase: Phase::CreatingDir,
                        config,
                        dir: spec_dir(base, p),
                        temp_path: spec_file(base, p, temp_name()),
                        executable_path: spec_file(base, p, p.spec_executable_name()),
                        mode_bits: p.spec_has_mode_bits(),
                        downloaded: 0,
                        total: None,
                    },
                ),
            },
        }
    }

    /// How a download begins: with the caller's configuration, or the
    /// platform's default where there is none, by creating the installation
    /// root.
    pub open spec fn download(self, request: Option<DownloadConfigView>) -> StepView {
        match spec_resolve(self.os) {
            None => failed(ErrorView::UnsupportedPlatform),
            Some(p) => {
                let config = match request {
                    Some(c) => c,
                    None => p.spec_default_config(),
                };
                match self.new_download(config) {
                    Err(e) => failed(e),
                    Ok(d) => StepView {
                        state: OperationView::Download(d),
                        action: ActionView::CreateDirAll { path: d.dir },
                    },
                }
            },
        }
    }
}

impl View for Ffmpeg {
    type V = FfmpegView;

    closed spec fn view(&self) -> FfmpegView {
        FfmpegView {
            os: self.os@,
            app_data_dir: match self.app_data_dir {
                Ok(base) => Ok(base@),
                Err(why) => Err(why@),
            },
        }
    }
}

impl Ffmpeg {
    /// A manager for the operating system called `os`, with the
    /// application's data directory, or the reason why there is none.
    pub fn new(os: String, app_data_dir: Result<String, String>) -> (f: Ffmpeg)
        ensures
            f@.os == os@,
            f@.app_data_dir == match app_data_dir {
                Ok(base) => Ok::<Seq<char>, Seq<char>>(base@),
                Err(why) => Err::<Seq<char>, Seq<char>>(why@),
            },
    {
        Ffmpeg { os, app_data_dir }
    }

    /// The platform that this manager runs on.
    pub fn get_platform(&self) -> (r: Result<Platform, Error>)
        ensures
            match r {
                Ok(p) => self@.platform() == Ok::<Platform, ErrorView>(p),
                Err(e) => self@.platform() == Err::<Platform, ErrorView>(e@),
            },
    {
        resolve(self.os.as_str())
    }

    /// The distribution that is fetched where the caller names none.
    pub fn get_default_config(&self) -> (r: Result<DownloadConfig, Error>)
        ensures
            match r {
                Ok(c) => self@.default_config() == Ok::<DownloadConfigView, ErrorView>(c@),
                Err(e) => self@.default_config() == Err::<DownloadConfigView, ErrorView>(e@),
            },
    {
        match self.get_platform() {
            Ok(p) => Ok(p.default_config()),
            Err(e) => Err(e),
        }
    }

    /// The installation root: `<data directory>/bin/<platform>`.
    pub fn get_ffmpeg_dir(&self) -> (r: Result<String, Error>)
        ensures
            text_view(r) == self@.dir(),
    {
        let p = match self.get_platform() {
            Ok(p) => p,
            Err(e) => {
                return Err(e);
            },
        };
        match &self.app_data_dir {
            Err(why) => Err(Error::Io(why.clone())),
            Ok(base) => {
                let sep = p.separator();
                Ok(base.clone().concat(sep).concat("bin").concat(sep).concat(p.id()))
            },
        }
    }

    /// The path of `name` inside the installation root.
    pub fn get_ffmpeg_file(&self, name: &str) -> (r: Result<String, Error>)
        ensures
            text_view(r) == self@.file(name@),
    {
        let p = match self.get_platform() {
            Ok(p) => p,
            Err(e) => {
                return Err(e);
            },
        };
        match self.get_ffmpeg_dir() {
            Ok(dir) => Ok(dir.concat(p.separator()).concat(name)),
            Err(e) => Err(e),
        }
    }

    /// The path of the managed executable inside the installation root.
    pub fn get_ffmpeg_executable_path(&self) -> (r: Result<String, Error>)
        ensures
            text_view(r) == self@.executable_path(),
    {
        let p = match self.get_platform() {
            Ok(p) => p,
            Err(e) => {
                return Err(e);
            },
        };
        self.get_ffmpeg_file(p.executable_name())
    }

    /// Begins a check of the installation.
    ///
    /// The first action asks whether the executable exists. On an
    /// unsupported platform the check fails at once. That is the only way in
    /// which a check fails: without a data directory it is over at once with
    /// the result that nothing is installed. In both cases nothing is asked
    /// of the host.
    pub fn check(&self) -> (s: Step)
        ensures
            s@ == self@.check(),
    {
        let p = match self.get_platform() {
            Ok(p) => p,
            Err(e) => {
                return fail(e);
            },
        };
        match self.get_ffmpeg_file(p.executable_name()) {
            Ok(path) => {
                let asked = path.clone();
                Step { state: Operation::CheckStat { path }, action: Action::Stat { path: asked } }
            },
            Err(_) => finish(
                Outcome::Check(CheckResponse { available: false, path: None, version: None }),
            ),
        }
    }

    /// Begins a download.
    ///
    /// The configuration is the caller's, or the platform's default where
    /// the request holds none. The first action creates the installation
    /// root. On an unsupported platform the download fails at once, whatever
    /// the request holds.
    pub fn download(&self, request: DownloadRequest) -> (s: Step)
        ensures
            s@ == self@.download(request@),
    {
        let p = match self.get_platform() {
            Ok(p) => p,
            Err(e) => {
                return fail(e);
            },
        };
        let config = match request.config {
            Some(c) => c,
            None => p.default_config(),
        };
        let dir = match self.get_ffmpeg_dir() {
            Ok(dir) => dir,
            Err(e) => {
                return fail(e);
            },
        };
        let temp_path = match self.get_ffmpeg_file("ffmpeg_download.tmp") {
            Ok(path) => path,
            Err(e) => {
                return fail(e);
            },
        };
        let executable_path = match self.get_ffmpeg_executable_path() {
            Ok(path) => path,
            Err(e) => {
                return fail(e);
            },
        };
        let path = dir.clone();
        let d = Download {
            phase: Phase::CreatingDir,
            config,
            dir,
            temp_path,
            executable_path,
            mode_bits: p.has_mode_bits(),
            downloaded: 0,
            total: None,
        };
        Step { state: Operation::Download(d), action: Action::CreateDirAll { path } }
    }

    /// Begins an invocation of the binary with the arguments of `request`.
    ///
    /// The first action asks whether the executable exists: nothing is
    /// launched before that is known.
    pub fn execute(&self, request: ExecuteRequest) -> (s: Step)
        ensures
            s@ == self@.execute(request@),
    {
        match self.get_ffmpeg_executable_path() {
            Err(e) => fail(e),
            Ok(path) => {
                let asked = path.clone();
                Step {
                    state: Operation::ExecuteStat { path, args: request.args },
                    action: Action::Stat { path: asked },
                }
            },
        }
    }

    /// Begins the removal of the installation.
    ///
    /// The first action asks whether the installation root exists.
    pub fn remove(&self) -> (s: Step)
        ensures
            s@ == self@.remove(),
    {
        match self.get_ffmpeg_dir() {
            Err(e) => fail(e),
            Ok(dir) => {
                let asked = dir.clone();
                Step { state: Operation::RemoveStat { dir }, action: Action::Stat { path: asked } }
            },
        }
    }
}

/// On a platform that is not served, everything that needs the platform
/// fails as unsupported, and each operation is over before the host has
/// been asked to do anything.
pub proof fn lemma_unsupported_platform(
    f: FfmpegView,
    request: Option<DownloadConfigView>,
    args: Seq<Seq<char>>,
    name: Seq<char>,
)
    requires
        spec_resolve(f.os) is None,
    ensures
        f.platform() == Err::<Platform, ErrorView>(ErrorView::UnsupportedPlatform),
        f.default_config() == Err::<DownloadConfigView, ErrorView>(ErrorView::UnsupportedPlatform),
        f.dir() == Err::<Seq<char>, ErrorView>(ErrorView::UnsupportedPlatform),
        f.file(name) == Err::<Seq<char>, ErrorView>(ErrorView::UnsupportedPlatform),
        f.executable_path() == Err::<Seq<char>, ErrorView>(ErrorView::UnsupportedPlatform),
        f.check() == failed(ErrorView::UnsupportedPlatform),
        f.download(request) == failed(ErrorView::UnsupportedPlatform),
        f.execute(args) == failed(ErrorView::UnsupportedPlatform),
        f.remove() == failed(ErrorView::UnsupportedPlatform),
{
}

/// An invocation that finds no executable fails for want of the binary, and
/// no process was asked for: the one action before that was the question
/// whether the file exists.
pub proof fn lemma_execute_without_binary(f: FfmpegView, args: Seq<Seq<char>>)
    requires
        f.executable_path() is Ok,
    ensures
        f.execute(args).action == (ActionView::Stat { path: f.executable_path()->Ok_0 }),
        spec_step(f.execute(args).state, EventView::Exists(false)) == failed(
            ErrorView::FfmpegNotFound,
        ),
{
}

/// A check fails on an unsupported platform only: on one that is served it
/// begins by asking for the executable, or, without a data directory, is
/// over with the result that nothing is installed.
pub proof fn lemma_check_fails_on_unsupported_platform_only(f: FfmpegView)
    ensures
        f.check().action is Fail <==> spec_resolve(f.os) is None,
        spec_resolve(f.os) is Some && f.app_data_dir is Err ==> f.check() == finished(
            OutcomeView::Check(check_absent()),
        ),
{
}

} // verus!
