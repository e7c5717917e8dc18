//! Platform resolution: which operating systems are served, and what each
//! one's installation looks like.

use vstd::prelude::*;
use vstd::string::*;

use crate::error::Error;
use crate::models::{DownloadConfig, DownloadConfigView};

verus! {

/// The operating systems for which a build of the binary exists.
#[derive(Debug, Clone, Copy, PartialEq, Eq, Structural)]
pub enum Platform {
    Macos,
    Windows,
    Linux,
}

impl Platform {
    /// The name of the platform's directory under the installation root.
    pub open spec fn spec_id(self) -> Seq<char> {
        match self {
            Platform::Macos => "macos"@,
            Platform::Windows => "windows"@,
            Platform::Linux => "linux"@,
        }
    }

    /// The file name of the installed executable.
    pub open spec fn spec_executable_name(self) -> Seq<char> {
        match self {
            Platform::Windows => "ffmpeg.exe"@,
            _ => "ffmpeg"@,
        }
    }

    /// What stands between the components of a path.
    pub open spec fn spec_separator(self) -> Seq<char> {
        match self {
            Platform::Windows => "\\"@,
            _ => "/"@,
        }
    }

    /// Whether files carry POSIX permission bits here.
    pub open spec fn spec_has_mode_bits(self) -> bool {
        self != Platform::Windows
    }

    /// The distribution that is fetched where the caller names none.
    pub open spec fn spec_default_config(self) -> DownloadConfigView {
        match self {
            Platform::Macos => DownloadConfigView {
                url: "https://evermeet.cx/ffmpeg/ffmpeg-8.0.zip"@,
                executable_path: "ffmpeg"@,
            },
            Platform::Windows => DownloadConfigView {
                url: "https://github.com/BtbN/FFmpeg-Builds/releases/download/latest/ffmpeg-n8.0-latest-win64-gpl-8.0.zip"@,
                executable_path: "bin/ffmpeg.exe"@,
            },
            Platform::Linux => DownloadConfigView {
                url: "https://johnvansickle.com/ffmpeg/releases/ffmpeg-release-amd64-static.tar.xz"@,
                executable_path: "ffmpeg"@,
            },
        }
    }

    pub fn id(self) -> (s: &'static str)
        ensures
            s@ == self.spec_id(),
    {
        match self {
            Platform::Macos => "macos",
            Platform::Windows => "windows",
            Platform::Linux => "linux",
        }
    }

    pub fn executable_name(self) -> (s: &'static str)
        ensures
            s@ == self.spec_executable_name(),
    {
        match self {
            Platform::Windows => "ffmpeg.exe",
            _ => "ffmpeg",
        }
    }

    pub fn separator(self) -> (s: &'static str)
        ensures
            s@ == self.spec_separator(),
    {
        match self {
            Platform::Windows => "\\",
            _ => "/",
        }
    }

    pub fn has_mode_bits(self) -> (b: bool)
        ensures
            b == self.spec_has_mode_bits(),
    {
        match self {
            Platform::Windows => false,
            _ => true,
        }
    }

    pub fn default_config(self) -> (c: DownloadConfig)
        ensures
            c@ == self.spec_default_config(),
    {
        match self {
            Platform::Macos => DownloadConfig {
                url: String::from_str("https://evermeet.cx/ffmpeg/ffmpeg-8.0.zip"),
                executable_path: String::from_str("ffmpeg"),
            },
            Platform::Windows => DownloadConfig {
                url: String::from_str(
                    "https://github.com/BtbN/FFmpeg-Builds/releases/download/latest/ffmpeg-n8.0-latest-win64-gpl-8.0.zip",
                ),
                executable_path: String::from_str("bin/ffmpeg.exe"),
            },
            Platform::Linux => DownloadConfig {
                url: String::from_str(
                    "https://johnvansickle.com/ffmpeg/releases/ffmpeg-release-amd64-static.tar.xz",
                ),
                executable_path: String::from_str("ffmpeg"),
            },
        }
    }
}

/// The platform that an operating-system identifier stands for, if any.
pub open spec fn spec_resolve(os: Seq<char>) -> Option<Platform> {
    if os == "macos"@ {
        Some(Platform::Macos)
    } else if os == "windows"@ {
        Some(Platform::Windows)
    } else if os == "linux"@ {
        Some(Platform::Linux)
    } else {
        None
    }
}

/// Whether two string slices hold the same characters.
pub fn str_eq(a: &str, b: &str) -> (r: bool)
    ensures
        r == (a@ == b@),
{
    let x = String::from_str(a);
    let y = String::from_str(b);
    x == y
}

/// Maps the identifier of the running operating system to its platform.
pub fn resolve(os: &str) -> (r: Result<Platform, Error>)
    ensures
        match spec_resolve(os@) {
            Some(p) => r == Ok::<Platform, Error>(p),
            None => r == Err::<Platform, Error>(Error::UnsupportedPlatform),
        },
{
    if str_eq(os, "macos") {
        Ok(Platform::Macos)
    } else if str_eq(os, "windows") {
        Ok(Platform::Windows)
    } else if str_eq(os, "linux") {
        Ok(Platform::Linux)
    } else {
        Err(Error::UnsupportedPlatform)
    }
}

} // verus!
