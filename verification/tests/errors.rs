use use_ffmpeg::{Error, ErrorKind};

#[test]
fn messages_are_tagged() {
    assert_eq!(Error::Io("permission denied".to_string()).message(), "permission denied");
    assert_eq!(
        Error::Download("Failed to download: HTTP 404 Not Found".to_string()).message(),
        "Download error: Failed to download: HTTP 404 Not Found"
    );
    assert_eq!(Error::FfmpegNotFound.message(), "FFmpeg not found");
    assert_eq!(
        Error::Extraction("Could not find executable at path: ffmpeg".to_string()).message(),
        "Extraction error: Could not find executable at path: ffmpeg"
    );
    assert_eq!(Error::Http("timed out".to_string()).message(), "HTTP error: timed out");
    assert_eq!(Error::Zip("invalid Zip archive".to_string()).message(), "Zip error: invalid Zip archive");
    assert_eq!(
        Error::CommandExecution("Exec format error".to_string()).message(),
        "Command execution error: Exec format error"
    );
    assert_eq!(Error::UnsupportedPlatform.message(), "Unsupported platform");
}

#[test]
fn messages_with_empty_detail() {
    assert_eq!(Error::Io(String::new()).message(), "");
    assert_eq!(Error::Download(String::new()).message(), "Download error: ");
    assert_eq!(Error::Zip(String::new()).message(), "Zip error: ");
}

#[test]
fn every_error_falls_in_one_of_six_kinds() {
    assert_eq!(Error::Io("x".to_string()).kind(), ErrorKind::Io);
    assert_eq!(Error::Download("x".to_string()).kind(), ErrorKind::Download);
    assert_eq!(Error::Http("x".to_string()).kind(), ErrorKind::Download);
    assert_eq!(Error::Extraction("x".to_string()).kind(), ErrorKind::Extraction);
    assert_eq!(Error::Zip("x".to_string()).kind(), ErrorKind::Extraction);
    assert_eq!(Error::FfmpegNotFound.kind(), ErrorKind::FfmpegNotFound);
    assert_eq!(Error::CommandExecution("x".to_string()).kind(), ErrorKind::CommandExecution);
    assert_eq!(Error::UnsupportedPlatform.kind(), ErrorKind::UnsupportedPlatform);
}
