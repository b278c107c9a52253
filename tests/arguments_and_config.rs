use ytdlp_api::arguments::build_arguments;
use ytdlp_api::config::Config;
use ytdlp_api::error::AppError;
use ytdlp_api::files::{attachment_disposition, check_format_request, decode_file_path, missing_file, outside_download_dir};
use ytdlp_api::models::{DownloadRequest, DownloadResponse, FormatRequest, JobState};

fn request(url: &str, format_id: &str) -> DownloadRequest {
    DownloadRequest {
        url: url.to_string(),
        format_id: format_id.to_string(),
        output_template: None,
        write_info_json: false,
        write_thumbnail: false,
        restrict_filenames: false,
        playlist_items: None,
        match_filter: None,
        max_filesize: None,
        extract_audio: false,
        audio_format: None,
        audio_quality: None,
        remux_video: None,
        embed_thumbnail: None,
        sponsorblock_remove: None,
        sponsorblock_mark: None,
    }
}

#[test]
fn minimal_request_arguments() {
    let args = build_arguments(&request("https://v.example/a", "best"), "out/%(title)s.%(ext)s");
    assert_eq!(args, vec!["-f", "best", "--newline", "-o", "out/%(title)s.%(ext)s", "https://v.example/a"]);
}

#[test]
fn every_directive_in_order() {
    let mut r = request("https://v.example/b", "137+140");
    r.write_info_json = true;
    r.write_thumbnail = true;
    r.restrict_filenames = true;
    r.playlist_items = Some("1-3,7".to_string());
    r.match_filter = Some("duration > 600".to_string());
    r.max_filesize = Some("50M".to_string());
    r.remux_video = Some("mkv".to_string());
    r.embed_thumbnail = Some(true);
    r.sponsorblock_remove = Some("sponsor,selfpromo".to_string());
    r.sponsorblock_mark = Some("all,-outro".to_string());
    let args = build_arguments(&r, "t");
    assert_eq!(
        args,
        vec![
            "-f", "137+140", "--newline", "-o", "t", "--write-info-json", "--write-thumbnail",
            "--restrict-filenames", "--playlist-items", "1-3,7", "--match-filters", "duration > 600",
            "--max-filesize", "50M", "--remux-video", "mkv", "--embed-thumbnail",
            "--sponsorblock-remove", "sponsor,selfpromo", "--sponsorblock-mark", "all,-outro",
            "https://v.example/b",
        ]
    );
}

#[test]
fn audio_extraction_wins_over_remux() {
    let mut r = request("u", "bestaudio");
    r.extract_audio = true;
    r.audio_format = Some("mp3".to_string());
    r.audio_quality = Some("0".to_string());
    r.remux_video = Some("mp4".to_string());
    r.embed_thumbnail = Some(false);
    let args = build_arguments(&r, "t");
    assert_eq!(
        args,
        vec!["-f", "bestaudio", "--newline", "-o", "t", "--extract-audio", "--audio-format", "mp3", "--audio-quality", "0", "u"]
    );
}

#[test]
fn default_config_directory() {
    assert_eq!(Config::with_download_dir(None).download_directory, "downloads");
    assert_eq!(Config::with_download_dir(Some("/home/a/Downloads".to_string())).download_directory, "/home/a/Downloads");
}

#[test]
fn output_template_choice() {
    let c = Config::with_download_dir(Some("/srv/dl".to_string()));
    assert_eq!(c.output_template(&None), "/srv/dl/%(title)s [%(id)s].%(ext)s");
    assert_eq!(c.output_template(&Some("x/%(id)s".to_string())), "x/%(id)s");
    let slash = Config::with_download_dir(Some("/srv/dl/".to_string()));
    assert_eq!(slash.output_template(&None), "/srv/dl/%(title)s [%(id)s].%(ext)s");
    let empty = Config::with_download_dir(Some(String::new()));
    assert_eq!(empty.output_template(&None), "%(title)s [%(id)s].%(ext)s");
}

#[test]
fn error_status_and_messages() {
    let e = AppError::YtDlp("bad url".to_string());
    assert_eq!((e.status_code(), e.message()), (400, "yt-dlp error: bad url".to_string()));
    let e = AppError::Internal("disk".to_string());
    assert_eq!((e.status_code(), e.message()), (500, "An internal server error occurred".to_string()));
    let e = AppError::BadRequest("no".to_string());
    assert_eq!((e.status_code(), e.message()), (400, "no".to_string()));
    let e = AppError::NotFound("gone".to_string());
    assert_eq!((e.status_code(), e.message()), (404, "gone".to_string()));
}

#[test]
fn file_path_is_percent_decoded() {
    assert_eq!(decode_file_path("My%20Video%20%5B1%5D.mp4"), "My Video [1].mp4");
    assert_eq!(decode_file_path("plain.mkv"), "plain.mkv");
}

#[test]
fn file_messages() {
    match missing_file("a.mp4") {
        AppError::NotFound(m) => assert_eq!(m, "File 'a.mp4' not found."),
        _ => panic!("wrong variant"),
    }
    match outside_download_dir() {
        AppError::NotFound(m) => assert_eq!(m, "File not found (Path Traversal Attempt)"),
        _ => panic!("wrong variant"),
    }
    assert_eq!(attachment_disposition("a b.mp4"), "attachment; filename=\"a b.mp4\"");
}

#[test]
fn formats_query_needs_url() {
    match check_format_request(&FormatRequest { url: String::new() }) {
        Err(AppError::BadRequest(m)) => assert_eq!(m, "URL parameter cannot be empty"),
        _ => panic!("expected a bad request"),
    }
    assert!(check_format_request(&FormatRequest { url: "https://v.example/a".to_string() }).is_ok());
}

#[test]
fn response_and_state_names() {
    let r = DownloadResponse::started("k".to_string());
    assert_eq!(r.message, "Download started successfully");
    assert_eq!(r.download_key, "k");
    assert_eq!(JobState::Starting.name(), "starting");
    assert_eq!(JobState::Downloading.name(), "downloading");
    assert_eq!(JobState::Completed.name(), "completed");
    assert_eq!(JobState::Failed.name(), "failed");
}
