//! Requests, responses and job records.
use vstd::prelude::*;
use vstd::string::*;
use crate::progress::{opt_view, FULL_PERCENT};

verus! {

/// The query of a request for the formats of a media URL.
#[derive(Debug)]
pub struct FormatRequest {
    pub url: String,
}

/// A request to download one media URL, with its optional
/// post-processing directives.
#[derive(Debug)]
pub struct DownloadRequest {
    pub url: String,
    pub format_id: String,
    /// Filename template; when absent one is built from the download directory.
    pub output_template: Option<String>,
    pub write_info_json: bool,
    pub write_thumbnail: bool,
    pub restrict_filenames: bool,
    /// e.g. "1-3,7"
    pub playlist_items: Option<String>,
    /// e.g. "duration > 600 & like_count > 1000"
    pub match_filter: Option<String>,
    /// e.g. "50M" or "1G"
    pub max_filesize: Option<String>,
    pub extract_audio: bool,
    pub audio_format: Option<String>,
    pub audio_quality: Option<String>,
    /// Ignored when `extract_audio` is set.
    pub remux_video: Option<String>,
    pub embed_thumbnail: Option<bool>,
    pub sponsorblock_remove: Option<String>,
    pub sponsorblock_mark: Option<String>,
}

pub struct DownloadRequestView {
    pub url: Seq<char>,
    pub format_id: Seq<char>,
    pub output_template: Option<Seq<char>>,
    pub write_info_json: bool,
    pub write_thumbnail: bool,
    pub restrict_filenames: bool,
    pub playlist_items: Option<Seq<char>>,
    pub match_filter: Option<Seq<char>>,
    pub max_filesize: Option<Seq<char>>,
    pub extract_audio: bool,
    pub audio_format: Option<Seq<char>>,
    pub audio_quality: Option<Seq<char>>,
    pub remux_video: Option<Seq<char>>,
    pub embed_thumbnail: Option<bool>,
    pub sponsorblock_remove: Option<Seq<char>>,
    pub sponsorblock_mark: Option<Seq<char>>,
}

impl View for DownloadRequest {
    type V = DownloadRequestView;

    open spec fn view(&self) -> DownloadRequestView {
        DownloadRequestView {
            url: self.url@,
            format_id: self.format_id@,
            output_template: opt_view(self.output_template),
            write_info_json: self.write_info_json,
            write_thumbnail: self.write_thumbnail,
            restrict_filenames: self.restrict_filenames,
            playlist_items: opt_view(self.playlist_items),
            match_filter: opt_view(self.match_filter),
            max_filesize: opt_view(self.max_filesize),
            extract_audio: self.extract_audio,
            audio_format: opt_view(self.audio_format),
            audio_quality: opt_view(self.audio_quality),
            remux_video: opt_view(self.remux_video),
            embed_thumbnail: self.embed_thumbnail,
            sponsorblock_remove: opt_view(self.sponsorblock_remove),
            sponsorblock_mark: opt_view(self.sponsorblock_mark),
        }
    }
}

/// The answer to an admitted download request.
#[derive(Debug)]
pub struct DownloadResponse {
    pub message: String,
    pub download_key: String,
}

impl DownloadResponse {
    /// The response for a job admitted under `download_key`.
    pub fn started(download_key: String) -> (r: DownloadResponse)
        ensures
            r.download_key@ == download_key@,
            r.message@ == "Download started successfully"@,
    {
        DownloadResponse {
            message: String::from_str("Download started successfully"),
            download_key,
        }
    }
}

/// The lifecycle of a job: `Starting`, then `Downloading`, then one of the
/// two terminal states; `Starting` may also fail directly.
#[derive(Clone, Copy, Debug, PartialEq, Eq, Structural)]
pub enum JobState {
    Starting,
    Downloading,
    Completed,
    Failed,
}

impl JobState {
    /// A job in this state still runs: a new submission for its key is refused.
    pub open spec fn in_flight(self) -> bool {
        self is Starting || self is Downloading
    }

    /// Position in the forward order of the lifecycle.
    pub open spec fn rank(self) -> nat {
        match self {
            JobState::Starting => 0,
            JobState::Downloading => 1,
            _ => 2,
        }
    }

    pub fn is_in_flight(&self) -> (r: bool)
        ensures
            r == self.in_flight(),
    {
        matches!(self, JobState::Starting | JobState::Downloading)
    }

    /// The lower-case name of the state, as reported to clients.
    pub fn name(&self) -> (r: String)
        ensures
            r@ == match self {
                JobState::Starting => "starting"@,
                JobState::Downloading => "downloading"@,
                JobState::Completed => "completed"@,
                JobState::Failed => "failed"@,
            },
    {
        match self {
            JobState::Starting => String::from_str("starting"),
            JobState::Downloading => String::from_str("downloading"),
            JobState::Completed => String::from_str("completed"),
            JobState::Failed => String::from_str("failed"),
        }
    }
}

/// The observable state of one job. `progress` is in hundredths of a
/// percent; `error` is set exactly when the job failed.
#[derive(Clone, Debug)]
pub struct DownloadStatus {
    pub status: JobState,
    pub progress: u64,
    pub eta: String,
    pub speed: String,
    pub error: Option<String>,
}

pub struct DownloadStatusView {
    pub status: JobState,
    pub progress: nat,
    pub eta: Seq<char>,
    pub speed: Seq<char>,
    pub error: Option<Seq<char>>,
}

impl View for DownloadStatus {
    type V = DownloadStatusView;

    open spec fn view(&self) -> DownloadStatusView {
        DownloadStatusView {
            status: self.status,
            progress: self.progress as nat,
            eta: self.eta@,
            speed: self.speed@,
            error: opt_view(self.error),
        }
    }
}

impl DownloadStatusView {
    /// Progress lies within one hundred percent, and an error is recorded
    /// exactly when the job failed.
    pub open spec fn wf(self) -> bool {
        &&& self.progress <= FULL_PERCENT
        &&& (self.error is Some <==> self.status is Failed)
    }
}

impl DownloadStatus {
    /// The record of a freshly admitted job.
    pub fn starting() -> (r: DownloadStatus)
        ensures
            r@ == (DownloadStatusView {
                status: JobState::Starting,
                progress: 0,
                eta: Seq::empty(),
                speed: Seq::empty(),
                error: None,
            }),
    {
        DownloadStatus {
            status: JobState::Starting,
            progress: 0,
            eta: String::new(),
            speed: String::new(),
            error: None,
        }
    }

    /// An independent copy of this record.
    pub fn copied(&self) -> (r: DownloadStatus)
        ensures
            r@ == self@,
    {
        let error = match &self.error {
            Some(e) => Some(e.clone()),
            None => None,
        };
        DownloadStatus {
            status: self.status,
            progress: self.progress,
            eta: self.eta.clone(),
            speed: self.speed.clone(),
            error,
        }
    }
}

} // verus!
