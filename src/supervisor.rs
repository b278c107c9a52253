//! Decisions of the task that supervises one job's process. The task itself
//! (spawning, reading lines, waiting) runs outside; it hands each event to
//! [`apply_event`], which updates the registry.
use vstd::prelude::*;
use vstd::string::*;
use crate::models::DownloadStatusView;
use crate::progress::{parse_progress_line, progress_of};
use crate::registry::{busy, completed, failed, progressed, starting_view, step, JobRegistry};

verus! {

/// What the supervising task observed of its process.
pub enum JobEvent {
    /// The process could not be started; carries the error text.
    SpawnFailed(String),
    /// The process printed one line on its standard output.
    Line(String),
    /// Waiting for the process failed; carries the error text.
    WaitFailed(String),
    /// The process exited, successfully or not, with its standard error text.
    Exited { success: bool, stderr: String },
}

pub enum JobEventView {
    SpawnFailed(Seq<char>),
    Line(Seq<char>),
    WaitFailed(Seq<char>),
    Exited { success: bool, stderr: Seq<char> },
}

impl View for JobEvent {
    type V = JobEventView;

    open spec fn view(&self) -> JobEventView {
        match self {
            JobEvent::SpawnFailed(m) => JobEventView::SpawnFailed(m@),
            JobEvent::Line(l) => JobEventView::Line(l@),
            JobEvent::WaitFailed(m) => JobEventView::WaitFailed(m@),
            JobEvent::Exited { success, stderr } => JobEventView::Exited {
                success: *success,
                stderr: stderr@,
            },
        }
    }
}

/// The registry after job `key` saw event `e`.
pub open spec fn after_event(
    jobs: Map<Seq<char>, DownloadStatusView>,
    key: Seq<char>,
    e: JobEventView,
) -> Map<Seq<char>, DownloadStatusView> {
    match e {
        JobEventView::SpawnFailed(m) => step(
            jobs,
            key,
            failed(jobs[key], "Failed to start yt-dlp process: "@ + m),
        ),
        JobEventView::Line(l) => match progress_of(l) {
            Some(u) => step(jobs, key, progressed(jobs[key], u)),
            None => jobs,
        },
        JobEventView::WaitFailed(m) => step(
            jobs,
            key,
            failed(jobs[key], "Download process failed to execute: "@ + m),
        ),
        JobEventView::Exited { success, stderr } => if success {
            step(jobs, key, completed(jobs[key]))
        } else {
            step(jobs, key, failed(jobs[key], stderr))
        },
    }
}

/// Applies one event of job `key` to the registry: a progress line updates
/// the job (other lines are ignored), a clean exit completes it, and any
/// failure fails it with its diagnostic text.
pub fn apply_event(registry: &mut JobRegistry, key: &String, event: JobEvent)
    requires
        old(registry).wf(),
    ensures
        final(registry).wf(),
        final(registry)@ == after_event(old(registry)@, key@, event@),
{
    match event {
        JobEvent::SpawnFailed(m) => {
            let detail = String::from_str("Failed to start yt-dlp process: ").concat(m.as_str());
            registry.fail(key, detail);
        },
        JobEvent::Line(l) => {
            if let Some(u) = parse_progress_line(l.as_str()) {
                registry.observe_progress(key, &u);
            }
        },
        JobEvent::WaitFailed(m) => {
            let detail = String::from_str("Download process failed to execute: ").concat(
                m.as_str(),
            );
            registry.fail(key, detail);
        },
        JobEvent::Exited { success, stderr } => {
            if success {
                registry.complete(key);
            } else {
                registry.fail(key, stderr);
            }
        },
    }
}

/// A successful submission leaves its key busy, so a second submission of
/// that key is refused. While the job runs, a line of output keeps the key
/// busy, and every other event ends the job and frees the key, so the next
/// submission is accepted.
pub proof fn lemma_submission_cycle(
    jobs: Map<Seq<char>, DownloadStatusView>,
    key: Seq<char>,
    e: JobEventView,
)
    ensures
        busy(jobs.insert(key, starting_view()), key),
        busy(jobs, key) ==> (busy(after_event(jobs, key, e), key) <==> e is Line),
{
}

/// No event moves a job backwards in its lifecycle or out of a terminal
/// state, and each keeps every record well formed: progress within one
/// hundred percent, an error exactly on failure.
pub proof fn lemma_events_move_forward(
    jobs: Map<Seq<char>, DownloadStatusView>,
    key: Seq<char>,
    e: JobEventView,
    k: Seq<char>,
)
    requires
        jobs.contains_key(k),
        jobs[k].wf(),
    ensures
        after_event(jobs, key, e).contains_key(k),
        after_event(jobs, key, e)[k].wf(),
        after_event(jobs, key, e)[k].status.rank() >= jobs[k].status.rank(),
        !jobs[k].status.in_flight() ==> after_event(jobs, key, e)[k] == jobs[k],
{
}

} // verus!
