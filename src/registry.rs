//! The keyed job registry: admission control and the job state machine.
//!
//! The registry owns every job record. Callers that share it between tasks
//! hold it behind one lock; each method is one atomic step.
use vstd::prelude::*;
use vstd::string::*;
use crate::error::AppError;
use crate::models::{DownloadStatus, DownloadStatusView, JobState};
use crate::progress::{capped_percent, ProgressUpdate, ProgressView, FULL_PERCENT};

verus! {

/// One job of a snapshot: its key and its record.
#[derive(Debug)]
pub struct JobEntry {
    pub key: String,
    pub status: DownloadStatus,
}

pub open spec fn entry_views(s: Seq<JobEntry>) -> Seq<(Seq<char>, DownloadStatusView)> {
    s.map_values(|e: JobEntry| (e.key@, e.status@))
}

/// `s` lists exactly the jobs of `jobs`, each key once.
pub open spec fn lists_exactly(
    s: Seq<(Seq<char>, DownloadStatusView)>,
    jobs: Map<Seq<char>, DownloadStatusView>,
) -> bool {
    &&& forall|i: int, j: int| 0 <= i < j < s.len() ==> s[i].0 != s[j].0
    &&& forall|i: int|
        0 <= i < s.len() ==> #[trigger] jobs.contains_key(s[i].0) && jobs[s[i].0] == s[i].1
    &&& forall|k: Seq<char>|
        #[trigger] jobs.contains_key(k) ==> exists|i: int| 0 <= i < s.len() && s[i].0 == k
}

/// The record of a newly admitted job.
pub open spec fn starting_view() -> DownloadStatusView {
    DownloadStatusView {
        status: JobState::Starting,
        progress: 0,
        eta: Seq::empty(),
        speed: Seq::empty(),
        error: None,
    }
}

/// A record after a progress line: downloading, with the line's fields and
/// its percentage capped at one hundred percent.
pub open spec fn progressed(s: DownloadStatusView, u: ProgressView) -> DownloadStatusView {
    DownloadStatusView {
        status: JobState::Downloading,
        progress: capped_percent(u.percent),
        eta: u.eta,
        speed: match u.speed {
            Some(r) => r,
            None => Seq::empty(),
        },
        error: None,
    }
}

/// A record after its process succeeded.
pub open spec fn completed(s: DownloadStatusView) -> DownloadStatusView {
    DownloadStatusView {
        status: JobState::Completed,
        progress: FULL_PERCENT as nat,
        error: None,
        ..s
    }
}

/// A record after its job failed with diagnostic `detail`.
pub open spec fn failed(s: DownloadStatusView, detail: Seq<char>) -> DownloadStatusView {
    DownloadStatusView { status: JobState::Failed, error: Some(detail), ..s }
}

/// Whether `key` names a job that still runs.
pub open spec fn busy(jobs: Map<Seq<char>, DownloadStatusView>, key: Seq<char>) -> bool {
    jobs.contains_key(key) && jobs[key].status.in_flight()
}

/// Replaces the record of `key` by `next` when that job still runs; leaves
/// the registry as it is otherwise.
pub open spec fn step(
    jobs: Map<Seq<char>, DownloadStatusView>,
    key: Seq<char>,
    next: DownloadStatusView,
) -> Map<Seq<char>, DownloadStatusView> {
    if busy(jobs, key) {
        jobs.insert(key, next)
    } else {
        jobs
    }
}

pub struct JobRegistry {
    entries: Vec<JobEntry>,
    jobs: Ghost<Map<Seq<char>, DownloadStatusView>>,
}

impl View for JobRegistry {
    type V = Map<Seq<char>, DownloadStatusView>;

    closed spec fn view(&self) -> Map<Seq<char>, DownloadStatusView> {
        self.jobs@
    }
}

impl JobRegistry {
    /// Keys are unique, the entries list exactly the jobs, and every record
    /// is well formed.
    pub closed spec fn wf(&self) -> bool {
        &&& lists_exactly(entry_views(self.entries@), self.jobs@)
        &&& forall|k: Seq<char>| #[trigger] self.jobs@.contains_key(k) ==> self.jobs@[k].wf()
    }

    /// The jobs in the registry's own order.
    pub closed spec fn listing(&self) -> Seq<(Seq<char>, DownloadStatusView)> {
        entry_views(self.entries@)
    }

    pub fn new() -> (r: JobRegistry)
        ensures
            r.wf(),
            r@ == Map::<Seq<char>, DownloadStatusView>::empty(),
    {
        JobRegistry { entries: Vec::new(), jobs: Ghost(Map::empty()) }
    }

    /// The position of `key` among the entries.
    fn find(&self, key: &String) -> (r: Option<usize>)
        requires
            self.wf(),
        ensures
            r is None <==> !self@.contains_key(key@),
            r matches Some(i) ==> i < self.entries.len() && self.entries@[i as int].key@ == key@,
    {
        let ghost ev = entry_views(self.entries@);
        let mut i: usize = 0;
        while i < self.entries.len()
            invariant
                i <= self.entries.len(),
                self.wf(),
                ev == entry_views(self.entries@),
                forall|t: int| 0 <= t < i ==> ev[t].0 != key@,
            decreases self.entries.len() - i,
        {
            if self.entries[i].key == *key {
                proof {
                    assert(ev.len() == self.entries.len());
                    assert(ev[i as int].0 == key@);
                    assert(lists_exactly(ev, self.jobs@));
                    assert(self.jobs@.contains_key(ev[i as int].0));
                }
                return Some(i);
            }
            i += 1;
        }
        proof {
            if self@.contains_key(key@) {
                let t = choose|t: int| 0 <= t < ev.len() && ev[t].0 == key@;
                assert(ev[t].0 != key@);
            }
        }
        None
    }

    /// The record of `key`, copied.
    pub fn get(&self, key: &String) -> (r: Option<DownloadStatus>)
        requires
            self.wf(),
        ensures
            match r {
                Some(s) => self@.contains_key(key@) && s@ == self@[key@] && s@.wf(),
                None => !self@.contains_key(key@),
            },
    {
        match self.find(key) {
            Some(i) => {
                proof {
                    let ev = entry_views(self.entries@);
                    assert(ev[i as int].0 == key@);
                }
                Some(self.entries[i].status.copied())
            },
            None => None,
        }
    }

    /// Replaces the record at position `i`.
    fn replace_at(&mut self, i: usize, status: DownloadStatus)
        requires
            old(self).wf(),
            i < old(self).entries.len(),
            status@.wf(),
        ensures
            final(self).wf(),
            final(self)@ == old(self)@.insert(old(self).entries@[i as int].key@, status@),
    {
        let key = self.entries[i].key.clone();
        let ghost k = key@;
        let ghost old_ev = entry_views(self.entries@);
        self.entries.set(i, JobEntry { key, status });
        self.jobs = Ghost(self.jobs@.insert(k, status@));
        proof {
            let ev = entry_views(self.entries@);
            assert(ev =~= old_ev.update(i as int, (k, status@)));
            assert(old_ev[i as int].0 == k);
            assert forall|t: int| 0 <= t < ev.len() implies #[trigger] self.jobs@.contains_key(ev[t].0)
                && self.jobs@[ev[t].0] == ev[t].1 by {
                if t != i {
                    assert(old_ev[t].0 != k);
                    assert(old(self).jobs@.contains_key(old_ev[t].0));
                }
            }
            assert forall|q: Seq<char>| #[trigger] self.jobs@.contains_key(q) implies self.jobs@[q].wf() by {
                if q != k {
                    assert(old(self).jobs@.contains_key(q));
                }
            }
            assert forall|q: Seq<char>| #[trigger] self.jobs@.contains_key(q) implies exists|t: int|
                0 <= t < ev.len() && ev[t].0 == q by {
                if q != k {
                    let t = choose|t: int| 0 <= t < old_ev.len() && old_ev[t].0 == q;
                    assert(ev[t].0 == q);
                } else {
                    assert(ev[i as int].0 == q);
                }
            }
        }
    }

    /// Admission: registers `key` as a new job in `Starting`, unless a job
    /// with that key still runs; then nothing changes and the request is
    /// refused. A finished job's record is overwritten.
    pub fn submit(&mut self, key: &String) -> (r: Result<(), AppError>)
        requires
            old(self).wf(),
        ensures
            final(self).wf(),
            busy(old(self)@, key@) ==> final(self)@ == old(self)@ && (r matches Err(
                AppError::BadRequest(m),
            ) && m@ == "A download for this URL is already in progress."@),
            !busy(old(self)@, key@) ==> r is Ok && final(self)@ == old(self)@.insert(
                key@,
                starting_view(),
            ),
    {
        match self.find(key) {
            Some(i) => {
                proof {
                    assert(entry_views(self.entries@)[i as int].0 == key@);
                }
                if self.entries[i].status.status.is_in_flight() {
                    return Err(
                        AppError::BadRequest(
                            String::from_str("A download for this URL is already in progress."),
                        ),
                    );
                }
                self.replace_at(i, DownloadStatus::starting());
                Ok(())
            },
            None => {
                let ghost old_ev = entry_views(self.entries@);
                let ghost k = key@;
                self.entries.push(JobEntry { key: key.clone(), status: DownloadStatus::starting() });
                self.jobs = Ghost(self.jobs@.insert(k, starting_view()));
                proof {
                    let ev = entry_views(self.entries@);
                    assert(ev =~= old_ev.push((k, starting_view())));
                    assert forall|q: Seq<char>| #[trigger] self.jobs@.contains_key(q) implies exists|
                        t: int,
                    | 0 <= t < ev.len() && ev[t].0 == q by {
                        if q != k {
                            let t = choose|t: int| 0 <= t < old_ev.len() && old_ev[t].0 == q;
                            assert(ev[t].0 == q);
                        } else {
                            assert(ev[old_ev.len() as int].0 == q);
                        }
                    }
                }
                Ok(())
            },
        }
    }

    /// Records a progress line of the job `key`: the job is downloading, and
    /// the line's percentage (at most one hundred percent), ETA and rate
    /// replace the previous ones. Has no effect unless the job still runs.
    pub fn observe_progress(&mut self, key: &String, update: &ProgressUpdate)
        requires
            old(self).wf(),
        ensures
            final(self).wf(),
            final(self)@ == step(old(self)@, key@, progressed(old(self)@[key@], update@)),
    {
        if let Some(i) = self.find(key) {
            proof {
                assert(entry_views(self.entries@)[i as int].0 == key@);
            }
            let cur = &self.entries[i].status;
            if cur.status.is_in_flight() {
                let speed = match &update.speed {
                    Some(r) => r.clone(),
                    None => String::new(),
                };
                let next = DownloadStatus {
                    status: JobState::Downloading,
                    progress: if update.percent >= FULL_PERCENT {
                        FULL_PERCENT
                    } else {
                        update.percent
                    },
                    eta: update.eta.clone(),
                    speed,
                    error: None,
                };
                self.replace_at(i, next);
            }
        }
    }

    /// Records that the process of job `key` succeeded: the job is completed
    /// at one hundred percent. Has no effect unless the job still runs.
    pub fn complete(&mut self, key: &String)
        requires
            old(self).wf(),
        ensures
            final(self).wf(),
            final(self)@ == step(old(self)@, key@, completed(old(self)@[key@])),
    {
        if let Some(i) = self.find(key) {
            proof {
                assert(entry_views(self.entries@)[i as int].0 == key@);
            }
            let cur = &self.entries[i].status;
            if cur.status.is_in_flight() {
                let next = DownloadStatus {
                    status: JobState::Completed,
                    progress: FULL_PERCENT,
                    eta: cur.eta.clone(),
                    speed: cur.speed.clone(),
                    error: None,
                };
                self.replace_at(i, next);
            }
        }
    }

    /// Records that job `key` failed, with diagnostic text `detail`. Has no
    /// effect unless the job still runs.
    pub fn fail(&mut self, key: &String, detail: String)
        requires
            old(self).wf(),
        ensures
            final(self).wf(),
            final(self)@ == step(old(self)@, key@, failed(old(self)@[key@], detail@)),
    {
        if let Some(i) = self.find(key) {
            proof {
                assert(entry_views(self.entries@)[i as int].0 == key@);
            }
            let cur = &self.entries[i].status;
            if cur.status.is_in_flight() {
                let next = DownloadStatus {
                    status: JobState::Failed,
                    progress: cur.progress,
                    eta: cur.eta.clone(),
                    speed: cur.speed.clone(),
                    error: Some(detail),
                };
                self.replace_at(i, next);
            }
        }
    }

    /// An independent copy of every job, each key once.
    pub fn snapshot(&self) -> (r: Vec<JobEntry>)
        requires
            self.wf(),
        ensures
            entry_views(r@) == self.listing(),
            lists_exactly(entry_views(r@), self@),
    {
        let mut out: Vec<JobEntry> = Vec::new();
        let mut i: usize = 0;
        while i < self.entries.len()
            invariant
                i <= self.entries.len(),
                entry_views(out@) =~= entry_views(self.entries@).subrange(0, i as int),
            decreases self.entries.len() - i,
        {
            let e = &self.entries[i];
            let ghost prev = out@;
            let item = JobEntry { key: e.key.clone(), status: e.status.copied() };
            let ghost iv = (item.key@, item.status@);
            out.push(item);
            proof {
                assert(entry_views(out@) =~= entry_views(prev).push(iv));
                assert(entry_views(self.entries@).subrange(0, i + 1) =~= entry_views(
                    self.entries@,
                ).subrange(0, i as int).push(iv));
            }
            i += 1;
        }
        assert(entry_views(out@) =~= entry_views(self.entries@));
        out
    }
}

/// Recording progress, whatever percentage the update carries, leaves every
/// record within one hundred percent and well formed, and never moves a job
/// backwards: a downloading job does not return to starting, and a finished
/// job stays as it was.
pub proof fn lemma_progress_keeps_records_in_range(
    jobs: Map<Seq<char>, DownloadStatusView>,
    key: Seq<char>,
    u: ProgressView,
    k: Seq<char>,
)
    requires
        jobs.contains_key(k),
        jobs[k].wf(),
    ensures
        step(jobs, key, progressed(jobs[key], u)).contains_key(k),
        step(jobs, key, progressed(jobs[key], u))[k].progress <= FULL_PERCENT,
        step(jobs, key, progressed(jobs[key], u))[k].wf(),
        step(jobs, key, progressed(jobs[key], u))[k].status.rank() >= jobs[k].status.rank(),
        !jobs[k].status.in_flight() ==> step(jobs, key, progressed(jobs[key], u))[k] == jobs[k],
{
}

/// Taking a snapshot twice, with no change in between, gives equal results.
pub proof fn lemma_snapshot_idempotent(registry: JobRegistry, first: Seq<JobEntry>, second: Seq<JobEntry>)
    requires
        entry_views(first) == registry.listing(),
        entry_views(second) == registry.listing(),
    ensures
        entry_views(first) == entry_views(second),
{
}

} // verus!
