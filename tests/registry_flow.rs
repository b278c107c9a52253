use ytdlp_api::error::AppError;
use ytdlp_api::models::JobState;
use ytdlp_api::progress::parse_progress_line;
use ytdlp_api::registry::JobRegistry;
use ytdlp_api::supervisor::{apply_event, JobEvent};

fn line(s: &str) -> JobEvent {
    JobEvent::Line(s.to_string())
}

#[test]
fn second_submission_refused_until_finished() {
    let mut reg = JobRegistry::new();
    let k = "https://v.example/a".to_string();
    assert!(reg.submit(&k).is_ok());
    match reg.submit(&k) {
        Err(AppError::BadRequest(m)) => assert_eq!(m, "A download for this URL is already in progress."),
        _ => panic!("expected a refusal"),
    }
    apply_event(&mut reg, &k, JobEvent::Exited { success: true, stderr: String::new() });
    assert!(reg.submit(&k).is_ok());
    let s = reg.get(&k).unwrap();
    assert_eq!(s.status, JobState::Starting);
    assert_eq!(s.progress, 0);
}

#[test]
fn progress_moves_job_to_downloading_within_range() {
    let mut reg = JobRegistry::new();
    let k = "k".to_string();
    reg.submit(&k).unwrap();
    let mut u = parse_progress_line("[download] 25% of 1MiB ETA 00:01").unwrap();
    u.percent = 12345;
    reg.observe_progress(&k, &u);
    let s = reg.get(&k).unwrap();
    assert_eq!(s.status, JobState::Downloading);
    assert_eq!(s.progress, 10000);
    assert_eq!(s.eta, "00:01");
    assert_eq!(s.speed, "");
}

#[test]
fn successful_job_completes_at_full_progress() {
    let mut reg = JobRegistry::new();
    let k = "https://v.example/ok".to_string();
    reg.submit(&k).unwrap();
    apply_event(&mut reg, &k, line("[download]  10.0% of 2.00MiB at 1.00MiB/s ETA 00:02"));
    apply_event(&mut reg, &k, line("[download]  60.0% of 2.00MiB at 1.00MiB/s ETA 00:01"));
    apply_event(&mut reg, &k, JobEvent::Exited { success: true, stderr: String::new() });
    let snap = reg.snapshot();
    assert_eq!(snap.len(), 1);
    assert_eq!(snap[0].key, k);
    assert_eq!(snap[0].status.status, JobState::Completed);
    assert_eq!(snap[0].status.progress, 10000);
    assert!(snap[0].status.error.is_none());
}

#[test]
fn failed_job_keeps_diagnostic() {
    let mut reg = JobRegistry::new();
    let k = "https://v.example/bad".to_string();
    reg.submit(&k).unwrap();
    apply_event(&mut reg, &k, JobEvent::Exited { success: false, stderr: "ERROR: unsupported format".to_string() });
    let snap = reg.snapshot();
    assert_eq!(snap[0].status.status, JobState::Failed);
    assert!(snap[0].status.error.as_deref().unwrap().contains("ERROR: unsupported format"));
}

#[test]
fn duplicate_while_downloading_keeps_first_record() {
    let mut reg = JobRegistry::new();
    let k = "https://v.example/dup".to_string();
    reg.submit(&k).unwrap();
    apply_event(&mut reg, &k, line("[download]  45.2% of ~10.00MiB at 1.5MiB/s ETA 00:07"));
    assert!(reg.submit(&k).is_err());
    let snap = reg.snapshot();
    assert_eq!(snap.len(), 1);
    assert_eq!(snap[0].status.status, JobState::Downloading);
    assert_eq!(snap[0].status.progress, 4520);
    assert_eq!(snap[0].status.speed, "1.5MiB/s");
}

#[test]
fn spawn_and_wait_failures_are_recorded() {
    let mut reg = JobRegistry::new();
    let a = "a".to_string();
    let b = "b".to_string();
    reg.submit(&a).unwrap();
    reg.submit(&b).unwrap();
    apply_event(&mut reg, &a, JobEvent::SpawnFailed("No such file or directory".to_string()));
    apply_event(&mut reg, &b, JobEvent::WaitFailed("interrupted".to_string()));
    let sa = reg.get(&a).unwrap();
    assert_eq!(sa.status, JobState::Failed);
    assert_eq!(sa.error.as_deref(), Some("Failed to start yt-dlp process: No such file or directory"));
    let sb = reg.get(&b).unwrap();
    assert_eq!(sb.error.as_deref(), Some("Download process failed to execute: interrupted"));
}

#[test]
fn finished_job_ignores_later_events() {
    let mut reg = JobRegistry::new();
    let k = "k".to_string();
    reg.submit(&k).unwrap();
    apply_event(&mut reg, &k, JobEvent::Exited { success: false, stderr: "boom".to_string() });
    apply_event(&mut reg, &k, line("[download] 50% of 1MiB ETA 00:01"));
    apply_event(&mut reg, &k, JobEvent::Exited { success: true, stderr: String::new() });
    let s = reg.get(&k).unwrap();
    assert_eq!(s.status, JobState::Failed);
    assert_eq!(s.error.as_deref(), Some("boom"));
}

#[test]
fn noise_lines_change_nothing() {
    let mut reg = JobRegistry::new();
    let k = "k".to_string();
    reg.submit(&k).unwrap();
    apply_event(&mut reg, &k, line("[youtube] Extracting URL"));
    assert_eq!(reg.get(&k).unwrap().status, JobState::Starting);
    assert!(reg.get(&"other".to_string()).is_none());
}

#[test]
fn snapshots_without_change_are_equal() {
    let mut reg = JobRegistry::new();
    let a = "a".to_string();
    let b = "b".to_string();
    reg.submit(&a).unwrap();
    reg.submit(&b).unwrap();
    apply_event(&mut reg, &b, line("[download] 5% of 1MiB ETA 00:09"));
    let s1 = reg.snapshot();
    let s2 = reg.snapshot();
    assert_eq!(s1.len(), s2.len());
    for (x, y) in s1.iter().zip(s2.iter()) {
        assert_eq!(x.key, y.key);
        assert_eq!(x.status.status, y.status.status);
        assert_eq!(x.status.progress, y.status.progress);
        assert_eq!(x.status.eta, y.status.eta);
        assert_eq!(x.status.speed, y.status.speed);
        assert_eq!(x.status.error, y.status.error);
    }
}
