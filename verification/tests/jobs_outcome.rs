use virtuoso_cli::error::VirtuosoError;
use virtuoso_cli::models::{Job, JobStatus};

fn job(status: JobStatus) -> Job {
    Job {
        id: "j1".into(),
        status,
        netlist_path: "/tmp/x/input.scs".into(),
        raw_dir: None,
        pid: Some(10),
        created: "2024".into(),
        finished: None,
        error: Some("old".into()),
        remote_host: None,
        remote_dir: None,
    }
}

#[test]
fn completed_log() {
    let mut j = job(JobStatus::Running);
    j.finish_from_log("...\nspectre completes with 0 errors, 1 warning\n", "t1".into());
    assert_eq!(j.status, JobStatus::Completed);
    assert_eq!(j.error.as_deref(), Some("old"));
    assert_eq!(j.finished.as_deref(), Some("t1"));
}

#[test]
fn missing_log() {
    let mut j = job(JobStatus::Running);
    j.finish_from_log("", "t2".into());
    assert_eq!(j.status, JobStatus::Failed);
    assert_eq!(j.error.as_deref(), Some("process exited, no log found"));
}

#[test]
fn last_error_line_wins() {
    let mut j = job(JobStatus::Running);
    j.finish_from_log("ERROR early\n  Error (SFE-1): first  \nmiddle\n  fatal error here \nend\n", "t3".into());
    assert_eq!(j.status, JobStatus::Failed);
    assert_eq!(j.error.as_deref(), Some("fatal error here"));
    let mut k = job(JobStatus::Running);
    k.finish_from_log("no problems\n", "t4".into());
    assert_eq!(k.error, None);
}

#[test]
fn cancel_running_only() {
    let mut j = job(JobStatus::Running);
    assert!(j.cancel("t5".into()).is_ok());
    assert_eq!(j.status, JobStatus::Cancelled);
    assert_eq!(j.finished.as_deref(), Some("t5"));
    match j.cancel("t6".into()) {
        Err(VirtuosoError::Config(m)) => assert_eq!(m, "job 'j1' is not running (status: Cancelled)"),
        other => panic!("unexpected {other:?}"),
    }
    assert_eq!(j.finished.as_deref(), Some("t5"));
    assert_eq!(j.liveness_pid(), None);
    assert_eq!(job(JobStatus::Running).liveness_pid(), Some(10));
}
