use aadk::job_events::{
    error_text, event_text, format_active_job, format_job_row, job_end, job_event_lines,
    job_state_label, latest_job, progress_text, run_stream_lines, state_without_end,
    stream_job_event_lines, text_or_dash, Job, JobError, JobEvent, JobPayload, JobProgress,
    JobSummary, LogChunk, LogExportEvent,
};
use aadk::model::{
    artifact_type_label, clone_kvs, kv_pairs, metric, millis_or_zero, run_output_kind_label,
    text_or, text_or_empty, to_optional_id, ArtifactType, JobState, KeyValue, RunOutputKind,
};

fn kv(key: &str, value: &str) -> KeyValue {
    KeyValue { key: key.to_string(), value: value.to_string() }
}

fn event(payload: Option<JobPayload>) -> JobEvent {
    JobEvent { at: Some(5), job_id: Some("job-1".to_string()), payload }
}

fn log_event(data: &[u8]) -> JobEvent {
    event(Some(JobPayload::Log {
        chunk: Some(LogChunk {
            stream: "stdout".to_string(),
            data: data.to_vec(),
            truncated: false,
        }),
    }))
}

fn job(id: &str, created_at: Option<i64>) -> Job {
    Job {
        job_id: Some(id.to_string()),
        job_type: "demo".to_string(),
        state: JobState::Running,
        created_at,
        started_at: None,
        finished_at: None,
        display_name: "Demo".to_string(),
        correlation_id: String::new(),
        run_id: None,
        project_id: None,
        target_id: None,
        toolchain_set_id: None,
    }
}

#[test]
fn pairs_are_written_with_commas() {
    assert_eq!(kv_pairs(&vec![]), "");
    assert_eq!(kv_pairs(&vec![kv("a", "1"), kv("b", "")]), "a=1, b=");
    let m = metric("k", "v");
    assert_eq!((m.key.as_str(), m.value.as_str()), ("k", "v"));
    let copy = clone_kvs(&vec![kv("x", "y")]);
    assert_eq!(kv_pairs(&copy), "x=y");
}

#[test]
fn ids_are_trimmed_or_missing() {
    assert_eq!(to_optional_id("  "), None);
    assert_eq!(to_optional_id(" a b "), Some("a b".to_string()));
    assert_eq!(text_or_empty(&None), "");
    assert_eq!(text_or(&None, "-"), "-");
    assert_eq!(text_or(&Some("x".to_string()), "-"), "x");
    assert_eq!(millis_or_zero(None), 0);
    assert_eq!(millis_or_zero(Some(-3)), -3);
    assert_eq!(text_or_dash("  "), "-");
    assert_eq!(text_or_dash(" a"), " a");
}

#[test]
fn states_and_kinds_have_names() {
    for (state, name) in [
        (JobState::Unspecified, "Unspecified"),
        (JobState::Queued, "Queued"),
        (JobState::Running, "Running"),
        (JobState::Success, "Success"),
        (JobState::Failed, "Failed"),
        (JobState::Cancelled, "Cancelled"),
    ] {
        assert_eq!(state.label(), name);
    }
    assert!(JobState::Success.is_terminal());
    assert!(JobState::Failed.is_terminal());
    assert!(JobState::Cancelled.is_terminal());
    assert!(!JobState::Queued.is_terminal());
    assert!(!JobState::Running.is_terminal());
    assert!(!JobState::Unspecified.is_terminal());
    for (kind, name) in [
        (ArtifactType::Apk, "apk"),
        (ArtifactType::Aab, "aab"),
        (ArtifactType::Aar, "aar"),
        (ArtifactType::Mapping, "mapping"),
        (ArtifactType::TestResult, "test_result"),
        (ArtifactType::Unspecified, "unspecified"),
    ] {
        assert_eq!(artifact_type_label(kind), name);
    }
    assert_eq!(run_output_kind_label(RunOutputKind::Bundle), "bundle");
    assert_eq!(run_output_kind_label(RunOutputKind::Artifact), "artifact");
    assert_eq!(run_output_kind_label(RunOutputKind::Unspecified), "unspecified");
}

#[test]
fn every_payload_is_exported() {
    let e = LogExportEvent::from_proto(&event(Some(JobPayload::StateChanged {
        new_state: JobState::Queued,
    })));
    assert_eq!((e.at_unix_millis, e.kind.as_str(), e.summary.as_str()), (5, "state_changed", "Queued"));
    assert_eq!(e.data, None);

    let e = LogExportEvent::from_proto(&event(Some(JobPayload::Progress {
        progress: Some(JobProgress { percent: 40, phase: "build".to_string(), metrics: vec![] }),
    })));
    assert_eq!((e.kind.as_str(), e.summary.as_str()), ("progress", "40% build"));

    let e = LogExportEvent::from_proto(&event(Some(JobPayload::Progress {
        progress: Some(JobProgress {
            percent: 40,
            phase: "build".to_string(),
            metrics: vec![kv("n", "1"), kv("m", "2")],
        }),
    })));
    assert_eq!(e.summary, "40% build (n=1, m=2)");

    let e = LogExportEvent::from_proto(&event(Some(JobPayload::Progress { progress: None })));
    assert_eq!((e.kind.as_str(), e.summary.as_str()), ("progress", "missing progress payload"));

    let e = LogExportEvent::from_proto(&log_event(b"text"));
    assert_eq!((e.kind.as_str(), e.summary.as_str()), ("log", "stream=stdout truncated=false"));
    assert_eq!(e.data, Some("text".to_string()));

    let e = LogExportEvent::from_proto(&event(Some(JobPayload::Log { chunk: None })));
    assert_eq!((e.kind.as_str(), e.summary.as_str()), ("log", "missing log chunk"));

    let e = LogExportEvent::from_proto(&event(Some(JobPayload::Completed {
        summary: "done".to_string(),
        outputs: vec![kv("apk", "/a.apk")],
    })));
    assert_eq!((e.kind.as_str(), e.summary.as_str()), ("completed", "done (apk=/a.apk)"));

    let e = LogExportEvent::from_proto(&event(Some(JobPayload::Completed {
        summary: "done".to_string(),
        outputs: vec![],
    })));
    assert_eq!(e.summary, "done");

    let e = LogExportEvent::from_proto(&event(Some(JobPayload::Failed {
        error: Some(JobError { message: "no".to_string(), code: -7 }),
    })));
    assert_eq!((e.kind.as_str(), e.summary.as_str()), ("failed", "no (-7)"));

    let e = LogExportEvent::from_proto(&event(Some(JobPayload::Failed { error: None })));
    assert_eq!(e.summary, "failed");

    let e = LogExportEvent::from_proto(&JobEvent { at: None, job_id: None, payload: None });
    assert_eq!((e.at_unix_millis, e.kind.as_str(), e.summary.as_str()), (0, "unknown", "missing payload"));
}

#[test]
fn bytes_that_are_no_text_are_replaced() {
    let bytes = [b'a', 0xff, b'b'];
    assert_eq!(event_text(&log_event(&bytes)), Some("a\u{fffd}b".to_string()));
    assert_eq!(event_text(&log_event("héllo".as_bytes())), Some("héllo".to_string()));
    assert_eq!(event_text(&event(None)), None);
}

#[test]
fn lines_of_a_jobs_history() {
    assert_eq!(
        job_event_lines(&log_event(b"one")),
        vec!["5 log: stream=stdout truncated=false\n", "one\n"]
    );
    assert_eq!(
        job_event_lines(&log_event(b"one\n")),
        vec!["5 log: stream=stdout truncated=false\n", "one\n"]
    );
    assert_eq!(
        job_event_lines(&log_event(b"")),
        vec!["5 log: stream=stdout truncated=false\n", "\n"]
    );
    assert_eq!(job_event_lines(&event(None)), vec!["5 unknown: missing payload\n"]);
}

#[test]
fn lines_of_a_jobs_stream() {
    assert_eq!(stream_job_event_lines("j", &log_event(b"one")), vec!["one\n"]);
    assert_eq!(
        stream_job_event_lines("j", &log_event(b"")),
        vec!["job j: log: stream=stdout truncated=false\n"]
    );
    assert_eq!(
        stream_job_event_lines("j", &event(Some(JobPayload::Log { chunk: None }))),
        vec!["job j: log: missing chunk\n"]
    );
    assert_eq!(
        stream_job_event_lines(
            "j",
            &event(Some(JobPayload::StateChanged { new_state: JobState::Running }))
        ),
        vec!["job j: 5 state_changed: Running\n"]
    );
}

#[test]
fn lines_of_a_runs_stream() {
    assert_eq!(
        run_stream_lines(&log_event(b"one\n")),
        vec!["job job-1: log: stream=stdout truncated=false\n", "one\n"]
    );
    assert_eq!(
        run_stream_lines(&log_event(b"")),
        vec!["job job-1: log: stream=stdout truncated=false\n"]
    );
    assert_eq!(
        run_stream_lines(&event(Some(JobPayload::Log { chunk: None }))),
        vec!["job job-1: log: missing chunk\n"]
    );
    assert_eq!(
        run_stream_lines(&JobEvent {
            at: None,
            job_id: None,
            payload: Some(JobPayload::Failed { error: None }),
        }),
        vec!["job -: 0 failed: failed\n"]
    );
}

#[test]
fn progress_and_errors_have_texts() {
    assert_eq!(
        progress_text(&JobProgress { percent: 7, phase: "p".to_string(), metrics: vec![kv("a", "b")] }),
        "7% p"
    );
    assert_eq!(error_text(&JobError { message: "bad".to_string(), code: 3 }), "bad (3)");
}

#[test]
fn jobs_are_listed_in_rows() {
    let mut j = job("job-1", Some(10));
    assert_eq!(
        format_job_row(&j),
        "- job-1 type=demo state=Running run_id=- corr=- created=10 finished=0 display=Demo\n"
    );
    j.job_id = None;
    j.run_id = Some("run".to_string());
    j.correlation_id = "c".to_string();
    j.finished_at = Some(20);
    assert_eq!(
        format_job_row(&j),
        "- - type=demo state=Running run_id=run corr=c created=10 finished=20 display=Demo\n"
    );
    assert_eq!(job_state_label(&j), "Running");
}

#[test]
fn an_active_job_is_told() {
    let mut j = job("job-1", None);
    assert_eq!(
        format_active_job(&j),
        "latest job is Running job_id=job-1 job_type=demo created=0"
    );
    j.job_id = None;
    j.job_type = " ".to_string();
    j.created_at = Some(4);
    assert_eq!(format_active_job(&j), "latest job is Running job_id=- job_type=- created=4");
}

#[test]
fn jobs_are_summed_up() {
    let mut j = job("job-1", Some(1));
    j.started_at = Some(2);
    j.target_id = Some("t".to_string());
    let s = JobSummary::from_proto(&j);
    assert_eq!(s.job_id, "job-1");
    assert_eq!(s.job_type, "demo");
    assert_eq!(s.state, "Running");
    assert_eq!(s.created_at_unix_millis, 1);
    assert_eq!(s.started_at_unix_millis, Some(2));
    assert_eq!(s.finished_at_unix_millis, None);
    assert_eq!(s.display_name, "Demo");
    assert_eq!(s.run_id, "");
    assert_eq!(s.target_id, "t");
}

#[test]
fn the_latest_job_is_the_last_of_the_newest() {
    assert_eq!(latest_job(&vec![]), None);
    let jobs = vec![job("a", Some(5)), job("b", Some(9)), job("c", None), job("d", Some(9))];
    assert_eq!(latest_job(&jobs), Some(3));
    assert_eq!(latest_job(&vec![job("a", Some(-1)), job("b", None)]), Some(1));
}

#[test]
fn a_jobs_end_is_recognised() {
    assert_eq!(
        job_end(&Some(JobPayload::Completed { summary: String::new(), outputs: vec![] })),
        Some(JobState::Success)
    );
    assert_eq!(job_end(&Some(JobPayload::Failed { error: None })), Some(JobState::Failed));
    assert_eq!(
        job_end(&Some(JobPayload::StateChanged { new_state: JobState::Cancelled })),
        Some(JobState::Cancelled)
    );
    assert_eq!(job_end(&Some(JobPayload::StateChanged { new_state: JobState::Running })), None);
    assert_eq!(job_end(&Some(JobPayload::Progress { progress: None })), None);
    assert_eq!(job_end(&None), None);
    assert_eq!(state_without_end(&Some(job("j", None))), JobState::Running);
    assert_eq!(state_without_end(&None), JobState::Unspecified);
}
