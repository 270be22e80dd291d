use aadk::commands::{AppEvent, StateArchiveOptions};
use aadk::job_events::{JobError, JobEvent, JobPayload, JobProgress, LogChunk};
use aadk::model::{JobEventKind, JobState, KeyValue, ToolchainKind};
use aadk::worker::group::group_by_key;
use aadk::worker::parse::{
    parse_job_event_kinds, parse_job_states, parse_kv_lines, parse_optional_millis,
};
use aadk::worker::reply::{InstalledToolchain, Provider, Target};
use aadk::worker::state::{clears_state_entry, format_state_exclusions, reset_step, ResetStep};
use aadk::worker::streams::{
    home_stream_broken, job_event, job_stream_broken, job_stream_refused, run_event,
    run_stream_broken, HomeWatch, PROGRESS_THROTTLE_NANOS,
};
use aadk::worker::targets::take_target;
use aadk::worker::toolchains::latest_installed_by_kind;
use aadk::worker::turn::{Effect, Out};

fn s(text: &str) -> String {
    text.to_string()
}

fn event(payload: JobPayload) -> JobEvent {
    JobEvent { at: Some(1), job_id: Some(s("j")), payload: Some(payload) }
}

fn told(out: &Out) -> Vec<String> {
    out.items
        .iter()
        .map(|effect| match effect {
            Effect::Ui { event: AppEvent::Log { page, line } } => format!("{page}| {line}"),
            Effect::Ui { event } => format!("{event:?}"),
            other => format!("{other:?}"),
        })
        .collect()
}

fn progress(percent: u32) -> JobEvent {
    event(JobPayload::Progress {
        progress: Some(JobProgress { percent, phase: s("p"), metrics: vec![] }),
    })
}

#[test]
fn progress_is_shown_at_most_four_times_a_second() {
    assert_eq!(PROGRESS_THROTTLE_NANOS, 250_000_000);
    let mut watch = HomeWatch::new();
    let first = watch.event(&progress(1), 1_000);
    assert!(first.more);
    assert_eq!(told(&first.out), vec!["HomeProgress { progress: \"1% p\" }", "home| 1 progress: 1% p\n"]);
    let soon = watch.event(&progress(1), 1_000 + PROGRESS_THROTTLE_NANOS - 1);
    assert_eq!(told(&soon.out), vec!["home| 1 progress: 1% p\n"]);
    let other = watch.event(&progress(2), 1_001);
    assert_eq!(told(&other.out).len(), 2);
    let later = watch.event(&progress(2), 1_001 + PROGRESS_THROTTLE_NANOS);
    assert_eq!(told(&later.out).len(), 2);
}

#[test]
fn the_home_page_follows_a_job_to_its_end() {
    let mut watch = HomeWatch::new();
    let t = watch.event(&event(JobPayload::StateChanged { new_state: JobState::Success }), 0);
    assert!(t.more);
    assert_eq!(told(&t.out), vec![
        "HomeState { state: \"Success\" }",
        "HomeResult { result: \"Success\" }",
        "home| 1 state_changed: Success\n",
    ]);
    let t = watch.event(&event(JobPayload::StateChanged { new_state: JobState::Running }), 0);
    assert!(t.more);
    assert_eq!(told(&t.out).len(), 2);
    let t = watch.event(&event(JobPayload::StateChanged { new_state: JobState::Cancelled }), 0);
    assert!(!t.more);
    let t = watch.event(&event(JobPayload::Completed { summary: s("sum"), outputs: vec![] }), 0);
    assert!(!t.more);
    assert_eq!(told(&t.out), vec![
        "HomeState { state: \"Success\" }",
        "HomeResult { result: \"sum\" }",
        "home| 1 completed: sum\n",
    ]);
    let t = watch.event(
        &event(JobPayload::Failed { error: Some(JobError { message: s("bad"), code: 2 }) }), 0);
    assert!(!t.more);
    assert_eq!(told(&t.out), vec![
        "HomeState { state: \"Failed\" }",
        "HomeResult { result: \"bad\" }",
        "home| 1 failed: bad (2)\n",
    ]);
    let t = watch.event(&event(JobPayload::Failed { error: None }), 0);
    assert_eq!(told(&t.out)[1], "HomeResult { result: \"failed\" }");
    let t = watch.event(&JobEvent { at: None, job_id: None, payload: None }, 0);
    assert!(t.more);
    assert_eq!(told(&t.out), vec!["home| 0 unknown: missing payload\n"]);
}

fn completed(key: &str, value: &str) -> JobEvent {
    event(JobPayload::Completed {
        summary: s("ok"),
        outputs: vec![
            KeyValue { key: s("other"), value: s("x") },
            KeyValue { key: s(key), value: s(value) },
            KeyValue { key: s(key), value: s("second") },
        ],
    })
}

#[test]
fn a_finished_job_hands_on_what_it_made() {
    let out = job_event("console", "j", &completed("apk_path", "/a.apk"));
    assert_eq!(told(&out)[0], "SetLastBuildApk { apk_path: \"/a.apk\" }");
    assert_eq!(told(&out).len(), 2);
    let out = job_event("targets", "j", &completed("adb_serial", " 127 "));
    assert_eq!(
        told(&out)[0],
        "UpdateActiveContext { project_id: None, project_path: None, toolchain_set_id: None, target_id: Some(\"127\"), run_id: None }"
    );
    assert_eq!(told(&job_event("targets", "j", &completed("adb_serial", " "))).len(), 1);
    assert_eq!(told(&job_event("projects", "j", &completed("apk_path", "/a"))).len(), 1);
}

#[test]
fn streams_are_shown_and_break() {
    let log = event(JobPayload::Log {
        chunk: Some(LogChunk { stream: s("out"), data: b"x".to_vec(), truncated: true }),
    });
    assert_eq!(told(&job_event("console", "j9", &log)), vec!["console| x\n"]);
    assert_eq!(told(&run_event("workflow", &log)), vec![
        "workflow| job j: log: stream=out truncated=true\n",
        "workflow| x\n",
    ]);
    assert_eq!(home_stream_broken("e"), "job stream error: e\n");
    assert_eq!(job_stream_broken("j", "e"), "job j stream error: e\n");
    assert_eq!(run_stream_broken("e"), "run stream error: e\n");
    assert_eq!(job_stream_refused("j", "e"), "job stream error (j): e\n");
}

#[test]
fn parameters_are_read_line_by_line() {
    let all = parse_kv_lines("a=1\r\n  b = 2 = 3 \n\n=skipped\nflag\n");
    let pairs: Vec<(&str, &str)> = all.iter().map(|kv| (kv.key.as_str(), kv.value.as_str())).collect();
    assert_eq!(pairs, vec![("a", "1"), ("b", "2 = 3"), ("flag", "")]);
}

#[test]
fn states_and_kinds_are_read() {
    let (states, unknown) = parse_job_states("queued RUNNING success succeeded failed failure cancelled canceled nope");
    assert_eq!(states, vec![
        JobState::Queued, JobState::Running, JobState::Success, JobState::Success, JobState::Failed,
        JobState::Failed, JobState::Cancelled, JobState::Cancelled,
    ]);
    assert_eq!(unknown, vec!["nope"]);
    let (kinds, unknown) = parse_job_event_kinds("state,state_changed,progress,LOG,logs,completed,complete,failed,failure,Odd");
    assert_eq!(kinds, vec![
        JobEventKind::StateChanged, JobEventKind::StateChanged, JobEventKind::Progress, JobEventKind::Log,
        JobEventKind::Log, JobEventKind::Completed, JobEventKind::Completed, JobEventKind::Failed,
        JobEventKind::Failed,
    ]);
    assert_eq!(unknown, vec!["Odd"]);
}

#[test]
fn times_are_read() {
    assert_eq!(parse_optional_millis("  "), Ok(None));
    assert_eq!(parse_optional_millis(" -5 "), Ok(Some(-5)));
    assert_eq!(parse_optional_millis(" 1.5 "), Err(s("invalid unix millis: 1.5")));
}

#[test]
fn groups_are_ordered_and_complete() {
    let keys: Vec<String> = ["b", "a", "b", "", "a", "b"].iter().map(|k| s(k)).collect();
    let groups = group_by_key(&keys);
    let found: Vec<(&str, Vec<usize>)> = groups.iter().map(|g| (g.key.as_str(), g.members.clone())).collect();
    assert_eq!(found, vec![("", vec![3]), ("a", vec![1, 4]), ("b", vec![0, 2, 5])]);
    assert!(group_by_key(&vec![]).is_empty());
}

#[test]
fn exclusions_are_listed() {
    let mut o = StateArchiveOptions {
        exclude_downloads: false, exclude_toolchains: false, exclude_bundles: false, exclude_telemetry: false,
    };
    assert_eq!(format_state_exclusions(&o), "state-exports, state-ops");
    o.exclude_toolchains = true;
    o.exclude_telemetry = true;
    assert_eq!(format_state_exclusions(&o), "toolchains, telemetry, state-exports, state-ops");
}

#[test]
fn a_reset_spares_what_is_costly() {
    for kept in ["toolchains", "downloads", "cuttlefish"] {
        assert!(matches!(reset_step(kept), ResetStep::Keep), "{kept}");
    }
    assert!(matches!(reset_step("state"), ResetStep::Empty));
    assert!(matches!(reset_step("bundles"), ResetStep::Remove));
    assert!(matches!(reset_step("Toolchains"), ResetStep::Remove));
    assert!(!clears_state_entry("toolchains.json"));
    assert!(clears_state_entry("jobs.json"));
}

fn left_after_reset(data: &[&str], state: &[&str]) -> (Vec<String>, Vec<String>) {
    let top = data.iter().filter(|n| !matches!(reset_step(n), ResetStep::Remove));
    let inner = state.iter().filter(|n| !clears_state_entry(n));
    (top.map(|n| n.to_string()).collect(), inner.map(|n| n.to_string()).collect())
}

#[test]
fn a_second_reset_changes_nothing() {
    let data = ["bundles", "cuttlefish", "state", "downloads", "telemetry", "toolchains"];
    let state = ["jobs.json", "toolchains.json", "ui-config.json"];
    let (top, inner) = left_after_reset(&data, &state);
    assert_eq!(top, vec!["cuttlefish", "state", "downloads", "toolchains"]);
    assert_eq!(inner, vec!["toolchains.json"]);
    let data: Vec<&str> = top.iter().map(|n| n.as_str()).collect();
    let state: Vec<&str> = inner.iter().map(|n| n.as_str()).collect();
    assert_eq!(left_after_reset(&data, &state), (top.clone(), inner.clone()));
}

fn target(id: Option<&str>, state: &str) -> Target {
    Target { target_id: id.map(s), display_name: s(""), provider: s(""), state: s(state) }
}

#[test]
fn a_target_is_taken_where_none_is_active() {
    let all = vec![target(Some("a"), "offline"), target(Some("b"), "ONLINE"), target(Some("c"), "device")];
    assert_eq!(take_target(&all, ""), Some(s("b")));
    assert_eq!(take_target(&all, "zzz"), Some(s("b")));
    assert_eq!(take_target(&all, " A "), None);
    assert_eq!(take_target(&vec![target(Some(" "), "device"), target(None, "device")], ""), None);
    assert_eq!(take_target(&vec![target(Some("x"), "off")], ""), Some(s("x")));
}

#[test]
fn the_latest_of_a_kind_is_found() {
    let item = |kind: ToolchainKind, at: Option<i64>| InstalledToolchain {
        toolchain_id: None,
        provider: Some(Provider { name: s(""), kind, kind_code: 0 }),
        version: None,
        installed_at: at,
        verified: false,
        install_path: s(""),
    };
    let mut all = vec![
        item(ToolchainKind::Sdk, Some(9)),
        item(ToolchainKind::Ndk, Some(10)),
        item(ToolchainKind::Sdk, Some(9)),
        item(ToolchainKind::Sdk, None),
    ];
    all[1].provider = None;
    assert_eq!(latest_installed_by_kind(&all, ToolchainKind::Sdk), Some(2));
    assert_eq!(latest_installed_by_kind(&all, ToolchainKind::Ndk), None);
}
