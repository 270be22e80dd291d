use aadk::commands::{AppEvent, ArtifactFilter, StateArchiveOptions, UiCommand};
use aadk::config::{AddrEnv, AppConfig};
use aadk::job_events::{Job, JobError, JobEvent, JobPayload, LogChunk};
use aadk::model::{
    Artifact, ArtifactType, BuildVariant, JobState, KeyValue, RunOutputKind, ToolchainKind,
};
use aadk::worker::command::CommandRun;
use aadk::worker::reply::{
    AvailableToolchain, InstalledToolchain, ListedOutput, OutputSummary, Project, Provider, Reply,
    Run, Target, Template, ToolchainArtifact, ToolchainSet,
};
use aadk::worker::turn::{Effect, Failure, Next, Out, Turn};

fn cfg() -> AppConfig {
    let env = AddrEnv {
        job: Some("J".to_string()),
        toolchain: Some("T".to_string()),
        project: Some("P".to_string()),
        build: Some("B".to_string()),
        targets: Some("D".to_string()),
        observe: Some("O".to_string()),
        workflow: Some("W".to_string()),
    };
    AppConfig::defaults(&env)
}

fn s(text: &str) -> String {
    text.to_string()
}

fn some(text: &str) -> Option<String> {
    Some(text.to_string())
}

fn kv(key: &str, value: &str) -> KeyValue {
    KeyValue { key: s(key), value: s(value) }
}

fn told_of(out: &Out) -> Vec<String> {
    out.items
        .iter()
        .map(|effect| match effect {
            Effect::Ui { event: AppEvent::Log { page, line } } => format!("{page}| {line}"),
            Effect::Ui { event } => format!("{event:?}"),
            other => format!("{other:?}"),
        })
        .collect()
}

fn told(turn: &Turn) -> Vec<String> {
    told_of(&turn.out)
}

fn asked(turn: &Turn) -> String {
    match &turn.next {
        Next::Call { call } => format!("{call:?}"),
        Next::Await => s("await"),
        Next::Done => s("done"),
        Next::Error { error } => format!("error {error}"),
    }
}

fn begin(cmd: UiCommand) -> (CommandRun, Turn) {
    CommandRun::begin(cmd, some("/home/u"), &None, 10)
}

fn refused(error: &str) -> Reply {
    Reply::Failed { failure: Failure { connecting: false, error: s(error) } }
}

fn unreachable_service(error: &str) -> Reply {
    Reply::Failed { failure: Failure { connecting: true, error: s(error) } }
}

fn queued(job_id: &str) -> Reply {
    Reply::Queued { job_id: some(job_id) }
}

fn stream(page: &str, job_id: &str) -> String {
    format!("JobStream {{ addr: \"J\", job_id: {job_id:?}, page: {page:?} }}")
}

fn update(project_id: Option<&str>, path: Option<&str>, set: Option<&str>, target: Option<&str>, run: Option<&str>) -> String {
    format!(
        "UpdateActiveContext {{ project_id: {project_id:?}, project_path: {path:?}, toolchain_set_id: {set:?}, target_id: {target:?}, run_id: {run:?} }}"
    )
}

fn job(id: &str, run_id: Option<&str>, correlation_id: &str, created_at: i64) -> Job {
    Job {
        job_id: some(id),
        job_type: s("demo"),
        state: JobState::Running,
        created_at: Some(created_at),
        started_at: None,
        finished_at: None,
        display_name: s("Demo"),
        correlation_id: s(correlation_id),
        run_id: run_id.map(s),
        project_id: None,
        target_id: None,
        toolchain_set_id: None,
    }
}

fn log_event(at: i64, data: &str) -> JobEvent {
    JobEvent {
        at: Some(at),
        job_id: None,
        payload: Some(JobPayload::Log {
            chunk: Some(LogChunk { stream: s("out"), data: data.as_bytes().to_vec(), truncated: false }),
        }),
    }
}

fn start_job(job_type: &str) -> UiCommand {
    UiCommand::HomeStartJob {
        cfg: cfg(),
        job_type: s(job_type),
        params_raw: s(" a = 1 \n\nflag\n=x\n"),
        project_id: s(" p "),
        target_id: s(" "),
        toolchain_set_id: s(""),
        correlation_id: s(" c "),
    }
}

#[test]
fn a_job_is_started_and_followed() {
    let (run, turn) = begin(start_job(" demo "));
    assert_eq!(told(&turn), vec!["HomeResetStatus", "home| Connecting to JobService at J\n"]);
    assert_eq!(
        asked(&turn),
        "StartJob { addr: \"J\", job_type: \"demo\", params: [KeyValue { key: \"a\", value: \"1\" }, KeyValue { key: \"flag\", value: \"\" }], project_id: Some(\"p\"), target_id: None, toolchain_set_id: None, correlation_id: \"c\", run_id: Some(\"c\") }"
    );
    let (_, turn) = run.resume(queued("j1"), 11);
    assert_eq!(told(&turn), vec![
        "CurrentJob { job_id: Some(\"j1\") }",
        "SetCurrentJob { job_id: Some(\"j1\") }",
        "home| Started job: j1 (demo)\n",
        "HomeState { state: \"Queued\" }",
        "HomeStream { addr: \"J\", job_id: \"j1\" }",
    ]);
    assert_eq!(asked(&turn), "done");
}

#[test]
fn a_job_needs_a_type_and_an_id() {
    let (_, turn) = begin(start_job("  "));
    assert_eq!(told(&turn), vec![
        "HomeResetStatus",
        "home| Connecting to JobService at J\n",
        "home| job_type is required\n",
    ]);
    assert_eq!(asked(&turn), "done");
    let (run, _) = begin(start_job("demo"));
    let (_, turn) = run.resume(Reply::Queued { job_id: None }, 11);
    assert_eq!(told(&turn), vec!["home| StartJob returned empty job_id\n"]);
    let (run, _) = begin(start_job("demo"));
    let (_, turn) = run.resume(refused("status"), 11);
    assert!(told(&turn).is_empty());
    assert_eq!(asked(&turn), "error status");
}

#[test]
fn a_job_is_watched() {
    let (_, turn) = begin(UiCommand::HomeWatchJob { cfg: cfg(), job_id: s(" j ") });
    assert_eq!(told(&turn), vec![
        "HomeResetStatus",
        "CurrentJob { job_id: Some(\"j\") }",
        "SetCurrentJob { job_id: Some(\"j\") }",
        "home| Watching job: j\n",
        "HomeStream { addr: \"J\", job_id: \"j\" }",
    ]);
    assert_eq!(asked(&turn), "done");
    let (_, turn) = begin(UiCommand::HomeWatchJob { cfg: cfg(), job_id: s(" ") });
    assert_eq!(told(&turn), vec!["home| job_id is required to watch\n"]);
}

#[test]
fn the_current_job_is_cancelled() {
    let (_, turn) = begin(UiCommand::HomeCancelCurrent { cfg: cfg() });
    assert!(told(&turn).is_empty());
    assert_eq!(asked(&turn), "done");
    let (run, turn) =
        CommandRun::begin(UiCommand::HomeCancelCurrent { cfg: cfg() }, None, &some("j"), 1);
    assert_eq!(told(&turn), vec!["home| Cancelling job: j\n"]);
    assert_eq!(asked(&turn), "CancelJob { addr: \"J\", job_id: \"j\" }");
    let (_, turn) = run.resume(Reply::CancelAccepted { accepted: false }, 2);
    assert_eq!(told(&turn), vec!["home| Cancel accepted: false\n"]);
}

fn jobs_list(page: &'static str, states: &str, created_after: &str) -> UiCommand {
    UiCommand::JobsList {
        cfg: cfg(),
        job_types: s("a, b"),
        states: s(states),
        created_after: s(created_after),
        created_before: s(""),
        finished_after: s(""),
        finished_before: s("-7"),
        correlation_id: s(" c "),
        run_id: s(" r "),
        page_size: 0,
        page_token: s("tok"),
        page,
    }
}

#[test]
fn jobs_are_listed() {
    let (run, turn) = begin(jobs_list("jobs", "Queued, odd SUCCEEDED canceled", " 12 "));
    assert_eq!(told(&turn), vec!["jobs| Listing jobs via J\n", "jobs| Unknown states: odd\n"]);
    assert_eq!(
        asked(&turn),
        "ListJobs { addr: \"J\", page_size: 1, page_token: \"tok\", job_types: [\"a\", \"b\"], states: [Queued, Success, Cancelled], created_after: Some(12), created_before: None, finished_after: None, finished_before: Some(-7), correlation_id: \"c\", run_id: Some(\"r\") }"
    );
    let (_, turn) = run.resume(
        Reply::Jobs { jobs: vec![job("j2", None, "", 5), job("j1", None, "", 4)], next_page_token: some("next") },
        11,
    );
    assert_eq!(told(&turn), vec![
        "jobs| Jobs (2)\n",
        "jobs| - j2 type=demo state=Running run_id=- corr=- created=5 finished=0 display=Demo\n",
        "jobs| - j1 type=demo state=Running run_id=- corr=- created=4 finished=0 display=Demo\n",
        "jobs| next_page_token=next\n",
    ]);
    let (run, _) = begin(jobs_list("jobs", "", ""));
    let (_, turn) = run.resume(Reply::Jobs { jobs: vec![], next_page_token: some("") }, 11);
    assert_eq!(told(&turn), vec!["jobs| No jobs found.\n"]);
    let (_, turn) = begin(jobs_list("evidence", "", " soon "));
    assert_eq!(told(&turn), vec!["evidence| Listing jobs via J\n", "jobs| invalid unix millis: soon\n"]);
    assert_eq!(asked(&turn), "done");
}

#[test]
fn jobs_are_grouped_by_run() {
    let (run, _) = begin(jobs_list("evidence", "", ""));
    let jobs = vec![
        job("j1", Some("run-b"), "", 1),
        job("j2", None, " x ", 2),
        job("j3", Some("run-a"), "", 3),
        job("j4", Some("run-b"), "", 4),
        job("j5", Some(" "), "", 5),
    ];
    let (_, turn) = run.resume(Reply::Jobs { jobs, next_page_token: None }, 11);
    let lines = told(&turn);
    let heads: Vec<&String> = lines.iter().filter(|line| !line.starts_with("evidence| - ")).collect();
    assert_eq!(heads, vec![
        "evidence| Runs (4)\n",
        "evidence| run=correlation_id=x jobs=1\n",
        "evidence| run=run-a jobs=1\n",
        "evidence| run=run-b jobs=2\n",
        "evidence| run=unassigned jobs=1\n",
    ]);
    let rows: Vec<&str> = lines
        .iter()
        .filter(|line| line.starts_with("evidence| - "))
        .map(|line| &line["evidence| - ".len().."evidence| - j1".len()])
        .collect();
    assert_eq!(rows, vec!["j2", "j3", "j1", "j4", "j5"]);
}

#[test]
fn a_jobs_history_is_listed() {
    let history = |job_id: &str| UiCommand::JobsHistory {
        cfg: cfg(),
        job_id: s(job_id),
        kinds: s("log state bogus"),
        after: s("1"),
        before: s(""),
        page_size: 200,
        page_token: s(""),
    };
    let (run, turn) = begin(history(" j "));
    assert_eq!(told(&turn), vec![
        "jobs| Listing job history for j via J\n",
        "jobs| Unknown kinds: bogus\n",
    ]);
    assert_eq!(
        asked(&turn),
        "ListJobHistory { addr: \"J\", job_id: \"j\", page_size: 200, page_token: \"\", filtered: true, kinds: [Log, StateChanged], after: Some(1), before: None }"
    );
    let (_, turn) =
        run.resume(Reply::History { events: vec![log_event(3, "x")], next_page_token: None }, 11);
    assert_eq!(told(&turn), vec![
        "jobs| Events (1)\n",
        "jobs| 3 log: stream=out truncated=false\n",
        "jobs| x\n",
    ]);
    let (run, _) = begin(history("j"));
    let (_, turn) = run.resume(Reply::History { events: vec![], next_page_token: some("t") }, 11);
    assert_eq!(told(&turn), vec!["jobs| No events found.\n", "jobs| next_page_token=t\n"]);
    let (run, _) = begin(history("j"));
    let (_, turn) = run.resume(unreachable_service("down"), 11);
    assert_eq!(told(&turn), vec!["jobs| JobService connection failed: down\n"]);
    let (run, _) = begin(history("j"));
    let (_, turn) = run.resume(refused("bad"), 11);
    assert_eq!(told(&turn), vec!["jobs| List job history failed: bad\n"]);
    assert_eq!(asked(&turn), "done");
    let (_, turn) = begin(history(""));
    assert_eq!(told(&turn), vec!["jobs| job_id is required for history\n"]);
}

fn export(job_id: &str, output_path: &str) -> UiCommand {
    UiCommand::JobsExportLogs { cfg: cfg(), job_id: s(job_id), output_path: s(output_path), page: "jobs" }
}

#[test]
fn logs_are_exported_page_by_page() {
    let (run, turn) = begin(export(" j ", ""));
    assert_eq!(told(&turn), vec!["jobs| Exporting logs for j\n"]);
    assert_eq!(asked(&turn), "GetJob { addr: \"J\", job_id: \"j\" }");
    let (run, turn) = run.resume(Reply::JobFound { job: Some(job("j", None, "", 4)) }, 11);
    assert!(told(&turn).is_empty());
    assert_eq!(
        asked(&turn),
        "ListJobHistory { addr: \"J\", job_id: \"j\", page_size: 200, page_token: \"\", filtered: false, kinds: [], after: None, before: None }"
    );
    let (run, turn) =
        run.resume(Reply::History { events: vec![log_event(1, "one")], next_page_token: some("p2") }, 12);
    assert!(asked(&turn).contains("page_token: \"p2\""));
    let (run, turn) =
        run.resume(Reply::History { events: vec![log_event(2, "two")], next_page_token: some("") }, 13);
    let call = asked(&turn);
    assert!(call.starts_with(
        "WriteExport { path: \"/home/u/.local/share/aadk/state/ui-job-export-j-10.json\", export: UiLogExport { exported_at_unix_millis: 13, job_id: \"j\", config: AppConfig { job_addr: \"J\""
    ));
    assert!(call.contains("job: Some(JobSummary { job_id: \"j\""));
    let one = call.find("data: Some(\"one\")").unwrap();
    let two = call.find("data: Some(\"two\")").unwrap();
    assert!(one < two);
    let (_, turn) = run.resume(Reply::Finished, 14);
    assert_eq!(told(&turn), vec![
        "jobs| Exported logs to /home/u/.local/share/aadk/state/ui-job-export-j-10.json\n",
    ]);
}

#[test]
fn an_export_goes_on_without_the_job() {
    let (run, _) = begin(export("j", " /x.json"));
    let (run, turn) = run.resume(refused("gone"), 11);
    assert_eq!(told(&turn), vec!["jobs| GetJob failed: gone\n"]);
    let (run, turn) = run.resume(Reply::History { events: vec![], next_page_token: None }, 12);
    let call = asked(&turn);
    assert!(call.starts_with("WriteExport { path: \" /x.json\""));
    assert!(call.contains("job: None, events: []"));
    let (_, turn) = run.resume(refused("disk full"), 13);
    assert_eq!(asked(&turn), "error disk full");
    let (run, _) = begin(export("j", ""));
    let (_, turn) = run.resume(unreachable_service("no job service"), 11);
    assert_eq!(asked(&turn), "error no job service");
    let (_, turn) = begin(export(" ", ""));
    assert_eq!(told(&turn), vec!["jobs| job_id is required for export\n"]);
}

fn provider(name: &str, kind: ToolchainKind) -> Option<Provider> {
    Some(Provider { name: s(name), kind, kind_code: 7 })
}

fn installed(id: Option<&str>, kind: ToolchainKind, at: Option<i64>, version: Option<&str>) -> InstalledToolchain {
    InstalledToolchain {
        toolchain_id: id.map(s),
        provider: provider("prov", kind),
        version: version.map(s),
        installed_at: at,
        verified: true,
        install_path: s("/tc"),
    }
}

fn set(id: Option<&str>, name: &str) -> ToolchainSet {
    ToolchainSet {
        toolchain_set_id: id.map(s),
        sdk_toolchain_id: some("sdk1"),
        ndk_toolchain_id: None,
        display_name: s(name),
    }
}

#[test]
fn providers_and_versions_are_listed() {
    let (run, turn) = begin(UiCommand::ToolchainListProviders { cfg: cfg() });
    assert_eq!(told(&turn), vec!["toolchains| Connecting to ToolchainService at T\n"]);
    assert_eq!(asked(&turn), "ListProviders { addr: \"T\" }");
    let providers = vec![Provider { name: s("a"), kind: ToolchainKind::Sdk, kind_code: 1 }];
    let (_, turn) = run.resume(Reply::Providers { providers }, 11);
    assert_eq!(told(&turn), vec!["toolchains| Providers:\n", "toolchains| - a (kind=1)\n"]);

    let list = || UiCommand::ToolchainListAvailable { cfg: cfg(), provider_id: s("pid") };
    let (run, turn) = begin(list());
    assert_eq!(told(&turn), vec!["toolchains| Listing available for pid via T\n"]);
    assert_eq!(asked(&turn), "ListAvailable { addr: \"T\", provider_id: \"pid\" }");
    let items = vec![
        AvailableToolchain {
            provider: provider("prov", ToolchainKind::Ndk),
            version: some("r29"),
            artifact: Some(ToolchainArtifact { url: s("http://x"), sha256: s("ab"), size_bytes: 9 }),
        },
        AvailableToolchain { provider: None, version: None, artifact: None },
    ];
    let (_, turn) = run.resume(Reply::Available { items }, 11);
    assert_eq!(told(&turn), vec![
        "ToolchainAvailable { provider_id: \"pid\", versions: [\"r29\"] }",
        "toolchains| Available:\n",
        "toolchains| - prov r29\n  url=http://x\n  sha256=ab\n  size_bytes=9\n",
        "toolchains| - unknown unknown\n  url=\n  sha256=\n  size_bytes=0\n",
    ]);
    let (run, _) = begin(list());
    let (_, turn) = run.resume(Reply::Available { items: vec![] }, 11);
    assert_eq!(told(&turn), vec![
        "ToolchainAvailable { provider_id: \"pid\", versions: [] }",
        "toolchains| No available toolchains.\n",
    ]);
}

#[test]
fn toolchains_are_installed() {
    let install = |provider_id: &str, version: &str| UiCommand::ToolchainInstall {
        cfg: cfg(),
        provider_id: s(provider_id),
        version: s(version),
        verify: true,
        job_id: some(" j "),
        correlation_id: s(" "),
    };
    let (run, turn) = begin(install(" p ", " r29 "));
    assert_eq!(told(&turn), vec!["toolchains| Installing p r29 (verify=true)\n"]);
    assert_eq!(
        asked(&turn),
        "InstallToolchain { addr: \"T\", provider_id: \"p\", version: \"r29\", install_root: \"\", verify_hash: true, job_id: Some(\" j \"), correlation_id: \"\", run_id: None }"
    );
    let (_, turn) = run.resume(queued("j1"), 11);
    assert_eq!(told(&turn), vec![s("toolchains| Install job queued: j1\n"), stream("toolchains", "j1")]);
    let (run, _) = begin(install("p", "v"));
    let (_, turn) = run.resume(Reply::Queued { job_id: None }, 11);
    assert_eq!(told(&turn), vec!["toolchains| Install job queued: \n"]);
    let (run, _) = begin(install("p", "v"));
    let (_, turn) = run.resume(unreachable_service("down"), 11);
    assert_eq!(told(&turn), vec!["toolchains| ToolchainService connection failed: down\n"]);
    let (run, _) = begin(install("p", "v"));
    let (_, turn) = run.resume(refused("no"), 11);
    assert_eq!(told(&turn), vec!["toolchains| Install toolchain failed: no\n"]);
    let (_, turn) = begin(install(" ", "v"));
    assert_eq!(told(&turn), vec!["toolchains| Toolchain install requires a provider.\n"]);
    let (_, turn) = begin(install("p", " "));
    assert_eq!(told(&turn), vec!["toolchains| Toolchain install requires a version.\n"]);
}

#[test]
fn toolchains_are_updated_removed_and_cleaned() {
    let (run, turn) = begin(UiCommand::ToolchainUpdate {
        cfg: cfg(),
        toolchain_id: s(" t "),
        version: s(" v "),
        verify: false,
        remove_cached: true,
        job_id: None,
        correlation_id: s("c"),
    });
    assert_eq!(told(&turn), vec!["toolchains| Updating t to v (verify=false)\n"]);
    assert_eq!(
        asked(&turn),
        "UpdateToolchain { addr: \"T\", toolchain_id: \"t\", version: \"v\", verify_hash: false, remove_cached_artifact: true, job_id: None, correlation_id: \"c\", run_id: Some(\"c\") }"
    );
    let (_, turn) = run.resume(queued("u"), 11);
    assert_eq!(told(&turn), vec![s("toolchains| Update job queued: u\n"), stream("toolchains", "u")]);
    let (_, turn) = begin(UiCommand::ToolchainUpdate {
        cfg: cfg(),
        toolchain_id: s("t"),
        version: s(""),
        verify: false,
        remove_cached: true,
        job_id: None,
        correlation_id: s("c"),
    });
    assert_eq!(told(&turn), vec!["toolchains| Toolchain update requires toolchain id and version.\n"]);

    let uninstall = |id: &str| UiCommand::ToolchainUninstall {
        cfg: cfg(),
        toolchain_id: s(id),
        remove_cached: false,
        force: true,
        job_id: some(" "),
        correlation_id: s(""),
    };
    let (run, turn) = begin(uninstall("t"));
    assert_eq!(told(&turn), vec!["toolchains| Uninstalling t (force=true)\n"]);
    assert_eq!(
        asked(&turn),
        "UninstallToolchain { addr: \"T\", toolchain_id: \"t\", remove_cached_artifact: false, force: true, job_id: None, correlation_id: \"\", run_id: None }"
    );
    let (_, turn) = run.resume(queued("x"), 11);
    assert_eq!(told(&turn), vec![s("toolchains| Uninstall job queued: x\n"), stream("toolchains", "x")]);
    let (run, _) = begin(uninstall("t"));
    let (_, turn) = run.resume(refused("in use"), 11);
    assert_eq!(asked(&turn), "error in use");
    let (_, turn) = begin(uninstall(" "));
    assert_eq!(told(&turn), vec!["toolchains| Toolchain uninstall requires toolchain id.\n"]);

    let (run, turn) = begin(UiCommand::ToolchainCleanupCache {
        cfg: cfg(),
        dry_run: true,
        remove_all: false,
        job_id: None,
        correlation_id: s(""),
    });
    assert_eq!(told(&turn), vec!["toolchains| Cleaning cache via T (dry_run=true, remove_all=false)\n"]);
    let (_, turn) = run.resume(queued("c"), 11);
    assert_eq!(told(&turn), vec![s("toolchains| Cleanup job queued: c\n"), stream("toolchains", "c")]);
}

#[test]
fn installed_toolchains_and_sets_are_listed() {
    let list = || UiCommand::ToolchainListInstalled { cfg: cfg(), kind: ToolchainKind::Sdk };
    let (run, turn) = begin(list());
    assert_eq!(told(&turn), vec!["toolchains| Listing installed toolchains via T\n"]);
    assert_eq!(asked(&turn), "ListInstalled { addr: \"T\", kind: Sdk }");
    let items = vec![installed(some("t1").as_deref(), ToolchainKind::Sdk, None, None)];
    let (_, turn) = run.resume(Reply::Installed { items }, 11);
    assert_eq!(told(&turn), vec![
        "toolchains| Installed:\n",
        "toolchains| - t1 prov unknown verified=true\n  path=/tc\n",
    ]);
    let (run, _) = begin(list());
    let (_, turn) = run.resume(Reply::Installed { items: vec![] }, 11);
    assert_eq!(told(&turn), vec!["toolchains| No installed toolchains.\n"]);

    let list = || UiCommand::ToolchainListSets { cfg: cfg() };
    let (run, turn) = begin(list());
    assert_eq!(told(&turn), vec!["toolchains| Listing toolchain sets via T\n"]);
    let (_, turn) = run.resume(Reply::Sets { sets: vec![set(Some("s1"), "Set")], next_page_token: some("n") }, 11);
    assert_eq!(told(&turn), vec![
        "toolchains| Toolchain sets:\n",
        "toolchains| - Set (s1)\n  sdk=sdk1\n  ndk=\n",
        "toolchains| next_page_token=n\n",
    ]);
    let (run, _) = begin(list());
    let (_, turn) = run.resume(Reply::Sets { sets: vec![], next_page_token: some("  ") }, 11);
    assert_eq!(told(&turn), vec!["toolchains| No toolchain sets found.\n"]);
}

#[test]
fn installed_toolchains_are_verified_one_by_one() {
    let verify = || UiCommand::ToolchainVerifyInstalled { cfg: cfg(), job_id: None, correlation_id: s("") };
    let (run, turn) = begin(verify());
    assert_eq!(told(&turn), vec!["toolchains| Verifying installed toolchains via T\n"]);
    assert_eq!(asked(&turn), "ListInstalled { addr: \"T\", kind: Unspecified }");
    let ids = [None, Some("a"), Some("b"), None, Some("c"), None];
    let items = ids.iter().map(|id| installed(*id, ToolchainKind::Sdk, None, None)).collect();
    let (run, turn) = run.resume(Reply::Installed { items }, 11);
    assert_eq!(told(&turn), vec!["toolchains| Skipping toolchain with missing id.\n"]);
    assert_eq!(
        asked(&turn),
        "VerifyToolchain { addr: \"T\", toolchain_id: \"a\", job_id: None, correlation_id: \"\", run_id: None }"
    );
    let (run, turn) =
        run.resume(Reply::Verified { verified: true, error: None, job_id: some("j") }, 12);
    assert_eq!(told(&turn), vec![s("toolchains| - a verified OK\n"), stream("toolchains", "j")]);
    assert!(asked(&turn).contains("toolchain_id: \"b\""));
    let (run, turn) = run.resume(refused("busy"), 13);
    assert_eq!(told(&turn), vec![
        "toolchains| - b verify request failed: busy\n",
        "toolchains| Skipping toolchain with missing id.\n",
    ]);
    assert!(asked(&turn).contains("toolchain_id: \"c\""));
    let (_, turn) = run.resume(
        Reply::Verified {
            verified: false,
            error: Some(JobError { message: s("hash"), code: 4 }),
            job_id: some(""),
        },
        14,
    );
    assert_eq!(told(&turn), vec![
        "toolchains| - c verify failed: hash (4)\n",
        "toolchains| Skipping toolchain with missing id.\n",
    ]);
    assert_eq!(asked(&turn), "done");

    let (run, _) = begin(verify());
    let (_, turn) = run.resume(Reply::Installed { items: vec![] }, 11);
    assert_eq!(told(&turn), vec!["toolchains| No installed toolchains to verify.\n"]);
    let (run, _) = begin(verify());
    let (_, turn) = run.resume(refused("no"), 11);
    assert_eq!(told(&turn), vec!["toolchains| List installed toolchains failed: no\n"]);
    let (run, _) = begin(verify());
    let (run, _) = run.resume(Reply::Installed { items: vec![installed(Some("z"), ToolchainKind::Sdk, None, None)] }, 11);
    let (_, turn) = run.resume(Reply::Verified { verified: false, error: None, job_id: None }, 12);
    assert_eq!(told(&turn), vec!["toolchains| - z verify failed (no details)\n"]);
}

#[test]
fn sets_are_created() {
    let create = |sdk: Option<&str>, ndk: Option<&str>| UiCommand::ToolchainCreateSet {
        cfg: cfg(),
        sdk_toolchain_id: sdk.map(s),
        ndk_toolchain_id: ndk.map(s),
        display_name: s(" My set "),
    };
    let (run, turn) = begin(create(Some(" a "), Some(" ")));
    assert_eq!(told(&turn), vec!["toolchains| Creating toolchain set via T\n"]);
    assert_eq!(
        asked(&turn),
        "CreateToolchainSet { addr: \"T\", sdk_toolchain_id: Some(\"a\"), ndk_toolchain_id: None, display_name: \"My set\" }"
    );
    let (_, turn) = run.resume(Reply::SetFound { set: Some(set(Some("s1"), "My set")) }, 11);
    assert_eq!(told(&turn), vec!["toolchains| Created set s1\n  display_name=My set\n  sdk=sdk1\n  ndk=\n"]);
    let (run, _) = begin(create(Some("a"), None));
    let (_, turn) = run.resume(Reply::SetFound { set: None }, 11);
    assert_eq!(told(&turn), vec!["toolchains| Create toolchain set returned no set.\n"]);
    let (_, turn) = begin(create(None, Some(" ")));
    assert_eq!(told(&turn), vec!["toolchains| Provide an SDK and/or NDK toolchain id.\n"]);
}

#[test]
fn the_latest_toolchains_become_the_active_set() {
    let latest = |name: &str| UiCommand::ToolchainCreateActiveLatest { cfg: cfg(), display_name: s(name) };
    let items = || vec![
        installed(Some("sdk-old"), ToolchainKind::Sdk, Some(1), Some("35")),
        installed(Some("sdk-new"), ToolchainKind::Sdk, Some(2), Some("36")),
        installed(Some("ndk-a"), ToolchainKind::Ndk, Some(5), Some("r28")),
        installed(Some("ndk-b"), ToolchainKind::Ndk, Some(5), None),
    ];
    let (run, turn) = begin(latest(" "));
    assert_eq!(told(&turn), vec!["toolchains| Creating active toolchain set from latest installed via T\n"]);
    let (run, turn) = run.resume(Reply::Installed { items: items() }, 11);
    assert_eq!(
        asked(&turn),
        "CreateToolchainSet { addr: \"T\", sdk_toolchain_id: Some(\"sdk-new\"), ndk_toolchain_id: Some(\"ndk-b\"), display_name: \"SDK 36 + NDK unknown\" }"
    );
    let (run, turn) = run.resume(Reply::SetFound { set: Some(set(Some("s9"), "Name")) }, 12);
    assert_eq!(told(&turn), vec!["toolchains| Created set s9\n  display_name=Name\n  sdk=sdk-new\n  ndk=ndk-b\n"]);
    assert_eq!(asked(&turn), "SetActiveToolchainSet { addr: \"T\", toolchain_set_id: \"s9\" }");
    let (_, turn) = run.resume(Reply::Applied { ok: true }, 13);
    assert_eq!(told(&turn), vec![
        s("toolchains| Active toolchain set updated to s9\n"),
        update(None, None, Some("s9"), None, None),
    ]);

    let (run, _) = begin(latest(" Mine "));
    let (run, turn) = run.resume(Reply::Installed { items: items() }, 11);
    assert!(asked(&turn).contains("display_name: \"Mine\""));
    let (_, turn) = run.resume(Reply::SetFound { set: Some(set(Some(" "), "x")) }, 12);
    assert_eq!(told(&turn), vec!["toolchains| Created toolchain set is missing an id.\n"]);

    let (run, _) = begin(latest(""));
    let (_, turn) = run.resume(Reply::Installed { items: vec![] }, 11);
    assert_eq!(told(&turn), vec!["toolchains| No installed SDK toolchains found. Install an SDK first.\n"]);
    let (run, _) = begin(latest(""));
    let (_, turn) = run.resume(
        Reply::Installed { items: vec![installed(Some("a"), ToolchainKind::Sdk, None, None)] }, 11);
    assert_eq!(told(&turn), vec!["toolchains| No installed NDK toolchains found. Install an NDK first.\n"]);
    let (run, _) = begin(latest(""));
    let (_, turn) = run.resume(
        Reply::Installed {
            items: vec![
                installed(None, ToolchainKind::Sdk, None, None),
                installed(Some("n"), ToolchainKind::Ndk, None, None),
            ],
        },
        11,
    );
    assert_eq!(told(&turn), vec!["toolchains| Latest SDK toolchain is missing an id.\n"]);
}

#[test]
fn the_active_set_is_set_and_read() {
    let set_active = |id: &str| UiCommand::ToolchainSetActive { cfg: cfg(), toolchain_set_id: s(id) };
    let (run, turn) = begin(set_active(" s "));
    assert_eq!(told(&turn), vec!["toolchains| Setting active toolchain set via T\n"]);
    let (_, turn) = run.resume(Reply::Applied { ok: true }, 11);
    assert_eq!(told(&turn), vec![
        s("toolchains| Active toolchain set set to s\n"),
        update(None, None, Some("s"), None, None),
    ]);
    let (run, _) = begin(set_active("s"));
    let (_, turn) = run.resume(Reply::Applied { ok: false }, 11);
    assert_eq!(told(&turn), vec!["toolchains| Failed to set active toolchain set.\n"]);
    let (_, turn) = begin(set_active(""));
    assert_eq!(told(&turn), vec!["toolchains| Set active requires a toolchain set id.\n"]);

    let (run, turn) = begin(UiCommand::ToolchainGetActive { cfg: cfg() });
    assert_eq!(told(&turn), vec!["toolchains| Fetching active toolchain set via T\n"]);
    let (_, turn) = run.resume(Reply::SetFound { set: Some(set(Some("s1"), "N")) }, 11);
    assert_eq!(told(&turn), vec![
        s("toolchains| Active set s1\n  display_name=N\n  sdk=sdk1\n  ndk=\n"),
        update(None, None, Some("s1"), None, None),
    ]);
    let (run, _) = begin(UiCommand::ToolchainGetActive { cfg: cfg() });
    let (_, turn) = run.resume(Reply::SetFound { set: None }, 11);
    assert_eq!(told(&turn), vec!["toolchains| No active toolchain set configured.\n"]);
}

#[test]
fn templates_and_recent_projects_are_listed() {
    let (run, turn) = begin(UiCommand::ProjectListTemplates { cfg: cfg() });
    assert_eq!(told(&turn), vec!["projects| Connecting to ProjectService at P\n"]);
    assert_eq!(asked(&turn), "ListTemplates { addr: \"P\" }");
    let template = |id: Option<&str>, name: &str, defaults: Vec<KeyValue>| Template {
        template_id: id.map(s),
        name: s(name),
        description: s("desc"),
        defaults,
    };
    let (_, turn) = run.resume(
        Reply::Templates {
            templates: vec![
                template(Some("t1"), "One", vec![kv("minSdk", "24"), kv("x", "y")]),
                template(None, "Two", vec![]),
                template(Some("t3"), "Three", vec![]),
            ],
        },
        11,
    );
    assert_eq!(told(&turn), vec![
        "projects| Templates:\n",
        "projects| - One (t1)\n  desc\n  defaults: minSdk=24, x=y\n",
        "projects| - Two (missing template_id)\n",
        "projects| - Three (t3)\n  desc\n  defaults: none\n",
        "ProjectTemplates { templates: [ProjectTemplateOption { id: \"t1\", name: \"One\" }, ProjectTemplateOption { id: \"t3\", name: \"Three\" }] }",
    ]);

    let (run, turn) = begin(UiCommand::ProjectListRecent { cfg: cfg() });
    assert_eq!(told(&turn), vec!["projects| Listing recent projects via P\n"]);
    let (_, turn) = run.resume(
        Reply::Projects {
            projects: vec![Project { project_id: None, name: s("App"), path: s("/app") }],
            next_page_token: some("n"),
        },
        11,
    );
    assert_eq!(told(&turn), vec![
        "projects| Recent projects:\n",
        "projects| - App ()\n  path=/app\n",
        "projects| next_page_token=n\n",
    ]);
    let (run, _) = begin(UiCommand::ProjectListRecent { cfg: cfg() });
    let (_, turn) = run.resume(Reply::Projects { projects: vec![], next_page_token: None }, 11);
    assert_eq!(told(&turn), vec!["projects| No recent projects.\n"]);
}

fn target(id: Option<&str>, state: &str) -> Target {
    Target { target_id: id.map(s), display_name: s("Phone"), provider: s("adb"), state: s(state) }
}

#[test]
fn defaults_for_projects_are_loaded() {
    let (run, turn) = begin(UiCommand::ProjectLoadDefaults { cfg: cfg() });
    assert_eq!(told(&turn), vec!["projects| Loading toolchain sets via T\n"]);
    let (run, turn) = run.resume(
        Reply::Sets { sets: vec![set(Some("s1"), " "), set(None, "x"), set(Some("s2"), "N")], next_page_token: None },
        11,
    );
    assert_eq!(told(&turn), vec![
        "ProjectToolchainSets { sets: [ToolchainSetOption { id: \"s1\", label: \"Toolchain Set (s1) sdk=sdk1 ndk=\" }, ToolchainSetOption { id: \"s2\", label: \"N (s2) sdk=sdk1 ndk=\" }] }",
        "projects| Loading targets via D\n",
    ]);
    assert_eq!(asked(&turn), "ListTargets { addr: \"D\", include_offline: true }");
    let (_, turn) = run.resume(Reply::Targets { targets: vec![target(Some("d1"), "device"), target(None, "x")] }, 12);
    assert_eq!(told(&turn), vec![
        "ProjectTargets { targets: [TargetOption { id: \"d1\", label: \"Phone [adb] device (d1)\" }] }",
    ]);
    let (run, _) = begin(UiCommand::ProjectLoadDefaults { cfg: cfg() });
    let (run, turn) = run.resume(unreachable_service("down"), 11);
    assert_eq!(told(&turn), vec![
        "projects| ToolchainService connection failed: down\n",
        "projects| Loading targets via D\n",
    ]);
    let (_, turn) = run.resume(refused("no"), 12);
    assert_eq!(told(&turn), vec!["projects| List targets failed: no\n"]);
}

#[test]
fn projects_are_created_and_opened() {
    let create = |name: &str, path: &str, template: &str| UiCommand::ProjectCreate {
        cfg: cfg(),
        name: s(name),
        path: s(path),
        template_id: s(template),
        job_id: None,
        correlation_id: s("c"),
    };
    let (run, turn) = begin(create(" App ", " /a ", " t "));
    assert_eq!(told(&turn), vec!["projects| Creating project via P\n"]);
    assert_eq!(
        asked(&turn),
        "CreateProject { addr: \"P\", name: \"App\", path: \"/a\", template_id: \"t\", job_id: None, correlation_id: \"c\", run_id: Some(\"c\") }"
    );
    let (_, turn) = run.resume(Reply::ProjectQueued { job_id: some("j"), project_id: some("p") }, 11);
    assert_eq!(told(&turn), vec![
        s("projects| Create queued: project_id=p job_id=j\n"),
        s("ProjectSelected { project_id: \"p\", project_path: \"/a\", opened_existing: false }"),
        stream("projects", "j"),
    ]);
    let (run, _) = begin(create("A", "/a", "t"));
    let (_, turn) = run.resume(refused("exists"), 11);
    assert_eq!(told(&turn), vec!["projects| Create project failed: exists\n"]);
    for (cmd, line) in [
        (create("", "/a", "t"), "projects| Create project requires a name.\n"),
        (create("A", " ", "t"), "projects| Create project requires a path.\n"),
        (create("A", "/a", "none"), "projects| Select a template before creating the project.\n"),
        (create("A", "/a", ""), "projects| Select a template before creating the project.\n"),
    ] {
        assert_eq!(told(&begin(cmd).1), vec![line]);
    }

    let open = |path: &str| UiCommand::ProjectOpen { cfg: cfg(), path: s(path) };
    let (run, turn) = begin(open(" /a "));
    assert_eq!(told(&turn), vec!["projects| Opening project via P\n"]);
    assert_eq!(asked(&turn), "OpenProject { addr: \"P\", path: \"/a\" }");
    let (_, turn) = run.resume(
        Reply::ProjectOpened { project: Some(Project { project_id: some("p"), name: s("App"), path: s("/real") }) },
        11,
    );
    assert_eq!(told(&turn), vec![
        "projects| Opened: App (p)\n  path=/real\n",
        "ProjectSelected { project_id: \"p\", project_path: \"/real\", opened_existing: true }",
    ]);
    let (run, _) = begin(open("/a"));
    let (_, turn) = run.resume(Reply::ProjectOpened { project: None }, 11);
    assert_eq!(told(&turn), vec!["projects| Open project returned no project.\n"]);
    let (run, _) = begin(open("/a"));
    let (_, turn) = run.resume(unreachable_service("down"), 11);
    assert_eq!(told(&turn), vec!["projects| ProjectService connection failed: down\n"]);
    assert_eq!(told(&begin(open(" ")).1), vec!["projects| Open project requires a path.\n"]);
}

#[test]
fn projects_are_configured() {
    let config = |id: &str, set: Option<&str>, target: Option<&str>| UiCommand::ProjectSetConfig {
        cfg: cfg(),
        project_id: s(id),
        toolchain_set_id: set.map(s),
        default_target_id: target.map(s),
    };
    let (run, turn) = begin(config(" p ", Some(" s "), None));
    assert_eq!(told(&turn), vec!["projects| Updating project config via P\n"]);
    assert_eq!(
        asked(&turn),
        "SetProjectConfig { addr: \"P\", project_id: \"p\", toolchain_set_id: Some(\"s\"), default_target_id: None }"
    );
    let (_, turn) = run.resume(Reply::Applied { ok: true }, 11);
    assert_eq!(told(&turn), vec!["projects| Updated config for p\n"]);
    let (run, _) = begin(config("p", Some("s"), None));
    let (_, turn) = run.resume(Reply::Applied { ok: false }, 11);
    assert_eq!(told(&turn), vec!["projects| Project config update returned ok=false.\n"]);
    assert_eq!(told(&begin(config("", Some("s"), None)).1), vec!["projects| Set project config requires a project id.\n"]);
    assert_eq!(
        told(&begin(config("p", Some(" "), None)).1),
        vec!["projects| Provide a toolchain set id and/or default target id.\n"]
    );

    let defaults = || UiCommand::ProjectUseActiveDefaults { cfg: cfg(), project_id: s(" p ") };
    let (run, turn) = begin(defaults());
    assert!(told(&turn).is_empty());
    assert_eq!(asked(&turn), "GetActiveToolchainSet { addr: \"T\" }");
    let (run, turn) = run.resume(Reply::SetFound { set: Some(set(Some("s1"), "")) }, 11);
    assert_eq!(asked(&turn), "GetDefaultTarget { addr: \"D\" }");
    let (run, turn) = run.resume(refused("no"), 12);
    assert_eq!(told(&turn), vec![
        "projects| Default target lookup failed: no\n",
        "projects| Applying active defaults via P\n",
    ]);
    assert_eq!(
        asked(&turn),
        "SetProjectConfig { addr: \"P\", project_id: \"p\", toolchain_set_id: Some(\"s1\"), default_target_id: None }"
    );
    let (_, turn) = run.resume(Reply::Applied { ok: true }, 13);
    assert_eq!(told(&turn), vec!["projects| Applied defaults to p\n  toolchain_set_id=s1\n  default_target_id=\n"]);
    let (run, _) = begin(defaults());
    let (run, turn) = run.resume(unreachable_service("down"), 11);
    assert_eq!(told(&turn), vec!["projects| ToolchainService connection failed: down\n"]);
    let (_, turn) = run.resume(Reply::DefaultTarget { target: None }, 12);
    assert_eq!(told(&turn), vec!["projects| No active toolchain set or default target found.\n"]);
    assert_eq!(asked(&turn), "done");
}

#[test]
fn targets_are_listed_and_one_is_taken() {
    let (run, turn) = begin(UiCommand::TargetsList { cfg: cfg() });
    assert_eq!(told(&turn), vec!["targets| Connecting to TargetService at D\n"]);
    assert_eq!(asked(&turn), "ListTargets { addr: \"D\", include_offline: true }");
    let targets = || vec![target(Some("d1"), "offline"), target(None, "device"), target(Some("d2"), " Device ")];
    let (_, turn) = run.resume(Reply::Targets { targets: targets() }, 11);
    assert_eq!(told(&turn), vec![
        s("targets| Targets:\n"),
        s("targets| - Phone [d1] offline (adb)\n"),
        s("targets| - Phone [] device (adb)\n"),
        s("targets| - Phone [d2]  Device  (adb)\n"),
        update(None, None, None, Some("d2"), None),
    ]);
    let mut known = cfg();
    known.active_target_id = s(" D1 ");
    let (run, _) = begin(UiCommand::TargetsList { cfg: known });
    let (_, turn) = run.resume(Reply::Targets { targets: targets() }, 11);
    assert_eq!(told(&turn).len(), 4);
    let (run, _) = begin(UiCommand::TargetsList { cfg: cfg() });
    let (_, turn) = run.resume(Reply::Targets { targets: vec![target(Some("x"), "offline")] }, 11);
    assert_eq!(told(&turn)[2], update(None, None, None, Some("x"), None));
    let (run, _) = begin(UiCommand::TargetsList { cfg: cfg() });
    let (_, turn) = run.resume(refused("no"), 11);
    assert_eq!(told(&turn), vec!["targets| List targets failed: no\n"]);
}

#[test]
fn the_default_target_is_set_and_read() {
    let set_default = |id: &str| UiCommand::TargetsSetDefault { cfg: cfg(), target_id: s(id) };
    let (run, turn) = begin(set_default(" d "));
    assert_eq!(told(&turn), vec!["targets| Setting default target via D\n"]);
    let (_, turn) = run.resume(Reply::Applied { ok: true }, 11);
    assert_eq!(told(&turn), vec![
        s("targets| Default target set to d\n"),
        update(None, None, None, Some("d"), None),
    ]);
    let (run, _) = begin(set_default("d"));
    let (_, turn) = run.resume(Reply::Applied { ok: false }, 11);
    assert_eq!(told(&turn), vec!["targets| Failed to set default target to d\n"]);
    assert_eq!(told(&begin(set_default("")).1), vec!["targets| Set default target requires a target id.\n"]);
    let (run, turn) = begin(UiCommand::TargetsGetDefault { cfg: cfg() });
    assert_eq!(told(&turn), vec!["targets| Fetching default target via D\n"]);
    let (_, turn) = run.resume(Reply::DefaultTarget { target: Some(target(Some("d"), "device")) }, 11);
    assert_eq!(told(&turn), vec![
        s("targets| Default target: Phone (d) [device]\n"),
        update(None, None, None, Some("d"), None),
    ]);
    let (run, _) = begin(UiCommand::TargetsGetDefault { cfg: cfg() });
    let (_, turn) = run.resume(Reply::DefaultTarget { target: None }, 11);
    assert_eq!(told(&turn), vec!["targets| No default target configured.\n"]);
}

#[test]
fn cuttlefish_is_handled() {
    let (run, turn) = begin(UiCommand::TargetsInstallCuttlefish {
        cfg: cfg(),
        force: true,
        branch: s(" b "),
        target: s(" t "),
        build_id: s(" 1 "),
        job_id: None,
        correlation_id: s(""),
    });
    assert_eq!(told(&turn), vec!["targets| Connecting to TargetService at D\n"]);
    assert_eq!(
        asked(&turn),
        "InstallCuttlefish { addr: \"D\", force: true, branch: \"b\", target: \"t\", build_id: \"1\", job_id: None, correlation_id: \"\", run_id: None }"
    );
    let (_, turn) = run.resume(queued("j"), 11);
    assert_eq!(told(&turn), vec![s("targets| Cuttlefish install job: j\n"), stream("targets", "j")]);

    let (run, turn) = begin(UiCommand::TargetsResolveCuttlefishBuild {
        cfg: cfg(), branch: s(" b "), target: s("t"), build_id: s(""),
    });
    assert_eq!(told(&turn), vec!["targets| Resolving Cuttlefish build via D\n"]);
    let (_, turn) = run.resume(
        Reply::BuildResolved { build_id: s("42"), product: s("prod"), branch: s("b"), target: s("t") },
        11,
    );
    assert_eq!(told(&turn), vec![
        "targets| Resolved build_id=42 product=prod (branch=b, target=t)\n",
        "SetCuttlefishBuildId { build_id: \"42\" }",
    ]);

    let (run, turn) = begin(UiCommand::TargetsStartCuttlefish {
        cfg: cfg(), show_full_ui: true, job_id: None, correlation_id: s(""),
    });
    assert!(asked(&turn).starts_with("StartCuttlefish { addr: \"D\", show_full_ui: true"));
    let (_, turn) = run.resume(queued("j"), 11);
    assert_eq!(told(&turn)[0], "targets| Cuttlefish start job: j\n");
    let (run, _) = begin(UiCommand::TargetsStopCuttlefish { cfg: cfg(), job_id: None, correlation_id: s("") });
    let (_, turn) = run.resume(Reply::Queued { job_id: some("") }, 11);
    assert_eq!(told(&turn), vec!["targets| Cuttlefish stop job: \n"]);
    let (run, _) = begin(UiCommand::TargetsCuttlefishStatus { cfg: cfg() });
    let (_, turn) = run.resume(
        Reply::Cuttlefish { state: s("running"), adb_serial: s("127"), details: vec![kv("a", "b")] }, 11);
    assert_eq!(told(&turn), vec!["targets| Cuttlefish state: running (adb=127)\n", "targets| - a: b\n"]);
}

#[test]
fn apps_are_installed_and_launched() {
    let install = |target: &str, apk: &str| UiCommand::TargetsInstallApk {
        cfg: cfg(), target_id: s(target), apk_path: s(apk), job_id: None, correlation_id: s(""),
    };
    let (run, turn) = begin(install(" d ", " /a.apk "));
    assert_eq!(
        asked(&turn),
        "InstallApk { addr: \"D\", target_id: \"d\", apk_path: \"/a.apk\", job_id: None, correlation_id: \"\", run_id: None }"
    );
    let (_, turn) = run.resume(queued("j"), 11);
    assert_eq!(told(&turn), vec![s("targets| Install APK job: j\n"), stream("targets", "j")]);
    let (run, _) = begin(install("d", "/a"));
    let (_, turn) = run.resume(refused("no"), 11);
    assert_eq!(told(&turn), vec!["targets| Install APK request failed: no\n"]);
    let (run, _) = begin(install("d", "/a"));
    let (_, turn) = run.resume(unreachable_service("down"), 11);
    assert_eq!(asked(&turn), "error down");
    assert_eq!(told(&begin(install("", "/a")).1), vec!["targets| Install APK requires a target id.\n"]);
    assert_eq!(told(&begin(install("d", "")).1), vec!["targets| Install APK requires an apk path.\n"]);

    let launch = |target: &str, app: &str| UiCommand::TargetsLaunchApp {
        cfg: cfg(),
        target_id: s(target),
        apk_path: s(" /a.apk "),
        application_id: s(app),
        activity: s(" .Main "),
        job_id: None,
        correlation_id: s(""),
    };
    let (run, turn) = begin(launch("d", " com.a "));
    assert_eq!(told(&turn), vec!["targets| Connecting to TargetService at D\n"]);
    assert_eq!(
        asked(&turn),
        "Launch { addr: \"D\", target_id: \"d\", application_id: \"com.a\", activity: \".Main\", job_id: None, correlation_id: \"\", run_id: None }"
    );
    let (_, turn) = run.resume(queued("j"), 11);
    assert_eq!(told(&turn), vec![s("targets| Launch job: j\n"), stream("targets", "j")]);
    let (run, turn) = begin(launch("d", ""));
    assert_eq!(asked(&turn), "InferApplicationId { apk_path: \"/a.apk\" }");
    let (run, turn) = run.resume(Reply::Inferred { application_id: some("com.b") }, 11);
    assert_eq!(told(&turn), vec![
        "targets| Inferred application id from APK: com.b\n",
        "targets| Connecting to TargetService at D\n",
    ]);
    let (_, turn) = run.resume(refused("no"), 12);
    assert_eq!(told(&turn), vec!["targets| Launch request failed: no\n"]);
    let (run, _) = begin(launch("d", ""));
    let (_, turn) = run.resume(Reply::Inferred { application_id: None }, 11);
    assert_eq!(told(&turn), vec![
        "targets| Launch requires an application id (provide one or select an APK from a project).\n",
    ]);
    assert_eq!(told(&begin(launch("", "com.a")).1), vec!["targets| Launch requires a target id.\n"]);
}

#[test]
fn a_devices_log_is_shown_until_it_ends() {
    let logcat = || UiCommand::TargetsStreamLogcat { cfg: cfg(), target_id: s("d"), filter: s("f") };
    let (run, turn) = begin(logcat());
    assert_eq!(told(&turn), vec!["targets| Streaming logcat from d via D\n"]);
    assert_eq!(
        asked(&turn),
        "StreamLogcat { addr: \"D\", target_id: \"d\", filter: \"f\", include_history: true }"
    );
    let (run, turn) = run.resume(Reply::LogcatLine { line: vec![b'a', 0xff, b'\n'] }, 11);
    assert_eq!(told(&turn), vec!["targets| a\u{fffd}\n"]);
    assert_eq!(asked(&turn), "await");
    let (run, turn) = run.resume(Reply::LogcatLine { line: b"b".to_vec() }, 11);
    assert_eq!(told(&turn), vec!["targets| b"]);
    let (_, turn) = run.resume(Reply::StreamFailed { error: s("cut") }, 12);
    assert_eq!(told(&turn), vec!["targets| logcat stream error: cut\n"]);
    assert_eq!(asked(&turn), "done");
    let (run, _) = begin(logcat());
    let (_, turn) = run.resume(Reply::StreamEnded, 11);
    assert!(told(&turn).is_empty());
    assert_eq!(asked(&turn), "done");
}

#[test]
fn runs_are_listed() {
    let list = |run_id: &str| UiCommand::ObserveListRuns {
        cfg: cfg(),
        run_id: s(run_id),
        correlation_id: s(" "),
        result: s(""),
        page_size: 0,
        page_token: s("t"),
        page: "evidence",
    };
    let (_, turn) = begin(list(" "));
    assert_eq!(told(&turn), vec!["evidence| Listing runs via O\n"]);
    assert_eq!(
        asked(&turn),
        "ListRuns { addr: \"O\", page_size: 1, page_token: \"t\", filtered: false, run_id: None, correlation_id: \"\", result: \"\" }"
    );
    let (run, turn) = begin(list(" r "));
    assert!(asked(&turn).contains("filtered: true, run_id: Some(\"r\")"));
    let listed = Run {
        run_id: some("r"),
        result: s("success"),
        correlation_id: s("c"),
        project_id: None,
        target_id: some("d"),
        toolchain_set_id: None,
        started_at: Some(1),
        finished_at: None,
        job_ids: vec![s("j1"), s("j2")],
        output_summary: Some(OutputSummary {
            bundle_count: 1, artifact_count: 2, updated_at: None, last_bundle_id: s("b"),
        }),
        summary: vec![kv("k", "v")],
    };
    let (_, turn) = run.resume(Reply::Runs { runs: vec![listed], next_page_token: some("n") }, 11);
    assert_eq!(told(&turn), vec![
        "evidence| Runs:\n",
        "evidence| - r result=success corr=c project=- target=d toolchain_set=- started=1 finished=0 jobs=2\n",
        "evidence|   job_ids: j1, j2\n",
        "evidence|   outputs: bundles=1 artifacts=2 updated=0 last_bundle_id=b\n",
        "evidence|   summary: k=v\n",
        "evidence| next_page_token=n\n",
    ]);
    let (run, _) = begin(list(""));
    let (_, turn) = run.resume(Reply::Runs { runs: vec![], next_page_token: None }, 11);
    assert_eq!(told(&turn), vec!["evidence| No runs recorded.\n"]);
}

#[test]
fn outputs_are_listed() {
    let list = |run_id: &str| UiCommand::ObserveListOutputs {
        cfg: cfg(),
        run_id: s(run_id),
        kind: RunOutputKind::Bundle,
        output_type: s(" zip "),
        path_contains: s(" /p "),
        label_contains: s(" l "),
        page_size: 25,
        page_token: s(""),
        page: "evidence",
    };
    let (run, turn) = begin(list(" r "));
    assert_eq!(told(&turn), vec!["evidence| Listing outputs via O\n"]);
    assert_eq!(
        asked(&turn),
        "ListRunOutputs { addr: \"O\", run_id: \"r\", page_size: 25, page_token: \"\", kind: Bundle, output_type: \"zip\", path_contains: \"/p\", label_contains: \"l\" }"
    );
    let output = ListedOutput {
        output_id: s("o1"),
        kind: RunOutputKind::Artifact,
        output_type: s("apk"),
        path: s("/a"),
        label: s("A"),
        job_id: None,
        created_at: Some(3),
        metadata: vec![kv("m", "n")],
    };
    let summary =
        Some(OutputSummary { bundle_count: 0, artifact_count: 1, updated_at: Some(9), last_bundle_id: s("") });
    let (_, turn) = run.resume(Reply::Outputs { summary, outputs: vec![output], next_page_token: None }, 11);
    assert_eq!(told(&turn), vec![
        "evidence| Output summary: bundles=0 artifacts=1 updated=9 last_bundle_id=\n",
        "evidence| - o1 kind=artifact type=apk path=/a label=A job_id=- created_at=3\n",
        "evidence|   metadata: m=n\n",
    ]);
    let (run, _) = begin(list("r"));
    let (_, turn) = run.resume(Reply::Outputs { summary: None, outputs: vec![], next_page_token: some("n") }, 11);
    assert_eq!(told(&turn), vec!["evidence| No outputs recorded.\n", "evidence| next_page_token=n\n"]);
    assert_eq!(told(&begin(list(" ")).1), vec!["evidence| Run id is required for output listing.\n"]);
}

#[test]
fn bundles_are_exported() {
    let (run, turn) = begin(UiCommand::ObserveExportSupport {
        cfg: cfg(),
        include_logs: true,
        include_config: false,
        include_toolchain_provenance: true,
        include_recent_runs: false,
        recent_runs_limit: 5,
        job_id: None,
        correlation_id: s("c"),
        page: "evidence",
    });
    assert_eq!(told(&turn), vec!["evidence| Connecting to ObserveService at O\n"]);
    assert_eq!(
        asked(&turn),
        "ExportSupportBundle { addr: \"O\", include_logs: true, include_config: false, include_toolchain_provenance: true, include_recent_runs: false, recent_runs_limit: 5, job_id: None, correlation_id: \"c\", run_id: Some(\"c\") }"
    );
    let (_, turn) = run.resume(Reply::Bundle { job_id: some("j"), output_path: s("/o.zip") }, 11);
    assert_eq!(told(&turn), vec![
        s("evidence| Support bundle job: j\nOutput path: /o.zip\n"),
        stream("evidence", "j"),
    ]);
    let evidence = |run_id: &str| UiCommand::ObserveExportEvidence {
        cfg: cfg(), run_id: s(run_id), job_id: None, correlation_id: s(""), page: "evidence",
    };
    let (run, turn) = begin(evidence(" r "));
    assert_eq!(
        asked(&turn),
        "ExportEvidenceBundle { addr: \"O\", run_id: \"r\", job_id: None, correlation_id: \"\" }"
    );
    let (_, turn) = run.resume(Reply::Bundle { job_id: None, output_path: s("/e.zip") }, 11);
    assert_eq!(told(&turn), vec!["evidence| Evidence bundle job: \nOutput path: /e.zip\n"]);
    assert_eq!(told(&begin(evidence("")).1), vec!["evidence| Run id is required for evidence export.\n"]);
}

#[test]
fn a_run_is_followed() {
    let follow = |run_id: &str, correlation_id: &str| UiCommand::StreamRunEvents {
        cfg: cfg(),
        run_id: s(run_id),
        correlation_id: s(correlation_id),
        include_history: true,
        page: "evidence",
    };
    let (_, turn) = begin(follow(" r ", " "));
    assert_eq!(told(&turn), vec![
        "evidence| Streaming run events via J\n",
        "RunStream { addr: \"J\", run_id: \"r\", correlation_id: \"\", include_history: true, page: \"evidence\" }",
    ]);
    assert_eq!(
        told(&begin(follow("", " ")).1),
        vec!["evidence| run_id or correlation_id is required to stream\n"]
    );
}

fn pipeline(run_id: &str, correlation_id: &str, project_id: &str, project_path: &str) -> UiCommand {
    UiCommand::WorkflowRunPipeline {
        cfg: cfg(),
        run_id: s(run_id),
        correlation_id: s(correlation_id),
        job_id: some(" "),
        project_id: s(project_id),
        project_path: s(project_path),
        project_name: s(" N "),
        template_id: s(""),
        toolchain_id: s(""),
        toolchain_set_id: s(""),
        target_id: s(" d "),
        build_variant: BuildVariant::Release,
        module: s(" m "),
        variant_name: s(""),
        tasks: vec![s("t")],
        apk_path: s(""),
        application_id: s(""),
        activity: s(""),
        options: None,
        stream_history: true,
    }
}

#[test]
fn a_pipeline_is_run() {
    let (run, turn) = begin(pipeline(" r0 ", " c ", " p ", " /p "));
    assert_eq!(told(&turn), vec!["workflow| Connecting to WorkflowService at W\n"]);
    assert_eq!(
        asked(&turn),
        "RunPipeline { addr: \"W\", run_id: Some(\"r0\"), correlation_id: \"c\", job_id: None, project_id: Some(\"p\"), project_path: \"/p\", project_name: \"N\", template_id: None, toolchain_id: None, toolchain_set_id: None, target_id: Some(\"d\"), build_variant: Release, module: \" m \", variant_name: \"\", tasks: [\"t\"], apk_path: \"\", application_id: \"\", activity: \"\", options: None }"
    );
    let (_, turn) = run.resume(
        Reply::PipelineStarted {
            run_id: some("r1"), job_id: some("j"), project_id: None, outputs: vec![kv("a", "b")],
        },
        11,
    );
    assert_eq!(told(&turn), vec![
        s("workflow| Pipeline started: run_id=r1 job_id=j project_id=\n"),
        update(Some("p"), Some("/p"), None, Some("d"), Some("r1")),
        s("workflow| Outputs: a=b\n"),
        s("RunStream { addr: \"J\", run_id: \"r1\", correlation_id: \"c\", include_history: true, page: \"workflow\" }"),
    ]);
    let (run, _) = begin(pipeline("", " ", "", ""));
    let (_, turn) = run.resume(
        Reply::PipelineStarted { run_id: None, job_id: None, project_id: None, outputs: vec![] }, 11);
    assert_eq!(told(&turn), vec![
        s("workflow| Pipeline started: run_id= job_id= project_id=\n"),
        update(None, None, None, Some("d"), None),
        s("workflow| No run_id or correlation_id to stream.\n"),
    ]);
    let (run, _) = begin(pipeline("", "", "", ""));
    let (_, turn) = run.resume(refused("no"), 11);
    assert_eq!(told(&turn), vec!["workflow| RunPipeline failed: no\n"]);
    let (run, _) = begin(pipeline("", "", "", ""));
    let (_, turn) = run.resume(unreachable_service("down"), 11);
    assert_eq!(told(&turn), vec!["workflow| WorkflowService connection failed: down\n"]);
}

#[test]
fn builds_are_run() {
    let build = |project: &str| UiCommand::BuildRun {
        cfg: cfg(),
        project_ref: s(project),
        variant: BuildVariant::Debug,
        variant_name: s("v"),
        module: s("m"),
        tasks: vec![],
        clean_first: true,
        gradle_args: vec![kv("-P", "x")],
        job_id: None,
        correlation_id: s(""),
    };
    let (run, turn) = begin(build(" p "));
    assert_eq!(told(&turn), vec!["console| Connecting to BuildService at B\n"]);
    assert_eq!(
        asked(&turn),
        "Build { addr: \"B\", project_id: \"p\", variant: Debug, clean_first: true, gradle_args: [KeyValue { key: \"-P\", value: \"x\" }], job_id: None, module: \"m\", variant_name: \"v\", tasks: [], correlation_id: \"\", run_id: None }"
    );
    let (_, turn) = run.resume(queued("j"), 11);
    assert_eq!(told(&turn), vec![s("console| Build started: job_id=j\n"), stream("console", "j")]);
    let (run, _) = begin(build("p"));
    let (_, turn) = run.resume(Reply::Queued { job_id: None }, 11);
    assert_eq!(told(&turn), vec!["console| Build returned empty job_id.\n"]);
    let (run, _) = begin(build("p"));
    let (_, turn) = run.resume(refused("no"), 11);
    assert_eq!(told(&turn), vec!["console| Build request failed: no\n"]);
    assert_eq!(told(&begin(build(" ")).1), vec!["console| Project path or id is required.\n"]);
}

#[test]
fn artifacts_are_grouped_by_module() {
    let list = || UiCommand::BuildListArtifacts {
        cfg: cfg(),
        project_ref: s(" p "),
        variant: BuildVariant::Unspecified,
        filter: ArtifactFilter {
            modules: vec![s("m")],
            variant: s("v"),
            types: vec![ArtifactType::Apk],
            name_contains: s("n"),
            path_contains: s("/"),
        },
    };
    let artifact = |module: Option<&str>, name: &str| Artifact {
        kind: ArtifactType::Apk,
        name: s(name),
        path: s("/a"),
        size_bytes: 12,
        metadata: module.map(|m| vec![kv("module", m), kv("task", "assemble")]).unwrap_or_default(),
    };
    let (run, turn) = begin(list());
    assert_eq!(told(&turn), vec!["console| Listing artifacts via B\n"]);
    assert_eq!(
        asked(&turn),
        "ListArtifacts { addr: \"B\", project_id: \"p\", variant: Unspecified, modules: [\"m\"], variant_name: \"v\", types: [Apk], name_contains: \"n\", path_contains: \"/\" }"
    );
    let artifacts = vec![artifact(Some("lib"), "1"), artifact(None, "2"), artifact(Some("app"), "3"), artifact(Some("lib"), "4")];
    let (_, turn) = run.resume(Reply::Artifacts { artifacts }, 11);
    assert_eq!(told(&turn), vec![
        "console| Artifacts (4)\n",
        "console| Module: <root>\n",
        "console| - [apk] 2 module=- variant=- task=- size=12 path=/a\n",
        "console| Module: app\n",
        "console| - [apk] 3 module=app variant=- task=assemble size=12 path=/a\n",
        "console| Module: lib\n",
        "console| - [apk] 1 module=lib variant=- task=assemble size=12 path=/a\n",
        "console| - [apk] 4 module=lib variant=- task=assemble size=12 path=/a\n",
    ]);
    let (run, _) = begin(list());
    let (_, turn) = run.resume(Reply::Artifacts { artifacts: vec![] }, 11);
    assert_eq!(told(&turn), vec!["console| No artifacts found.\n"]);
    let (run, _) = begin(list());
    let (_, turn) = run.resume(refused("no"), 11);
    assert_eq!(told(&turn), vec!["console| List artifacts failed: no\n"]);
}

fn options(on: bool) -> StateArchiveOptions {
    StateArchiveOptions {
        exclude_downloads: on,
        exclude_toolchains: on,
        exclude_bundles: on,
        exclude_telemetry: on,
    }
}

#[test]
fn state_is_saved() {
    let save = |path: &str| UiCommand::StateSave { cfg: cfg(), output_path: s(path), options: options(true) };
    let (run, turn) = begin(save("~/x.zip"));
    assert_eq!(told(&turn), vec!["settings| Saving local AADK state...\n"]);
    assert_eq!(
        asked(&turn),
        "ListJobs { addr: \"J\", page_size: 50, page_token: \"\", job_types: [], states: [Queued, Running], created_after: None, created_before: None, finished_after: None, finished_before: None, correlation_id: \"\", run_id: None }"
    );
    let (run, turn) = run.resume(Reply::Jobs { jobs: vec![], next_page_token: None }, 11);
    assert_eq!(told(&turn), vec!["settings| Waiting for state-op FIFO...\n"]);
    assert_eq!(asked(&turn), "LockState { owner: \"ui.save\" }");
    let (run, turn) = run.resume(Reply::Finished, 12);
    assert!(asked(&turn).starts_with("SaveArchive { path: Some(\"/home/u/x.zip\")"));
    let (_, turn) = run.resume(
        Reply::Archived { output_path: s("/home/u/x.zip"), file_count: 1, dir_count: 2, total_bytes: 3 }, 13);
    assert_eq!(told(&turn), vec![
        "settings| Saved archive: /home/u/x.zip\n",
        "settings| Archive contents: files=1 dirs=2 bytes=3\n",
        "settings| Exclusions: downloads, toolchains, bundles, telemetry, state-exports, state-ops\n",
    ]);
    let (run, _) = begin(save(" "));
    let (run, _) = run.resume(Reply::Jobs { jobs: vec![], next_page_token: None }, 11);
    let (run, turn) = run.resume(Reply::Finished, 12);
    assert!(asked(&turn).starts_with("SaveArchive { path: None"));
    let (_, turn) = run.resume(refused("full"), 13);
    assert_eq!(told(&turn), vec!["settings| Save state failed: full\n"]);
}

#[test]
fn work_on_the_state_waits_for_jobs_and_the_lock() {
    let save = || UiCommand::StateSave { cfg: cfg(), output_path: s(""), options: options(false) };
    let (run, _) = begin(save());
    let (_, turn) = run.resume(
        Reply::Jobs { jobs: vec![job("a", None, "", 1), job("b", None, "", 9)], next_page_token: None }, 11);
    assert_eq!(told(&turn), vec![
        "settings| State operation blocked: latest job is Running job_id=b job_type=demo created=9\n",
    ]);
    assert_eq!(asked(&turn), "done");
    let (run, _) = begin(save());
    let (_, turn) = run.resume(unreachable_service("down"), 11);
    assert_eq!(told(&turn), vec!["settings| State operation blocked: job check failed: down\n"]);
    let (run, _) = begin(save());
    let (run, _) = run.resume(Reply::Jobs { jobs: vec![], next_page_token: None }, 11);
    let (_, turn) = run.resume(refused("held"), 12);
    assert_eq!(told(&turn), vec!["settings| State queue error: held\n"]);
}

fn reload_answer() -> Reply {
    Reply::Reloaded { ok: true, item_count: 4, detail: s(" ") }
}

#[test]
fn state_is_opened_and_services_reload() {
    let open = |path: &str| UiCommand::StateOpen { cfg: cfg(), archive_path: s(path), options: options(false) };
    let (run, turn) = begin(open("/x.zip"));
    assert_eq!(told(&turn), vec!["settings| Opening AADK state archive...\n"]);
    let (run, turn) = run.resume(Reply::Jobs { jobs: vec![], next_page_token: None }, 11);
    assert_eq!(asked(&turn), "LockState { owner: \"ui.open\" }");
    let (run, turn) = run.resume(Reply::Finished, 12);
    assert!(asked(&turn).starts_with("OpenArchive { path: \"/x.zip\""));
    let (run, turn) = run.resume(
        Reply::Restored { restored_files: 5, restored_dirs: 6, preserved_dirs: vec![s("toolchains"), s("downloads")] }, 13);
    assert_eq!(told(&turn), vec![
        "settings| Opened archive: /x.zip\n",
        "settings| Archive restored: files=5 dirs=6\n",
        "settings| Preserved: toolchains, downloads\n",
        "settings| Exclusions: state-exports, state-ops\n",
    ]);
    assert_eq!(asked(&turn), "LoadConfig");
    let (mut run, mut turn) = run.resume(Reply::Config { cfg: cfg() }, 14);
    for (service, addr) in [
        ("Job", "J"), ("Toolchain", "T"), ("Project", "P"), ("Build", "B"), ("Targets", "D"), ("Observe", "O"), ("Workflow", "W"),
    ] {
        assert_eq!(asked(&turn), format!("ReloadState {{ service: {service}, addr: {addr:?} }}"));
        (run, turn) = run.resume(if service == "Build" { refused("down") } else { reload_answer() }, 15);
    }
    let lines = told(&turn);
    assert_eq!(lines[0], "settings|   workflow: ok=true items=4 addr=W detail=-\n");
    assert_eq!(lines[1], "settings| Reload state failed: reload failures: build: down\n");
    assert!(lines[2].starts_with("ConfigReloaded { cfg: AppConfig { job_addr: \"J\""));
    assert_eq!(asked(&turn), "done");
    let (_, turn) = run.resume(Reply::Finished, 16);
    assert!(told(&turn).is_empty());
    assert_eq!(told(&begin(open(" ")).1), vec!["settings| Open state requires a zip path.\n"]);
}

#[test]
fn services_reload() {
    let (mut run, turn) = begin(UiCommand::StateReload { cfg: cfg() });
    assert_eq!(told(&turn), vec!["settings| Reloading services from disk...\n"]);
    let mut turn = turn;
    for k in 0..7 {
        let reply = if k % 2 == 0 { reload_answer() } else { refused("x") };
        (run, turn) = run.resume(reply, 11);
    }
    let _ = run;
    assert_eq!(told(&turn), vec![
        "settings|   workflow: ok=true items=4 addr=W detail=-\n",
        "settings| Reload state failed: reload failures: toolchain: x; build: x; observe: x\n",
    ]);
    assert_eq!(asked(&turn), "done");
}

#[test]
fn state_is_reset() {
    let (run, turn) = begin(UiCommand::ResetAllState { cfg: cfg() });
    assert_eq!(told(&turn), vec!["settings| Resetting AADK state under /home/u/.local/share/aadk\n"]);
    assert_eq!(asked(&turn), "ResetState { dir: \"/home/u/.local/share/aadk\" }");
    let (_, turn) = run.resume(Reply::Finished, 11);
    assert_eq!(told(&turn), vec![
        "AbortHomeStream",
        "CurrentJob { job_id: None }",
        "SetCurrentJob { job_id: None }",
        "HomeResetStatus",
        "settings| Reset complete.\n",
        "ResetAllStateComplete { ok: true }",
    ]);
    let (run, _) = begin(UiCommand::ResetAllState { cfg: cfg() });
    let (_, turn) = run.resume(refused("busy"), 11);
    assert_eq!(told(&turn), vec!["settings| Reset failed: busy\n", "ResetAllStateComplete { ok: false }"]);
}

#[test]
fn a_command_that_is_over_stays_silent() {
    let (run, turn) = begin(UiCommand::HomeWatchJob { cfg: cfg(), job_id: s("j") });
    assert_eq!(asked(&turn), "done");
    let (run, turn) = run.resume(queued("x"), 11);
    assert!(told(&turn).is_empty());
    assert_eq!(asked(&turn), "done");
    let (_, turn) = run.resume(Reply::Finished, 12);
    assert!(told(&turn).is_empty());
}

/// What a command does when its first request fails: what it tells and how it ends.
fn failing(make: &dyn Fn() -> UiCommand, reply: fn(&str) -> Reply) -> (Vec<String>, String) {
    let (run, _) = begin(make());
    let (_, turn) = run.resume(reply("why"), 11);
    (told(&turn), asked(&turn))
}

#[test]
fn failures_are_handed_on() {
    let all: Vec<Box<dyn Fn() -> UiCommand>> = vec![
        Box::new(|| start_job("demo")),
        Box::new(|| jobs_list("jobs", "", "")),
        Box::new(|| UiCommand::ToolchainListProviders { cfg: cfg() }),
        Box::new(|| UiCommand::ToolchainListAvailable { cfg: cfg(), provider_id: s("p") }),
        Box::new(|| UiCommand::ToolchainUpdate {
            cfg: cfg(), toolchain_id: s("t"), version: s("v"), verify: true, remove_cached: true,
            job_id: None, correlation_id: s(""),
        }),
        Box::new(|| UiCommand::ToolchainUninstall {
            cfg: cfg(), toolchain_id: s("t"), remove_cached: true, force: true, job_id: None, correlation_id: s(""),
        }),
        Box::new(|| UiCommand::ToolchainCleanupCache {
            cfg: cfg(), dry_run: true, remove_all: true, job_id: None, correlation_id: s(""),
        }),
        Box::new(|| UiCommand::ToolchainListInstalled { cfg: cfg(), kind: ToolchainKind::Ndk }),
        Box::new(|| UiCommand::ToolchainListSets { cfg: cfg() }),
        Box::new(|| UiCommand::ToolchainCreateSet {
            cfg: cfg(), sdk_toolchain_id: some("a"), ndk_toolchain_id: None, display_name: s(""),
        }),
        Box::new(|| UiCommand::ToolchainSetActive { cfg: cfg(), toolchain_set_id: s("s") }),
        Box::new(|| UiCommand::ToolchainGetActive { cfg: cfg() }),
        Box::new(|| UiCommand::ProjectListTemplates { cfg: cfg() }),
        Box::new(|| UiCommand::ProjectListRecent { cfg: cfg() }),
        Box::new(|| UiCommand::ProjectSetConfig {
            cfg: cfg(), project_id: s("p"), toolchain_set_id: some("s"), default_target_id: None,
        }),
        Box::new(|| UiCommand::TargetsSetDefault { cfg: cfg(), target_id: s("t") }),
        Box::new(|| UiCommand::TargetsGetDefault { cfg: cfg() }),
        Box::new(|| UiCommand::TargetsInstallCuttlefish {
            cfg: cfg(), force: true, branch: s(""), target: s(""), build_id: s(""), job_id: None, correlation_id: s(""),
        }),
        Box::new(|| UiCommand::TargetsResolveCuttlefishBuild { cfg: cfg(), branch: s(""), target: s(""), build_id: s("") }),
        Box::new(|| UiCommand::TargetsStartCuttlefish { cfg: cfg(), show_full_ui: true, job_id: None, correlation_id: s("") }),
        Box::new(|| UiCommand::TargetsStopCuttlefish { cfg: cfg(), job_id: None, correlation_id: s("") }),
        Box::new(|| UiCommand::TargetsCuttlefishStatus { cfg: cfg() }),
        Box::new(|| UiCommand::TargetsStreamLogcat { cfg: cfg(), target_id: s("t"), filter: s("") }),
        Box::new(|| UiCommand::ObserveListRuns {
            cfg: cfg(), run_id: s(""), correlation_id: s(""), result: s(""), page_size: 1, page_token: s(""), page: "evidence",
        }),
        Box::new(|| UiCommand::ObserveListOutputs {
            cfg: cfg(), run_id: s("r"), kind: RunOutputKind::Unspecified, output_type: s(""), path_contains: s(""),
            label_contains: s(""), page_size: 1, page_token: s(""), page: "evidence",
        }),
        Box::new(|| UiCommand::ObserveExportSupport {
            cfg: cfg(), include_logs: true, include_config: true, include_toolchain_provenance: true,
            include_recent_runs: true, recent_runs_limit: 1, job_id: None, correlation_id: s(""), page: "evidence",
        }),
        Box::new(|| UiCommand::ObserveExportEvidence {
            cfg: cfg(), run_id: s("r"), job_id: None, correlation_id: s(""), page: "evidence",
        }),
    ];
    for make in &all {
        assert_eq!(failing(make.as_ref(), unreachable_service), (vec![], s("error why")), "{:?}", make());
        assert_eq!(failing(make.as_ref(), refused), (vec![], s("error why")), "{:?}", make());
    }
}

#[test]
fn failures_are_told() {
    let all: Vec<(Box<dyn Fn() -> UiCommand>, &str, &str)> = vec![
        (
            Box::new(|| UiCommand::ToolchainCreateActiveLatest { cfg: cfg(), display_name: s("") }),
            "toolchains| ToolchainService connection failed: why\n",
            "toolchains| List installed toolchains failed: why\n",
        ),
        (
            Box::new(|| UiCommand::ToolchainVerifyInstalled { cfg: cfg(), job_id: None, correlation_id: s("") }),
            "toolchains| ToolchainService connection failed: why\n",
            "toolchains| List installed toolchains failed: why\n",
        ),
        (
            Box::new(|| UiCommand::ProjectCreate {
                cfg: cfg(), name: s("n"), path: s("/p"), template_id: s("t"), job_id: None, correlation_id: s(""),
            }),
            "projects| ProjectService connection failed: why\n",
            "projects| Create project failed: why\n",
        ),
        (
            Box::new(|| UiCommand::ProjectOpen { cfg: cfg(), path: s("/p") }),
            "projects| ProjectService connection failed: why\n",
            "projects| Open project failed: why\n",
        ),
        (
            Box::new(|| UiCommand::TargetsList { cfg: cfg() }),
            "targets| TargetService connection failed: why\n",
            "targets| List targets failed: why\n",
        ),
        (
            Box::new(|| UiCommand::BuildRun {
                cfg: cfg(), project_ref: s("p"), variant: BuildVariant::Debug, variant_name: s(""), module: s(""),
                tasks: vec![], clean_first: false, gradle_args: vec![], job_id: None, correlation_id: s(""),
            }),
            "console| BuildService connection failed: why\n",
            "console| Build request failed: why\n",
        ),
    ];
    for (make, unreachable, refusal) in &all {
        assert_eq!(failing(make.as_ref(), unreachable_service), (vec![s(unreachable)], s("done")));
        assert_eq!(failing(make.as_ref(), refused), (vec![s(refusal)], s("done")));
    }
}

#[test]
fn making_the_latest_set_active_can_fail_late() {
    let latest = || UiCommand::ToolchainCreateActiveLatest { cfg: cfg(), display_name: s("") };
    let items = || vec![
        installed(Some("a"), ToolchainKind::Sdk, None, None),
        installed(Some("b"), ToolchainKind::Ndk, None, None),
    ];
    let (run, _) = begin(latest());
    let (run, _) = run.resume(Reply::Installed { items: items() }, 11);
    let (_, turn) = run.resume(refused("no"), 12);
    assert_eq!(told(&turn), vec!["toolchains| Create toolchain set failed: no\n"]);
    let (run, _) = begin(latest());
    let (run, _) = run.resume(Reply::Installed { items: items() }, 11);
    let (_, turn) = run.resume(Reply::SetFound { set: None }, 12);
    assert_eq!(told(&turn), vec!["toolchains| Create toolchain set returned no set.\n"]);
    for (reply, line) in [
        (refused("no"), "toolchains| Set active toolchain set failed: no\n"),
        (Reply::Applied { ok: false }, "toolchains| Failed to set active toolchain set.\n"),
    ] {
        let (run, _) = begin(latest());
        let (run, _) = run.resume(Reply::Installed { items: items() }, 11);
        let (run, _) = run.resume(Reply::SetFound { set: Some(set(Some("s"), "n")) }, 12);
        let (_, turn) = run.resume(reply, 13);
        assert_eq!(told(&turn), vec![line]);
        assert_eq!(asked(&turn), "done");
    }
}

#[test]
fn failures_late_in_a_command() {
    let (run, _) = begin(UiCommand::BuildListArtifacts {
        cfg: cfg(),
        project_ref: s("p"),
        variant: BuildVariant::Debug,
        filter: ArtifactFilter { modules: vec![], variant: s(""), types: vec![], name_contains: s(""), path_contains: s("") },
    });
    let (_, turn) = run.resume(unreachable_service("down"), 11);
    assert_eq!(asked(&turn), "error down");
    let (run, _) = begin(UiCommand::ProjectUseActiveDefaults { cfg: cfg(), project_id: s("p") });
    let (run, turn) = run.resume(refused("lost"), 11);
    assert_eq!(told(&turn), vec!["projects| Active toolchain set lookup failed: lost\n"]);
    let (run, _) = run.resume(Reply::DefaultTarget { target: Some(target(Some("d"), "")) }, 12);
    let (_, turn) = run.resume(refused("no"), 13);
    assert_eq!(asked(&turn), "error no");
    let (run, _) = begin(export("j", ""));
    let (run, _) = run.resume(Reply::JobFound { job: None }, 11);
    let (_, turn) = run.resume(refused("history"), 12);
    assert_eq!(asked(&turn), "error history");
    let (_, turn) = begin(UiCommand::ProjectUseActiveDefaults { cfg: cfg(), project_id: s(" ") });
    assert_eq!(told(&turn), vec!["projects| Use active defaults requires a project id.\n"]);
}
