use aadk::config::{AddrEnv, AppConfig};
use aadk::forms::{builds, evidence, home, jobs, projects, settings, shared, targets, toolchains, workflow};
use aadk::model::{ArtifactType, BuildVariant};
use aadk::ui_state::{TargetsEnv, UiState};
use aadk::worker::call::ServiceName;

fn cfg() -> AppConfig {
    AppConfig::defaults(&AddrEnv {
        job: None,
        toolchain: None,
        project: None,
        build: None,
        targets: None,
        observe: None,
        workflow: None,
    })
}

fn state() -> UiState {
    UiState::defaults(&TargetsEnv {
        adb_serial: None,
        cuttlefish_branch: None,
        cuttlefish_target: None,
        cuttlefish_build_id: None,
    })
}

fn s(text: &str) -> String {
    text.to_string()
}

/// A command as text, without the configuration that it carries.
fn shown<T: std::fmt::Debug>(cmd: &T) -> String {
    let text = format!("{cmd:?}");
    match (text.find("cfg: AppConfig {"), text.find("telemetry_install_id: ")) {
        (Some(from), Some(near)) => {
            let to = near + text[near..].find('}').unwrap() + 1;
            let to = if text[to..].starts_with(", ") { to + 2 } else { to };
            format!("{}{}", &text[..from], &text[to..])
        }
        _ => text,
    }
}

#[test]
fn a_job_id_is_used_where_asked_for() {
    assert_eq!(shared::choose_job(true, &s(" j ")), Some(s(" j ")));
    assert_eq!(shared::choose_job(true, &s(" ")), None);
    assert_eq!(shared::choose_job(false, &s("j")), None);
    let mut c = cfg();
    c.last_job_id = s("old");
    c.last_correlation_id = s("oldc");
    shared::remember(&mut c, &s(" "), &s("new"));
    assert_eq!((c.last_job_id.as_str(), c.last_correlation_id.as_str()), ("old", "new"));
    shared::remember(&mut c, &s("j"), &s(""));
    assert_eq!((c.last_job_id.as_str(), c.last_correlation_id.as_str()), ("j", "new"));
    assert_eq!(shared::variant_of(0), BuildVariant::Debug);
    assert_eq!(shared::variant_of(1), BuildVariant::Release);
    assert_eq!(shared::variant_of(9), BuildVariant::Debug);
    assert_eq!(shared::if_filled(&s(" ")), None);
    assert_eq!(shared::if_filled(&s(" a")), Some(s(" a")));
}

#[test]
fn the_home_page_starts_and_watches() {
    let mut c = cfg();
    let mut form = state().home;
    form.job_params = s("a=b");
    form.project_id = s("p");
    form.target_id = s("t");
    form.toolchain_set_id = s("ts");
    form.correlation_id = s("c");
    let cmd = home::start_job(&mut c, &form);
    assert_eq!(
        shown(&cmd),
        "HomeStartJob { job_type: \"workflow.pipeline\", params_raw: \"a=b\", project_id: \"p\", target_id: \"t\", toolchain_set_id: \"ts\", correlation_id: \"c\" }"
    );
    assert_eq!(c.last_job_type, "workflow.pipeline");
    assert_eq!(c.last_job_params, "a=b");
    assert_eq!(c.last_job_project_id, "p");
    assert_eq!(c.last_job_target_id, "t");
    assert_eq!(c.last_job_toolchain_set_id, "ts");
    assert_eq!(c.last_correlation_id, "c");

    assert!(home::watch_job(&mut c, &form).is_none());
    assert_eq!(c.last_job_id, "");
    form.watch_job_id = s(" j ");
    assert_eq!(shown(&home::watch_job(&mut c, &form).unwrap()), "HomeWatchJob { job_id: \" j \" }");
    assert_eq!(c.last_job_id, " j ");
    let types = home::known_job_types();
    assert_eq!(types.len(), 13);
    assert_eq!(types[0], "workflow.pipeline");
    assert_eq!(types[12], "observe.evidence_bundle");
}

#[test]
fn the_workflow_page_runs_a_pipeline() {
    let mut c = cfg();
    let mut form = state().workflow;
    form.use_job_id = true;
    form.job_id = s("j");
    form.build_variant_index = 1;
    form.tasks = s("a, b c");
    form.application_id = s(" ");
    let cmd = workflow::run_pipeline(&mut c, &form, &Some(s("com.i")));
    assert_eq!(
        shown(&cmd),
        "WorkflowRunPipeline { run_id: \"\", correlation_id: \"\", job_id: Some(\"j\"), project_id: \"\", project_path: \"\", project_name: \"\", template_id: \"\", toolchain_id: \"\", toolchain_set_id: \"\", target_id: \"\", build_variant: Release, module: \"\", variant_name: \"\", tasks: [\"a\", \"b\", \"c\"], apk_path: \"\", application_id: \"com.i\", activity: \"\", options: None, stream_history: true }"
    );
    assert_eq!(c.last_job_id, "j");
    form.auto_infer_steps = false;
    form.step_build = true;
    form.application_id = s("com.own");
    let text = shown(&workflow::run_pipeline(&mut c, &form, &Some(s("com.i"))));
    assert!(text.contains("application_id: \"com.own\""));
    assert!(text.contains(
        "options: Some(PipelineOptions { create_project: false, open_project: false, verify_toolchain: false, build: true, install_apk: false, launch_app: false, export_support_bundle: false, export_evidence_bundle: false })"
    ));
    form.run_id = s("r");
    assert_eq!(
        shown(&workflow::follow_run(&c, &form)),
        "StreamRunEvents { run_id: \"r\", correlation_id: \"\", include_history: true, page: \"workflow\" }"
    );
}

#[test]
fn the_history_page_lists_and_exports() {
    assert_eq!(jobs::typed_number("7", 50), 7);
    assert_eq!(jobs::typed_number("", 50), 50);
    assert_eq!(jobs::typed_number(" 7", 50), 50);
    assert_eq!(jobs::typed_number("4294967296", 50), 50);
    let mut c = cfg();
    let mut form = state().jobs;
    form.states = s("queued");
    form.page_size = s("x");
    form.job_id = s("j");
    form.kinds = s("log");
    form.output_path = s("/o");
    assert_eq!(
        shown(&jobs::list_jobs(&c, &form)),
        "JobsList { job_types: \"\", states: \"queued\", created_after: \"\", created_before: \"\", finished_after: \"\", finished_before: \"\", correlation_id: \"\", run_id: \"\", page_size: 50, page_token: \"\", page: \"jobs\" }"
    );
    assert_eq!(
        shown(&jobs::list_history(&mut c, &form)),
        "JobsHistory { job_id: \"j\", kinds: \"log\", after: \"\", before: \"\", page_size: 200, page_token: \"\" }"
    );
    assert_eq!(c.last_job_id, "j");
    form.job_id = String::new();
    assert_eq!(
        shown(&jobs::export_logs(&mut c, &form)),
        "JobsExportLogs { job_id: \"\", output_path: \"/o\", page: \"jobs\" }"
    );
    assert_eq!(c.last_job_id, "");
}

#[test]
fn the_toolchains_page() {
    let mut c = cfg();
    let mut form = state().toolchains;
    assert_eq!(
        shown(&toolchains::list_available(&c, true)),
        format!("ToolchainListAvailable {{ provider_id: {:?} }}", aadk::routing::PROVIDER_SDK_ID)
    );
    assert_eq!(
        shown(&toolchains::list_available(&c, false)),
        format!("ToolchainListAvailable {{ provider_id: {:?} }}", aadk::routing::PROVIDER_NDK_ID)
    );
    assert_eq!(shown(&toolchains::list_installed(&c)), "ToolchainListInstalled { kind: Unspecified }");
    let text = shown(&toolchains::install(&mut c, &form, true));
    assert!(text.contains("version: \"36.0.0\", verify: true, job_id: None"));
    let text = shown(&toolchains::install(&mut c, &form, false));
    assert!(text.contains("version: \"r29\""));
    assert_eq!(
        shown(&toolchains::verify_installed(&mut c, &form)),
        "ToolchainVerifyInstalled { job_id: None, correlation_id: \"\" }"
    );
    form.toolchain_id = s("t");
    form.update_version = s("v");
    assert_eq!(
        shown(&toolchains::update(&mut c, &form)),
        "ToolchainUpdate { toolchain_id: \"t\", version: \"v\", verify: true, remove_cached: false, job_id: None, correlation_id: \"\" }"
    );
    assert_eq!(
        shown(&toolchains::uninstall(&mut c, &form)),
        "ToolchainUninstall { toolchain_id: \"t\", remove_cached: false, force: false, job_id: None, correlation_id: \"\" }"
    );
    assert_eq!(
        shown(&toolchains::cleanup_cache(&mut c, &form)),
        "ToolchainCleanupCache { dry_run: true, remove_all: false, job_id: None, correlation_id: \"\" }"
    );
    form.sdk_set_id = s(" a ");
    form.ndk_set_id = s(" ");
    form.display_name = s("N");
    form.active_set_id = s("s");
    assert_eq!(
        shown(&toolchains::create_set(&c, &form)),
        "ToolchainCreateSet { sdk_toolchain_id: Some(\" a \"), ndk_toolchain_id: None, display_name: \"N\" }"
    );
    assert_eq!(shown(&toolchains::create_latest(&c, &form)), "ToolchainCreateActiveLatest { display_name: \"N\" }");
    assert_eq!(shown(&toolchains::set_active(&c, &form)), "ToolchainSetActive { toolchain_set_id: \"s\" }");
}

#[test]
fn the_projects_page() {
    let mut c = cfg();
    let mut form = state().projects;
    form.name = s("N");
    form.template_id = s("t");
    form.project_id = s("p");
    assert_eq!(shown(&projects::open_project(&c, " /p ", true).unwrap()), "ProjectOpen { path: \"/p\" }");
    assert!(projects::open_project(&c, "/p", false).is_none());
    assert!(projects::open_project(&c, " ", true).is_none());
    assert_eq!(
        shown(&projects::create_project(&mut c, &form, s("/new"))),
        "ProjectCreate { name: \"N\", path: \"/new\", template_id: \"t\", job_id: None, correlation_id: \"\" }"
    );
    assert_eq!(
        shown(&projects::set_config(&c, &form)),
        "ProjectSetConfig { project_id: \"p\", toolchain_set_id: None, default_target_id: None }"
    );
    form.toolchain_set_id = s("s");
    form.default_target_id = s(" ");
    assert_eq!(
        shown(&projects::set_config(&c, &form)),
        "ProjectSetConfig { project_id: \"p\", toolchain_set_id: Some(\"s\"), default_target_id: None }"
    );
    assert_eq!(shown(&projects::use_defaults(&c, &form)), "ProjectUseActiveDefaults { project_id: \"p\" }");
}

#[test]
fn the_targets_page() {
    let mut c = cfg();
    let mut form = state().targets;
    form.apk_path = s("/a.apk");
    form.application_id = s("com.a");
    form.cuttlefish_branch = s("b");
    assert_eq!(
        shown(&targets::stream_logcat(&c)),
        "TargetsStreamLogcat { target_id: \"target-sample-pixel\", filter: \"\" }"
    );
    assert_eq!(
        shown(&targets::resolve_build(&c, &form)),
        "TargetsResolveCuttlefishBuild { branch: \"b\", target: \"\", build_id: \"\" }"
    );
    assert_eq!(
        shown(&targets::install_cuttlefish(&mut c, &form)),
        "TargetsInstallCuttlefish { force: false, branch: \"b\", target: \"\", build_id: \"\", job_id: None, correlation_id: \"\" }"
    );
    assert_eq!(
        shown(&targets::start_cuttlefish(&mut c, &form)),
        "TargetsStartCuttlefish { show_full_ui: true, job_id: None, correlation_id: \"\" }"
    );
    assert_eq!(
        shown(&targets::stop_cuttlefish(&mut c, &form)),
        "TargetsStopCuttlefish { job_id: None, correlation_id: \"\" }"
    );
    assert_eq!(shown(&targets::set_default(&c, &form)), "TargetsSetDefault { target_id: \"127.0.0.1:6520\" }");
    assert_eq!(
        shown(&targets::install_apk(&mut c, &form, s("/b.apk"))),
        "TargetsInstallApk { target_id: \"127.0.0.1:6520\", apk_path: \"/b.apk\", job_id: None, correlation_id: \"\" }"
    );
    assert_eq!(
        shown(&targets::launch_app(&mut c, &form)),
        "TargetsLaunchApp { target_id: \"127.0.0.1:6520\", apk_path: \"/a.apk\", application_id: \"com.a\", activity: \".MainActivity\", job_id: None, correlation_id: \"\" }"
    );
    assert_eq!(targets::screen_url(None), "https://localhost:8443");
    assert_eq!(targets::screen_url(Some("u")), "u");
    assert_eq!(targets::control_url(None), "https://localhost:1443");
    assert_eq!(targets::control_url(Some("v")), "v");
}

#[test]
fn the_build_page() {
    let args = builds::parse_gradle_args(" --info  -Pa=b,c ");
    assert_eq!(args.len(), 2);
    assert_eq!((args[0].key.as_str(), args[0].value.as_str()), ("--info", ""));
    assert_eq!(args[1].key, "-Pa=b,c");
    assert_eq!(
        builds::parse_artifact_types("APK, bundle aar odd mapping.txt tests test-results mapping test aab test_result"),
        vec![
            ArtifactType::Apk, ArtifactType::Aab, ArtifactType::Aar, ArtifactType::Mapping,
            ArtifactType::TestResult, ArtifactType::TestResult, ArtifactType::Mapping,
            ArtifactType::TestResult, ArtifactType::Aab, ArtifactType::TestResult,
        ]
    );
    let mut c = cfg();
    let mut form = state().build;
    form.project_ref = s(" p ");
    form.tasks = s("x,y");
    form.gradle_args = s("-i");
    form.variant_index = 1;
    form.clean_first = true;
    form.job_id = s("j");
    form.correlation_id = s("c");
    assert_eq!(
        shown(&builds::run_build(&mut c, &form)),
        "BuildRun { project_ref: \" p \", variant: Release, variant_name: \"\", module: \"\", tasks: [\"x\", \"y\"], clean_first: true, gradle_args: [KeyValue { key: \"-i\", value: \"\" }], job_id: None, correlation_id: \"c\" }"
    );
    assert_eq!((c.last_job_id.as_str(), c.last_correlation_id.as_str()), ("j", "c"));
    form.artifact_modules = s("app lib");
    form.artifact_variant = s(" v ");
    form.artifact_types = s("apk");
    form.artifact_name = s(" n ");
    assert_eq!(
        shown(&builds::list_artifacts(&c, &form)),
        "BuildListArtifacts { project_ref: \" p \", variant: Release, filter: ArtifactFilter { modules: [\"app\", \"lib\"], variant: \"v\", types: [Apk], name_contains: \"n\", path_contains: \"\" } }"
    );
}

#[test]
fn the_evidence_page() {
    let mut c = cfg();
    let mut form = state().evidence;
    form.run_id = s("r");
    form.correlation_id = s("c");
    assert_eq!(
        shown(&evidence::list_runs(&c, &form)),
        "ObserveListRuns { run_id: \"r\", correlation_id: \"c\", result: \"\", page_size: 25, page_token: \"\", page: \"evidence\" }"
    );
    assert_eq!(
        shown(&evidence::list_jobs(&c, &form)),
        "JobsList { job_types: \"\", states: \"\", created_after: \"\", created_before: \"\", finished_after: \"\", finished_before: \"\", correlation_id: \"c\", run_id: \"r\", page_size: 200, page_token: \"\", page: \"evidence\" }"
    );
    assert_eq!(
        shown(&evidence::follow_run(&c, &form)),
        "StreamRunEvents { run_id: \"r\", correlation_id: \"c\", include_history: true, page: \"evidence\" }"
    );
    for (index, kind) in [(0, "Unspecified"), (1, "Bundle"), (2, "Artifact"), (3, "Unspecified")] {
        form.output_kind_index = index;
        assert_eq!(
            shown(&evidence::list_outputs(&c, &form)),
            format!("ObserveListOutputs {{ run_id: \"r\", kind: {kind}, output_type: \"\", path_contains: \"\", label_contains: \"\", page_size: 50, page_token: \"\", page: \"evidence\" }}")
        );
    }
    form.recent_limit = s("many");
    assert_eq!(
        shown(&evidence::export_support(&mut c, &form)),
        "ObserveExportSupport { include_logs: true, include_config: true, include_toolchain_provenance: true, include_recent_runs: true, recent_runs_limit: 10, job_id: None, correlation_id: \"c\", page: \"evidence\" }"
    );
    assert_eq!(c.last_correlation_id, "c");
    assert_eq!(
        shown(&evidence::export_evidence(&mut c, &form)),
        "ObserveExportEvidence { run_id: \"r\", job_id: None, correlation_id: \"c\", page: \"evidence\" }"
    );
    form.job_id = s("j");
    form.job_log_output_path = s("/o");
    assert_eq!(
        shown(&evidence::export_job_logs(&mut c, &form)),
        "JobsExportLogs { job_id: \"j\", output_path: \"/o\", page: \"evidence\" }"
    );
    form.job_id = s(" ");
    evidence::export_job_logs(&mut c, &form);
    assert_eq!(c.last_job_id, "j");
}

#[test]
fn the_settings_page() {
    let mut c = cfg();
    let mut form = state().settings;
    form.exclude_bundles = true;
    assert_eq!(
        shown(&settings::save_state(&c, &form, s("/s.zip"))),
        "StateSave { output_path: \"/s.zip\", options: StateArchiveOptions { exclude_downloads: false, exclude_toolchains: false, exclude_bundles: true, exclude_telemetry: false } }"
    );
    assert!(shown(&settings::open_state(&c, &form, s("/o.zip"))).starts_with("StateOpen { archive_path: \"/o.zip\""));
    for (service, addr) in [
        (ServiceName::Job, "1"), (ServiceName::Toolchain, "2"), (ServiceName::Project, "3"), (ServiceName::Build, "4"),
        (ServiceName::Targets, "5"), (ServiceName::Observe, "6"), (ServiceName::Workflow, "7"),
    ] {
        settings::set_address(&mut c, service, s(addr));
    }
    let fields = settings::settings_fields(&c);
    assert_eq!(
        [&fields.job, &fields.toolchain, &fields.project, &fields.build, &fields.targets, &fields.observe, &fields.workflow],
        ["1", "2", "3", "4", "5", "6", "7"]
    );
    assert!(!fields.usage && !fields.crash);
    assert_eq!(fields.install_label, "Install ID: not set");
    assert_eq!(settings::telemetry_label_text("x"), "Install ID: x");
    assert_eq!(settings::telemetry_label_text(" "), "Install ID: not set");
    assert!(settings::turn_usage(&mut c, true));
    assert!(c.telemetry_usage_enabled);
    c.telemetry_install_id = s("id");
    assert!(!settings::turn_crash(&mut c, true));
    assert!(c.telemetry_crash_enabled);
    c.telemetry_install_id = s(" ");
    assert!(settings::turn_usage(&mut c, false));
    assert!(!settings::turn_crash(&mut c, false));
}

#[test]
fn archives_end_in_zip() {
    assert_eq!(settings::with_zip("/a"), "/a.zip");
    assert_eq!(settings::with_zip("/a.ZIP"), "/a.ZIP");
    assert_eq!(settings::with_zip(".zip"), ".zip");
    let once = settings::with_zip("/b.tar");
    assert_eq!(settings::with_zip(&once), once);
}
