use aadk::config::{AddrEnv, AppConfig};
use aadk::ui_state::{
    dropdown_selection, trim_log, ui_state_path, TargetsEnv, TargetsState, UiState, LOG_MAX_CHARS,
};

fn no_env() -> TargetsEnv {
    TargetsEnv {
        adb_serial: None,
        cuttlefish_branch: None,
        cuttlefish_target: None,
        cuttlefish_build_id: None,
    }
}

#[test]
fn the_state_file_stands_beside_the_configuration() {
    assert_eq!(ui_state_path(Some("/h")), "/h/.local/share/aadk/state/ui-state.json");
    assert_eq!(ui_state_path(None), "/tmp/aadk/state/ui-state.json");
}

#[test]
fn pages_start_with_their_defaults() {
    let (state, loaded) = UiState::load_with_status(None, &no_env());
    assert!(!loaded);
    assert_eq!(state.home.job_type, "workflow.pipeline");
    assert_eq!(state.home.log, "");
    assert!(state.workflow.include_history);
    assert!(state.workflow.auto_infer_steps);
    assert!(!state.workflow.step_build);
    assert_eq!(state.toolchains.sdk_version, "36.0.0");
    assert_eq!(state.toolchains.ndk_version, "r29");
    assert!(state.toolchains.verify_update);
    assert!(state.toolchains.dry_run);
    assert!(!state.toolchains.remove_all);
    assert_eq!(state.projects.toolchain_set_id, "none");
    assert_eq!(state.projects.default_target_id, "none");
    assert_eq!(state.targets.target_id, "127.0.0.1:6520");
    assert_eq!(state.targets.activity, ".MainActivity");
    assert_eq!(state.build.variant_index, 0);
    assert!(!state.build.clean_first);
    assert_eq!(state.jobs.page_size, "50");
    assert_eq!(state.jobs.history_page_size, "200");
    assert_eq!(state.evidence.recent_limit, "10");
    assert!(state.evidence.include_history && state.evidence.include_logs);
    assert!(state.evidence.include_config && state.evidence.include_toolchain);
    assert!(state.evidence.include_recent);
    assert!(!state.settings.exclude_downloads);
}

#[test]
fn the_environment_fills_the_targets_page() {
    let env = TargetsEnv {
        adb_serial: Some("serial".to_string()),
        cuttlefish_branch: Some("branch".to_string()),
        cuttlefish_target: Some("target".to_string()),
        cuttlefish_build_id: Some("42".to_string()),
    };
    let targets = TargetsState::defaults(&env);
    assert_eq!(targets.target_id, "serial");
    assert_eq!(targets.cuttlefish_branch, "branch");
    assert_eq!(targets.cuttlefish_target, "target");
    assert_eq!(targets.cuttlefish_build_id, "42");
}

#[test]
fn a_state_that_was_read_is_taken() {
    let mut file = UiState::defaults(&no_env());
    file.home.watch_job_id = "j".to_string();
    let (state, loaded) = UiState::load_with_status(Some(file), &no_env());
    assert!(loaded);
    assert_eq!(state.home.watch_job_id, "j");
}

#[test]
fn logs_keep_their_last_characters() {
    assert_eq!(trim_log("short"), "short");
    let exact: String = "é".repeat(LOG_MAX_CHARS);
    assert_eq!(trim_log(&exact), exact);
    let long = format!("ab{exact}");
    assert_eq!(trim_log(&long), exact);
}

#[test]
fn lines_go_to_the_log_of_their_page() {
    let mut state = UiState::defaults(&no_env());
    for page in [
        "home", "workflow", "toolchains", "projects", "targets", "console", "jobs", "evidence",
        "settings",
    ] {
        state.append_log(page, &format!("to {page}\n"));
    }
    state.append_log("elsewhere", "lost\n");
    state.append_log("home", "more\n");
    assert_eq!(state.home.log, "to home\nmore\n");
    assert_eq!(state.workflow.log, "to workflow\n");
    assert_eq!(state.toolchains.log, "to toolchains\n");
    assert_eq!(state.projects.log, "to projects\n");
    assert_eq!(state.targets.log, "to targets\n");
    assert_eq!(state.build.log, "to console\n");
    assert_eq!(state.jobs.log, "to jobs\n");
    assert_eq!(state.evidence.log, "to evidence\n");
    assert_eq!(state.settings.log, "to settings\n");
}

#[test]
fn a_log_never_grows_past_its_bound() {
    let mut state = UiState::defaults(&no_env());
    state.jobs.log = "x".repeat(LOG_MAX_CHARS);
    state.append_log("jobs", "end");
    assert_eq!(state.jobs.log.chars().count(), LOG_MAX_CHARS);
    assert!(state.jobs.log.ends_with("xend"));
}

#[test]
fn what_is_saved_has_trimmed_logs() {
    let mut state = UiState::defaults(&no_env());
    state.settings.log = format!("{}{}", "old", "n".repeat(LOG_MAX_CHARS));
    state.settings.save_path = "/x.zip".to_string();
    let saved = state.saved();
    assert_eq!(saved.settings.log, "n".repeat(LOG_MAX_CHARS));
    assert_eq!(saved.settings.save_path, "/x.zip");
    assert_eq!(saved.toolchains.ndk_version, "r29");
    assert_eq!(saved.saved().settings.log, saved.settings.log);
}

#[test]
fn choices_out_of_range_go_to_the_first() {
    assert_eq!(dropdown_selection(0, 0), 0);
    assert_eq!(dropdown_selection(3, 0), 0);
    assert_eq!(dropdown_selection(2, 3), 2);
    assert_eq!(dropdown_selection(3, 3), 0);
    let mut state = UiState::defaults(&no_env());
    state.workflow.build_variant_index = 2;
    state.build.variant_index = 2;
    state.evidence.output_kind_index = 7;
    let shown = state.shown(3, 2);
    assert_eq!(shown.workflow.build_variant_index, 2);
    assert_eq!(shown.build.variant_index, 0);
    assert_eq!(shown.evidence.output_kind_index, 0);
}

#[test]
fn capturing_the_screen_keeps_the_logs() {
    let mut state = UiState::defaults(&no_env());
    state.append_log("home", "line\n");
    let mut screen = UiState::defaults(&no_env());
    screen.home.job_type = "demo".to_string();
    screen.home.log = "ignored".to_string();
    screen.jobs.page_size = "7".to_string();
    state.capture(screen);
    assert_eq!(state.home.log, "line\n");
    assert_eq!(state.home.job_type, "demo");
    assert_eq!(state.jobs.page_size, "7");
}

#[test]
fn the_last_job_is_filled_in() {
    let mut cfg = AppConfig::defaults(&AddrEnv {
        job: None,
        toolchain: None,
        project: None,
        build: None,
        targets: None,
        observe: None,
        workflow: None,
    });
    let state = UiState::defaults(&no_env()).with_last_job(&cfg);
    assert_eq!(state.home.job_type, "workflow.pipeline");
    assert_eq!(state.jobs.job_types, "");
    assert_eq!(state.evidence.job_id, "");
    cfg.last_job_type = "build.run".to_string();
    cfg.last_job_params = "a=1".to_string();
    cfg.last_job_project_id = "p".to_string();
    cfg.last_job_target_id = "t".to_string();
    cfg.last_job_toolchain_set_id = "s".to_string();
    cfg.last_job_id = "j".to_string();
    cfg.last_correlation_id = "c".to_string();
    let state = UiState::defaults(&no_env()).with_last_job(&cfg);
    assert_eq!(state.home.job_type, "build.run");
    assert_eq!(state.home.job_params, "a=1");
    assert_eq!(state.home.project_id, "p");
    assert_eq!(state.home.target_id, "t");
    assert_eq!(state.home.toolchain_set_id, "s");
    assert_eq!(state.home.correlation_id, "c");
    assert_eq!(state.home.watch_job_id, "j");
    assert_eq!(state.jobs.job_types, "build.run");
    assert_eq!(state.jobs.job_id, "j");
    assert_eq!(state.jobs.page_size, "50");
    for (job_id, correlation_id) in [
        (&state.workflow.job_id, &state.workflow.correlation_id),
        (&state.toolchains.job_id, &state.toolchains.correlation_id),
        (&state.projects.job_id, &state.projects.correlation_id),
        (&state.targets.job_id, &state.targets.correlation_id),
        (&state.build.job_id, &state.build.correlation_id),
        (&state.evidence.job_id, &state.evidence.correlation_id),
    ] {
        assert_eq!((job_id.as_str(), correlation_id.as_str()), ("j", "c"));
    }
    assert_eq!(state.targets.target_id, "127.0.0.1:6520");
}

#[test]
fn a_saved_state_is_loaded_again() {
    let mut state = UiState::defaults(&no_env());
    state.append_log("home", "line\n");
    state.evidence.run_id = "r".to_string();
    let before = format!("{state:?}");
    let (again, loaded) = UiState::load_with_status(Some(state.saved()), &no_env());
    assert!(loaded);
    assert_eq!(format!("{again:?}"), before);
}
