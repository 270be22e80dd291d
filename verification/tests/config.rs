use aadk::config::{telemetry_env_override, ui_config_path, AddrEnv, AppConfig};
use aadk::context::{format_context_value, ActiveContext};

fn no_env() -> AddrEnv {
    AddrEnv {
        job: None,
        toolchain: None,
        project: None,
        build: None,
        targets: None,
        observe: None,
        workflow: None,
    }
}

fn filled() -> AppConfig {
    let mut cfg = AppConfig::defaults(&no_env());
    cfg.job_addr = "file-job".to_string();
    cfg.toolchain_addr = String::new();
    cfg.last_job_type = "jt".to_string();
    cfg.last_job_params = "jp".to_string();
    cfg.last_job_project_id = "jproj".to_string();
    cfg.last_job_target_id = "jtarget".to_string();
    cfg.last_job_toolchain_set_id = "jset".to_string();
    cfg.last_job_id = "jid".to_string();
    cfg.last_correlation_id = "corr".to_string();
    cfg.active_project_id = "p1".to_string();
    cfg.active_project_path = "/p1".to_string();
    cfg.active_target_id = "t1".to_string();
    cfg.active_toolchain_set_id = "s1".to_string();
    cfg.active_run_id = "r1".to_string();
    cfg.telemetry_usage_enabled = true;
    cfg.telemetry_crash_enabled = true;
    cfg.telemetry_install_id = "install".to_string();
    cfg
}

#[test]
fn the_file_stands_in_the_state_directory() {
    assert_eq!(
        ui_config_path(Some("/home/u")),
        "/home/u/.local/share/aadk/state/ui-config.json"
    );
    assert_eq!(ui_config_path(None), "/tmp/aadk/state/ui-config.json");
}

#[test]
fn defaults_are_the_standard_addresses() {
    let cfg = AppConfig::defaults(&no_env());
    assert_eq!(cfg.job_addr, "127.0.0.1:50051");
    assert_eq!(cfg.toolchain_addr, "127.0.0.1:50052");
    assert_eq!(cfg.project_addr, "127.0.0.1:50053");
    assert_eq!(cfg.build_addr, "127.0.0.1:50054");
    assert_eq!(cfg.targets_addr, "127.0.0.1:50055");
    assert_eq!(cfg.observe_addr, "127.0.0.1:50056");
    assert_eq!(cfg.workflow_addr, "127.0.0.1:50057");
    assert_eq!(cfg.active_project_id, "");
    assert!(!cfg.telemetry_usage_enabled);
    assert!(!cfg.telemetry_crash_enabled);
}

#[test]
fn no_file_means_defaults() {
    let cfg = AppConfig::load(&no_env(), None);
    assert_eq!(cfg.job_addr, "127.0.0.1:50051");
    assert_eq!(cfg.last_job_id, "");
}

#[test]
fn the_environment_wins_over_the_file_and_the_file_over_defaults() {
    let mut env = no_env();
    env.project = Some("env-project".to_string());
    let mut file = filled();
    file.project_addr = "file-project".to_string();
    let cfg = AppConfig::load(&env, Some(file));
    assert_eq!(cfg.job_addr, "file-job");
    assert_eq!(cfg.toolchain_addr, "127.0.0.1:50052");
    assert_eq!(cfg.project_addr, "env-project");
    assert_eq!(cfg.last_job_type, "jt");
    assert_eq!(cfg.last_job_params, "jp");
    assert_eq!(cfg.last_correlation_id, "corr");
    assert_eq!(cfg.active_run_id, "r1");
    assert!(cfg.telemetry_usage_enabled);
    assert_eq!(cfg.telemetry_install_id, "install");
}

#[test]
fn an_empty_address_of_the_environment_counts() {
    let mut env = no_env();
    env.job = Some(String::new());
    let cfg = AppConfig::load(&env, Some(filled()));
    assert_eq!(cfg.job_addr, "");
}

#[test]
fn clearing_keeps_addresses_and_consent() {
    let mut cfg = filled();
    cfg.clear_cached_state();
    assert_eq!(cfg.job_addr, "file-job");
    assert_eq!(cfg.last_job_type, "");
    assert_eq!(cfg.last_job_params, "");
    assert_eq!(cfg.last_job_project_id, "");
    assert_eq!(cfg.last_job_target_id, "");
    assert_eq!(cfg.last_job_toolchain_set_id, "");
    assert_eq!(cfg.last_job_id, "");
    assert_eq!(cfg.last_correlation_id, "");
    assert_eq!(cfg.active_project_id, "");
    assert_eq!(cfg.active_project_path, "");
    assert_eq!(cfg.active_target_id, "");
    assert_eq!(cfg.active_toolchain_set_id, "");
    assert_eq!(cfg.active_run_id, "");
    assert_eq!(cfg.telemetry_install_id, "");
    assert!(cfg.telemetry_usage_enabled);
    assert!(cfg.telemetry_crash_enabled);
}

#[test]
fn the_context_is_read_off() {
    let ctx = filled().active_context();
    assert_eq!(ctx.run_id, "r1");
    assert_eq!(ctx.project_id, "p1");
    assert_eq!(ctx.project_path, "/p1");
    assert_eq!(ctx.toolchain_set_id, "s1");
    assert_eq!(ctx.target_id, "t1");
}

#[test]
fn a_project_is_referred_to_by_id_or_else_by_path() {
    let mut ctx = filled().active_context();
    assert_eq!(ctx.project_ref(), "p1");
    ctx.project_id = "  ".to_string();
    assert_eq!(ctx.project_ref(), "/p1");
}

#[test]
fn selecting_a_project_sets_id_and_path() {
    let mut cfg = filled();
    cfg.select_project("p2".to_string(), "/p2".to_string());
    assert_eq!(cfg.active_project_id, "p2");
    assert_eq!(cfg.active_project_path, "/p2");
    assert_eq!(cfg.active_target_id, "t1");
    assert_eq!(cfg.active_run_id, "r1");
}

#[test]
fn the_context_follows_an_update() {
    let mut cfg = filled();
    cfg.update_context(None, Some("/p3".to_string()), None, Some("".to_string()), Some("r9".to_string()));
    let ctx = cfg.active_context();
    assert_eq!(ctx.project_id, "p1");
    assert_eq!(ctx.project_path, "/p3");
    assert_eq!(ctx.toolchain_set_id, "s1");
    assert_eq!(ctx.target_id, "");
    assert_eq!(ctx.run_id, "r9");
}

#[test]
fn telemetry_switches_are_read() {
    for on in ["1", "true", "TRUE", "yes", "On"] {
        assert_eq!(telemetry_env_override(Some(on)), Some(true), "{on}");
    }
    for off in ["0", "false", "No", "OFF"] {
        assert_eq!(telemetry_env_override(Some(off)), Some(false), "{off}");
    }
    for neither in ["", " 1", "2", "enabled"] {
        assert_eq!(telemetry_env_override(Some(neither)), None, "{neither}");
    }
    assert_eq!(telemetry_env_override(None), None);
}

#[test]
fn the_environment_decides_on_telemetry() {
    let mut cfg = filled();
    assert!(!cfg.apply_telemetry_env(None, Some("maybe")));
    assert!(cfg.telemetry_usage_enabled && cfg.telemetry_crash_enabled);
    assert!(!cfg.apply_telemetry_env(Some("off"), None));
    assert!(!cfg.telemetry_usage_enabled && cfg.telemetry_crash_enabled);
    cfg.telemetry_install_id = "  ".to_string();
    assert!(cfg.apply_telemetry_env(None, None));
    assert!(!cfg.apply_telemetry_env(None, Some("no")));
}

#[test]
fn an_install_id_is_reported_unless_blank() {
    let mut cfg = filled();
    assert_eq!(cfg.report_id(), Some("install".to_string()));
    cfg.telemetry_install_id = " ".to_string();
    assert_eq!(cfg.report_id(), None);
}

#[test]
fn labels_show_a_dash_for_nothing() {
    assert_eq!(format_context_value(""), "-");
    assert_eq!(format_context_value("a"), "a");
    let ctx = ActiveContext {
        run_id: " r ".to_string(),
        project_id: String::new(),
        project_path: " /p ".to_string(),
        toolchain_set_id: " ".to_string(),
        target_id: "t".to_string(),
    };
    let labels = ctx.labels();
    assert_eq!(labels.project, "Project: /p");
    assert_eq!(labels.toolchain_set, "Toolchain set: -");
    assert_eq!(labels.target, "Target: t");
    assert_eq!(labels.run, "Run: r");
}

#[test]
fn a_saved_configuration_is_loaded_again() {
    let mut saved = filled();
    saved.toolchain_addr = "file-toolchain".to_string();
    let before = format!("{saved:?}");
    assert_eq!(format!("{:?}", AppConfig::load(&no_env(), Some(saved))), before);
}
