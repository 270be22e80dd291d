use aadk::commands::AppEvent;
use aadk::config::{AddrEnv, AppConfig};
use aadk::context::{ProjectTemplateOption, TargetOption, ToolchainSetOption};
use aadk::routing::{AppModel, Screen, Show, Shows, PROVIDER_NDK_ID, PROVIDER_SDK_ID, RESET_WARNING};
use aadk::ui_state::{TargetsEnv, UiState};

fn env() -> TargetsEnv {
    TargetsEnv { adb_serial: None, cuttlefish_branch: None, cuttlefish_target: None, cuttlefish_build_id: None }
}

fn model() -> AppModel {
    let mut cfg = AppConfig::defaults(&AddrEnv {
        job: None,
        toolchain: None,
        project: None,
        build: None,
        targets: None,
        observe: None,
        workflow: None,
    });
    cfg.active_project_id = s("p0");
    cfg.active_project_path = s("/p0");
    cfg.last_job_id = s("old");
    AppModel { cfg, ui_state: UiState::defaults(&env()), current_job_id: None, pending_prompt: false }
}

fn screen(targets: &str, workflow: &str) -> Screen {
    Screen { targets_application_id: s(targets), workflow_application_id: s(workflow) }
}

fn s(text: &str) -> String {
    text.to_string()
}

fn shown(shows: &Shows) -> Vec<String> {
    shows.items.iter().map(|show| format!("{show:?}")).collect()
}

fn take(m: &mut AppModel, event: AppEvent) -> Vec<String> {
    shown(&m.take(event, &screen("", ""), &env()))
}

#[test]
fn lines_are_shown_and_kept() {
    let mut m = model();
    assert_eq!(
        take(&mut m, AppEvent::Log { page: "console", line: s("x\n") }),
        vec!["Append { page: \"console\", line: \"x\\n\" }"]
    );
    assert_eq!(m.ui_state.build.log, "x\n");
    assert!(take(&mut m, AppEvent::Log { page: "nowhere", line: s("y") }).is_empty());
}

#[test]
fn the_current_job_is_shown_and_saved() {
    let mut m = model();
    assert!(!m.can_cancel());
    let out = take(&mut m, AppEvent::SetCurrentJob { job_id: Some(s("j")) });
    assert_eq!(out, vec!["JobLabel { text: \"job_id: j\" }", "SaveConfig"]);
    assert!(m.can_cancel());
    assert_eq!(m.cfg.last_job_id, "j");
    let out = take(&mut m, AppEvent::SetCurrentJob { job_id: None });
    assert_eq!(out, vec!["JobLabel { text: \"job_id: -\" }", "SaveConfig"]);
    assert_eq!(m.cfg.last_job_id, "");
    assert!(!m.can_cancel());
}

#[test]
fn the_status_panel_follows_the_job() {
    let mut m = model();
    assert_eq!(take(&mut m, AppEvent::HomeState { state: s("Running") }), vec!["StateLabel { text: \"state: Running\" }"]);
    assert_eq!(take(&mut m, AppEvent::HomeProgress { progress: s("3% x") }), vec!["ProgressLabel { text: \"progress: 3% x\" }"]);
    assert_eq!(take(&mut m, AppEvent::HomeResult { result: s("ok") }), vec!["ResultLabel { text: \"result: ok\" }"]);
    assert_eq!(
        take(&mut m, AppEvent::SetCuttlefishBuildId { build_id: s("4") }),
        vec!["CuttlefishBuild { id: \"4\" }"]
    );
    assert_eq!(take(&mut m, AppEvent::HomeResetStatus), vec![
        "JobLabel { text: \"job_id: -\" }",
        "StateLabel { text: \"state: -\" }",
        "ProgressLabel { text: \"progress: -\" }",
        "ResultLabel { text: \"result: -\" }",
    ]);
}

#[test]
fn a_built_apk_is_taken_over() {
    let mut m = model();
    let out = shown(&m.take(AppEvent::SetLastBuildApk { apk_path: s("/a.apk") }, &screen(" ", "com.w"), &env()));
    assert_eq!(out, vec![
        "TargetsApk { path: \"/a.apk\" }",
        "WorkflowApk { path: \"/a.apk\" }",
        "InferFromApk { path: \"/a.apk\", targets: true, workflow: false }",
    ]);
    let out = shown(&m.apk_inferred(Some(s("com.i")), true, false));
    assert_eq!(out, vec!["TargetsApplication { id: \"com.i\" }"]);
    assert_eq!(m.ui_state.targets.application_id, "com.i");
    assert_eq!(m.ui_state.workflow.application_id, "");
    assert!(shown(&m.apk_inferred(None, true, true)).is_empty());
    let out = shown(&m.take(AppEvent::SetLastBuildApk { apk_path: s("/b") }, &screen("a", "b"), &env()));
    assert_eq!(out.len(), 2);
}

#[test]
fn lists_come_with_what_was_chosen() {
    let mut m = model();
    let out = take(&mut m, AppEvent::ToolchainAvailable { provider_id: s(PROVIDER_SDK_ID), versions: vec![s("36.0.0")] });
    assert_eq!(out, vec!["SdkVersions { versions: [\"36.0.0\"], preferred: \"36.0.0\" }"]);
    let out = take(&mut m, AppEvent::ToolchainAvailable { provider_id: s(PROVIDER_NDK_ID), versions: vec![] });
    assert_eq!(out, vec!["NdkVersions { versions: [], preferred: \"r29\" }"]);
    assert!(take(&mut m, AppEvent::ToolchainAvailable { provider_id: s("other"), versions: vec![] }).is_empty());
    let out = take(&mut m, AppEvent::ProjectTemplates {
        templates: vec![ProjectTemplateOption { id: s("t"), name: s("T") }],
    });
    assert_eq!(out.len(), 1);
    assert!(out[0].starts_with("Templates {") && out[0].ends_with("preferred: None }"));
    m.ui_state.projects.template_id = s("t");
    let out = take(&mut m, AppEvent::ProjectTemplates { templates: vec![] });
    assert_eq!(out, vec!["Templates { templates: [], preferred: Some(\"t\") }"]);
    let out = take(&mut m, AppEvent::ProjectToolchainSets {
        sets: vec![ToolchainSetOption { id: s("s"), label: s("S") }],
    });
    assert_eq!(out.len(), 2);
    assert!(out[0].ends_with("preferred: Some(\"none\") }"));
    assert_eq!(out[1], "FillProjects");
    let out = take(&mut m, AppEvent::ProjectTargets { targets: vec![TargetOption { id: s("d"), label: s("D") }] });
    assert_eq!(out[1], "FillProjects");
}

#[test]
fn a_selected_project_becomes_the_active_one() {
    let mut m = model();
    let event = |id: &str, path: &str, opened: bool| AppEvent::ProjectSelected {
        project_id: s(id),
        project_path: s(path),
        opened_existing: opened,
    };
    let out = shown(&m.take(event("p1", "/p1", true), &screen("com.a", ""), &env()));
    assert_eq!(out, vec!["TemplateNone", "SaveConfig", "Context"]);
    assert_eq!(m.ui_state.projects.template_id, "none");
    assert_eq!(m.cfg.active_project_id, "p1");
    assert_eq!(m.cfg.active_project_path, "/p1");
    assert_eq!(m.cfg.last_job_project_id, "p1");
    let out = shown(&m.take(event(" ", "/p2", false), &screen("com.example.sampleconsole", ""), &env()));
    assert_eq!(out, vec!["SaveConfig", "Context", "InferFromProject { path: \"/p2\" }"]);
    assert_eq!(m.cfg.active_project_id, "p1");
    assert_eq!(m.cfg.active_project_path, "/p2");
    let out = shown(&m.project_inferred(None, &screen("com.example.sampleconsole", "")));
    assert_eq!(out, vec!["TargetsApplication { id: \"\" }"]);
    assert_eq!(m.ui_state.targets.application_id, "");
    assert!(shown(&m.project_inferred(None, &screen(" ", ""))).is_empty());
    let out = shown(&m.project_inferred(Some(s("com.p")), &screen(" ", "")));
    assert_eq!(out, vec!["TargetsApplication { id: \"com.p\" }"]);
    assert_eq!(m.ui_state.targets.application_id, "com.p");
}

#[test]
fn the_context_is_updated_and_shown() {
    let mut m = model();
    let out = take(&mut m, AppEvent::UpdateActiveContext {
        project_id: None,
        project_path: None,
        toolchain_set_id: Some(s("s")),
        target_id: Some(s("t")),
        run_id: Some(s("r")),
    });
    assert_eq!(out, vec!["SaveConfig", "Context"]);
    assert_eq!(m.cfg.active_toolchain_set_id, "s");
    assert_eq!(m.cfg.last_job_toolchain_set_id, "s");
    assert_eq!(m.cfg.active_target_id, "t");
    assert_eq!(m.cfg.last_job_target_id, "t");
    assert_eq!(m.cfg.active_run_id, "r");
    assert_eq!(m.cfg.last_job_project_id, "");
    take(&mut m, AppEvent::UpdateActiveContext {
        project_id: Some(s(" ")),
        project_path: Some(s("/x")),
        toolchain_set_id: None,
        target_id: None,
        run_id: None,
    });
    assert_eq!(m.cfg.last_job_project_id, "/x");
}

#[test]
fn a_reset_clears_everything() {
    let mut m = model();
    m.current_job_id = Some(s("j"));
    m.ui_state.append_log("home", "x");
    let out = take(&mut m, AppEvent::ResetAllStateComplete { ok: true });
    assert_eq!(m.current_job_id, None);
    assert_eq!(m.ui_state.home.log, "");
    assert_eq!(m.cfg.active_project_id, "");
    assert_eq!(m.cfg.last_job_id, "");
    assert!(out.contains(&s("SaveConfig")));
    assert!(out.contains(&s("ClearPages")));
    assert!(out.contains(&s("State")));
    assert!(out.contains(&s("ClearStateFile")));
    assert!(!out.contains(&s("PromptProject")));
}

#[test]
fn a_failed_reset_is_told_where_a_project_waits() {
    let mut m = model();
    assert!(take(&mut m, AppEvent::ResetAllStateComplete { ok: false }).is_empty());
    assert_eq!(m.cfg.active_project_id, "p0");
    m.pending_prompt = true;
    let shows = m.take(AppEvent::ResetAllStateComplete { ok: false }, &screen("", ""), &env());
    assert!(!m.pending_prompt);
    assert_eq!(m.cfg.active_project_id, "");
    let n = shows.items.len();
    assert!(matches!(&shows.items[n - 3], Show::Append { page: "projects", line } if line == RESET_WARNING));
    assert!(matches!(&shows.items[n - 2], Show::Append { page: "settings", line } if line == RESET_WARNING));
    assert!(matches!(shows.items[n - 1], Show::PromptProject));
    assert_eq!(
        RESET_WARNING,
        "Reset did not complete; continuing to select a project folder. Check Settings for reset errors.\n"
    );
}

#[test]
fn a_reloaded_configuration_is_shown() {
    let mut m = model();
    let mut cfg = model().cfg;
    cfg.active_run_id = s("r9");
    let out = take(&mut m, AppEvent::ConfigReloaded { cfg });
    assert_eq!(m.cfg.active_run_id, "r9");
    assert_eq!(out, vec!["Context", "LoadState", "Settings"]);
    let mut file = UiState::defaults(&env());
    file.home.watch_job_id = s("w");
    assert!(m.state_read(Some(file), &env()));
    assert_eq!(m.ui_state.home.watch_job_id, "w");
    assert!(!m.state_read(None, &env()));
    assert_eq!(m.ui_state.home.watch_job_id, "");
}
