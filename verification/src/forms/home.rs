//! The job control page.

use crate::commands::UiCommand;
use crate::config::AppConfig;
use crate::text::{blank, is_blank};
use crate::ui_state::HomeState;
use vstd::prelude::*;
use vstd::string::*;

verus! {

/// The button that starts a job: what was typed is kept as what was used last.
pub fn start_job(cfg: &mut AppConfig, form: &HomeState) -> (r: UiCommand)
    ensures
        *final(cfg) == (AppConfig {
            last_job_type: form.job_type,
            last_job_params: form.job_params,
            last_job_project_id: form.project_id,
            last_job_target_id: form.target_id,
            last_job_toolchain_set_id: form.toolchain_set_id,
            last_correlation_id: form.correlation_id,
            ..*old(cfg)
        }),
        r == (UiCommand::HomeStartJob {
            cfg: *final(cfg),
            job_type: form.job_type,
            params_raw: form.job_params,
            project_id: form.project_id,
            target_id: form.target_id,
            toolchain_set_id: form.toolchain_set_id,
            correlation_id: form.correlation_id,
        }),
{
    cfg.last_job_type = form.job_type.clone();
    cfg.last_job_params = form.job_params.clone();
    cfg.last_job_project_id = form.project_id.clone();
    cfg.last_job_target_id = form.target_id.clone();
    cfg.last_job_toolchain_set_id = form.toolchain_set_id.clone();
    cfg.last_correlation_id = form.correlation_id.clone();
    UiCommand::HomeStartJob {
        cfg: cfg.clone(),
        job_type: form.job_type.clone(),
        params_raw: form.job_params.clone(),
        project_id: form.project_id.clone(),
        target_id: form.target_id.clone(),
        toolchain_set_id: form.toolchain_set_id.clone(),
        correlation_id: form.correlation_id.clone(),
    }
}

/// The button that watches a job: it does nothing without one.
pub fn watch_job(cfg: &mut AppConfig, form: &HomeState) -> (r: Option<UiCommand>)
    ensures
        if blank(form.watch_job_id@) {
            *final(cfg) == *old(cfg) && r is None
        } else {
            &&& *final(cfg) == (AppConfig { last_job_id: form.watch_job_id, ..*old(cfg) })
            &&& r == Some(
                UiCommand::HomeWatchJob { cfg: *final(cfg), job_id: form.watch_job_id },
            )
        },
{
    if is_blank(form.watch_job_id.as_str()) {
        return None;
    }
    cfg.last_job_id = form.watch_job_id.clone();
    Some(UiCommand::HomeWatchJob { cfg: cfg.clone(), job_id: form.watch_job_id.clone() })
}

/// The kinds of jobs that the page offers.
pub fn known_job_types() -> (r: Vec<&'static str>)
    ensures
        r@.len() == 13,
        r@[0]@ == "workflow.pipeline"@,
        r@[1]@ == "project.create"@,
        r@[2]@ == "build.run"@,
        r@[3]@ == "toolchain.install"@,
        r@[4]@ == "toolchain.verify"@,
        r@[5]@ == "targets.install"@,
        r@[6]@ == "targets.launch"@,
        r@[7]@ == "targets.stop"@,
        r@[8]@ == "targets.cuttlefish.install"@,
        r@[9]@ == "targets.cuttlefish.start"@,
        r@[10]@ == "targets.cuttlefish.stop"@,
        r@[11]@ == "observe.support_bundle"@,
        r@[12]@ == "observe.evidence_bundle"@,
{
    let mut v: Vec<&'static str> = Vec::new();
    v.push("workflow.pipeline");
    v.push("project.create");
    v.push("build.run");
    v.push("toolchain.install");
    v.push("toolchain.verify");
    v.push("targets.install");
    v.push("targets.launch");
    v.push("targets.stop");
    v.push("targets.cuttlefish.install");
    v.push("targets.cuttlefish.start");
    v.push("targets.cuttlefish.stop");
    v.push("observe.support_bundle");
    v.push("observe.evidence_bundle");
    v
}

} // verus!
