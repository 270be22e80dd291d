//! The evidence page.

use crate::commands::UiCommand;
use crate::config::AppConfig;
use crate::forms::jobs::{number_or, typed_number};
use crate::forms::shared::{choose_job, job_choice, remember, remembered, typed_or};
use crate::model::RunOutputKind;
use crate::text::is_blank;
use crate::ui_state::EvidenceState;
use vstd::prelude::*;
use vstd::string::*;

verus! {

/// The kind of outputs at a place in the list of kinds.
pub open spec fn kind_at(index: u32) -> RunOutputKind {
    if index == 1 {
        RunOutputKind::Bundle
    } else if index == 2 {
        RunOutputKind::Artifact
    } else {
        RunOutputKind::Unspecified
    }
}

fn kind_of(index: u32) -> (r: RunOutputKind)
    ensures
        r == kind_at(index),
{
    if index == 1 {
        RunOutputKind::Bundle
    } else if index == 2 {
        RunOutputKind::Artifact
    } else {
        RunOutputKind::Unspecified
    }
}

/// The button that lists runs.
pub fn list_runs(cfg: &AppConfig, form: &EvidenceState) -> (r: UiCommand)
    ensures
        r matches UiCommand::ObserveListRuns {
            cfg: c,
            run_id,
            correlation_id,
            result,
            page_size,
            page_token,
            page,
        } && {
            &&& c == *cfg
            &&& run_id == form.run_id
            &&& correlation_id == form.correlation_id
            &&& result@.len() == 0
            &&& page_size == 25
            &&& page_token@.len() == 0
            &&& page@ == "evidence"@
        },
{
    UiCommand::ObserveListRuns {
        cfg: cfg.clone(),
        run_id: form.run_id.clone(),
        correlation_id: form.correlation_id.clone(),
        result: String::new(),
        page_size: 25,
        page_token: String::new(),
        page: "evidence",
    }
}

/// The button that lists the jobs of a run.
pub fn list_jobs(cfg: &AppConfig, form: &EvidenceState) -> (r: UiCommand)
    ensures
        r matches UiCommand::JobsList {
            cfg: c,
            job_types,
            states,
            created_after,
            created_before,
            finished_after,
            finished_before,
            correlation_id,
            run_id,
            page_size,
            page_token,
            page,
        } && {
            &&& c == *cfg
            &&& job_types@.len() == 0
            &&& states@.len() == 0
            &&& created_after@.len() == 0
            &&& created_before@.len() == 0
            &&& finished_after@.len() == 0
            &&& finished_before@.len() == 0
            &&& correlation_id == form.correlation_id
            &&& run_id == form.run_id
            &&& page_size == 200
            &&& page_token@.len() == 0
            &&& page@ == "evidence"@
        },
{
    UiCommand::JobsList {
        cfg: cfg.clone(),
        job_types: String::new(),
        states: String::new(),
        created_after: String::new(),
        created_before: String::new(),
        finished_after: String::new(),
        finished_before: String::new(),
        correlation_id: form.correlation_id.clone(),
        run_id: form.run_id.clone(),
        page_size: 200,
        page_token: String::new(),
        page: "evidence",
    }
}

/// The button that follows a run.
pub fn follow_run(cfg: &AppConfig, form: &EvidenceState) -> (r: UiCommand)
    ensures
        r matches UiCommand::StreamRunEvents {
            cfg: c,
            run_id,
            correlation_id,
            include_history,
            page,
        } && {
            &&& c == *cfg
            &&& run_id == form.run_id
            &&& correlation_id == form.correlation_id
            &&& include_history == form.include_history
            &&& page@ == "evidence"@
        },
{
    UiCommand::StreamRunEvents {
        cfg: cfg.clone(),
        run_id: form.run_id.clone(),
        correlation_id: form.correlation_id.clone(),
        include_history: form.include_history,
        page: "evidence",
    }
}

/// The button that lists what a run put out.
pub fn list_outputs(cfg: &AppConfig, form: &EvidenceState) -> (r: UiCommand)
    ensures
        r matches UiCommand::ObserveListOutputs {
            cfg: c,
            run_id,
            kind,
            output_type,
            path_contains,
            label_contains,
            page_size,
            page_token,
            page,
        } && {
            &&& c == *cfg
            &&& run_id == form.run_id
            &&& kind == kind_at(form.output_kind_index)
            &&& output_type == form.output_type
            &&& path_contains == form.output_path
            &&& label_contains == form.output_label
            &&& page_size == 50
            &&& page_token@.len() == 0
            &&& page@ == "evidence"@
        },
{
    UiCommand::ObserveListOutputs {
        cfg: cfg.clone(),
        run_id: form.run_id.clone(),
        kind: kind_of(form.output_kind_index),
        output_type: form.output_type.clone(),
        path_contains: form.output_path.clone(),
        label_contains: form.output_label.clone(),
        page_size: 50,
        page_token: String::new(),
        page: "evidence",
    }
}

/// The button that exports a support bundle.
pub fn export_support(cfg: &mut AppConfig, form: &EvidenceState) -> (r: UiCommand)
    ensures
        *final(cfg) == remembered(*old(cfg), form.job_id, form.correlation_id),
        r matches UiCommand::ObserveExportSupport {
            cfg: c,
            include_logs,
            include_config,
            include_toolchain_provenance,
            include_recent_runs,
            recent_runs_limit,
            job_id,
            correlation_id,
            page,
        } && {
            &&& c == *final(cfg)
            &&& include_logs == form.include_logs
            &&& include_config == form.include_config
            &&& include_toolchain_provenance == form.include_toolchain
            &&& include_recent_runs == form.include_recent
            &&& recent_runs_limit == number_or(form.recent_limit@, 10)
            &&& job_id == job_choice(form.use_job_id, form.job_id)
            &&& correlation_id == form.correlation_id
            &&& page@ == "evidence"@
        },
{
    remember(cfg, &form.job_id, &form.correlation_id);
    UiCommand::ObserveExportSupport {
        cfg: cfg.clone(),
        include_logs: form.include_logs,
        include_config: form.include_config,
        include_toolchain_provenance: form.include_toolchain,
        include_recent_runs: form.include_recent,
        recent_runs_limit: typed_number(form.recent_limit.as_str(), 10),
        job_id: choose_job(form.use_job_id, &form.job_id),
        correlation_id: form.correlation_id.clone(),
        page: "evidence",
    }
}

/// The button that exports an evidence bundle.
pub fn export_evidence(cfg: &mut AppConfig, form: &EvidenceState) -> (r: UiCommand)
    ensures
        *final(cfg) == remembered(*old(cfg), form.job_id, form.correlation_id),
        r matches UiCommand::ObserveExportEvidence {
            cfg: c,
            run_id,
            job_id,
            correlation_id,
            page,
        } && {
            &&& c == *final(cfg)
            &&& run_id == form.run_id
            &&& job_id == job_choice(form.use_job_id, form.job_id)
            &&& correlation_id == form.correlation_id
            &&& page@ == "evidence"@
        },
{
    remember(cfg, &form.job_id, &form.correlation_id);
    UiCommand::ObserveExportEvidence {
        cfg: cfg.clone(),
        run_id: form.run_id.clone(),
        job_id: choose_job(form.use_job_id, &form.job_id),
        correlation_id: form.correlation_id.clone(),
        page: "evidence",
    }
}

/// The button that exports the log of a job.
pub fn export_job_logs(cfg: &mut AppConfig, form: &EvidenceState) -> (r: UiCommand)
    ensures
        *final(cfg) == (AppConfig {
            last_job_id: typed_or(form.job_id, old(cfg).last_job_id),
            ..*old(cfg)
        }),
        r matches UiCommand::JobsExportLogs { cfg: c, job_id, output_path, page } && {
            &&& c == *final(cfg)
            &&& job_id == form.job_id
            &&& output_path == form.job_log_output_path
            &&& page@ == "evidence"@
        },
{
    if !is_blank(form.job_id.as_str()) {
        cfg.last_job_id = form.job_id.clone();
    }
    UiCommand::JobsExportLogs {
        cfg: cfg.clone(),
        job_id: form.job_id.clone(),
        output_path: form.job_log_output_path.clone(),
        page: "evidence",
    }
}

/// The kinds of outputs stand in the list in a row: any, bundles, artifacts.
pub proof fn law_kinds(index: u32)
    ensures
        kind_at(index) == RunOutputKind::Bundle <==> index == 1,
        kind_at(index) == RunOutputKind::Artifact <==> index == 2,
        kind_at(index) == RunOutputKind::Unspecified <==> index != 1 && index != 2,
{
}

} // verus!
