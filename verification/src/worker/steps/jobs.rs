//! The commands about jobs: how they begin, and how they go on with each answer.

use crate::commands::UiCommand;
use crate::config::AppConfig;
use crate::model::{or_empty, text_or_empty};
use crate::text::opt_text;
use crate::util::text_ref;
use crate::worker::jobs::{
    begin_cancel_current, begin_export, begin_list_history, begin_list_jobs, begin_start_job,
    begin_watch_job, cancel_answered, cancel_current, end_cancel, end_export, end_list_history,
    end_list_jobs, end_start_job, export_begun, export_job_known, export_logs, export_on_job,
    export_on_page, export_page_came, export_with_job, export_with_page, export_written,
    history_listed, job_started, jobs_listed, list_history, list_jobs, start_job, tell_failure,
    told_failure, watch_job, Export,
};
use crate::worker::phase::{at, lose, lost, over, over_turn, settle, Phase, PhaseView, StepView};
use crate::worker::reply::Reply;
use crate::worker::turn::{error, hand_on, Turn};
use vstd::prelude::*;
use vstd::string::*;

verus! {

/// How a command about jobs begins.
pub open spec fn jobs_begun(
    cmd: UiCommand,
    home: Option<Seq<char>>,
    current: Option<Seq<char>>,
    now: i64,
) -> StepView {
    match cmd {
        UiCommand::HomeStartJob {
            cfg,
            job_type,
            params_raw,
            project_id,
            target_id,
            toolchain_set_id,
            correlation_id,
        } => at(
            PhaseView::First,
            start_job(
                cfg,
                job_type@,
                params_raw@,
                project_id@,
                target_id@,
                toolchain_set_id@,
                correlation_id@,
            ),
        ),
        UiCommand::HomeWatchJob { cfg, job_id } => at(PhaseView::First, watch_job(cfg, job_id@)),
        UiCommand::JobsList {
            cfg,
            job_types,
            states,
            created_after,
            created_before,
            finished_after,
            finished_before,
            correlation_id,
            run_id,
            page_size,
            page_token,
            page,
        } => at(
            PhaseView::First,
            list_jobs(
                cfg,
                job_types@,
                states@,
                created_after@,
                created_before@,
                finished_after@,
                finished_before@,
                correlation_id@,
                run_id@,
                page_size,
                page_token@,
                page@,
            ),
        ),
        UiCommand::JobsHistory { cfg, job_id, kinds, after, before, page_size, page_token } => at(
            PhaseView::First,
            list_history(cfg, job_id@, kinds@, after@, before@, page_size, page_token@),
        ),
        UiCommand::HomeCancelCurrent { cfg } => at(PhaseView::First, cancel_current(cfg, current)),
        UiCommand::JobsExportLogs { cfg, job_id, output_path, page } => at(
            PhaseView::Export { export: export_begun(home, job_id@, output_path@, now) },
            export_logs(cfg, job_id@, page@),
        ),
        _ => lost(),
    }
}

/// Begins a command about jobs.
pub fn begin_jobs(
    cmd: &UiCommand,
    home: &Option<String>,
    current: &Option<String>,
    now: i64,
) -> (r: (Phase, Turn))
    ensures
        (StepView { phase: r.0@, turn: r.1@ }) == jobs_begun(*cmd, opt_text(*home), opt_text(*current), now),
{
    match cmd {
        UiCommand::HomeStartJob {
            cfg,
            job_type,
            params_raw,
            project_id,
            target_id,
            toolchain_set_id,
            correlation_id,
        } => settle(
            Phase::First,
            begin_start_job(
                cfg,
                job_type.as_str(),
                params_raw.as_str(),
                project_id.as_str(),
                target_id.as_str(),
                toolchain_set_id.as_str(),
                correlation_id.as_str(),
            ),
        ),
        UiCommand::HomeWatchJob { cfg, job_id } => settle(
            Phase::First,
            begin_watch_job(cfg, job_id.as_str()),
        ),
        UiCommand::JobsList {
            cfg,
            job_types,
            states,
            created_after,
            created_before,
            finished_after,
            finished_before,
            correlation_id,
            run_id,
            page_size,
            page_token,
            page,
        } => settle(
            Phase::First,
            begin_list_jobs(
                cfg,
                job_types.as_str(),
                states.as_str(),
                created_after.as_str(),
                created_before.as_str(),
                finished_after.as_str(),
                finished_before.as_str(),
                correlation_id.as_str(),
                run_id.as_str(),
                *page_size,
                page_token.as_str(),
                *page,
            ),
        ),
        UiCommand::JobsHistory { cfg, job_id, kinds, after, before, page_size, page_token } => settle(
            Phase::First,
            begin_list_history(
                cfg,
                job_id.as_str(),
                kinds.as_str(),
                after.as_str(),
                before.as_str(),
                *page_size,
                page_token.as_str(),
            ),
        ),
        UiCommand::HomeCancelCurrent { cfg } => settle(
            Phase::First,
            begin_cancel_current(cfg, current),
        ),
        UiCommand::JobsExportLogs { cfg, job_id, output_path, page } => {
            let (export, turn): (Export, Turn) = begin_export(
                cfg,
                text_ref(home),
                job_id.as_str(),
                output_path.as_str(),
                *page,
                now,
            );
            settle(Phase::Export { export }, turn)
        },
        _ => lose(),
    }
}

/// How the export of a job's log goes on.
pub open spec fn export_step(
    cfg: AppConfig,
    page: Seq<char>,
    phase: PhaseView,
    reply: Reply,
    now: i64,
) -> StepView {
    match phase {
        PhaseView::Export { export } => match reply {
            Reply::JobFound { job } => at(
                PhaseView::ExportPages { export: export_with_job(export, job) },
                export_job_known(cfg, export, page, None),
            ),
            Reply::Failed { failure } => if failure.connecting {
                over(error(failure.error@))
            } else {
                at(
                    PhaseView::ExportPages { export: export_with_job(export, None) },
                    export_job_known(cfg, export, page, Some(failure.error@)),
                )
            },
            _ => lost(),
        },
        PhaseView::ExportPages { export } => match reply {
            Reply::History { events, next_page_token } => {
                let e = export_with_page(export, events@);
                at(
                    if or_empty(opt_text(next_page_token)).len() == 0 {
                        PhaseView::ExportWritten { path: e.path }
                    } else {
                        PhaseView::ExportPages { export: e }
                    },
                    export_page_came(cfg, e, opt_text(next_page_token), now),
                )
            },
            Reply::Failed { failure } => over(error(failure.error@)),
            _ => lost(),
        },
        PhaseView::ExportWritten { path } => match reply {
            Reply::Finished => over(export_written(page, path)),
            Reply::Failed { failure } => over(error(failure.error@)),
            _ => lost(),
        },
        _ => lost(),
    }
}

fn export_job(cfg: &AppConfig, page: &'static str, export: Export, reply: Reply) -> (r: (
    Phase,
    Turn,
))
    ensures
        (StepView { phase: r.0@, turn: r.1@ }) == export_step(
            *cfg,
            page@,
            PhaseView::Export { export: export@ },
            reply,
            0,
        ),
{
    match reply {
        Reply::JobFound { job } => {
            let (next, turn): (Export, Turn) = export_on_job(cfg, export, page, &job, &None);
            settle(Phase::ExportPages { export: next }, turn)
        },
        Reply::Failed { failure } => {
            if failure.connecting {
                over_turn(hand_on(failure.error))
            } else {
                let (next, turn): (Export, Turn) = export_on_job(
                    cfg,
                    export,
                    page,
                    &None,
                    &Some(failure.error),
                );
                settle(Phase::ExportPages { export: next }, turn)
            }
        },
        _ => lose(),
    }
}

fn export_pages(cfg: &AppConfig, page: &'static str, export: Export, reply: Reply, now: i64) -> (r:
    (Phase, Turn))
    ensures
        (StepView { phase: r.0@, turn: r.1@ }) == export_step(
            *cfg,
            page@,
            PhaseView::ExportPages { export: export@ },
            reply,
            now,
        ),
{
    match reply {
        Reply::History { events, next_page_token } => {
            let (e, turn): (Export, Turn) = export_on_page(
                cfg,
                export,
                &events,
                &next_page_token,
                now,
            );
            let token: String = text_or_empty(&next_page_token);
            let phase: Phase = if token.as_str().is_empty() {
                Phase::ExportWritten { path: e.path.clone() }
            } else {
                Phase::ExportPages { export: e }
            };
            settle(phase, turn)
        },
        Reply::Failed { failure } => over_turn(hand_on(failure.error)),
        _ => lose(),
    }
}

fn step_export(cfg: &AppConfig, page: &'static str, phase: Phase, reply: Reply, now: i64) -> (r: (
    Phase,
    Turn,
))
    ensures
        (StepView { phase: r.0@, turn: r.1@ }) == export_step(*cfg, page@, phase@, reply, now),
{
    match phase {
        Phase::Export { export } => export_job(cfg, page, export, reply),
        Phase::ExportPages { export } => export_pages(cfg, page, export, reply, now),
        Phase::ExportWritten { path } => match reply {
            Reply::Finished => over_turn(end_export(page, path.as_str())),
            Reply::Failed { failure } => over_turn(hand_on(failure.error)),
            _ => lose(),
        },
        _ => lose(),
    }
}

/// How a command about jobs goes on with an answer.
pub open spec fn jobs_step(cmd: UiCommand, phase: PhaseView, reply: Reply, now: i64) -> StepView {
    match cmd {
        UiCommand::HomeStartJob { cfg, job_type, .. } => match reply {
            Reply::Queued { job_id } => over(job_started(cfg, job_type@, opt_text(job_id))),
            Reply::Failed { failure } => over(error(failure.error@)),
            _ => lost(),
        },
        UiCommand::HomeCancelCurrent { .. } => match reply {
            Reply::CancelAccepted { accepted } => over(cancel_answered(accepted)),
            Reply::Failed { failure } => over(error(failure.error@)),
            _ => lost(),
        },
        UiCommand::JobsList { page, .. } => match reply {
            Reply::Jobs { jobs, next_page_token } => over(
                jobs_listed(page@, jobs@, opt_text(next_page_token)),
            ),
            Reply::Failed { failure } => over(error(failure.error@)),
            _ => lost(),
        },
        UiCommand::JobsHistory { .. } => match reply {
            Reply::History { events, next_page_token } => over(
                history_listed(events@, opt_text(next_page_token)),
            ),
            Reply::Failed { failure } => over(
                told_failure(
                    "jobs"@,
                    "JobService"@,
                    "List job history failed: "@,
                    failure.connecting,
                    failure.error@,
                ),
            ),
            _ => lost(),
        },
        UiCommand::JobsExportLogs { cfg, page, .. } => export_step(cfg, page@, phase, reply, now),
        _ => lost(),
    }
}

/// Takes an answer to a command about jobs and goes on.
pub fn step_jobs(cmd: &UiCommand, phase: Phase, reply: Reply, now: i64) -> (r: (Phase, Turn))
    ensures
        (StepView { phase: r.0@, turn: r.1@ }) == jobs_step(*cmd, phase@, reply, now),
{
    match cmd {
        UiCommand::HomeStartJob { cfg, job_type, .. } => match reply {
            Reply::Queued { job_id } => over_turn(end_start_job(cfg, job_type.as_str(), &job_id)),
            Reply::Failed { failure } => over_turn(hand_on(failure.error)),
            _ => lose(),
        },
        UiCommand::HomeCancelCurrent { .. } => match reply {
            Reply::CancelAccepted { accepted } => over_turn(end_cancel(accepted)),
            Reply::Failed { failure } => over_turn(hand_on(failure.error)),
            _ => lose(),
        },
        UiCommand::JobsList { page, .. } => match reply {
            Reply::Jobs { jobs, next_page_token } => over_turn(
                end_list_jobs(*page, &jobs, &next_page_token),
            ),
            Reply::Failed { failure } => over_turn(hand_on(failure.error)),
            _ => lose(),
        },
        UiCommand::JobsHistory { .. } => match reply {
            Reply::History { events, next_page_token } => over_turn(
                end_list_history(&events, &next_page_token),
            ),
            Reply::Failed { failure } => over_turn(
                tell_failure("jobs", "JobService", "List job history failed: ", &failure),
            ),
            _ => lose(),
        },
        UiCommand::JobsExportLogs { cfg, page, .. } => step_export(cfg, *page, phase, reply, now),
        _ => lose(),
    }
}

} // verus!
