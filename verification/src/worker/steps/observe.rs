//! The commands about runs: how they begin, and how they go on with each answer.

use crate::commands::UiCommand;
use crate::text::opt_text;
use crate::worker::observe::{
    begin_export_evidence, begin_export_support, begin_follow_run, begin_list_outputs,
    begin_list_runs, bundle_queued, end_bundle, end_list_outputs, end_list_runs, export_evidence,
    export_support, follow_run, list_outputs, list_runs, outputs_listed, runs_listed,
};
use crate::worker::phase::{at, lose, lost, over, over_turn, settle, Phase, PhaseView, StepView};
use crate::worker::reply::Reply;
use crate::worker::turn::{error, hand_on, Turn};
use vstd::prelude::*;
use vstd::string::*;

verus! {

/// How a command about runs begins.
pub open spec fn observe_begun(cmd: UiCommand) -> StepView {
    match cmd {
        UiCommand::ObserveListRuns {
            cfg,
            run_id,
            correlation_id,
            result,
            page_size,
            page_token,
            page,
        } => at(
            PhaseView::First,
            list_runs(cfg, run_id@, correlation_id@, result@, page_size, page_token@, page@),
        ),
        UiCommand::ObserveListOutputs {
            cfg,
            run_id,
            kind,
            output_type,
            path_contains,
            label_contains,
            page_size,
            page_token,
            page,
        } => at(
            PhaseView::First,
            list_outputs(
                cfg,
                run_id@,
                kind,
                output_type@,
                path_contains@,
                label_contains@,
                page_size,
                page_token@,
                page@,
            ),
        ),
        UiCommand::ObserveExportSupport {
            cfg,
            include_logs,
            include_config,
            include_toolchain_provenance,
            include_recent_runs,
            recent_runs_limit,
            job_id,
            correlation_id,
            page,
        } => at(
            PhaseView::First,
            export_support(
                cfg,
                include_logs,
                include_config,
                include_toolchain_provenance,
                include_recent_runs,
                recent_runs_limit,
                opt_text(job_id),
                correlation_id@,
                page@,
            ),
        ),
        UiCommand::ObserveExportEvidence { cfg, run_id, job_id, correlation_id, page } => at(
            PhaseView::First,
            export_evidence(cfg, run_id@, opt_text(job_id), correlation_id@, page@),
        ),
        UiCommand::StreamRunEvents { cfg, run_id, correlation_id, include_history, page } => at(
            PhaseView::First,
            follow_run(cfg, run_id@, correlation_id@, include_history, page@),
        ),
        _ => lost(),
    }
}

/// Begins a command about runs.
pub fn begin_observe(cmd: &UiCommand) -> (r: (Phase, Turn))
    ensures
        (StepView { phase: r.0@, turn: r.1@ }) == observe_begun(*cmd),
{
    match cmd {
        UiCommand::ObserveListRuns {
            cfg,
            run_id,
            correlation_id,
            result,
            page_size,
            page_token,
            page,
        } => settle(
            Phase::First,
            begin_list_runs(
                cfg,
                run_id.as_str(),
                correlation_id.as_str(),
                result.as_str(),
                *page_size,
                page_token.as_str(),
                *page,
            ),
        ),
        UiCommand::ObserveListOutputs {
            cfg,
            run_id,
            kind,
            output_type,
            path_contains,
            label_contains,
            page_size,
            page_token,
            page,
        } => settle(
            Phase::First,
            begin_list_outputs(
                cfg,
                run_id.as_str(),
                *kind,
                output_type.as_str(),
                path_contains.as_str(),
                label_contains.as_str(),
                *page_size,
                page_token.as_str(),
                *page,
            ),
        ),
        UiCommand::ObserveExportSupport {
            cfg,
            include_logs,
            include_config,
            include_toolchain_provenance,
            include_recent_runs,
            recent_runs_limit,
            job_id,
            correlation_id,
            page,
        } => settle(
            Phase::First,
            begin_export_support(
                cfg,
                *include_logs,
                *include_config,
                *include_toolchain_provenance,
                *include_recent_runs,
                *recent_runs_limit,
                job_id,
                correlation_id.as_str(),
                *page,
            ),
        ),
        UiCommand::ObserveExportEvidence { cfg, run_id, job_id, correlation_id, page } => settle(
            Phase::First,
            begin_export_evidence(cfg, run_id.as_str(), job_id, correlation_id.as_str(), *page),
        ),
        UiCommand::StreamRunEvents { cfg, run_id, correlation_id, include_history, page } => settle(
            Phase::First,
            begin_follow_run(
                cfg,
                run_id.as_str(),
                correlation_id.as_str(),
                *include_history,
                *page,
            ),
        ),
        _ => lose(),
    }
}

/// How a command about runs goes on with an answer.
pub open spec fn observe_step(cmd: UiCommand, reply: Reply) -> StepView {
    match cmd {
        UiCommand::ObserveListRuns { page, .. } => match reply {
            Reply::Runs { runs, next_page_token } => over(
                runs_listed(page@, runs@, opt_text(next_page_token)),
            ),
            Reply::Failed { failure } => over(error(failure.error@)),
            _ => lost(),
        },
        UiCommand::ObserveListOutputs { page, .. } => match reply {
            Reply::Outputs { summary, outputs, next_page_token } => over(
                outputs_listed(page@, summary, outputs@, opt_text(next_page_token)),
            ),
            Reply::Failed { failure } => over(error(failure.error@)),
            _ => lost(),
        },
        UiCommand::ObserveExportSupport { cfg, page, .. } => match reply {
            Reply::Bundle { job_id: queued_id, output_path } => over(
                bundle_queued(
                    cfg,
                    page@,
                    "Support bundle job: "@,
                    opt_text(queued_id),
                    output_path@,
                ),
            ),
            Reply::Failed { failure } => over(error(failure.error@)),
            _ => lost(),
        },
        UiCommand::ObserveExportEvidence { cfg, page, .. } => match reply {
            Reply::Bundle { job_id: queued_id, output_path } => over(
                bundle_queued(
                    cfg,
                    page@,
                    "Evidence bundle job: "@,
                    opt_text(queued_id),
                    output_path@,
                ),
            ),
            Reply::Failed { failure } => over(error(failure.error@)),
            _ => lost(),
        },
        _ => lost(),
    }
}

/// Takes an answer to a command about runs and goes on.
pub fn step_observe(cmd: &UiCommand, reply: Reply) -> (r: (Phase, Turn))
    ensures
        (StepView { phase: r.0@, turn: r.1@ }) == observe_step(*cmd, reply),
{
    match cmd {
        UiCommand::ObserveListRuns { page, .. } => match reply {
            Reply::Runs { runs, next_page_token } => over_turn(
                end_list_runs(*page, &runs, &next_page_token),
            ),
            Reply::Failed { failure } => over_turn(hand_on(failure.error)),
            _ => lose(),
        },
        UiCommand::ObserveListOutputs { page, .. } => match reply {
            Reply::Outputs { summary, outputs, next_page_token } => over_turn(
                end_list_outputs(*page, &summary, &outputs, &next_page_token),
            ),
            Reply::Failed { failure } => over_turn(hand_on(failure.error)),
            _ => lose(),
        },
        UiCommand::ObserveExportSupport { cfg, page, .. } => match reply {
            Reply::Bundle { job_id: queued_id, output_path } => over_turn(
                end_bundle(cfg, *page, "Support bundle job: ", &queued_id, output_path.as_str()),
            ),
            Reply::Failed { failure } => over_turn(hand_on(failure.error)),
            _ => lose(),
        },
        UiCommand::ObserveExportEvidence { cfg, page, .. } => match reply {
            Reply::Bundle { job_id: queued_id, output_path } => over_turn(
                end_bundle(cfg, *page, "Evidence bundle job: ", &queued_id, output_path.as_str()),
            ),
            Reply::Failed { failure } => over_turn(hand_on(failure.error)),
            _ => lose(),
        },
        _ => lose(),
    }
}

} // verus!
