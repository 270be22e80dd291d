//! The commands about pipelines and builds: how they begin, and how they go on with each answer.

use crate::commands::UiCommand;
use crate::model::kvs;
use crate::text::{opt_text, texts};
use crate::worker::builds::{
    artifacts_listed, begin_list_artifacts, begin_run_build, begin_run_pipeline, build_started,
    end_list_artifacts, end_run_build, end_run_pipeline, list_artifacts, pipeline_started,
    run_build, run_pipeline,
};
use crate::worker::jobs::{tell_failure, tell_refusal, told_failure, told_refusal};
use crate::worker::phase::{at, lose, lost, over, over_turn, settle, Phase, PhaseView, StepView};
use crate::worker::reply::Reply;
use crate::worker::turn::Turn;
use vstd::prelude::*;
use vstd::string::*;

verus! {

/// How a command about pipelines and builds begins.
pub open spec fn builds_begun(cmd: UiCommand) -> StepView {
    match cmd {
        UiCommand::WorkflowRunPipeline {
            cfg,
            run_id,
            correlation_id,
            job_id,
            project_id,
            project_path,
            project_name,
            template_id,
            toolchain_id,
            toolchain_set_id,
            target_id,
            build_variant,
            module,
            variant_name,
            tasks,
            apk_path,
            application_id,
            activity,
            options,
            ..
        } => at(
            PhaseView::First,
            run_pipeline(
                cfg,
                run_id@,
                correlation_id@,
                opt_text(job_id),
                project_id@,
                project_path@,
                project_name@,
                template_id@,
                toolchain_id@,
                toolchain_set_id@,
                target_id@,
                build_variant,
                module@,
                variant_name@,
                texts(tasks@),
                apk_path@,
                application_id@,
                activity@,
                options,
            ),
        ),
        UiCommand::BuildRun {
            cfg,
            project_ref,
            variant,
            variant_name,
            module,
            tasks,
            clean_first,
            gradle_args,
            job_id,
            correlation_id,
        } => at(
            PhaseView::First,
            run_build(
                cfg,
                project_ref@,
                variant,
                variant_name@,
                module@,
                texts(tasks@),
                clean_first,
                kvs(gradle_args@),
                opt_text(job_id),
                correlation_id@,
            ),
        ),
        UiCommand::BuildListArtifacts { cfg, project_ref, variant, filter } => at(
            PhaseView::First,
            list_artifacts(cfg, project_ref@, variant, filter),
        ),
        _ => lost(),
    }
}

/// Begins a command about builds and pipelines.
pub fn begin_builds(cmd: &UiCommand) -> (r: (Phase, Turn))
    ensures
        (StepView { phase: r.0@, turn: r.1@ }) == builds_begun(*cmd),
{
    match cmd {
        UiCommand::WorkflowRunPipeline {
            cfg,
            run_id,
            correlation_id,
            job_id,
            project_id,
            project_path,
            project_name,
            template_id,
            toolchain_id,
            toolchain_set_id,
            target_id,
            build_variant,
            module,
            variant_name,
            tasks,
            apk_path,
            application_id,
            activity,
            options,
            ..
        } => settle(
            Phase::First,
            begin_run_pipeline(
                cfg,
                run_id.as_str(),
                correlation_id.as_str(),
                job_id,
                project_id.as_str(),
                project_path.as_str(),
                project_name.as_str(),
                template_id.as_str(),
                toolchain_id.as_str(),
                toolchain_set_id.as_str(),
                target_id.as_str(),
                *build_variant,
                module.as_str(),
                variant_name.as_str(),
                tasks,
                apk_path.as_str(),
                application_id.as_str(),
                activity.as_str(),
                *options,
            ),
        ),
        UiCommand::BuildRun {
            cfg,
            project_ref,
            variant,
            variant_name,
            module,
            tasks,
            clean_first,
            gradle_args,
            job_id,
            correlation_id,
        } => settle(
            Phase::First,
            begin_run_build(
                cfg,
                project_ref.as_str(),
                *variant,
                variant_name.as_str(),
                module.as_str(),
                tasks,
                *clean_first,
                gradle_args,
                job_id,
                correlation_id.as_str(),
            ),
        ),
        UiCommand::BuildListArtifacts { cfg, project_ref, variant, filter } => settle(
            Phase::First,
            begin_list_artifacts(cfg, project_ref.as_str(), *variant, filter),
        ),
        _ => lose(),
    }
}

/// How a command about pipelines and builds goes on with an answer.
pub open spec fn builds_step(cmd: UiCommand, reply: Reply) -> StepView {
    match cmd {
        UiCommand::WorkflowRunPipeline {
            cfg,
            run_id,
            correlation_id,
            project_id,
            project_path,
            toolchain_set_id,
            target_id,
            stream_history,
            ..
        } => match reply {
            Reply::PipelineStarted { run_id: run, job_id: job, project_id: project, outputs } => over(
                pipeline_started(
                    cfg,
                    run_id@,
                    correlation_id@,
                    project_id@,
                    project_path@,
                    toolchain_set_id@,
                    target_id@,
                    stream_history,
                    opt_text(run),
                    opt_text(job),
                    opt_text(project),
                    kvs(outputs@),
                ),
            ),
            Reply::Failed { failure } => over(
                told_failure(
                    "workflow"@,
                    "WorkflowService"@,
                    "RunPipeline failed: "@,
                    failure.connecting,
                    failure.error@,
                ),
            ),
            _ => lost(),
        },
        UiCommand::BuildRun { cfg, .. } => match reply {
            Reply::Queued { job_id: queued_id } => over(build_started(cfg, opt_text(queued_id))),
            Reply::Failed { failure } => over(
                told_failure(
                    "console"@,
                    "BuildService"@,
                    "Build request failed: "@,
                    failure.connecting,
                    failure.error@,
                ),
            ),
            _ => lost(),
        },
        UiCommand::BuildListArtifacts { .. } => match reply {
            Reply::Artifacts { artifacts } => over(artifacts_listed(artifacts@)),
            Reply::Failed { failure } => over(
                told_refusal(
                    "console"@,
                    "List artifacts failed: "@,
                    failure.connecting,
                    failure.error@,
                ),
            ),
            _ => lost(),
        },
        _ => lost(),
    }
}

/// Takes an answer to a command about builds and pipelines and goes on.
pub fn step_builds(cmd: &UiCommand, reply: Reply) -> (r: (Phase, Turn))
    ensures
        (StepView { phase: r.0@, turn: r.1@ }) == builds_step(*cmd, reply),
{
    match cmd {
        UiCommand::WorkflowRunPipeline {
            cfg,
            run_id,
            correlation_id,
            project_id,
            project_path,
            toolchain_set_id,
            target_id,
            stream_history,
            ..
        } => match reply {
            Reply::PipelineStarted { run_id: run, job_id: job, project_id: project, outputs } => over_turn(
                end_run_pipeline(
                    cfg,
                    run_id.as_str(),
                    correlation_id.as_str(),
                    project_id.as_str(),
                    project_path.as_str(),
                    toolchain_set_id.as_str(),
                    target_id.as_str(),
                    *stream_history,
                    &run,
                    &job,
                    &project,
                    &outputs,
                ),
            ),
            Reply::Failed { failure } => over_turn(
                tell_failure("workflow", "WorkflowService", "RunPipeline failed: ", &failure),
            ),
            _ => lose(),
        },
        UiCommand::BuildRun { cfg, .. } => match reply {
            Reply::Queued { job_id: queued_id } => over_turn(end_run_build(cfg, &queued_id)),
            Reply::Failed { failure } => over_turn(
                tell_failure("console", "BuildService", "Build request failed: ", &failure),
            ),
            _ => lose(),
        },
        UiCommand::BuildListArtifacts { .. } => match reply {
            Reply::Artifacts { artifacts } => over_turn(end_list_artifacts(&artifacts)),
            Reply::Failed { failure } => over_turn(
                tell_refusal("console", "List artifacts failed: ", failure),
            ),
            _ => lose(),
        },
        _ => lose(),
    }
}

} // verus!
