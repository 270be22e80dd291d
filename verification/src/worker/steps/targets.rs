//! The commands about targets: how they begin, and how they go on with each answer.

use crate::commands::UiCommand;
use crate::config::AppConfig;
use crate::job_events::lossy_text;
use crate::text::{blank, is_blank, opt_text};
use crate::worker::jobs::{
    end_queued, queued, tell_failure, tell_refusal, told_failure, told_refusal,
};
use crate::worker::phase::{at, lose, lost, over, over_turn, settle, Phase, PhaseView, StepView};
use crate::worker::reply::Reply;
use crate::worker::targets::{
    begin_cuttlefish_status, begin_get_default, begin_install_apk, begin_install_cuttlefish,
    begin_launch, begin_list_targets, begin_resolve_build, begin_set_default,
    begin_start_cuttlefish, begin_stop_cuttlefish, begin_stream_logcat, build_resolved,
    cuttlefish_status, cuttlefish_told, default_found, default_set, end_cuttlefish_status,
    end_get_default, end_list_targets, end_resolve_build, end_set_default, get_default, install_apk,
    install_cuttlefish, launch, launch_inferred, launch_on_inferred, list_targets, logcat_broken,
    logcat_on_break, logcat_on_bytes, logcat_said, resolve_build, set_default, start_cuttlefish,
    stop_cuttlefish, stream_logcat, targets_listed,
};
use crate::worker::turn::{done, error, finish, hand_on, Out, Turn};
use vstd::prelude::*;
use vstd::string::*;

verus! {

/// How a command about targets begins.
pub open spec fn targets_begun(cmd: UiCommand) -> StepView {
    match cmd {
        UiCommand::TargetsList { cfg } => at(PhaseView::First, list_targets(cfg)),
        UiCommand::TargetsSetDefault { cfg, target_id } => at(
            PhaseView::First,
            set_default(cfg, target_id@),
        ),
        UiCommand::TargetsGetDefault { cfg } => at(PhaseView::First, get_default(cfg)),
        UiCommand::TargetsInstallCuttlefish {
            cfg,
            force,
            branch,
            target,
            build_id,
            job_id,
            correlation_id,
        } => at(
            PhaseView::First,
            install_cuttlefish(
                cfg,
                force,
                branch@,
                target@,
                build_id@,
                opt_text(job_id),
                correlation_id@,
            ),
        ),
        UiCommand::TargetsResolveCuttlefishBuild { cfg, branch, target, build_id } => at(
            PhaseView::First,
            resolve_build(cfg, branch@, target@, build_id@),
        ),
        UiCommand::TargetsStartCuttlefish { cfg, show_full_ui, job_id, correlation_id } => at(
            PhaseView::First,
            start_cuttlefish(cfg, show_full_ui, opt_text(job_id), correlation_id@),
        ),
        UiCommand::TargetsStopCuttlefish { cfg, job_id, correlation_id } => at(
            PhaseView::First,
            stop_cuttlefish(cfg, opt_text(job_id), correlation_id@),
        ),
        UiCommand::TargetsCuttlefishStatus { cfg } => at(PhaseView::First, cuttlefish_status(cfg)),
        UiCommand::TargetsInstallApk { cfg, target_id, apk_path, job_id, correlation_id } => at(
            PhaseView::First,
            install_apk(cfg, target_id@, apk_path@, opt_text(job_id), correlation_id@),
        ),
        UiCommand::TargetsStreamLogcat { cfg, target_id, filter } => at(
            PhaseView::First,
            stream_logcat(cfg, target_id@, filter@),
        ),
        UiCommand::TargetsLaunchApp {
            cfg,
            target_id,
            apk_path,
            application_id,
            activity,
            job_id,
            correlation_id,
        } => at(
            if blank(application_id@) {
                PhaseView::First
            } else {
                PhaseView::Launching
            },
            launch(
                cfg,
                target_id@,
                apk_path@,
                application_id@,
                activity@,
                opt_text(job_id),
                correlation_id@,
            ),
        ),
        _ => lost(),
    }
}

/// Begins a command about targets.
pub fn begin_targets(cmd: &UiCommand) -> (r: (Phase, Turn))
    ensures
        (StepView { phase: r.0@, turn: r.1@ }) == targets_begun(*cmd),
{
    match cmd {
        UiCommand::TargetsList { cfg } => settle(Phase::First, begin_list_targets(cfg)),
        UiCommand::TargetsSetDefault { cfg, target_id } => settle(
            Phase::First,
            begin_set_default(cfg, target_id.as_str()),
        ),
        UiCommand::TargetsGetDefault { cfg } => settle(Phase::First, begin_get_default(cfg)),
        UiCommand::TargetsInstallCuttlefish {
            cfg,
            force,
            branch,
            target,
            build_id,
            job_id,
            correlation_id,
        } => settle(
            Phase::First,
            begin_install_cuttlefish(
                cfg,
                *force,
                branch.as_str(),
                target.as_str(),
                build_id.as_str(),
                job_id,
                correlation_id.as_str(),
            ),
        ),
        UiCommand::TargetsResolveCuttlefishBuild { cfg, branch, target, build_id } => settle(
            Phase::First,
            begin_resolve_build(cfg, branch.as_str(), target.as_str(), build_id.as_str()),
        ),
        UiCommand::TargetsStartCuttlefish { cfg, show_full_ui, job_id, correlation_id } => settle(
            Phase::First,
            begin_start_cuttlefish(cfg, *show_full_ui, job_id, correlation_id.as_str()),
        ),
        UiCommand::TargetsStopCuttlefish { cfg, job_id, correlation_id } => settle(
            Phase::First,
            begin_stop_cuttlefish(cfg, job_id, correlation_id.as_str()),
        ),
        UiCommand::TargetsCuttlefishStatus { cfg } => settle(
            Phase::First,
            begin_cuttlefish_status(cfg),
        ),
        UiCommand::TargetsInstallApk { cfg, target_id, apk_path, job_id, correlation_id } => settle(
            Phase::First,
            begin_install_apk(
                cfg,
                target_id.as_str(),
                apk_path.as_str(),
                job_id,
                correlation_id.as_str(),
            ),
        ),
        UiCommand::TargetsStreamLogcat { cfg, target_id, filter } => settle(
            Phase::First,
            begin_stream_logcat(cfg, target_id.as_str(), filter.as_str()),
        ),
        UiCommand::TargetsLaunchApp {
            cfg,
            target_id,
            apk_path,
            application_id,
            activity,
            job_id,
            correlation_id,
        } => {
            let phase: Phase = if is_blank(application_id.as_str()) {
                Phase::First
            } else {
                Phase::Launching
            };
            let turn: Turn = begin_launch(
                cfg,
                target_id.as_str(),
                apk_path.as_str(),
                application_id.as_str(),
                activity.as_str(),
                job_id,
                correlation_id.as_str(),
            );
            settle(phase, turn)
        },
        _ => lose(),
    }
}

/// How the launch of an application goes on: once its id is known, it is asked for.
pub open spec fn launch_step(
    cfg: AppConfig,
    target_id: Seq<char>,
    activity: Seq<char>,
    job_id: Option<Seq<char>>,
    correlation_id: Seq<char>,
    phase: PhaseView,
    reply: Reply,
) -> StepView {
    match phase {
        PhaseView::First => match reply {
            Reply::Inferred { application_id } => at(
                PhaseView::Launching,
                launch_inferred(
                    cfg,
                    target_id,
                    opt_text(application_id),
                    activity,
                    job_id,
                    correlation_id,
                ),
            ),
            _ => lost(),
        },
        PhaseView::Launching => match reply {
            Reply::Queued { job_id: queued_id } => over(
                queued(cfg, "targets"@, "Launch job: "@, opt_text(queued_id)),
            ),
            Reply::Failed { failure } => over(
                told_refusal(
                    "targets"@,
                    "Launch request failed: "@,
                    failure.connecting,
                    failure.error@,
                ),
            ),
            _ => lost(),
        },
        _ => lost(),
    }
}

fn step_launch(
    cfg: &AppConfig,
    target_id: &str,
    activity: &str,
    job_id: &Option<String>,
    correlation_id: &str,
    phase: Phase,
    reply: Reply,
) -> (r: (Phase, Turn))
    ensures
        (StepView { phase: r.0@, turn: r.1@ }) == launch_step(
            *cfg,
            target_id@,
            activity@,
            opt_text(*job_id),
            correlation_id@,
            phase@,
            reply,
        ),
{
    match phase {
        Phase::First => match reply {
            Reply::Inferred { application_id } => settle(
                Phase::Launching,
                launch_on_inferred(
                    cfg,
                    target_id,
                    application_id,
                    activity,
                    job_id,
                    correlation_id,
                ),
            ),
            _ => lose(),
        },
        Phase::Launching => match reply {
            Reply::Queued { job_id: queued_id } => over_turn(
                end_queued(cfg, "targets", "Launch job: ", &queued_id),
            ),
            Reply::Failed { failure } => over_turn(
                tell_refusal("targets", "Launch request failed: ", failure),
            ),
            _ => lose(),
        },
        _ => lose(),
    }
}

/// How a command about targets goes on with an answer.
pub open spec fn targets_step(cmd: UiCommand, phase: PhaseView, reply: Reply) -> StepView {
    match cmd {
        UiCommand::TargetsList { cfg } => match reply {
            Reply::Targets { targets } => over(targets_listed(cfg, targets@)),
            Reply::Failed { failure } => over(
                told_failure(
                    "targets"@,
                    "TargetService"@,
                    "List targets failed: "@,
                    failure.connecting,
                    failure.error@,
                ),
            ),
            _ => lost(),
        },
        UiCommand::TargetsSetDefault { target_id, .. } => match reply {
            Reply::Applied { ok } => over(default_set(target_id@, ok)),
            Reply::Failed { failure } => over(error(failure.error@)),
            _ => lost(),
        },
        UiCommand::TargetsGetDefault { .. } => match reply {
            Reply::DefaultTarget { target } => over(default_found(target)),
            Reply::Failed { failure } => over(error(failure.error@)),
            _ => lost(),
        },
        UiCommand::TargetsInstallCuttlefish { cfg, .. } => match reply {
            Reply::Queued { job_id: queued_id } => over(
                queued(cfg, "targets"@, "Cuttlefish install job: "@, opt_text(queued_id)),
            ),
            Reply::Failed { failure } => over(error(failure.error@)),
            _ => lost(),
        },
        UiCommand::TargetsResolveCuttlefishBuild { .. } => match reply {
            Reply::BuildResolved { build_id: id, product, branch: b, target: t } => over(
                build_resolved(id@, product@, b@, t@),
            ),
            Reply::Failed { failure } => over(error(failure.error@)),
            _ => lost(),
        },
        UiCommand::TargetsStartCuttlefish { cfg, .. } => match reply {
            Reply::Queued { job_id: queued_id } => over(
                queued(cfg, "targets"@, "Cuttlefish start job: "@, opt_text(queued_id)),
            ),
            Reply::Failed { failure } => over(error(failure.error@)),
            _ => lost(),
        },
        UiCommand::TargetsStopCuttlefish { cfg, .. } => match reply {
            Reply::Queued { job_id: queued_id } => over(
                queued(cfg, "targets"@, "Cuttlefish stop job: "@, opt_text(queued_id)),
            ),
            Reply::Failed { failure } => over(error(failure.error@)),
            _ => lost(),
        },
        UiCommand::TargetsCuttlefishStatus { .. } => match reply {
            Reply::Cuttlefish { state, adb_serial, details } => over(
                cuttlefish_told(state@, adb_serial@, details@),
            ),
            Reply::Failed { failure } => over(error(failure.error@)),
            _ => lost(),
        },
        UiCommand::TargetsInstallApk { cfg, .. } => match reply {
            Reply::Queued { job_id: queued_id } => over(
                queued(cfg, "targets"@, "Install APK job: "@, opt_text(queued_id)),
            ),
            Reply::Failed { failure } => over(
                told_refusal(
                    "targets"@,
                    "Install APK request failed: "@,
                    failure.connecting,
                    failure.error@,
                ),
            ),
            _ => lost(),
        },
        UiCommand::TargetsStreamLogcat { .. } => match reply {
            Reply::LogcatLine { line } => at(PhaseView::First, logcat_said(lossy_text(line@))),
            Reply::StreamFailed { error } => over(logcat_broken(error@)),
            Reply::StreamEnded => over(done(Seq::empty())),
            Reply::Failed { failure } => over(error(failure.error@)),
            _ => lost(),
        },
        UiCommand::TargetsLaunchApp {
            cfg,
            target_id,
            activity,
            job_id,
            correlation_id,
            ..
        } => launch_step(
            cfg,
            target_id@,
            activity@,
            opt_text(job_id),
            correlation_id@,
            phase,
            reply,
        ),
        _ => lost(),
    }
}

/// Takes an answer to a command about targets and goes on.
pub fn step_targets(cmd: &UiCommand, phase: Phase, reply: Reply) -> (r: (Phase, Turn))
    ensures
        (StepView { phase: r.0@, turn: r.1@ }) == targets_step(*cmd, phase@, reply),
{
    match cmd {
        UiCommand::TargetsList { cfg } => match reply {
            Reply::Targets { targets } => over_turn(end_list_targets(cfg, &targets)),
            Reply::Failed { failure } => over_turn(
                tell_failure("targets", "TargetService", "List targets failed: ", &failure),
            ),
            _ => lose(),
        },
        UiCommand::TargetsSetDefault { target_id, .. } => match reply {
            Reply::Applied { ok } => over_turn(end_set_default(target_id.as_str(), ok)),
            Reply::Failed { failure } => over_turn(hand_on(failure.error)),
            _ => lose(),
        },
        UiCommand::TargetsGetDefault { .. } => match reply {
            Reply::DefaultTarget { target } => over_turn(end_get_default(&target)),
            Reply::Failed { failure } => over_turn(hand_on(failure.error)),
            _ => lose(),
        },
        UiCommand::TargetsInstallCuttlefish { cfg, .. } => match reply {
            Reply::Queued { job_id: queued_id } => over_turn(
                end_queued(cfg, "targets", "Cuttlefish install job: ", &queued_id),
            ),
            Reply::Failed { failure } => over_turn(hand_on(failure.error)),
            _ => lose(),
        },
        UiCommand::TargetsResolveCuttlefishBuild { .. } => match reply {
            Reply::BuildResolved { build_id: id, product, branch: b, target: t } => over_turn(
                end_resolve_build(id.as_str(), product.as_str(), b.as_str(), t.as_str()),
            ),
            Reply::Failed { failure } => over_turn(hand_on(failure.error)),
            _ => lose(),
        },
        UiCommand::TargetsStartCuttlefish { cfg, .. } => match reply {
            Reply::Queued { job_id: queued_id } => over_turn(
                end_queued(cfg, "targets", "Cuttlefish start job: ", &queued_id),
            ),
            Reply::Failed { failure } => over_turn(hand_on(failure.error)),
            _ => lose(),
        },
        UiCommand::TargetsStopCuttlefish { cfg, .. } => match reply {
            Reply::Queued { job_id: queued_id } => over_turn(
                end_queued(cfg, "targets", "Cuttlefish stop job: ", &queued_id),
            ),
            Reply::Failed { failure } => over_turn(hand_on(failure.error)),
            _ => lose(),
        },
        UiCommand::TargetsCuttlefishStatus { .. } => match reply {
            Reply::Cuttlefish { state, adb_serial, details } => over_turn(
                end_cuttlefish_status(state.as_str(), adb_serial.as_str(), &details),
            ),
            Reply::Failed { failure } => over_turn(hand_on(failure.error)),
            _ => lose(),
        },
        UiCommand::TargetsInstallApk { cfg, .. } => match reply {
            Reply::Queued { job_id: queued_id } => over_turn(
                end_queued(cfg, "targets", "Install APK job: ", &queued_id),
            ),
            Reply::Failed { failure } => over_turn(
                tell_refusal("targets", "Install APK request failed: ", failure),
            ),
            _ => lose(),
        },
        UiCommand::TargetsStreamLogcat { .. } => match reply {
            Reply::LogcatLine { line } => settle(Phase::First, logcat_on_bytes(&line)),
            Reply::StreamFailed { error } => over_turn(logcat_on_break(error.as_str())),
            Reply::StreamEnded => over_turn(finish(Out::new())),
            Reply::Failed { failure } => over_turn(hand_on(failure.error)),
            _ => lose(),
        },
        UiCommand::TargetsLaunchApp {
            cfg,
            target_id,
            activity,
            job_id,
            correlation_id,
            ..
        } => step_launch(
            cfg,
            target_id.as_str(),
            activity.as_str(),
            job_id,
            correlation_id.as_str(),
            phase,
            reply,
        ),
        _ => lose(),
    }
}

} // verus!
