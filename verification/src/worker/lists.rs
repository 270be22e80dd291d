//! What the pages are told in words: every failure with its reason, and every item of a list.

use crate::commands::{AppEventView, UiCommand};
use crate::job_events::{job_row, Job};
use crate::model::{or_empty, or_else};
use crate::text::{lemma_mentions_in_sum, lemma_mentions_itself, mentions, opt_text};
use crate::worker::command::stepped;
use crate::worker::observe::{outputs_lines, run_line, run_lines_of, runs_lines};
use crate::worker::phase::PhaseView;
use crate::worker::reply::{ListedOutput, Reply, Run};
use crate::worker::turn::{logs, EffectView, Failure, NextView, TurnView};
use vstd::prelude::*;

verus! {

/// The effect is a line on the page that mentions the part.
pub open spec fn says(e: EffectView, page: Seq<char>, part: Seq<char>) -> bool {
    e matches EffectView::Ui { event: AppEventView::Log { page: p, line } } && p == page && mentions(
        line,
        part,
    )
}

/// The turn hands the error on, or says it on the page.
pub open spec fn tells(turn: TurnView, page: Seq<char>, err: Seq<char>) -> bool {
    ||| turn.next == (NextView::Error { error: err })
    ||| exists|i: int| 0 <= i < turn.effects.len() && says(#[trigger] turn.effects[i], page, err)
}

/// The page of a command.
pub open spec fn page_of(cmd: UiCommand) -> Seq<char> {
    match cmd {
        UiCommand::HomeStartJob { .. } => "home"@,
        UiCommand::HomeWatchJob { .. } => "home"@,
        UiCommand::HomeCancelCurrent { .. } => "home"@,
        UiCommand::JobsList { page, .. } => page@,
        UiCommand::JobsHistory { .. } => "jobs"@,
        UiCommand::JobsExportLogs { page, .. } => page@,
        UiCommand::ToolchainListProviders { .. }
        | UiCommand::ToolchainListAvailable { .. }
        | UiCommand::ToolchainInstall { .. }
        | UiCommand::ToolchainUpdate { .. }
        | UiCommand::ToolchainUninstall { .. }
        | UiCommand::ToolchainCleanupCache { .. }
        | UiCommand::ToolchainListInstalled { .. }
        | UiCommand::ToolchainListSets { .. }
        | UiCommand::ToolchainVerifyInstalled { .. }
        | UiCommand::ToolchainCreateSet { .. }
        | UiCommand::ToolchainCreateActiveLatest { .. }
        | UiCommand::ToolchainSetActive { .. }
        | UiCommand::ToolchainGetActive { .. } => "toolchains"@,
        UiCommand::ProjectListTemplates { .. }
        | UiCommand::ProjectListRecent { .. }
        | UiCommand::ProjectLoadDefaults { .. }
        | UiCommand::ProjectCreate { .. }
        | UiCommand::ProjectOpen { .. }
        | UiCommand::ProjectSetConfig { .. }
        | UiCommand::ProjectUseActiveDefaults { .. } => "projects"@,
        UiCommand::ObserveListRuns { page, .. } => page@,
        UiCommand::StreamRunEvents { page, .. } => page@,
        UiCommand::ObserveListOutputs { page, .. } => page@,
        UiCommand::ObserveExportSupport { page, .. } => page@,
        UiCommand::ObserveExportEvidence { page, .. } => page@,
        UiCommand::WorkflowRunPipeline { .. } => "workflow"@,
        UiCommand::BuildRun { .. } | UiCommand::BuildListArtifacts { .. } => "console"@,
        UiCommand::StateSave { .. }
        | UiCommand::StateOpen { .. }
        | UiCommand::StateReload { .. }
        | UiCommand::ResetAllState { .. } => "settings"@,
        _ => "targets"@,
    }
}

/// The command waits for a request that can fail.
pub open spec fn can_fail(cmd: UiCommand, phase: PhaseView) -> bool {
    match cmd {
        UiCommand::HomeWatchJob { .. } | UiCommand::StreamRunEvents { .. } => false,
        UiCommand::StateReload { .. } => false,
        UiCommand::JobsExportLogs { .. } => phase is Export || phase is ExportPages || phase
            is ExportWritten,
        UiCommand::TargetsLaunchApp { .. } => phase is Launching,
        UiCommand::StateSave { .. } => phase is First || phase is Locked || phase is Archived,
        UiCommand::StateOpen { .. } => phase is First || phase is Locked || phase is Archived,
        UiCommand::ProjectLoadDefaults { .. } => phase is First || phase is LoadTargets,
        UiCommand::ProjectUseActiveDefaults { .. } => phase is First || phase is UseTarget || phase
            is UseApply,
        UiCommand::ToolchainCreateActiveLatest { .. } => phase is First || phase is LatestMade
            || phase is LatestActive,
        _ => phase is First,
    }
}

/// Whatever a command waits for, that it failed is told with its reason, on the command's page or as
/// the command's error.
pub proof fn law_failures_are_told(
    cmd: UiCommand,
    home: Option<Seq<char>>,
    phase: PhaseView,
    failure: Failure,
    now: i64,
)
    requires
        can_fail(cmd, phase),
    ensures
        tells(
            stepped(cmd, home, phase, Reply::Failed { failure }, now).turn,
            page_of(cmd),
            failure.error@,
        ),
{
    broadcast use {lemma_mentions_itself, lemma_mentions_in_sum};

    let turn = stepped(cmd, home, phase, Reply::Failed { failure }, now).turn;
    if !(turn.next is Error) {
        assert(mentions(turn.effects[0]->event->line, failure.error@));
        assert(says(turn.effects[0], page_of(cmd), failure.error@));
    }
}

/// The list has a heading, then one line for each of `n` items.
pub open spec fn one_line_each(turn: TurnView, n: nat) -> bool {
    &&& turn.next is Done
    &&& turn.effects.len() >= n + 1
}

/// Every provider, every toolchain that is available or installed, and every toolchain set is listed
/// on its own line, in order, with what it is known by.
pub proof fn law_toolchains_are_listed(
    cmd: UiCommand,
    home: Option<Seq<char>>,
    phase: PhaseView,
    reply: Reply,
    now: i64,
    i: int,
)
    requires
        phase is First,
    ensures
        ({
            let turn = stepped(cmd, home, phase, reply, now).turn;
            let page = "toolchains"@;
            &&& cmd is ToolchainListProviders && reply is Providers && 0 <= i
                < reply->providers@.len() ==> {
                &&& one_line_each(turn, reply->providers@.len())
                &&& says(turn.effects[i + 1], page, reply->providers@[i].name@)
            }
            &&& cmd is ToolchainListInstalled && reply is Installed && 0 <= i
                < reply->Installed_items@.len() ==> {
                &&& one_line_each(turn, reply->Installed_items@.len())
                &&& says(
                    turn.effects[i + 1],
                    page,
                    or_else(opt_text(reply->Installed_items@[i].toolchain_id), ""@),
                )
                &&& says(turn.effects[i + 1], page, reply->Installed_items@[i].install_path@)
            }
            &&& cmd is ToolchainListAvailable && reply is Available && 0 <= i
                < reply->Available_items@.len() ==> {
                &&& turn.next is Done
                &&& turn.effects.len() == reply->Available_items@.len() + 2
                &&& says(
                    turn.effects[i + 2],
                    page,
                    or_else(opt_text(reply->Available_items@[i].version), "unknown"@),
                )
                &&& reply->Available_items@[i].artifact matches Some(a) ==> says(
                    turn.effects[i + 2],
                    page,
                    a.url@,
                ) && says(turn.effects[i + 2], page, a.sha256@)
            }
            &&& cmd is ToolchainListSets && reply is Sets && 0 <= i < reply->sets@.len() ==> {
                &&& one_line_each(turn, reply->sets@.len())
                &&& says(turn.effects[i + 1], page, reply->sets@[i].display_name@)
                &&& says(
                    turn.effects[i + 1],
                    page,
                    or_else(opt_text(reply->sets@[i].toolchain_set_id), ""@),
                )
                &&& says(
                    turn.effects[i + 1],
                    page,
                    or_else(opt_text(reply->sets@[i].sdk_toolchain_id), ""@),
                )
                &&& says(
                    turn.effects[i + 1],
                    page,
                    or_else(opt_text(reply->sets@[i].ndk_toolchain_id), ""@),
                )
            }
        }),
{
    broadcast use {lemma_mentions_itself, lemma_mentions_in_sum};

}

/// Every template, project and target is listed on its own line, in order, with its name and what it
/// is known by.
pub proof fn law_projects_and_targets_are_listed(
    cmd: UiCommand,
    home: Option<Seq<char>>,
    phase: PhaseView,
    reply: Reply,
    now: i64,
    i: int,
)
    requires
        phase is First,
    ensures
        ({
            let turn = stepped(cmd, home, phase, reply, now).turn;
            &&& cmd is ProjectListTemplates && reply is Templates && 0 <= i
                < reply->templates@.len() ==> {
                &&& one_line_each(turn, reply->templates@.len())
                &&& says(turn.effects[i + 1], "projects"@, reply->templates@[i].name@)
            }
            &&& cmd is ProjectListRecent && reply is Projects && 0 <= i < reply->projects@.len() ==> {
                &&& one_line_each(turn, reply->projects@.len())
                &&& says(turn.effects[i + 1], "projects"@, reply->projects@[i].name@)
                &&& says(turn.effects[i + 1], "projects"@, reply->projects@[i].path@)
                &&& says(
                    turn.effects[i + 1],
                    "projects"@,
                    or_else(opt_text(reply->projects@[i].project_id), ""@),
                )
            }
            &&& cmd is TargetsList && reply is Targets && 0 <= i < reply->targets@.len() ==> {
                &&& one_line_each(turn, reply->targets@.len())
                &&& says(turn.effects[i + 1], "targets"@, reply->targets@[i].display_name@)
                &&& says(turn.effects[i + 1], "targets"@, reply->targets@[i].state@)
                &&& says(
                    turn.effects[i + 1],
                    "targets"@,
                    or_else(opt_text(reply->targets@[i].target_id), ""@),
                )
            }
        }),
{
    broadcast use {lemma_mentions_itself, lemma_mentions_in_sum};

}

/// The job's own line on the jobs page has its id, its type, its state and its name; the line of
/// every job that was answered is there, in order.
pub proof fn law_jobs_are_listed(
    cmd: UiCommand,
    home: Option<Seq<char>>,
    phase: PhaseView,
    jobs: Vec<Job>,
    next_page_token: Option<String>,
    now: i64,
    i: int,
)
    requires
        cmd is JobsList,
        cmd->JobsList_page@ == "jobs"@,
        phase is First,
        0 <= i < jobs@.len(),
    ensures
        ({
            let turn = stepped(cmd, home, phase, Reply::Jobs { jobs, next_page_token }, now).turn;
            let token = or_empty(opt_text(next_page_token));
            &&& turn.next is Done
            &&& turn.effects.len() == jobs@.len() + 1 + if token.len() > 0 {
                1nat
            } else {
                0nat
            }
            &&& says(
                turn.effects[i + 1],
                "jobs"@,
                or_else(opt_text(jobs@[i].job_id), "-"@),
            )
            &&& says(turn.effects[i + 1], "jobs"@, jobs@[i].job_type@)
            &&& says(turn.effects[i + 1], "jobs"@, jobs@[i].state.name())
            &&& says(turn.effects[i + 1], "jobs"@, jobs@[i].display_name@)
            &&& token.len() > 0 ==> says(turn.effects.last(), "jobs"@, token)
        }),
{
    broadcast use {lemma_mentions_itself, lemma_mentions_in_sum};

    let turn = stepped(cmd, home, phase, Reply::Jobs { jobs, next_page_token }, now).turn;
    assert(turn.effects[i + 1]->event->line == job_row(jobs@[i]));
}

/// The line is among the lines.
pub open spec fn told_among(lines: Seq<Seq<char>>, part: Seq<char>) -> bool {
    exists|k: int| 0 <= k < lines.len() && mentions(#[trigger] lines[k], part)
}

/// Every run that was answered is told of, with its id and its result.
pub proof fn law_runs_are_listed(runs: Seq<Run>, i: int)
    requires
        0 <= i < runs.len(),
    ensures
        told_among(runs_lines(runs), or_else(opt_text(runs[i].run_id), "-"@)),
        told_among(runs_lines(runs), runs[i].result@),
        told_among(runs_lines(runs), runs[i].correlation_id@),
    decreases runs.len(),
{
    broadcast use {lemma_mentions_itself, lemma_mentions_in_sum};

    let rest = runs.drop_last();
    let before = runs_lines(rest);
    let all = runs_lines(runs);
    if i < rest.len() {
        law_runs_are_listed(rest, i);
        assert(rest[i] == runs[i]);
        assert forall|part: Seq<char>| told_among(before, part) implies #[trigger] told_among(
            all,
            part,
        ) by {
            let k = choose|k: int| 0 <= k < before.len() && mentions(#[trigger] before[k], part);
            assert(all[k] == before[k]);
        }
    } else {
        assert(runs[i] == runs.last());
        assert(run_lines_of(runs.last())[0] == run_line(runs.last()));
        assert(all[before.len() as int] == run_line(runs.last()));
    }
}

/// Every output that was answered is told of, with its id, its path and its label.
pub proof fn law_outputs_are_listed(outputs: Seq<ListedOutput>, i: int)
    requires
        0 <= i < outputs.len(),
    ensures
        told_among(outputs_lines(outputs), outputs[i].output_id@),
        told_among(outputs_lines(outputs), outputs[i].path@),
        told_among(outputs_lines(outputs), outputs[i].label@),
    decreases outputs.len(),
{
    broadcast use {lemma_mentions_itself, lemma_mentions_in_sum};

    let rest = outputs.drop_last();
    let before = outputs_lines(rest);
    let all = outputs_lines(outputs);
    if i < rest.len() {
        law_outputs_are_listed(rest, i);
        assert(rest[i] == outputs[i]);
        assert forall|part: Seq<char>| told_among(before, part) implies #[trigger] told_among(
            all,
            part,
        ) by {
            let k = choose|k: int| 0 <= k < before.len() && mentions(#[trigger] before[k], part);
            assert(all[k] == before[k]);
        }
    } else {
        assert(outputs[i] == outputs.last());
        assert(all[before.len() as int] == crate::worker::observe::output_line(outputs.last()));
    }
}

/// The lines about runs and outputs go to the page that asked, all of them and in order, and a
/// further page is named exactly where there is one.
pub proof fn law_listed_lines_are_shown(
    cmd: UiCommand,
    home: Option<Seq<char>>,
    phase: PhaseView,
    reply: Reply,
    now: i64,
)
    requires
        phase is First,
    ensures
        ({
            let turn = stepped(cmd, home, phase, reply, now).turn;
            &&& cmd is ObserveListRuns && reply is Runs && reply->runs@.len() > 0 ==> {
                &&& turn.next is Done
                &&& turn.effects.len() > runs_lines(reply->runs@).len()
                &&& turn.effects.subrange(1, (1 + runs_lines(reply->runs@).len()) as int) == logs(
                    cmd->ObserveListRuns_page@,
                    runs_lines(reply->runs@),
                )
            }
            &&& cmd is ObserveListOutputs && reply is Outputs && reply->Outputs_outputs@.len() > 0
                && reply->Outputs_summary is None ==> {
                &&& turn.next is Done
                &&& turn.effects.len() >= outputs_lines(reply->Outputs_outputs@).len()
                &&& turn.effects.take(outputs_lines(reply->Outputs_outputs@).len() as int) == logs(
                    cmd->ObserveListOutputs_page@,
                    outputs_lines(reply->Outputs_outputs@),
                )
            }
        }),
{
    let turn = stepped(cmd, home, phase, reply, now).turn;
    if cmd is ObserveListRuns && reply is Runs && reply->runs@.len() > 0 {
        assert(turn.effects.subrange(1, (1 + runs_lines(reply->runs@).len()) as int) =~= logs(
            cmd->ObserveListRuns_page@,
            runs_lines(reply->runs@),
        ));
    }
    if cmd is ObserveListOutputs && reply is Outputs && reply->Outputs_outputs@.len() > 0
        && reply->Outputs_summary is None {
        assert(turn.effects.take(outputs_lines(reply->Outputs_outputs@).len() as int) =~= logs(
            cmd->ObserveListOutputs_page@,
            outputs_lines(reply->Outputs_outputs@),
        ));
    }
}

} // verus!
