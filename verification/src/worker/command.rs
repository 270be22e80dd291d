//! A command that is being carried out, answer by answer.

use crate::commands::UiCommand;
use crate::config::AppConfig;
use crate::model::or_empty;
use crate::text::opt_text;
use crate::util::{data_dir_path, last_name};
use crate::worker::call::CallView;
use crate::worker::phase::{is_last, lose, lost, Phase, PhaseView, StepView};
use crate::worker::reply::Reply;
use crate::worker::state::SERVICE_COUNT;
use crate::worker::steps::builds::{begin_builds, builds_begun, builds_step, step_builds};
use crate::worker::steps::jobs::{begin_jobs, jobs_begun, jobs_step, step_jobs};
use crate::worker::steps::observe::{begin_observe, observe_begun, observe_step, step_observe};
use crate::worker::steps::projects::{begin_projects, projects_begun, projects_step, step_projects};
use crate::worker::steps::state::{begin_state, state_begun, state_step, step_state};
use crate::worker::steps::targets::{begin_targets, step_targets, targets_begun, targets_step};
use crate::worker::steps::toolchains::{
    begin_toolchains, step_toolchains, toolchains_begun, toolchains_step, verify_step,
};
use crate::worker::toolchains::{installed_ids, verdict_line, verify_from};
use crate::worker::turn::{done, job_stream, log, EffectView, NextView, Turn, TurnView};
use vstd::prelude::*;
use vstd::string::*;

verus! {

/// What a command is about.
#[derive(Clone, Copy, Debug, PartialEq, Eq, Structural)]
pub enum Subject {
    Jobs,
    Toolchains,
    Projects,
    Targets,
    Runs,
    Builds,
    State,
}

/// What a command is about.
pub open spec fn subject(cmd: UiCommand) -> Subject {
    match cmd {
        UiCommand::HomeStartJob { .. }
        | UiCommand::HomeWatchJob { .. }
        | UiCommand::HomeCancelCurrent { .. }
        | UiCommand::JobsList { .. }
        | UiCommand::JobsHistory { .. }
        | UiCommand::JobsExportLogs { .. } => Subject::Jobs,
        UiCommand::ToolchainListProviders { .. }
        | UiCommand::ToolchainListAvailable { .. }
        | UiCommand::ToolchainInstall { .. }
        | UiCommand::ToolchainUpdate { .. }
        | UiCommand::ToolchainUninstall { .. }
        | UiCommand::ToolchainCleanupCache { .. }
        | UiCommand::ToolchainListInstalled { .. }
        | UiCommand::ToolchainListSets { .. }
        | UiCommand::ToolchainVerifyInstalled { .. }
        | UiCommand::ToolchainCreateSet { .. }
        | UiCommand::ToolchainCreateActiveLatest { .. }
        | UiCommand::ToolchainSetActive { .. }
        | UiCommand::ToolchainGetActive { .. } => Subject::Toolchains,
        UiCommand::ProjectListTemplates { .. }
        | UiCommand::ProjectListRecent { .. }
        | UiCommand::ProjectLoadDefaults { .. }
        | UiCommand::ProjectCreate { .. }
        | UiCommand::ProjectOpen { .. }
        | UiCommand::ProjectSetConfig { .. }
        | UiCommand::ProjectUseActiveDefaults { .. } => Subject::Projects,
        UiCommand::TargetsList { .. }
        | UiCommand::TargetsSetDefault { .. }
        | UiCommand::TargetsGetDefault { .. }
        | UiCommand::TargetsInstallCuttlefish { .. }
        | UiCommand::TargetsResolveCuttlefishBuild { .. }
        | UiCommand::TargetsStartCuttlefish { .. }
        | UiCommand::TargetsStopCuttlefish { .. }
        | UiCommand::TargetsCuttlefishStatus { .. }
        | UiCommand::TargetsInstallApk { .. }
        | UiCommand::TargetsLaunchApp { .. }
        | UiCommand::TargetsStreamLogcat { .. } => Subject::Targets,
        UiCommand::ObserveListRuns { .. }
        | UiCommand::ObserveListOutputs { .. }
        | UiCommand::ObserveExportSupport { .. }
        | UiCommand::ObserveExportEvidence { .. }
        | UiCommand::StreamRunEvents { .. } => Subject::Runs,
        UiCommand::WorkflowRunPipeline { .. }
        | UiCommand::BuildRun { .. }
        | UiCommand::BuildListArtifacts { .. } => Subject::Builds,
        UiCommand::StateSave { .. }
        | UiCommand::StateOpen { .. }
        | UiCommand::StateReload { .. }
        | UiCommand::ResetAllState { .. } => Subject::State,
    }
}

/// What a command is about.
pub fn subject_of(cmd: &UiCommand) -> (r: Subject)
    ensures
        r == subject(*cmd),
{
    match cmd {
        UiCommand::HomeStartJob { .. }
        | UiCommand::HomeWatchJob { .. }
        | UiCommand::HomeCancelCurrent { .. }
        | UiCommand::JobsList { .. }
        | UiCommand::JobsHistory { .. }
        | UiCommand::JobsExportLogs { .. } => Subject::Jobs,
        UiCommand::ToolchainListProviders { .. }
        | UiCommand::ToolchainListAvailable { .. }
        | UiCommand::ToolchainInstall { .. }
        | UiCommand::ToolchainUpdate { .. }
        | UiCommand::ToolchainUninstall { .. }
        | UiCommand::ToolchainCleanupCache { .. }
        | UiCommand::ToolchainListInstalled { .. }
        | UiCommand::ToolchainListSets { .. }
        | UiCommand::ToolchainVerifyInstalled { .. }
        | UiCommand::ToolchainCreateSet { .. }
        | UiCommand::ToolchainCreateActiveLatest { .. }
        | UiCommand::ToolchainSetActive { .. }
        | UiCommand::ToolchainGetActive { .. } => Subject::Toolchains,
        UiCommand::ProjectListTemplates { .. }
        | UiCommand::ProjectListRecent { .. }
        | UiCommand::ProjectLoadDefaults { .. }
        | UiCommand::ProjectCreate { .. }
        | UiCommand::ProjectOpen { .. }
        | UiCommand::ProjectSetConfig { .. }
        | UiCommand::ProjectUseActiveDefaults { .. } => Subject::Projects,
        UiCommand::TargetsList { .. }
        | UiCommand::TargetsSetDefault { .. }
        | UiCommand::TargetsGetDefault { .. }
        | UiCommand::TargetsInstallCuttlefish { .. }
        | UiCommand::TargetsResolveCuttlefishBuild { .. }
        | UiCommand::TargetsStartCuttlefish { .. }
        | UiCommand::TargetsStopCuttlefish { .. }
        | UiCommand::TargetsCuttlefishStatus { .. }
        | UiCommand::TargetsInstallApk { .. }
        | UiCommand::TargetsLaunchApp { .. }
        | UiCommand::TargetsStreamLogcat { .. } => Subject::Targets,
        UiCommand::ObserveListRuns { .. }
        | UiCommand::ObserveListOutputs { .. }
        | UiCommand::ObserveExportSupport { .. }
        | UiCommand::ObserveExportEvidence { .. }
        | UiCommand::StreamRunEvents { .. } => Subject::Runs,
        UiCommand::WorkflowRunPipeline { .. }
        | UiCommand::BuildRun { .. }
        | UiCommand::BuildListArtifacts { .. } => Subject::Builds,
        UiCommand::StateSave { .. }
        | UiCommand::StateOpen { .. }
        | UiCommand::StateReload { .. }
        | UiCommand::ResetAllState { .. } => Subject::State,
    }
}

/// How a command begins: given the home directory, the job that is being watched, and the time.
pub open spec fn begun(
    cmd: UiCommand,
    home: Option<Seq<char>>,
    current: Option<Seq<char>>,
    now: i64,
) -> StepView {
    match subject(cmd) {
        Subject::Jobs => jobs_begun(cmd, home, current, now),
        Subject::Toolchains => toolchains_begun(cmd),
        Subject::Projects => projects_begun(cmd),
        Subject::Targets => targets_begun(cmd),
        Subject::Runs => observe_begun(cmd),
        Subject::Builds => builds_begun(cmd),
        Subject::State => state_begun(cmd, home),
    }
}

/// How a command goes on with an answer. One that is over stays so.
pub open spec fn stepped(
    cmd: UiCommand,
    home: Option<Seq<char>>,
    phase: PhaseView,
    reply: Reply,
    now: i64,
) -> StepView {
    if phase is Over {
        lost()
    } else {
        match subject(cmd) {
            Subject::Jobs => jobs_step(cmd, phase, reply, now),
            Subject::Toolchains => toolchains_step(cmd, phase, reply),
            Subject::Projects => projects_step(cmd, phase, reply),
            Subject::Targets => targets_step(cmd, phase, reply),
            Subject::Runs => observe_step(cmd, reply),
            Subject::Builds => builds_step(cmd, reply),
            Subject::State => state_step(cmd, home, phase, reply),
        }
    }
}

/// A command that is being carried out.
#[derive(Debug)]
pub struct CommandRun {
    pub cmd: UiCommand,
    pub home: Option<String>,
    pub phase: Phase,
}

impl CommandRun {
    /// Begins a command, given what `HOME` holds, the job that is being watched, and the time.
    pub fn begin(cmd: UiCommand, home: Option<String>, current: &Option<String>, now: i64) -> (r: (
        Self,
        Turn,
    ))
        ensures
            r.0.cmd == cmd,
            r.0.home == home,
            (StepView { phase: r.0.phase@, turn: r.1@ }) == begun(
                cmd,
                opt_text(home),
                opt_text(*current),
                now,
            ),
    {
        let (phase, turn): (Phase, Turn) = match subject_of(&cmd) {
            Subject::Jobs => begin_jobs(&cmd, &home, current, now),
            Subject::Toolchains => begin_toolchains(&cmd),
            Subject::Projects => begin_projects(&cmd),
            Subject::Targets => begin_targets(&cmd),
            Subject::Runs => begin_observe(&cmd),
            Subject::Builds => begin_builds(&cmd),
            Subject::State => begin_state(&cmd, &home),
        };
        (CommandRun { cmd, home, phase }, turn)
    }

    /// Goes on with an answer to the last request.
    pub fn resume(self, reply: Reply, now: i64) -> (r: (Self, Turn))
        ensures
            r.0.cmd == self.cmd,
            r.0.home == self.home,
            (StepView { phase: r.0.phase@, turn: r.1@ }) == stepped(
                self.cmd,
                opt_text(self.home),
                self.phase@,
                reply,
                now,
            ),
    {
        let CommandRun { cmd, home, phase } = self;
        let (next, turn): (Phase, Turn) = match phase {
            Phase::Over => lose(),
            phase => match subject_of(&cmd) {
                Subject::Jobs => step_jobs(&cmd, phase, reply, now),
                Subject::Toolchains => step_toolchains(&cmd, phase, reply),
                Subject::Projects => step_projects(&cmd, phase, reply),
                Subject::Targets => step_targets(&cmd, phase, reply),
                Subject::Runs => step_observe(&cmd, reply),
                Subject::Builds => step_builds(&cmd, reply),
                Subject::State => step_state(&cmd, &home, phase, reply),
            },
        };
        (CommandRun { cmd, home, phase: next }, turn)
    }
}

/// A command is over exactly when its turn is the last one.
pub proof fn law_over_with_last_turn(
    cmd: UiCommand,
    home: Option<Seq<char>>,
    current: Option<Seq<char>>,
    phase: PhaseView,
    reply: Reply,
    now: i64,
)
    ensures
        (begun(cmd, home, current, now).phase is Over) == is_last(
            begun(cmd, home, current, now).turn,
        ),
        (stepped(cmd, home, phase, reply, now).phase is Over) == is_last(
            stepped(cmd, home, phase, reply, now).turn,
        ),
{
}

/// Once a command is over, no answer brings anything about any more.
pub proof fn law_over_is_silent(cmd: UiCommand, home: Option<Seq<char>>, reply: Reply, now: i64)
    ensures
        stepped(cmd, home, PhaseView::Over, reply, now) == (StepView {
            phase: PhaseView::Over,
            turn: done(Seq::empty()),
        }),
{
}

/// How far a command still has to go: the stage it is in, counted down, and how much of it is left.
pub open spec fn way_left(phase: PhaseView) -> (int, int) {
    match phase {
        PhaseView::First => (6, 0),
        PhaseView::Verify { ids, at } => (5, ids.len() - at),
        PhaseView::Export { .. } => (5, 0),
        PhaseView::Locked => (5, 0),
        PhaseView::ExportPages { .. } => (4, 0),
        PhaseView::Archived => (4, 0),
        PhaseView::Config => (3, 0),
        PhaseView::LatestMade { .. } => (3, 0),
        PhaseView::UseTarget { .. } => (3, 0),
        PhaseView::LatestActive { .. } => (2, 0),
        PhaseView::UseApply { .. } => (2, 0),
        PhaseView::ExportWritten { .. } => (2, 0),
        PhaseView::LoadTargets => (2, 0),
        PhaseView::Launching => (2, 0),
        PhaseView::Reloading { reload } => (1, SERVICE_COUNT - reload.at),
        PhaseView::Over => (0, 0),
    }
}

/// The way from `a` is shorter than the way from `b`.
pub open spec fn nearer(a: PhaseView, b: PhaseView) -> bool {
    let (stage_a, left_a) = way_left(a);
    let (stage_b, left_b) = way_left(b);
    stage_a < stage_b || (stage_a == stage_b && 0 <= left_a < left_b)
}

proof fn lemma_verify_moves_on(
    cfg: AppConfig,
    job_id: Option<Seq<char>>,
    correlation_id: Seq<char>,
    ids: Seq<Option<Seq<char>>>,
    k: int,
    effects: Seq<EffectView>,
)
    requires
        0 <= k,
    ensures
        verify_from(cfg, job_id, correlation_id, ids, k, effects).at >= k,
        is_last(verify_from(cfg, job_id, correlation_id, ids, k, effects).turn) || verify_from(
            cfg,
            job_id,
            correlation_id,
            ids,
            k,
            effects,
        ).at < ids.len(),
    decreases ids.len() - k,
{
    if k < ids.len() && ids[k] is None {
        lemma_verify_moves_on(
            cfg,
            job_id,
            correlation_id,
            ids,
            k + 1,
            effects.push(log("toolchains"@, "Skipping toolchain with missing id.\n"@)),
        );
    }
}

proof fn lemma_toolchains_come_nearer(cmd: UiCommand, phase: PhaseView, reply: Reply)
    requires
        !(phase is Over),
        subject(cmd) == Subject::Toolchains,
    ensures
        toolchains_step(cmd, phase, reply).phase is Over || nearer(
            toolchains_step(cmd, phase, reply).phase,
            phase,
        ),
{
    match cmd {
        UiCommand::ToolchainVerifyInstalled { cfg, job_id, correlation_id } => {
            match (phase, reply) {
                (PhaseView::Verify { ids, at }, Reply::Verified { verified, error, job_id: job }) => {
                    if 0 <= at {
                        lemma_verify_moves_on(
                            cfg,
                            opt_text(job_id),
                            correlation_id@,
                            ids,
                            at + 1,
                            seq![
                                log(
                                    "toolchains"@,
                                    verdict_line(or_empty(ids[at]), verified, error),
                                ),
                            ] + job_stream(
                                cfg.job_addr@,
                                or_empty(opt_text(job)),
                                "toolchains"@,
                            ),
                        );
                    }
                },
                (PhaseView::Verify { ids, at }, Reply::Failed { failure }) => {
                    if 0 <= at {
                        lemma_verify_moves_on(
                            cfg,
                            opt_text(job_id),
                            correlation_id@,
                            ids,
                            at + 1,
                            seq![
                                log(
                                    "toolchains"@,
                                    "- "@ + or_empty(ids[at]) + " verify request failed: "@
                                        + failure.error@ + "\n"@,
                                ),
                            ],
                        );
                    }
                },
                _ => {},
            }
        },
        _ => {},
    }
}

/// Every answer brings a command to its end or nearer to it, but for two: a line of a device's log,
/// behind which more may follow, and a page of a job's history that names a further page.
pub proof fn law_commands_come_to_an_end(
    cmd: UiCommand,
    home: Option<Seq<char>>,
    phase: PhaseView,
    reply: Reply,
    now: i64,
)
    ensures
        ({
            let next = stepped(cmd, home, phase, reply, now).phase;
            ||| next is Over
            ||| nearer(next, phase)
            ||| cmd is TargetsStreamLogcat && reply is LogcatLine
            ||| {
                &&& cmd is JobsExportLogs
                &&& phase is ExportPages
                &&& reply matches Reply::History { next_page_token, .. } && or_empty(
                    opt_text(next_page_token),
                ).len() > 0
            }
        }),
{
    if !(phase is Over) && subject(cmd) == Subject::Toolchains {
        lemma_toolchains_come_nearer(cmd, phase, reply);
    }
}

/// The turn asks for an archive to be written or read.
pub open spec fn touches_archive(turn: TurnView) -> bool {
    turn.next matches NextView::Call { call } && (call is SaveArchive || call is OpenArchive)
}

/// The turn asks for the local state to be deleted.
pub open spec fn deletes_state(turn: TurnView) -> bool {
    turn.next matches NextView::Call { call } && call is ResetState
}

/// The step has nothing to do with the state on disk.
spec fn harmless(s: StepView) -> bool {
    &&& !touches_archive(s.turn)
    &&& !deletes_state(s.turn)
    &&& !(s.phase is Locked)
}

proof fn lemma_jobs_harmless(
    cmd: UiCommand,
    home: Option<Seq<char>>,
    current: Option<Seq<char>>,
    phase: PhaseView,
    reply: Reply,
    now: i64,
)
    requires
        subject(cmd) == Subject::Jobs,
    ensures
        harmless(jobs_begun(cmd, home, current, now)),
        harmless(jobs_step(cmd, phase, reply, now)),
{
}

proof fn lemma_verify_harmless(
    cfg: AppConfig,
    job_id: Option<Seq<char>>,
    correlation_id: Seq<char>,
    ids: Seq<Option<Seq<char>>>,
    k: int,
    effects: Seq<EffectView>,
)
    ensures
        !touches_archive(verify_from(cfg, job_id, correlation_id, ids, k, effects).turn),
        !deletes_state(verify_from(cfg, job_id, correlation_id, ids, k, effects).turn),
    decreases ids.len() - k,
{
    if 0 <= k < ids.len() && ids[k] is None {
        lemma_verify_harmless(
            cfg,
            job_id,
            correlation_id,
            ids,
            k + 1,
            effects.push(log("toolchains"@, "Skipping toolchain with missing id.\n"@)),
        );
    }
}

proof fn lemma_verify_step_harmless(
    cfg: AppConfig,
    job_id: Option<Seq<char>>,
    correlation_id: Seq<char>,
    phase: PhaseView,
    reply: Reply,
)
    ensures
        harmless(verify_step(cfg, job_id, correlation_id, phase, reply)),
{
    match (phase, reply) {
        (PhaseView::First, Reply::Installed { items }) => {
            lemma_verify_harmless(
                cfg,
                job_id,
                correlation_id,
                installed_ids(items@),
                0,
                Seq::empty(),
            );
        },
        (PhaseView::Verify { ids, at }, Reply::Verified { verified, error, job_id: job }) => {
            lemma_verify_harmless(
                cfg,
                job_id,
                correlation_id,
                ids,
                at + 1,
                seq![log("toolchains"@, verdict_line(or_empty(ids[at]), verified, error))]
                    + job_stream(cfg.job_addr@, or_empty(opt_text(job)), "toolchains"@),
            );
        },
        (PhaseView::Verify { ids, at }, Reply::Failed { failure }) => {
            lemma_verify_harmless(
                cfg,
                job_id,
                correlation_id,
                ids,
                at + 1,
                seq![
                    log(
                        "toolchains"@,
                        "- "@ + or_empty(ids[at]) + " verify request failed: "@ + failure.error@
                            + "\n"@,
                    ),
                ],
            );
        },
        _ => {},
    }
}

proof fn lemma_toolchains_harmless(cmd: UiCommand, phase: PhaseView, reply: Reply)
    requires
        subject(cmd) == Subject::Toolchains,
    ensures
        harmless(toolchains_begun(cmd)),
        harmless(toolchains_step(cmd, phase, reply)),
{
    match cmd {
        UiCommand::ToolchainVerifyInstalled { cfg, job_id, correlation_id } => {
            lemma_verify_step_harmless(
                cfg,
                opt_text(job_id),
                correlation_id@,
                phase,
                reply,
            );
        },
        _ => {},
    }
}

proof fn lemma_projects_harmless(cmd: UiCommand, phase: PhaseView, reply: Reply)
    requires
        subject(cmd) == Subject::Projects,
    ensures
        harmless(projects_begun(cmd)),
        harmless(projects_step(cmd, phase, reply)),
{
}

proof fn lemma_targets_harmless(cmd: UiCommand, phase: PhaseView, reply: Reply)
    requires
        subject(cmd) == Subject::Targets,
    ensures
        harmless(targets_begun(cmd)),
        harmless(targets_step(cmd, phase, reply)),
{
}

proof fn lemma_others_harmless(cmd: UiCommand, reply: Reply)
    requires
        subject(cmd) == Subject::Runs || subject(cmd) == Subject::Builds,
    ensures
        harmless(observe_begun(cmd)),
        harmless(observe_step(cmd, reply)),
        harmless(builds_begun(cmd)),
        harmless(builds_step(cmd, reply)),
{
}

proof fn lemma_harmless(
    cmd: UiCommand,
    home: Option<Seq<char>>,
    current: Option<Seq<char>>,
    phase: PhaseView,
    reply: Reply,
    now: i64,
)
    requires
        subject(cmd) != Subject::State,
    ensures
        harmless(begun(cmd, home, current, now)),
        harmless(stepped(cmd, home, phase, reply, now)),
{
    match subject(cmd) {
        Subject::Jobs => lemma_jobs_harmless(cmd, home, current, phase, reply, now),
        Subject::Toolchains => lemma_toolchains_harmless(cmd, phase, reply),
        Subject::Projects => lemma_projects_harmless(cmd, phase, reply),
        Subject::Targets => lemma_targets_harmless(cmd, phase, reply),
        _ => lemma_others_harmless(cmd, reply),
    }
}

/// An archive of the state is written or read only once the turn for that came, and that turn is
/// waited for only after no job was found under way.
pub proof fn law_state_work_is_guarded(
    cmd: UiCommand,
    home: Option<Seq<char>>,
    current: Option<Seq<char>>,
    phase: PhaseView,
    reply: Reply,
    now: i64,
)
    ensures
        ({
            let first = begun(cmd, home, current, now);
            let next = stepped(cmd, home, phase, reply, now);
            &&& !touches_archive(first.turn)
            &&& !(first.phase is Locked)
            &&& touches_archive(next.turn) ==> phase is Locked && reply is Finished
            &&& next.phase is Locked ==> phase is First && (reply matches Reply::Jobs {
                jobs,
                ..
            } && jobs@.len() == 0)
        }),
{
    if subject(cmd) != Subject::State {
        lemma_harmless(cmd, home, current, phase, reply, now);
    }
}

/// The local state is deleted only where the data directory has the expected name, and only by the
/// command that is for that.
pub proof fn law_reset_is_guarded(
    cmd: UiCommand,
    home: Option<Seq<char>>,
    current: Option<Seq<char>>,
    phase: PhaseView,
    reply: Reply,
    now: i64,
)
    ensures
        deletes_state(begun(cmd, home, current, now).turn) ==> {
            &&& cmd is ResetAllState
            &&& begun(cmd, home, current, now).turn.next == (NextView::Call {
                call: CallView::ResetState { dir: data_dir_path(home) },
            })
            &&& last_name(data_dir_path(home)) == Some("aadk"@)
        },
        !deletes_state(stepped(cmd, home, phase, reply, now).turn),
{
    if subject(cmd) != Subject::State {
        lemma_harmless(cmd, home, current, phase, reply, now);
    }
}

} // verus!
