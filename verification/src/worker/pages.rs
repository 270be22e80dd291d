//! Where what a command tells is shown: on the page that the command came from.

use crate::commands::{AppEventView, UiCommand};
use crate::config::AppConfig;
use crate::model::or_empty;
use crate::text::opt_text;
use crate::worker::command::{begun, stepped, subject, Subject};
use crate::worker::lists::page_of;
use crate::worker::phase::PhaseView;
use crate::worker::reply::Reply;
use crate::worker::steps::toolchains::toolchains_step;
use crate::worker::toolchains::{installed_ids, verdict_line, verify_from};
use crate::worker::turn::{job_stream, log, EffectView};
use vstd::prelude::*;

verus! {

/// The effect shows nothing in words, or shows it on the page.
pub open spec fn shown_on(e: EffectView, page: Seq<char>) -> bool {
    match e {
        EffectView::Ui { event: AppEventView::Log { page: p, .. } } => p == page,
        EffectView::JobStream { page: p, .. } => p == page,
        EffectView::RunStream { page: p, .. } => p == page,
        _ => true,
    }
}

/// Whatever the effects show in words, and whatever they follow, they show on the page.
pub open spec fn keep_to(effects: Seq<EffectView>, page: Seq<char>) -> bool {
    forall|i: int| 0 <= i < effects.len() ==> shown_on(#[trigger] effects[i], page)
}

proof fn lemma_verifying_keeps_to(
    cfg: AppConfig,
    job_id: Option<Seq<char>>,
    correlation_id: Seq<char>,
    ids: Seq<Option<Seq<char>>>,
    k: int,
    effects: Seq<EffectView>,
)
    requires
        keep_to(effects, "toolchains"@),
    ensures
        keep_to(
            verify_from(cfg, job_id, correlation_id, ids, k, effects).turn.effects,
            "toolchains"@,
        ),
    decreases ids.len() - k,
{
    if 0 <= k < ids.len() && ids[k] is None {
        lemma_verifying_keeps_to(
            cfg,
            job_id,
            correlation_id,
            ids,
            k + 1,
            effects.push(log("toolchains"@, "Skipping toolchain with missing id.\n"@)),
        );
    }
}

proof fn lemma_checking_keeps_to(cmd: UiCommand, phase: PhaseView, reply: Reply)
    requires
        cmd is ToolchainVerifyInstalled,
    ensures
        keep_to(toolchains_step(cmd, phase, reply).turn.effects, "toolchains"@),
{
    let cfg = cmd->ToolchainVerifyInstalled_cfg;
    let job_id = opt_text(cmd->ToolchainVerifyInstalled_job_id);
    let corr = cmd->ToolchainVerifyInstalled_correlation_id@;
    match phase {
        PhaseView::First => {
            if reply is Installed {
                let ids = installed_ids(reply->Installed_items@);
                lemma_verifying_keeps_to(cfg, job_id, corr, ids, 0, Seq::empty());
            }
        },
        PhaseView::Verify { ids, at } => {
            if 0 <= at < ids.len() {
                match reply {
                    Reply::Verified { verified, error, job_id: check_job } => {
                        let told = seq![
                            log(
                                "toolchains"@,
                                verdict_line(or_empty(ids[at]), verified, error),
                            ),
                        ] + job_stream(
                            cfg.job_addr@,
                            or_empty(opt_text(check_job)),
                            "toolchains"@,
                        );
                        assert(keep_to(told, "toolchains"@));
                        lemma_verifying_keeps_to(cfg, job_id, corr, ids, at + 1, told);
                    },
                    Reply::Failed { failure } => {
                        let told = seq![
                            log(
                                "toolchains"@,
                                "- "@ + or_empty(ids[at]) + " verify request failed: "@
                                    + failure.error@ + "\n"@,
                            ),
                        ];
                        assert(keep_to(told, "toolchains"@));
                        lemma_verifying_keeps_to(cfg, job_id, corr, ids, at + 1, told);
                    },
                    _ => {},
                }
            }
        },
        _ => {},
    }
}

#[verifier::spinoff_prover]
#[verifier::rlimit(60)]
proof fn lemma_jobs_on_their_page(
    cmd: UiCommand,
    home: Option<Seq<char>>,
    phase: PhaseView,
    reply: Reply,
    now: i64,
)
    requires
        subject(cmd) is Jobs,
    ensures
        keep_to(stepped(cmd, home, phase, reply, now).turn.effects, page_of(cmd)),
{
}

#[verifier::spinoff_prover]
#[verifier::rlimit(60)]
proof fn lemma_toolchains_on_their_page(
    cmd: UiCommand,
    home: Option<Seq<char>>,
    phase: PhaseView,
    reply: Reply,
    now: i64,
)
    requires
        subject(cmd) is Toolchains,
    ensures
        keep_to(stepped(cmd, home, phase, reply, now).turn.effects, page_of(cmd)),
{
    if cmd is ToolchainVerifyInstalled {
        lemma_checking_keeps_to(cmd, phase, reply);
    }
}

#[verifier::spinoff_prover]
#[verifier::rlimit(60)]
proof fn lemma_projects_on_their_page(
    cmd: UiCommand,
    home: Option<Seq<char>>,
    phase: PhaseView,
    reply: Reply,
    now: i64,
)
    requires
        subject(cmd) is Projects,
    ensures
        keep_to(stepped(cmd, home, phase, reply, now).turn.effects, page_of(cmd)),
{
}

#[verifier::spinoff_prover]
#[verifier::rlimit(60)]
proof fn lemma_targets_on_their_page(
    cmd: UiCommand,
    home: Option<Seq<char>>,
    phase: PhaseView,
    reply: Reply,
    now: i64,
)
    requires
        subject(cmd) is Targets,
    ensures
        keep_to(stepped(cmd, home, phase, reply, now).turn.effects, page_of(cmd)),
{
}

#[verifier::spinoff_prover]
#[verifier::rlimit(60)]
proof fn lemma_runs_on_their_page(
    cmd: UiCommand,
    home: Option<Seq<char>>,
    phase: PhaseView,
    reply: Reply,
    now: i64,
)
    requires
        subject(cmd) is Runs,
    ensures
        keep_to(stepped(cmd, home, phase, reply, now).turn.effects, page_of(cmd)),
{
}

#[verifier::spinoff_prover]
#[verifier::rlimit(60)]
proof fn lemma_builds_on_their_page(
    cmd: UiCommand,
    home: Option<Seq<char>>,
    phase: PhaseView,
    reply: Reply,
    now: i64,
)
    requires
        subject(cmd) is Builds,
    ensures
        keep_to(stepped(cmd, home, phase, reply, now).turn.effects, page_of(cmd)),
{
}

#[verifier::spinoff_prover]
#[verifier::rlimit(60)]
proof fn lemma_state_on_their_page(
    cmd: UiCommand,
    home: Option<Seq<char>>,
    phase: PhaseView,
    reply: Reply,
    now: i64,
)
    requires
        subject(cmd) is State,
    ensures
        keep_to(stepped(cmd, home, phase, reply, now).turn.effects, page_of(cmd)),
{
}

#[verifier::spinoff_prover]
#[verifier::rlimit(60)]
proof fn lemma_jobs_begun_on_their_page(
    cmd: UiCommand,
    home: Option<Seq<char>>,
    current: Option<Seq<char>>,
    now: i64,
)
    requires
        subject(cmd) is Jobs,
    ensures
        ({
            let turn = begun(cmd, home, current, now).turn;
            &&& !(cmd is JobsList && turn.next is Done) ==> keep_to(turn.effects, page_of(cmd))
            &&& cmd is JobsList && turn.next is Done ==> keep_to(
                turn.effects.drop_last(),
                page_of(cmd),
            ) && shown_on(turn.effects.last(), "jobs"@)
        }),
{
}

#[verifier::spinoff_prover]
#[verifier::rlimit(60)]
proof fn lemma_toolchains_begun_on_their_page(
    cmd: UiCommand,
    home: Option<Seq<char>>,
    current: Option<Seq<char>>,
    now: i64,
)
    requires
        subject(cmd) is Toolchains,
    ensures
        keep_to(begun(cmd, home, current, now).turn.effects, page_of(cmd)),
{
}

#[verifier::spinoff_prover]
#[verifier::rlimit(60)]
proof fn lemma_projects_begun_on_their_page(
    cmd: UiCommand,
    home: Option<Seq<char>>,
    current: Option<Seq<char>>,
    now: i64,
)
    requires
        subject(cmd) is Projects,
    ensures
        keep_to(begun(cmd, home, current, now).turn.effects, page_of(cmd)),
{
}

#[verifier::spinoff_prover]
#[verifier::rlimit(60)]
proof fn lemma_targets_begun_on_their_page(
    cmd: UiCommand,
    home: Option<Seq<char>>,
    current: Option<Seq<char>>,
    now: i64,
)
    requires
        subject(cmd) is Targets,
    ensures
        keep_to(begun(cmd, home, current, now).turn.effects, page_of(cmd)),
{
}

#[verifier::spinoff_prover]
#[verifier::rlimit(60)]
proof fn lemma_runs_begun_on_their_page(
    cmd: UiCommand,
    home: Option<Seq<char>>,
    current: Option<Seq<char>>,
    now: i64,
)
    requires
        subject(cmd) is Runs,
    ensures
        keep_to(begun(cmd, home, current, now).turn.effects, page_of(cmd)),
{
}

#[verifier::spinoff_prover]
#[verifier::rlimit(60)]
proof fn lemma_builds_begun_on_their_page(
    cmd: UiCommand,
    home: Option<Seq<char>>,
    current: Option<Seq<char>>,
    now: i64,
)
    requires
        subject(cmd) is Builds,
    ensures
        keep_to(begun(cmd, home, current, now).turn.effects, page_of(cmd)),
{
}

#[verifier::spinoff_prover]
#[verifier::rlimit(60)]
proof fn lemma_state_begun_on_their_page(
    cmd: UiCommand,
    home: Option<Seq<char>>,
    current: Option<Seq<char>>,
    now: i64,
)
    requires
        subject(cmd) is State,
    ensures
        keep_to(begun(cmd, home, current, now).turn.effects, page_of(cmd)),
{
}

/// What a command tells when it begins, it tells on the page that it came from; only that a list of
/// jobs cannot be asked for is told on the job history page.
pub proof fn law_begun_on_its_page(
    cmd: UiCommand,
    home: Option<Seq<char>>,
    current: Option<Seq<char>>,
    now: i64,
)
    ensures
        ({
            let turn = begun(cmd, home, current, now).turn;
            &&& !(cmd is JobsList && turn.next is Done) ==> keep_to(turn.effects, page_of(cmd))
            &&& cmd is JobsList && turn.next is Done ==> keep_to(
                turn.effects.drop_last(),
                page_of(cmd),
            ) && shown_on(turn.effects.last(), "jobs"@)
        }),
{
    match subject(cmd) {
        Subject::Jobs => {
            lemma_jobs_begun_on_their_page(cmd, home, current, now);
        },
        Subject::Toolchains => {
            lemma_toolchains_begun_on_their_page(cmd, home, current, now);
        },
        Subject::Projects => {
            lemma_projects_begun_on_their_page(cmd, home, current, now);
        },
        Subject::Targets => {
            lemma_targets_begun_on_their_page(cmd, home, current, now);
        },
        Subject::Runs => {
            lemma_runs_begun_on_their_page(cmd, home, current, now);
        },
        Subject::Builds => {
            lemma_builds_begun_on_their_page(cmd, home, current, now);
        },
        Subject::State => {
            lemma_state_begun_on_their_page(cmd, home, current, now);
        },
    }
}

/// What a command tells of an answer, it tells on the page that it came from; and a job or a run that it
/// follows is shown there.
pub proof fn law_stepped_on_its_page(
    cmd: UiCommand,
    home: Option<Seq<char>>,
    phase: PhaseView,
    reply: Reply,
    now: i64,
)
    ensures
        keep_to(stepped(cmd, home, phase, reply, now).turn.effects, page_of(cmd)),
{
    match subject(cmd) {
        Subject::Jobs => {
            lemma_jobs_on_their_page(cmd, home, phase, reply, now);
        },
        Subject::Toolchains => {
            lemma_toolchains_on_their_page(cmd, home, phase, reply, now);
        },
        Subject::Projects => {
            lemma_projects_on_their_page(cmd, home, phase, reply, now);
        },
        Subject::Targets => {
            lemma_targets_on_their_page(cmd, home, phase, reply, now);
        },
        Subject::Runs => {
            lemma_runs_on_their_page(cmd, home, phase, reply, now);
        },
        Subject::Builds => {
            lemma_builds_on_their_page(cmd, home, phase, reply, now);
        },
        Subject::State => {
            lemma_state_on_their_page(cmd, home, phase, reply, now);
        },
    }
}

} // verus!
