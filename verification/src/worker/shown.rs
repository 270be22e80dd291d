//! What the worker makes of the answers to a command: which jobs and runs are followed, what becomes
//! the thing that is worked with, and what the pages can choose from.

use crate::commands::{AppEventView, UiCommand};
use crate::model::{id_text, or_empty};
use crate::text::{blank, lowered, opt_text, trimmed};
use crate::worker::command::stepped;
use crate::worker::jobs::unless_blank;
use crate::worker::phase::PhaseView;
use crate::worker::projects::{set_choices, target_choices, template_choices};
use crate::worker::reply::{AvailableToolchain, Reply, Target, Template, ToolchainSet};
use crate::worker::targets::{law_target_taken, target_taken};
use crate::worker::toolchains::versions_of;
use crate::worker::turn::{log, EffectView};
use vstd::prelude::*;

verus! {

/// The effect touches nothing but the pages.
pub open spec fn only_shows(e: EffectView) -> bool {
    e is Ui
}

/// The job of an answer, where it has an id, is followed on the page, and nothing else is.
pub open spec fn follows(
    effects: Seq<EffectView>,
    addr: Seq<char>,
    job: Option<String>,
    page: Seq<char>,
) -> bool {
    &&& forall|i: int|
        0 <= i < effects.len() ==> (only_shows(#[trigger] effects[i]) || effects[i] == (
        EffectView::JobStream { addr, job_id: or_empty(opt_text(job)), page }))
    &&& or_empty(opt_text(job)).len() > 0 <==> (effects.len() > 0 && effects.last() == (
    EffectView::JobStream { addr, job_id: or_empty(opt_text(job)), page }))
}

/// The configuration of a command that has a job carry something out, and the page it is for.
pub open spec fn job_page(cmd: UiCommand) -> Option<(Seq<char>, Seq<char>)> {
    match cmd {
        UiCommand::ToolchainInstall { cfg, .. } => Some((cfg.job_addr@, "toolchains"@)),
        UiCommand::ToolchainUpdate { cfg, .. } => Some((cfg.job_addr@, "toolchains"@)),
        UiCommand::ToolchainUninstall { cfg, .. } => Some((cfg.job_addr@, "toolchains"@)),
        UiCommand::ToolchainCleanupCache { cfg, .. } => Some((cfg.job_addr@, "toolchains"@)),
        UiCommand::TargetsInstallCuttlefish { cfg, .. } => Some((cfg.job_addr@, "targets"@)),
        UiCommand::TargetsStartCuttlefish { cfg, .. } => Some((cfg.job_addr@, "targets"@)),
        UiCommand::TargetsStopCuttlefish { cfg, .. } => Some((cfg.job_addr@, "targets"@)),
        UiCommand::TargetsInstallApk { cfg, .. } => Some((cfg.job_addr@, "targets"@)),
        UiCommand::BuildRun { cfg, .. } => Some((cfg.job_addr@, "console"@)),
        _ => None,
    }
}

/// A job that carries a command out is followed, at the job service, on the page of the command.
pub proof fn law_queued_jobs_are_followed(
    cmd: UiCommand,
    home: Option<Seq<char>>,
    phase: PhaseView,
    job_id: Option<String>,
    now: i64,
)
    requires
        job_page(cmd) is Some,
        phase is First,
    ensures
        ({
            let turn = stepped(cmd, home, phase, Reply::Queued { job_id }, now).turn;
            let (addr, page) = job_page(cmd).unwrap();
            &&& turn.next is Done
            &&& follows(turn.effects, addr, job_id, page)
        }),
{
}

/// The job of a launch is followed on the targets page.
pub proof fn law_launch_is_followed(
    cmd: UiCommand,
    home: Option<Seq<char>>,
    phase: PhaseView,
    job_id: Option<String>,
    now: i64,
)
    requires
        cmd is TargetsLaunchApp,
        phase is Launching,
    ensures
        ({
            let turn = stepped(cmd, home, phase, Reply::Queued { job_id }, now).turn;
            &&& turn.next is Done
            &&& follows(
                turn.effects,
                cmd->TargetsLaunchApp_cfg.job_addr@,
                job_id,
                "targets"@,
            )
        }),
{
}

/// The job of a bundle is followed on the page that asked for it.
pub proof fn law_bundles_are_followed(
    cmd: UiCommand,
    home: Option<Seq<char>>,
    phase: PhaseView,
    job_id: Option<String>,
    output_path: String,
    now: i64,
)
    requires
        phase is First,
        cmd is ObserveExportSupport || cmd is ObserveExportEvidence,
    ensures
        ({
            let turn = stepped(
                cmd,
                home,
                phase,
                Reply::Bundle { job_id, output_path },
                now,
            ).turn;
            &&& turn.next is Done
            &&& cmd is ObserveExportSupport ==> follows(
                turn.effects,
                cmd->ObserveExportSupport_cfg.job_addr@,
                job_id,
                cmd->ObserveExportSupport_page@,
            )
            &&& cmd is ObserveExportEvidence ==> follows(
                turn.effects,
                cmd->ObserveExportEvidence_cfg.job_addr@,
                job_id,
                cmd->ObserveExportEvidence_page@,
            )
        }),
{
}

/// A job that was started becomes the current one, for the worker and on the page, and is watched;
/// an answer without an id changes nothing.
pub proof fn law_started_job_is_watched(
    cmd: UiCommand,
    home: Option<Seq<char>>,
    phase: PhaseView,
    job_id: Option<String>,
    now: i64,
)
    requires
        cmd is HomeStartJob,
        phase is First,
    ensures
        ({
            let turn = stepped(cmd, home, phase, Reply::Queued { job_id }, now).turn;
            let id = or_empty(opt_text(job_id));
            &&& turn.next is Done
            &&& if id.len() > 0 {
                &&& turn.effects.contains(EffectView::CurrentJob { current: Some(id) })
                &&& turn.effects.contains(
                    EffectView::Ui { event: AppEventView::SetCurrentJob { job_id: Some(id) } },
                )
                &&& turn.effects.contains(
                    EffectView::HomeStream { addr: cmd->HomeStartJob_cfg.job_addr@, job_id: id },
                )
            } else {
                forall|i: int|
                    0 <= i < turn.effects.len() ==> #[trigger] turn.effects[i] is Ui
                        && turn.effects[i]->event is Log
            }
        }),
{
    let e = stepped(cmd, home, phase, Reply::Queued { job_id }, now).turn.effects;
    let id = or_empty(opt_text(job_id));
    if id.len() > 0 {
        assert(e[0] == EffectView::CurrentJob { current: Some(id) });
        assert(e[1] == EffectView::Ui { event: AppEventView::SetCurrentJob { job_id: Some(id) } });
        assert(e[4] == EffectView::HomeStream {
            addr: cmd->HomeStartJob_cfg.job_addr@,
            job_id: id,
        });
    }
}

/// The effects change what is worked with exactly to the set, and to nothing else.
pub open spec fn takes_up_set(effects: Seq<EffectView>, id: Option<Seq<char>>) -> bool {
    forall|i: int|
        0 <= i < effects.len() ==> match #[trigger] effects[i] {
            EffectView::Ui {
                event: AppEventView::UpdateActiveContext {
                    project_id,
                    project_path,
                    toolchain_set_id,
                    target_id,
                    run_id,
                },
            } => {
                &&& i == effects.len() - 1
                &&& id is Some
                &&& toolchain_set_id == id
                &&& project_id is None
                &&& project_path is None
                &&& target_id is None
                &&& run_id is None
            },
            EffectView::Ui { event } => event is Log && (i == effects.len() - 1 ==> id is None),
            _ => false,
        }
}

/// The effects change what is worked with exactly to the target, and to nothing else.
pub open spec fn takes_up_target(effects: Seq<EffectView>, id: Option<Seq<char>>) -> bool {
    forall|i: int|
        0 <= i < effects.len() ==> match #[trigger] effects[i] {
            EffectView::Ui {
                event: AppEventView::UpdateActiveContext {
                    project_id,
                    project_path,
                    toolchain_set_id,
                    target_id,
                    run_id,
                },
            } => {
                &&& i == effects.len() - 1
                &&& id is Some
                &&& target_id == id
                &&& project_id is None
                &&& project_path is None
                &&& toolchain_set_id is None
                &&& run_id is None
            },
            EffectView::Ui { event } => event is Log && (i == effects.len() - 1 ==> id is None),
            _ => false,
        }
}

/// A set that was made the active one is what is worked with from then on; one that was not, is not.
/// The set that is asked for is taken up where it has an id.
pub proof fn law_active_set_is_taken_up(
    cmd: UiCommand,
    home: Option<Seq<char>>,
    phase: PhaseView,
    reply: Reply,
    now: i64,
)
    ensures
        ({
            let turn = stepped(cmd, home, phase, reply, now).turn;
            &&& cmd is ToolchainSetActive && phase is First && reply is Applied ==> {
                &&& turn.effects.len() > 0
                &&& takes_up_set(
                    turn.effects,
                    if reply->Applied_ok {
                        Some(trimmed(cmd->ToolchainSetActive_toolchain_set_id@))
                    } else {
                        None
                    },
                )
            }
            &&& cmd is ToolchainCreateActiveLatest && phase is LatestActive && reply is Applied ==> {
                &&& turn.effects.len() > 0
                &&& takes_up_set(
                    turn.effects,
                    if reply->Applied_ok {
                        Some(phase->set)
                    } else {
                        None
                    },
                )
            }
            &&& cmd is ToolchainGetActive && phase is First && reply is SetFound ==> {
                &&& turn.effects.len() > 0
                &&& takes_up_set(
                    turn.effects,
                    match reply->SetFound_set {
                        Some(set) => unless_blank(opt_text(set.toolchain_set_id)),
                        None => None,
                    },
                )
            }
        }),
{
    if cmd is ToolchainGetActive && reply is SetFound {
        reveal_strlit("");
        lemma_empty_is_blank();
    }
}

proof fn lemma_empty_is_blank()
    ensures
        blank(""@),
{
    reveal_strlit("");
    assert(""@.len() == 0);
}

/// A target that was made the default is what is worked with from then on; one that was not, is not.
/// The default that is asked for is taken up where it has an id.
pub proof fn law_default_target_is_taken_up(
    cmd: UiCommand,
    home: Option<Seq<char>>,
    phase: PhaseView,
    reply: Reply,
    now: i64,
)
    requires
        phase is First,
    ensures
        ({
            let turn = stepped(cmd, home, phase, reply, now).turn;
            &&& cmd is TargetsSetDefault && reply is Applied ==> {
                &&& turn.effects.len() > 0
                &&& takes_up_target(
                    turn.effects,
                    if reply->Applied_ok {
                        Some(trimmed(cmd->TargetsSetDefault_target_id@))
                    } else {
                        None
                    },
                )
            }
            &&& cmd is TargetsGetDefault && reply is DefaultTarget ==> {
                &&& turn.effects.len() > 0
                &&& takes_up_target(
                    turn.effects,
                    match reply->DefaultTarget_target {
                        Some(target) => unless_blank(opt_text(target.target_id)),
                        None => None,
                    },
                )
            }
        }),
{
    lemma_empty_is_blank();
}

/// Listing targets takes up one of them exactly where the one that is worked with is not there, and
/// one that is usable is; one that is online before one that is not.
pub proof fn law_listed_target_is_taken_up(
    cmd: UiCommand,
    home: Option<Seq<char>>,
    phase: PhaseView,
    targets: Vec<Target>,
    now: i64,
)
    requires
        cmd is TargetsList,
        phase is First,
    ensures
        ({
            let turn = stepped(cmd, home, phase, Reply::Targets { targets }, now).turn;
            let active = trimmed(cmd->TargetsList_cfg.active_target_id@);
            let taken = target_taken(targets@, cmd->TargetsList_cfg.active_target_id@);
            &&& turn.next is Done
            &&& takes_up_target(turn.effects, taken)
            &&& turn.effects.len() == targets@.len() + 1 + if taken is Some {
                1nat
            } else {
                0nat
            }
            &&& taken matches Some(id) ==> exists|i: int|
                #![trigger targets@[i]]
                0 <= i < targets@.len() && opt_text(targets@[i].target_id) == Some(id) && !blank(id)
            &&& active.len() > 0 && (exists|i: int|
                #![trigger targets@[i]]
                0 <= i < targets@.len() && lowered(or_empty(opt_text(targets@[i].target_id)))
                    == lowered(active)) ==> taken is None
        }),
{
    let active = cmd->TargetsList_cfg.active_target_id@;
    lemma_empty_is_blank();
    reveal_strlit("");
    law_target_taken(targets@, active);
    let taken = target_taken(targets@, active);
    assert(Seq::<char>::empty() =~= ""@);
    let a = trimmed(active);
    if a.len() > 0 && exists|i: int|
        #![trigger targets@[i]]
        0 <= i < targets@.len() && lowered(or_empty(opt_text(targets@[i].target_id))) == lowered(a) {
        let i = choose|i: int|
            #![trigger targets@[i]]
            0 <= i < targets@.len() && lowered(or_empty(opt_text(targets@[i].target_id))) == lowered(
                a,
            );
        assert(lowered(crate::worker::targets::target_id_text(targets@[i])) == lowered(a));
    }
}

/// A project that was made is selected under the id of the answer and the path that was typed, as a
/// new one; its job is followed on the projects page.
pub proof fn law_made_project_is_selected(
    cmd: UiCommand,
    home: Option<Seq<char>>,
    phase: PhaseView,
    job_id: Option<String>,
    project_id: Option<String>,
    now: i64,
)
    requires
        cmd is ProjectCreate,
        phase is First,
    ensures
        ({
            let turn = stepped(
                cmd,
                home,
                phase,
                Reply::ProjectQueued { job_id, project_id },
                now,
            ).turn;
            let id = or_empty(opt_text(project_id));
            &&& turn.next is Done
            &&& follows(turn.effects, cmd->ProjectCreate_cfg.job_addr@, job_id, "projects"@)
            &&& turn.effects.contains(
                EffectView::Ui {
                    event: AppEventView::ProjectSelected {
                        project_id: id,
                        project_path: trimmed(cmd->ProjectCreate_path@),
                        opened_existing: false,
                    },
                },
            ) <==> !blank(id)
        }),
{
    let e = stepped(
        cmd,
        home,
        phase,
        Reply::ProjectQueued { job_id, project_id },
        now,
    ).turn.effects;
    let id = or_empty(opt_text(project_id));
    if !blank(id) {
        assert(e[1] == EffectView::Ui {
            event: AppEventView::ProjectSelected {
                project_id: id,
                project_path: trimmed(cmd->ProjectCreate_path@),
                opened_existing: false,
            },
        });
    }
}

/// A project that was opened is selected under its own id and path, as one that was there.
pub proof fn law_opened_project_is_selected(
    cmd: UiCommand,
    home: Option<Seq<char>>,
    phase: PhaseView,
    project: Option<crate::worker::reply::Project>,
    now: i64,
)
    requires
        cmd is ProjectOpen,
        phase is First,
    ensures
        ({
            let turn = stepped(cmd, home, phase, Reply::ProjectOpened { project }, now).turn;
            &&& turn.next is Done
            &&& turn.effects.len() > 0
            &&& turn.effects[0] is Ui && turn.effects[0]->event is Log
            &&& match project {
                Some(p) => match unless_blank(opt_text(p.project_id)) {
                    Some(id) => turn.effects.len() == 2 && turn.effects[1] == (EffectView::Ui {
                        event: AppEventView::ProjectSelected {
                            project_id: id,
                            project_path: p.path@,
                            opened_existing: true,
                        },
                    }),
                    None => turn.effects.len() == 1,
                },
                None => turn.effects.len() == 1,
            }
        }),
{
    lemma_empty_is_blank();
}

/// A pipeline that was started is followed on the workflow page, from its beginning exactly where
/// that was asked for: by the run of the answer, or the one that was typed where it names none, and
/// by the correlation id that was typed. What is worked with becomes the run and the project of the
/// answer, or else those that were typed, and the toolchain set and the target that were typed.
pub proof fn law_started_pipeline_is_followed(
    cmd: UiCommand,
    home: Option<Seq<char>>,
    phase: PhaseView,
    run_id: Option<String>,
    job_id: Option<String>,
    project_id: Option<String>,
    outputs: Vec<crate::model::KeyValue>,
    now: i64,
)
    requires
        cmd is WorkflowRunPipeline,
        phase is First,
    ensures
        ({
            let turn = stepped(
                cmd,
                home,
                phase,
                Reply::PipelineStarted { run_id, job_id, project_id, outputs },
                now,
            ).turn;
            let run = match unless_blank(opt_text(run_id)) {
                Some(id) => Some(id),
                None => id_text(cmd->WorkflowRunPipeline_run_id@),
            };
            let project = match unless_blank(opt_text(project_id)) {
                Some(id) => Some(id),
                None => id_text(cmd->WorkflowRunPipeline_project_id@),
            };
            let set = id_text(cmd->WorkflowRunPipeline_toolchain_set_id@);
            let target = id_text(cmd->WorkflowRunPipeline_target_id@);
            let corr = trimmed(cmd->WorkflowRunPipeline_correlation_id@);
            &&& turn.next is Done
            &&& turn.effects.len() >= 2
            &&& turn.effects[0] is Ui && turn.effects[0]->event is Log
            &&& if run is None && corr.len() == 0 {
                turn.effects.last() is Ui
            } else {
                turn.effects.last() == (EffectView::RunStream {
                    addr: cmd->WorkflowRunPipeline_cfg.job_addr@,
                    run_id: or_empty(run),
                    correlation_id: corr,
                    include_history: cmd->WorkflowRunPipeline_stream_history,
                    page: "workflow"@,
                })
            }
            &&& if run is None && project is None && set is None && target is None && blank(
                cmd->WorkflowRunPipeline_project_path@,
            ) {
                turn.effects[1] is Ui ==> turn.effects[1]->event is Log
            } else {
                &&& turn.effects[1] is Ui
                &&& turn.effects[1]->event is UpdateActiveContext
                &&& turn.effects[1]->event->UpdateActiveContext_project_id == project
                &&& turn.effects[1]->event->UpdateActiveContext_project_path == if project is Some
                    || !blank(cmd->WorkflowRunPipeline_project_path@) {
                    Some(trimmed(cmd->WorkflowRunPipeline_project_path@))
                } else {
                    None
                }
                &&& turn.effects[1]->event->UpdateActiveContext_toolchain_set_id == set
                &&& turn.effects[1]->event->UpdateActiveContext_target_id == target
                &&& turn.effects[1]->event->UpdateActiveContext_run_id == run
            }
        }),
{
}

/// The build that was found is put into the field for it.
pub proof fn law_resolved_build_is_shown(
    cmd: UiCommand,
    home: Option<Seq<char>>,
    phase: PhaseView,
    build_id: String,
    product: String,
    branch: String,
    target: String,
    now: i64,
)
    requires
        cmd is TargetsResolveCuttlefishBuild,
        phase is First,
    ensures
        ({
            let turn = stepped(
                cmd,
                home,
                phase,
                Reply::BuildResolved { build_id, product, branch, target },
                now,
            ).turn;
            &&& turn.next is Done
            &&& turn.effects.len() == 2
            &&& turn.effects[0] is Ui && turn.effects[0]->event is Log
            &&& turn.effects[1] == (EffectView::Ui {
                event: AppEventView::SetCuttlefishBuildId { build_id: build_id@ },
            })
        }),
{
}

/// The lines of a device's log are shown one by one as they come, and more are waited for, until the
/// stream ends.
pub proof fn law_logcat_goes_on(
    cmd: UiCommand,
    home: Option<Seq<char>>,
    reply: Reply,
    now: i64,
)
    requires
        cmd is TargetsStreamLogcat,
    ensures
        ({
            let step = stepped(cmd, home, PhaseView::First, reply, now);
            &&& step.turn.next is Await <==> reply is LogcatLine
            &&& reply is LogcatLine ==> {
                &&& step.phase is First
                &&& step.turn.effects.len() == 1
                &&& step.turn.effects[0] == log(
                    "targets"@,
                    crate::job_events::lossy_text(reply->line@),
                )
            }
            &&& reply is StreamEnded ==> step.turn.effects.len() == 0
        }),
{
}

/// The choices come from the templates in their order: each has the id and the name of a template,
/// and every template with an id is among them.
pub proof fn law_template_choices(templates: Seq<Template>)
    ensures
        ({
            let choices = template_choices(templates);
            &&& forall|k: int|
                #![trigger choices[k]]
                0 <= k < choices.len() ==> exists|i: int|
                    #![trigger templates[i]]
                    0 <= i < templates.len() && opt_text(templates[i].template_id) == Some(
                        choices[k].0,
                    ) && choices[k].1 == templates[i].name@ && choices[k].0.len() > 0
            &&& forall|i: int|
                #![trigger templates[i]]
                0 <= i < templates.len() && or_empty(opt_text(templates[i].template_id)).len() > 0
                    ==> choices.contains(
                    (opt_text(templates[i].template_id)->0, templates[i].name@),
                )
        }),
    decreases templates.len(),
{
    reveal_strlit("");
    if templates.len() > 0 {
        let rest = templates.drop_last();
        law_template_choices(rest);
        let choices = template_choices(templates);
        let before = template_choices(rest);
        assert forall|k: int|
            #![trigger choices[k]]
            0 <= k < choices.len() implies exists|i: int|
            #![trigger templates[i]]
            0 <= i < templates.len() && opt_text(templates[i].template_id) == Some(choices[k].0)
                && choices[k].1 == templates[i].name@ && choices[k].0.len() > 0 by {
            if k < before.len() {
                assert(choices[k] == before[k]);
                let i = choose|i: int|
                    #![trigger rest[i]]
                    0 <= i < rest.len() && opt_text(rest[i].template_id) == Some(before[k].0)
                        && before[k].1 == rest[i].name@ && before[k].0.len() > 0;
                assert(templates[i] == rest[i]);
            } else {
                assert(templates[templates.len() - 1] == templates.last());
            }
        }
        assert forall|i: int|
            #![trigger templates[i]]
            0 <= i < templates.len() && or_empty(opt_text(templates[i].template_id)).len()
                > 0 implies choices.contains(
            (opt_text(templates[i].template_id)->0, templates[i].name@),
        ) by {
            let wanted = (opt_text(templates[i].template_id)->0, templates[i].name@);
            if i < rest.len() {
                assert(rest[i] == templates[i]);
                let k = choose|k: int| 0 <= k < before.len() && before[k] == wanted;
                assert(choices[k] == wanted);
            } else {
                assert(choices[choices.len() - 1] == wanted);
            }
        }
    }
}

/// The choices come from the toolchain sets in their order: each has the id of a set, and every set
/// with an id is among them.
pub proof fn law_set_choices(sets: Seq<ToolchainSet>)
    ensures
        ({
            let choices = set_choices(sets);
            &&& forall|k: int|
                #![trigger choices[k]]
                0 <= k < choices.len() ==> choices[k].0.len() > 0 && exists|i: int|
                    #![trigger sets[i]]
                    0 <= i < sets.len() && opt_text(sets[i].toolchain_set_id) == Some(choices[k].0)
            &&& forall|i: int|
                #![trigger sets[i]]
                0 <= i < sets.len() && or_empty(opt_text(sets[i].toolchain_set_id)).len() > 0
                    ==> exists|k: int|
                    #![trigger choices[k]]
                    0 <= k < choices.len() && Some(choices[k].0) == opt_text(
                        sets[i].toolchain_set_id,
                    )
        }),
    decreases sets.len(),
{
    reveal_strlit("");
    if sets.len() > 0 {
        let rest = sets.drop_last();
        law_set_choices(rest);
        let choices = set_choices(sets);
        let before = set_choices(rest);
        assert forall|k: int|
            #![trigger choices[k]]
            0 <= k < choices.len() implies choices[k].0.len() > 0 && exists|i: int|
            #![trigger sets[i]]
            0 <= i < sets.len() && opt_text(sets[i].toolchain_set_id) == Some(choices[k].0) by {
            if k < before.len() {
                assert(choices[k] == before[k]);
                let i = choose|i: int|
                    #![trigger rest[i]]
                    0 <= i < rest.len() && opt_text(rest[i].toolchain_set_id) == Some(before[k].0);
                assert(sets[i] == rest[i]);
            } else {
                assert(sets[sets.len() - 1] == sets.last());
            }
        }
        assert forall|i: int|
            #![trigger sets[i]]
            0 <= i < sets.len() && or_empty(opt_text(sets[i].toolchain_set_id)).len()
                > 0 implies exists|k: int|
            #![trigger choices[k]]
            0 <= k < choices.len() && Some(choices[k].0) == opt_text(sets[i].toolchain_set_id) by {
            if i < rest.len() {
                assert(rest[i] == sets[i]);
                let k = choose|k: int|
                    #![trigger before[k]]
                    0 <= k < before.len() && Some(before[k].0) == opt_text(
                        rest[i].toolchain_set_id,
                    );
                assert(choices[k] == before[k]);
            } else {
                assert(Some(choices[choices.len() - 1].0) == opt_text(sets[i].toolchain_set_id));
            }
        }
    }
}

/// The choices come from the targets in their order: each has the id of a target, and every target
/// with an id is among them.
pub proof fn law_target_choices(targets: Seq<Target>)
    ensures
        ({
            let choices = target_choices(targets);
            &&& forall|k: int|
                #![trigger choices[k]]
                0 <= k < choices.len() ==> choices[k].0.len() > 0 && exists|i: int|
                    #![trigger targets[i]]
                    0 <= i < targets.len() && opt_text(targets[i].target_id) == Some(choices[k].0)
            &&& forall|i: int|
                #![trigger targets[i]]
                0 <= i < targets.len() && or_empty(opt_text(targets[i].target_id)).len() > 0
                    ==> exists|k: int|
                    #![trigger choices[k]]
                    0 <= k < choices.len() && Some(choices[k].0) == opt_text(targets[i].target_id)
        }),
    decreases targets.len(),
{
    reveal_strlit("");
    if targets.len() > 0 {
        let rest = targets.drop_last();
        law_target_choices(rest);
        let choices = target_choices(targets);
        let before = target_choices(rest);
        assert forall|k: int|
            #![trigger choices[k]]
            0 <= k < choices.len() implies choices[k].0.len() > 0 && exists|i: int|
            #![trigger targets[i]]
            0 <= i < targets.len() && opt_text(targets[i].target_id) == Some(choices[k].0) by {
            if k < before.len() {
                assert(choices[k] == before[k]);
                let i = choose|i: int|
                    #![trigger rest[i]]
                    0 <= i < rest.len() && opt_text(rest[i].target_id) == Some(before[k].0);
                assert(targets[i] == rest[i]);
            } else {
                assert(targets[targets.len() - 1] == targets.last());
            }
        }
        assert forall|i: int|
            #![trigger targets[i]]
            0 <= i < targets.len() && or_empty(opt_text(targets[i].target_id)).len()
                > 0 implies exists|k: int|
            #![trigger choices[k]]
            0 <= k < choices.len() && Some(choices[k].0) == opt_text(targets[i].target_id) by {
            if i < rest.len() {
                assert(rest[i] == targets[i]);
                let k = choose|k: int|
                    #![trigger before[k]]
                    0 <= k < before.len() && Some(before[k].0) == opt_text(rest[i].target_id);
                assert(choices[k] == before[k]);
            } else {
                assert(Some(choices[choices.len() - 1].0) == opt_text(targets[i].target_id));
            }
        }
    }
}

/// The versions that can be chosen are those of the toolchains, one for each that has one, in order.
pub proof fn law_versions_are_listed(items: Seq<AvailableToolchain>, more: AvailableToolchain)
    ensures
        versions_of(Seq::empty()).len() == 0,
        versions_of(items.push(more)) == match opt_text(more.version) {
            Some(v) => versions_of(items).push(v),
            None => versions_of(items),
        },
{
    assert(items.push(more).drop_last() =~= items);
}

/// What is available is shown under the provider that was asked for, and what a page can choose from
/// is what was answered.
pub proof fn law_choices_are_shown(
    cmd: UiCommand,
    home: Option<Seq<char>>,
    phase: PhaseView,
    reply: Reply,
    now: i64,
)
    ensures
        ({
            let turn = stepped(cmd, home, phase, reply, now).turn;
            &&& cmd is ToolchainListAvailable && phase is First && reply is Available ==> {
                &&& turn.next is Done
                &&& turn.effects.len() > 0
                &&& turn.effects[0] == (EffectView::Ui {
                    event: AppEventView::ToolchainAvailable {
                        provider_id: cmd->ToolchainListAvailable_provider_id@,
                        versions: versions_of(reply->Available_items@),
                    },
                })
            }
            &&& cmd is ProjectListTemplates && phase is First && reply is Templates ==> {
                &&& turn.next is Done
                &&& turn.effects.len() == reply->templates@.len() + 2
                &&& turn.effects.last() == (EffectView::Ui {
                    event: AppEventView::ProjectTemplates {
                        templates: template_choices(reply->templates@),
                    },
                })
            }
            &&& cmd is ProjectLoadDefaults && phase is First && reply is Sets ==> {
                &&& turn.effects.len() > 0
                &&& turn.effects[0] == (EffectView::Ui {
                    event: AppEventView::ProjectToolchainSets { sets: set_choices(reply->sets@) },
                })
            }
            &&& cmd is ProjectLoadDefaults && phase is LoadTargets && reply is Targets ==> {
                &&& turn.next is Done
                &&& turn.effects.len() == 1
                &&& turn.effects[0] == (EffectView::Ui {
                    event: AppEventView::ProjectTargets {
                        targets: target_choices(reply->targets@),
                    },
                })
            }
        }),
{
}

} // verus!
