//! The commands about projects: how they begin, and how they go on with each answer.

use crate::commands::UiCommand;
use crate::config::AppConfig;
use crate::text::opt_text;
use crate::worker::jobs::{tell_failure, told_failure};
use crate::worker::phase::{at, lose, lost, over, over_turn, settle, Phase, PhaseView, StepView};
use crate::worker::projects::{
    active_set_id, active_set_known, active_set_unknown, begin_create_project, begin_list_recent,
    begin_list_templates, begin_load_defaults, begin_open_project, begin_set_config,
    begin_use_defaults, config_set, create_project, default_sets_came, default_sets_failed,
    default_target_id, default_target_known, default_target_unknown, default_targets_came,
    defaults_applied, defaults_on_sets, defaults_on_sets_failure, defaults_on_targets,
    end_create_project, end_list_recent, end_list_templates, end_open_project, end_set_config,
    end_use_defaults, list_recent, list_templates, load_defaults, open_project, project_created,
    project_opened, recent_listed, set_config, set_id_of, target_id_of, templates_listed,
    use_defaults, use_on_set, use_on_set_failure, use_on_target, use_on_target_failure,
};
use crate::worker::reply::Reply;
use crate::worker::turn::{error, hand_on, Turn};
use vstd::prelude::*;
use vstd::string::*;

verus! {

/// How a command about projects begins.
pub open spec fn projects_begun(cmd: UiCommand) -> StepView {
    match cmd {
        UiCommand::ProjectListTemplates { cfg } => at(PhaseView::First, list_templates(cfg)),
        UiCommand::ProjectListRecent { cfg } => at(PhaseView::First, list_recent(cfg)),
        UiCommand::ProjectLoadDefaults { cfg } => at(PhaseView::First, load_defaults(cfg)),
        UiCommand::ProjectCreate { cfg, name, path, template_id, job_id, correlation_id } => at(
            PhaseView::First,
            create_project(cfg, name@, path@, template_id@, opt_text(job_id), correlation_id@),
        ),
        UiCommand::ProjectOpen { cfg, path } => at(PhaseView::First, open_project(cfg, path@)),
        UiCommand::ProjectSetConfig { cfg, project_id, toolchain_set_id, default_target_id } => at(
            PhaseView::First,
            set_config(cfg, project_id@, opt_text(toolchain_set_id), opt_text(default_target_id)),
        ),
        UiCommand::ProjectUseActiveDefaults { cfg, project_id } => at(
            PhaseView::First,
            use_defaults(cfg, project_id@),
        ),
        _ => lost(),
    }
}

/// Begins a command about projects.
pub fn begin_projects(cmd: &UiCommand) -> (r: (Phase, Turn))
    ensures
        (StepView { phase: r.0@, turn: r.1@ }) == projects_begun(*cmd),
{
    match cmd {
        UiCommand::ProjectListTemplates { cfg } => settle(Phase::First, begin_list_templates(cfg)),
        UiCommand::ProjectListRecent { cfg } => settle(Phase::First, begin_list_recent(cfg)),
        UiCommand::ProjectLoadDefaults { cfg } => settle(Phase::First, begin_load_defaults(cfg)),
        UiCommand::ProjectCreate { cfg, name, path, template_id, job_id, correlation_id } => settle(
            Phase::First,
            begin_create_project(
                cfg,
                name.as_str(),
                path.as_str(),
                template_id.as_str(),
                job_id,
                correlation_id.as_str(),
            ),
        ),
        UiCommand::ProjectOpen { cfg, path } => settle(
            Phase::First,
            begin_open_project(cfg, path.as_str()),
        ),
        UiCommand::ProjectSetConfig { cfg, project_id, toolchain_set_id, default_target_id } => settle(
            Phase::First,
            begin_set_config(cfg, project_id.as_str(), toolchain_set_id, default_target_id),
        ),
        UiCommand::ProjectUseActiveDefaults { cfg, project_id } => settle(
            Phase::First,
            begin_use_defaults(cfg, project_id.as_str()),
        ),
        _ => lose(),
    }
}

/// How the loading of defaults goes on: first the toolchain sets, after them the targets.
pub open spec fn load_defaults_step(cfg: AppConfig, phase: PhaseView, reply: Reply) -> StepView {
    match phase {
        PhaseView::First => match reply {
            Reply::Sets { sets, .. } => at(
                PhaseView::LoadTargets,
                default_sets_came(cfg, sets@),
            ),
            Reply::Failed { failure } => at(
                PhaseView::LoadTargets,
                default_sets_failed(cfg, failure.connecting, failure.error@),
            ),
            _ => lost(),
        },
        PhaseView::LoadTargets => match reply {
            Reply::Targets { targets } => over(default_targets_came(targets@)),
            Reply::Failed { failure } => over(
                told_failure(
                    "projects"@,
                    "TargetService"@,
                    "List targets failed: "@,
                    failure.connecting,
                    failure.error@,
                ),
            ),
            _ => lost(),
        },
        _ => lost(),
    }
}

fn step_load_defaults(cfg: &AppConfig, phase: Phase, reply: Reply) -> (r: (Phase, Turn))
    ensures
        (StepView { phase: r.0@, turn: r.1@ }) == load_defaults_step(*cfg, phase@, reply),
{
    match phase {
        Phase::First => match reply {
            Reply::Sets { sets, .. } => settle(
                Phase::LoadTargets,
                defaults_on_sets(cfg, &sets),
            ),
            Reply::Failed { failure } => settle(
                Phase::LoadTargets,
                defaults_on_sets_failure(cfg, &failure),
            ),
            _ => lose(),
        },
        Phase::LoadTargets => match reply {
            Reply::Targets { targets } => over_turn(defaults_on_targets(&targets)),
            Reply::Failed { failure } => over_turn(
                tell_failure("projects", "TargetService", "List targets failed: ", &failure),
            ),
            _ => lose(),
        },
        _ => lose(),
    }
}

/// How a project takes over the defaults: the toolchain set, the target, and the change itself.
pub open spec fn use_defaults_step(
    cfg: AppConfig,
    project_id: Seq<char>,
    phase: PhaseView,
    reply: Reply,
) -> StepView {
    match phase {
        PhaseView::First => match reply {
            Reply::SetFound { set } => at(
                PhaseView::UseTarget { set_id: active_set_id(set) },
                active_set_known(cfg),
            ),
            Reply::Failed { failure } => at(
                PhaseView::UseTarget { set_id: None },
                active_set_unknown(cfg, failure.connecting, failure.error@),
            ),
            _ => lost(),
        },
        PhaseView::UseTarget { set_id } => match reply {
            Reply::DefaultTarget { target } => at(
                PhaseView::UseApply { set_id, target_id: default_target_id(target) },
                default_target_known(cfg, project_id, set_id, default_target_id(target)),
            ),
            Reply::Failed { failure } => at(
                PhaseView::UseApply { set_id, target_id: None },
                default_target_unknown(
                    cfg,
                    project_id,
                    set_id,
                    failure.connecting,
                    failure.error@,
                ),
            ),
            _ => lost(),
        },
        PhaseView::UseApply { set_id, target_id } => match reply {
            Reply::Applied { ok } => over(defaults_applied(project_id, set_id, target_id, ok)),
            Reply::Failed { failure } => over(error(failure.error@)),
            _ => lost(),
        },
        _ => lost(),
    }
}

fn step_use_defaults(cfg: &AppConfig, project_id: &str, phase: Phase, reply: Reply) -> (r: (
    Phase,
    Turn,
))
    ensures
        (StepView { phase: r.0@, turn: r.1@ }) == use_defaults_step(
            *cfg,
            project_id@,
            phase@,
            reply,
        ),
{
    match phase {
        Phase::First => match reply {
            Reply::SetFound { set } => settle(
                Phase::UseTarget { set_id: set_id_of(&set) },
                use_on_set(cfg),
            ),
            Reply::Failed { failure } => settle(
                Phase::UseTarget { set_id: None },
                use_on_set_failure(cfg, &failure),
            ),
            _ => lose(),
        },
        Phase::UseTarget { set_id } => match reply {
            Reply::DefaultTarget { target } => {
                let target_id: Option<String> = target_id_of(&target);
                let turn: Turn = use_on_target(cfg, project_id, &set_id, &target_id);
                settle(Phase::UseApply { set_id, target_id }, turn)
            },
            Reply::Failed { failure } => {
                let turn: Turn = use_on_target_failure(cfg, project_id, &set_id, &failure);
                settle(Phase::UseApply { set_id, target_id: None }, turn)
            },
            _ => lose(),
        },
        Phase::UseApply { set_id, target_id } => match reply {
            Reply::Applied { ok } => over_turn(
                end_use_defaults(project_id, &set_id, &target_id, ok),
            ),
            Reply::Failed { failure } => over_turn(hand_on(failure.error)),
            _ => lose(),
        },
        _ => lose(),
    }
}

/// How a command about projects goes on with an answer.
pub open spec fn projects_step(cmd: UiCommand, phase: PhaseView, reply: Reply) -> StepView {
    match cmd {
        UiCommand::ProjectListTemplates { .. } => match reply {
            Reply::Templates { templates } => over(templates_listed(templates@)),
            Reply::Failed { failure } => over(error(failure.error@)),
            _ => lost(),
        },
        UiCommand::ProjectListRecent { .. } => match reply {
            Reply::Projects { projects, next_page_token } => over(
                recent_listed(projects@, opt_text(next_page_token)),
            ),
            Reply::Failed { failure } => over(error(failure.error@)),
            _ => lost(),
        },
        UiCommand::ProjectCreate { cfg, path, .. } => match reply {
            Reply::ProjectQueued { job_id: queued_id, project_id } => over(
                project_created(cfg, path@, opt_text(project_id), opt_text(queued_id)),
            ),
            Reply::Failed { failure } => over(
                told_failure(
                    "projects"@,
                    "ProjectService"@,
                    "Create project failed: "@,
                    failure.connecting,
                    failure.error@,
                ),
            ),
            _ => lost(),
        },
        UiCommand::ProjectOpen { .. } => match reply {
            Reply::ProjectOpened { project } => over(project_opened(project)),
            Reply::Failed { failure } => over(
                told_failure(
                    "projects"@,
                    "ProjectService"@,
                    "Open project failed: "@,
                    failure.connecting,
                    failure.error@,
                ),
            ),
            _ => lost(),
        },
        UiCommand::ProjectSetConfig { project_id, .. } => match reply {
            Reply::Applied { ok } => over(config_set(project_id@, ok)),
            Reply::Failed { failure } => over(error(failure.error@)),
            _ => lost(),
        },
        UiCommand::ProjectLoadDefaults { cfg } => load_defaults_step(cfg, phase, reply),
        UiCommand::ProjectUseActiveDefaults { cfg, project_id } => use_defaults_step(
            cfg,
            project_id@,
            phase,
            reply,
        ),
        _ => lost(),
    }
}

/// Takes an answer to a command about projects and goes on.
pub fn step_projects(cmd: &UiCommand, phase: Phase, reply: Reply) -> (r: (Phase, Turn))
    ensures
        (StepView { phase: r.0@, turn: r.1@ }) == projects_step(*cmd, phase@, reply),
{
    match cmd {
        UiCommand::ProjectListTemplates { .. } => match reply {
            Reply::Templates { templates } => over_turn(end_list_templates(&templates)),
            Reply::Failed { failure } => over_turn(hand_on(failure.error)),
            _ => lose(),
        },
        UiCommand::ProjectListRecent { .. } => match reply {
            Reply::Projects { projects, next_page_token } => over_turn(
                end_list_recent(&projects, &next_page_token),
            ),
            Reply::Failed { failure } => over_turn(hand_on(failure.error)),
            _ => lose(),
        },
        UiCommand::ProjectCreate { cfg, path, .. } => match reply {
            Reply::ProjectQueued { job_id: queued_id, project_id } => over_turn(
                end_create_project(cfg, path.as_str(), &project_id, &queued_id),
            ),
            Reply::Failed { failure } => over_turn(
                tell_failure("projects", "ProjectService", "Create project failed: ", &failure),
            ),
            _ => lose(),
        },
        UiCommand::ProjectOpen { .. } => match reply {
            Reply::ProjectOpened { project } => over_turn(end_open_project(&project)),
            Reply::Failed { failure } => over_turn(
                tell_failure("projects", "ProjectService", "Open project failed: ", &failure),
            ),
            _ => lose(),
        },
        UiCommand::ProjectSetConfig { project_id, .. } => match reply {
            Reply::Applied { ok } => over_turn(end_set_config(project_id.as_str(), ok)),
            Reply::Failed { failure } => over_turn(hand_on(failure.error)),
            _ => lose(),
        },
        UiCommand::ProjectLoadDefaults { cfg } => step_load_defaults(cfg, phase, reply),
        UiCommand::ProjectUseActiveDefaults { cfg, project_id } => step_use_defaults(
            cfg,
            project_id.as_str(),
            phase,
            reply,
        ),
        _ => lose(),
    }
}

} // verus!
