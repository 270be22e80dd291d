//! The commands about the state on disk: how they begin, and how they go on with each answer.

use crate::commands::{StateArchiveOptions, UiCommand};
use crate::text::{opt_text, texts};
use crate::util::{data_dir, data_dir_path, opt_str, text_ref};
use crate::worker::phase::{at, lose, lost, over, over_turn, settle, Phase, PhaseView, StepView};
use crate::worker::reply::Reply;
use crate::worker::state::{
    archive_restored, archive_saved, begin_open_state, begin_reload_state, begin_reset_state,
    begin_save_state, check_failed, check_jobs, config_read, end_reset_state, end_save_state,
    fail_check, fail_lock, fail_open_state, fail_reset_state, fail_save_state, jobs_checked,
    lock_failed, open_archive, open_failed, open_on_lock, open_on_restored, open_state,
    reload_answered, reload_begun, reload_failed, reload_missed, reload_on_answer, reload_on_config,
    reload_on_failure, reload_passed, reload_state, reset_done, reset_failed, reset_state,
    save_archive, save_failed, save_on_lock, save_state, Reload,
};
use crate::worker::turn::Turn;
use vstd::prelude::*;
use vstd::string::*;

verus! {

/// How a command about the state on disk begins.
pub open spec fn state_begun(cmd: UiCommand, home: Option<Seq<char>>) -> StepView {
    match cmd {
        UiCommand::StateSave { cfg, .. } => at(PhaseView::First, save_state(cfg)),
        UiCommand::StateOpen { cfg, archive_path, .. } => at(
            PhaseView::First,
            open_state(cfg, archive_path@),
        ),
        UiCommand::StateReload { cfg } => at(
            PhaseView::Reloading { reload: reload_begun(cfg, false) },
            reload_state(cfg),
        ),
        UiCommand::ResetAllState { .. } => at(PhaseView::First, reset_state(data_dir_path(home))),
        _ => lost(),
    }
}

/// Begins a command about the saved state.
pub fn begin_state(cmd: &UiCommand, home: &Option<String>) -> (r: (Phase, Turn))
    ensures
        (StepView { phase: r.0@, turn: r.1@ }) == state_begun(*cmd, opt_text(*home)),
{
    match cmd {
        UiCommand::StateSave { cfg, .. } => settle(Phase::First, begin_save_state(cfg)),
        UiCommand::StateOpen { cfg, archive_path, .. } => settle(
            Phase::First,
            begin_open_state(cfg, archive_path.as_str()),
        ),
        UiCommand::StateReload { cfg } => {
            let (reload, turn): (Reload, Turn) = begin_reload_state(cfg);
            settle(Phase::Reloading { reload }, turn)
        },
        UiCommand::ResetAllState { .. } => {
            let dir: String = data_dir(text_ref(home));
            settle(Phase::First, begin_reset_state(dir.as_str()))
        },
        _ => lose(),
    }
}

/// How the saving of the state goes on: the check for jobs, the turn for the work, the archive.
pub open spec fn save_step(
    output_path: Seq<char>,
    options: StateArchiveOptions,
    home: Option<Seq<char>>,
    phase: PhaseView,
    reply: Reply,
) -> StepView {
    match phase {
        PhaseView::First => match reply {
            Reply::Jobs { jobs, .. } => at(PhaseView::Locked, jobs_checked("ui.save"@, jobs@)),
            Reply::Failed { failure } => over(check_failed(failure.error@)),
            _ => lost(),
        },
        PhaseView::Locked => match reply {
            Reply::Finished => at(
                PhaseView::Archived,
                save_archive(output_path, options, home),
            ),
            Reply::Failed { failure } => over(lock_failed(failure.error@)),
            _ => lost(),
        },
        PhaseView::Archived => match reply {
            Reply::Archived { output_path: path, file_count, dir_count, total_bytes } => over(
                archive_saved(path@, file_count, dir_count, total_bytes, options),
            ),
            Reply::Failed { failure } => over(save_failed(failure.error@)),
            _ => lost(),
        },
        _ => lost(),
    }
}

fn step_save(
    output_path: &str,
    options: &StateArchiveOptions,
    home: Option<&str>,
    phase: Phase,
    reply: Reply,
) -> (r: (Phase, Turn))
    ensures
        (StepView { phase: r.0@, turn: r.1@ }) == save_step(
            output_path@,
            *options,
            opt_str(home),
            phase@,
            reply,
        ),
{
    match phase {
        Phase::First => match reply {
            Reply::Jobs { jobs, .. } => settle(Phase::Locked, check_jobs("ui.save", &jobs)),
            Reply::Failed { failure } => over_turn(fail_check(failure.error.as_str())),
            _ => lose(),
        },
        Phase::Locked => match reply {
            Reply::Finished => settle(
                Phase::Archived,
                save_on_lock(output_path, *options, home),
            ),
            Reply::Failed { failure } => over_turn(fail_lock(failure.error.as_str())),
            _ => lose(),
        },
        Phase::Archived => match reply {
            Reply::Archived { output_path: path, file_count, dir_count, total_bytes } => over_turn(
                end_save_state(path.as_str(), file_count, dir_count, total_bytes, options),
            ),
            Reply::Failed { failure } => over_turn(fail_save_state(failure.error.as_str())),
            _ => lose(),
        },
        _ => lose(),
    }
}

/// How the services' reloading goes on.
pub open spec fn reload_step(phase: PhaseView, reply: Reply) -> StepView {
    match phase {
        PhaseView::Reloading { reload } => match reply {
            Reply::Reloaded { ok, item_count, detail } => at(
                PhaseView::Reloading { reload: reload_passed(reload) },
                reload_answered(reload, ok, item_count, detail@),
            ),
            Reply::Failed { failure } => at(
                PhaseView::Reloading { reload: reload_missed(reload, failure.error@) },
                reload_failed(reload, failure.error@),
            ),
            _ => lost(),
        },
        _ => lost(),
    }
}

fn step_reload(phase: Phase, reply: Reply) -> (r: (Phase, Turn))
    ensures
        (StepView { phase: r.0@, turn: r.1@ }) == reload_step(phase@, reply),
{
    match phase {
        Phase::Reloading { reload } => match reply {
            Reply::Reloaded { ok, item_count, detail } => {
                let (next, turn): (Reload, Turn) = reload_on_answer(
                    reload,
                    ok,
                    item_count,
                    detail.as_str(),
                );
                settle(Phase::Reloading { reload: next }, turn)
            },
            Reply::Failed { failure } => {
                let (next, turn): (Reload, Turn) = reload_on_failure(
                    reload,
                    failure.error.as_str(),
                );
                settle(Phase::Reloading { reload: next }, turn)
            },
            _ => lose(),
        },
        _ => lose(),
    }
}

/// How the restoring of the state goes on: the check for jobs, the turn for the work, the archive,
/// the configuration, and the services.
pub open spec fn open_step(
    archive_path: Seq<char>,
    options: StateArchiveOptions,
    home: Option<Seq<char>>,
    phase: PhaseView,
    reply: Reply,
) -> StepView {
    match phase {
        PhaseView::First => match reply {
            Reply::Jobs { jobs, .. } => at(PhaseView::Locked, jobs_checked("ui.open"@, jobs@)),
            Reply::Failed { failure } => over(check_failed(failure.error@)),
            _ => lost(),
        },
        PhaseView::Locked => match reply {
            Reply::Finished => at(
                PhaseView::Archived,
                open_archive(archive_path, options, home),
            ),
            Reply::Failed { failure } => over(lock_failed(failure.error@)),
            _ => lost(),
        },
        PhaseView::Archived => match reply {
            Reply::Restored { restored_files, restored_dirs, preserved_dirs } => at(
                PhaseView::Config,
                archive_restored(
                    archive_path,
                    options,
                    home,
                    restored_files,
                    restored_dirs,
                    texts(preserved_dirs@),
                ),
            ),
            Reply::Failed { failure } => over(open_failed(failure.error@)),
            _ => lost(),
        },
        PhaseView::Config => match reply {
            Reply::Config { cfg } => at(
                PhaseView::Reloading { reload: reload_begun(cfg, true) },
                config_read(cfg),
            ),
            _ => lost(),
        },
        PhaseView::Reloading { .. } => reload_step(phase, reply),
        _ => lost(),
    }
}

fn open_archived(
    archive_path: &str,
    options: &StateArchiveOptions,
    home: Option<&str>,
    reply: Reply,
) -> (r: (Phase, Turn))
    ensures
        (StepView { phase: r.0@, turn: r.1@ }) == open_step(
            archive_path@,
            *options,
            opt_str(home),
            PhaseView::Archived,
            reply,
        ),
{
    match reply {
        Reply::Restored { restored_files, restored_dirs, preserved_dirs } => settle(
            Phase::Config,
            open_on_restored(
                archive_path,
                options,
                home,
                restored_files,
                restored_dirs,
                &preserved_dirs,
            ),
        ),
        Reply::Failed { failure } => over_turn(fail_open_state(failure.error.as_str())),
        _ => lose(),
    }
}

fn step_open(
    archive_path: &str,
    options: &StateArchiveOptions,
    home: Option<&str>,
    phase: Phase,
    reply: Reply,
) -> (r: (Phase, Turn))
    ensures
        (StepView { phase: r.0@, turn: r.1@ }) == open_step(
            archive_path@,
            *options,
            opt_str(home),
            phase@,
            reply,
        ),
{
    match phase {
        Phase::First => match reply {
            Reply::Jobs { jobs, .. } => settle(Phase::Locked, check_jobs("ui.open", &jobs)),
            Reply::Failed { failure } => over_turn(fail_check(failure.error.as_str())),
            _ => lose(),
        },
        Phase::Locked => match reply {
            Reply::Finished => settle(
                Phase::Archived,
                open_on_lock(archive_path, *options, home),
            ),
            Reply::Failed { failure } => over_turn(fail_lock(failure.error.as_str())),
            _ => lose(),
        },
        Phase::Archived => open_archived(archive_path, options, home, reply),
        Phase::Config => match reply {
            Reply::Config { cfg } => {
                let (reload, turn): (Reload, Turn) = reload_on_config(cfg);
                settle(Phase::Reloading { reload }, turn)
            },
            _ => lose(),
        },
        Phase::Reloading { reload } => step_reload(Phase::Reloading { reload }, reply),
        _ => lose(),
    }
}

/// How a command about the state on disk goes on with an answer.
pub open spec fn state_step(
    cmd: UiCommand,
    home: Option<Seq<char>>,
    phase: PhaseView,
    reply: Reply,
) -> StepView {
    match cmd {
        UiCommand::ResetAllState { .. } => match reply {
            Reply::Finished => over(reset_done()),
            Reply::Failed { failure } => over(reset_failed(failure.error@)),
            _ => lost(),
        },
        UiCommand::StateSave { output_path, options, .. } => save_step(
            output_path@,
            options,
            home,
            phase,
            reply,
        ),
        UiCommand::StateOpen { archive_path, options, .. } => open_step(
            archive_path@,
            options,
            home,
            phase,
            reply,
        ),
        UiCommand::StateReload { .. } => reload_step(phase, reply),
        _ => lost(),
    }
}

/// Takes an answer to a command about the saved state and goes on.
pub fn step_state(
    cmd: &UiCommand,
    home: &Option<String>,
    phase: Phase,
    reply: Reply,
) -> (r: (Phase, Turn))
    ensures
        (StepView { phase: r.0@, turn: r.1@ }) == state_step(*cmd, opt_text(*home), phase@, reply),
{
    match cmd {
        UiCommand::ResetAllState { .. } => match reply {
            Reply::Finished => over_turn(end_reset_state()),
            Reply::Failed { failure } => over_turn(fail_reset_state(failure.error.as_str())),
            _ => lose(),
        },
        UiCommand::StateSave { output_path, options, .. } => step_save(
            output_path.as_str(),
            options,
            text_ref(home),
            phase,
            reply,
        ),
        UiCommand::StateOpen { archive_path, options, .. } => step_open(
            archive_path.as_str(),
            options,
            text_ref(home),
            phase,
            reply,
        ),
        UiCommand::StateReload { .. } => step_reload(phase, reply),
        _ => lose(),
    }
}

} // verus!
