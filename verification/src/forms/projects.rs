//! The projects page.

use crate::commands::UiCommand;
use crate::config::AppConfig;
use crate::forms::shared::{choose_job, job_choice, remember, remembered};
use crate::text::{blank, is_blank, text_eq, trim_owned, trimmed};
use crate::ui_state::ProjectsState;
use vstd::prelude::*;
use vstd::string::*;

verus! {

/// A choice, unless it is blank or the one for none.
pub open spec fn chosen(id: String) -> Option<String> {
    if blank(id@) || id@ == "none"@ {
        None
    } else {
        Some(id)
    }
}

fn if_chosen(id: &String) -> (r: Option<String>)
    ensures
        r == chosen(*id),
{
    if is_blank(id.as_str()) || text_eq(id.as_str(), "none") {
        None
    } else {
        Some(id.clone())
    }
}

/// A folder was chosen: it is opened where it is a project already.
pub fn open_project(cfg: &AppConfig, path: &str, is_project: bool) -> (r: Option<UiCommand>)
    ensures
        match r {
            Some(cmd) => {
                &&& is_project
                &&& !blank(path@)
                &&& cmd matches UiCommand::ProjectOpen { cfg: c, path: p } && c == *cfg && p@
                    == trimmed(path@)
            },
            None => !is_project || blank(path@),
        },
{
    if !is_project || is_blank(path) {
        return None;
    }
    Some(UiCommand::ProjectOpen { cfg: cfg.clone(), path: trim_owned(path) })
}

/// The button that creates a project, given the folder for it.
pub fn create_project(cfg: &mut AppConfig, form: &ProjectsState, path: String) -> (r: UiCommand)
    ensures
        *final(cfg) == remembered(*old(cfg), form.job_id, form.correlation_id),
        r == (UiCommand::ProjectCreate {
            cfg: *final(cfg),
            name: form.name,
            path,
            template_id: form.template_id,
            job_id: job_choice(form.use_job_id, form.job_id),
            correlation_id: form.correlation_id,
        }),
{
    remember(cfg, &form.job_id, &form.correlation_id);
    UiCommand::ProjectCreate {
        cfg: cfg.clone(),
        name: form.name.clone(),
        path,
        template_id: form.template_id.clone(),
        job_id: choose_job(form.use_job_id, &form.job_id),
        correlation_id: form.correlation_id.clone(),
    }
}

/// The button that sets a project's defaults.
pub fn set_config(cfg: &AppConfig, form: &ProjectsState) -> (r: UiCommand)
    ensures
        r matches UiCommand::ProjectSetConfig {
            cfg: c,
            project_id,
            toolchain_set_id,
            default_target_id,
        } && {
            &&& c == *cfg
            &&& project_id == form.project_id
            &&& toolchain_set_id == chosen(form.toolchain_set_id)
            &&& default_target_id == chosen(form.default_target_id)
        },
{
    UiCommand::ProjectSetConfig {
        cfg: cfg.clone(),
        project_id: form.project_id.clone(),
        toolchain_set_id: if_chosen(&form.toolchain_set_id),
        default_target_id: if_chosen(&form.default_target_id),
    }
}

/// The button that gives a project the defaults that are active.
pub fn use_defaults(cfg: &AppConfig, form: &ProjectsState) -> (r: UiCommand)
    ensures
        r == (UiCommand::ProjectUseActiveDefaults {
            cfg: *cfg,
            project_id: form.project_id,
        }),
{
    UiCommand::ProjectUseActiveDefaults {
        cfg: cfg.clone(),
        project_id: form.project_id.clone(),
    }
}

/// A choice is sent along exactly where it is neither blank nor the one for none; then as it is.
pub proof fn law_chosen(id: String)
    ensures
        chosen(id) is Some <==> !blank(id@) && id@ != "none"@,
        chosen(id) matches Some(c) ==> c == id,
{
}

} // verus!
