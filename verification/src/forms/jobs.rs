//! The job history page.

use crate::commands::UiCommand;
use crate::config::AppConfig;
use crate::text::{parse_u32, u32_spelled};
use crate::ui_state::JobsHistoryState;
use vstd::prelude::*;
use vstd::string::*;

verus! {

/// The number that was typed, or else the usual one.
pub open spec fn number_or(typed: Seq<char>, usual: u32) -> u32 {
    match u32_spelled(typed) {
        Some(n) => n,
        None => usual,
    }
}

/// The number that was typed, or else the usual one.
pub fn typed_number(typed: &str, usual: u32) -> (r: u32)
    ensures
        r == number_or(typed@, usual),
{
    match parse_u32(typed) {
        Some(n) => n,
        None => usual,
    }
}

/// The button that lists jobs.
pub fn list_jobs(cfg: &AppConfig, form: &JobsHistoryState) -> (r: UiCommand)
    ensures
        r matches UiCommand::JobsList {
            cfg: c,
            job_types,
            states,
            created_after,
            created_before,
            finished_after,
            finished_before,
            correlation_id,
            run_id,
            page_size,
            page_token,
            page,
        } && {
            &&& c == *cfg
            &&& job_types == form.job_types
            &&& states == form.states
            &&& created_after == form.created_after
            &&& created_before == form.created_before
            &&& finished_after == form.finished_after
            &&& finished_before == form.finished_before
            &&& correlation_id == form.correlation_id
            &&& run_id@.len() == 0
            &&& page_size == number_or(form.page_size@, 50)
            &&& page_token == form.page_token
            &&& page@ == "jobs"@
        },
{
    UiCommand::JobsList {
        cfg: cfg.clone(),
        job_types: form.job_types.clone(),
        states: form.states.clone(),
        created_after: form.created_after.clone(),
        created_before: form.created_before.clone(),
        finished_after: form.finished_after.clone(),
        finished_before: form.finished_before.clone(),
        correlation_id: form.correlation_id.clone(),
        run_id: String::new(),
        page_size: typed_number(form.page_size.as_str(), 50),
        page_token: form.page_token.clone(),
        page: "jobs",
    }
}

/// The button that lists the history of a job.
pub fn list_history(cfg: &mut AppConfig, form: &JobsHistoryState) -> (r: UiCommand)
    ensures
        *final(cfg) == (AppConfig { last_job_id: form.job_id, ..*old(cfg) }),
        r matches UiCommand::JobsHistory {
            cfg: c,
            job_id,
            kinds,
            after,
            before,
            page_size,
            page_token,
        } && {
            &&& c == *final(cfg)
            &&& job_id == form.job_id
            &&& kinds == form.kinds
            &&& after == form.after
            &&& before == form.before
            &&& page_size == number_or(form.history_page_size@, 200)
            &&& page_token == form.history_page_token
        },
{
    cfg.last_job_id = form.job_id.clone();
    UiCommand::JobsHistory {
        cfg: cfg.clone(),
        job_id: form.job_id.clone(),
        kinds: form.kinds.clone(),
        after: form.after.clone(),
        before: form.before.clone(),
        page_size: typed_number(form.history_page_size.as_str(), 200),
        page_token: form.history_page_token.clone(),
    }
}

/// The button that exports the log of a job.
pub fn export_logs(cfg: &mut AppConfig, form: &JobsHistoryState) -> (r: UiCommand)
    ensures
        *final(cfg) == (AppConfig { last_job_id: form.job_id, ..*old(cfg) }),
        r matches UiCommand::JobsExportLogs { cfg: c, job_id, output_path, page } && {
            &&& c == *final(cfg)
            &&& job_id == form.job_id
            &&& output_path == form.output_path
            &&& page@ == "jobs"@
        },
{
    cfg.last_job_id = form.job_id.clone();
    UiCommand::JobsExportLogs {
        cfg: cfg.clone(),
        job_id: form.job_id.clone(),
        output_path: form.output_path.clone(),
        page: "jobs",
    }
}

/// A number that is typed counts, whatever the usual one; what is no number stands for the usual one.
pub proof fn law_typed_number(typed: Seq<char>, usual: u32)
    ensures
        u32_spelled(typed) matches Some(n) ==> number_or(typed, usual) == n,
        u32_spelled(typed) is None ==> number_or(typed, usual) == usual,
{
}

} // verus!
