//! Jobs: starting, watching, cancelling, listing and exporting them.

use crate::commands::{AppEvent, AppEventView};
use crate::config::AppConfig;
use crate::job_events::{
    event_lines, export_views, exports_of, format_job_row, job_event_lines, job_row, log_text,
    summarized, Job, JobEvent, JobSummary, JobSummaryView, LogExportEvent, LogExportView,
    UiLogExport, UiLogExportView,
};
use crate::model::{id_text, or_empty, text_or_empty, to_optional_id};
use crate::text::{
    blank, bool_spelled, bool_text, cat2, cat3, cat5, dec_nat, is_blank, join, joined,
    lemma_texts_push, list_tokens, opt_text, parse_list_tokens, split_char, text_eq, texts, trim,
    trim_owned, trimmed, usize_text,
};
use crate::util::{default_export_path_at, export_path_at, opt_str};
use crate::worker::call::{Call, CallView};
use crate::worker::group::{
    group_by_key, group_views, grouped, groups_lines, lemma_members_in, lines_of_groups, Group,
    GroupView,
};
use crate::worker::parse::{
    kinds_named, line_pairs, millis_typed, not_kinds, not_states, parse_job_event_kinds,
    parse_job_states, parse_kv_lines, parse_optional_millis, states_named,
};
use crate::worker::turn::{
    ask, call, complain, done, error, finish, hand_on, job_stream, last_words, log, logs, ui,
    Effect, EffectView, Failure, Out, Turn, TurnView,
};
use vstd::prelude::*;
use vstd::string::*;

verus! {

/// The optional id, unless it is blank.
pub open spec fn unless_blank(id: Option<Seq<char>>) -> Option<Seq<char>> {
    match id {
        Some(s) => if blank(s) {
            None
        } else {
            Some(s)
        },
        None => None,
    }
}

/// The optional id, unless it is blank.
pub fn drop_blank(id: &Option<String>) -> (r: Option<String>)
    ensures
        opt_text(r) == unless_blank(opt_text(*id)),
{
    match id {
        Some(s) => if is_blank(s.as_str()) {
            None
        } else {
            Some(s.clone())
        },
        None => None,
    }
}

/// The line that says how the next page of a list is asked for; none without a next page.
pub open spec fn token_line(page: Seq<char>, token: Option<Seq<char>>) -> Seq<EffectView> {
    match token {
        Some(t) => if t.len() == 0 {
            Seq::empty()
        } else {
            seq![log(page, "next_page_token="@ + t + "\n"@)]
        },
        None => Seq::empty(),
    }
}

/// Adds the line that says how the next page of a list is asked for.
pub fn push_token(out: &mut Out, page: &'static str, token: &Option<String>)
    ensures
        final(out)@ == old(out)@ + token_line(page@, opt_text(*token)),
{
    let ghost before = out@;
    if let Some(t) = token {
        if !t.as_str().is_empty() {
            out.log(page, cat3("next_page_token=", t.as_str(), "\n"));
        }
    }
    assert(out@ =~= before + token_line(page@, opt_text(*token)));
}

/// At least one item on a page.
pub open spec fn at_least_one(page_size: u32) -> u32 {
    if page_size == 0 {
        1
    } else {
        page_size
    }
}

/// At least one item on a page.
pub fn page_size_of(page_size: u32) -> (r: u32)
    ensures
        r == at_least_one(page_size),
{
    if page_size == 0 {
        1
    } else {
        page_size
    }
}

/// A job is to be started from the job control page.
pub open spec fn start_job(
    cfg: AppConfig,
    job_type: Seq<char>,
    params: Seq<char>,
    project_id: Seq<char>,
    target_id: Seq<char>,
    toolchain_set_id: Seq<char>,
    correlation_id: Seq<char>,
) -> TurnView {
    let head = seq![
        ui(AppEventView::HomeResetStatus),
        log("home"@, "Connecting to JobService at "@ + cfg.job_addr@ + "\n"@),
    ];
    if blank(job_type) {
        done(head.push(log("home"@, "job_type is required\n"@)))
    } else {
        call(
            head,
            CallView::StartJob {
                addr: cfg.job_addr@,
                job_type: trimmed(job_type),
                params: line_pairs(split_char(params, '\n')),
                project_id: id_text(project_id),
                target_id: id_text(target_id),
                toolchain_set_id: id_text(toolchain_set_id),
                correlation_id: trimmed(correlation_id),
                run_id: id_text(correlation_id),
            },
        )
    }
}

/// Starts a job from what the form holds.
pub fn begin_start_job(
    cfg: &AppConfig,
    job_type: &str,
    params: &str,
    project_id: &str,
    target_id: &str,
    toolchain_set_id: &str,
    correlation_id: &str,
) -> (r: Turn)
    ensures
        r@ == start_job(
            *cfg,
            job_type@,
            params@,
            project_id@,
            target_id@,
            toolchain_set_id@,
            correlation_id@,
        ),
{
    let mut out: Out = Out::new();
    out.ui(AppEvent::HomeResetStatus);
    out.log("home", cat3("Connecting to JobService at ", cfg.job_addr.as_str(), "\n"));
    if is_blank(job_type) {
        out.say("home", "job_type is required\n");
        return finish(out);
    }
    ask(
        out,
        Call::StartJob {
            addr: cfg.job_addr.clone(),
            job_type: trim_owned(job_type),
            params: parse_kv_lines(params),
            project_id: to_optional_id(project_id),
            target_id: to_optional_id(target_id),
            toolchain_set_id: to_optional_id(toolchain_set_id),
            correlation_id: trim_owned(correlation_id),
            run_id: to_optional_id(correlation_id),
        },
    )
}

/// A job was started from the job control page.
pub open spec fn job_started(cfg: AppConfig, job_type: Seq<char>, job_id: Option<Seq<char>>) -> TurnView {
    let id = or_empty(job_id);
    if id.len() == 0 {
        done(seq![log("home"@, "StartJob returned empty job_id\n"@)])
    } else {
        done(
            seq![
                EffectView::CurrentJob { current: Some(id) },
                ui(AppEventView::SetCurrentJob { job_id: Some(id) }),
                log("home"@, "Started job: "@ + id + " ("@ + trimmed(job_type) + ")\n"@),
                ui(AppEventView::HomeState { state: "Queued"@ }),
                EffectView::HomeStream { addr: cfg.job_addr@, job_id: id },
            ],
        )
    }
}

/// Takes the job that was started.
pub fn end_start_job(cfg: &AppConfig, job_type: &str, job_id: &Option<String>) -> (r: Turn)
    ensures
        r@ == job_started(*cfg, job_type@, opt_text(*job_id)),
{
    let id: String = text_or_empty(job_id);
    if id.as_str().is_empty() {
        return last_words("home", "StartJob returned empty job_id\n");
    }
    let mut out: Out = Out::new();
    out.push(Effect::CurrentJob { job_id: Some(id.clone()) });
    out.ui(AppEvent::SetCurrentJob { job_id: Some(id.clone()) });
    out.log("home", cat5("Started job: ", id.as_str(), " (", trim(job_type), ")\n"));
    out.ui(AppEvent::HomeState { state: "Queued".to_owned() });
    out.push(Effect::HomeStream { addr: cfg.job_addr.clone(), job_id: id });
    finish(out)
}

/// A job is to be watched on the job control page.
pub open spec fn watch_job(cfg: AppConfig, job_id: Seq<char>) -> TurnView {
    let id = trimmed(job_id);
    if id.len() == 0 {
        done(seq![log("home"@, "job_id is required to watch\n"@)])
    } else {
        done(
            seq![
                ui(AppEventView::HomeResetStatus),
                EffectView::CurrentJob { current: Some(id) },
                ui(AppEventView::SetCurrentJob { job_id: Some(id) }),
                log("home"@, "Watching job: "@ + id + "\n"@),
                EffectView::HomeStream { addr: cfg.job_addr@, job_id: id },
            ],
        )
    }
}

/// Begins to watch a job.
pub fn begin_watch_job(cfg: &AppConfig, job_id: &str) -> (r: Turn)
    ensures
        r@ == watch_job(*cfg, job_id@),
{
    let id: String = trim_owned(job_id);
    if id.as_str().is_empty() {
        return last_words("home", "job_id is required to watch\n");
    }
    let mut out: Out = Out::new();
    out.ui(AppEvent::HomeResetStatus);
    out.push(Effect::CurrentJob { job_id: Some(id.clone()) });
    out.ui(AppEvent::SetCurrentJob { job_id: Some(id.clone()) });
    out.log("home", cat3("Watching job: ", id.as_str(), "\n"));
    out.push(Effect::HomeStream { addr: cfg.job_addr.clone(), job_id: id });
    finish(out)
}

/// The job that is being watched is to be cancelled; without one, nothing happens.
pub open spec fn cancel_current(cfg: AppConfig, current: Option<Seq<char>>) -> TurnView {
    match current {
        Some(id) => call(
            seq![log("home"@, "Cancelling job: "@ + id + "\n"@)],
            CallView::CancelJob { addr: cfg.job_addr@, job_id: id },
        ),
        None => done(Seq::empty()),
    }
}

/// Asks that the current job be cancelled; does nothing where there is none.
pub fn begin_cancel_current(cfg: &AppConfig, current: &Option<String>) -> (r: Turn)
    ensures
        r@ == cancel_current(*cfg, opt_text(*current)),
{
    let mut out: Out = Out::new();
    match current {
        Some(id) => {
            out.log("home", cat3("Cancelling job: ", id.as_str(), "\n"));
            ask(out, Call::CancelJob { addr: cfg.job_addr.clone(), job_id: id.clone() })
        },
        None => finish(out),
    }
}

/// Whether the job service lets a job be cancelled, in words.
pub open spec fn cancel_answered(accepted: bool) -> TurnView {
    done(seq![log("home"@, "Cancel accepted: "@ + bool_spelled(accepted) + "\n"@)])
}

/// Tells whether the job service lets a job be cancelled.
pub fn end_cancel(accepted: bool) -> (r: Turn)
    ensures
        r@ == cancel_answered(accepted),
{
    let line: String = cat3("Cancel accepted: ", bool_text(accepted), "\n");
    last_words("home", line.as_str())
}

/// The line about words that are not understood; none where all are.
pub open spec fn unknown_line(page: Seq<char>, what: Seq<char>, words: Seq<Seq<char>>) -> Seq<
    EffectView,
> {
    if words.len() == 0 {
        Seq::empty()
    } else {
        seq![log(page, what + joined(words, ", "@) + "\n"@)]
    }
}

fn push_unknown(out: &mut Out, page: &'static str, what: &str, words: &Vec<String>)
    ensures
        final(out)@ == old(out)@ + unknown_line(page@, what@, texts(words@)),
{
    let ghost before = out@;
    if words.len() > 0 {
        out.log(page, cat3(what, join(words, ", ").as_str(), "\n"));
    }
    assert(out@ =~= before + unknown_line(page@, what@, texts(words@)));
}

/// Jobs are to be listed. A time that is no number ends the command with a line on the job history
/// page.
pub open spec fn list_jobs(
    cfg: AppConfig,
    job_types: Seq<char>,
    states: Seq<char>,
    created_after: Seq<char>,
    created_before: Seq<char>,
    finished_after: Seq<char>,
    finished_before: Seq<char>,
    correlation_id: Seq<char>,
    run_id: Seq<char>,
    page_size: u32,
    page_token: Seq<char>,
    page: Seq<char>,
) -> TurnView {
    let head = seq![log(page, "Listing jobs via "@ + cfg.job_addr@ + "\n"@)] + unknown_line(
        page,
        "Unknown states: "@,
        not_states(list_tokens(states)),
    );
    match (
        millis_typed(created_after),
        millis_typed(created_before),
        millis_typed(finished_after),
        millis_typed(finished_before),
    ) {
        (Err(err), _, _, _) => done(head.push(log("jobs"@, err + "\n"@))),
        (_, Err(err), _, _) => done(head.push(log("jobs"@, err + "\n"@))),
        (_, _, Err(err), _) => done(head.push(log("jobs"@, err + "\n"@))),
        (_, _, _, Err(err)) => done(head.push(log("jobs"@, err + "\n"@))),
        (Ok(ca), Ok(cb), Ok(fa), Ok(fb)) => call(
            head,
            CallView::ListJobs {
                addr: cfg.job_addr@,
                page_size: at_least_one(page_size),
                page_token,
                job_types: list_tokens(job_types),
                states: states_named(list_tokens(states)),
                created_after: ca,
                created_before: cb,
                finished_after: fa,
                finished_before: fb,
                correlation_id: trimmed(correlation_id),
                run_id: id_text(run_id),
            },
        ),
    }
}

fn refuse(mut out: Out, err: &str) -> (r: Turn)
    ensures
        r@ == done(out@.push(log("jobs"@, err@ + "\n"@))),
{
    out.log("jobs", cat2(err, "\n"));
    finish(out)
}

/// Asks for the jobs that a filter leaves.
pub fn begin_list_jobs(
    cfg: &AppConfig,
    job_types: &str,
    states: &str,
    created_after: &str,
    created_before: &str,
    finished_after: &str,
    finished_before: &str,
    correlation_id: &str,
    run_id: &str,
    page_size: u32,
    page_token: &str,
    page: &'static str,
) -> (r: Turn)
    ensures
        r@ == list_jobs(
            *cfg,
            job_types@,
            states@,
            created_after@,
            created_before@,
            finished_after@,
            finished_before@,
            correlation_id@,
            run_id@,
            page_size,
            page_token@,
            page@,
        ),
{
    let mut out: Out = Out::new();
    out.log(page, cat3("Listing jobs via ", cfg.job_addr.as_str(), "\n"));
    let (state_filters, unknown) = parse_job_states(states);
    push_unknown(&mut out, page, "Unknown states: ", &unknown);
    let ca: Option<i64> = match parse_optional_millis(created_after) {
        Ok(v) => v,
        Err(err) => return refuse(out, err.as_str()),
    };
    let cb: Option<i64> = match parse_optional_millis(created_before) {
        Ok(v) => v,
        Err(err) => return refuse(out, err.as_str()),
    };
    let fa: Option<i64> = match parse_optional_millis(finished_after) {
        Ok(v) => v,
        Err(err) => return refuse(out, err.as_str()),
    };
    let fb: Option<i64> = match parse_optional_millis(finished_before) {
        Ok(v) => v,
        Err(err) => return refuse(out, err.as_str()),
    };
    ask(
        out,
        Call::ListJobs {
            addr: cfg.job_addr.clone(),
            page_size: page_size_of(page_size),
            page_token: page_token.to_owned(),
            job_types: parse_list_tokens(job_types),
            states: state_filters,
            created_after: ca,
            created_before: cb,
            finished_after: fa,
            finished_before: fb,
            correlation_id: trim_owned(correlation_id),
            run_id: to_optional_id(run_id),
        },
    )
}

/// The rows of jobs in a list.
pub open spec fn job_rows(jobs: Seq<Job>) -> Seq<Seq<char>> {
    Seq::new(jobs.len(), |i: int| job_row(jobs[i]))
}

/// The run that a job is counted to: its run, or else what ties it to other jobs.
pub open spec fn run_key(job: Job) -> Seq<char> {
    match unless_blank(opt_text(job.run_id)) {
        Some(id) => id,
        None => if blank(job.correlation_id@) {
            "unassigned"@
        } else {
            "correlation_id="@ + trimmed(job.correlation_id@)
        },
    }
}

fn run_key_of(job: &Job) -> (r: String)
    ensures
        r@ == run_key(*job),
{
    match drop_blank(&job.run_id) {
        Some(id) => id,
        None => {
            let corr: &str = trim(job.correlation_id.as_str());
            if corr.is_empty() {
                "unassigned".to_owned()
            } else {
                cat2("correlation_id=", corr)
            }
        },
    }
}

/// The runs that jobs are counted to.
pub open spec fn run_keys(jobs: Seq<Job>) -> Seq<Seq<char>> {
    Seq::new(jobs.len(), |i: int| run_key(jobs[i]))
}

/// The headings of groups of jobs.
pub open spec fn run_headings(groups: Seq<GroupView>) -> Seq<Seq<char>> {
    Seq::new(
        groups.len(),
        |i: int|
            "run="@ + groups[i].key + " jobs="@ + dec_nat(groups[i].members.len()) + "\n"@,
    )
}

/// Jobs were listed: row by row on the job history page, by runs elsewhere.
pub open spec fn jobs_listed(page: Seq<char>, jobs: Seq<Job>, token: Option<Seq<char>>) -> TurnView {
    let body = if jobs.len() == 0 {
        seq![log(page, "No jobs found.\n"@)]
    } else if page == "jobs"@ {
        seq![log(page, "Jobs ("@ + dec_nat(jobs.len()) + ")\n"@)] + logs(page, job_rows(jobs))
    } else {
        let groups = grouped(run_keys(jobs));
        seq![log(page, "Runs ("@ + dec_nat(groups.len()) + ")\n"@)] + logs(
            page,
            groups_lines(groups, run_headings(groups), job_rows(jobs)),
        )
    };
    done(body + token_line(page, token))
}

fn rows_of(jobs: &Vec<Job>) -> (r: Vec<String>)
    ensures
        texts(r@) == job_rows(jobs@),
{
    broadcast use lemma_texts_push;

    let mut rows: Vec<String> = Vec::new();
    for i in 0..jobs.len()
        invariant
            texts(rows@) =~= job_rows(jobs@.take(i as int)),
    {
        let ghost before = texts(rows@);
        let row: String = format_job_row(&jobs[i]);
        rows.push(row);
        assert(texts(rows@) =~= before.push(job_row(jobs@[i as int])));
        assert(job_rows(jobs@.take(i + 1)) =~= before.push(job_row(jobs@[i as int])));
    }
    assert(jobs@.take(jobs@.len() as int) =~= jobs@);
    rows
}

fn keys_of(jobs: &Vec<Job>) -> (r: Vec<String>)
    ensures
        texts(r@) == run_keys(jobs@),
{
    broadcast use lemma_texts_push;

    let mut keys: Vec<String> = Vec::new();
    for i in 0..jobs.len()
        invariant
            texts(keys@) =~= run_keys(jobs@.take(i as int)),
    {
        let ghost before = texts(keys@);
        let key: String = run_key_of(&jobs[i]);
        keys.push(key);
        assert(texts(keys@) =~= before.push(run_key(jobs@[i as int])));
        assert(run_keys(jobs@.take(i + 1)) =~= before.push(run_key(jobs@[i as int])));
    }
    assert(jobs@.take(jobs@.len() as int) =~= jobs@);
    keys
}

fn headings_of(groups: &Vec<Group>) -> (r: Vec<String>)
    ensures
        texts(r@) == run_headings(group_views(groups@)),
        r@.len() == groups@.len(),
{
    broadcast use lemma_texts_push;

    let ghost all = run_headings(group_views(groups@));
    let mut headings: Vec<String> = Vec::new();
    assert(texts(headings@) =~= all.take(0));
    for i in 0..groups.len()
        invariant
            all == run_headings(group_views(groups@)),
            texts(headings@) == all.take(i as int),
    {
        let g: &Group = &groups[i];
        let n: usize = g.members.len();
        headings.push(cat5("run=", g.key.as_str(), " jobs=", usize_text(n).as_str(), "\n"));
        assert(all.take(i + 1) =~= all.take(i as int).push(all[i as int]));
    }
    assert(all.take(groups@.len() as int) =~= all);
    assert(texts(headings@).len() == headings@.len());
    headings
}

/// Shows a page of jobs.
pub fn end_list_jobs(page: &'static str, jobs: &Vec<Job>, token: &Option<String>) -> (r: Turn)
    ensures
        r@ == jobs_listed(page@, jobs@, opt_text(*token)),
{
    let mut out: Out = Out::new();
    if jobs.len() == 0 {
        out.say(page, "No jobs found.\n");
    } else if text_eq(page, "jobs") {
        let n: usize = jobs.len();
        out.log(page, cat3("Jobs (", usize_text(n).as_str(), ")\n"));
        out.log_all(page, rows_of(jobs));
    } else {
        let keys: Vec<String> = keys_of(jobs);
        let groups: Vec<Group> = group_by_key(&keys);
        proof {
            assert(texts(keys@).len() == jobs@.len());
            lemma_members_in(texts(keys@));
        }
        let n: usize = groups.len();
        assert(group_views(groups@).len() == n);
        out.log(page, cat3("Runs (", usize_text(n).as_str(), ")\n"));
        let rows: Vec<String> = rows_of(jobs);
        assert(texts(rows@).len() == rows@.len());
        out.log_all(page, lines_of_groups(&groups, &headings_of(&groups), &rows));
    }
    push_token(&mut out, page, token);
    finish(out)
}

/// The history of a job is to be listed.
pub open spec fn list_history(
    cfg: AppConfig,
    job_id: Seq<char>,
    kinds: Seq<char>,
    after: Seq<char>,
    before: Seq<char>,
    page_size: u32,
    page_token: Seq<char>,
) -> TurnView {
    let id = trimmed(job_id);
    if id.len() == 0 {
        done(seq![log("jobs"@, "job_id is required for history\n"@)])
    } else {
        let head = seq![
            log("jobs"@, "Listing job history for "@ + id + " via "@ + cfg.job_addr@ + "\n"@),
        ] + unknown_line("jobs"@, "Unknown kinds: "@, not_kinds(list_tokens(kinds)));
        match (millis_typed(after), millis_typed(before)) {
            (Err(err), _) => done(head.push(log("jobs"@, err + "\n"@))),
            (_, Err(err)) => done(head.push(log("jobs"@, err + "\n"@))),
            (Ok(a), Ok(b)) => call(
                head,
                CallView::ListJobHistory {
                    addr: cfg.job_addr@,
                    job_id: id,
                    page_size: at_least_one(page_size),
                    page_token,
                    filtered: true,
                    kinds: kinds_named(list_tokens(kinds)),
                    after: a,
                    before: b,
                },
            ),
        }
    }
}

/// Asks for the events of a job that a filter leaves.
pub fn begin_list_history(
    cfg: &AppConfig,
    job_id: &str,
    kinds: &str,
    after: &str,
    before: &str,
    page_size: u32,
    page_token: &str,
) -> (r: Turn)
    ensures
        r@ == list_history(*cfg, job_id@, kinds@, after@, before@, page_size, page_token@),
{
    let id: String = trim_owned(job_id);
    if id.as_str().is_empty() {
        return last_words("jobs", "job_id is required for history\n");
    }
    let mut out: Out = Out::new();
    out.log(
        "jobs",
        cat5("Listing job history for ", id.as_str(), " via ", cfg.job_addr.as_str(), "\n"),
    );
    let (kind_filters, unknown) = parse_job_event_kinds(kinds);
    push_unknown(&mut out, "jobs", "Unknown kinds: ", &unknown);
    let a: Option<i64> = match parse_optional_millis(after) {
        Ok(v) => v,
        Err(err) => return refuse(out, err.as_str()),
    };
    let b: Option<i64> = match parse_optional_millis(before) {
        Ok(v) => v,
        Err(err) => return refuse(out, err.as_str()),
    };
    ask(
        out,
        Call::ListJobHistory {
            addr: cfg.job_addr.clone(),
            job_id: id,
            page_size: page_size_of(page_size),
            page_token: page_token.to_owned(),
            filtered: true,
            kinds: kind_filters,
            after: a,
            before: b,
        },
    )
}

/// The lines of events, in order.
pub open spec fn history_lines(events: Seq<JobEvent>) -> Seq<Seq<char>>
    decreases events.len(),
{
    if events.len() == 0 {
        Seq::empty()
    } else {
        history_lines(events.drop_last()) + event_lines(events.last(), log_text(events.last()))
    }
}

/// The history of a job was listed.
pub open spec fn history_listed(events: Seq<JobEvent>, token: Option<Seq<char>>) -> TurnView {
    let body = if events.len() == 0 {
        seq![log("jobs"@, "No events found.\n"@)]
    } else {
        seq![log("jobs"@, "Events ("@ + dec_nat(events.len()) + ")\n"@)] + logs(
            "jobs"@,
            history_lines(events),
        )
    };
    done(body + token_line("jobs"@, token))
}

/// Shows a page of events.
pub fn end_list_history(events: &Vec<JobEvent>, token: &Option<String>) -> (r: Turn)
    ensures
        r@ == history_listed(events@, opt_text(*token)),
{
    let mut out: Out = Out::new();
    if events.len() == 0 {
        out.say("jobs", "No events found.\n");
    } else {
        let n: usize = events.len();
        out.log("jobs", cat3("Events (", usize_text(n).as_str(), ")\n"));
        let ghost head = out@;
        assert(out@ =~= head + logs("jobs"@, history_lines(events@.take(0))));
        for i in 0..events.len()
            invariant
                out@ == head + logs("jobs"@, history_lines(events@.take(i as int))),
        {
            let ghost before = history_lines(events@.take(i as int));
            let ghost e = events@[i as int];
            assert(events@.take(i + 1).drop_last() =~= events@.take(i as int));
            out.log_all("jobs", job_event_lines(&events[i]));
            assert(logs("jobs"@, before) + logs("jobs"@, event_lines(e, log_text(e))) =~= logs(
                "jobs"@,
                before + event_lines(e, log_text(e)),
            ));
            assert(out@ =~= head + logs("jobs"@, history_lines(events@.take(i + 1))));
        }
        assert(events@.take(events@.len() as int) =~= events@);
    }
    push_token(&mut out, "jobs", token);
    finish(out)
}

/// An export on its way: where it goes, what is known of the job, and the events so far.
#[derive(Debug)]
pub struct Export {
    pub job_id: String,
    pub path: String,
    pub job: Option<JobSummary>,
    pub events: Vec<LogExportEvent>,
}

/// What an `Export` holds, mathematically.
#[verifier::ext_equal]
pub struct ExportView {
    pub job_id: Seq<char>,
    pub path: Seq<char>,
    pub job: Option<JobSummaryView>,
    pub events: Seq<LogExportView>,
}

impl View for Export {
    type V = ExportView;

    open spec fn view(&self) -> ExportView {
        ExportView {
            job_id: self.job_id@,
            path: self.path@,
            job: match self.job {
                Some(j) => Some(j@),
                None => None,
            },
            events: export_views(self.events@),
        }
    }
}

/// The export of a job's log begins: to the file that is named, or else to the usual one.
pub open spec fn export_begun(
    home: Option<Seq<char>>,
    job_id: Seq<char>,
    output_path: Seq<char>,
    now: i64,
) -> ExportView {
    ExportView {
        job_id: trimmed(job_id),
        path: if blank(output_path) {
            export_path_at(home, "ui-job-export"@, trimmed(job_id), now)
        } else {
            output_path
        },
        job: None,
        events: Seq::empty(),
    }
}

/// The export of a job's log is asked for.
pub open spec fn export_logs(cfg: AppConfig, job_id: Seq<char>, page: Seq<char>) -> TurnView {
    let id = trimmed(job_id);
    if id.len() == 0 {
        done(seq![log(page, "job_id is required for export\n"@)])
    } else {
        call(
            seq![log(page, "Exporting logs for "@ + id + "\n"@)],
            CallView::GetJob { addr: cfg.job_addr@, job_id: id },
        )
    }
}

/// Begins to export the log of a job.
pub fn begin_export(
    cfg: &AppConfig,
    home: Option<&str>,
    job_id: &str,
    output_path: &str,
    page: &'static str,
    now: i64,
) -> (r: (Export, Turn))
    ensures
        r.0@ == export_begun(opt_str(home), job_id@, output_path@, now),
        r.1@ == export_logs(*cfg, job_id@, page@),
{
    let id: String = trim_owned(job_id);
    let path: String = if is_blank(output_path) {
        default_export_path_at(home, "ui-job-export", id.as_str(), now)
    } else {
        output_path.to_owned()
    };
    let export = Export { job_id: id.clone(), path, job: None, events: Vec::new() };
    assert(export_views(export.events@) =~= Seq::empty());
    if id.as_str().is_empty() {
        return (export, last_words(page, "job_id is required for export\n"));
    }
    let mut out: Out = Out::new();
    out.log(page, cat3("Exporting logs for ", id.as_str(), "\n"));
    (export, ask(out, Call::GetJob { addr: cfg.job_addr.clone(), job_id: id }))
}

/// A page of the job's history, without a filter.
pub open spec fn history_page(cfg: AppConfig, job_id: Seq<char>, token: Seq<char>) -> CallView {
    CallView::ListJobHistory {
        addr: cfg.job_addr@,
        job_id,
        page_size: 200,
        page_token: token,
        filtered: false,
        kinds: Seq::empty(),
        after: None,
        before: None,
    }
}

fn ask_history_page(cfg: &AppConfig, job_id: &str, token: &str) -> (r: Call)
    ensures
        r@ == history_page(*cfg, job_id@, token@),
{
    Call::ListJobHistory {
        addr: cfg.job_addr.clone(),
        job_id: job_id.to_owned(),
        page_size: 200,
        page_token: token.to_owned(),
        filtered: false,
        kinds: Vec::new(),
        after: None,
        before: None,
    }
}

/// What is known of the job that is exported.
pub open spec fn export_with_job(e: ExportView, job: Option<Job>) -> ExportView {
    ExportView {
        job: match job {
            Some(j) => Some(summarized(j)),
            None => None,
        },
        ..e
    }
}

/// The job that is exported is known; its history follows.
pub open spec fn export_job_known(cfg: AppConfig, e: ExportView, page: Seq<char>, failed: Option<Seq<char>>) -> TurnView {
    call(
        match failed {
            Some(err) => seq![log(page, "GetJob failed: "@ + err + "\n"@)],
            None => Seq::empty(),
        },
        history_page(cfg, e.job_id, ""@),
    )
}

/// Takes the job whose log is exported.
pub fn export_on_job(
    cfg: &AppConfig,
    export: Export,
    page: &'static str,
    job: &Option<Job>,
    failed: &Option<String>,
) -> (r: (Export, Turn))
    ensures
        r.0@ == export_with_job(export@, *job),
        r.1@ == export_job_known(*cfg, export@, page@, opt_text(*failed)),
{
    let mut out: Out = Out::new();
    if let Some(err) = failed {
        out.log(page, cat3("GetJob failed: ", err.as_str(), "\n"));
    }
    let mut e: Export = export;
    e.job = match job {
        Some(j) => Some(JobSummary::from_proto(j)),
        None => None,
    };
    let next: Call = ask_history_page(cfg, e.job_id.as_str(), "");
    (e, ask(out, next))
}

/// A page of the history is added to the export.
pub open spec fn export_with_page(e: ExportView, events: Seq<JobEvent>) -> ExportView {
    ExportView { events: e.events + exports_of(events), ..e }
}

/// Pages of the history are added in the order in which they come, as if they had been one.
pub proof fn law_export_pages(e: ExportView, first: Seq<JobEvent>, second: Seq<JobEvent>)
    ensures
        export_with_page(export_with_page(e, first), second) == export_with_page(
            e,
            first + second,
        ),
{
    assert(exports_of(first + second) =~= exports_of(first) + exports_of(second));
    assert(e.events + exports_of(first) + exports_of(second) =~= e.events + (exports_of(first)
        + exports_of(second)));
}

/// A page of the history came: the next one follows, or the file is written.
pub open spec fn export_page_came(
    cfg: AppConfig,
    e: ExportView,
    token: Option<Seq<char>>,
    now: i64,
) -> TurnView {
    let next = or_empty(token);
    if next.len() == 0 {
        call(
            Seq::empty(),
            CallView::WriteExport {
                path: e.path,
                export: UiLogExportView {
                    exported_at_unix_millis: now,
                    job_id: e.job_id,
                    config: cfg,
                    job: e.job,
                    events: e.events,
                },
            },
        )
    } else {
        call(Seq::empty(), history_page(cfg, e.job_id, next))
    }
}

fn push_exports(events: &mut Vec<LogExportEvent>, more: &Vec<JobEvent>)
    ensures
        export_views(final(events)@) == export_views(old(events)@) + exports_of(more@),
{
    let ghost before = export_views(events@);
    assert(before + exports_of(more@.take(0)) =~= before);
    for i in 0..more.len()
        invariant
            export_views(events@) == before + exports_of(more@.take(i as int)),
    {
        let item: LogExportEvent = LogExportEvent::from_proto(&more[i]);
        let ghost so_far = export_views(events@);
        events.push(item);
        assert(export_views(events@) =~= so_far.push(item@));
        assert(exports_of(more@.take(i + 1)) =~= exports_of(more@.take(i as int)).push(item@));
        assert(export_views(events@) =~= before + exports_of(more@.take(i + 1)));
    }
    assert(more@.take(more@.len() as int) =~= more@);
}

fn clone_summary(s: &Option<JobSummary>) -> (r: Option<JobSummary>)
    ensures
        r == *s,
{
    match s {
        Some(j) => Some(
            JobSummary {
                job_id: j.job_id.clone(),
                job_type: j.job_type.clone(),
                state: j.state.clone(),
                created_at_unix_millis: j.created_at_unix_millis,
                started_at_unix_millis: j.started_at_unix_millis,
                finished_at_unix_millis: j.finished_at_unix_millis,
                display_name: j.display_name.clone(),
                correlation_id: j.correlation_id.clone(),
                run_id: j.run_id.clone(),
                project_id: j.project_id.clone(),
                target_id: j.target_id.clone(),
                toolchain_set_id: j.toolchain_set_id.clone(),
            },
        ),
        None => None,
    }
}

fn clone_exports(events: &Vec<LogExportEvent>) -> (r: Vec<LogExportEvent>)
    ensures
        r@ == events@,
{
    let mut r: Vec<LogExportEvent> = Vec::new();
    for i in 0..events.len()
        invariant
            r@ == events@.take(i as int),
    {
        let e: &LogExportEvent = &events[i];
        r.push(
            LogExportEvent {
                at_unix_millis: e.at_unix_millis,
                kind: e.kind.clone(),
                summary: e.summary.clone(),
                data: match &e.data {
                    Some(d) => Some(d.clone()),
                    None => None,
                },
            },
        );
        assert(events@.take(i + 1) =~= events@.take(i as int).push(events@[i as int]));
    }
    assert(events@.take(events@.len() as int) =~= events@);
    r
}

/// Takes a page of the events of the job whose log is exported.
pub fn export_on_page(
    cfg: &AppConfig,
    export: Export,
    events: &Vec<JobEvent>,
    token: &Option<String>,
    now: i64,
) -> (r: (Export, Turn))
    ensures
        r.0@ == export_with_page(export@, events@),
        r.1@ == export_page_came(*cfg, r.0@, opt_text(*token), now),
{
    let mut e: Export = export;
    push_exports(&mut e.events, events);
    let next: String = text_or_empty(token);
    let turn: Turn = if next.as_str().is_empty() {
        let file = UiLogExport {
            exported_at_unix_millis: now,
            job_id: e.job_id.clone(),
            config: cfg.clone(),
            job: clone_summary(&e.job),
            events: clone_exports(&e.events),
        };
        ask(Out::new(), Call::WriteExport { path: e.path.clone(), export: file })
    } else {
        let call: Call = ask_history_page(cfg, e.job_id.as_str(), next.as_str());
        ask(Out::new(), call)
    };
    (e, turn)
}

/// The export was written.
pub open spec fn export_written(page: Seq<char>, path: Seq<char>) -> TurnView {
    done(seq![log(page, "Exported logs to "@ + path + "\n"@)])
}

/// Tells where the log of a job was written.
pub fn end_export(page: &'static str, path: &str) -> (r: Turn)
    ensures
        r@ == export_written(page@, path@),
{
    let line: String = cat3("Exported logs to ", path, "\n");
    last_words(page, line.as_str())
}

/// Something was accepted that a job carries out: the job is named and its events are shown.
pub open spec fn queued(
    cfg: AppConfig,
    page: Seq<char>,
    what: Seq<char>,
    job_id: Option<Seq<char>>,
) -> TurnView {
    let id = or_empty(job_id);
    done(seq![log(page, what + id + "\n"@)] + job_stream(cfg.job_addr@, id, page))
}

/// Takes the job that carries something out.
pub fn end_queued(cfg: &AppConfig, page: &'static str, what: &str, job_id: &Option<String>) -> (r:
    Turn)
    ensures
        r@ == queued(*cfg, page@, what@, opt_text(*job_id)),
{
    let id: String = text_or_empty(job_id);
    let mut out: Out = Out::new();
    out.log(page, cat3(what, id.as_str(), "\n"));
    out.job_stream(cfg.job_addr.as_str(), id.as_str(), page);
    finish(out)
}

/// A request failed, and a page says so: the service could not be reached, or it refused.
pub open spec fn told_failure(
    page: Seq<char>,
    service: Seq<char>,
    what: Seq<char>,
    connecting: bool,
    err: Seq<char>,
) -> TurnView {
    done(
        seq![
            log(
                page,
                (if connecting {
                    service + " connection failed: "@
                } else {
                    what
                }) + err + "\n"@,
            ),
        ],
    )
}

/// Tells that a request failed, or that its service could not be reached.
pub fn tell_failure(page: &'static str, service: &str, what: &str, failure: &Failure) -> (r: Turn)
    ensures
        r@ == told_failure(page@, service@, what@, failure.connecting, failure.error@),
{
    if failure.connecting {
        let text: String = cat2(service, " connection failed: ");
        complain(page, text.as_str(), failure.error.as_str())
    } else {
        complain(page, what, failure.error.as_str())
    }
}

/// A request failed after the service was reached, and a page says so; that the service could not
/// be reached is handed on.
pub open spec fn told_refusal(
    page: Seq<char>,
    what: Seq<char>,
    connecting: bool,
    err: Seq<char>,
) -> TurnView {
    if connecting {
        error(err)
    } else {
        done(seq![log(page, what + err + "\n"@)])
    }
}

/// Tells that a request failed; a service that could not be reached ends the command.
pub fn tell_refusal(page: &'static str, what: &str, failure: Failure) -> (r: Turn)
    ensures
        r@ == told_refusal(page@, what@, failure.connecting, failure.error@),
{
    if failure.connecting {
        hand_on(failure.error)
    } else {
        complain(page, what, failure.error.as_str())
    }
}

/// What is seen of an export is what it holds, each part in its place.
pub proof fn law_export_is_seen_whole(export: Export, i: int)
    ensures
        export@.job_id == export.job_id@,
        export@.path == export.path@,
        export.job matches Some(job) ==> export@.job == Some(job@),
        export.job is None ==> export@.job is None,
        export@.events.len() == export.events@.len(),
        0 <= i < export.events@.len() ==> export@.events[i] == export.events@[i]@,
{
}

/// An id counts exactly where it is there and not blank; and a page has at least one item.
pub proof fn law_ids_and_sizes(id: Option<Seq<char>>, size: u32)
    ensures
        unless_blank(id) is Some <==> id is Some && !blank(id->0),
        unless_blank(id) matches Some(t) ==> t == id->0,
        size > 0 ==> at_least_one(size) == size,
        size == 0 ==> at_least_one(size) == 1,
{
}

} // verus!
