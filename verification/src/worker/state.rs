//! The state on disk: saving it to an archive and restoring it, having the services read it again,
//! and deleting it.

use crate::commands::{AppEvent, AppEventView, StateArchiveOptions};
use crate::config::AppConfig;
use crate::job_events::{active_job_text, format_active_job, latest_at, latest_job, Job};
use crate::model::JobState;
use crate::text::{
    blank, bool_spelled, bool_text, cat3, cat5, cat7, dec_int, dec_nat, i64_text, is_blank, join,
    joined, lemma_texts_push, text_eq, texts, u64_text,
};
use crate::util::{expand_user, expanded_user, file_name, last_name, opt_str};
use crate::worker::call::{Call, CallView, ServiceName};
use crate::worker::turn::{
    ask, call, complain, done, finish, last_words, log, ui, Effect, EffectView, Out, Turn, TurnView,
};
use vstd::prelude::*;
use vstd::string::*;

verus! {

/// The request for the jobs that are under way.
pub open spec fn active_jobs(cfg: AppConfig) -> CallView {
    CallView::ListJobs {
        addr: cfg.job_addr@,
        page_size: 50,
        page_token: Seq::empty(),
        job_types: Seq::empty(),
        states: seq![JobState::Queued, JobState::Running],
        created_after: None,
        created_before: None,
        finished_after: None,
        finished_before: None,
        correlation_id: Seq::empty(),
        run_id: None,
    }
}

fn ask_active_jobs(cfg: &AppConfig) -> (r: Call)
    ensures
        r@ == active_jobs(*cfg),
{
    let mut states: Vec<JobState> = Vec::new();
    states.push(JobState::Queued);
    states.push(JobState::Running);
    let job_types: Vec<String> = Vec::new();
    let page_token: String = String::new();
    let correlation_id: String = String::new();
    assert(states@ =~= seq![JobState::Queued, JobState::Running]);
    assert(texts(job_types@) =~= Seq::empty());
    assert(page_token@ =~= Seq::empty());
    assert(correlation_id@ =~= Seq::empty());
    Call::ListJobs {
        addr: cfg.job_addr.clone(),
        page_size: 50,
        page_token,
        job_types,
        states,
        created_after: None,
        created_before: None,
        finished_after: None,
        finished_before: None,
        correlation_id,
        run_id: None,
    }
}

/// The state is to be saved: first it is asked for jobs that are under way.
pub open spec fn save_state(cfg: AppConfig) -> TurnView {
    call(seq![log("settings"@, "Saving local AADK state...\n"@)], active_jobs(cfg))
}

/// Begins to save the state.
pub fn begin_save_state(cfg: &AppConfig) -> (r: Turn)
    ensures
        r@ == save_state(*cfg),
{
    let mut out: Out = Out::new();
    out.say("settings", "Saving local AADK state...\n");
    ask(out, ask_active_jobs(cfg))
}

/// A saved state is to be restored: first it is asked for jobs that are under way.
pub open spec fn open_state(cfg: AppConfig, archive_path: Seq<char>) -> TurnView {
    if blank(archive_path) {
        done(seq![log("settings"@, "Open state requires a zip path.\n"@)])
    } else {
        call(seq![log("settings"@, "Opening AADK state archive...\n"@)], active_jobs(cfg))
    }
}

/// Begins to restore a saved state.
pub fn begin_open_state(cfg: &AppConfig, archive_path: &str) -> (r: Turn)
    ensures
        r@ == open_state(*cfg, archive_path@),
{
    if is_blank(archive_path) {
        return last_words("settings", "Open state requires a zip path.\n");
    }
    let mut out: Out = Out::new();
    out.say("settings", "Opening AADK state archive...\n");
    ask(out, ask_active_jobs(cfg))
}

/// The place of the job that was created last.
pub open spec fn latest(jobs: Seq<Job>) -> int {
    choose|i: int| latest_at(jobs, i)
}

/// The jobs that are under way are known: one of them stops the work on the state, and without any
/// the turn for that work is waited for.
pub open spec fn jobs_checked(owner: Seq<char>, jobs: Seq<Job>) -> TurnView {
    if jobs.len() == 0 {
        call(
            seq![log("settings"@, "Waiting for state-op FIFO...\n"@)],
            CallView::LockState { owner },
        )
    } else {
        done(
            seq![
                log(
                    "settings"@,
                    "State operation blocked: "@ + active_job_text(jobs[latest(jobs)]) + "\n"@,
                ),
            ],
        )
    }
}

/// Goes on to the lock where no job is under way.
pub fn check_jobs(owner: &str, jobs: &Vec<Job>) -> (r: Turn)
    ensures
        r@ == jobs_checked(owner@, jobs@),
{
    match latest_job(jobs) {
        Some(i) => {
            assert(latest_at(jobs@, i as int));
            let ghost k = latest(jobs@);
            assert(latest_at(jobs@, k));
            assert(k == i) by {
                if k < i {
                    assert(jobs@[i as int] == jobs@[i as int]);
                } else if i < k {
                    assert(jobs@[k] == jobs@[k]);
                }
            }
            let text: String = format_active_job(&jobs[i]);
            let line: String = cat3("State operation blocked: ", text.as_str(), "\n");
            last_words("settings", line.as_str())
        },
        None => {
            let mut out: Out = Out::new();
            out.say("settings", "Waiting for state-op FIFO...\n");
            ask(out, Call::LockState { owner: owner.to_owned() })
        },
    }
}

/// It is not known whether jobs are under way: that stops the work on the state.
pub open spec fn check_failed(err: Seq<char>) -> TurnView {
    done(seq![log("settings"@, "State operation blocked: job check failed: "@ + err + "\n"@)])
}

/// Tells that the jobs under way could not be had.
pub fn fail_check(err: &str) -> (r: Turn)
    ensures
        r@ == check_failed(err@),
{
    complain("settings", "State operation blocked: job check failed: ", err)
}

/// The turn for the work on the state did not come.
pub open spec fn lock_failed(err: Seq<char>) -> TurnView {
    done(seq![log("settings"@, "State queue error: "@ + err + "\n"@)])
}

/// Tells that the lock could not be had.
pub fn fail_lock(err: &str) -> (r: Turn)
    ensures
        r@ == lock_failed(err@),
{
    complain("settings", "State queue error: ", err)
}

/// The turn for the work on the state came: the archive is written.
pub open spec fn save_archive(
    output_path: Seq<char>,
    options: StateArchiveOptions,
    home: Option<Seq<char>>,
) -> TurnView {
    call(
        Seq::empty(),
        CallView::SaveArchive {
            path: if blank(output_path) {
                None
            } else {
                Some(expanded_user(output_path, home))
            },
            options,
        },
    )
}

/// Saves the state, under the lock.
pub fn save_on_lock(output_path: &str, options: StateArchiveOptions, home: Option<&str>) -> (r: Turn)
    ensures
        r@ == save_archive(output_path@, options, opt_str(home)),
{
    let path: Option<String> = if is_blank(output_path) {
        None
    } else {
        Some(expand_user(output_path, home))
    };
    ask(Out::new(), Call::SaveArchive { path, options })
}

/// What an archive leaves out.
pub open spec fn excluded_names(options: StateArchiveOptions) -> Seq<Seq<char>> {
    let a: Seq<Seq<char>> = Seq::empty();
    let b = if options.exclude_downloads {
        a.push("downloads"@)
    } else {
        a
    };
    let c = if options.exclude_toolchains {
        b.push("toolchains"@)
    } else {
        b
    };
    let d = if options.exclude_bundles {
        c.push("bundles"@)
    } else {
        c
    };
    let e = if options.exclude_telemetry {
        d.push("telemetry"@)
    } else {
        d
    };
    e.push("state-exports"@).push("state-ops"@)
}

/// Exports and the queue of state operations are always left out of an archive, and as many other
/// things as the options say.
pub proof fn law_exclusions(options: StateArchiveOptions)
    ensures
        ({
            let names = excluded_names(options);
            let switched = (if options.exclude_downloads {
                1int
            } else {
                0
            }) + (if options.exclude_toolchains {
                1int
            } else {
                0
            }) + (if options.exclude_bundles {
                1int
            } else {
                0
            }) + (if options.exclude_telemetry {
                1int
            } else {
                0
            });
            &&& names.len() == switched + 2
            &&& names[names.len() - 2] == "state-exports"@
            &&& names[names.len() - 1] == "state-ops"@
        }),
{
}

/// What an archive leaves out, separated by a comma and a space.
pub fn format_state_exclusions(options: &StateArchiveOptions) -> (r: String)
    ensures
        r@ == joined(excluded_names(*options), ", "@),
{
    broadcast use lemma_texts_push;

    let mut names: Vec<String> = Vec::new();
    assert(texts(names@) =~= Seq::empty());
    if options.exclude_downloads {
        names.push("downloads".to_owned());
    }
    if options.exclude_toolchains {
        names.push("toolchains".to_owned());
    }
    if options.exclude_bundles {
        names.push("bundles".to_owned());
    }
    if options.exclude_telemetry {
        names.push("telemetry".to_owned());
    }
    names.push("state-exports".to_owned());
    names.push("state-ops".to_owned());
    join(&names, ", ")
}

/// The line about what an archive leaves out.
pub open spec fn exclusions_line(options: StateArchiveOptions) -> EffectView {
    log("settings"@, "Exclusions: "@ + joined(excluded_names(options), ", "@) + "\n"@)
}

fn push_exclusions(out: &mut Out, options: &StateArchiveOptions)
    ensures
        final(out)@ == old(out)@.push(exclusions_line(*options)),
{
    let names: String = format_state_exclusions(options);
    out.log("settings", cat3("Exclusions: ", names.as_str(), "\n"));
}

/// The state was saved.
pub open spec fn archive_saved(
    output_path: Seq<char>,
    file_count: u64,
    dir_count: u64,
    total_bytes: u64,
    options: StateArchiveOptions,
) -> TurnView {
    done(
        seq![
            log("settings"@, "Saved archive: "@ + output_path + "\n"@),
            log(
                "settings"@,
                "Archive contents: files="@ + dec_nat(file_count as nat) + " dirs="@ + dec_nat(
                    dir_count as nat,
                ) + " bytes="@ + dec_nat(total_bytes as nat) + "\n"@,
            ),
            exclusions_line(options),
        ],
    )
}

/// Tells where the state was saved.
pub fn end_save_state(
    output_path: &str,
    file_count: u64,
    dir_count: u64,
    total_bytes: u64,
    options: &StateArchiveOptions,
) -> (r: Turn)
    ensures
        r@ == archive_saved(output_path@, file_count, dir_count, total_bytes, *options),
{
    let mut out: Out = Out::new();
    out.log("settings", cat3("Saved archive: ", output_path, "\n"));
    out.log(
        "settings",
        cat7(
            "Archive contents: files=",
            u64_text(file_count).as_str(),
            " dirs=",
            u64_text(dir_count).as_str(),
            " bytes=",
            u64_text(total_bytes).as_str(),
            "\n",
        ),
    );
    push_exclusions(&mut out, options);
    finish(out)
}

/// The state could not be saved.
pub open spec fn save_failed(err: Seq<char>) -> TurnView {
    done(seq![log("settings"@, "Save state failed: "@ + err + "\n"@)])
}

/// Tells that the state could not be saved.
pub fn fail_save_state(err: &str) -> (r: Turn)
    ensures
        r@ == save_failed(err@),
{
    complain("settings", "Save state failed: ", err)
}

/// The turn for the work on the state came: the archive is read.
pub open spec fn open_archive(
    archive_path: Seq<char>,
    options: StateArchiveOptions,
    home: Option<Seq<char>>,
) -> TurnView {
    call(
        Seq::empty(),
        CallView::OpenArchive { path: expanded_user(archive_path, home), options },
    )
}

/// Restores a saved state, under the lock.
pub fn open_on_lock(archive_path: &str, options: StateArchiveOptions, home: Option<&str>) -> (r:
    Turn)
    ensures
        r@ == open_archive(archive_path@, options, opt_str(home)),
{
    ask(Out::new(), Call::OpenArchive { path: expand_user(archive_path, home), options })
}

/// The state was restored: the configuration is read again.
pub open spec fn archive_restored(
    archive_path: Seq<char>,
    options: StateArchiveOptions,
    home: Option<Seq<char>>,
    restored_files: u64,
    restored_dirs: u64,
    preserved_dirs: Seq<Seq<char>>,
) -> TurnView {
    let told = seq![
        log("settings"@, "Opened archive: "@ + expanded_user(archive_path, home) + "\n"@),
        log(
            "settings"@,
            "Archive restored: files="@ + dec_nat(restored_files as nat) + " dirs="@ + dec_nat(
                restored_dirs as nat,
            ) + "\n"@,
        ),
    ];
    let kept = if preserved_dirs.len() == 0 {
        told
    } else {
        told.push(log("settings"@, "Preserved: "@ + joined(preserved_dirs, ", "@) + "\n"@))
    };
    call(kept.push(exclusions_line(options)), CallView::LoadConfig)
}

/// Tells what was restored and goes on to load it.
pub fn open_on_restored(
    archive_path: &str,
    options: &StateArchiveOptions,
    home: Option<&str>,
    restored_files: u64,
    restored_dirs: u64,
    preserved_dirs: &Vec<String>,
) -> (r: Turn)
    ensures
        r@ == archive_restored(
            archive_path@,
            *options,
            opt_str(home),
            restored_files,
            restored_dirs,
            texts(preserved_dirs@),
        ),
{
    let path: String = expand_user(archive_path, home);
    let mut out: Out = Out::new();
    out.log("settings", cat3("Opened archive: ", path.as_str(), "\n"));
    out.log(
        "settings",
        cat5(
            "Archive restored: files=",
            u64_text(restored_files).as_str(),
            " dirs=",
            u64_text(restored_dirs).as_str(),
            "\n",
        ),
    );
    assert(texts(preserved_dirs@).len() == preserved_dirs@.len());
    if preserved_dirs.len() != 0 {
        let names: String = join(preserved_dirs, ", ");
        out.log("settings", cat3("Preserved: ", names.as_str(), "\n"));
    }
    push_exclusions(&mut out, options);
    ask(out, Call::LoadConfig)
}

/// The state could not be restored.
pub open spec fn open_failed(err: Seq<char>) -> TurnView {
    done(seq![log("settings"@, "Open state failed: "@ + err + "\n"@)])
}

/// Tells that the state could not be restored.
pub fn fail_open_state(err: &str) -> (r: Turn)
    ensures
        r@ == open_failed(err@),
{
    complain("settings", "Open state failed: ", err)
}

/// How many services read their state again.
pub const SERVICE_COUNT: usize = 7;

/// The services in the order in which they are asked, with their names and addresses.
pub open spec fn service_at(cfg: AppConfig, k: int) -> (ServiceName, Seq<char>, Seq<char>) {
    if k == 0 {
        (ServiceName::Job, "job"@, cfg.job_addr@)
    } else if k == 1 {
        (ServiceName::Toolchain, "toolchain"@, cfg.toolchain_addr@)
    } else if k == 2 {
        (ServiceName::Project, "project"@, cfg.project_addr@)
    } else if k == 3 {
        (ServiceName::Build, "build"@, cfg.build_addr@)
    } else if k == 4 {
        (ServiceName::Targets, "targets"@, cfg.targets_addr@)
    } else if k == 5 {
        (ServiceName::Observe, "observe"@, cfg.observe_addr@)
    } else {
        (ServiceName::Workflow, "workflow"@, cfg.workflow_addr@)
    }
}

fn service_of<'a>(cfg: &'a AppConfig, k: usize) -> (r: (ServiceName, &'static str, &'a str))
    ensures
        (r.0, r.1@, r.2@) == service_at(*cfg, k as int),
{
    if k == 0 {
        (ServiceName::Job, "job", cfg.job_addr.as_str())
    } else if k == 1 {
        (ServiceName::Toolchain, "toolchain", cfg.toolchain_addr.as_str())
    } else if k == 2 {
        (ServiceName::Project, "project", cfg.project_addr.as_str())
    } else if k == 3 {
        (ServiceName::Build, "build", cfg.build_addr.as_str())
    } else if k == 4 {
        (ServiceName::Targets, "targets", cfg.targets_addr.as_str())
    } else if k == 5 {
        (ServiceName::Observe, "observe", cfg.observe_addr.as_str())
    } else {
        (ServiceName::Workflow, "workflow", cfg.workflow_addr.as_str())
    }
}

/// The services are reading their state again: whose turn it is, and which of them failed.
#[derive(Debug)]
pub struct Reload {
    pub cfg: AppConfig,
    pub at: usize,
    pub errors: Vec<String>,
    /// Tells the interface about the configuration at the end.
    pub announce: bool,
}

/// What a `Reload` holds, mathematically.
#[verifier::ext_equal]
pub struct ReloadView {
    pub cfg: AppConfig,
    pub at: usize,
    pub errors: Seq<Seq<char>>,
    pub announce: bool,
}

impl View for Reload {
    type V = ReloadView;

    open spec fn view(&self) -> ReloadView {
        ReloadView {
            cfg: self.cfg,
            at: self.at,
            errors: texts(self.errors@),
            announce: self.announce,
        }
    }
}

/// The reloading begins.
pub open spec fn reload_begun(cfg: AppConfig, announce: bool) -> ReloadView {
    ReloadView { cfg, at: 0, errors: Seq::empty(), announce }
}

/// What follows the services' reloading.
pub open spec fn reload_end(l: ReloadView) -> Seq<EffectView> {
    let failed: Seq<EffectView> = if l.errors.len() == 0 {
        Seq::empty()
    } else {
        seq![
            log(
                "settings"@,
                "Reload state failed: reload failures: "@ + joined(l.errors, "; "@) + "\n"@,
            ),
        ]
    };
    if l.announce {
        failed.push(ui(AppEventView::ConfigReloaded { cfg: l.cfg }))
    } else {
        failed
    }
}

/// The next service is asked to read its state again, or all of them were.
pub open spec fn reload_next(l: ReloadView, before: Seq<EffectView>) -> TurnView {
    if l.at < SERVICE_COUNT {
        let (service, _, addr) = service_at(l.cfg, l.at as int);
        call(before, CallView::ReloadState { service, addr })
    } else {
        done(before + reload_end(l))
    }
}

fn go_on_reloading(l: &Reload, mut out: Out) -> (r: Turn)
    ensures
        r@ == reload_next(l@, out@),
{
    if l.at < SERVICE_COUNT {
        let (service, _, addr): (ServiceName, &'static str, &str) = service_of(&l.cfg, l.at);
        return ask(out, Call::ReloadState { service, addr: addr.to_owned() });
    }
    let ghost before = out@;
    assert(texts(l.errors@).len() == l.errors@.len());
    if l.errors.len() != 0 {
        let errors: String = join(&l.errors, "; ");
        out.log(
            "settings",
            cat3("Reload state failed: reload failures: ", errors.as_str(), "\n"),
        );
    }
    if l.announce {
        out.ui(AppEvent::ConfigReloaded { cfg: l.cfg.clone() });
    }
    assert(out@ =~= before + reload_end(l@));
    finish(out)
}

/// The services are to read their state again.
pub open spec fn reload_state(cfg: AppConfig) -> TurnView {
    reload_next(
        reload_begun(cfg, false),
        seq![log("settings"@, "Reloading services from disk...\n"@)],
    )
}

/// Begins to have every service read its state again.
pub fn begin_reload_state(cfg: &AppConfig) -> (r: (Reload, Turn))
    ensures
        r.0@ == reload_begun(*cfg, false),
        r.1@ == reload_state(*cfg),
{
    let l: Reload = Reload { cfg: cfg.clone(), at: 0, errors: Vec::new(), announce: false };
    assert(texts(l.errors@) =~= Seq::empty());
    let mut out: Out = Out::new();
    out.say("settings", "Reloading services from disk...\n");
    let turn: Turn = go_on_reloading(&l, out);
    (l, turn)
}

/// The configuration was read again after the state was restored: the services follow.
pub open spec fn config_read(cfg: AppConfig) -> TurnView {
    reload_next(reload_begun(cfg, true), Seq::empty())
}

/// Goes on with the settings that were read again.
pub fn reload_on_config(cfg: AppConfig) -> (r: (Reload, Turn))
    ensures
        r.0@ == reload_begun(cfg, true),
        r.1@ == config_read(cfg),
{
    let l: Reload = Reload { cfg, at: 0, errors: Vec::new(), announce: true };
    assert(texts(l.errors@) =~= Seq::empty());
    let turn: Turn = go_on_reloading(&l, Out::new());
    (l, turn)
}

/// A service's line about its state.
pub open spec fn reloaded_line(
    name: Seq<char>,
    addr: Seq<char>,
    ok: bool,
    item_count: i64,
    detail: Seq<char>,
) -> Seq<char> {
    "  "@ + name + ": ok="@ + bool_spelled(ok) + " items="@ + dec_int(item_count as int)
        + " addr="@ + addr + " detail="@ + (if blank(detail) {
        "-"@
    } else {
        detail
    }) + "\n"@
}

/// The place behind `at`.
pub open spec fn behind(at: usize) -> usize {
    if at < SERVICE_COUNT {
        (at + 1) as usize
    } else {
        at
    }
}

/// A service read its state again.
pub open spec fn reload_passed(l: ReloadView) -> ReloadView {
    ReloadView { at: behind(l.at), ..l }
}

/// A service read its state again: the next one follows.
pub open spec fn reload_answered(l: ReloadView, ok: bool, item_count: i64, detail: Seq<char>) -> TurnView {
    let (_, name, addr) = service_at(l.cfg, l.at as int);
    reload_next(
        reload_passed(l),
        seq![log("settings"@, reloaded_line(name, addr, ok, item_count, detail))],
    )
}

/// Takes a service's answer and goes on with the next service.
pub fn reload_on_answer(l: Reload, ok: bool, item_count: i64, detail: &str) -> (r: (Reload, Turn))
    ensures
        r.0@ == reload_passed(l@),
        r.1@ == reload_answered(l@, ok, item_count, detail@),
{
    let mut line: String = String::new();
    {
        let (_, name, addr): (ServiceName, &'static str, &str) = service_of(&l.cfg, l.at);
        line = cat7(
            "  ",
            name,
            ": ok=",
            bool_text(ok),
            " items=",
            i64_text(item_count).as_str(),
            " addr=",
        );
        line.append(addr);
        line.append(" detail=");
        if is_blank(detail) {
            line.append("-");
        } else {
            line.append(detail);
        }
        line.append("\n");
    }
    let mut out: Out = Out::new();
    out.log("settings", line);
    let mut next: Reload = l;
    if next.at < SERVICE_COUNT {
        next.at = next.at + 1;
    }
    let turn: Turn = go_on_reloading(&next, out);
    (next, turn)
}

/// A service did not read its state again.
pub open spec fn reload_missed(l: ReloadView, err: Seq<char>) -> ReloadView {
    let (_, name, _) = service_at(l.cfg, l.at as int);
    ReloadView { at: behind(l.at), errors: l.errors.push(name + ": "@ + err), ..l }
}

/// A service did not read its state again: the next one follows all the same.
pub open spec fn reload_failed(l: ReloadView, err: Seq<char>) -> TurnView {
    reload_next(reload_missed(l, err), Seq::empty())
}

/// Tells that a service could not read its state again and goes on with the next.
pub fn reload_on_failure(l: Reload, err: &str) -> (r: (Reload, Turn))
    ensures
        r.0@ == reload_missed(l@, err@),
        r.1@ == reload_failed(l@, err@),
{
    broadcast use lemma_texts_push;

    let (_, name, _): (ServiceName, &'static str, &str) = service_of(&l.cfg, l.at);
    let mut next: Reload = l;
    next.errors.push(cat3(name, ": ", err));
    if next.at < SERVICE_COUNT {
        next.at = next.at + 1;
    }
    assert(next@ =~= reload_missed(l@, err@));
    let turn: Turn = go_on_reloading(&next, Out::new());
    (next, turn)
}

/// The local state under `dir` is to be deleted; only a directory with the expected name is.
pub open spec fn reset_state(dir: Seq<char>) -> TurnView {
    let told = log("settings"@, "Resetting AADK state under "@ + dir + "\n"@);
    if last_name(dir) == Some("aadk"@) {
        call(seq![told], CallView::ResetState { dir })
    } else {
        done(
            seq![
                told,
                log("settings"@, "Refusing to reset unexpected path: "@ + dir + "\n"@),
                ui(AppEventView::ResetAllStateComplete { ok: false }),
            ],
        )
    }
}

/// Begins to clear the state.
pub fn begin_reset_state(dir: &str) -> (r: Turn)
    ensures
        r@ == reset_state(dir@),
{
    let mut out: Out = Out::new();
    out.log("settings", cat3("Resetting AADK state under ", dir, "\n"));
    let safe: bool = match file_name(dir) {
        Some(name) => text_eq(name.as_str(), "aadk"),
        None => false,
    };
    if safe {
        return ask(out, Call::ResetState { dir: dir.to_owned() });
    }
    out.log("settings", cat3("Refusing to reset unexpected path: ", dir, "\n"));
    out.ui(AppEvent::ResetAllStateComplete { ok: false });
    finish(out)
}

/// The state could not be cleared.
pub open spec fn reset_failed(err: Seq<char>) -> TurnView {
    done(
        seq![
            log("settings"@, "Reset failed: "@ + err + "\n"@),
            ui(AppEventView::ResetAllStateComplete { ok: false }),
        ],
    )
}

/// Tells that the state could not be cleared.
pub fn fail_reset_state(err: &str) -> (r: Turn)
    ensures
        r@ == reset_failed(err@),
{
    let mut out: Out = Out::new();
    out.log("settings", cat3("Reset failed: ", err, "\n"));
    out.ui(AppEvent::ResetAllStateComplete { ok: false });
    finish(out)
}

/// The local state was deleted: nothing is watched any more.
pub open spec fn reset_done() -> TurnView {
    done(
        seq![
            EffectView::AbortHomeStream,
            EffectView::CurrentJob { current: None },
            ui(AppEventView::SetCurrentJob { job_id: None }),
            ui(AppEventView::HomeResetStatus),
            log("settings"@, "Reset complete.\n"@),
            ui(AppEventView::ResetAllStateComplete { ok: true }),
        ],
    )
}

/// Tells that the state was cleared.
pub fn end_reset_state() -> (r: Turn)
    ensures
        r@ == reset_done(),
{
    let mut out: Out = Out::new();
    out.push(Effect::AbortHomeStream);
    out.push(Effect::CurrentJob { job_id: None });
    out.ui(AppEvent::SetCurrentJob { job_id: None });
    out.ui(AppEvent::HomeResetStatus);
    out.say("settings", "Reset complete.\n");
    out.ui(AppEvent::ResetAllStateComplete { ok: true });
    finish(out)
}

/// What a reset does with an entry of the data directory.
#[derive(Clone, Copy, Debug, PartialEq, Eq, Structural)]
pub enum ResetStep {
    /// It stays as it is.
    Keep,
    /// What is in it goes, as far as `clears_state_entry` says.
    Empty,
    /// It goes.
    Remove,
}

/// What a reset does with an entry of the data directory: what was downloaded and installed stays.
pub open spec fn reset_step_of(name: Seq<char>) -> ResetStep {
    if name == "toolchains"@ || name == "downloads"@ || name == "cuttlefish"@ {
        ResetStep::Keep
    } else if name == "state"@ {
        ResetStep::Empty
    } else {
        ResetStep::Remove
    }
}

/// What a reset does with an entry of the data directory.
pub fn reset_step(name: &str) -> (r: ResetStep)
    ensures
        r == reset_step_of(name@),
{
    if text_eq(name, "toolchains") || text_eq(name, "downloads") || text_eq(name, "cuttlefish") {
        ResetStep::Keep
    } else if text_eq(name, "state") {
        ResetStep::Empty
    } else {
        ResetStep::Remove
    }
}

/// A reset deletes the entry of the state directory: all but the record of the toolchains that
/// stay.
pub open spec fn state_entry_goes(name: Seq<char>) -> bool {
    name != "toolchains.json"@
}

/// Tells whether a reset deletes an entry of the state directory.
pub fn clears_state_entry(name: &str) -> (r: bool)
    ensures
        r == state_entry_goes(name@),
{
    !text_eq(name, "toolchains.json")
}

/// Something in a directory.
pub enum Entry {
    Dir { entries: Map<Seq<char>, Entry> },
    /// A file or a link.
    Leaf { content: Seq<u8> },
}

/// The names are those in the directory, each once.
pub open spec fn lists(names: Seq<Seq<char>>, entries: Map<Seq<char>, Entry>) -> bool {
    &&& names.no_duplicates()
    &&& forall|name: Seq<char>| #[trigger] names.contains(name) <==> entries.contains_key(name)
}

/// What is left in the state directory once the names were gone through in their order.
pub open spec fn state_after(entries: Map<Seq<char>, Entry>, names: Seq<Seq<char>>) -> Map<
    Seq<char>,
    Entry,
>
    decreases names.len(),
{
    if names.len() == 0 {
        entries
    } else {
        let before = state_after(entries, names.drop_last());
        if state_entry_goes(names.last()) {
            before.remove(names.last())
        } else {
            before
        }
    }
}

/// The directory without what a reset deletes in it, where `names` are the names in it.
pub open spec fn emptied(entry: Entry, names: Seq<Seq<char>>) -> Entry {
    match entry {
        Entry::Dir { entries } => Entry::Dir { entries: state_after(entries, names) },
        Entry::Leaf { .. } => entry,
    }
}

/// What is left in the data directory once the names were gone through in their order, where
/// `state_names` are the names in its state directory.
pub open spec fn entries_after(
    entries: Map<Seq<char>, Entry>,
    names: Seq<Seq<char>>,
    state_names: Seq<Seq<char>>,
) -> Map<Seq<char>, Entry>
    decreases names.len(),
{
    if names.len() == 0 {
        entries
    } else {
        let before = entries_after(entries, names.drop_last(), state_names);
        let name = names.last();
        match reset_step_of(name) {
            ResetStep::Keep => before,
            ResetStep::Empty => before.insert(name, emptied(before[name], state_names)),
            ResetStep::Remove => before.remove(name),
        }
    }
}

/// The data directory after a reset, where `names` and `state_names` are the names in it and in its
/// state directory; one that is missing stays missing.
pub open spec fn data_after(
    dir: Option<Map<Seq<char>, Entry>>,
    names: Seq<Seq<char>>,
    state_names: Seq<Seq<char>>,
) -> Option<Map<Seq<char>, Entry>> {
    match dir {
        Some(entries) => Some(entries_after(entries, names, state_names)),
        None => None,
    }
}

/// The names are those in the data directory and in its state directory, which is a directory where
/// it is there.
pub open spec fn lists_data(
    dir: Option<Map<Seq<char>, Entry>>,
    names: Seq<Seq<char>>,
    state_names: Seq<Seq<char>>,
) -> bool {
    dir matches Some(entries) ==> {
        &&& lists(names, entries)
        &&& entries.contains_key("state"@) ==> (entries["state"@] matches Entry::Dir {
            entries: inner,
        } && lists(state_names, inner))
    }
}

/// A reset leaves exactly the toolchains, the downloads and what Cuttlefish uses, as they are, and
/// the state directory, as far as they were there; and in the state directory the record of the
/// toolchains, as it is, where it was there. A data directory that is missing stays missing.
pub proof fn law_what_a_reset_leaves(
    dir: Option<Map<Seq<char>, Entry>>,
    names: Seq<Seq<char>>,
    state_names: Seq<Seq<char>>,
)
    requires
        lists_data(dir, names, state_names),
    ensures
        dir is None ==> data_after(dir, names, state_names) is None,
        dir matches Some(entries) ==> {
            &&& data_after(dir, names, state_names) matches Some(left)
            &&& forall|name: Seq<char>| #[trigger]
                left.contains_key(name) <==> entries.contains_key(name) && (name == "toolchains"@
                    || name == "downloads"@ || name == "cuttlefish"@ || name == "state"@)
            &&& forall|name: Seq<char>| #[trigger]
                left.contains_key(name) && name != "state"@ ==> left[name] == entries[name]
            &&& entries.contains_key("state"@) ==> {
                &&& entries["state"@] matches Entry::Dir { entries: inner }
                &&& left["state"@] matches Entry::Dir { entries: inner_left }
                &&& forall|name: Seq<char>| #[trigger]
                    inner_left.contains_key(name) <==> inner.contains_key(name) && name
                        == "toolchains.json"@
                &&& inner.contains_key("toolchains.json"@) ==> inner_left["toolchains.json"@]
                    == inner["toolchains.json"@]
            }
        },
{
    if let Some(entries) = dir {
        let left = entries_after(entries, names, state_names);
        lemma_state_is_emptied();
        assert forall|name: Seq<char>| #[trigger]
            left.contains_key(name) <==> entries.contains_key(name) && (name == "toolchains"@
                || name == "downloads"@ || name == "cuttlefish"@ || name == "state"@) by {
            lemma_entries_after(entries, names, state_names, name);
            assert(names.contains(name) <==> entries.contains_key(name));
        }
        assert forall|name: Seq<char>| #[trigger]
            left.contains_key(name) && name != "state"@ implies left[name] == entries[name] by {
            lemma_entries_after(entries, names, state_names, name);
        }
        if entries.contains_key("state"@) {
            let inner = entries["state"@]->entries;
            let inner_left = state_after(inner, state_names);
            assert(names.contains("state"@));
            lemma_entries_after(entries, names, state_names, "state"@);
            assert(left["state"@] == Entry::Dir { entries: inner_left });
            assert forall|name: Seq<char>| #[trigger]
                inner_left.contains_key(name) <==> inner.contains_key(name) && name
                    == "toolchains.json"@ by {
                lemma_state_after(inner, state_names, name);
                assert(state_names.contains(name) <==> inner.contains_key(name));
            }
            lemma_state_after(inner, state_names, "toolchains.json"@);
        }
    }
}

/// A reset behind a reset changes nothing, in whatever order the names come.
pub proof fn law_reset_twice(
    dir: Option<Map<Seq<char>, Entry>>,
    names: Seq<Seq<char>>,
    state_names: Seq<Seq<char>>,
    left_names: Seq<Seq<char>>,
    left_state_names: Seq<Seq<char>>,
)
    requires
        lists_data(dir, names, state_names),
        lists_data(data_after(dir, names, state_names), left_names, left_state_names),
    ensures
        data_after(data_after(dir, names, state_names), left_names, left_state_names)
            == data_after(dir, names, state_names),
{
    law_what_a_reset_leaves(dir, names, state_names);
    if let Some(left) = data_after(dir, names, state_names) {
        let again = entries_after(left, left_names, left_state_names);
        lemma_state_is_emptied();
        assert forall|name: Seq<char>| #[trigger]
            again.contains_key(name) <==> left.contains_key(name) by {
            lemma_entries_after(left, left_names, left_state_names, name);
        }
        assert forall|name: Seq<char>| #[trigger] again.contains_key(name) implies again[name]
            == left[name] by {
            lemma_entries_after(left, left_names, left_state_names, name);
            assert(left.contains_key(name));
            if name == "state"@ {
                let inner = left[name]->entries;
                assert forall|key: Seq<char>| #[trigger]
                    state_after(inner, left_state_names).contains_key(key) <==> inner.contains_key(
                        key,
                    ) by {
                    lemma_state_after(inner, left_state_names, key);
                }
                assert forall|key: Seq<char>| #[trigger]
                    state_after(inner, left_state_names).contains_key(key) implies state_after(
                    inner,
                    left_state_names,
                )[key] == inner[key] by {
                    lemma_state_after(inner, left_state_names, key);
                }
                assert(state_after(inner, left_state_names) =~= inner);
            }
        }
        assert(again =~= left);
    }
}

proof fn lemma_state_is_emptied()
    ensures
        reset_step_of("state"@) == ResetStep::Empty,
{
    reveal_strlit("state");
    reveal_strlit("toolchains");
    reveal_strlit("downloads");
    reveal_strlit("cuttlefish");
    assert("state"@.len() != "toolchains"@.len());
    assert("state"@.len() != "downloads"@.len());
    assert("state"@.len() != "cuttlefish"@.len());
}

/// A name of the state directory that was gone through is gone where it goes; all else is as it
/// was.
proof fn lemma_state_after(
    entries: Map<Seq<char>, Entry>,
    names: Seq<Seq<char>>,
    name: Seq<char>,
)
    ensures
        state_after(entries, names).contains_key(name) <==> entries.contains_key(name) && !(
        names.contains(name) && state_entry_goes(name)),
        state_after(entries, names).contains_key(name) ==> state_after(entries, names)[name]
            == entries[name],
    decreases names.len(),
{
    if names.len() > 0 {
        let before = names.drop_last();
        lemma_state_after(entries, before, name);
        lemma_contains_push(before, names.last(), name);
        assert(names =~= before.push(names.last()));
    }
}

proof fn lemma_contains_push(names: Seq<Seq<char>>, last: Seq<char>, name: Seq<char>)
    ensures
        names.push(last).contains(name) <==> names.contains(name) || name == last,
{
    let all = names.push(last);
    if names.contains(name) {
        let i = choose|i: int| 0 <= i < names.len() && names[i] == name;
        assert(all[i] == name);
    }
    if name == last {
        assert(all[names.len() as int] == name);
    }
}

/// A name of the data directory that was gone through was dealt with as its step says; all else is
/// as it was.
proof fn lemma_entries_after(
    entries: Map<Seq<char>, Entry>,
    names: Seq<Seq<char>>,
    state_names: Seq<Seq<char>>,
    name: Seq<char>,
)
    requires
        names.no_duplicates(),
        forall|n: Seq<char>| #[trigger] names.contains(n) ==> entries.contains_key(n),
    ensures
        ({
            let left = entries_after(entries, names, state_names);
            let visited = names.contains(name);
            &&& left.contains_key(name) <==> entries.contains_key(name) && !(visited
                && reset_step_of(name) == ResetStep::Remove)
            &&& left.contains_key(name) ==> left[name] == if visited && reset_step_of(name)
                == ResetStep::Empty {
                emptied(entries[name], state_names)
            } else {
                entries[name]
            }
        }),
    decreases names.len(),
{
    if names.len() > 0 {
        let before = names.drop_last();
        let last = names.last();
        assert(names =~= before.push(last));
        assert forall|n: Seq<char>| #[trigger] before.contains(n) implies entries.contains_key(
            n,
        ) by {
            lemma_contains_push(before, last, n);
            assert(names.contains(n));
        }
        lemma_contains_push(before, last, name);
        lemma_contains_push(before, last, last);
        assert(names.contains(last));
        lemma_entries_after(entries, before, state_names, name);
        if before.contains(last) {
            let i = choose|i: int| 0 <= i < before.len() && before[i] == last;
            assert(names[i] == names[names.len() - 1]);
        }
    }
}

/// What is seen of a reloading is what it holds, each part in its place.
pub proof fn law_reload_is_seen_whole(reload: Reload)
    ensures
        reload@.cfg == reload.cfg,
        reload@.at == reload.at,
        reload@.errors == texts(reload.errors@),
        reload@.announce == reload.announce,
{
}

} // verus!
