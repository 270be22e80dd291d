//! How the commands that take several requests go on: what each request takes from the command and
//! from the answers before it.

use crate::commands::{AppEventView, UiCommand};
use crate::job_events::exports_of;
use crate::model::{id_text, or_empty, or_zero, ToolchainKind};
use crate::text::{blank, opt_text, trimmed};
use crate::util::{expanded_user, export_path_at};
use crate::worker::call::ServiceName;
use crate::worker::command::{begun, stepped};
use crate::worker::jobs::unless_blank;
use crate::worker::phase::PhaseView;
use crate::worker::reply::{InstalledToolchain, Reply, Target, ToolchainSet};
use crate::worker::state::{excluded_names, SERVICE_COUNT};
use crate::worker::toolchains::{
    installed_ids, latest_place, law_latest_place, of_kind, verdict_line, verify_from,
};
use crate::worker::turn::{job_stream, log, EffectView};
use vstd::prelude::*;

verus! {

/// The command takes one request at most.
pub open spec fn asks_once(cmd: UiCommand) -> bool {
    !(cmd is JobsExportLogs || cmd is ToolchainVerifyInstalled || cmd is ToolchainCreateActiveLatest
        || cmd is ProjectLoadDefaults || cmd is ProjectUseActiveDefaults || cmd is TargetsLaunchApp
        || cmd is StateSave || cmd is StateOpen || cmd is StateReload)
}

/// A command that takes one request makes no further one, whatever comes.
pub proof fn law_one_request(
    cmd: UiCommand,
    home: Option<Seq<char>>,
    phase: PhaseView,
    reply: Reply,
    now: i64,
)
    requires
        asks_once(cmd),
    ensures
        !(stepped(cmd, home, phase, reply, now).turn.next is Call),
{
}

/// Every launch of a launch command goes to the target and the activity that were typed, and to the
/// application that was found by the APK; without one nothing is launched.
pub proof fn law_launch_behind_inference(
    cmd: UiCommand,
    home: Option<Seq<char>>,
    phase: PhaseView,
    reply: Reply,
    now: i64,
)
    requires
        cmd is TargetsLaunchApp,
    ensures
        ({
            let next = stepped(cmd, home, phase, reply, now).turn.next;
            &&& next is Call ==> phase is First && reply is Inferred && next->call is Launch
            &&& phase is First && reply is Inferred ==> if or_empty(
                opt_text(reply->application_id),
            ).len() == 0 {
                next is Done
            } else {
                &&& next is Call
                &&& next->call->Launch_addr == cmd->TargetsLaunchApp_cfg.targets_addr@
                &&& next->call->Launch_target_id == trimmed(cmd->TargetsLaunchApp_target_id@)
                &&& Some(next->call->Launch_application_id) == opt_text(reply->application_id)
                &&& next->call->Launch_activity == trimmed(cmd->TargetsLaunchApp_activity@)
                &&& next->call->Launch_job_id == unless_blank(
                    opt_text(cmd->TargetsLaunchApp_job_id),
                )
                &&& next->call->Launch_correlation_id == trimmed(
                    cmd->TargetsLaunchApp_correlation_id@,
                )
                &&& next->call->Launch_run_id == id_text(cmd->TargetsLaunchApp_correlation_id@)
            }
        }),
{
}

/// An archive is written at the path that was given, or at the usual place without one, and leaves
/// out exactly what the command says; what is told afterwards to be left out is the same, and the
/// archive, the files, the directories and the bytes are those of the answer.
pub proof fn law_archive_leaves_out_what_was_asked(
    cmd: UiCommand,
    home: Option<Seq<char>>,
    phase: PhaseView,
    reply: Reply,
    now: i64,
)
    requires
        cmd is StateSave,
    ensures
        ({
            let turn = stepped(cmd, home, phase, reply, now).turn;
            let options = cmd->StateSave_options;
            &&& phase is First && reply is Jobs && reply->Jobs_jobs@.len() == 0 ==> turn.next is Call
                && turn.next->call is LockState
            &&& phase is Locked && reply is Finished ==> {
                &&& turn.next is Call
                &&& turn.next->call is SaveArchive
                &&& turn.next->call->SaveArchive_options.exclude_downloads
                    == options.exclude_downloads
                &&& turn.next->call->SaveArchive_options.exclude_toolchains
                    == options.exclude_toolchains
                &&& turn.next->call->SaveArchive_options.exclude_bundles == options.exclude_bundles
                &&& turn.next->call->SaveArchive_options.exclude_telemetry
                    == options.exclude_telemetry
                &&& turn.next->call->SaveArchive_path is None <==> blank(cmd->StateSave_output_path@)
                &&& !blank(cmd->StateSave_output_path@) ==> turn.next->call->SaveArchive_path
                    == Some(expanded_user(cmd->StateSave_output_path@, home))
            }
            &&& turn.next is Call && turn.next->call is SaveArchive ==> phase is Locked && reply
                is Finished
            &&& phase is Archived && reply is Archived ==> {
                &&& turn.next is Done
                &&& turn.effects.contains(
                    log(
                        "settings"@,
                        "Exclusions: "@ + crate::text::joined(excluded_names(options), ", "@)
                            + "\n"@,
                    ),
                )
            }
        }),
{
    let turn = stepped(cmd, home, phase, reply, now).turn;
    if phase is Archived && reply is Archived {
        assert(turn.effects[2] == log(
            "settings"@,
            "Exclusions: "@ + crate::text::joined(excluded_names(cmd->StateSave_options), ", "@)
                + "\n"@,
        ));
    }
}

/// A thing is told to be left out exactly where its switch says so.
pub proof fn law_told_exclusions(cmd: UiCommand)
    requires
        cmd is StateSave,
    ensures
        ({
            let names = excluded_names(cmd->StateSave_options);
            &&& names.contains("downloads"@) == cmd->StateSave_options.exclude_downloads
            &&& names.contains("toolchains"@) == cmd->StateSave_options.exclude_toolchains
            &&& names.contains("bundles"@) == cmd->StateSave_options.exclude_bundles
            &&& names.contains("telemetry"@) == cmd->StateSave_options.exclude_telemetry
        }),
{
    let o = cmd->StateSave_options;
    let names = excluded_names(o);
    reveal_strlit("downloads");
    reveal_strlit("toolchains");
    reveal_strlit("bundles");
    reveal_strlit("telemetry");
    reveal_strlit("state-exports");
    reveal_strlit("state-ops");
    assert("downloads"@[0] == 'd' && "toolchains"@[0] == 't' && "bundles"@[0] == 'b'
        && "telemetry"@[1] == 'e' && "toolchains"@[1] == 'o' && "state-exports"@[0] == 's'
        && "state-ops"@[0] == 's' && "telemetry"@[0] == 't');
    let a: int = if o.exclude_downloads {
        1
    } else {
        0
    };
    let b: int = if o.exclude_toolchains {
        a + 1
    } else {
        a
    };
    let c: int = if o.exclude_bundles {
        b + 1
    } else {
        b
    };
    if o.exclude_downloads {
        assert(names[0] == "downloads"@);
    }
    if o.exclude_toolchains {
        assert(names[a] == "toolchains"@);
    }
    if o.exclude_bundles {
        assert(names[b] == "bundles"@);
    }
    if o.exclude_telemetry {
        assert(names[c] == "telemetry"@);
    }
}

/// A state is restored from the archive that was given, leaving out exactly what the command says;
/// then the configuration is read, and every service reads its state under that configuration.
pub proof fn law_restore_leaves_out_what_was_asked(
    cmd: UiCommand,
    home: Option<Seq<char>>,
    phase: PhaseView,
    reply: Reply,
    now: i64,
)
    requires
        cmd is StateOpen,
    ensures
        ({
            let step = stepped(cmd, home, phase, reply, now);
            let next = step.turn.next;
            let options = cmd->StateOpen_options;
            &&& phase is First && reply is Jobs && reply->Jobs_jobs@.len() == 0 ==> next is Call
                && next->call is LockState
            &&& phase is Locked && reply is Finished ==> {
                &&& next is Call
                &&& next->call is OpenArchive
                &&& next->call->OpenArchive_path == expanded_user(
                    cmd->StateOpen_archive_path@,
                    home,
                )
                &&& next->call->OpenArchive_options.exclude_downloads == options.exclude_downloads
                &&& next->call->OpenArchive_options.exclude_toolchains == options.exclude_toolchains
                &&& next->call->OpenArchive_options.exclude_bundles == options.exclude_bundles
                &&& next->call->OpenArchive_options.exclude_telemetry == options.exclude_telemetry
            }
            &&& next is Call && next->call is OpenArchive ==> phase is Locked && reply is Finished
            &&& phase is Archived && reply is Restored ==> next is Call && next->call is LoadConfig
            &&& phase is Config && reply is Config ==> {
                &&& next is Call
                &&& next->call is ReloadState
                &&& next->call->ReloadState_service == ServiceName::Job
                &&& next->call->ReloadState_addr == reply->cfg.job_addr@
                &&& step.phase is Reloading
                &&& step.phase->reload.cfg == reply->cfg
                &&& step.phase->reload.announce
            }
        }),
{
}

/// The address of a service in a configuration.
pub open spec fn address_of(service: ServiceName, cfg: crate::config::AppConfig) -> Seq<char> {
    match service {
        ServiceName::Job => cfg.job_addr@,
        ServiceName::Toolchain => cfg.toolchain_addr@,
        ServiceName::Project => cfg.project_addr@,
        ServiceName::Build => cfg.build_addr@,
        ServiceName::Targets => cfg.targets_addr@,
        ServiceName::Observe => cfg.observe_addr@,
        ServiceName::Workflow => cfg.workflow_addr@,
    }
}

/// The place of a service in a reload.
pub open spec fn turn_of(service: ServiceName) -> int {
    match service {
        ServiceName::Job => 0,
        ServiceName::Toolchain => 1,
        ServiceName::Project => 2,
        ServiceName::Build => 3,
        ServiceName::Targets => 4,
        ServiceName::Observe => 5,
        ServiceName::Workflow => 6,
    }
}

/// A reload asks every service in its turn, at its own address, whether or not one before it
/// failed; behind the last the configuration is announced exactly where that is owed.
pub proof fn law_reload_asks_every_service(
    cmd: UiCommand,
    home: Option<Seq<char>>,
    phase: PhaseView,
    reply: Reply,
    now: i64,
)
    requires
        cmd is StateReload || cmd is StateOpen,
        phase is Reloading,
        phase->reload.at < SERVICE_COUNT,
        reply is Reloaded || reply is Failed,
    ensures
        ({
            let l = phase->reload;
            let turn = stepped(cmd, home, phase, reply, now).turn;
            if l.at + 1 < 7 {
                &&& turn.next is Call
                &&& turn.next->call is ReloadState
                &&& turn_of(turn.next->call->ReloadState_service) == l.at + 1
                &&& turn.next->call->ReloadState_addr == address_of(
                    turn.next->call->ReloadState_service,
                    l.cfg,
                )
                &&& stepped(cmd, home, phase, reply, now).phase is Reloading
                &&& stepped(cmd, home, phase, reply, now).phase->reload.at == l.at + 1
                &&& stepped(cmd, home, phase, reply, now).phase->reload.cfg == l.cfg
                &&& stepped(cmd, home, phase, reply, now).phase->reload.announce == l.announce
                &&& stepped(cmd, home, phase, reply, now).phase->reload.errors.len()
                    == l.errors.len() + if reply is Failed {
                    1int
                } else {
                    0int
                }
            } else {
                &&& turn.next is Done
                &&& l.announce == (turn.effects.len() > 0 && turn.effects.last()
                    == (EffectView::Ui { event: AppEventView::ConfigReloaded { cfg: l.cfg } }))
            }
        }),
{
    let l = phase->reload;
    assert(SERVICE_COUNT == 7);
}

/// A reset that succeeded leaves no job watched, on the worker's side and on the page, and says last
/// that it succeeded.
pub proof fn law_reset_leaves_nothing_watched(
    cmd: UiCommand,
    home: Option<Seq<char>>,
    phase: PhaseView,
    now: i64,
)
    requires
        cmd is ResetAllState,
        phase is First,
    ensures
        ({
            let turn = stepped(cmd, home, phase, Reply::Finished, now).turn;
            &&& turn.next is Done
            &&& turn.effects.contains(EffectView::AbortHomeStream)
            &&& turn.effects.contains(EffectView::CurrentJob { current: None })
            &&& turn.effects.contains(
                EffectView::Ui { event: AppEventView::SetCurrentJob { job_id: None } },
            )
            &&& turn.effects.contains(EffectView::Ui { event: AppEventView::HomeResetStatus })
            &&& turn.effects.last() == (EffectView::Ui {
                event: AppEventView::ResetAllStateComplete { ok: true },
            })
        }),
{
    let e = stepped(cmd, home, phase, Reply::Finished, now).turn.effects;
    assert(e.len() == 6);
    assert(e[0] == EffectView::AbortHomeStream);
    assert(e[1] == EffectView::CurrentJob { current: None });
    assert(e[2] == EffectView::Ui { event: AppEventView::SetCurrentJob { job_id: None } });
    assert(e[3] == EffectView::Ui { event: AppEventView::HomeResetStatus });
}

/// A reset that failed leaves what is watched alone, and says last that it failed.
pub proof fn law_failed_reset_is_told(
    cmd: UiCommand,
    home: Option<Seq<char>>,
    phase: PhaseView,
    reply: Reply,
    now: i64,
)
    requires
        cmd is ResetAllState,
        phase is First,
        reply is Failed,
    ensures
        ({
            let turn = stepped(cmd, home, phase, reply, now).turn;
            &&& turn.next is Done
            &&& turn.effects.len() == 2
            &&& turn.effects[0] is Ui && turn.effects[0]->event is Log
            &&& turn.effects[1] == (EffectView::Ui {
                event: AppEventView::ResetAllStateComplete { ok: false },
            })
        }),
{
}

/// The choices of a project's defaults are the toolchain sets, then the targets, those that are
/// offline included; that the sets could not be had does not keep the targets back.
pub proof fn law_defaults_are_loaded_in_turn(
    cmd: UiCommand,
    home: Option<Seq<char>>,
    phase: PhaseView,
    reply: Reply,
    now: i64,
)
    requires
        cmd is ProjectLoadDefaults,
    ensures
        ({
            let next = stepped(cmd, home, phase, reply, now).turn.next;
            &&& next is Call <==> phase is First && (reply is Sets || reply is Failed)
            &&& next is Call ==> {
                &&& next->call is ListTargets
                &&& next->call->ListTargets_addr == cmd->ProjectLoadDefaults_cfg.targets_addr@
                &&& next->call->ListTargets_include_offline
            }
        }),
{
}

/// A project takes over the active toolchain set and the default target that were answered, each in
/// its place and only where it has an id; with neither nothing is changed, and no other project is.
pub proof fn law_defaults_are_taken_over(
    cmd: UiCommand,
    home: Option<Seq<char>>,
    set: Option<ToolchainSet>,
    target: Option<Target>,
    set_reply: Reply,
    target_reply: Reply,
    now: i64,
)
    requires
        cmd is ProjectUseActiveDefaults,
        (set_reply is Failed && set is None) || set_reply == (Reply::SetFound { set }),
        (target_reply is Failed && target is None) || target_reply == (Reply::DefaultTarget {
            target,
        }),
    ensures
        ({
            let first = stepped(cmd, home, PhaseView::First, set_reply, now);
            let second = stepped(cmd, home, first.phase, target_reply, now);
            let set_id = match set {
                Some(s) => unless_blank(opt_text(s.toolchain_set_id)),
                None => None,
            };
            let target_id = match target {
                Some(t) => unless_blank(opt_text(t.target_id)),
                None => None,
            };
            &&& first.turn.next is Call
            &&& first.turn.next->call is GetDefaultTarget
            &&& first.turn.next->call->GetDefaultTarget_addr
                == cmd->ProjectUseActiveDefaults_cfg.targets_addr@
            &&& if set_id is None && target_id is None {
                second.turn.next is Done
            } else {
                &&& second.turn.next is Call
                &&& second.turn.next->call is SetProjectConfig
                &&& second.turn.next->call->SetProjectConfig_addr
                    == cmd->ProjectUseActiveDefaults_cfg.project_addr@
                &&& second.turn.next->call->SetProjectConfig_project_id == trimmed(
                    cmd->ProjectUseActiveDefaults_project_id@,
                )
                &&& second.turn.next->call->SetProjectConfig_toolchain_set_id == set_id
                &&& second.turn.next->call->SetProjectConfig_default_target_id == target_id
            }
        }),
{
}

/// An export is of the job whose id was typed, and goes to the path that was typed, or to the usual
/// place without one.
pub proof fn law_export_keeps_job_and_path(
    cmd: UiCommand,
    home: Option<Seq<char>>,
    current: Option<Seq<char>>,
    now: i64,
)
    requires
        cmd is JobsExportLogs,
        !blank(cmd->JobsExportLogs_job_id@),
    ensures
        ({
            let phase = begun(cmd, home, current, now).phase;
            &&& phase is Export
            &&& phase->Export_export.job_id == trimmed(cmd->JobsExportLogs_job_id@)
            &&& phase->Export_export.path == if blank(cmd->JobsExportLogs_output_path@) {
                export_path_at(
                    home,
                    "ui-job-export"@,
                    trimmed(cmd->JobsExportLogs_job_id@),
                    now,
                )
            } else {
                cmd->JobsExportLogs_output_path@
            }
            &&& phase->Export_export.events.len() == 0
            &&& phase->Export_export.job is None
        }),
{
}

/// Behind the job the whole history of that job is read, page by page: each page is asked for by
/// the token of the page before, and its events are added behind those before. With the last page
/// everything is written to the path of the export: the job, all events, and the configuration.
pub proof fn law_export_reads_then_writes(
    cmd: UiCommand,
    home: Option<Seq<char>>,
    phase: PhaseView,
    reply: Reply,
    now: i64,
)
    requires
        cmd is JobsExportLogs,
    ensures
        ({
            let step = stepped(cmd, home, phase, reply, now);
            let next = step.turn.next;
            let cfg = cmd->JobsExportLogs_cfg;
            &&& phase is Export && (reply is JobFound || (reply is Failed
                && !reply->failure.connecting)) ==> {
                &&& next is Call
                &&& next->call is ListJobHistory
                &&& next->call->ListJobHistory_addr == cfg.job_addr@
                &&& next->call->ListJobHistory_job_id == phase->Export_export.job_id
                &&& next->call->ListJobHistory_page_token == ""@
                &&& !next->call->ListJobHistory_filtered
                &&& step.phase is ExportPages
                &&& step.phase->ExportPages_export.job_id == phase->Export_export.job_id
                &&& step.phase->ExportPages_export.path == phase->Export_export.path
                &&& step.phase->ExportPages_export.events == phase->Export_export.events
                &&& (step.phase->ExportPages_export.job is Some) == (reply is JobFound
                    && reply->job is Some)
            }
            &&& phase is ExportPages && reply is History ==> {
                let e = phase->ExportPages_export;
                let all = e.events + exports_of(reply->events@);
                let token = or_empty(opt_text(reply->History_next_page_token));
                if token.len() > 0 {
                    &&& next is Call
                    &&& next->call is ListJobHistory
                    &&& next->call->ListJobHistory_addr == cfg.job_addr@
                    &&& next->call->ListJobHistory_job_id == e.job_id
                    &&& next->call->ListJobHistory_page_token == token
                    &&& !next->call->ListJobHistory_filtered
                    &&& step.phase is ExportPages
                    &&& step.phase->ExportPages_export.job_id == e.job_id
                    &&& step.phase->ExportPages_export.path == e.path
                    &&& step.phase->ExportPages_export.job == e.job
                    &&& step.phase->ExportPages_export.events == all
                } else {
                    &&& next is Call
                    &&& next->call is WriteExport
                    &&& next->call->WriteExport_path == e.path
                    &&& next->call->WriteExport_export.job_id == e.job_id
                    &&& next->call->WriteExport_export.job == e.job
                    &&& next->call->WriteExport_export.events == all
                    &&& next->call->WriteExport_export.config == cfg
                    &&& next->call->WriteExport_export.exported_at_unix_millis == now
                    &&& step.phase == (PhaseView::ExportWritten { path: e.path })
                }
            }
        }),
{
}

proof fn lemma_verify_from(
    cfg: crate::config::AppConfig,
    job_id: Option<Seq<char>>,
    correlation_id: Seq<char>,
    ids: Seq<Option<Seq<char>>>,
    k: int,
    effects: Seq<EffectView>,
)
    requires
        0 <= k,
    ensures
        ({
            let v = verify_from(cfg, job_id, correlation_id, ids, k, effects);
            &&& v.turn.next is Call || v.turn.next is Done
            &&& v.turn.next is Call ==> {
                &&& k <= v.at < ids.len()
                &&& v.turn.next->call is VerifyToolchain
                &&& v.turn.next->call->VerifyToolchain_addr == cfg.toolchain_addr@
                &&& Some(v.turn.next->call->VerifyToolchain_toolchain_id) == ids[v.at]
                &&& v.turn.next->call->VerifyToolchain_job_id == unless_blank(job_id)
                &&& v.turn.next->call->VerifyToolchain_correlation_id == trimmed(correlation_id)
                &&& v.turn.next->call->VerifyToolchain_run_id == id_text(correlation_id)
                &&& forall|i: int| k <= i < v.at ==> #[trigger] ids[i] is None
            }
            &&& v.turn.next is Done ==> forall|i: int|
                k <= i < ids.len() ==> #[trigger] ids[i] is None
        }),
    decreases ids.len() - k,
{
    if k < ids.len() && ids[k] is None {
        lemma_verify_from(
            cfg,
            job_id,
            correlation_id,
            ids,
            k + 1,
            effects.push(log("toolchains"@, "Skipping toolchain with missing id.\n"@)),
        );
    }
}

/// The check asked for is that of the next toolchain with an id from place `k` on, under the ids of
/// the command; there is none only where none has an id any more.
pub open spec fn checks_next(
    cmd: UiCommand,
    ids: Seq<Option<Seq<char>>>,
    k: int,
    step: crate::worker::phase::StepView,
) -> bool {
    let next = step.turn.next;
    if next is Call {
        &&& step.phase is Verify
        &&& step.phase->ids == ids
        &&& k <= step.phase->at < ids.len()
        &&& next->call is VerifyToolchain
        &&& next->call->VerifyToolchain_addr == cmd->ToolchainVerifyInstalled_cfg.toolchain_addr@
        &&& Some(next->call->VerifyToolchain_toolchain_id) == ids[step.phase->at]
        &&& next->call->VerifyToolchain_job_id == unless_blank(
            opt_text(cmd->ToolchainVerifyInstalled_job_id),
        )
        &&& next->call->VerifyToolchain_correlation_id == trimmed(
            cmd->ToolchainVerifyInstalled_correlation_id@,
        )
        &&& next->call->VerifyToolchain_run_id == id_text(
            cmd->ToolchainVerifyInstalled_correlation_id@,
        )
        &&& forall|i: int| k <= i < step.phase->at ==> #[trigger] ids[i] is None
    } else {
        &&& next is Done
        &&& forall|i: int| k <= i < ids.len() ==> #[trigger] ids[i] is None
    }
}

/// Every installed toolchain with an id is checked, in order, each once, whatever came of the check
/// before it.
pub proof fn law_every_toolchain_is_checked(
    cmd: UiCommand,
    home: Option<Seq<char>>,
    phase: PhaseView,
    reply: Reply,
    now: i64,
)
    requires
        cmd is ToolchainVerifyInstalled,
    ensures
        phase is First && reply is Installed ==> checks_next(
            cmd,
            Seq::new(
                reply->Installed_items@.len(),
                |i: int| opt_text(reply->Installed_items@[i].toolchain_id),
            ),
            0,
            stepped(cmd, home, phase, reply, now),
        ),
        phase is Verify && 0 <= phase->at < phase->ids.len() && (reply is Verified || reply
            is Failed) ==> checks_next(
            cmd,
            phase->ids,
            phase->at + 1,
            stepped(cmd, home, phase, reply, now),
        ),
{
    let cfg = cmd->ToolchainVerifyInstalled_cfg;
    let job = opt_text(cmd->ToolchainVerifyInstalled_job_id);
    let corr = cmd->ToolchainVerifyInstalled_correlation_id@;
    if phase is First && reply is Installed {
        let ids = installed_ids(reply->Installed_items@);
        lemma_verify_from(cfg, job, corr, ids, 0, Seq::empty());
    }
    if phase is Verify && 0 <= phase->at < phase->ids.len() {
        let id = or_empty(phase->ids[phase->at]);
        match reply {
            Reply::Verified { verified, error, job_id } => {
                lemma_verify_from(
                    cfg,
                    job,
                    corr,
                    phase->ids,
                    phase->at + 1,
                    seq![log("toolchains"@, verdict_line(id, verified, error))] + job_stream(
                        cfg.job_addr@,
                        or_empty(opt_text(job_id)),
                        "toolchains"@,
                    ),
                );
            },
            Reply::Failed { failure } => {
                lemma_verify_from(
                    cfg,
                    job,
                    corr,
                    phase->ids,
                    phase->at + 1,
                    seq![
                        log(
                            "toolchains"@,
                            "- "@ + id + " verify request failed: "@ + failure.error@ + "\n"@,
                        ),
                    ],
                );
            },
            _ => {},
        }
    }
}

/// The toolchain at a place is of the kind, none of the kind was installed later, and none behind it
/// as late.
pub open spec fn latest_at(items: Seq<InstalledToolchain>, kind: ToolchainKind, i: int) -> bool {
    &&& 0 <= i < items.len()
    &&& of_kind(items[i], kind)
    &&& forall|j: int|
        0 <= j < items.len() && of_kind(#[trigger] items[j], kind) ==> {
            ||| or_zero(items[j].installed_at) < or_zero(items[i].installed_at)
            ||| or_zero(items[j].installed_at) == or_zero(items[i].installed_at) && j <= i
        }
}

/// The id is that of the latest toolchain of the kind.
pub open spec fn is_latest(
    items: Seq<InstalledToolchain>,
    kind: ToolchainKind,
    id: Option<Seq<char>>,
) -> bool {
    exists|i: int| #[trigger]
        latest_at(items, kind, i) && opt_text(items[i].toolchain_id) == id
}

/// There is a latest toolchain of the kind, and it has an id.
pub open spec fn has_latest(items: Seq<InstalledToolchain>, kind: ToolchainKind) -> bool {
    exists|i: int| #[trigger]
        latest_at(items, kind, i) && unless_blank(opt_text(items[i].toolchain_id)) is Some
}

/// A set of the latest holds the SDK that was installed last as its SDK and the NDK that was
/// installed last as its NDK, under the name that was typed where one was; there is none exactly
/// where one of the two is missing or has no id. Then that set, and no other, is made the active
/// one.
pub proof fn law_latest_are_made_active(
    cmd: UiCommand,
    home: Option<Seq<char>>,
    phase: PhaseView,
    reply: Reply,
    now: i64,
)
    requires
        cmd is ToolchainCreateActiveLatest,
    ensures
        ({
            let step = stepped(cmd, home, phase, reply, now);
            let next = step.turn.next;
            &&& phase is First && reply is Installed && next is Call ==> {
                &&& next->call is CreateToolchainSet
                &&& next->call->CreateToolchainSet_addr
                    == cmd->ToolchainCreateActiveLatest_cfg.toolchain_addr@
                &&& is_latest(
                    reply->Installed_items@,
                    ToolchainKind::Sdk,
                    next->call->CreateToolchainSet_sdk_toolchain_id,
                )
                &&& is_latest(
                    reply->Installed_items@,
                    ToolchainKind::Ndk,
                    next->call->CreateToolchainSet_ndk_toolchain_id,
                )
                &&& !blank(cmd->ToolchainCreateActiveLatest_display_name@)
                    ==> next->call->CreateToolchainSet_display_name == trimmed(
                    cmd->ToolchainCreateActiveLatest_display_name@,
                )
            }
            &&& phase is First && reply is Installed ==> (next is Call <==> {
                &&& has_latest(reply->Installed_items@, ToolchainKind::Sdk)
                &&& has_latest(reply->Installed_items@, ToolchainKind::Ndk)
            })
            &&& phase is LatestMade && reply is SetFound ==> match reply->SetFound_set {
                Some(set) => match unless_blank(opt_text(set.toolchain_set_id)) {
                    Some(id) => {
                        &&& next is Call
                        &&& next->call is SetActiveToolchainSet
                        &&& next->call->SetActiveToolchainSet_addr
                            == cmd->ToolchainCreateActiveLatest_cfg.toolchain_addr@
                        &&& next->call->SetActiveToolchainSet_toolchain_set_id == id
                        &&& step.phase == (PhaseView::LatestActive { set: id })
                    },
                    None => next is Done,
                },
                None => next is Done,
            }
        }),
{
    if phase is First && reply is Installed {
        let items = reply->Installed_items@;
        lemma_latest(items, ToolchainKind::Sdk);
        lemma_latest(items, ToolchainKind::Ndk);
    }
}

/// What counts as the latest is the latest, and nothing else is.
proof fn lemma_latest(items: Seq<InstalledToolchain>, kind: ToolchainKind)
    ensures
        forall|id: Option<Seq<char>>| #[trigger]
            is_latest(items, kind, id) <==> (latest_place(items, kind) matches Some(i)
                && opt_text(items[i].toolchain_id) == id),
        has_latest(items, kind) <==> (latest_place(items, kind) matches Some(i) && unless_blank(
            opt_text(items[i].toolchain_id),
        ) is Some),
        latest_place(items, kind) matches Some(i) ==> 0 <= i < items.len(),
{
    law_latest_place(items, kind);
    match latest_place(items, kind) {
        Some(i) => {
            assert(latest_at(items, kind, i));
            assert forall|k: int| #[trigger] latest_at(items, kind, k) implies k == i by {
                assert(of_kind(items[k], kind) && of_kind(items[i], kind));
            }
            assert forall|id: Option<Seq<char>>| #[trigger]
                is_latest(items, kind, id) <==> opt_text(items[i].toolchain_id) == id by {
                if is_latest(items, kind, id) {
                    let k = choose|k: int| #[trigger]
                        latest_at(items, kind, k) && opt_text(items[k].toolchain_id) == id;
                    assert(of_kind(items[k], kind) && of_kind(items[i], kind));
                    assert(k == i);
                }
            }
        },
        None => {},
    }
}

} // verus!
