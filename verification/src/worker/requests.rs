//! What each command asks for first: every part of the request is the part of the command that has
//! its name.

use crate::commands::UiCommand;
use crate::model::{id_text, kvs, JobState, ToolchainKind};
use crate::text::{blank, i64_spelled, list_tokens, opt_text, split_char, texts, trimmed};
use crate::util::{data_dir_path, last_name};
use crate::worker::call::ServiceName;
use crate::worker::command::begun;
use crate::worker::jobs::{at_least_one, unless_blank};
use crate::worker::parse::{kinds_named, line_pairs, states_named};
use crate::worker::toolchains::trimmed_id;
use crate::worker::turn::EffectView;
use vstd::prelude::*;

verus! {

/// A time was typed: a number of milliseconds, or nothing.
pub open spec fn is_time(typed: Seq<char>) -> bool {
    blank(typed) || i64_spelled(trimmed(typed)) is Some
}

/// The time that was typed, where one was.
pub open spec fn typed_time(typed: Seq<char>) -> Option<i64> {
    if blank(typed) {
        None
    } else {
        i64_spelled(trimmed(typed))
    }
}

/// A cancellation is asked for the job that is being watched; without one nothing is asked for.
pub proof fn law_cancel_request(
    cmd: UiCommand,
    home: Option<Seq<char>>,
    current: Option<Seq<char>>,
    now: i64,
)
    requires
        cmd is HomeCancelCurrent,
    ensures
        ({
            let next = begun(cmd, home, current, now).turn.next;
            match current {
                Some(id) => {
                    &&& next is Call
                    &&& next->call is CancelJob
                    &&& next->call->CancelJob_addr == cmd->HomeCancelCurrent_cfg.job_addr@
                    &&& next->call->CancelJob_job_id == id
                },
                None => next is Done,
            }
        }),
{
}

/// A job that is watched is the one whose id was typed: it becomes the current one, and its events
/// are followed. Without an id nothing is.
pub proof fn law_watch_follows_the_job(
    cmd: UiCommand,
    home: Option<Seq<char>>,
    current: Option<Seq<char>>,
    now: i64,
)
    requires
        cmd is HomeWatchJob,
    ensures
        ({
            let turn = begun(cmd, home, current, now).turn;
            let id = trimmed(cmd->HomeWatchJob_job_id@);
            &&& turn.next is Done
            &&& turn.effects.contains(
                EffectView::HomeStream { addr: cmd->HomeWatchJob_cfg.job_addr@, job_id: id },
            ) <==> !blank(cmd->HomeWatchJob_job_id@)
            &&& turn.effects.contains(EffectView::CurrentJob { current: Some(id) }) <==> !blank(
                cmd->HomeWatchJob_job_id@,
            )
            &&& forall|i: int|
                0 <= i < turn.effects.len() ==> match #[trigger] turn.effects[i] {
                    EffectView::HomeStream { addr, job_id } => addr
                        == cmd->HomeWatchJob_cfg.job_addr@ && job_id == id,
                    EffectView::CurrentJob { current } => current == Some(id),
                    EffectView::Ui { .. } => true,
                    _ => false,
                }
        }),
{
    let turn = begun(cmd, home, current, now).turn;
    if !blank(cmd->HomeWatchJob_job_id@) {
        assert(turn.effects[1] is CurrentJob);
        assert(turn.effects[4] is HomeStream);
    }
}

/// A run is followed by the run id and the correlation id that were typed, each as itself, from its
/// beginning exactly where that was asked for; without both nothing is followed.
pub proof fn law_follow_follows_the_run(
    cmd: UiCommand,
    home: Option<Seq<char>>,
    current: Option<Seq<char>>,
    now: i64,
)
    requires
        cmd is StreamRunEvents,
    ensures
        ({
            let turn = begun(cmd, home, current, now).turn;
            &&& turn.next is Done
            &&& if blank(cmd->StreamRunEvents_run_id@) && blank(
                cmd->StreamRunEvents_correlation_id@,
            ) {
                forall|i: int| 0 <= i < turn.effects.len() ==> #[trigger] turn.effects[i] is Ui
            } else {
                &&& turn.effects.len() == 2
                &&& turn.effects[0] is Ui
                &&& turn.effects[1] is RunStream
                &&& turn.effects[1]->RunStream_addr == cmd->StreamRunEvents_cfg.job_addr@
                &&& turn.effects[1]->RunStream_run_id == trimmed(cmd->StreamRunEvents_run_id@)
                &&& turn.effects[1]->RunStream_correlation_id == trimmed(
                    cmd->StreamRunEvents_correlation_id@,
                )
                &&& turn.effects[1]->RunStream_include_history
                    == cmd->StreamRunEvents_include_history
                &&& turn.effects[1]->RunStream_page == cmd->StreamRunEvents_page@
            }
        }),
{
}

/// A launch goes at once to the target, the application and the activity that were typed; without
/// an application its id is looked for by the APK that was given, and without a target nothing is
/// asked for.
pub proof fn law_launch_request(
    cmd: UiCommand,
    home: Option<Seq<char>>,
    current: Option<Seq<char>>,
    now: i64,
)
    requires
        cmd is TargetsLaunchApp,
    ensures
        ({
            let next = begun(cmd, home, current, now).turn.next;
            if blank(cmd->TargetsLaunchApp_target_id@) {
                next is Done
            } else if blank(cmd->TargetsLaunchApp_application_id@) {
                &&& next is Call
                &&& next->call is InferApplicationId
                &&& next->call->InferApplicationId_apk_path == trimmed(
                    cmd->TargetsLaunchApp_apk_path@,
                )
            } else {
                &&& next is Call
                &&& next->call is Launch
                &&& next->call->Launch_addr == cmd->TargetsLaunchApp_cfg.targets_addr@
                &&& next->call->Launch_target_id == trimmed(cmd->TargetsLaunchApp_target_id@)
                &&& next->call->Launch_application_id == trimmed(
                    cmd->TargetsLaunchApp_application_id@,
                )
                &&& next->call->Launch_activity == trimmed(cmd->TargetsLaunchApp_activity@)
                &&& next->call->Launch_job_id == unless_blank(
                    opt_text(cmd->TargetsLaunchApp_job_id),
                )
                &&& next->call->Launch_correlation_id == trimmed(
                    cmd->TargetsLaunchApp_correlation_id@,
                )
                &&& next->call->Launch_run_id == id_text(cmd->TargetsLaunchApp_correlation_id@)
            }
        }),
{
}

/// A reload begins with the job service, at its address.
pub proof fn law_reload_request(
    cmd: UiCommand,
    home: Option<Seq<char>>,
    current: Option<Seq<char>>,
    now: i64,
)
    requires
        cmd is StateReload,
    ensures
        ({
            let next = begun(cmd, home, current, now).turn.next;
            &&& next is Call
            &&& next->call is ReloadState
            &&& next->call->ReloadState_service == ServiceName::Job
            &&& next->call->ReloadState_addr == cmd->StateReload_cfg.job_addr@
        }),
{
}

/// A reset deletes the data directory's contents exactly where the directory has the expected name.
pub proof fn law_reset_request(
    cmd: UiCommand,
    home: Option<Seq<char>>,
    current: Option<Seq<char>>,
    now: i64,
)
    requires
        cmd is ResetAllState,
    ensures
        ({
            let next = begun(cmd, home, current, now).turn.next;
            if last_name(data_dir_path(home)) == Some("aadk"@) {
                &&& next is Call
                &&& next->call is ResetState
                &&& next->call->ResetState_dir == data_dir_path(home)
            } else {
                next is Done
            }
        }),
{
}

/// A job is started with the type, the parameters and the ids that were typed, each as itself, and
/// under the correlation id as run id; without a type none is.
pub proof fn law_start_job_request(
    cmd: UiCommand,
    home: Option<Seq<char>>,
    current: Option<Seq<char>>,
    now: i64,
)
    requires
        cmd is HomeStartJob,
    ensures
        ({
            let next = begun(cmd, home, current, now).turn.next;
            if !blank(cmd->HomeStartJob_job_type@) {
                &&& next is Call
                &&& next->call is StartJob
                &&& next->call->StartJob_addr == cmd->HomeStartJob_cfg.job_addr@
                &&& next->call->StartJob_job_type == trimmed(cmd->HomeStartJob_job_type@)
                &&& next->call->StartJob_params == line_pairs(split_char(cmd->HomeStartJob_params_raw@, '\n'))
                &&& next->call->StartJob_project_id == id_text(cmd->HomeStartJob_project_id@)
                &&& next->call->StartJob_target_id == id_text(cmd->HomeStartJob_target_id@)
                &&& next->call->StartJob_toolchain_set_id == id_text(cmd->HomeStartJob_toolchain_set_id@)
                &&& next->call->StartJob_correlation_id == trimmed(cmd->HomeStartJob_correlation_id@)
                &&& next->call->StartJob_run_id == id_text(cmd->HomeStartJob_correlation_id@)
            } else {
                next is Done
            }
        }),
{
}

/// Where each of the four times that were typed is a number or empty, jobs are listed within the
/// bounds that were typed, each the number in the field of its name; else nothing is asked for. The
/// other filters are those that were typed, too.
pub proof fn law_list_jobs_request(
    cmd: UiCommand,
    home: Option<Seq<char>>,
    current: Option<Seq<char>>,
    now: i64,
)
    requires
        cmd is JobsList,
    ensures
        ({
            let next = begun(cmd, home, current, now).turn.next;
            if is_time(cmd->JobsList_created_after@) && is_time(cmd->JobsList_created_before@) && is_time(
                cmd->JobsList_finished_after@,
            ) && is_time(cmd->JobsList_finished_before@) {
                &&& next is Call
                &&& next->call is ListJobs
                &&& next->call->ListJobs_addr == cmd->JobsList_cfg.job_addr@
                &&& next->call->ListJobs_page_size == at_least_one(cmd->JobsList_page_size)
                &&& next->call->ListJobs_page_token == cmd->JobsList_page_token@
                &&& next->call->ListJobs_job_types == list_tokens(cmd->JobsList_job_types@)
                &&& next->call->ListJobs_states == states_named(list_tokens(cmd->JobsList_states@))
                &&& next->call->ListJobs_created_after == typed_time(cmd->JobsList_created_after@)
                &&& next->call->ListJobs_created_before == typed_time(cmd->JobsList_created_before@)
                &&& next->call->ListJobs_finished_after == typed_time(cmd->JobsList_finished_after@)
                &&& next->call->ListJobs_finished_before == typed_time(cmd->JobsList_finished_before@)
                &&& next->call->ListJobs_correlation_id == trimmed(cmd->JobsList_correlation_id@)
                &&& next->call->ListJobs_run_id == id_text(cmd->JobsList_run_id@)
            } else {
                next is Done
            }
        }),
{
}

/// The history of the job whose id was typed is listed, filtered by what was typed, each time the
/// number in the field of its name; without an id, or with something else for a time, nothing is
/// asked for.
pub proof fn law_job_history_request(
    cmd: UiCommand,
    home: Option<Seq<char>>,
    current: Option<Seq<char>>,
    now: i64,
)
    requires
        cmd is JobsHistory,
    ensures
        ({
            let next = begun(cmd, home, current, now).turn.next;
            if !blank(cmd->JobsHistory_job_id@) && is_time(cmd->JobsHistory_after@) && is_time(cmd->JobsHistory_before@) {
                &&& next is Call
                &&& next->call is ListJobHistory
                &&& next->call->ListJobHistory_addr == cmd->JobsHistory_cfg.job_addr@
                &&& next->call->ListJobHistory_job_id == trimmed(cmd->JobsHistory_job_id@)
                &&& next->call->ListJobHistory_page_size == at_least_one(cmd->JobsHistory_page_size)
                &&& next->call->ListJobHistory_page_token == cmd->JobsHistory_page_token@
                &&& next->call->ListJobHistory_filtered == true
                &&& next->call->ListJobHistory_kinds == kinds_named(list_tokens(cmd->JobsHistory_kinds@))
                &&& next->call->ListJobHistory_after == typed_time(cmd->JobsHistory_after@)
                &&& next->call->ListJobHistory_before == typed_time(cmd->JobsHistory_before@)
            } else {
                next is Done
            }
        }),
{
}

/// An export begins with the job whose id was typed; without an id it does not.
pub proof fn law_export_request(
    cmd: UiCommand,
    home: Option<Seq<char>>,
    current: Option<Seq<char>>,
    now: i64,
)
    requires
        cmd is JobsExportLogs,
    ensures
        ({
            let next = begun(cmd, home, current, now).turn.next;
            if !blank(cmd->JobsExportLogs_job_id@) {
                &&& next is Call
                &&& next->call is GetJob
                &&& next->call->GetJob_addr == cmd->JobsExportLogs_cfg.job_addr@
                &&& next->call->GetJob_job_id == trimmed(cmd->JobsExportLogs_job_id@)
            } else {
                next is Done
            }
        }),
{
}

/// The providers are asked of the toolchain service.
pub proof fn law_list_providers_request(
    cmd: UiCommand,
    home: Option<Seq<char>>,
    current: Option<Seq<char>>,
    now: i64,
)
    requires
        cmd is ToolchainListProviders,
    ensures
        ({
            let next = begun(cmd, home, current, now).turn.next;
            &&& next is Call
            &&& next->call is ListProviders
            &&& next->call->ListProviders_addr == cmd->ToolchainListProviders_cfg.toolchain_addr@
        }),
{
}

/// What is available is asked of the provider that was named.
pub proof fn law_list_available_request(
    cmd: UiCommand,
    home: Option<Seq<char>>,
    current: Option<Seq<char>>,
    now: i64,
)
    requires
        cmd is ToolchainListAvailable,
    ensures
        ({
            let next = begun(cmd, home, current, now).turn.next;
            &&& next is Call
            &&& next->call is ListAvailable
            &&& next->call->ListAvailable_addr == cmd->ToolchainListAvailable_cfg.toolchain_addr@
            &&& next->call->ListAvailable_provider_id == cmd->ToolchainListAvailable_provider_id@
        }),
{
}

/// What is installed is the version that was typed, of the provider that was chosen, checked
/// exactly where that was asked for; without one of the two nothing is.
pub proof fn law_install_request(
    cmd: UiCommand,
    home: Option<Seq<char>>,
    current: Option<Seq<char>>,
    now: i64,
)
    requires
        cmd is ToolchainInstall,
    ensures
        ({
            let next = begun(cmd, home, current, now).turn.next;
            if !blank(cmd->ToolchainInstall_provider_id@) && !blank(cmd->ToolchainInstall_version@) {
                &&& next is Call
                &&& next->call is InstallToolchain
                &&& next->call->InstallToolchain_addr == cmd->ToolchainInstall_cfg.toolchain_addr@
                &&& next->call->InstallToolchain_provider_id == trimmed(cmd->ToolchainInstall_provider_id@)
                &&& next->call->InstallToolchain_version == trimmed(cmd->ToolchainInstall_version@)
                &&& next->call->InstallToolchain_install_root == ""@
                &&& next->call->InstallToolchain_verify_hash == cmd->ToolchainInstall_verify
                &&& next->call->InstallToolchain_job_id == unless_blank(opt_text(cmd->ToolchainInstall_job_id))
                &&& next->call->InstallToolchain_correlation_id == trimmed(cmd->ToolchainInstall_correlation_id@)
                &&& next->call->InstallToolchain_run_id == id_text(cmd->ToolchainInstall_correlation_id@)
            } else {
                next is Done
            }
        }),
{
}

/// What is updated is the toolchain that was typed, to the version that was typed; it is checked,
/// and its download removed, exactly where that was asked for.
pub proof fn law_update_request(
    cmd: UiCommand,
    home: Option<Seq<char>>,
    current: Option<Seq<char>>,
    now: i64,
)
    requires
        cmd is ToolchainUpdate,
    ensures
        ({
            let next = begun(cmd, home, current, now).turn.next;
            if !blank(cmd->ToolchainUpdate_toolchain_id@) && !blank(cmd->ToolchainUpdate_version@) {
                &&& next is Call
                &&& next->call is UpdateToolchain
                &&& next->call->UpdateToolchain_addr == cmd->ToolchainUpdate_cfg.toolchain_addr@
                &&& next->call->UpdateToolchain_toolchain_id == trimmed(cmd->ToolchainUpdate_toolchain_id@)
                &&& next->call->UpdateToolchain_version == trimmed(cmd->ToolchainUpdate_version@)
                &&& next->call->UpdateToolchain_verify_hash == cmd->ToolchainUpdate_verify
                &&& next->call->UpdateToolchain_remove_cached_artifact == cmd->ToolchainUpdate_remove_cached
                &&& next->call->UpdateToolchain_job_id == unless_blank(opt_text(cmd->ToolchainUpdate_job_id))
                &&& next->call->UpdateToolchain_correlation_id == trimmed(cmd->ToolchainUpdate_correlation_id@)
                &&& next->call->UpdateToolchain_run_id == id_text(cmd->ToolchainUpdate_correlation_id@)
            } else {
                next is Done
            }
        }),
{
}

/// What is removed is the toolchain that was typed, by force and with its download exactly where
/// that was asked for.
pub proof fn law_uninstall_request(
    cmd: UiCommand,
    home: Option<Seq<char>>,
    current: Option<Seq<char>>,
    now: i64,
)
    requires
        cmd is ToolchainUninstall,
    ensures
        ({
            let next = begun(cmd, home, current, now).turn.next;
            if !blank(cmd->ToolchainUninstall_toolchain_id@) {
                &&& next is Call
                &&& next->call is UninstallToolchain
                &&& next->call->UninstallToolchain_addr == cmd->ToolchainUninstall_cfg.toolchain_addr@
                &&& next->call->UninstallToolchain_toolchain_id == trimmed(cmd->ToolchainUninstall_toolchain_id@)
                &&& next->call->UninstallToolchain_remove_cached_artifact == cmd->ToolchainUninstall_remove_cached
                &&& next->call->UninstallToolchain_force == cmd->ToolchainUninstall_force
                &&& next->call->UninstallToolchain_job_id == unless_blank(opt_text(cmd->ToolchainUninstall_job_id))
                &&& next->call->UninstallToolchain_correlation_id == trimmed(cmd->ToolchainUninstall_correlation_id@)
                &&& next->call->UninstallToolchain_run_id == id_text(cmd->ToolchainUninstall_correlation_id@)
            } else {
                next is Done
            }
        }),
{
}

/// A cleanup is a dry run exactly where the command is one, and removes all exactly where the
/// command does: a dry run never deletes anything.
pub proof fn law_cleanup_request(
    cmd: UiCommand,
    home: Option<Seq<char>>,
    current: Option<Seq<char>>,
    now: i64,
)
    requires
        cmd is ToolchainCleanupCache,
    ensures
        ({
            let next = begun(cmd, home, current, now).turn.next;
            &&& next is Call
            &&& next->call is CleanupToolchainCache
            &&& next->call->CleanupToolchainCache_addr == cmd->ToolchainCleanupCache_cfg.toolchain_addr@
            &&& next->call->CleanupToolchainCache_dry_run == cmd->ToolchainCleanupCache_dry_run
            &&& next->call->CleanupToolchainCache_remove_all == cmd->ToolchainCleanupCache_remove_all
            &&& next->call->CleanupToolchainCache_job_id == unless_blank(opt_text(cmd->ToolchainCleanupCache_job_id))
            &&& next->call->CleanupToolchainCache_correlation_id == trimmed(cmd->ToolchainCleanupCache_correlation_id@)
            &&& next->call->CleanupToolchainCache_run_id == id_text(cmd->ToolchainCleanupCache_correlation_id@)
        }),
{
}

/// The installed toolchains of the kind that was chosen are asked for.
pub proof fn law_list_installed_request(
    cmd: UiCommand,
    home: Option<Seq<char>>,
    current: Option<Seq<char>>,
    now: i64,
)
    requires
        cmd is ToolchainListInstalled,
    ensures
        ({
            let next = begun(cmd, home, current, now).turn.next;
            &&& next is Call
            &&& next->call is ListInstalled
            &&& next->call->ListInstalled_addr == cmd->ToolchainListInstalled_cfg.toolchain_addr@
            &&& next->call->ListInstalled_kind == cmd->ToolchainListInstalled_kind
        }),
{
}

/// The toolchain sets are asked of the toolchain service.
pub proof fn law_list_sets_request(
    cmd: UiCommand,
    home: Option<Seq<char>>,
    current: Option<Seq<char>>,
    now: i64,
)
    requires
        cmd is ToolchainListSets,
    ensures
        ({
            let next = begun(cmd, home, current, now).turn.next;
            &&& next is Call
            &&& next->call is ListToolchainSets
            &&& next->call->ListToolchainSets_addr == cmd->ToolchainListSets_cfg.toolchain_addr@
        }),
{
}

/// All installed toolchains are asked for before they are checked.
pub proof fn law_verify_request(
    cmd: UiCommand,
    home: Option<Seq<char>>,
    current: Option<Seq<char>>,
    now: i64,
)
    requires
        cmd is ToolchainVerifyInstalled,
    ensures
        ({
            let next = begun(cmd, home, current, now).turn.next;
            &&& next is Call
            &&& next->call is ListInstalled
            &&& next->call->ListInstalled_addr == cmd->ToolchainVerifyInstalled_cfg.toolchain_addr@
            &&& next->call->ListInstalled_kind == ToolchainKind::Unspecified
        }),
{
}

/// A set is made of the SDK and the NDK that were typed, each in its place, under the name that was
/// typed; with neither none is.
pub proof fn law_create_set_request(
    cmd: UiCommand,
    home: Option<Seq<char>>,
    current: Option<Seq<char>>,
    now: i64,
)
    requires
        cmd is ToolchainCreateSet,
    ensures
        ({
            let next = begun(cmd, home, current, now).turn.next;
            if trimmed_id(opt_text(cmd->ToolchainCreateSet_sdk_toolchain_id)) is Some || trimmed_id(
                opt_text(cmd->ToolchainCreateSet_ndk_toolchain_id),
            ) is Some {
                &&& next is Call
                &&& next->call is CreateToolchainSet
                &&& next->call->CreateToolchainSet_addr == cmd->ToolchainCreateSet_cfg.toolchain_addr@
                &&& next->call->CreateToolchainSet_sdk_toolchain_id == trimmed_id(opt_text(cmd->ToolchainCreateSet_sdk_toolchain_id))
                &&& next->call->CreateToolchainSet_ndk_toolchain_id == trimmed_id(opt_text(cmd->ToolchainCreateSet_ndk_toolchain_id))
                &&& next->call->CreateToolchainSet_display_name == trimmed(cmd->ToolchainCreateSet_display_name@)
            } else {
                next is Done
            }
        }),
{
}

/// All installed toolchains are asked for before the latest are picked.
pub proof fn law_create_latest_request(
    cmd: UiCommand,
    home: Option<Seq<char>>,
    current: Option<Seq<char>>,
    now: i64,
)
    requires
        cmd is ToolchainCreateActiveLatest,
    ensures
        ({
            let next = begun(cmd, home, current, now).turn.next;
            &&& next is Call
            &&& next->call is ListInstalled
            &&& next->call->ListInstalled_addr == cmd->ToolchainCreateActiveLatest_cfg.toolchain_addr@
            &&& next->call->ListInstalled_kind == ToolchainKind::Unspecified
        }),
{
}

/// The set that was typed is made the active one; without an id none is.
pub proof fn law_set_active_request(
    cmd: UiCommand,
    home: Option<Seq<char>>,
    current: Option<Seq<char>>,
    now: i64,
)
    requires
        cmd is ToolchainSetActive,
    ensures
        ({
            let next = begun(cmd, home, current, now).turn.next;
            if !blank(cmd->ToolchainSetActive_toolchain_set_id@) {
                &&& next is Call
                &&& next->call is SetActiveToolchainSet
                &&& next->call->SetActiveToolchainSet_addr == cmd->ToolchainSetActive_cfg.toolchain_addr@
                &&& next->call->SetActiveToolchainSet_toolchain_set_id == trimmed(cmd->ToolchainSetActive_toolchain_set_id@)
            } else {
                next is Done
            }
        }),
{
}

/// The active set is asked of the toolchain service.
pub proof fn law_get_active_request(
    cmd: UiCommand,
    home: Option<Seq<char>>,
    current: Option<Seq<char>>,
    now: i64,
)
    requires
        cmd is ToolchainGetActive,
    ensures
        ({
            let next = begun(cmd, home, current, now).turn.next;
            &&& next is Call
            &&& next->call is GetActiveToolchainSet
            &&& next->call->GetActiveToolchainSet_addr == cmd->ToolchainGetActive_cfg.toolchain_addr@
        }),
{
}

/// The templates are asked of the project service.
pub proof fn law_list_templates_request(
    cmd: UiCommand,
    home: Option<Seq<char>>,
    current: Option<Seq<char>>,
    now: i64,
)
    requires
        cmd is ProjectListTemplates,
    ensures
        ({
            let next = begun(cmd, home, current, now).turn.next;
            &&& next is Call
            &&& next->call is ListTemplates
            &&& next->call->ListTemplates_addr == cmd->ProjectListTemplates_cfg.project_addr@
        }),
{
}

/// The recent projects are asked of the project service.
pub proof fn law_list_recent_request(
    cmd: UiCommand,
    home: Option<Seq<char>>,
    current: Option<Seq<char>>,
    now: i64,
)
    requires
        cmd is ProjectListRecent,
    ensures
        ({
            let next = begun(cmd, home, current, now).turn.next;
            &&& next is Call
            &&& next->call is ListRecentProjects
            &&& next->call->ListRecentProjects_addr == cmd->ProjectListRecent_cfg.project_addr@
        }),
{
}

/// The toolchain sets that can be chosen are asked of the toolchain service.
pub proof fn law_load_defaults_request(
    cmd: UiCommand,
    home: Option<Seq<char>>,
    current: Option<Seq<char>>,
    now: i64,
)
    requires
        cmd is ProjectLoadDefaults,
    ensures
        ({
            let next = begun(cmd, home, current, now).turn.next;
            &&& next is Call
            &&& next->call is ListToolchainSets
            &&& next->call->ListToolchainSets_addr == cmd->ProjectLoadDefaults_cfg.toolchain_addr@
        }),
{
}

/// A project is made under the name, at the path and from the template that were given, each as
/// itself; with one of them missing none is.
pub proof fn law_create_project_request(
    cmd: UiCommand,
    home: Option<Seq<char>>,
    current: Option<Seq<char>>,
    now: i64,
)
    requires
        cmd is ProjectCreate,
    ensures
        ({
            let next = begun(cmd, home, current, now).turn.next;
            if !blank(cmd->ProjectCreate_name@) && !blank(cmd->ProjectCreate_path@) && !blank(cmd->ProjectCreate_template_id@) && trimmed(
                cmd->ProjectCreate_template_id@,
            ) != "none"@ {
                &&& next is Call
                &&& next->call is CreateProject
                &&& next->call->CreateProject_addr == cmd->ProjectCreate_cfg.project_addr@
                &&& next->call->CreateProject_name == trimmed(cmd->ProjectCreate_name@)
                &&& next->call->CreateProject_path == trimmed(cmd->ProjectCreate_path@)
                &&& next->call->CreateProject_template_id == trimmed(cmd->ProjectCreate_template_id@)
                &&& next->call->CreateProject_job_id == unless_blank(opt_text(cmd->ProjectCreate_job_id))
                &&& next->call->CreateProject_correlation_id == trimmed(cmd->ProjectCreate_correlation_id@)
                &&& next->call->CreateProject_run_id == id_text(cmd->ProjectCreate_correlation_id@)
            } else {
                next is Done
            }
        }),
{
}

/// The project at the path that was given is opened; without a path none is.
pub proof fn law_open_project_request(
    cmd: UiCommand,
    home: Option<Seq<char>>,
    current: Option<Seq<char>>,
    now: i64,
)
    requires
        cmd is ProjectOpen,
    ensures
        ({
            let next = begun(cmd, home, current, now).turn.next;
            if !blank(cmd->ProjectOpen_path@) {
                &&& next is Call
                &&& next->call is OpenProject
                &&& next->call->OpenProject_addr == cmd->ProjectOpen_cfg.project_addr@
                &&& next->call->OpenProject_path == trimmed(cmd->ProjectOpen_path@)
            } else {
                next is Done
            }
        }),
{
}

/// The project that was named gets the toolchain set and the target that were given, each in its
/// place; without a project, or with neither, nothing is asked for.
pub proof fn law_set_config_request(
    cmd: UiCommand,
    home: Option<Seq<char>>,
    current: Option<Seq<char>>,
    now: i64,
)
    requires
        cmd is ProjectSetConfig,
    ensures
        ({
            let next = begun(cmd, home, current, now).turn.next;
            if !blank(cmd->ProjectSetConfig_project_id@) && (trimmed_id(opt_text(cmd->ProjectSetConfig_toolchain_set_id)) is Some
                || trimmed_id(opt_text(cmd->ProjectSetConfig_default_target_id)) is Some) {
                &&& next is Call
                &&& next->call is SetProjectConfig
                &&& next->call->SetProjectConfig_addr == cmd->ProjectSetConfig_cfg.project_addr@
                &&& next->call->SetProjectConfig_project_id == trimmed(cmd->ProjectSetConfig_project_id@)
                &&& next->call->SetProjectConfig_toolchain_set_id == trimmed_id(opt_text(cmd->ProjectSetConfig_toolchain_set_id))
                &&& next->call->SetProjectConfig_default_target_id == trimmed_id(opt_text(cmd->ProjectSetConfig_default_target_id))
            } else {
                next is Done
            }
        }),
{
}

/// The active set is asked for before a project that was named takes it over.
pub proof fn law_use_defaults_request(
    cmd: UiCommand,
    home: Option<Seq<char>>,
    current: Option<Seq<char>>,
    now: i64,
)
    requires
        cmd is ProjectUseActiveDefaults,
    ensures
        ({
            let next = begun(cmd, home, current, now).turn.next;
            if !blank(cmd->ProjectUseActiveDefaults_project_id@) {
                &&& next is Call
                &&& next->call is GetActiveToolchainSet
                &&& next->call->GetActiveToolchainSet_addr == cmd->ProjectUseActiveDefaults_cfg.toolchain_addr@
            } else {
                next is Done
            }
        }),
{
}

/// All targets are asked for, those that are offline included.
pub proof fn law_list_targets_request(
    cmd: UiCommand,
    home: Option<Seq<char>>,
    current: Option<Seq<char>>,
    now: i64,
)
    requires
        cmd is TargetsList,
    ensures
        ({
            let next = begun(cmd, home, current, now).turn.next;
            &&& next is Call
            &&& next->call is ListTargets
            &&& next->call->ListTargets_addr == cmd->TargetsList_cfg.targets_addr@
            &&& next->call->ListTargets_include_offline == true
        }),
{
}

/// The target that was typed becomes the default; without an id none does.
pub proof fn law_set_default_request(
    cmd: UiCommand,
    home: Option<Seq<char>>,
    current: Option<Seq<char>>,
    now: i64,
)
    requires
        cmd is TargetsSetDefault,
    ensures
        ({
            let next = begun(cmd, home, current, now).turn.next;
            if !blank(cmd->TargetsSetDefault_target_id@) {
                &&& next is Call
                &&& next->call is SetDefaultTarget
                &&& next->call->SetDefaultTarget_addr == cmd->TargetsSetDefault_cfg.targets_addr@
                &&& next->call->SetDefaultTarget_target_id == trimmed(cmd->TargetsSetDefault_target_id@)
            } else {
                next is Done
            }
        }),
{
}

/// The default target is asked of the target service.
pub proof fn law_get_default_request(
    cmd: UiCommand,
    home: Option<Seq<char>>,
    current: Option<Seq<char>>,
    now: i64,
)
    requires
        cmd is TargetsGetDefault,
    ensures
        ({
            let next = begun(cmd, home, current, now).turn.next;
            &&& next is Call
            &&& next->call is GetDefaultTarget
            &&& next->call->GetDefaultTarget_addr == cmd->TargetsGetDefault_cfg.targets_addr@
        }),
{
}

/// Cuttlefish is installed from the branch, target and build that were typed, each in its place, by
/// force exactly where that was asked for.
pub proof fn law_install_cuttlefish_request(
    cmd: UiCommand,
    home: Option<Seq<char>>,
    current: Option<Seq<char>>,
    now: i64,
)
    requires
        cmd is TargetsInstallCuttlefish,
    ensures
        ({
            let next = begun(cmd, home, current, now).turn.next;
            &&& next is Call
            &&& next->call is InstallCuttlefish
            &&& next->call->InstallCuttlefish_addr == cmd->TargetsInstallCuttlefish_cfg.targets_addr@
            &&& next->call->InstallCuttlefish_force == cmd->TargetsInstallCuttlefish_force
            &&& next->call->InstallCuttlefish_branch == trimmed(cmd->TargetsInstallCuttlefish_branch@)
            &&& next->call->InstallCuttlefish_target == trimmed(cmd->TargetsInstallCuttlefish_target@)
            &&& next->call->InstallCuttlefish_build_id == trimmed(cmd->TargetsInstallCuttlefish_build_id@)
            &&& next->call->InstallCuttlefish_job_id == unless_blank(opt_text(cmd->TargetsInstallCuttlefish_job_id))
            &&& next->call->InstallCuttlefish_correlation_id == trimmed(cmd->TargetsInstallCuttlefish_correlation_id@)
            &&& next->call->InstallCuttlefish_run_id == id_text(cmd->TargetsInstallCuttlefish_correlation_id@)
        }),
{
}

/// The build of the branch and the target that were typed is asked for.
pub proof fn law_resolve_build_request(
    cmd: UiCommand,
    home: Option<Seq<char>>,
    current: Option<Seq<char>>,
    now: i64,
)
    requires
        cmd is TargetsResolveCuttlefishBuild,
    ensures
        ({
            let next = begun(cmd, home, current, now).turn.next;
            &&& next is Call
            &&& next->call is ResolveCuttlefishBuild
            &&& next->call->ResolveCuttlefishBuild_addr == cmd->TargetsResolveCuttlefishBuild_cfg.targets_addr@
            &&& next->call->ResolveCuttlefishBuild_branch == trimmed(cmd->TargetsResolveCuttlefishBuild_branch@)
            &&& next->call->ResolveCuttlefishBuild_target == trimmed(cmd->TargetsResolveCuttlefishBuild_target@)
            &&& next->call->ResolveCuttlefishBuild_build_id == trimmed(cmd->TargetsResolveCuttlefishBuild_build_id@)
        }),
{
}

/// Cuttlefish is started with its full interface exactly where that was asked for.
pub proof fn law_start_cuttlefish_request(
    cmd: UiCommand,
    home: Option<Seq<char>>,
    current: Option<Seq<char>>,
    now: i64,
)
    requires
        cmd is TargetsStartCuttlefish,
    ensures
        ({
            let next = begun(cmd, home, current, now).turn.next;
            &&& next is Call
            &&& next->call is StartCuttlefish
            &&& next->call->StartCuttlefish_addr == cmd->TargetsStartCuttlefish_cfg.targets_addr@
            &&& next->call->StartCuttlefish_show_full_ui == cmd->TargetsStartCuttlefish_show_full_ui
            &&& next->call->StartCuttlefish_job_id == unless_blank(opt_text(cmd->TargetsStartCuttlefish_job_id))
            &&& next->call->StartCuttlefish_correlation_id == trimmed(cmd->TargetsStartCuttlefish_correlation_id@)
            &&& next->call->StartCuttlefish_run_id == id_text(cmd->TargetsStartCuttlefish_correlation_id@)
        }),
{
}

/// Cuttlefish is stopped.
pub proof fn law_stop_cuttlefish_request(
    cmd: UiCommand,
    home: Option<Seq<char>>,
    current: Option<Seq<char>>,
    now: i64,
)
    requires
        cmd is TargetsStopCuttlefish,
    ensures
        ({
            let next = begun(cmd, home, current, now).turn.next;
            &&& next is Call
            &&& next->call is StopCuttlefish
            &&& next->call->StopCuttlefish_addr == cmd->TargetsStopCuttlefish_cfg.targets_addr@
            &&& next->call->StopCuttlefish_job_id == unless_blank(opt_text(cmd->TargetsStopCuttlefish_job_id))
            &&& next->call->StopCuttlefish_correlation_id == trimmed(cmd->TargetsStopCuttlefish_correlation_id@)
            &&& next->call->StopCuttlefish_run_id == id_text(cmd->TargetsStopCuttlefish_correlation_id@)
        }),
{
}

/// How Cuttlefish is, is asked of the target service.
pub proof fn law_cuttlefish_status_request(
    cmd: UiCommand,
    home: Option<Seq<char>>,
    current: Option<Seq<char>>,
    now: i64,
)
    requires
        cmd is TargetsCuttlefishStatus,
    ensures
        ({
            let next = begun(cmd, home, current, now).turn.next;
            &&& next is Call
            &&& next->call is GetCuttlefishStatus
            &&& next->call->GetCuttlefishStatus_addr == cmd->TargetsCuttlefishStatus_cfg.targets_addr@
        }),
{
}

/// The APK that was given is installed on the target that was given; without one of the two nothing
/// is.
pub proof fn law_install_apk_request(
    cmd: UiCommand,
    home: Option<Seq<char>>,
    current: Option<Seq<char>>,
    now: i64,
)
    requires
        cmd is TargetsInstallApk,
    ensures
        ({
            let next = begun(cmd, home, current, now).turn.next;
            if !blank(cmd->TargetsInstallApk_target_id@) && !blank(cmd->TargetsInstallApk_apk_path@) {
                &&& next is Call
                &&& next->call is InstallApk
                &&& next->call->InstallApk_addr == cmd->TargetsInstallApk_cfg.targets_addr@
                &&& next->call->InstallApk_target_id == trimmed(cmd->TargetsInstallApk_target_id@)
                &&& next->call->InstallApk_apk_path == trimmed(cmd->TargetsInstallApk_apk_path@)
                &&& next->call->InstallApk_job_id == unless_blank(opt_text(cmd->TargetsInstallApk_job_id))
                &&& next->call->InstallApk_correlation_id == trimmed(cmd->TargetsInstallApk_correlation_id@)
                &&& next->call->InstallApk_run_id == id_text(cmd->TargetsInstallApk_correlation_id@)
            } else {
                next is Done
            }
        }),
{
}

/// The log of the target that was given is followed, filtered as was given, from its beginning.
pub proof fn law_logcat_request(
    cmd: UiCommand,
    home: Option<Seq<char>>,
    current: Option<Seq<char>>,
    now: i64,
)
    requires
        cmd is TargetsStreamLogcat,
    ensures
        ({
            let next = begun(cmd, home, current, now).turn.next;
            &&& next is Call
            &&& next->call is StreamLogcat
            &&& next->call->StreamLogcat_addr == cmd->TargetsStreamLogcat_cfg.targets_addr@
            &&& next->call->StreamLogcat_target_id == cmd->TargetsStreamLogcat_target_id@
            &&& next->call->StreamLogcat_filter == cmd->TargetsStreamLogcat_filter@
            &&& next->call->StreamLogcat_include_history == true
        }),
{
}

/// Runs are listed by the run id, the correlation id and the result that were typed, each as
/// itself; filtered exactly where one was.
pub proof fn law_list_runs_request(
    cmd: UiCommand,
    home: Option<Seq<char>>,
    current: Option<Seq<char>>,
    now: i64,
)
    requires
        cmd is ObserveListRuns,
    ensures
        ({
            let next = begun(cmd, home, current, now).turn.next;
            &&& next is Call
            &&& next->call is ListRuns
            &&& next->call->ListRuns_addr == cmd->ObserveListRuns_cfg.observe_addr@
            &&& next->call->ListRuns_page_size == at_least_one(cmd->ObserveListRuns_page_size)
            &&& next->call->ListRuns_page_token == cmd->ObserveListRuns_page_token@
            &&& next->call->ListRuns_filtered == (!blank(cmd->ObserveListRuns_run_id@) || !blank(
                cmd->ObserveListRuns_correlation_id@,
            ) || !blank(cmd->ObserveListRuns_result@))
            &&& next->call->ListRuns_run_id == id_text(cmd->ObserveListRuns_run_id@)
            &&& next->call->ListRuns_correlation_id == trimmed(cmd->ObserveListRuns_correlation_id@)
            &&& next->call->ListRuns_result == trimmed(cmd->ObserveListRuns_result@)
        }),
{
}

/// The outputs of the run that was named are listed, by the kind, type, path and label that were
/// given, each as itself; without a run nothing is asked for.
pub proof fn law_list_outputs_request(
    cmd: UiCommand,
    home: Option<Seq<char>>,
    current: Option<Seq<char>>,
    now: i64,
)
    requires
        cmd is ObserveListOutputs,
    ensures
        ({
            let next = begun(cmd, home, current, now).turn.next;
            if !blank(cmd->ObserveListOutputs_run_id@) {
                &&& next is Call
                &&& next->call is ListRunOutputs
                &&& next->call->ListRunOutputs_addr == cmd->ObserveListOutputs_cfg.observe_addr@
                &&& next->call->ListRunOutputs_run_id == trimmed(cmd->ObserveListOutputs_run_id@)
                &&& next->call->ListRunOutputs_page_size == at_least_one(cmd->ObserveListOutputs_page_size)
                &&& next->call->ListRunOutputs_page_token == cmd->ObserveListOutputs_page_token@
                &&& next->call->ListRunOutputs_kind == cmd->ObserveListOutputs_kind
                &&& next->call->ListRunOutputs_output_type == trimmed(cmd->ObserveListOutputs_output_type@)
                &&& next->call->ListRunOutputs_path_contains == trimmed(cmd->ObserveListOutputs_path_contains@)
                &&& next->call->ListRunOutputs_label_contains == trimmed(cmd->ObserveListOutputs_label_contains@)
            } else {
                next is Done
            }
        }),
{
}

/// A support bundle holds exactly what was ticked, and as many recent runs as were asked for.
pub proof fn law_support_bundle_request(
    cmd: UiCommand,
    home: Option<Seq<char>>,
    current: Option<Seq<char>>,
    now: i64,
)
    requires
        cmd is ObserveExportSupport,
    ensures
        ({
            let next = begun(cmd, home, current, now).turn.next;
            &&& next is Call
            &&& next->call is ExportSupportBundle
            &&& next->call->ExportSupportBundle_addr == cmd->ObserveExportSupport_cfg.observe_addr@
            &&& next->call->ExportSupportBundle_include_logs == cmd->ObserveExportSupport_include_logs
            &&& next->call->ExportSupportBundle_include_config == cmd->ObserveExportSupport_include_config
            &&& next->call->ExportSupportBundle_include_toolchain_provenance == cmd->ObserveExportSupport_include_toolchain_provenance
            &&& next->call->ExportSupportBundle_include_recent_runs == cmd->ObserveExportSupport_include_recent_runs
            &&& next->call->ExportSupportBundle_recent_runs_limit == cmd->ObserveExportSupport_recent_runs_limit
            &&& next->call->ExportSupportBundle_job_id == unless_blank(opt_text(cmd->ObserveExportSupport_job_id))
            &&& next->call->ExportSupportBundle_correlation_id == trimmed(cmd->ObserveExportSupport_correlation_id@)
            &&& next->call->ExportSupportBundle_run_id == id_text(cmd->ObserveExportSupport_correlation_id@)
        }),
{
}

/// An evidence bundle is of the run that was named; without one there is none.
pub proof fn law_evidence_bundle_request(
    cmd: UiCommand,
    home: Option<Seq<char>>,
    current: Option<Seq<char>>,
    now: i64,
)
    requires
        cmd is ObserveExportEvidence,
    ensures
        ({
            let next = begun(cmd, home, current, now).turn.next;
            if !blank(cmd->ObserveExportEvidence_run_id@) {
                &&& next is Call
                &&& next->call is ExportEvidenceBundle
                &&& next->call->ExportEvidenceBundle_addr == cmd->ObserveExportEvidence_cfg.observe_addr@
                &&& next->call->ExportEvidenceBundle_run_id == trimmed(cmd->ObserveExportEvidence_run_id@)
                &&& next->call->ExportEvidenceBundle_job_id == unless_blank(opt_text(cmd->ObserveExportEvidence_job_id))
                &&& next->call->ExportEvidenceBundle_correlation_id == trimmed(cmd->ObserveExportEvidence_correlation_id@)
            } else {
                next is Done
            }
        }),
{
}

/// A pipeline is asked for with everything that was given, each as itself: the variant that was
/// chosen, the steps that were ticked, and nothing in place of another.
pub proof fn law_run_pipeline_request(
    cmd: UiCommand,
    home: Option<Seq<char>>,
    current: Option<Seq<char>>,
    now: i64,
)
    requires
        cmd is WorkflowRunPipeline,
    ensures
        ({
            let next = begun(cmd, home, current, now).turn.next;
            &&& next is Call
            &&& next->call is RunPipeline
            &&& next->call->RunPipeline_addr == cmd->WorkflowRunPipeline_cfg.workflow_addr@
            &&& next->call->RunPipeline_run_id == id_text(cmd->WorkflowRunPipeline_run_id@)
            &&& next->call->RunPipeline_correlation_id == trimmed(cmd->WorkflowRunPipeline_correlation_id@)
            &&& next->call->RunPipeline_job_id == unless_blank(opt_text(cmd->WorkflowRunPipeline_job_id))
            &&& next->call->RunPipeline_project_id == id_text(cmd->WorkflowRunPipeline_project_id@)
            &&& next->call->RunPipeline_project_path == trimmed(cmd->WorkflowRunPipeline_project_path@)
            &&& next->call->RunPipeline_project_name == trimmed(cmd->WorkflowRunPipeline_project_name@)
            &&& next->call->RunPipeline_template_id == id_text(cmd->WorkflowRunPipeline_template_id@)
            &&& next->call->RunPipeline_toolchain_id == id_text(cmd->WorkflowRunPipeline_toolchain_id@)
            &&& next->call->RunPipeline_toolchain_set_id == id_text(cmd->WorkflowRunPipeline_toolchain_set_id@)
            &&& next->call->RunPipeline_target_id == id_text(cmd->WorkflowRunPipeline_target_id@)
            &&& next->call->RunPipeline_build_variant == cmd->WorkflowRunPipeline_build_variant
            &&& next->call->RunPipeline_module == cmd->WorkflowRunPipeline_module@
            &&& next->call->RunPipeline_variant_name == cmd->WorkflowRunPipeline_variant_name@
            &&& next->call->RunPipeline_tasks == texts(cmd->WorkflowRunPipeline_tasks@)
            &&& next->call->RunPipeline_apk_path == cmd->WorkflowRunPipeline_apk_path@
            &&& next->call->RunPipeline_application_id == cmd->WorkflowRunPipeline_application_id@
            &&& next->call->RunPipeline_activity == cmd->WorkflowRunPipeline_activity@
            &&& next->call->RunPipeline_options == cmd->WorkflowRunPipeline_options
        }),
{
}

/// What is built is the project that was given, in the variant, module and tasks that were given,
/// cleaned first exactly where that was asked for, with the arguments that were given; without a
/// project nothing is.
pub proof fn law_build_request(
    cmd: UiCommand,
    home: Option<Seq<char>>,
    current: Option<Seq<char>>,
    now: i64,
)
    requires
        cmd is BuildRun,
    ensures
        ({
            let next = begun(cmd, home, current, now).turn.next;
            if !blank(cmd->BuildRun_project_ref@) {
                &&& next is Call
                &&& next->call is Build
                &&& next->call->Build_addr == cmd->BuildRun_cfg.build_addr@
                &&& next->call->Build_project_id == trimmed(cmd->BuildRun_project_ref@)
                &&& next->call->Build_variant == cmd->BuildRun_variant
                &&& next->call->Build_clean_first == cmd->BuildRun_clean_first
                &&& next->call->Build_gradle_args == kvs(cmd->BuildRun_gradle_args@)
                &&& next->call->Build_module == cmd->BuildRun_module@
                &&& next->call->Build_variant_name == cmd->BuildRun_variant_name@
                &&& next->call->Build_tasks == texts(cmd->BuildRun_tasks@)
                &&& next->call->Build_job_id == unless_blank(opt_text(cmd->BuildRun_job_id))
                &&& next->call->Build_correlation_id == trimmed(cmd->BuildRun_correlation_id@)
                &&& next->call->Build_run_id == id_text(cmd->BuildRun_correlation_id@)
            } else {
                next is Done
            }
        }),
{
}

/// The artifacts of the project that was given are listed by each part of the filter, each as
/// itself; without a project nothing is asked for.
pub proof fn law_list_artifacts_request(
    cmd: UiCommand,
    home: Option<Seq<char>>,
    current: Option<Seq<char>>,
    now: i64,
)
    requires
        cmd is BuildListArtifacts,
    ensures
        ({
            let next = begun(cmd, home, current, now).turn.next;
            if !blank(cmd->BuildListArtifacts_project_ref@) {
                &&& next is Call
                &&& next->call is ListArtifacts
                &&& next->call->ListArtifacts_addr == cmd->BuildListArtifacts_cfg.build_addr@
                &&& next->call->ListArtifacts_project_id == trimmed(cmd->BuildListArtifacts_project_ref@)
                &&& next->call->ListArtifacts_variant == cmd->BuildListArtifacts_variant
                &&& next->call->ListArtifacts_modules == texts(cmd->BuildListArtifacts_filter.modules@)
                &&& next->call->ListArtifacts_variant_name == cmd->BuildListArtifacts_filter.variant@
                &&& next->call->ListArtifacts_types == cmd->BuildListArtifacts_filter.types@
                &&& next->call->ListArtifacts_name_contains == cmd->BuildListArtifacts_filter.name_contains@
                &&& next->call->ListArtifacts_path_contains == cmd->BuildListArtifacts_filter.path_contains@
            } else {
                next is Done
            }
        }),
{
}

/// Before the state is saved, exactly the jobs that are queued or running are asked for, of
/// whatever kind, time and run.
pub proof fn law_save_state_request(
    cmd: UiCommand,
    home: Option<Seq<char>>,
    current: Option<Seq<char>>,
    now: i64,
)
    requires
        cmd is StateSave,
    ensures
        ({
            let next = begun(cmd, home, current, now).turn.next;
            &&& next is Call
            &&& next->call is ListJobs
            &&& next->call->ListJobs_addr == cmd->StateSave_cfg.job_addr@
            &&& next->call->ListJobs_page_size == 50u32
            &&& next->call->ListJobs_page_token == Seq::<char>::empty()
            &&& next->call->ListJobs_job_types == Seq::<Seq<char>>::empty()
            &&& next->call->ListJobs_states == seq![JobState::Queued, JobState::Running]
            &&& next->call->ListJobs_created_after == None::<i64>
            &&& next->call->ListJobs_created_before == None::<i64>
            &&& next->call->ListJobs_finished_after == None::<i64>
            &&& next->call->ListJobs_finished_before == None::<i64>
            &&& next->call->ListJobs_correlation_id == Seq::<char>::empty()
            &&& next->call->ListJobs_run_id == None::<Seq<char>>
        }),
{
}

/// Before a state is restored, exactly the jobs that are queued or running are asked for; without a
/// path nothing is.
pub proof fn law_open_state_request(
    cmd: UiCommand,
    home: Option<Seq<char>>,
    current: Option<Seq<char>>,
    now: i64,
)
    requires
        cmd is StateOpen,
    ensures
        ({
            let next = begun(cmd, home, current, now).turn.next;
            if !blank(cmd->StateOpen_archive_path@) {
                &&& next is Call
                &&& next->call is ListJobs
                &&& next->call->ListJobs_addr == cmd->StateOpen_cfg.job_addr@
                &&& next->call->ListJobs_page_size == 50u32
                &&& next->call->ListJobs_page_token == Seq::<char>::empty()
                &&& next->call->ListJobs_job_types == Seq::<Seq<char>>::empty()
                &&& next->call->ListJobs_states == seq![JobState::Queued, JobState::Running]
                &&& next->call->ListJobs_created_after == None::<i64>
                &&& next->call->ListJobs_created_before == None::<i64>
                &&& next->call->ListJobs_finished_after == None::<i64>
                &&& next->call->ListJobs_finished_before == None::<i64>
                &&& next->call->ListJobs_correlation_id == Seq::<char>::empty()
                &&& next->call->ListJobs_run_id == None::<Seq<char>>
            } else {
                next is Done
            }
        }),
{
}

} // verus!
