//! The commands about toolchains: how they begin, and how they go on with each answer.

use crate::commands::UiCommand;
use crate::config::AppConfig;
use crate::text::{opt_text, trim, trimmed};
use crate::worker::jobs::{end_queued, queued, tell_failure, told_failure};
use crate::worker::phase::{at, lose, lost, over, over_turn, settle, Phase, PhaseView, StepView};
use crate::worker::reply::Reply;
use crate::worker::toolchains::{
    activated, active_found, available_listed, begin_cleanup_cache, begin_create_latest,
    begin_create_set, begin_get_active, begin_install, begin_list_available, begin_list_installed,
    begin_list_providers, begin_list_sets, begin_set_active, begin_uninstall, begin_update,
    begin_verify_installed, cleanup_cache, create_latest, create_set, end_activate, end_create_set,
    end_get_active, end_list_available, end_list_installed, end_list_providers, end_list_sets,
    get_active, id_texts, ids_of, install, installed_ids, installed_listed, latest_created,
    latest_listed, latest_on_list, latest_on_set, latest_pick, list_available, list_installed,
    list_providers, list_sets, made_set_id, picked_ids, providers_listed, set_active, set_created,
    sets_listed, uninstall, update, verify_answered, verify_installed, verify_listed,
    verify_on_answer, verify_on_list, verify_on_refusal, verify_refused, Verifying,
};
use crate::worker::turn::{complain, done, error, hand_on, log, Turn};
use vstd::prelude::*;
use vstd::string::*;

verus! {

/// How a command about toolchains begins.
pub open spec fn toolchains_begun(cmd: UiCommand) -> StepView {
    match cmd {
        UiCommand::ToolchainListProviders { cfg } => at(PhaseView::First, list_providers(cfg)),
        UiCommand::ToolchainListAvailable { cfg, provider_id } => at(
            PhaseView::First,
            list_available(cfg, provider_id@),
        ),
        UiCommand::ToolchainInstall {
            cfg,
            provider_id,
            version,
            verify,
            job_id,
            correlation_id,
        } => at(
            PhaseView::First,
            install(cfg, provider_id@, version@, verify, opt_text(job_id), correlation_id@),
        ),
        UiCommand::ToolchainUpdate {
            cfg,
            toolchain_id,
            version,
            verify,
            remove_cached,
            job_id,
            correlation_id,
        } => at(
            PhaseView::First,
            update(
                cfg,
                toolchain_id@,
                version@,
                verify,
                remove_cached,
                opt_text(job_id),
                correlation_id@,
            ),
        ),
        UiCommand::ToolchainUninstall {
            cfg,
            toolchain_id,
            remove_cached,
            force,
            job_id,
            correlation_id,
        } => at(
            PhaseView::First,
            uninstall(cfg, toolchain_id@, remove_cached, force, opt_text(job_id), correlation_id@),
        ),
        UiCommand::ToolchainCleanupCache { cfg, dry_run, remove_all, job_id, correlation_id } => at(
            PhaseView::First,
            cleanup_cache(cfg, dry_run, remove_all, opt_text(job_id), correlation_id@),
        ),
        UiCommand::ToolchainListInstalled { cfg, kind } => at(
            PhaseView::First,
            list_installed(cfg, kind),
        ),
        UiCommand::ToolchainListSets { cfg } => at(PhaseView::First, list_sets(cfg)),
        UiCommand::ToolchainVerifyInstalled { cfg, .. } => at(
            PhaseView::First,
            verify_installed(cfg),
        ),
        UiCommand::ToolchainCreateSet { cfg, sdk_toolchain_id, ndk_toolchain_id, display_name } => at(
            PhaseView::First,
            create_set(cfg, opt_text(sdk_toolchain_id), opt_text(ndk_toolchain_id), display_name@),
        ),
        UiCommand::ToolchainCreateActiveLatest { cfg, .. } => at(
            PhaseView::First,
            create_latest(cfg),
        ),
        UiCommand::ToolchainSetActive { cfg, toolchain_set_id } => at(
            PhaseView::First,
            set_active(cfg, toolchain_set_id@),
        ),
        UiCommand::ToolchainGetActive { cfg } => at(PhaseView::First, get_active(cfg)),
        _ => lost(),
    }
}

/// Begins a command about toolchains.
pub fn begin_toolchains(cmd: &UiCommand) -> (r: (Phase, Turn))
    ensures
        (StepView { phase: r.0@, turn: r.1@ }) == toolchains_begun(*cmd),
{
    match cmd {
        UiCommand::ToolchainListProviders { cfg } => settle(
            Phase::First,
            begin_list_providers(cfg),
        ),
        UiCommand::ToolchainListAvailable { cfg, provider_id } => settle(
            Phase::First,
            begin_list_available(cfg, provider_id.as_str()),
        ),
        UiCommand::ToolchainInstall {
            cfg,
            provider_id,
            version,
            verify,
            job_id,
            correlation_id,
        } => settle(
            Phase::First,
            begin_install(
                cfg,
                provider_id.as_str(),
                version.as_str(),
                *verify,
                job_id,
                correlation_id.as_str(),
            ),
        ),
        UiCommand::ToolchainUpdate {
            cfg,
            toolchain_id,
            version,
            verify,
            remove_cached,
            job_id,
            correlation_id,
        } => settle(
            Phase::First,
            begin_update(
                cfg,
                toolchain_id.as_str(),
                version.as_str(),
                *verify,
                *remove_cached,
                job_id,
                correlation_id.as_str(),
            ),
        ),
        UiCommand::ToolchainUninstall {
            cfg,
            toolchain_id,
            remove_cached,
            force,
            job_id,
            correlation_id,
        } => settle(
            Phase::First,
            begin_uninstall(
                cfg,
                toolchain_id.as_str(),
                *remove_cached,
                *force,
                job_id,
                correlation_id.as_str(),
            ),
        ),
        UiCommand::ToolchainCleanupCache { cfg, dry_run, remove_all, job_id, correlation_id } => settle(
            Phase::First,
            begin_cleanup_cache(cfg, *dry_run, *remove_all, job_id, correlation_id.as_str()),
        ),
        UiCommand::ToolchainListInstalled { cfg, kind } => settle(
            Phase::First,
            begin_list_installed(cfg, *kind),
        ),
        UiCommand::ToolchainListSets { cfg } => settle(Phase::First, begin_list_sets(cfg)),
        UiCommand::ToolchainVerifyInstalled { cfg, .. } => settle(
            Phase::First,
            begin_verify_installed(cfg),
        ),
        UiCommand::ToolchainCreateSet { cfg, sdk_toolchain_id, ndk_toolchain_id, display_name } => settle(
            Phase::First,
            begin_create_set(cfg, sdk_toolchain_id, ndk_toolchain_id, display_name.as_str()),
        ),
        UiCommand::ToolchainCreateActiveLatest { cfg, .. } => settle(
            Phase::First,
            begin_create_latest(cfg),
        ),
        UiCommand::ToolchainSetActive { cfg, toolchain_set_id } => settle(
            Phase::First,
            begin_set_active(cfg, toolchain_set_id.as_str()),
        ),
        UiCommand::ToolchainGetActive { cfg } => settle(Phase::First, begin_get_active(cfg)),
        _ => lose(),
    }
}

/// Where the checking of toolchains stands.
pub open spec fn verifying(ids: Seq<Option<Seq<char>>>, v: Verifying) -> StepView {
    at(PhaseView::Verify { ids, at: v.at }, v.turn)
}

/// How the checking of toolchains goes on.
pub open spec fn verify_step(
    cfg: AppConfig,
    job_id: Option<Seq<char>>,
    correlation_id: Seq<char>,
    phase: PhaseView,
    reply: Reply,
) -> StepView {
    match phase {
        PhaseView::First => match reply {
            Reply::Installed { items } => {
                let ids = installed_ids(items@);
                verifying(ids, verify_listed(cfg, job_id, correlation_id, ids))
            },
            Reply::Failed { failure } => over(
                told_failure(
                    "toolchains"@,
                    "ToolchainService"@,
                    "List installed toolchains failed: "@,
                    failure.connecting,
                    failure.error@,
                ),
            ),
            _ => lost(),
        },
        PhaseView::Verify { ids, at } => if 0 <= at < ids.len() {
            match reply {
                Reply::Verified { verified, error, job_id: check_job } => verifying(
                    ids,
                    verify_answered(
                        cfg,
                        job_id,
                        correlation_id,
                        ids,
                        at,
                        verified,
                        error,
                        opt_text(check_job),
                    ),
                ),
                Reply::Failed { failure } => verifying(
                    ids,
                    verify_refused(cfg, job_id, correlation_id, ids, at, failure.error@),
                ),
                _ => lost(),
            }
        } else {
            lost()
        },
        _ => lost(),
    }
}

fn verify_first(cfg: &AppConfig, job_id: &Option<String>, correlation_id: &str, reply: Reply) -> (r:
    (Phase, Turn))
    ensures
        (StepView { phase: r.0@, turn: r.1@ }) == verify_step(
            *cfg,
            opt_text(*job_id),
            correlation_id@,
            PhaseView::First,
            reply,
        ),
{
    match reply {
        Reply::Installed { items } => {
            let ids: Vec<Option<String>> = ids_of(&items);
            let (place, turn): (usize, Turn) = verify_on_list(cfg, job_id, correlation_id, &ids);
            settle(Phase::Verify { ids, at: place }, turn)
        },
        Reply::Failed { failure } => over_turn(
            tell_failure(
                "toolchains",
                "ToolchainService",
                "List installed toolchains failed: ",
                &failure,
            ),
        ),
        _ => lose(),
    }
}

fn step_verify(
    cfg: &AppConfig,
    job_id: &Option<String>,
    correlation_id: &str,
    phase: Phase,
    reply: Reply,
) -> (r: (Phase, Turn))
    ensures
        (StepView { phase: r.0@, turn: r.1@ }) == verify_step(
            *cfg,
            opt_text(*job_id),
            correlation_id@,
            phase@,
            reply,
        ),
{
    match phase {
        Phase::First => verify_first(cfg, job_id, correlation_id, reply),
        Phase::Verify { ids, at } => {
            assert(id_texts(ids@).len() == ids@.len());
            if at >= ids.len() {
                return lose();
            }
            match reply {
                Reply::Verified { verified, error, job_id: check_job } => {
                    let (place, turn): (usize, Turn) = verify_on_answer(
                        cfg,
                        job_id,
                        correlation_id,
                        &ids,
                        at,
                        verified,
                        &error,
                        &check_job,
                    );
                    settle(Phase::Verify { ids, at: place }, turn)
                },
                Reply::Failed { failure } => {
                    let (place, turn): (usize, Turn) = verify_on_refusal(
                        cfg,
                        job_id,
                        correlation_id,
                        &ids,
                        at,
                        failure.error.as_str(),
                    );
                    settle(Phase::Verify { ids, at: place }, turn)
                },
                _ => lose(),
            }
        },
        _ => lose(),
    }
}

/// How a set of the latest toolchains comes about.
pub open spec fn latest_step(
    cfg: AppConfig,
    display_name: Seq<char>,
    phase: PhaseView,
    reply: Reply,
) -> StepView {
    match phase {
        PhaseView::First => match reply {
            Reply::Installed { items } => {
                let (sdk_id, ndk_id) = picked_ids(latest_pick(items@, display_name));
                at(
                    PhaseView::LatestMade { sdk_id, ndk_id },
                    latest_listed(cfg, items@, display_name),
                )
            },
            Reply::Failed { failure } => over(
                told_failure(
                    "toolchains"@,
                    "ToolchainService"@,
                    "List installed toolchains failed: "@,
                    failure.connecting,
                    failure.error@,
                ),
            ),
            _ => lost(),
        },
        PhaseView::LatestMade { sdk_id, ndk_id } => match reply {
            Reply::SetFound { set } => at(
                PhaseView::LatestActive { set: made_set_id(set) },
                latest_created(cfg, set, sdk_id, ndk_id),
            ),
            Reply::Failed { failure } => over(
                done(
                    seq![
                        log(
                            "toolchains"@,
                            "Create toolchain set failed: "@ + failure.error@ + "\n"@,
                        ),
                    ],
                ),
            ),
            _ => lost(),
        },
        PhaseView::LatestActive { set } => match reply {
            Reply::Applied { ok } => over(
                activated("Active toolchain set updated to "@, set, ok),
            ),
            Reply::Failed { failure } => over(
                done(
                    seq![
                        log(
                            "toolchains"@,
                            "Set active toolchain set failed: "@ + failure.error@ + "\n"@,
                        ),
                    ],
                ),
            ),
            _ => lost(),
        },
        _ => lost(),
    }
}

fn step_latest(cfg: &AppConfig, display_name: &str, phase: Phase, reply: Reply) -> (r: (
    Phase,
    Turn,
))
    ensures
        (StepView { phase: r.0@, turn: r.1@ }) == latest_step(
            *cfg,
            display_name@,
            phase@,
            reply,
        ),
{
    match phase {
        Phase::First => match reply {
            Reply::Installed { items } => {
                let ((sdk_id, ndk_id), turn): ((String, String), Turn) = latest_on_list(
                    cfg,
                    &items,
                    display_name,
                );
                settle(Phase::LatestMade { sdk_id, ndk_id }, turn)
            },
            Reply::Failed { failure } => over_turn(
                tell_failure(
                    "toolchains",
                    "ToolchainService",
                    "List installed toolchains failed: ",
                    &failure,
                ),
            ),
            _ => lose(),
        },
        Phase::LatestMade { sdk_id, ndk_id } => match reply {
            Reply::SetFound { set } => {
                let (set_id, turn): (String, Turn) = latest_on_set(
                    cfg,
                    &set,
                    sdk_id.as_str(),
                    ndk_id.as_str(),
                );
                settle(Phase::LatestActive { set_id }, turn)
            },
            Reply::Failed { failure } => over_turn(
                complain(
                    "toolchains",
                    "Create toolchain set failed: ",
                    failure.error.as_str(),
                ),
            ),
            _ => lose(),
        },
        Phase::LatestActive { set_id } => match reply {
            Reply::Applied { ok } => over_turn(
                end_activate("Active toolchain set updated to ", set_id.as_str(), ok),
            ),
            Reply::Failed { failure } => over_turn(
                complain(
                    "toolchains",
                    "Set active toolchain set failed: ",
                    failure.error.as_str(),
                ),
            ),
            _ => lose(),
        },
        _ => lose(),
    }
}

/// How a command about toolchains goes on with an answer.
pub open spec fn toolchains_step(cmd: UiCommand, phase: PhaseView, reply: Reply) -> StepView {
    match cmd {
        UiCommand::ToolchainListProviders { .. } => match reply {
            Reply::Providers { providers } => over(providers_listed(providers@)),
            Reply::Failed { failure } => over(error(failure.error@)),
            _ => lost(),
        },
        UiCommand::ToolchainListAvailable { provider_id, .. } => match reply {
            Reply::Available { items } => over(available_listed(provider_id@, items@)),
            Reply::Failed { failure } => over(error(failure.error@)),
            _ => lost(),
        },
        UiCommand::ToolchainInstall { cfg, .. } => match reply {
            Reply::Queued { job_id: queued_id } => over(
                queued(cfg, "toolchains"@, "Install job queued: "@, opt_text(queued_id)),
            ),
            Reply::Failed { failure } => over(
                told_failure(
                    "toolchains"@,
                    "ToolchainService"@,
                    "Install toolchain failed: "@,
                    failure.connecting,
                    failure.error@,
                ),
            ),
            _ => lost(),
        },
        UiCommand::ToolchainUpdate { cfg, .. } => match reply {
            Reply::Queued { job_id: queued_id } => over(
                queued(cfg, "toolchains"@, "Update job queued: "@, opt_text(queued_id)),
            ),
            Reply::Failed { failure } => over(error(failure.error@)),
            _ => lost(),
        },
        UiCommand::ToolchainUninstall { cfg, .. } => match reply {
            Reply::Queued { job_id: queued_id } => over(
                queued(cfg, "toolchains"@, "Uninstall job queued: "@, opt_text(queued_id)),
            ),
            Reply::Failed { failure } => over(error(failure.error@)),
            _ => lost(),
        },
        UiCommand::ToolchainCleanupCache { cfg, .. } => match reply {
            Reply::Queued { job_id: queued_id } => over(
                queued(cfg, "toolchains"@, "Cleanup job queued: "@, opt_text(queued_id)),
            ),
            Reply::Failed { failure } => over(error(failure.error@)),
            _ => lost(),
        },
        UiCommand::ToolchainListInstalled { .. } => match reply {
            Reply::Installed { items } => over(installed_listed(items@)),
            Reply::Failed { failure } => over(error(failure.error@)),
            _ => lost(),
        },
        UiCommand::ToolchainListSets { .. } => match reply {
            Reply::Sets { sets, next_page_token } => over(
                sets_listed(sets@, opt_text(next_page_token)),
            ),
            Reply::Failed { failure } => over(error(failure.error@)),
            _ => lost(),
        },
        UiCommand::ToolchainCreateSet { .. } => match reply {
            Reply::SetFound { set } => over(set_created(set)),
            Reply::Failed { failure } => over(error(failure.error@)),
            _ => lost(),
        },
        UiCommand::ToolchainSetActive { toolchain_set_id, .. } => match reply {
            Reply::Applied { ok } => over(
                activated("Active toolchain set set to "@, trimmed(toolchain_set_id@), ok),
            ),
            Reply::Failed { failure } => over(error(failure.error@)),
            _ => lost(),
        },
        UiCommand::ToolchainGetActive { .. } => match reply {
            Reply::SetFound { set } => over(active_found(set)),
            Reply::Failed { failure } => over(error(failure.error@)),
            _ => lost(),
        },
        UiCommand::ToolchainVerifyInstalled { cfg, job_id, correlation_id } => verify_step(
            cfg,
            opt_text(job_id),
            correlation_id@,
            phase,
            reply,
        ),
        UiCommand::ToolchainCreateActiveLatest { cfg, display_name } => latest_step(
            cfg,
            display_name@,
            phase,
            reply,
        ),
        _ => lost(),
    }
}

/// Takes an answer to a command about toolchains and goes on.
pub fn step_toolchains(cmd: &UiCommand, phase: Phase, reply: Reply) -> (r: (Phase, Turn))
    ensures
        (StepView { phase: r.0@, turn: r.1@ }) == toolchains_step(*cmd, phase@, reply),
{
    match cmd {
        UiCommand::ToolchainListProviders { .. } => match reply {
            Reply::Providers { providers } => over_turn(end_list_providers(&providers)),
            Reply::Failed { failure } => over_turn(hand_on(failure.error)),
            _ => lose(),
        },
        UiCommand::ToolchainListAvailable { provider_id, .. } => match reply {
            Reply::Available { items } => over_turn(
                end_list_available(provider_id.as_str(), &items),
            ),
            Reply::Failed { failure } => over_turn(hand_on(failure.error)),
            _ => lose(),
        },
        UiCommand::ToolchainInstall { cfg, .. } => match reply {
            Reply::Queued { job_id: queued_id } => over_turn(
                end_queued(cfg, "toolchains", "Install job queued: ", &queued_id),
            ),
            Reply::Failed { failure } => over_turn(
                tell_failure(
                    "toolchains",
                    "ToolchainService",
                    "Install toolchain failed: ",
                    &failure,
                ),
            ),
            _ => lose(),
        },
        UiCommand::ToolchainUpdate { cfg, .. } => match reply {
            Reply::Queued { job_id: queued_id } => over_turn(
                end_queued(cfg, "toolchains", "Update job queued: ", &queued_id),
            ),
            Reply::Failed { failure } => over_turn(hand_on(failure.error)),
            _ => lose(),
        },
        UiCommand::ToolchainUninstall { cfg, .. } => match reply {
            Reply::Queued { job_id: queued_id } => over_turn(
                end_queued(cfg, "toolchains", "Uninstall job queued: ", &queued_id),
            ),
            Reply::Failed { failure } => over_turn(hand_on(failure.error)),
            _ => lose(),
        },
        UiCommand::ToolchainCleanupCache { cfg, .. } => match reply {
            Reply::Queued { job_id: queued_id } => over_turn(
                end_queued(cfg, "toolchains", "Cleanup job queued: ", &queued_id),
            ),
            Reply::Failed { failure } => over_turn(hand_on(failure.error)),
            _ => lose(),
        },
        UiCommand::ToolchainListInstalled { .. } => match reply {
            Reply::Installed { items } => over_turn(end_list_installed(&items)),
            Reply::Failed { failure } => over_turn(hand_on(failure.error)),
            _ => lose(),
        },
        UiCommand::ToolchainListSets { .. } => match reply {
            Reply::Sets { sets, next_page_token } => over_turn(
                end_list_sets(&sets, &next_page_token),
            ),
            Reply::Failed { failure } => over_turn(hand_on(failure.error)),
            _ => lose(),
        },
        UiCommand::ToolchainCreateSet { .. } => match reply {
            Reply::SetFound { set } => over_turn(end_create_set(&set)),
            Reply::Failed { failure } => over_turn(hand_on(failure.error)),
            _ => lose(),
        },
        UiCommand::ToolchainSetActive { toolchain_set_id, .. } => match reply {
            Reply::Applied { ok } => over_turn(
                end_activate("Active toolchain set set to ", trim(toolchain_set_id.as_str()), ok),
            ),
            Reply::Failed { failure } => over_turn(hand_on(failure.error)),
            _ => lose(),
        },
        UiCommand::ToolchainGetActive { .. } => match reply {
            Reply::SetFound { set } => over_turn(end_get_active(&set)),
            Reply::Failed { failure } => over_turn(hand_on(failure.error)),
            _ => lose(),
        },
        UiCommand::ToolchainVerifyInstalled { cfg, job_id, correlation_id } => step_verify(
            cfg,
            job_id,
            correlation_id.as_str(),
            phase,
            reply,
        ),
        UiCommand::ToolchainCreateActiveLatest { cfg, display_name } => step_latest(
            cfg,
            display_name.as_str(),
            phase,
            reply,
        ),
        _ => lose(),
    }
}

} // verus!
