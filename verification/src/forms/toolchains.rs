//! The toolchains page.

use crate::commands::UiCommand;
use crate::config::AppConfig;
use crate::forms::shared::{choose_job, filled, if_filled, job_choice, remember, remembered};
use crate::model::ToolchainKind;
use crate::routing::{PROVIDER_NDK_ID, PROVIDER_SDK_ID};
use crate::ui_state::ToolchainsState;
use vstd::prelude::*;
use vstd::string::*;

verus! {

/// The provider of SDK or NDK toolchains.
pub open spec fn provider_of(sdk: bool) -> Seq<char> {
    if sdk {
        PROVIDER_SDK_ID@
    } else {
        PROVIDER_NDK_ID@
    }
}

fn provider(sdk: bool) -> (r: String)
    ensures
        r@ == provider_of(sdk),
{
    if sdk {
        PROVIDER_SDK_ID.to_owned()
    } else {
        PROVIDER_NDK_ID.to_owned()
    }
}

/// The buttons that list the toolchains of a provider.
pub fn list_available(cfg: &AppConfig, sdk: bool) -> (r: UiCommand)
    ensures
        r matches UiCommand::ToolchainListAvailable { cfg: c, provider_id } && {
            &&& c == *cfg
            &&& provider_id@ == provider_of(sdk)
        },
{
    UiCommand::ToolchainListAvailable { cfg: cfg.clone(), provider_id: provider(sdk) }
}

/// The button that lists what is installed, of every kind.
pub fn list_installed(cfg: &AppConfig) -> (r: UiCommand)
    ensures
        r == (UiCommand::ToolchainListInstalled {
            cfg: *cfg,
            kind: ToolchainKind::Unspecified,
        }),
{
    UiCommand::ToolchainListInstalled { cfg: cfg.clone(), kind: ToolchainKind::Unspecified }
}

/// The version that is chosen for SDK or NDK toolchains.
pub open spec fn version_of(form: ToolchainsState, sdk: bool) -> String {
    if sdk {
        form.sdk_version
    } else {
        form.ndk_version
    }
}

/// The buttons that install a toolchain; it is always verified.
pub fn install(cfg: &mut AppConfig, form: &ToolchainsState, sdk: bool) -> (r: UiCommand)
    ensures
        *final(cfg) == remembered(*old(cfg), form.job_id, form.correlation_id),
        r matches UiCommand::ToolchainInstall {
            cfg: c,
            provider_id,
            version,
            verify,
            job_id,
            correlation_id,
        } && {
            &&& c == *final(cfg)
            &&& provider_id@ == provider_of(sdk)
            &&& version == version_of(*form, sdk)
            &&& verify
            &&& job_id == job_choice(form.use_job_id, form.job_id)
            &&& correlation_id == form.correlation_id
        },
{
    remember(cfg, &form.job_id, &form.correlation_id);
    let version: String = if sdk {
        form.sdk_version.clone()
    } else {
        form.ndk_version.clone()
    };
    UiCommand::ToolchainInstall {
        cfg: cfg.clone(),
        provider_id: provider(sdk),
        version,
        verify: true,
        job_id: choose_job(form.use_job_id, &form.job_id),
        correlation_id: form.correlation_id.clone(),
    }
}

/// The button that verifies what is installed.
pub fn verify_installed(cfg: &mut AppConfig, form: &ToolchainsState) -> (r: UiCommand)
    ensures
        *final(cfg) == remembered(*old(cfg), form.job_id, form.correlation_id),
        r == (UiCommand::ToolchainVerifyInstalled {
            cfg: *final(cfg),
            job_id: job_choice(form.use_job_id, form.job_id),
            correlation_id: form.correlation_id,
        }),
{
    remember(cfg, &form.job_id, &form.correlation_id);
    UiCommand::ToolchainVerifyInstalled {
        cfg: cfg.clone(),
        job_id: choose_job(form.use_job_id, &form.job_id),
        correlation_id: form.correlation_id.clone(),
    }
}

/// The button that updates a toolchain.
pub fn update(cfg: &mut AppConfig, form: &ToolchainsState) -> (r: UiCommand)
    ensures
        *final(cfg) == remembered(*old(cfg), form.job_id, form.correlation_id),
        r == (UiCommand::ToolchainUpdate {
            cfg: *final(cfg),
            toolchain_id: form.toolchain_id,
            version: form.update_version,
            verify: form.verify_update,
            remove_cached: form.remove_cached,
            job_id: job_choice(form.use_job_id, form.job_id),
            correlation_id: form.correlation_id,
        }),
{
    remember(cfg, &form.job_id, &form.correlation_id);
    UiCommand::ToolchainUpdate {
        cfg: cfg.clone(),
        toolchain_id: form.toolchain_id.clone(),
        version: form.update_version.clone(),
        verify: form.verify_update,
        remove_cached: form.remove_cached,
        job_id: choose_job(form.use_job_id, &form.job_id),
        correlation_id: form.correlation_id.clone(),
    }
}

/// The button that uninstalls a toolchain.
pub fn uninstall(cfg: &mut AppConfig, form: &ToolchainsState) -> (r: UiCommand)
    ensures
        *final(cfg) == remembered(*old(cfg), form.job_id, form.correlation_id),
        r == (UiCommand::ToolchainUninstall {
            cfg: *final(cfg),
            toolchain_id: form.toolchain_id,
            remove_cached: form.remove_cached,
            force: form.force_uninstall,
            job_id: job_choice(form.use_job_id, form.job_id),
            correlation_id: form.correlation_id,
        }),
{
    remember(cfg, &form.job_id, &form.correlation_id);
    UiCommand::ToolchainUninstall {
        cfg: cfg.clone(),
        toolchain_id: form.toolchain_id.clone(),
        remove_cached: form.remove_cached,
        force: form.force_uninstall,
        job_id: choose_job(form.use_job_id, &form.job_id),
        correlation_id: form.correlation_id.clone(),
    }
}

/// The button that empties the cache.
pub fn cleanup_cache(cfg: &mut AppConfig, form: &ToolchainsState) -> (r: UiCommand)
    ensures
        *final(cfg) == remembered(*old(cfg), form.job_id, form.correlation_id),
        r == (UiCommand::ToolchainCleanupCache {
            cfg: *final(cfg),
            dry_run: form.dry_run,
            remove_all: form.remove_all,
            job_id: job_choice(form.use_job_id, form.job_id),
            correlation_id: form.correlation_id,
        }),
{
    remember(cfg, &form.job_id, &form.correlation_id);
    UiCommand::ToolchainCleanupCache {
        cfg: cfg.clone(),
        dry_run: form.dry_run,
        remove_all: form.remove_all,
        job_id: choose_job(form.use_job_id, &form.job_id),
        correlation_id: form.correlation_id.clone(),
    }
}

/// The button that makes a set of toolchains.
pub fn create_set(cfg: &AppConfig, form: &ToolchainsState) -> (r: UiCommand)
    ensures
        r matches UiCommand::ToolchainCreateSet {
            cfg: c,
            sdk_toolchain_id,
            ndk_toolchain_id,
            display_name,
        } && {
            &&& c == *cfg
            &&& sdk_toolchain_id == filled(form.sdk_set_id)
            &&& ndk_toolchain_id == filled(form.ndk_set_id)
            &&& display_name == form.display_name
        },
{
    UiCommand::ToolchainCreateSet {
        cfg: cfg.clone(),
        sdk_toolchain_id: if_filled(&form.sdk_set_id),
        ndk_toolchain_id: if_filled(&form.ndk_set_id),
        display_name: form.display_name.clone(),
    }
}

/// The button that makes a set of the latest toolchains.
pub fn create_latest(cfg: &AppConfig, form: &ToolchainsState) -> (r: UiCommand)
    ensures
        r == (UiCommand::ToolchainCreateActiveLatest {
            cfg: *cfg,
            display_name: form.display_name,
        }),
{
    UiCommand::ToolchainCreateActiveLatest {
        cfg: cfg.clone(),
        display_name: form.display_name.clone(),
    }
}

/// The button that makes a set the active one.
pub fn set_active(cfg: &AppConfig, form: &ToolchainsState) -> (r: UiCommand)
    ensures
        r == (UiCommand::ToolchainSetActive {
            cfg: *cfg,
            toolchain_set_id: form.active_set_id,
        }),
{
    UiCommand::ToolchainSetActive {
        cfg: cfg.clone(),
        toolchain_set_id: form.active_set_id.clone(),
    }
}

/// SDK toolchains come from their provider in the version typed for the SDK, and NDK toolchains from
/// the other in the version typed for the NDK.
pub proof fn law_providers(form: ToolchainsState)
    ensures
        provider_of(true) == "provider-android-sdk-custom"@,
        provider_of(false) == "provider-android-ndk-custom"@,
        version_of(form, true) == form.sdk_version,
        version_of(form, false) == form.ndk_version,
{
}

} // verus!
