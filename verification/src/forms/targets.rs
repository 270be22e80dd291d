//! The targets page.

use crate::commands::UiCommand;
use crate::config::AppConfig;
use crate::forms::shared::{choose_job, job_choice, remember, remembered};
use crate::ui_state::TargetsState;
use crate::util::{addr_or, env_addr, opt_str};
use vstd::prelude::*;
use vstd::string::*;

verus! {

/// The button that shows a device's log: that of the sample device, without a filter.
pub fn stream_logcat(cfg: &AppConfig) -> (r: UiCommand)
    ensures
        r matches UiCommand::TargetsStreamLogcat { cfg: c, target_id, filter } && {
            &&& c == *cfg
            &&& target_id@ == "target-sample-pixel"@
            &&& filter@.len() == 0
        },
{
    UiCommand::TargetsStreamLogcat {
        cfg: cfg.clone(),
        target_id: "target-sample-pixel".to_owned(),
        filter: String::new(),
    }
}

/// The button that looks up a build of the virtual device.
pub fn resolve_build(cfg: &AppConfig, form: &TargetsState) -> (r: UiCommand)
    ensures
        r == (UiCommand::TargetsResolveCuttlefishBuild {
            cfg: *cfg,
            branch: form.cuttlefish_branch,
            target: form.cuttlefish_target,
            build_id: form.cuttlefish_build_id,
        }),
{
    UiCommand::TargetsResolveCuttlefishBuild {
        cfg: cfg.clone(),
        branch: form.cuttlefish_branch.clone(),
        target: form.cuttlefish_target.clone(),
        build_id: form.cuttlefish_build_id.clone(),
    }
}

/// The button that installs the virtual device.
pub fn install_cuttlefish(cfg: &mut AppConfig, form: &TargetsState) -> (r: UiCommand)
    ensures
        *final(cfg) == remembered(*old(cfg), form.job_id, form.correlation_id),
        r == (UiCommand::TargetsInstallCuttlefish {
            cfg: *final(cfg),
            force: false,
            branch: form.cuttlefish_branch,
            target: form.cuttlefish_target,
            build_id: form.cuttlefish_build_id,
            job_id: job_choice(form.use_job_id, form.job_id),
            correlation_id: form.correlation_id,
        }),
{
    remember(cfg, &form.job_id, &form.correlation_id);
    UiCommand::TargetsInstallCuttlefish {
        cfg: cfg.clone(),
        force: false,
        branch: form.cuttlefish_branch.clone(),
        target: form.cuttlefish_target.clone(),
        build_id: form.cuttlefish_build_id.clone(),
        job_id: choose_job(form.use_job_id, &form.job_id),
        correlation_id: form.correlation_id.clone(),
    }
}

/// The button that starts the virtual device, with its whole interface.
pub fn start_cuttlefish(cfg: &mut AppConfig, form: &TargetsState) -> (r: UiCommand)
    ensures
        *final(cfg) == remembered(*old(cfg), form.job_id, form.correlation_id),
        r == (UiCommand::TargetsStartCuttlefish {
            cfg: *final(cfg),
            show_full_ui: true,
            job_id: job_choice(form.use_job_id, form.job_id),
            correlation_id: form.correlation_id,
        }),
{
    remember(cfg, &form.job_id, &form.correlation_id);
    UiCommand::TargetsStartCuttlefish {
        cfg: cfg.clone(),
        show_full_ui: true,
        job_id: choose_job(form.use_job_id, &form.job_id),
        correlation_id: form.correlation_id.clone(),
    }
}

/// The button that stops the virtual device.
pub fn stop_cuttlefish(cfg: &mut AppConfig, form: &TargetsState) -> (r: UiCommand)
    ensures
        *final(cfg) == remembered(*old(cfg), form.job_id, form.correlation_id),
        r == (UiCommand::TargetsStopCuttlefish {
            cfg: *final(cfg),
            job_id: job_choice(form.use_job_id, form.job_id),
            correlation_id: form.correlation_id,
        }),
{
    remember(cfg, &form.job_id, &form.correlation_id);
    UiCommand::TargetsStopCuttlefish {
        cfg: cfg.clone(),
        job_id: choose_job(form.use_job_id, &form.job_id),
        correlation_id: form.correlation_id.clone(),
    }
}

/// The button that makes a target the default one.
pub fn set_default(cfg: &AppConfig, form: &TargetsState) -> (r: UiCommand)
    ensures
        r == (UiCommand::TargetsSetDefault {
            cfg: *cfg,
            target_id: form.target_id,
        }),
{
    UiCommand::TargetsSetDefault {
        cfg: cfg.clone(),
        target_id: form.target_id.clone(),
    }
}

/// The button that installs an application, given the path of the APK.
pub fn install_apk(cfg: &mut AppConfig, form: &TargetsState, apk_path: String) -> (r: UiCommand)
    ensures
        *final(cfg) == remembered(*old(cfg), form.job_id, form.correlation_id),
        r == (UiCommand::TargetsInstallApk {
            cfg: *final(cfg),
            target_id: form.target_id,
            apk_path: apk_path,
            job_id: job_choice(form.use_job_id, form.job_id),
            correlation_id: form.correlation_id,
        }),
{
    remember(cfg, &form.job_id, &form.correlation_id);
    UiCommand::TargetsInstallApk {
        cfg: cfg.clone(),
        target_id: form.target_id.clone(),
        apk_path: apk_path,
        job_id: choose_job(form.use_job_id, &form.job_id),
        correlation_id: form.correlation_id.clone(),
    }
}

/// The button that launches an application.
pub fn launch_app(cfg: &mut AppConfig, form: &TargetsState) -> (r: UiCommand)
    ensures
        *final(cfg) == remembered(*old(cfg), form.job_id, form.correlation_id),
        r == (UiCommand::TargetsLaunchApp {
            cfg: *final(cfg),
            target_id: form.target_id,
            apk_path: form.apk_path,
            application_id: form.application_id,
            activity: form.activity,
            job_id: job_choice(form.use_job_id, form.job_id),
            correlation_id: form.correlation_id,
        }),
{
    remember(cfg, &form.job_id, &form.correlation_id);
    UiCommand::TargetsLaunchApp {
        cfg: cfg.clone(),
        target_id: form.target_id.clone(),
        apk_path: form.apk_path.clone(),
        application_id: form.application_id.clone(),
        activity: form.activity.clone(),
        job_id: choose_job(form.use_job_id, &form.job_id),
        correlation_id: form.correlation_id.clone(),
    }
}

/// Where the virtual device's screen is shown, given what the environment says.
pub fn screen_url(value: Option<&str>) -> (r: String)
    ensures
        r@ == addr_or(opt_str(value), "https://localhost:8443"@),
{
    env_addr(value, "https://localhost:8443")
}

/// Where the virtual device's environment is controlled, given what the environment says.
pub fn control_url(value: Option<&str>) -> (r: String)
    ensures
        r@ == addr_or(opt_str(value), "https://localhost:1443"@),
{
    env_addr(value, "https://localhost:1443")
}

} // verus!
