//! The settings page.

use crate::commands::{StateArchiveOptions, UiCommand};
use crate::config::AppConfig;
use crate::text::{
    blank, cat2, ends_with, has_suffix, is_blank, lowered, to_lower, trim_owned, trimmed,
};
use crate::ui_state::SettingsState;
use crate::worker::call::ServiceName;
use vstd::prelude::*;
use vstd::string::*;

verus! {

/// What the form leaves out of an archive.
pub open spec fn options_of(form: SettingsState) -> StateArchiveOptions {
    StateArchiveOptions {
        exclude_downloads: form.exclude_downloads,
        exclude_toolchains: form.exclude_toolchains,
        exclude_bundles: form.exclude_bundles,
        exclude_telemetry: form.exclude_telemetry,
    }
}

fn options(form: &SettingsState) -> (r: StateArchiveOptions)
    ensures
        r == options_of(*form),
{
    StateArchiveOptions {
        exclude_downloads: form.exclude_downloads,
        exclude_toolchains: form.exclude_toolchains,
        exclude_bundles: form.exclude_bundles,
        exclude_telemetry: form.exclude_telemetry,
    }
}

/// The button that saves the state, given the path of the archive.
pub fn save_state(cfg: &AppConfig, form: &SettingsState, path: String) -> (r: UiCommand)
    ensures
        r == (UiCommand::StateSave { cfg: *cfg, output_path: path, options: options_of(*form) }),
{
    UiCommand::StateSave { cfg: cfg.clone(), output_path: path, options: options(form) }
}

/// The button that restores the state, given the path of the archive.
pub fn open_state(cfg: &AppConfig, form: &SettingsState, path: String) -> (r: UiCommand)
    ensures
        r == (UiCommand::StateOpen { cfg: *cfg, archive_path: path, options: options_of(*form) }),
{
    UiCommand::StateOpen { cfg: cfg.clone(), archive_path: path, options: options(form) }
}

/// The path of an archive that is saved: it ends in `.zip`, in whatever case.
pub open spec fn zip_path(path: Seq<char>) -> Seq<char> {
    if has_suffix(lowered(path), ".zip"@) {
        path
    } else {
        path + ".zip"@
    }
}

/// The path of an archive that is saved.
pub fn with_zip(path: &str) -> (r: String)
    ensures
        r@ == zip_path(path@),
{
    let lower: String = to_lower(path);
    if ends_with(lower.as_str(), ".zip") {
        path.to_owned()
    } else {
        cat2(path, ".zip")
    }
}

/// The path of a saved archive ends in `.zip`, and naming it again changes nothing.
pub proof fn law_zip_path(path: Seq<char>)
    ensures
        has_suffix(lowered(zip_path(path)), ".zip"@),
        zip_path(zip_path(path)) == zip_path(path),
{
    if !has_suffix(lowered(path), ".zip"@) {
        reveal_strlit(".zip");
        let all = path + ".zip"@;
        assert(lowered(all).skip(path.len() as int) =~= ".zip"@);
    }
}

/// The configuration with a service's address replaced.
pub open spec fn with_address(cfg: AppConfig, service: ServiceName, addr: String) -> AppConfig {
    match service {
        ServiceName::Job => AppConfig { job_addr: addr, ..cfg },
        ServiceName::Toolchain => AppConfig { toolchain_addr: addr, ..cfg },
        ServiceName::Project => AppConfig { project_addr: addr, ..cfg },
        ServiceName::Build => AppConfig { build_addr: addr, ..cfg },
        ServiceName::Targets => AppConfig { targets_addr: addr, ..cfg },
        ServiceName::Observe => AppConfig { observe_addr: addr, ..cfg },
        ServiceName::Workflow => AppConfig { workflow_addr: addr, ..cfg },
    }
}

/// Takes a service's address over as it was typed.
pub fn set_address(cfg: &mut AppConfig, service: ServiceName, addr: String)
    ensures
        *final(cfg) == with_address(*old(cfg), service, addr),
{
    match service {
        ServiceName::Job => {
            cfg.job_addr = addr;
        },
        ServiceName::Toolchain => {
            cfg.toolchain_addr = addr;
        },
        ServiceName::Project => {
            cfg.project_addr = addr;
        },
        ServiceName::Build => {
            cfg.build_addr = addr;
        },
        ServiceName::Targets => {
            cfg.targets_addr = addr;
        },
        ServiceName::Observe => {
            cfg.observe_addr = addr;
        },
        ServiceName::Workflow => {
            cfg.workflow_addr = addr;
        },
    }
}

/// The switch for reports on usage was turned; tells whether an installation id is now needed.
pub fn turn_usage(cfg: &mut AppConfig, enabled: bool) -> (r: bool)
    ensures
        *final(cfg) == (AppConfig { telemetry_usage_enabled: enabled, ..*old(cfg) }),
        r == ((enabled || old(cfg).telemetry_crash_enabled) && blank(
            old(cfg).telemetry_install_id@,
        )),
{
    cfg.telemetry_usage_enabled = enabled;
    (enabled || cfg.telemetry_crash_enabled) && is_blank(cfg.telemetry_install_id.as_str())
}

/// The switch for reports on crashes was turned; tells whether an installation id is now needed.
pub fn turn_crash(cfg: &mut AppConfig, enabled: bool) -> (r: bool)
    ensures
        *final(cfg) == (AppConfig { telemetry_crash_enabled: enabled, ..*old(cfg) }),
        r == ((enabled || old(cfg).telemetry_usage_enabled) && blank(
            old(cfg).telemetry_install_id@,
        )),
{
    cfg.telemetry_crash_enabled = enabled;
    (enabled || cfg.telemetry_usage_enabled) && is_blank(cfg.telemetry_install_id.as_str())
}

/// The label for the installation id.
pub open spec fn install_label(install_id: Seq<char>) -> Seq<char> {
    if blank(install_id) {
        "Install ID: not set"@
    } else {
        "Install ID: "@ + install_id
    }
}

/// The label for the installation id.
pub fn telemetry_label_text(install_id: &str) -> (r: String)
    ensures
        r@ == install_label(install_id@),
{
    if is_blank(install_id) {
        "Install ID: not set".to_owned()
    } else {
        cat2("Install ID: ", install_id)
    }
}

/// What the settings page shows of a configuration.
#[derive(Debug)]
pub struct SettingsFields {
    pub job: String,
    pub toolchain: String,
    pub project: String,
    pub build: String,
    pub targets: String,
    pub observe: String,
    pub workflow: String,
    pub usage: bool,
    pub crash: bool,
    pub install_label: String,
}

/// What the settings page shows of a configuration.
pub fn settings_fields(cfg: &AppConfig) -> (r: SettingsFields)
    ensures
        r.job@ == trimmed(cfg.job_addr@),
        r.toolchain@ == trimmed(cfg.toolchain_addr@),
        r.project@ == trimmed(cfg.project_addr@),
        r.build@ == trimmed(cfg.build_addr@),
        r.targets@ == trimmed(cfg.targets_addr@),
        r.observe@ == trimmed(cfg.observe_addr@),
        r.workflow@ == trimmed(cfg.workflow_addr@),
        r.usage == cfg.telemetry_usage_enabled,
        r.crash == cfg.telemetry_crash_enabled,
        r.install_label@ == install_label(cfg.telemetry_install_id@),
{
    SettingsFields {
        job: trim_owned(cfg.job_addr.as_str()),
        toolchain: trim_owned(cfg.toolchain_addr.as_str()),
        project: trim_owned(cfg.project_addr.as_str()),
        build: trim_owned(cfg.build_addr.as_str()),
        targets: trim_owned(cfg.targets_addr.as_str()),
        observe: trim_owned(cfg.observe_addr.as_str()),
        workflow: trim_owned(cfg.workflow_addr.as_str()),
        usage: cfg.telemetry_usage_enabled,
        crash: cfg.telemetry_crash_enabled,
        install_label: telemetry_label_text(cfg.telemetry_install_id.as_str()),
    }
}

/// What an archive leaves out is what is ticked, each in its place.
pub proof fn law_ticked(form: SettingsState)
    ensures
        options_of(form).exclude_downloads == form.exclude_downloads,
        options_of(form).exclude_toolchains == form.exclude_toolchains,
        options_of(form).exclude_bundles == form.exclude_bundles,
        options_of(form).exclude_telemetry == form.exclude_telemetry,
{
}

/// Setting the address of a service sets that one and leaves those of all others, and everything else.
pub proof fn law_one_address_is_set(cfg: AppConfig, service: ServiceName, addr: String)
    ensures
        ({
            let r = with_address(cfg, service, addr);
            &&& service is Job ==> r.job_addr == addr
            &&& service !is Job ==> r.job_addr == cfg.job_addr
            &&& service is Toolchain ==> r.toolchain_addr == addr
            &&& service !is Toolchain ==> r.toolchain_addr == cfg.toolchain_addr
            &&& service is Project ==> r.project_addr == addr
            &&& service !is Project ==> r.project_addr == cfg.project_addr
            &&& service is Build ==> r.build_addr == addr
            &&& service !is Build ==> r.build_addr == cfg.build_addr
            &&& service is Targets ==> r.targets_addr == addr
            &&& service !is Targets ==> r.targets_addr == cfg.targets_addr
            &&& service is Observe ==> r.observe_addr == addr
            &&& service !is Observe ==> r.observe_addr == cfg.observe_addr
            &&& service is Workflow ==> r.workflow_addr == addr
            &&& service !is Workflow ==> r.workflow_addr == cfg.workflow_addr
            &&& r == (AppConfig {
                job_addr: r.job_addr,
                toolchain_addr: r.toolchain_addr,
                project_addr: r.project_addr,
                build_addr: r.build_addr,
                targets_addr: r.targets_addr,
                observe_addr: r.observe_addr,
                workflow_addr: r.workflow_addr,
                ..cfg
            })
        }),
{
}

/// The name of an archive keeps what was chosen; and an id of the installation is shown where there is
/// one.
pub proof fn law_names_are_kept(path: Seq<char>, install_id: Seq<char>)
    ensures
        path.is_prefix_of(zip_path(path)),
        zip_path(path).len() <= path.len() + 4,
        blank(install_id) ==> install_label(install_id) == "Install ID: not set"@,
        !blank(install_id) ==> install_id.is_suffix_of(install_label(install_id)),
{
    reveal_strlit(".zip");
    assert(zip_path(path).take(path.len() as int) =~= path);
    let label = install_label(install_id);
    if !blank(install_id) {
        assert(label.skip(label.len() - install_id.len()) =~= install_id);
    }
}

} // verus!
