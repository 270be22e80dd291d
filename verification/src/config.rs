//! The configuration of the interface: where the services are, what was used last, what is
//! currently worked with, and what may be reported.

use crate::context::{project_reference, ActiveContext};
use crate::text::{blank, is_blank, lowered, opt_text, text_eq, to_lower};
use crate::util::{
    self, data_dir, data_dir_path, join_path, joined_path, last_name, law_joined_path,
    law_last_name, opt_str, state_dir_path, DEFAULT_BUILD_ADDR, DEFAULT_JOB_ADDR, DEFAULT_OBSERVE_ADDR, DEFAULT_PROJECT_ADDR, DEFAULT_TARGETS_ADDR,
    DEFAULT_TOOLCHAIN_ADDR, DEFAULT_WORKFLOW_ADDR,
};
use vstd::prelude::*;
use vstd::string::*;

verus! {

/// What the environment says of the services' addresses.
#[derive(Debug)]
pub struct AddrEnv {
    pub job: Option<String>,
    pub toolchain: Option<String>,
    pub project: Option<String>,
    pub build: Option<String>,
    pub targets: Option<String>,
    pub observe: Option<String>,
    pub workflow: Option<String>,
}

/// The configuration of the interface.
#[derive(Debug)]
pub struct AppConfig {
    pub job_addr: String,
    pub toolchain_addr: String,
    pub project_addr: String,
    pub build_addr: String,
    pub targets_addr: String,
    pub observe_addr: String,
    pub workflow_addr: String,
    pub last_job_type: String,
    pub last_job_params: String,
    pub last_job_project_id: String,
    pub last_job_target_id: String,
    pub last_job_toolchain_set_id: String,
    pub last_job_id: String,
    pub last_correlation_id: String,
    pub active_project_id: String,
    pub active_project_path: String,
    pub active_target_id: String,
    pub active_toolchain_set_id: String,
    pub active_run_id: String,
    pub telemetry_usage_enabled: bool,
    pub telemetry_crash_enabled: bool,
    pub telemetry_install_id: String,
}

impl Clone for AppConfig {
    fn clone(&self) -> (r: Self)
        ensures
            r == *self,
    {
        AppConfig {
            job_addr: self.job_addr.clone(),
            toolchain_addr: self.toolchain_addr.clone(),
            project_addr: self.project_addr.clone(),
            build_addr: self.build_addr.clone(),
            targets_addr: self.targets_addr.clone(),
            observe_addr: self.observe_addr.clone(),
            workflow_addr: self.workflow_addr.clone(),
            last_job_type: self.last_job_type.clone(),
            last_job_params: self.last_job_params.clone(),
            last_job_project_id: self.last_job_project_id.clone(),
            last_job_target_id: self.last_job_target_id.clone(),
            last_job_toolchain_set_id: self.last_job_toolchain_set_id.clone(),
            last_job_id: self.last_job_id.clone(),
            last_correlation_id: self.last_correlation_id.clone(),
            active_project_id: self.active_project_id.clone(),
            active_project_path: self.active_project_path.clone(),
            active_target_id: self.active_target_id.clone(),
            active_toolchain_set_id: self.active_toolchain_set_id.clone(),
            active_run_id: self.active_run_id.clone(),
            telemetry_usage_enabled: self.telemetry_usage_enabled,
            telemetry_crash_enabled: self.telemetry_crash_enabled,
            telemetry_install_id: self.telemetry_install_id.clone(),
        }
    }
}

/// The addresses are those of the environment, and the usual ones where it gives none.
pub open spec fn default_addresses(cfg: AppConfig, env: AddrEnv) -> bool {
    &&& cfg.job_addr@ == util::addr_or(opt_text(env.job), DEFAULT_JOB_ADDR@)
    &&& cfg.toolchain_addr@ == util::addr_or(opt_text(env.toolchain), DEFAULT_TOOLCHAIN_ADDR@)
    &&& cfg.project_addr@ == util::addr_or(opt_text(env.project), DEFAULT_PROJECT_ADDR@)
    &&& cfg.build_addr@ == util::addr_or(opt_text(env.build), DEFAULT_BUILD_ADDR@)
    &&& cfg.targets_addr@ == util::addr_or(opt_text(env.targets), DEFAULT_TARGETS_ADDR@)
    &&& cfg.observe_addr@ == util::addr_or(opt_text(env.observe), DEFAULT_OBSERVE_ADDR@)
    &&& cfg.workflow_addr@ == util::addr_or(opt_text(env.workflow), DEFAULT_WORKFLOW_ADDR@)
}

/// Nothing was used yet, nothing is worked with, and there is no installation id.
pub open spec fn cache_is_clear(cfg: AppConfig) -> bool {
    &&& cfg.last_job_type@.len() == 0
    &&& cfg.last_job_params@.len() == 0
    &&& cfg.last_job_project_id@.len() == 0
    &&& cfg.last_job_target_id@.len() == 0
    &&& cfg.last_job_toolchain_set_id@.len() == 0
    &&& cfg.last_job_id@.len() == 0
    &&& cfg.last_correlation_id@.len() == 0
    &&& cfg.active_project_id@.len() == 0
    &&& cfg.active_project_path@.len() == 0
    &&& cfg.active_target_id@.len() == 0
    &&& cfg.active_toolchain_set_id@.len() == 0
    &&& cfg.active_run_id@.len() == 0
    &&& cfg.telemetry_install_id@.len() == 0
}

/// An address: the environment's, or else the file's unless that is empty, or else the usual one.
pub open spec fn chosen_addr(
    env: Option<Seq<char>>,
    file: Seq<char>,
    default: Seq<char>,
) -> Seq<char> {
    match env {
        Some(value) => value,
        None => if file.len() > 0 {
            file
        } else {
            default
        },
    }
}

fn choose_addr(env: &Option<String>, file: &String, default: &str) -> (r: String)
    ensures
        r@ == chosen_addr(opt_text(*env), file@, default@),
{
    match env {
        Some(value) => value.clone(),
        None => if !file.as_str().is_empty() {
            file.clone()
        } else {
            default.to_owned()
        },
    }
}

fn addr_of(env: &Option<String>, default: &str) -> (r: String)
    ensures
        r@ == util::addr_or(opt_text(*env), default@),
{
    match env {
        Some(value) => value.clone(),
        None => default.to_owned(),
    }
}

/// The file in which the configuration is kept.
pub open spec fn config_path(home: Option<Seq<char>>) -> Seq<char> {
    joined_path(joined_path(data_dir_path(home), "state"@), "ui-config.json"@)
}

/// The file in which the configuration is kept, given what `HOME` holds.
pub fn ui_config_path(home: Option<&str>) -> (r: String)
    ensures
        r@ == config_path(opt_str(home)),
{
    let dir: String = join_path(data_dir(home).as_str(), "state");
    join_path(dir.as_str(), "ui-config.json")
}

/// What an environment variable says of a switch: on, off, or nothing that is understood.
pub open spec fn switch_value(value: Option<Seq<char>>) -> Option<bool> {
    match value {
        Some(v) => {
            let s = lowered(v);
            if s == "1"@ || s == "true"@ || s == "yes"@ || s == "on"@ {
                Some(true)
            } else if s == "0"@ || s == "false"@ || s == "no"@ || s == "off"@ {
                Some(false)
            } else {
                None
            }
        },
        None => None,
    }
}

/// What an environment variable says of a switch: on, off, or nothing that is understood.
pub fn telemetry_env_override(value: Option<&str>) -> (r: Option<bool>)
    ensures
        r == switch_value(opt_str(value)),
{
    match value {
        Some(v) => {
            let s: String = to_lower(v);
            let t: &str = s.as_str();
            if text_eq(t, "1") || text_eq(t, "true") || text_eq(t, "yes") || text_eq(t, "on") {
                Some(true)
            } else if text_eq(t, "0") || text_eq(t, "false") || text_eq(t, "no") || text_eq(
                t,
                "off",
            ) {
                Some(false)
            } else {
                None
            }
        },
        None => None,
    }
}

/// What the environment says, or else `setting`.
pub open spec fn switched(value: Option<Seq<char>>, setting: bool) -> bool {
    match switch_value(value) {
        Some(on) => on,
        None => setting,
    }
}

fn apply_switch(value: Option<&str>, setting: bool) -> (r: bool)
    ensures
        r == switched(opt_str(value), setting),
{
    match telemetry_env_override(value) {
        Some(on) => on,
        None => setting,
    }
}

/// The configuration that a file gives under the environment: an address comes from the environment,
/// or from the file where that has one, or is the usual one, and all else comes from the file; without
/// a file it is the default one.
pub open spec fn loaded(r: AppConfig, env: AddrEnv, file: Option<AppConfig>) -> bool {
    match file {
        None => {
            &&& default_addresses(r, env)
            &&& cache_is_clear(r)
            &&& !r.telemetry_usage_enabled
            &&& !r.telemetry_crash_enabled
        },
        Some(f) => {
            &&& r.job_addr@ == chosen_addr(
                opt_text(env.job),
                f.job_addr@,
                DEFAULT_JOB_ADDR@,
            )
            &&& r.toolchain_addr@ == chosen_addr(
                opt_text(env.toolchain),
                f.toolchain_addr@,
                DEFAULT_TOOLCHAIN_ADDR@,
            )
            &&& r.project_addr@ == chosen_addr(
                opt_text(env.project),
                f.project_addr@,
                DEFAULT_PROJECT_ADDR@,
            )
            &&& r.build_addr@ == chosen_addr(
                opt_text(env.build),
                f.build_addr@,
                DEFAULT_BUILD_ADDR@,
            )
            &&& r.targets_addr@ == chosen_addr(
                opt_text(env.targets),
                f.targets_addr@,
                DEFAULT_TARGETS_ADDR@,
            )
            &&& r.observe_addr@ == chosen_addr(
                opt_text(env.observe),
                f.observe_addr@,
                DEFAULT_OBSERVE_ADDR@,
            )
            &&& r.workflow_addr@ == chosen_addr(
                opt_text(env.workflow),
                f.workflow_addr@,
                DEFAULT_WORKFLOW_ADDR@,
            )
            &&& r == (AppConfig {
                job_addr: r.job_addr,
                toolchain_addr: r.toolchain_addr,
                project_addr: r.project_addr,
                build_addr: r.build_addr,
                targets_addr: r.targets_addr,
                observe_addr: r.observe_addr,
                workflow_addr: r.workflow_addr,
                ..f
            })
        },
    }
}

impl AppConfig {
    /// The configuration without a file.
    pub fn defaults(env: &AddrEnv) -> (r: Self)
        ensures
            default_addresses(r, *env),
            cache_is_clear(r),
            !r.telemetry_usage_enabled,
            !r.telemetry_crash_enabled,
    {
        AppConfig {
            job_addr: addr_of(&env.job, DEFAULT_JOB_ADDR),
            toolchain_addr: addr_of(&env.toolchain, DEFAULT_TOOLCHAIN_ADDR),
            project_addr: addr_of(&env.project, DEFAULT_PROJECT_ADDR),
            build_addr: addr_of(&env.build, DEFAULT_BUILD_ADDR),
            targets_addr: addr_of(&env.targets, DEFAULT_TARGETS_ADDR),
            observe_addr: addr_of(&env.observe, DEFAULT_OBSERVE_ADDR),
            workflow_addr: addr_of(&env.workflow, DEFAULT_WORKFLOW_ADDR),
            last_job_type: String::new(),
            last_job_params: String::new(),
            last_job_project_id: String::new(),
            last_job_target_id: String::new(),
            last_job_toolchain_set_id: String::new(),
            last_job_id: String::new(),
            last_correlation_id: String::new(),
            active_project_id: String::new(),
            active_project_path: String::new(),
            active_target_id: String::new(),
            active_toolchain_set_id: String::new(),
            active_run_id: String::new(),
            telemetry_usage_enabled: false,
            telemetry_crash_enabled: false,
            telemetry_install_id: String::new(),
        }
    }

    /// The configuration from a file, under the environment; without a file, the default one.
    pub fn load(env: &AddrEnv, file: Option<AppConfig>) -> (r: Self)
        ensures
            loaded(r, *env, file),
    {
        match file {
            None => AppConfig::defaults(env),
            Some(f) => {
                let mut cfg: AppConfig = f;
                cfg.job_addr = choose_addr(&env.job, &cfg.job_addr, DEFAULT_JOB_ADDR);
                cfg.toolchain_addr =
                choose_addr(&env.toolchain, &cfg.toolchain_addr, DEFAULT_TOOLCHAIN_ADDR);
                cfg.project_addr =
                choose_addr(&env.project, &cfg.project_addr, DEFAULT_PROJECT_ADDR);
                cfg.build_addr = choose_addr(&env.build, &cfg.build_addr, DEFAULT_BUILD_ADDR);
                cfg.targets_addr =
                choose_addr(&env.targets, &cfg.targets_addr, DEFAULT_TARGETS_ADDR);
                cfg.observe_addr =
                choose_addr(&env.observe, &cfg.observe_addr, DEFAULT_OBSERVE_ADDR);
                cfg.workflow_addr =
                choose_addr(&env.workflow, &cfg.workflow_addr, DEFAULT_WORKFLOW_ADDR);
                cfg
            },
        }
    }

    /// Forgets what was used and what is worked with; addresses and switches stay.
    pub fn clear_cached_state(&mut self)
        ensures
            cache_is_clear(*final(self)),
            same_settings(*final(self), *old(self)),
    {
        self.last_job_type = String::new();
        self.last_job_params = String::new();
        self.last_job_project_id = String::new();
        self.last_job_target_id = String::new();
        self.last_job_toolchain_set_id = String::new();
        self.last_job_id = String::new();
        self.last_correlation_id = String::new();
        self.active_project_id = String::new();
        self.active_project_path = String::new();
        self.active_target_id = String::new();
        self.active_toolchain_set_id = String::new();
        self.active_run_id = String::new();
        self.telemetry_install_id = String::new();
    }

    /// What is currently worked with.
    pub fn active_context(&self) -> (r: ActiveContext)
        ensures
            r == context_of(*self),
    {
        ActiveContext {
            run_id: self.active_run_id.clone(),
            project_id: self.active_project_id.clone(),
            project_path: self.active_project_path.clone(),
            toolchain_set_id: self.active_toolchain_set_id.clone(),
            target_id: self.active_target_id.clone(),
        }
    }

    fn project_ref(&self) -> (r: String)
        ensures
            r@ == project_reference(self.active_project_id@, self.active_project_path@),
    {
        if is_blank(self.active_project_id.as_str()) {
            self.active_project_path.clone()
        } else {
            self.active_project_id.clone()
        }
    }

    /// Works with another project from now on. A blank id leaves the id as it is; where both id
    /// and path are blank nothing changes. The last job's project follows.
    pub fn select_project(&mut self, project_id: String, project_path: String)
        ensures
            final(self).active_project_id == if blank(project_id@) {
                old(self).active_project_id
            } else {
                project_id
            },
            final(self).active_project_path == if blank(project_path@) && blank(project_id@) {
                old(self).active_project_path
            } else {
                project_path
            },
            final(self).last_job_project_id@ == ({
                let now = project_reference(
                    final(self).active_project_id@,
                    final(self).active_project_path@,
                );
                if blank(now) {
                    old(self).last_job_project_id@
                } else {
                    now
                }
            }),
            *final(self) == (AppConfig {
                active_project_id: final(self).active_project_id,
                active_project_path: final(self).active_project_path,
                last_job_project_id: final(self).last_job_project_id,
                ..*old(self)
            }),
    {
        let named: bool = !is_blank(project_id.as_str());
        if named {
            self.active_project_id = project_id;
        }
        if !is_blank(project_path.as_str()) || named {
            self.active_project_path = project_path;
        }
        let project: String = self.project_ref();
        if !is_blank(project.as_str()) {
            self.last_job_project_id = project;
        }
    }

    /// Works with what is given from now on, and leaves alone what is not. What the last job used
    /// follows.
    pub fn update_context(
        &mut self,
        project_id: Option<String>,
        project_path: Option<String>,
        toolchain_set_id: Option<String>,
        target_id: Option<String>,
        run_id: Option<String>,
    )
        ensures
            context_updated(
                *old(self),
                *final(self),
                project_id,
                project_path,
                toolchain_set_id,
                target_id,
                run_id,
            ),
    {
        let mut project_updated: bool = false;
        if let Some(value) = project_id {
            self.active_project_id = value;
            project_updated = true;
        }
        if let Some(value) = project_path {
            self.active_project_path = value;
            project_updated = true;
        }
        if let Some(value) = toolchain_set_id {
            self.active_toolchain_set_id = value.clone();
            self.last_job_toolchain_set_id = value;
        }
        if let Some(value) = target_id {
            self.active_target_id = value.clone();
            self.last_job_target_id = value;
        }
        if let Some(value) = run_id {
            self.active_run_id = value;
        }
        if project_updated {
            self.last_job_project_id = self.project_ref();
        }
    }

    /// Lets the environment switch reporting on and off. Tells whether an installation id is
    /// needed: something is reported and there is none.
    pub fn apply_telemetry_env(&mut self, usage: Option<&str>, crash: Option<&str>) -> (r: bool)
        ensures
            final(self).telemetry_usage_enabled == switched(
                opt_str(usage),
                old(self).telemetry_usage_enabled,
            ),
            final(self).telemetry_crash_enabled == switched(
                opt_str(crash),
                old(self).telemetry_crash_enabled,
            ),
            *final(self) == (AppConfig {
                telemetry_usage_enabled: final(self).telemetry_usage_enabled,
                telemetry_crash_enabled: final(self).telemetry_crash_enabled,
                ..*old(self)
            }),
            r == ((final(self).telemetry_usage_enabled || final(self).telemetry_crash_enabled)
                && blank(final(self).telemetry_install_id@)),
    {
        self.telemetry_usage_enabled = apply_switch(usage, self.telemetry_usage_enabled);
        self.telemetry_crash_enabled = apply_switch(crash, self.telemetry_crash_enabled);
        (self.telemetry_usage_enabled || self.telemetry_crash_enabled) && is_blank(
            self.telemetry_install_id.as_str(),
        )
    }

    /// The installation id to report with, unless it is blank.
    pub fn report_id(&self) -> (r: Option<String>)
        ensures
            r == if blank(self.telemetry_install_id@) {
                None
            } else {
                Some(self.telemetry_install_id)
            },
    {
        if is_blank(self.telemetry_install_id.as_str()) {
            None
        } else {
            Some(self.telemetry_install_id.clone())
        }
    }
}

/// The addresses and the switches are the same.
pub open spec fn same_settings(a: AppConfig, b: AppConfig) -> bool {
    &&& a.job_addr == b.job_addr
    &&& a.toolchain_addr == b.toolchain_addr
    &&& a.project_addr == b.project_addr
    &&& a.build_addr == b.build_addr
    &&& a.targets_addr == b.targets_addr
    &&& a.observe_addr == b.observe_addr
    &&& a.workflow_addr == b.workflow_addr
    &&& a.telemetry_usage_enabled == b.telemetry_usage_enabled
    &&& a.telemetry_crash_enabled == b.telemetry_crash_enabled
}

/// What a configuration says is currently worked with.
pub open spec fn context_of(cfg: AppConfig) -> ActiveContext {
    ActiveContext {
        run_id: cfg.active_run_id,
        project_id: cfg.active_project_id,
        project_path: cfg.active_project_path,
        toolchain_set_id: cfg.active_toolchain_set_id,
        target_id: cfg.active_target_id,
    }
}

/// The value that is given, or else the one that was there.
pub open spec fn given_or(value: Option<String>, before: String) -> String {
    match value {
        Some(v) => v,
        None => before,
    }
}

/// `post` is `pre` with what is given taken over.
pub open spec fn context_updated(
    pre: AppConfig,
    post: AppConfig,
    project_id: Option<String>,
    project_path: Option<String>,
    toolchain_set_id: Option<String>,
    target_id: Option<String>,
    run_id: Option<String>,
) -> bool {
    &&& post == (AppConfig {
        active_project_id: given_or(project_id, pre.active_project_id),
        active_project_path: given_or(project_path, pre.active_project_path),
        active_toolchain_set_id: given_or(toolchain_set_id, pre.active_toolchain_set_id),
        last_job_toolchain_set_id: given_or(toolchain_set_id, pre.last_job_toolchain_set_id),
        active_target_id: given_or(target_id, pre.active_target_id),
        last_job_target_id: given_or(target_id, pre.last_job_target_id),
        active_run_id: given_or(run_id, pre.active_run_id),
        last_job_project_id: post.last_job_project_id,
        ..pre
    })
    &&& post.last_job_project_id@ == if project_id is Some || project_path is Some {
        project_reference(post.active_project_id@, post.active_project_path@)
    } else {
        pre.last_job_project_id@
    }
}

/// Forgetting twice is forgetting once.
pub proof fn law_clear_twice(a: AppConfig, b: AppConfig, c: AppConfig)
    requires
        cache_is_clear(b) && same_settings(b, a),
        cache_is_clear(c) && same_settings(c, b),
    ensures
        cache_is_clear(c) && same_settings(c, a),
{
}

/// Once the cache is forgotten, nothing is worked with.
pub proof fn law_clear_context(cfg: AppConfig)
    requires
        cache_is_clear(cfg),
    ensures
        context_of(cfg).run_id@.len() == 0,
        context_of(cfg).project_id@.len() == 0,
        context_of(cfg).project_path@.len() == 0,
        context_of(cfg).toolchain_set_id@.len() == 0,
        context_of(cfg).target_id@.len() == 0,
{
}

/// An address in the environment beats the file's, and a file's that is not empty beats the usual
/// one.
pub proof fn law_address_precedence(value: Seq<char>, file: Seq<char>, default: Seq<char>)
    ensures
        chosen_addr(Some(value), file, default) == value,
        file.len() > 0 ==> chosen_addr(None, file, default) == file,
        file.len() == 0 ==> chosen_addr(None, file, default) == default,
{
}

/// What was saved is loaded again: under an environment that sets no address, a configuration whose
/// addresses are not empty comes back from its file as it is.
pub proof fn law_saved_is_loaded(saved: AppConfig, r: AppConfig, env: AddrEnv)
    requires
        loaded(r, env, Some(saved)),
        env.job is None,
        saved.job_addr@.len() > 0,
        env.toolchain is None,
        saved.toolchain_addr@.len() > 0,
        env.project is None,
        saved.project_addr@.len() > 0,
        env.build is None,
        saved.build_addr@.len() > 0,
        env.targets is None,
        saved.targets_addr@.len() > 0,
        env.observe is None,
        saved.observe_addr@.len() > 0,
        env.workflow is None,
        saved.workflow_addr@.len() > 0,
    ensures
        r.job_addr@ == saved.job_addr@,
        r.toolchain_addr@ == saved.toolchain_addr@,
        r.project_addr@ == saved.project_addr@,
        r.build_addr@ == saved.build_addr@,
        r.targets_addr@ == saved.targets_addr@,
        r.observe_addr@ == saved.observe_addr@,
        r.workflow_addr@ == saved.workflow_addr@,
        r == (AppConfig {
            job_addr: r.job_addr,
            toolchain_addr: r.toolchain_addr,
            project_addr: r.project_addr,
            build_addr: r.build_addr,
            targets_addr: r.targets_addr,
            observe_addr: r.observe_addr,
            workflow_addr: r.workflow_addr,
            ..saved
        }),
{
}

/// What is handed to an update of the context is what is worked with afterwards; what is not
/// handed over stays.
pub proof fn law_context_follows_update(
    pre: AppConfig,
    post: AppConfig,
    project_id: Option<String>,
    project_path: Option<String>,
    toolchain_set_id: Option<String>,
    target_id: Option<String>,
    run_id: Option<String>,
)
    requires
        context_updated(
            pre,
            post,
            project_id,
            project_path,
            toolchain_set_id,
            target_id,
            run_id,
        ),
    ensures
        context_of(post) == (ActiveContext {
            run_id: given_or(run_id, context_of(pre).run_id),
            project_id: given_or(project_id, context_of(pre).project_id),
            project_path: given_or(project_path, context_of(pre).project_path),
            toolchain_set_id: given_or(toolchain_set_id, context_of(pre).toolchain_set_id),
            target_id: given_or(target_id, context_of(pre).target_id),
        }),
        same_settings(post, pre),
{
}

/// Every service is looked for at the address that the environment gives for it, else at the one in
/// its own entry of the file, else at its usual one; and all else that is loaded is what the file
/// holds, or nothing where there is no file.
pub proof fn law_loaded(r: AppConfig, env: AddrEnv, file: Option<AppConfig>)
    requires
        loaded(r, env, file),
    ensures
        env.job matches Some(addr) ==> r.job_addr@ == addr@,
        env.job is None && file is Some && file->0.job_addr@.len() > 0 ==> r.job_addr@
            == file->0.job_addr@,
        env.job is None && !(file is Some && file->0.job_addr@.len() > 0) ==> r.job_addr@
            == DEFAULT_JOB_ADDR@,
        env.toolchain matches Some(addr) ==> r.toolchain_addr@ == addr@,
        env.toolchain is None && file is Some && file->0.toolchain_addr@.len() > 0 ==> r.toolchain_addr@
            == file->0.toolchain_addr@,
        env.toolchain is None && !(file is Some && file->0.toolchain_addr@.len() > 0) ==> r.toolchain_addr@
            == DEFAULT_TOOLCHAIN_ADDR@,
        env.project matches Some(addr) ==> r.project_addr@ == addr@,
        env.project is None && file is Some && file->0.project_addr@.len() > 0 ==> r.project_addr@
            == file->0.project_addr@,
        env.project is None && !(file is Some && file->0.project_addr@.len() > 0) ==> r.project_addr@
            == DEFAULT_PROJECT_ADDR@,
        env.build matches Some(addr) ==> r.build_addr@ == addr@,
        env.build is None && file is Some && file->0.build_addr@.len() > 0 ==> r.build_addr@
            == file->0.build_addr@,
        env.build is None && !(file is Some && file->0.build_addr@.len() > 0) ==> r.build_addr@
            == DEFAULT_BUILD_ADDR@,
        env.targets matches Some(addr) ==> r.targets_addr@ == addr@,
        env.targets is None && file is Some && file->0.targets_addr@.len() > 0 ==> r.targets_addr@
            == file->0.targets_addr@,
        env.targets is None && !(file is Some && file->0.targets_addr@.len() > 0) ==> r.targets_addr@
            == DEFAULT_TARGETS_ADDR@,
        env.observe matches Some(addr) ==> r.observe_addr@ == addr@,
        env.observe is None && file is Some && file->0.observe_addr@.len() > 0 ==> r.observe_addr@
            == file->0.observe_addr@,
        env.observe is None && !(file is Some && file->0.observe_addr@.len() > 0) ==> r.observe_addr@
            == DEFAULT_OBSERVE_ADDR@,
        env.workflow matches Some(addr) ==> r.workflow_addr@ == addr@,
        env.workflow is None && file is Some && file->0.workflow_addr@.len() > 0 ==> r.workflow_addr@
            == file->0.workflow_addr@,
        env.workflow is None && !(file is Some && file->0.workflow_addr@.len() > 0) ==> r.workflow_addr@
            == DEFAULT_WORKFLOW_ADDR@,
        file matches Some(f) ==> {
            &&& r.last_job_type == f.last_job_type
            &&& r.last_job_params == f.last_job_params
            &&& r.last_job_project_id == f.last_job_project_id
            &&& r.last_job_target_id == f.last_job_target_id
            &&& r.last_job_toolchain_set_id == f.last_job_toolchain_set_id
            &&& r.last_job_id == f.last_job_id
            &&& r.last_correlation_id == f.last_correlation_id
            &&& r.active_project_id == f.active_project_id
            &&& r.active_project_path == f.active_project_path
            &&& r.active_target_id == f.active_target_id
            &&& r.active_toolchain_set_id == f.active_toolchain_set_id
            &&& r.active_run_id == f.active_run_id
            &&& r.telemetry_install_id == f.telemetry_install_id
            &&& r.telemetry_usage_enabled == f.telemetry_usage_enabled
            &&& r.telemetry_crash_enabled == f.telemetry_crash_enabled
        },
        file is None ==> {
            &&& r.last_job_type@.len() == 0
            &&& r.last_job_params@.len() == 0
            &&& r.last_job_project_id@.len() == 0
            &&& r.last_job_target_id@.len() == 0
            &&& r.last_job_toolchain_set_id@.len() == 0
            &&& r.last_job_id@.len() == 0
            &&& r.last_correlation_id@.len() == 0
            &&& r.active_project_id@.len() == 0
            &&& r.active_project_path@.len() == 0
            &&& r.active_target_id@.len() == 0
            &&& r.active_toolchain_set_id@.len() == 0
            &&& r.active_run_id@.len() == 0
            &&& r.telemetry_install_id@.len() == 0
            &&& !r.telemetry_usage_enabled
            &&& !r.telemetry_crash_enabled
        },
{
}

/// The services are told apart by their usual addresses: one port each, in a row.
pub proof fn law_usual_addresses()
    ensures
        DEFAULT_JOB_ADDR@ == "127.0.0.1:50051"@,
        DEFAULT_TOOLCHAIN_ADDR@ == "127.0.0.1:50052"@,
        DEFAULT_PROJECT_ADDR@ == "127.0.0.1:50053"@,
        DEFAULT_BUILD_ADDR@ == "127.0.0.1:50054"@,
        DEFAULT_TARGETS_ADDR@ == "127.0.0.1:50055"@,
        DEFAULT_OBSERVE_ADDR@ == "127.0.0.1:50056"@,
        DEFAULT_WORKFLOW_ADDR@ == "127.0.0.1:50057"@,
{
}

/// Forgetting leaves nothing of what was used last or is worked with, nor the id of the installation,
/// and leaves every address and what may be reported.
pub proof fn law_what_is_forgotten(pre: AppConfig, post: AppConfig)
    requires
        cache_is_clear(post) && same_settings(post, pre),
    ensures
        post.last_job_type@.len() == 0,
        post.last_job_params@.len() == 0,
        post.last_job_project_id@.len() == 0,
        post.last_job_target_id@.len() == 0,
        post.last_job_toolchain_set_id@.len() == 0,
        post.last_job_id@.len() == 0,
        post.last_correlation_id@.len() == 0,
        post.active_project_id@.len() == 0,
        post.active_project_path@.len() == 0,
        post.active_target_id@.len() == 0,
        post.active_toolchain_set_id@.len() == 0,
        post.active_run_id@.len() == 0,
        post.telemetry_install_id@.len() == 0,
        post.job_addr == pre.job_addr,
        post.toolchain_addr == pre.toolchain_addr,
        post.project_addr == pre.project_addr,
        post.build_addr == pre.build_addr,
        post.targets_addr == pre.targets_addr,
        post.observe_addr == pre.observe_addr,
        post.workflow_addr == pre.workflow_addr,
        post.telemetry_usage_enabled == pre.telemetry_usage_enabled,
        post.telemetry_crash_enabled == pre.telemetry_crash_enabled,
{
}

/// What is worked with is what the configuration holds of it, each in its place.
pub proof fn law_context_of(cfg: AppConfig)
    ensures
        context_of(cfg).run_id == cfg.active_run_id,
        context_of(cfg).project_id == cfg.active_project_id,
        context_of(cfg).project_path == cfg.active_project_path,
        context_of(cfg).toolchain_set_id == cfg.active_toolchain_set_id,
        context_of(cfg).target_id == cfg.active_target_id,
{
}

/// What an update of the context hands over is worked with, and what it does not hand over stays; the
/// set, the target and the project of the next job follow, and nothing else changes.
pub proof fn law_context_update(
    pre: AppConfig,
    post: AppConfig,
    project_id: Option<String>,
    project_path: Option<String>,
    toolchain_set_id: Option<String>,
    target_id: Option<String>,
    run_id: Option<String>,
)
    requires
        context_updated(
            pre,
            post,
            project_id,
            project_path,
            toolchain_set_id,
            target_id,
            run_id,
        ),
    ensures
        project_id matches Some(id) ==> post.active_project_id == id,
        project_id is None ==> post.active_project_id == pre.active_project_id,
        project_path matches Some(path) ==> post.active_project_path == path,
        project_path is None ==> post.active_project_path == pre.active_project_path,
        toolchain_set_id matches Some(id) ==> post.active_toolchain_set_id == id
            && post.last_job_toolchain_set_id == id,
        toolchain_set_id is None ==> post.active_toolchain_set_id == pre.active_toolchain_set_id
            && post.last_job_toolchain_set_id == pre.last_job_toolchain_set_id,
        target_id matches Some(id) ==> post.active_target_id == id && post.last_job_target_id == id,
        target_id is None ==> post.active_target_id == pre.active_target_id
            && post.last_job_target_id == pre.last_job_target_id,
        run_id matches Some(id) ==> post.active_run_id == id,
        run_id is None ==> post.active_run_id == pre.active_run_id,
        (project_id is Some || project_path is Some) && !blank(post.active_project_id@)
            ==> post.last_job_project_id@ == post.active_project_id@,
        (project_id is Some || project_path is Some) && blank(post.active_project_id@)
            ==> post.last_job_project_id@ == post.active_project_path@,
        project_id is None && project_path is None ==> post.last_job_project_id@
            == pre.last_job_project_id@,
        post.last_job_type == pre.last_job_type,
        post.last_job_params == pre.last_job_params,
        post.last_job_id == pre.last_job_id,
        post.last_correlation_id == pre.last_correlation_id,
        post.telemetry_install_id == pre.telemetry_install_id,
        post.job_addr == pre.job_addr,
        post.toolchain_addr == pre.toolchain_addr,
        post.project_addr == pre.project_addr,
        post.build_addr == pre.build_addr,
        post.targets_addr == pre.targets_addr,
        post.observe_addr == pre.observe_addr,
        post.workflow_addr == pre.workflow_addr,
        post.telemetry_usage_enabled == pre.telemetry_usage_enabled,
        post.telemetry_crash_enabled == pre.telemetry_crash_enabled,
{
}

/// A switch in the environment is on for one, true, yes and on, off for zero, false, no and off,
/// however they are written; for anything else, and without it, the setting counts.
pub proof fn law_switched(value: Seq<char>, setting: bool)
    ensures
        switched(None, setting) == setting,
        lowered(value) == "1"@ || lowered(value) == "true"@ || lowered(value) == "yes"@ || lowered(
            value,
        ) == "on"@ ==> switched(Some(value), setting),
        lowered(value) == "0"@ || lowered(value) == "false"@ || lowered(value) == "no"@ || lowered(
            value,
        ) == "off"@ ==> !switched(Some(value), setting),
        !("1"@ == lowered(value) || "true"@ == lowered(value) || "yes"@ == lowered(value) || "on"@
            == lowered(value) || "0"@ == lowered(value) || "false"@ == lowered(value) || "no"@
            == lowered(value) || "off"@ == lowered(value)) ==> switched(Some(value), setting)
            == setting,
{
    reveal_strlit("1");
    reveal_strlit("true");
    reveal_strlit("yes");
    reveal_strlit("on");
    reveal_strlit("0");
    reveal_strlit("false");
    reveal_strlit("no");
    reveal_strlit("off");
    assert("1"@[0] == '1' && "true"@[0] == 't' && "yes"@[0] == 'y' && "on"@[0] == 'o' && "0"@[0]
        == '0' && "false"@[0] == 'f' && "no"@[0] == 'n' && "off"@[0] == 'o');
    let s = lowered(value);
    if s =~= "0"@ || s =~= "false"@ || s =~= "no"@ || s =~= "off"@ {
        assert(s.len() == 1 ==> s[0] == '0');
        assert(s.len() == 2 ==> s[0] == 'n');
        assert(s.len() == 3 ==> s[0] == 'o');
        assert(s.len() != 4);
    }
}

/// The configuration is kept with the state, under its own name.
pub proof fn law_config_path(home: Option<Seq<char>>)
    ensures
        state_dir_path(home).is_prefix_of(config_path(home)),
        last_name(config_path(home)) == Some("ui-config.json"@),
{
    reveal_strlit("ui-config.json");
    reveal_strlit(".");
    reveal_strlit("..");
    assert(!"ui-config.json"@.contains('/'));
    law_joined_path(state_dir_path(home), "ui-config.json"@);
    law_last_name(state_dir_path(home), "ui-config.json"@);
}

} // verus!
