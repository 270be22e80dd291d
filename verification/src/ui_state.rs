//! What the interface remembers of its pages between sessions.

use crate::config::AppConfig;
use crate::text::{opt_text, text_eq};
use crate::util::{
    addr_or, data_dir, data_dir_path, join_path, joined_path, last_name, law_joined_path,
    law_last_name, opt_str, state_dir_path,
};
use vstd::prelude::*;
use vstd::string::*;

verus! {

/// How many characters of a page's log are kept.
pub const LOG_MAX_CHARS: usize = 200_000;

/// The job control page.
#[derive(Debug)]
pub struct HomeState {
    pub log: String,
    pub job_type: String,
    pub job_params: String,
    pub project_id: String,
    pub target_id: String,
    pub toolchain_set_id: String,
    pub correlation_id: String,
    pub watch_job_id: String,
}

impl Clone for HomeState {
    fn clone(&self) -> (r: Self)
        ensures
            r == *self,
    {
        HomeState {
            log: self.log.clone(),
            job_type: self.job_type.clone(),
            job_params: self.job_params.clone(),
            project_id: self.project_id.clone(),
            target_id: self.target_id.clone(),
            toolchain_set_id: self.toolchain_set_id.clone(),
            correlation_id: self.correlation_id.clone(),
            watch_job_id: self.watch_job_id.clone(),
        }
    }
}

impl Default for HomeState {
    fn default() -> (r: Self)
        ensures
            r.log@.len() == 0,
            r.job_type@ == "workflow.pipeline"@,
            r.job_params@.len() == 0,
            r.project_id@.len() == 0,
            r.target_id@.len() == 0,
            r.toolchain_set_id@.len() == 0,
            r.correlation_id@.len() == 0,
            r.watch_job_id@.len() == 0,
    {
        HomeState {
            log: String::new(),
            job_type: "workflow.pipeline".to_owned(),
            job_params: String::new(),
            project_id: String::new(),
            target_id: String::new(),
            toolchain_set_id: String::new(),
            correlation_id: String::new(),
            watch_job_id: String::new(),
        }
    }
}

/// The workflow page.
#[derive(Debug)]
pub struct WorkflowState {
    pub log: String,
    pub run_id: String,
    pub correlation_id: String,
    pub use_job_id: bool,
    pub job_id: String,
    pub include_history: bool,
    pub template_id: String,
    pub project_path: String,
    pub project_name: String,
    pub project_id: String,
    pub toolchain_id: String,
    pub toolchain_set_id: String,
    pub target_id: String,
    pub build_variant_index: u32,
    pub variant_name: String,
    pub module: String,
    pub tasks: String,
    pub apk_path: String,
    pub application_id: String,
    pub activity: String,
    pub auto_infer_steps: bool,
    pub step_create: bool,
    pub step_open: bool,
    pub step_verify: bool,
    pub step_build: bool,
    pub step_install: bool,
    pub step_launch: bool,
    pub step_support: bool,
    pub step_evidence: bool,
}

impl Clone for WorkflowState {
    fn clone(&self) -> (r: Self)
        ensures
            r == *self,
    {
        WorkflowState {
            log: self.log.clone(),
            run_id: self.run_id.clone(),
            correlation_id: self.correlation_id.clone(),
            use_job_id: self.use_job_id,
            job_id: self.job_id.clone(),
            include_history: self.include_history,
            template_id: self.template_id.clone(),
            project_path: self.project_path.clone(),
            project_name: self.project_name.clone(),
            project_id: self.project_id.clone(),
            toolchain_id: self.toolchain_id.clone(),
            toolchain_set_id: self.toolchain_set_id.clone(),
            target_id: self.target_id.clone(),
            build_variant_index: self.build_variant_index,
            variant_name: self.variant_name.clone(),
            module: self.module.clone(),
            tasks: self.tasks.clone(),
            apk_path: self.apk_path.clone(),
            application_id: self.application_id.clone(),
            activity: self.activity.clone(),
            auto_infer_steps: self.auto_infer_steps,
            step_create: self.step_create,
            step_open: self.step_open,
            step_verify: self.step_verify,
            step_build: self.step_build,
            step_install: self.step_install,
            step_launch: self.step_launch,
            step_support: self.step_support,
            step_evidence: self.step_evidence,
        }
    }
}

impl Default for WorkflowState {
    fn default() -> (r: Self)
        ensures
            r.log@.len() == 0,
            r.run_id@.len() == 0,
            r.correlation_id@.len() == 0,
            !r.use_job_id,
            r.job_id@.len() == 0,
            r.include_history,
            r.template_id@.len() == 0,
            r.project_path@.len() == 0,
            r.project_name@.len() == 0,
            r.project_id@.len() == 0,
            r.toolchain_id@.len() == 0,
            r.toolchain_set_id@.len() == 0,
            r.target_id@.len() == 0,
            r.build_variant_index == 0,
            r.variant_name@.len() == 0,
            r.module@.len() == 0,
            r.tasks@.len() == 0,
            r.apk_path@.len() == 0,
            r.application_id@.len() == 0,
            r.activity@.len() == 0,
            r.auto_infer_steps,
            !r.step_create,
            !r.step_open,
            !r.step_verify,
            !r.step_build,
            !r.step_install,
            !r.step_launch,
            !r.step_support,
            !r.step_evidence,
    {
        WorkflowState {
            log: String::new(),
            run_id: String::new(),
            correlation_id: String::new(),
            use_job_id: false,
            job_id: String::new(),
            include_history: true,
            template_id: String::new(),
            project_path: String::new(),
            project_name: String::new(),
            project_id: String::new(),
            toolchain_id: String::new(),
            toolchain_set_id: String::new(),
            target_id: String::new(),
            build_variant_index: 0,
            variant_name: String::new(),
            module: String::new(),
            tasks: String::new(),
            apk_path: String::new(),
            application_id: String::new(),
            activity: String::new(),
            auto_infer_steps: true,
            step_create: false,
            step_open: false,
            step_verify: false,
            step_build: false,
            step_install: false,
            step_launch: false,
            step_support: false,
            step_evidence: false,
        }
    }
}

/// The toolchains page.
#[derive(Debug)]
pub struct ToolchainsState {
    pub log: String,
    pub use_job_id: bool,
    pub job_id: String,
    pub correlation_id: String,
    pub sdk_version: String,
    pub ndk_version: String,
    pub toolchain_id: String,
    pub update_version: String,
    pub verify_update: bool,
    pub remove_cached: bool,
    pub force_uninstall: bool,
    pub dry_run: bool,
    pub remove_all: bool,
    pub sdk_set_id: String,
    pub ndk_set_id: String,
    pub display_name: String,
    pub active_set_id: String,
}

impl Clone for ToolchainsState {
    fn clone(&self) -> (r: Self)
        ensures
            r == *self,
    {
        ToolchainsState {
            log: self.log.clone(),
            use_job_id: self.use_job_id,
            job_id: self.job_id.clone(),
            correlation_id: self.correlation_id.clone(),
            sdk_version: self.sdk_version.clone(),
            ndk_version: self.ndk_version.clone(),
            toolchain_id: self.toolchain_id.clone(),
            update_version: self.update_version.clone(),
            verify_update: self.verify_update,
            remove_cached: self.remove_cached,
            force_uninstall: self.force_uninstall,
            dry_run: self.dry_run,
            remove_all: self.remove_all,
            sdk_set_id: self.sdk_set_id.clone(),
            ndk_set_id: self.ndk_set_id.clone(),
            display_name: self.display_name.clone(),
            active_set_id: self.active_set_id.clone(),
        }
    }
}

impl Default for ToolchainsState {
    fn default() -> (r: Self)
        ensures
            r.log@.len() == 0,
            !r.use_job_id,
            r.job_id@.len() == 0,
            r.correlation_id@.len() == 0,
            r.sdk_version@ == "36.0.0"@,
            r.ndk_version@ == "r29"@,
            r.toolchain_id@.len() == 0,
            r.update_version@.len() == 0,
            r.verify_update,
            !r.remove_cached,
            !r.force_uninstall,
            r.dry_run,
            !r.remove_all,
            r.sdk_set_id@.len() == 0,
            r.ndk_set_id@.len() == 0,
            r.display_name@.len() == 0,
            r.active_set_id@.len() == 0,
    {
        ToolchainsState {
            log: String::new(),
            use_job_id: false,
            job_id: String::new(),
            correlation_id: String::new(),
            sdk_version: "36.0.0".to_owned(),
            ndk_version: "r29".to_owned(),
            toolchain_id: String::new(),
            update_version: String::new(),
            verify_update: true,
            remove_cached: false,
            force_uninstall: false,
            dry_run: true,
            remove_all: false,
            sdk_set_id: String::new(),
            ndk_set_id: String::new(),
            display_name: String::new(),
            active_set_id: String::new(),
        }
    }
}

/// The projects page.
#[derive(Debug)]
pub struct ProjectsState {
    pub log: String,
    pub use_job_id: bool,
    pub job_id: String,
    pub correlation_id: String,
    pub template_id: String,
    pub name: String,
    pub path: String,
    pub project_id: String,
    pub toolchain_set_id: String,
    pub default_target_id: String,
}

impl Clone for ProjectsState {
    fn clone(&self) -> (r: Self)
        ensures
            r == *self,
    {
        ProjectsState {
            log: self.log.clone(),
            use_job_id: self.use_job_id,
            job_id: self.job_id.clone(),
            correlation_id: self.correlation_id.clone(),
            template_id: self.template_id.clone(),
            name: self.name.clone(),
            path: self.path.clone(),
            project_id: self.project_id.clone(),
            toolchain_set_id: self.toolchain_set_id.clone(),
            default_target_id: self.default_target_id.clone(),
        }
    }
}

impl Default for ProjectsState {
    fn default() -> (r: Self)
        ensures
            r.log@.len() == 0,
            !r.use_job_id,
            r.job_id@.len() == 0,
            r.correlation_id@.len() == 0,
            r.template_id@.len() == 0,
            r.name@.len() == 0,
            r.path@.len() == 0,
            r.project_id@.len() == 0,
            r.toolchain_set_id@ == "none"@,
            r.default_target_id@ == "none"@,
    {
        ProjectsState {
            log: String::new(),
            use_job_id: false,
            job_id: String::new(),
            correlation_id: String::new(),
            template_id: String::new(),
            name: String::new(),
            path: String::new(),
            project_id: String::new(),
            toolchain_set_id: "none".to_owned(),
            default_target_id: "none".to_owned(),
        }
    }
}

/// The targets page.
#[derive(Debug)]
pub struct TargetsState {
    pub log: String,
    pub use_job_id: bool,
    pub job_id: String,
    pub correlation_id: String,
    pub cuttlefish_branch: String,
    pub cuttlefish_target: String,
    pub cuttlefish_build_id: String,
    pub target_id: String,
    pub apk_path: String,
    pub application_id: String,
    pub activity: String,
}

impl Clone for TargetsState {
    fn clone(&self) -> (r: Self)
        ensures
            r == *self,
    {
        TargetsState {
            log: self.log.clone(),
            use_job_id: self.use_job_id,
            job_id: self.job_id.clone(),
            correlation_id: self.correlation_id.clone(),
            cuttlefish_branch: self.cuttlefish_branch.clone(),
            cuttlefish_target: self.cuttlefish_target.clone(),
            cuttlefish_build_id: self.cuttlefish_build_id.clone(),
            target_id: self.target_id.clone(),
            apk_path: self.apk_path.clone(),
            application_id: self.application_id.clone(),
            activity: self.activity.clone(),
        }
    }
}

/// The build page.
#[derive(Debug)]
pub struct BuildState {
    pub log: String,
    pub project_ref: String,
    pub module: String,
    pub variant_index: u32,
    pub variant_name: String,
    pub tasks: String,
    pub gradle_args: String,
    pub clean_first: bool,
    pub use_job_id: bool,
    pub job_id: String,
    pub correlation_id: String,
    pub artifact_modules: String,
    pub artifact_variant: String,
    pub artifact_types: String,
    pub artifact_name: String,
    pub artifact_path: String,
}

impl Clone for BuildState {
    fn clone(&self) -> (r: Self)
        ensures
            r == *self,
    {
        BuildState {
            log: self.log.clone(),
            project_ref: self.project_ref.clone(),
            module: self.module.clone(),
            variant_index: self.variant_index,
            variant_name: self.variant_name.clone(),
            tasks: self.tasks.clone(),
            gradle_args: self.gradle_args.clone(),
            clean_first: self.clean_first,
            use_job_id: self.use_job_id,
            job_id: self.job_id.clone(),
            correlation_id: self.correlation_id.clone(),
            artifact_modules: self.artifact_modules.clone(),
            artifact_variant: self.artifact_variant.clone(),
            artifact_types: self.artifact_types.clone(),
            artifact_name: self.artifact_name.clone(),
            artifact_path: self.artifact_path.clone(),
        }
    }
}

impl Default for BuildState {
    fn default() -> (r: Self)
        ensures
            r.log@.len() == 0,
            r.project_ref@.len() == 0,
            r.module@.len() == 0,
            r.variant_index == 0,
            r.variant_name@.len() == 0,
            r.tasks@.len() == 0,
            r.gradle_args@.len() == 0,
            !r.clean_first,
            !r.use_job_id,
            r.job_id@.len() == 0,
            r.correlation_id@.len() == 0,
            r.artifact_modules@.len() == 0,
            r.artifact_variant@.len() == 0,
            r.artifact_types@.len() == 0,
            r.artifact_name@.len() == 0,
            r.artifact_path@.len() == 0,
    {
        BuildState {
            log: String::new(),
            project_ref: String::new(),
            module: String::new(),
            variant_index: 0,
            variant_name: String::new(),
            tasks: String::new(),
            gradle_args: String::new(),
            clean_first: false,
            use_job_id: false,
            job_id: String::new(),
            correlation_id: String::new(),
            artifact_modules: String::new(),
            artifact_variant: String::new(),
            artifact_types: String::new(),
            artifact_name: String::new(),
            artifact_path: String::new(),
        }
    }
}

/// The job history page.
#[derive(Debug)]
pub struct JobsHistoryState {
    pub log: String,
    pub job_types: String,
    pub states: String,
    pub created_after: String,
    pub created_before: String,
    pub finished_after: String,
    pub finished_before: String,
    pub correlation_id: String,
    pub page_size: String,
    pub page_token: String,
    pub job_id: String,
    pub kinds: String,
    pub after: String,
    pub before: String,
    pub history_page_size: String,
    pub history_page_token: String,
    pub output_path: String,
}

impl Clone for JobsHistoryState {
    fn clone(&self) -> (r: Self)
        ensures
            r == *self,
    {
        JobsHistoryState {
            log: self.log.clone(),
            job_types: self.job_types.clone(),
            states: self.states.clone(),
            created_after: self.created_after.clone(),
            created_before: self.created_before.clone(),
            finished_after: self.finished_after.clone(),
            finished_before: self.finished_before.clone(),
            correlation_id: self.correlation_id.clone(),
            page_size: self.page_size.clone(),
            page_token: self.page_token.clone(),
            job_id: self.job_id.clone(),
            kinds: self.kinds.clone(),
            after: self.after.clone(),
            before: self.before.clone(),
            history_page_size: self.history_page_size.clone(),
            history_page_token: self.history_page_token.clone(),
            output_path: self.output_path.clone(),
        }
    }
}

impl Default for JobsHistoryState {
    fn default() -> (r: Self)
        ensures
            r.log@.len() == 0,
            r.job_types@.len() == 0,
            r.states@.len() == 0,
            r.created_after@.len() == 0,
            r.created_before@.len() == 0,
            r.finished_after@.len() == 0,
            r.finished_before@.len() == 0,
            r.correlation_id@.len() == 0,
            r.page_size@ == "50"@,
            r.page_token@.len() == 0,
            r.job_id@.len() == 0,
            r.kinds@.len() == 0,
            r.after@.len() == 0,
            r.before@.len() == 0,
            r.history_page_size@ == "200"@,
            r.history_page_token@.len() == 0,
            r.output_path@.len() == 0,
    {
        JobsHistoryState {
            log: String::new(),
            job_types: String::new(),
            states: String::new(),
            created_after: String::new(),
            created_before: String::new(),
            finished_after: String::new(),
            finished_before: String::new(),
            correlation_id: String::new(),
            page_size: "50".to_owned(),
            page_token: String::new(),
            job_id: String::new(),
            kinds: String::new(),
            after: String::new(),
            before: String::new(),
            history_page_size: "200".to_owned(),
            history_page_token: String::new(),
            output_path: String::new(),
        }
    }
}

/// The evidence page.
#[derive(Debug)]
pub struct EvidenceState {
    pub log: String,
    pub use_job_id: bool,
    pub job_id: String,
    pub correlation_id: String,
    pub job_log_output_path: String,
    pub run_id: String,
    pub output_kind_index: u32,
    pub output_type: String,
    pub output_path: String,
    pub output_label: String,
    pub recent_limit: String,
    pub include_history: bool,
    pub include_logs: bool,
    pub include_config: bool,
    pub include_toolchain: bool,
    pub include_recent: bool,
}

impl Clone for EvidenceState {
    fn clone(&self) -> (r: Self)
        ensures
            r == *self,
    {
        EvidenceState {
            log: self.log.clone(),
            use_job_id: self.use_job_id,
            job_id: self.job_id.clone(),
            correlation_id: self.correlation_id.clone(),
            job_log_output_path: self.job_log_output_path.clone(),
            run_id: self.run_id.clone(),
            output_kind_index: self.output_kind_index,
            output_type: self.output_type.clone(),
            output_path: self.output_path.clone(),
            output_label: self.output_label.clone(),
            recent_limit: self.recent_limit.clone(),
            include_history: self.include_history,
            include_logs: self.include_logs,
            include_config: self.include_config,
            include_toolchain: self.include_toolchain,
            include_recent: self.include_recent,
        }
    }
}

impl Default for EvidenceState {
    fn default() -> (r: Self)
        ensures
            r.log@.len() == 0,
            !r.use_job_id,
            r.job_id@.len() == 0,
            r.correlation_id@.len() == 0,
            r.job_log_output_path@.len() == 0,
            r.run_id@.len() == 0,
            r.output_kind_index == 0,
            r.output_type@.len() == 0,
            r.output_path@.len() == 0,
            r.output_label@.len() == 0,
            r.recent_limit@ == "10"@,
            r.include_history,
            r.include_logs,
            r.include_config,
            r.include_toolchain,
            r.include_recent,
    {
        EvidenceState {
            log: String::new(),
            use_job_id: false,
            job_id: String::new(),
            correlation_id: String::new(),
            job_log_output_path: String::new(),
            run_id: String::new(),
            output_kind_index: 0,
            output_type: String::new(),
            output_path: String::new(),
            output_label: String::new(),
            recent_limit: "10".to_owned(),
            include_history: true,
            include_logs: true,
            include_config: true,
            include_toolchain: true,
            include_recent: true,
        }
    }
}

/// The settings page.
#[derive(Debug)]
pub struct SettingsState {
    pub log: String,
    pub exclude_downloads: bool,
    pub exclude_toolchains: bool,
    pub exclude_bundles: bool,
    pub exclude_telemetry: bool,
    pub save_path: String,
    pub open_path: String,
}

impl Clone for SettingsState {
    fn clone(&self) -> (r: Self)
        ensures
            r == *self,
    {
        SettingsState {
            log: self.log.clone(),
            exclude_downloads: self.exclude_downloads,
            exclude_toolchains: self.exclude_toolchains,
            exclude_bundles: self.exclude_bundles,
            exclude_telemetry: self.exclude_telemetry,
            save_path: self.save_path.clone(),
            open_path: self.open_path.clone(),
        }
    }
}

impl Default for SettingsState {
    fn default() -> (r: Self)
        ensures
            r.log@.len() == 0,
            !r.exclude_downloads,
            !r.exclude_toolchains,
            !r.exclude_bundles,
            !r.exclude_telemetry,
            r.save_path@.len() == 0,
            r.open_path@.len() == 0,
    {
        SettingsState {
            log: String::new(),
            exclude_downloads: false,
            exclude_toolchains: false,
            exclude_bundles: false,
            exclude_telemetry: false,
            save_path: String::new(),
            open_path: String::new(),
        }
    }
}

/// What the environment says of the default target.
#[derive(Debug)]
pub struct TargetsEnv {
    pub adb_serial: Option<String>,
    pub cuttlefish_branch: Option<String>,
    pub cuttlefish_target: Option<String>,
    pub cuttlefish_build_id: Option<String>,
}

fn env_or(value: &Option<String>, default: &str) -> (r: String)
    ensures
        r@ == addr_or(opt_text(*value), default@),
{
    match value {
        Some(v) => v.clone(),
        None => default.to_owned(),
    }
}

/// The targets page is as it is at first, under an environment.
pub open spec fn targets_at_first(s: TargetsState, env: TargetsEnv) -> bool {
    &&& s.log@.len() == 0
    &&& !s.use_job_id
    &&& s.job_id@.len() == 0
    &&& s.correlation_id@.len() == 0
    &&& s.cuttlefish_branch@ == addr_or(opt_text(env.cuttlefish_branch), ""@)
    &&& s.cuttlefish_target@ == addr_or(opt_text(env.cuttlefish_target), ""@)
    &&& s.cuttlefish_build_id@ == addr_or(opt_text(env.cuttlefish_build_id), ""@)
    &&& s.target_id@ == addr_or(opt_text(env.adb_serial), "127.0.0.1:6520"@)
    &&& s.apk_path@.len() == 0
    &&& s.application_id@.len() == 0
    &&& s.activity@ == ".MainActivity"@
}

impl TargetsState {
    /// The targets page as it is at first, under an environment.
    pub fn defaults(env: &TargetsEnv) -> (r: Self)
        ensures
            targets_at_first(r, *env),
    {
        TargetsState {
            log: String::new(),
            use_job_id: false,
            job_id: String::new(),
            correlation_id: String::new(),
            cuttlefish_branch: env_or(&env.cuttlefish_branch, ""),
            cuttlefish_target: env_or(&env.cuttlefish_target, ""),
            cuttlefish_build_id: env_or(&env.cuttlefish_build_id, ""),
            target_id: env_or(&env.adb_serial, "127.0.0.1:6520"),
            apk_path: String::new(),
            application_id: String::new(),
            activity: ".MainActivity".to_owned(),
        }
    }
}

/// All pages.
#[derive(Debug)]
pub struct UiState {
    pub home: HomeState,
    pub workflow: WorkflowState,
    pub toolchains: ToolchainsState,
    pub projects: ProjectsState,
    pub targets: TargetsState,
    pub build: BuildState,
    pub jobs: JobsHistoryState,
    pub evidence: EvidenceState,
    pub settings: SettingsState,
}

impl Clone for UiState {
    fn clone(&self) -> (r: Self)
        ensures
            r == *self,
    {
        UiState {
            home: self.home.clone(),
            workflow: self.workflow.clone(),
            toolchains: self.toolchains.clone(),
            projects: self.projects.clone(),
            targets: self.targets.clone(),
            build: self.build.clone(),
            jobs: self.jobs.clone(),
            evidence: self.evidence.clone(),
            settings: self.settings.clone(),
        }
    }
}

/// The end of a log, as far as it is kept.
pub open spec fn kept_log(text: Seq<char>) -> Seq<char> {
    if text.len() <= LOG_MAX_CHARS {
        text
    } else {
        text.skip(text.len() - LOG_MAX_CHARS)
    }
}

/// The end of a log, as far as it is kept.
pub fn trim_log(text: &str) -> (r: String)
    ensures
        r@ == kept_log(text@),
{
    let n: usize = text.unicode_len();
    if n <= LOG_MAX_CHARS {
        return text.to_owned();
    }
    let tail: &str = text.substring_char(n - LOG_MAX_CHARS, n);
    assert(tail@ =~= text@.skip(n - LOG_MAX_CHARS));
    tail.to_owned()
}

/// The logs of all pages, in the order of the pages.
pub open spec fn logs_of(s: UiState) -> Seq<Seq<char>> {
    seq![
        s.home.log@,
        s.workflow.log@,
        s.toolchains.log@,
        s.projects.log@,
        s.targets.log@,
        s.build.log@,
        s.jobs.log@,
        s.evidence.log@,
        s.settings.log@,
    ]
}

/// The place of a page's log; nothing for a name that is no page's.
pub open spec fn log_place(page: Seq<char>) -> Option<int> {
    if page == "home"@ {
        Some(0)
    } else if page == "workflow"@ {
        Some(1)
    } else if page == "toolchains"@ {
        Some(2)
    } else if page == "projects"@ {
        Some(3)
    } else if page == "targets"@ {
        Some(4)
    } else if page == "console"@ {
        Some(5)
    } else if page == "jobs"@ {
        Some(6)
    } else if page == "evidence"@ {
        Some(7)
    } else if page == "settings"@ {
        Some(8)
    } else {
        None
    }
}

/// The two differ in their logs at most.
pub open spec fn same_but_logs(a: UiState, b: UiState) -> bool {
    &&& a.home == (HomeState { log: a.home.log, ..b.home })
    &&& a.workflow == (WorkflowState { log: a.workflow.log, ..b.workflow })
    &&& a.toolchains == (ToolchainsState { log: a.toolchains.log, ..b.toolchains })
    &&& a.projects == (ProjectsState { log: a.projects.log, ..b.projects })
    &&& a.targets == (TargetsState { log: a.targets.log, ..b.targets })
    &&& a.build == (BuildState { log: a.build.log, ..b.build })
    &&& a.jobs == (JobsHistoryState { log: a.jobs.log, ..b.jobs })
    &&& a.evidence == (EvidenceState { log: a.evidence.log, ..b.evidence })
    &&& a.settings == (SettingsState { log: a.settings.log, ..b.settings })
}

/// The file in which the state of the pages is kept.
pub open spec fn state_path(home: Option<Seq<char>>) -> Seq<char> {
    joined_path(joined_path(data_dir_path(home), "state"@), "ui-state.json"@)
}

/// The file in which the state of the pages is kept, given what `HOME` holds.
pub fn ui_state_path(home: Option<&str>) -> (r: String)
    ensures
        r@ == state_path(opt_str(home)),
{
    let dir: String = join_path(data_dir(home).as_str(), "state");
    join_path(dir.as_str(), "ui-state.json")
}

/// The choice in a list of `count` items: `selected` where there is such an item, the first one
/// otherwise.
pub open spec fn chosen_item(selected: u32, count: u32) -> u32 {
    if selected < count {
        selected
    } else {
        0
    }
}

/// The choice in a list of `count` items.
pub fn dropdown_selection(selected: u32, count: u32) -> (r: u32)
    ensures
        r == chosen_item(selected, count),
{
    if selected < count {
        selected
    } else {
        0
    }
}

/// How many kinds of outputs there are to choose from.
pub const OUTPUT_KIND_COUNT: u32 = 3;

/// The state as it can be shown: a choice that is not there becomes the first one.
pub open spec fn showable(s: UiState, workflow_variants: u32, build_variants: u32) -> UiState {
    UiState {
        workflow: WorkflowState {
            build_variant_index: chosen_item(s.workflow.build_variant_index, workflow_variants),
            ..s.workflow
        },
        build: BuildState {
            variant_index: chosen_item(s.build.variant_index, build_variants),
            ..s.build
        },
        evidence: EvidenceState {
            output_kind_index: chosen_item(s.evidence.output_kind_index, OUTPUT_KIND_COUNT),
            ..s.evidence
        },
        ..s
    }
}

/// What was used last, or what is there where nothing was.
pub open spec fn last_or(last: String, usual: String) -> String {
    if last@.len() == 0 {
        usual
    } else {
        last
    }
}

fn take_last(last: &String, usual: String) -> (r: String)
    ensures
        r == last_or(*last, usual),
{
    if last.as_str().is_empty() {
        usual
    } else {
        last.clone()
    }
}

/// The page that starts jobs, with the type, the parameters and the ids of the last one.
pub open spec fn home_with_last(s: HomeState, cfg: AppConfig) -> HomeState {
    HomeState {
        job_type: last_or(cfg.last_job_type, s.job_type),
        job_params: last_or(cfg.last_job_params, s.job_params),
        project_id: last_or(cfg.last_job_project_id, s.project_id),
        target_id: last_or(cfg.last_job_target_id, s.target_id),
        toolchain_set_id: last_or(cfg.last_job_toolchain_set_id, s.toolchain_set_id),
        correlation_id: last_or(cfg.last_correlation_id, s.correlation_id),
        watch_job_id: last_or(cfg.last_job_id, s.watch_job_id),
        ..s
    }
}

fn fill_home(s: HomeState, cfg: &AppConfig) -> (r: HomeState)
    ensures
        r == home_with_last(s, *cfg),
{
    HomeState {
        job_type: take_last(&cfg.last_job_type, s.job_type),
        job_params: take_last(&cfg.last_job_params, s.job_params),
        project_id: take_last(&cfg.last_job_project_id, s.project_id),
        target_id: take_last(&cfg.last_job_target_id, s.target_id),
        toolchain_set_id: take_last(&cfg.last_job_toolchain_set_id, s.toolchain_set_id),
        correlation_id: take_last(&cfg.last_correlation_id, s.correlation_id),
        watch_job_id: take_last(&cfg.last_job_id, s.watch_job_id),
        ..s
    }
}

/// The workflow page, with the id and the correlation id of the last job.
pub open spec fn workflow_with_last(s: WorkflowState, cfg: AppConfig) -> WorkflowState {
    WorkflowState {
        job_id: last_or(cfg.last_job_id, s.job_id),
        correlation_id: last_or(cfg.last_correlation_id, s.correlation_id),
        ..s
    }
}

fn fill_workflow(s: WorkflowState, cfg: &AppConfig) -> (r: WorkflowState)
    ensures
        r == workflow_with_last(s, *cfg),
{
    WorkflowState {
        job_id: take_last(&cfg.last_job_id, s.job_id),
        correlation_id: take_last(&cfg.last_correlation_id, s.correlation_id),
        ..s
    }
}

/// The toolchains page, with the id and the correlation id of the last job.
pub open spec fn toolchains_with_last(s: ToolchainsState, cfg: AppConfig) -> ToolchainsState {
    ToolchainsState {
        job_id: last_or(cfg.last_job_id, s.job_id),
        correlation_id: last_or(cfg.last_correlation_id, s.correlation_id),
        ..s
    }
}

fn fill_toolchains(s: ToolchainsState, cfg: &AppConfig) -> (r: ToolchainsState)
    ensures
        r == toolchains_with_last(s, *cfg),
{
    ToolchainsState {
        job_id: take_last(&cfg.last_job_id, s.job_id),
        correlation_id: take_last(&cfg.last_correlation_id, s.correlation_id),
        ..s
    }
}

/// The projects page, with the id and the correlation id of the last job.
pub open spec fn projects_with_last(s: ProjectsState, cfg: AppConfig) -> ProjectsState {
    ProjectsState {
        job_id: last_or(cfg.last_job_id, s.job_id),
        correlation_id: last_or(cfg.last_correlation_id, s.correlation_id),
        ..s
    }
}

fn fill_projects(s: ProjectsState, cfg: &AppConfig) -> (r: ProjectsState)
    ensures
        r == projects_with_last(s, *cfg),
{
    ProjectsState {
        job_id: take_last(&cfg.last_job_id, s.job_id),
        correlation_id: take_last(&cfg.last_correlation_id, s.correlation_id),
        ..s
    }
}

/// The targets page, with the id and the correlation id of the last job.
pub open spec fn targets_with_last(s: TargetsState, cfg: AppConfig) -> TargetsState {
    TargetsState {
        job_id: last_or(cfg.last_job_id, s.job_id),
        correlation_id: last_or(cfg.last_correlation_id, s.correlation_id),
        ..s
    }
}

fn fill_targets(s: TargetsState, cfg: &AppConfig) -> (r: TargetsState)
    ensures
        r == targets_with_last(s, *cfg),
{
    TargetsState {
        job_id: take_last(&cfg.last_job_id, s.job_id),
        correlation_id: take_last(&cfg.last_correlation_id, s.correlation_id),
        ..s
    }
}

/// The build page, with the id and the correlation id of the last job.
pub open spec fn build_with_last(s: BuildState, cfg: AppConfig) -> BuildState {
    BuildState {
        job_id: last_or(cfg.last_job_id, s.job_id),
        correlation_id: last_or(cfg.last_correlation_id, s.correlation_id),
        ..s
    }
}

fn fill_build(s: BuildState, cfg: &AppConfig) -> (r: BuildState)
    ensures
        r == build_with_last(s, *cfg),
{
    BuildState {
        job_id: take_last(&cfg.last_job_id, s.job_id),
        correlation_id: take_last(&cfg.last_correlation_id, s.correlation_id),
        ..s
    }
}

/// The page that lists jobs, with the type and the ids of the last one.
pub open spec fn jobs_with_last(s: JobsHistoryState, cfg: AppConfig) -> JobsHistoryState {
    JobsHistoryState {
        job_types: last_or(cfg.last_job_type, s.job_types),
        correlation_id: last_or(cfg.last_correlation_id, s.correlation_id),
        job_id: last_or(cfg.last_job_id, s.job_id),
        ..s
    }
}

fn fill_jobs(s: JobsHistoryState, cfg: &AppConfig) -> (r: JobsHistoryState)
    ensures
        r == jobs_with_last(s, *cfg),
{
    JobsHistoryState {
        job_types: take_last(&cfg.last_job_type, s.job_types),
        correlation_id: take_last(&cfg.last_correlation_id, s.correlation_id),
        job_id: take_last(&cfg.last_job_id, s.job_id),
        ..s
    }
}

/// The evidence page, with the id and the correlation id of the last job.
pub open spec fn evidence_with_last(s: EvidenceState, cfg: AppConfig) -> EvidenceState {
    EvidenceState {
        job_id: last_or(cfg.last_job_id, s.job_id),
        correlation_id: last_or(cfg.last_correlation_id, s.correlation_id),
        ..s
    }
}

fn fill_evidence(s: EvidenceState, cfg: &AppConfig) -> (r: EvidenceState)
    ensures
        r == evidence_with_last(s, *cfg),
{
    EvidenceState {
        job_id: take_last(&cfg.last_job_id, s.job_id),
        correlation_id: take_last(&cfg.last_correlation_id, s.correlation_id),
        ..s
    }
}

/// The state with what the configuration remembers of the last job on every page that has to do with
/// jobs.
pub open spec fn with_last_used(s: UiState, cfg: AppConfig) -> UiState {
    UiState {
        home: home_with_last(s.home, cfg),
        workflow: workflow_with_last(s.workflow, cfg),
        toolchains: toolchains_with_last(s.toolchains, cfg),
        projects: projects_with_last(s.projects, cfg),
        targets: targets_with_last(s.targets, cfg),
        build: build_with_last(s.build, cfg),
        jobs: jobs_with_last(s.jobs, cfg),
        evidence: evidence_with_last(s.evidence, cfg),
        ..s
    }
}

fn appended(log: &String, line: &str) -> (r: String)
    ensures
        r@ == kept_log(log@ + line@),
{
    let mut text: String = log.clone();
    text.append(line);
    trim_log(text.as_str())
}

impl UiState {
    /// All pages as they are at first, under an environment.
    pub fn defaults(env: &TargetsEnv) -> (r: Self)
        ensures
            call_ensures(HomeState::default, (), r.home),
            call_ensures(WorkflowState::default, (), r.workflow),
            call_ensures(ToolchainsState::default, (), r.toolchains),
            call_ensures(ProjectsState::default, (), r.projects),
            targets_at_first(r.targets, *env),
            call_ensures(BuildState::default, (), r.build),
            call_ensures(JobsHistoryState::default, (), r.jobs),
            call_ensures(EvidenceState::default, (), r.evidence),
            call_ensures(SettingsState::default, (), r.settings),
    {
        UiState {
            home: HomeState::default(),
            workflow: WorkflowState::default(),
            toolchains: ToolchainsState::default(),
            projects: ProjectsState::default(),
            targets: TargetsState::defaults(env),
            build: BuildState::default(),
            jobs: JobsHistoryState::default(),
            evidence: EvidenceState::default(),
            settings: SettingsState::default(),
        }
    }

    /// What was read from the file, or else the pages as they are at first; with whether it was
    /// read.
    pub fn load_with_status(file: Option<UiState>, env: &TargetsEnv) -> (r: (Self, bool))
        ensures
            r.1 == file is Some,
            match file {
                Some(state) => r.0 == state,
                None => call_ensures(UiState::defaults, (env,), r.0),
            },
    {
        match file {
            Some(state) => (state, true),
            None => (UiState::defaults(env), false),
        }
    }

    /// What is written to the file: the state with the kept ends of its logs.
    pub fn saved(&self) -> (r: Self)
        ensures
            same_but_logs(r, *self),
            logs_of(r) =~= Seq::new(9, |i: int| kept_log(logs_of(*self)[i])),
    {
        let mut s: UiState = self.clone();
        s.home.log = trim_log(self.home.log.as_str());
        s.workflow.log = trim_log(self.workflow.log.as_str());
        s.toolchains.log = trim_log(self.toolchains.log.as_str());
        s.projects.log = trim_log(self.projects.log.as_str());
        s.targets.log = trim_log(self.targets.log.as_str());
        s.build.log = trim_log(self.build.log.as_str());
        s.jobs.log = trim_log(self.jobs.log.as_str());
        s.evidence.log = trim_log(self.evidence.log.as_str());
        s.settings.log = trim_log(self.settings.log.as_str());
        s
    }

    /// Adds a line to a page's log, of which the end is kept; nothing happens for a name that is no
    /// page's.
    pub fn append_log(&mut self, page: &str, line: &str)
        ensures
            same_but_logs(*final(self), *old(self)),
            logs_of(*final(self)) =~= match log_place(page@) {
                Some(i) => logs_of(*old(self)).update(i, kept_log(logs_of(*old(self))[i] + line@)),
                None => logs_of(*old(self)),
            },
    {
        if text_eq(page, "home") {
            self.home.log = appended(&self.home.log, line);
        } else if text_eq(page, "workflow") {
            self.workflow.log = appended(&self.workflow.log, line);
        } else if text_eq(page, "toolchains") {
            self.toolchains.log = appended(&self.toolchains.log, line);
        } else if text_eq(page, "projects") {
            self.projects.log = appended(&self.projects.log, line);
        } else if text_eq(page, "targets") {
            self.targets.log = appended(&self.targets.log, line);
        } else if text_eq(page, "console") {
            self.build.log = appended(&self.build.log, line);
        } else if text_eq(page, "jobs") {
            self.jobs.log = appended(&self.jobs.log, line);
        } else if text_eq(page, "evidence") {
            self.evidence.log = appended(&self.evidence.log, line);
        } else if text_eq(page, "settings") {
            self.settings.log = appended(&self.settings.log, line);
        }
    }

    /// The state as it can be shown, with so many build variants to choose from on the workflow and
    /// the build page.
    pub fn shown(&self, workflow_variants: u32, build_variants: u32) -> (r: Self)
        ensures
            r == showable(*self, workflow_variants, build_variants),
    {
        let mut s: UiState = self.clone();
        s.workflow.build_variant_index =
        dropdown_selection(s.workflow.build_variant_index, workflow_variants);
        s.build.variant_index = dropdown_selection(s.build.variant_index, build_variants);
        s.evidence.output_kind_index =
        dropdown_selection(s.evidence.output_kind_index, OUTPUT_KIND_COUNT);
        s
    }

    /// The state with what the configuration remembers of the last job filled in.
    pub fn with_last_job(self, cfg: &AppConfig) -> (r: Self)
        ensures
            r == with_last_used(self, *cfg),
    {
        UiState {
            home: fill_home(self.home, cfg),
            workflow: fill_workflow(self.workflow, cfg),
            toolchains: fill_toolchains(self.toolchains, cfg),
            projects: fill_projects(self.projects, cfg),
            targets: fill_targets(self.targets, cfg),
            build: fill_build(self.build, cfg),
            jobs: fill_jobs(self.jobs, cfg),
            evidence: fill_evidence(self.evidence, cfg),
            settings: self.settings,
        }
    }

    /// Takes over what the pages show; the logs stay.
    pub fn capture(&mut self, screen: UiState)
        ensures
            same_but_logs(*final(self), screen),
            final(self).home.log == old(self).home.log,
            final(self).workflow.log == old(self).workflow.log,
            final(self).toolchains.log == old(self).toolchains.log,
            final(self).projects.log == old(self).projects.log,
            final(self).targets.log == old(self).targets.log,
            final(self).build.log == old(self).build.log,
            final(self).jobs.log == old(self).jobs.log,
            final(self).evidence.log == old(self).evidence.log,
            final(self).settings.log == old(self).settings.log,
    {
        *self = UiState {
            home: HomeState { log: self.home.log.clone(), ..screen.home },
            workflow: WorkflowState { log: self.workflow.log.clone(), ..screen.workflow },
            toolchains: ToolchainsState { log: self.toolchains.log.clone(), ..screen.toolchains },
            projects: ProjectsState { log: self.projects.log.clone(), ..screen.projects },
            targets: TargetsState { log: self.targets.log.clone(), ..screen.targets },
            build: BuildState { log: self.build.log.clone(), ..screen.build },
            jobs: JobsHistoryState { log: self.jobs.log.clone(), ..screen.jobs },
            evidence: EvidenceState { log: self.evidence.log.clone(), ..screen.evidence },
            settings: SettingsState { log: self.settings.log.clone(), ..screen.settings },
        };
    }
}

/// What is kept of a log is its end and has at most the kept length; keeping it again changes
/// nothing.
pub proof fn law_kept_log(text: Seq<char>)
    ensures
        kept_log(text).len() <= LOG_MAX_CHARS,
        kept_log(text).is_suffix_of(text),
        kept_log(kept_log(text)) == kept_log(text),
{
    assert(text.skip(0) =~= text);
}

/// Adding two lines one after the other keeps the same as adding both at once.
pub proof fn law_kept_log_in_pieces(log: Seq<char>, a: Seq<char>, b: Seq<char>)
    ensures
        kept_log(kept_log(log + a) + b) == kept_log(log + a + b),
{
    let whole = log + a + b;
    let parts = kept_log(log + a) + b;
    assert(parts =~= whole.skip(whole.len() - parts.len()));
    assert(kept_log(parts) =~= kept_log(whole));
}

/// A state that is saved and loaded again is the same but for the old beginnings of logs that were too
/// long; where no log was, nothing is lost.
pub proof fn law_saved_state_is_loaded(state: UiState, saved: UiState, r: UiState)
    requires
        same_but_logs(saved, state),
        logs_of(saved) == Seq::new(9, |i: int| kept_log(logs_of(state)[i])),
        r == saved,
    ensures
        same_but_logs(r, state),
        forall|i: int|
            0 <= i < 9 ==> (#[trigger] logs_of(r)[i]).is_suffix_of(logs_of(state)[i]),
        (forall|i: int| 0 <= i < 9 ==> (#[trigger] logs_of(state)[i]).len() <= LOG_MAX_CHARS)
            ==> logs_of(r) == logs_of(state),
{
    assert forall|i: int| 0 <= i < 9 implies (#[trigger] logs_of(r)[i]).is_suffix_of(
        logs_of(state)[i],
    ) by {
        law_kept_log(logs_of(state)[i]);
        assert(logs_of(r)[i] == kept_log(logs_of(state)[i]));
    }
    if forall|i: int| 0 <= i < 9 ==> (#[trigger] logs_of(state)[i]).len() <= LOG_MAX_CHARS {
        assert(logs_of(r) =~= logs_of(state));
    }
}

/// What can be shown is shown as it is.
pub proof fn law_showable_twice(s: UiState, w: u32, b: u32)
    ensures
        showable(showable(s, w, b), w, b) == showable(s, w, b),
{
}

proof fn lemma_showable_as_it_is(s: UiState, w: u32, b: u32)
    requires
        s.workflow.build_variant_index < w,
        s.build.variant_index < b,
        s.evidence.output_kind_index < OUTPUT_KIND_COUNT,
    ensures
        showable(s, w, b) == s,
{
}

/// A state whose choices are all there is shown as it is, so that taking over what the pages show
/// gives it back.
pub proof fn law_show_then_capture(before: UiState, after: UiState, w: u32, b: u32)
    requires
        before.workflow.build_variant_index < w,
        before.build.variant_index < b,
        before.evidence.output_kind_index < OUTPUT_KIND_COUNT,
        same_but_logs(after, showable(before, w, b)),
    ensures
        same_but_logs(after, before),
{
    lemma_showable_as_it_is(before, w, b);
}

/// A line for a page goes to the end of the log of that page, and to no other.
pub proof fn law_lines_go_to_their_page(
    before: UiState,
    after: UiState,
    page: Seq<char>,
    line: Seq<char>,
)
    requires
        logs_of(after) == match log_place(page) {
            Some(i) => logs_of(before).update(i, kept_log(logs_of(before)[i] + line)),
            None => logs_of(before),
        },
    ensures
        ({
            &&& after.home.log@ == if page == "home"@ {
                kept_log(before.home.log@ + line)
            } else {
                before.home.log@
            }
            &&& after.workflow.log@ == if page == "workflow"@ {
                kept_log(before.workflow.log@ + line)
            } else {
                before.workflow.log@
            }
            &&& after.toolchains.log@ == if page == "toolchains"@ {
                kept_log(before.toolchains.log@ + line)
            } else {
                before.toolchains.log@
            }
            &&& after.projects.log@ == if page == "projects"@ {
                kept_log(before.projects.log@ + line)
            } else {
                before.projects.log@
            }
            &&& after.targets.log@ == if page == "targets"@ {
                kept_log(before.targets.log@ + line)
            } else {
                before.targets.log@
            }
            &&& after.build.log@ == if page == "console"@ {
                kept_log(before.build.log@ + line)
            } else {
                before.build.log@
            }
            &&& after.jobs.log@ == if page == "jobs"@ {
                kept_log(before.jobs.log@ + line)
            } else {
                before.jobs.log@
            }
            &&& after.evidence.log@ == if page == "evidence"@ {
                kept_log(before.evidence.log@ + line)
            } else {
                before.evidence.log@
            }
            &&& after.settings.log@ == if page == "settings"@ {
                kept_log(before.settings.log@ + line)
            } else {
                before.settings.log@
            }
        }),
{
    reveal_strlit("home");
    reveal_strlit("workflow");
    reveal_strlit("toolchains");
    reveal_strlit("projects");
    reveal_strlit("targets");
    reveal_strlit("console");
    reveal_strlit("jobs");
    reveal_strlit("evidence");
    reveal_strlit("settings");
    assert("home"@.len() == 4 && "home"@[0] == 'h' && "workflow"@.len() == 8 && "workflow"@[0] == 'w' && "toolchains"@.len() == 10 && "toolchains"@[0] == 't' && "projects"@.len() == 8 && "projects"@[0] == 'p' && "targets"@.len() == 7 && "targets"@[0] == 't' && "console"@.len() == 7 && "console"@[0] == 'c' && "jobs"@.len() == 4 && "jobs"@[0] == 'j' && "evidence"@.len() == 8 && "evidence"@[0] == 'e' && "settings"@.len() == 8 && "settings"@[0] == 's');
    assert(logs_of(after)[0] == after.home.log@ && logs_of(before)[0] == before.home.log@);
    assert(logs_of(after)[1] == after.workflow.log@ && logs_of(before)[1] == before.workflow.log@);
    assert(logs_of(after)[2] == after.toolchains.log@ && logs_of(before)[2] == before.toolchains.log@);
    assert(logs_of(after)[3] == after.projects.log@ && logs_of(before)[3] == before.projects.log@);
    assert(logs_of(after)[4] == after.targets.log@ && logs_of(before)[4] == before.targets.log@);
    assert(logs_of(after)[5] == after.build.log@ && logs_of(before)[5] == before.build.log@);
    assert(logs_of(after)[6] == after.jobs.log@ && logs_of(before)[6] == before.jobs.log@);
    assert(logs_of(after)[7] == after.evidence.log@ && logs_of(before)[7] == before.evidence.log@);
    assert(logs_of(after)[8] == after.settings.log@ && logs_of(before)[8] == before.settings.log@);
}

/// A log that is not too long is kept whole; of a longer one the last two hundred thousand characters
/// are kept.
pub proof fn law_what_is_kept_of_a_log(text: Seq<char>)
    ensures
        text.len() <= 200_000 ==> kept_log(text) == text,
        text.len() > 200_000 ==> kept_log(text).len() == 200_000 && kept_log(text).is_suffix_of(
            text,
        ),
{
    law_kept_log(text);
}

/// What was used last is shown in the fields of the same name, where anything was; all else is shown as
/// the pages show it at first.
pub proof fn law_last_used_is_shown(s: UiState, cfg: AppConfig)
    ensures
        ({
            let r = with_last_used(s, cfg);
            &&& cfg.last_job_type@.len() > 0 ==> r.home.job_type == cfg.last_job_type
            &&& cfg.last_job_type@.len() == 0 ==> r.home.job_type == s.home.job_type
            &&& cfg.last_job_params@.len() > 0 ==> r.home.job_params == cfg.last_job_params
            &&& cfg.last_job_params@.len() == 0 ==> r.home.job_params == s.home.job_params
            &&& cfg.last_job_project_id@.len() > 0 ==> r.home.project_id == cfg.last_job_project_id
            &&& cfg.last_job_project_id@.len() == 0 ==> r.home.project_id == s.home.project_id
            &&& cfg.last_job_target_id@.len() > 0 ==> r.home.target_id == cfg.last_job_target_id
            &&& cfg.last_job_target_id@.len() == 0 ==> r.home.target_id == s.home.target_id
            &&& cfg.last_job_toolchain_set_id@.len() > 0 ==> r.home.toolchain_set_id == cfg.last_job_toolchain_set_id
            &&& cfg.last_job_toolchain_set_id@.len() == 0 ==> r.home.toolchain_set_id == s.home.toolchain_set_id
            &&& cfg.last_correlation_id@.len() > 0 ==> r.home.correlation_id == cfg.last_correlation_id
            &&& cfg.last_correlation_id@.len() == 0 ==> r.home.correlation_id == s.home.correlation_id
            &&& cfg.last_job_id@.len() > 0 ==> r.home.watch_job_id == cfg.last_job_id
            &&& cfg.last_job_id@.len() == 0 ==> r.home.watch_job_id == s.home.watch_job_id
            &&& cfg.last_job_id@.len() > 0 ==> r.workflow.job_id == cfg.last_job_id
            &&& cfg.last_job_id@.len() == 0 ==> r.workflow.job_id == s.workflow.job_id
            &&& cfg.last_correlation_id@.len() > 0 ==> r.workflow.correlation_id == cfg.last_correlation_id
            &&& cfg.last_correlation_id@.len() == 0 ==> r.workflow.correlation_id == s.workflow.correlation_id
            &&& cfg.last_job_id@.len() > 0 ==> r.toolchains.job_id == cfg.last_job_id
            &&& cfg.last_job_id@.len() == 0 ==> r.toolchains.job_id == s.toolchains.job_id
            &&& cfg.last_correlation_id@.len() > 0 ==> r.toolchains.correlation_id == cfg.last_correlation_id
            &&& cfg.last_correlation_id@.len() == 0 ==> r.toolchains.correlation_id == s.toolchains.correlation_id
            &&& cfg.last_job_id@.len() > 0 ==> r.projects.job_id == cfg.last_job_id
            &&& cfg.last_job_id@.len() == 0 ==> r.projects.job_id == s.projects.job_id
            &&& cfg.last_correlation_id@.len() > 0 ==> r.projects.correlation_id == cfg.last_correlation_id
            &&& cfg.last_correlation_id@.len() == 0 ==> r.projects.correlation_id == s.projects.correlation_id
            &&& cfg.last_job_id@.len() > 0 ==> r.targets.job_id == cfg.last_job_id
            &&& cfg.last_job_id@.len() == 0 ==> r.targets.job_id == s.targets.job_id
            &&& cfg.last_correlation_id@.len() > 0 ==> r.targets.correlation_id == cfg.last_correlation_id
            &&& cfg.last_correlation_id@.len() == 0 ==> r.targets.correlation_id == s.targets.correlation_id
            &&& cfg.last_job_id@.len() > 0 ==> r.build.job_id == cfg.last_job_id
            &&& cfg.last_job_id@.len() == 0 ==> r.build.job_id == s.build.job_id
            &&& cfg.last_correlation_id@.len() > 0 ==> r.build.correlation_id == cfg.last_correlation_id
            &&& cfg.last_correlation_id@.len() == 0 ==> r.build.correlation_id == s.build.correlation_id
            &&& cfg.last_job_id@.len() > 0 ==> r.jobs.job_id == cfg.last_job_id
            &&& cfg.last_job_id@.len() == 0 ==> r.jobs.job_id == s.jobs.job_id
            &&& cfg.last_correlation_id@.len() > 0 ==> r.jobs.correlation_id == cfg.last_correlation_id
            &&& cfg.last_correlation_id@.len() == 0 ==> r.jobs.correlation_id == s.jobs.correlation_id
            &&& cfg.last_job_id@.len() > 0 ==> r.evidence.job_id == cfg.last_job_id
            &&& cfg.last_job_id@.len() == 0 ==> r.evidence.job_id == s.evidence.job_id
            &&& cfg.last_correlation_id@.len() > 0 ==> r.evidence.correlation_id == cfg.last_correlation_id
            &&& cfg.last_correlation_id@.len() == 0 ==> r.evidence.correlation_id == s.evidence.correlation_id
            &&& cfg.last_job_type@.len() > 0 ==> r.jobs.job_types == cfg.last_job_type
            &&& cfg.last_job_type@.len() == 0 ==> r.jobs.job_types == s.jobs.job_types
            &&& r.settings == s.settings
            &&& r.home.log == s.home.log
            &&& r.workflow == (WorkflowState {
                job_id: r.workflow.job_id,
                correlation_id: r.workflow.correlation_id,
                ..s.workflow
            })
            &&& r.toolchains == (ToolchainsState {
                job_id: r.toolchains.job_id,
                correlation_id: r.toolchains.correlation_id,
                ..s.toolchains
            })
            &&& r.projects == (ProjectsState {
                job_id: r.projects.job_id,
                correlation_id: r.projects.correlation_id,
                ..s.projects
            })
            &&& r.targets == (TargetsState {
                job_id: r.targets.job_id,
                correlation_id: r.targets.correlation_id,
                ..s.targets
            })
            &&& r.build == (BuildState {
                job_id: r.build.job_id,
                correlation_id: r.build.correlation_id,
                ..s.build
            })
            &&& r.evidence == (EvidenceState {
                job_id: r.evidence.job_id,
                correlation_id: r.evidence.correlation_id,
                ..s.evidence
            })
            &&& r.jobs == (JobsHistoryState {
                job_types: r.jobs.job_types,
                job_id: r.jobs.job_id,
                correlation_id: r.jobs.correlation_id,
                ..s.jobs
            })
        }),
{
}

/// A choice that is not among those offered falls back to the first; all else is shown as it is.
pub proof fn law_what_is_showable(s: UiState, workflow_variants: u32, build_variants: u32)
    ensures
        ({
            let r = showable(s, workflow_variants, build_variants);
            &&& s.workflow.build_variant_index < workflow_variants ==> r.workflow == s.workflow
            &&& s.workflow.build_variant_index >= workflow_variants ==> r.workflow == (
            WorkflowState { build_variant_index: 0, ..s.workflow })
            &&& s.build.variant_index < build_variants ==> r.build == s.build
            &&& s.build.variant_index >= build_variants ==> r.build == (BuildState {
                variant_index: 0,
                ..s.build
            })
            &&& s.evidence.output_kind_index < 3 ==> r.evidence == s.evidence
            &&& s.evidence.output_kind_index >= 3 ==> r.evidence == (EvidenceState {
                output_kind_index: 0,
                ..s.evidence
            })
            &&& r.home == s.home && r.toolchains == s.toolchains && r.projects == s.projects
                && r.targets == s.targets && r.jobs == s.jobs && r.settings == s.settings
        }),
{
}

/// At first the targets page shows what the environment names, each in its field, and the local
/// device where it names none; nothing else but the usual activity.
pub proof fn law_targets_at_first(s: TargetsState, env: TargetsEnv)
    requires
        targets_at_first(s, env),
    ensures
        env.cuttlefish_branch matches Some(v) ==> s.cuttlefish_branch@ == v@,
        env.cuttlefish_branch is None ==> s.cuttlefish_branch@ == ""@,
        env.cuttlefish_target matches Some(v) ==> s.cuttlefish_target@ == v@,
        env.cuttlefish_target is None ==> s.cuttlefish_target@ == ""@,
        env.cuttlefish_build_id matches Some(v) ==> s.cuttlefish_build_id@ == v@,
        env.cuttlefish_build_id is None ==> s.cuttlefish_build_id@ == ""@,
        env.adb_serial matches Some(v) ==> s.target_id@ == v@,
        env.adb_serial is None ==> s.target_id@ == "127.0.0.1:6520"@,
        s.activity@ == ".MainActivity"@,
        s.log@.len() == 0 && s.job_id@.len() == 0 && s.correlation_id@.len() == 0,
        s.apk_path@.len() == 0 && s.application_id@.len() == 0 && !s.use_job_id,
{
}

/// What the pages show is kept with the state, under its own name.
pub proof fn law_state_path(home: Option<Seq<char>>)
    ensures
        state_dir_path(home).is_prefix_of(state_path(home)),
        last_name(state_path(home)) == Some("ui-state.json"@),
{
    reveal_strlit("ui-state.json");
    reveal_strlit(".");
    reveal_strlit("..");
    assert(!"ui-state.json"@.contains('/'));
    law_joined_path(state_dir_path(home), "ui-state.json"@);
    law_last_name(state_dir_path(home), "ui-state.json"@);
}

} // verus!
