//! What the interface asks of the worker, and what the worker tells the interface.

use crate::config::AppConfig;
use crate::context::{ProjectTemplateOption, TargetOption, ToolchainSetOption};
use crate::model::{ArtifactType, BuildVariant, KeyValue, RunOutputKind, ToolchainKind};
use crate::pipeline::messages::PipelineOptions;
use crate::text::{opt_text, texts};
use vstd::prelude::*;
use vstd::string::*;

verus! {

/// Which artifacts are listed.
#[derive(Debug)]
pub struct ArtifactFilter {
    pub modules: Vec<String>,
    pub variant: String,
    pub types: Vec<ArtifactType>,
    pub name_contains: String,
    pub path_contains: String,
}

/// What is left out of a state archive.
#[derive(Clone, Copy, Debug, PartialEq, Eq, Structural)]
pub struct StateArchiveOptions {
    pub exclude_downloads: bool,
    pub exclude_toolchains: bool,
    pub exclude_bundles: bool,
    pub exclude_telemetry: bool,
}

/// What the interface asks of the worker.
#[allow(inconsistent_fields)]
#[derive(Debug)]
pub enum UiCommand {
    HomeStartJob {
        cfg: AppConfig,
        job_type: String,
        params_raw: String,
        project_id: String,
        target_id: String,
        toolchain_set_id: String,
        correlation_id: String,
    },
    HomeWatchJob { cfg: AppConfig, job_id: String },
    HomeCancelCurrent { cfg: AppConfig },
    JobsList {
        cfg: AppConfig,
        job_types: String,
        states: String,
        created_after: String,
        created_before: String,
        finished_after: String,
        finished_before: String,
        correlation_id: String,
        run_id: String,
        page_size: u32,
        page_token: String,
        page: &'static str,
    },
    JobsHistory {
        cfg: AppConfig,
        job_id: String,
        kinds: String,
        after: String,
        before: String,
        page_size: u32,
        page_token: String,
    },
    JobsExportLogs { cfg: AppConfig, job_id: String, output_path: String, page: &'static str },
    ToolchainListProviders { cfg: AppConfig },
    ToolchainListAvailable { cfg: AppConfig, provider_id: String },
    ToolchainInstall {
        cfg: AppConfig,
        provider_id: String,
        version: String,
        verify: bool,
        job_id: Option<String>,
        correlation_id: String,
    },
    ToolchainUpdate {
        cfg: AppConfig,
        toolchain_id: String,
        version: String,
        verify: bool,
        remove_cached: bool,
        job_id: Option<String>,
        correlation_id: String,
    },
    ToolchainUninstall {
        cfg: AppConfig,
        toolchain_id: String,
        remove_cached: bool,
        force: bool,
        job_id: Option<String>,
        correlation_id: String,
    },
    ToolchainCleanupCache {
        cfg: AppConfig,
        dry_run: bool,
        remove_all: bool,
        job_id: Option<String>,
        correlation_id: String,
    },
    ToolchainListInstalled { cfg: AppConfig, kind: ToolchainKind },
    ToolchainListSets { cfg: AppConfig },
    ToolchainVerifyInstalled { cfg: AppConfig, job_id: Option<String>, correlation_id: String },
    ToolchainCreateSet {
        cfg: AppConfig,
        sdk_toolchain_id: Option<String>,
        ndk_toolchain_id: Option<String>,
        display_name: String,
    },
    ToolchainCreateActiveLatest { cfg: AppConfig, display_name: String },
    ToolchainSetActive { cfg: AppConfig, toolchain_set_id: String },
    ToolchainGetActive { cfg: AppConfig },
    ProjectListTemplates { cfg: AppConfig },
    ProjectListRecent { cfg: AppConfig },
    ProjectLoadDefaults { cfg: AppConfig },
    ProjectCreate {
        cfg: AppConfig,
        name: String,
        path: String,
        template_id: String,
        job_id: Option<String>,
        correlation_id: String,
    },
    ProjectOpen { cfg: AppConfig, path: String },
    ProjectSetConfig {
        cfg: AppConfig,
        project_id: String,
        toolchain_set_id: Option<String>,
        default_target_id: Option<String>,
    },
    ProjectUseActiveDefaults { cfg: AppConfig, project_id: String },
    TargetsList { cfg: AppConfig },
    TargetsSetDefault { cfg: AppConfig, target_id: String },
    TargetsGetDefault { cfg: AppConfig },
    TargetsInstallCuttlefish {
        cfg: AppConfig,
        force: bool,
        branch: String,
        target: String,
        build_id: String,
        job_id: Option<String>,
        correlation_id: String,
    },
    TargetsResolveCuttlefishBuild {
        cfg: AppConfig,
        branch: String,
        target: String,
        build_id: String,
    },
    TargetsStartCuttlefish {
        cfg: AppConfig,
        show_full_ui: bool,
        job_id: Option<String>,
        correlation_id: String,
    },
    TargetsStopCuttlefish { cfg: AppConfig, job_id: Option<String>, correlation_id: String },
    TargetsCuttlefishStatus { cfg: AppConfig },
    TargetsInstallApk {
        cfg: AppConfig,
        target_id: String,
        apk_path: String,
        job_id: Option<String>,
        correlation_id: String,
    },
    TargetsLaunchApp {
        cfg: AppConfig,
        target_id: String,
        apk_path: String,
        application_id: String,
        activity: String,
        job_id: Option<String>,
        correlation_id: String,
    },
    TargetsStreamLogcat { cfg: AppConfig, target_id: String, filter: String },
    ObserveListRuns {
        cfg: AppConfig,
        run_id: String,
        correlation_id: String,
        result: String,
        page_size: u32,
        page_token: String,
        page: &'static str,
    },
    ObserveListOutputs {
        cfg: AppConfig,
        run_id: String,
        kind: RunOutputKind,
        output_type: String,
        path_contains: String,
        label_contains: String,
        page_size: u32,
        page_token: String,
        page: &'static str,
    },
    ObserveExportSupport {
        cfg: AppConfig,
        include_logs: bool,
        include_config: bool,
        include_toolchain_provenance: bool,
        include_recent_runs: bool,
        recent_runs_limit: u32,
        job_id: Option<String>,
        correlation_id: String,
        page: &'static str,
    },
    ObserveExportEvidence {
        cfg: AppConfig,
        run_id: String,
        job_id: Option<String>,
        correlation_id: String,
        page: &'static str,
    },
    StreamRunEvents {
        cfg: AppConfig,
        run_id: String,
        correlation_id: String,
        include_history: bool,
        page: &'static str,
    },
    WorkflowRunPipeline {
        cfg: AppConfig,
        run_id: String,
        correlation_id: String,
        job_id: Option<String>,
        project_id: String,
        project_path: String,
        project_name: String,
        template_id: String,
        toolchain_id: String,
        toolchain_set_id: String,
        target_id: String,
        build_variant: BuildVariant,
        module: String,
        variant_name: String,
        tasks: Vec<String>,
        apk_path: String,
        application_id: String,
        activity: String,
        options: Option<PipelineOptions>,
        stream_history: bool,
    },
    BuildRun {
        cfg: AppConfig,
        project_ref: String,
        variant: BuildVariant,
        variant_name: String,
        module: String,
        tasks: Vec<String>,
        clean_first: bool,
        gradle_args: Vec<KeyValue>,
        job_id: Option<String>,
        correlation_id: String,
    },
    BuildListArtifacts {
        cfg: AppConfig,
        project_ref: String,
        variant: BuildVariant,
        filter: ArtifactFilter,
    },
    StateSave { cfg: AppConfig, output_path: String, options: StateArchiveOptions },
    StateOpen { cfg: AppConfig, archive_path: String, options: StateArchiveOptions },
    StateReload { cfg: AppConfig },
    ResetAllState { cfg: AppConfig },
}

/// What the worker tells the interface.
#[allow(inconsistent_fields)]
#[derive(Debug)]
pub enum AppEvent {
    Log { page: &'static str, line: String },
    SetCurrentJob { job_id: Option<String> },
    HomeResetStatus,
    HomeState { state: String },
    HomeProgress { progress: String },
    HomeResult { result: String },
    SetLastBuildApk { apk_path: String },
    SetCuttlefishBuildId { build_id: String },
    ToolchainAvailable { provider_id: String, versions: Vec<String> },
    ProjectTemplates { templates: Vec<ProjectTemplateOption> },
    ProjectToolchainSets { sets: Vec<ToolchainSetOption> },
    ProjectTargets { targets: Vec<TargetOption> },
    ProjectSelected { project_id: String, project_path: String, opened_existing: bool },
    UpdateActiveContext {
        project_id: Option<String>,
        project_path: Option<String>,
        toolchain_set_id: Option<String>,
        target_id: Option<String>,
        run_id: Option<String>,
    },
    ResetAllStateComplete { ok: bool },
    ConfigReloaded { cfg: AppConfig },
}

/// The text of an event; a choice is a pair of its id and its label.
#[allow(inconsistent_fields)]
#[verifier::ext_equal]
pub enum AppEventView {
    Log { page: Seq<char>, line: Seq<char> },
    SetCurrentJob { job_id: Option<Seq<char>> },
    HomeResetStatus,
    HomeState { state: Seq<char> },
    HomeProgress { progress: Seq<char> },
    HomeResult { result: Seq<char> },
    SetLastBuildApk { apk_path: Seq<char> },
    SetCuttlefishBuildId { build_id: Seq<char> },
    ToolchainAvailable { provider_id: Seq<char>, versions: Seq<Seq<char>> },
    ProjectTemplates { templates: Seq<(Seq<char>, Seq<char>)> },
    ProjectToolchainSets { sets: Seq<(Seq<char>, Seq<char>)> },
    ProjectTargets { targets: Seq<(Seq<char>, Seq<char>)> },
    ProjectSelected { project_id: Seq<char>, project_path: Seq<char>, opened_existing: bool },
    UpdateActiveContext {
        project_id: Option<Seq<char>>,
        project_path: Option<Seq<char>>,
        toolchain_set_id: Option<Seq<char>>,
        target_id: Option<Seq<char>>,
        run_id: Option<Seq<char>>,
    },
    ResetAllStateComplete { ok: bool },
    ConfigReloaded { cfg: AppConfig },
}

/// The ids and names of templates.
pub open spec fn template_pairs(items: Seq<ProjectTemplateOption>) -> Seq<(Seq<char>, Seq<char>)> {
    Seq::new(items.len(), |i: int| (items[i].id@, items[i].name@))
}

/// The ids and labels of toolchain sets.
pub open spec fn set_pairs(items: Seq<ToolchainSetOption>) -> Seq<(Seq<char>, Seq<char>)> {
    Seq::new(items.len(), |i: int| (items[i].id@, items[i].label@))
}

/// The ids and labels of targets.
pub open spec fn target_pairs(items: Seq<TargetOption>) -> Seq<(Seq<char>, Seq<char>)> {
    Seq::new(items.len(), |i: int| (items[i].id@, items[i].label@))
}

impl View for AppEvent {
    type V = AppEventView;

    open spec fn view(&self) -> AppEventView {
        match *self {
            AppEvent::Log { page, line } => AppEventView::Log { page: page@, line: line@ },
            AppEvent::SetCurrentJob { job_id } => AppEventView::SetCurrentJob {
                job_id: opt_text(job_id),
            },
            AppEvent::HomeResetStatus => AppEventView::HomeResetStatus,
            AppEvent::HomeState { state } => AppEventView::HomeState { state: state@ },
            AppEvent::HomeProgress { progress } => AppEventView::HomeProgress {
                progress: progress@,
            },
            AppEvent::HomeResult { result } => AppEventView::HomeResult { result: result@ },
            AppEvent::SetLastBuildApk { apk_path } => AppEventView::SetLastBuildApk {
                apk_path: apk_path@,
            },
            AppEvent::SetCuttlefishBuildId { build_id } => AppEventView::SetCuttlefishBuildId {
                build_id: build_id@,
            },
            AppEvent::ToolchainAvailable { provider_id, versions } => {
                AppEventView::ToolchainAvailable {
                    provider_id: provider_id@,
                    versions: texts(versions@),
                }
            },
            AppEvent::ProjectTemplates { templates } => AppEventView::ProjectTemplates {
                templates: template_pairs(templates@),
            },
            AppEvent::ProjectToolchainSets { sets } => AppEventView::ProjectToolchainSets {
                sets: set_pairs(sets@),
            },
            AppEvent::ProjectTargets { targets } => AppEventView::ProjectTargets {
                targets: target_pairs(targets@),
            },
            AppEvent::ProjectSelected { project_id, project_path, opened_existing } => {
                AppEventView::ProjectSelected {
                    project_id: project_id@,
                    project_path: project_path@,
                    opened_existing,
                }
            },
            AppEvent::UpdateActiveContext {
                project_id,
                project_path,
                toolchain_set_id,
                target_id,
                run_id,
            } => AppEventView::UpdateActiveContext {
                project_id: opt_text(project_id),
                project_path: opt_text(project_path),
                toolchain_set_id: opt_text(toolchain_set_id),
                target_id: opt_text(target_id),
                run_id: opt_text(run_id),
            },
            AppEvent::ResetAllStateComplete { ok } => AppEventView::ResetAllStateComplete { ok },
            AppEvent::ConfigReloaded { cfg } => AppEventView::ConfigReloaded { cfg },
        }
    }
}

/// What is seen of an event is what it holds, each part in its place.
pub proof fn law_event_is_seen_whole(event: AppEvent)
    ensures
        match event {
            AppEvent::Log { page, line } => {
                &&& event@ is Log
                &&& event@->Log_page == page@
                &&& event@->Log_line == line@
            },
            AppEvent::SetCurrentJob { job_id } => {
                &&& event@ is SetCurrentJob
                &&& event@->SetCurrentJob_job_id == opt_text(job_id)
            },
            AppEvent::HomeResetStatus => event@ is HomeResetStatus,
            AppEvent::HomeState { state } => {
                &&& event@ is HomeState
                &&& event@->HomeState_state == state@
            },
            AppEvent::HomeProgress { progress } => {
                &&& event@ is HomeProgress
                &&& event@->HomeProgress_progress == progress@
            },
            AppEvent::HomeResult { result } => {
                &&& event@ is HomeResult
                &&& event@->HomeResult_result == result@
            },
            AppEvent::SetLastBuildApk { apk_path } => {
                &&& event@ is SetLastBuildApk
                &&& event@->SetLastBuildApk_apk_path == apk_path@
            },
            AppEvent::SetCuttlefishBuildId { build_id } => {
                &&& event@ is SetCuttlefishBuildId
                &&& event@->SetCuttlefishBuildId_build_id == build_id@
            },
            AppEvent::ToolchainAvailable { provider_id, versions } => {
                &&& event@ is ToolchainAvailable
                &&& event@->ToolchainAvailable_provider_id == provider_id@
                &&& event@->ToolchainAvailable_versions == texts(versions@)
            },
            AppEvent::ProjectTemplates { templates } => {
                &&& event@ is ProjectTemplates
                &&& event@->ProjectTemplates_templates == template_pairs(templates@)
            },
            AppEvent::ProjectToolchainSets { sets } => {
                &&& event@ is ProjectToolchainSets
                &&& event@->ProjectToolchainSets_sets == set_pairs(sets@)
            },
            AppEvent::ProjectTargets { targets } => {
                &&& event@ is ProjectTargets
                &&& event@->ProjectTargets_targets == target_pairs(targets@)
            },
            AppEvent::ProjectSelected { project_id, project_path, opened_existing } => {
                &&& event@ is ProjectSelected
                &&& event@->ProjectSelected_project_id == project_id@
                &&& event@->ProjectSelected_project_path == project_path@
                &&& event@->ProjectSelected_opened_existing == opened_existing
            },
            AppEvent::UpdateActiveContext { project_id, project_path, toolchain_set_id, target_id, run_id } => {
                &&& event@ is UpdateActiveContext
                &&& event@->UpdateActiveContext_project_id == opt_text(project_id)
                &&& event@->UpdateActiveContext_project_path == opt_text(project_path)
                &&& event@->UpdateActiveContext_toolchain_set_id == opt_text(toolchain_set_id)
                &&& event@->UpdateActiveContext_target_id == opt_text(target_id)
                &&& event@->UpdateActiveContext_run_id == opt_text(run_id)
            },
            AppEvent::ResetAllStateComplete { ok } => {
                &&& event@ is ResetAllStateComplete
                &&& event@->ResetAllStateComplete_ok == ok
            },
            AppEvent::ConfigReloaded { cfg } => {
                &&& event@ is ConfigReloaded
                &&& event@->ConfigReloaded_cfg == cfg
            },
        },
{
}

/// What is seen of choices is the id and the name of each, in order.
pub proof fn law_choices_are_seen_whole(
    templates: Seq<ProjectTemplateOption>,
    sets: Seq<ToolchainSetOption>,
    targets: Seq<TargetOption>,
    i: int,
)
    ensures
        template_pairs(templates).len() == templates.len(),
        0 <= i < templates.len() ==> template_pairs(templates)[i] == (
            templates[i].id@,
            templates[i].name@,
        ),
        set_pairs(sets).len() == sets.len(),
        0 <= i < sets.len() ==> set_pairs(sets)[i] == (sets[i].id@, sets[i].label@),
        target_pairs(targets).len() == targets.len(),
        0 <= i < targets.len() ==> target_pairs(targets)[i] == (targets[i].id@, targets[i].label@),
{
}

} // verus!
