//! The requests that the worker makes while it carries out a command.

use crate::commands::StateArchiveOptions;
use crate::job_events::{UiLogExport, UiLogExportView};
use crate::model::{
    kvs, ArtifactType, BuildVariant, JobEventKind, JobState, KeyValue, KeyValueView, RunOutputKind,
    ToolchainKind,
};
use crate::pipeline::messages::PipelineOptions;
use crate::text::{opt_text, texts};
use vstd::prelude::*;
use vstd::string::*;

verus! {

/// The services, in the order in which they are reloaded.
#[derive(Clone, Copy, Debug, PartialEq, Eq, Structural)]
pub enum ServiceName {
    Job,
    Toolchain,
    Project,
    Build,
    Targets,
    Observe,
    Workflow,
}

/// A request whose answer the worker waits for.
#[allow(inconsistent_fields)]
#[derive(Debug)]
pub enum Call {
    StartJob {
        addr: String,
        job_type: String,
        params: Vec<KeyValue>,
        project_id: Option<String>,
        target_id: Option<String>,
        toolchain_set_id: Option<String>,
        correlation_id: String,
        run_id: Option<String>,
    },
    CancelJob { addr: String, job_id: String },
    ListJobs {
        addr: String,
        page_size: u32,
        page_token: String,
        job_types: Vec<String>,
        states: Vec<JobState>,
        created_after: Option<i64>,
        created_before: Option<i64>,
        finished_after: Option<i64>,
        finished_before: Option<i64>,
        correlation_id: String,
        run_id: Option<String>,
    },
    ListJobHistory {
        addr: String,
        job_id: String,
        page_size: u32,
        page_token: String,
        filtered: bool,
        kinds: Vec<JobEventKind>,
        after: Option<i64>,
        before: Option<i64>,
    },
    GetJob { addr: String, job_id: String },
    /// Writes a job's export to a file.
    WriteExport { path: String, export: UiLogExport },
    ListProviders { addr: String },
    ListAvailable { addr: String, provider_id: String },
    InstallToolchain {
        addr: String,
        provider_id: String,
        version: String,
        install_root: String,
        verify_hash: bool,
        job_id: Option<String>,
        correlation_id: String,
        run_id: Option<String>,
    },
    UpdateToolchain {
        addr: String,
        toolchain_id: String,
        version: String,
        verify_hash: bool,
        remove_cached_artifact: bool,
        job_id: Option<String>,
        correlation_id: String,
        run_id: Option<String>,
    },
    UninstallToolchain {
        addr: String,
        toolchain_id: String,
        remove_cached_artifact: bool,
        force: bool,
        job_id: Option<String>,
        correlation_id: String,
        run_id: Option<String>,
    },
    CleanupToolchainCache {
        addr: String,
        dry_run: bool,
        remove_all: bool,
        job_id: Option<String>,
        correlation_id: String,
        run_id: Option<String>,
    },
    ListInstalled { addr: String, kind: ToolchainKind },
    ListToolchainSets { addr: String },
    VerifyToolchain {
        addr: String,
        toolchain_id: String,
        job_id: Option<String>,
        correlation_id: String,
        run_id: Option<String>,
    },
    CreateToolchainSet {
        addr: String,
        sdk_toolchain_id: Option<String>,
        ndk_toolchain_id: Option<String>,
        display_name: String,
    },
    SetActiveToolchainSet { addr: String, toolchain_set_id: String },
    GetActiveToolchainSet { addr: String },
    ListTemplates { addr: String },
    ListRecentProjects { addr: String },
    CreateProject {
        addr: String,
        name: String,
        path: String,
        template_id: String,
        job_id: Option<String>,
        correlation_id: String,
        run_id: Option<String>,
    },
    OpenProject { addr: String, path: String },
    SetProjectConfig {
        addr: String,
        project_id: String,
        toolchain_set_id: Option<String>,
        default_target_id: Option<String>,
    },
    ListTargets { addr: String, include_offline: bool },
    SetDefaultTarget { addr: String, target_id: String },
    GetDefaultTarget { addr: String },
    InstallCuttlefish {
        addr: String,
        force: bool,
        branch: String,
        target: String,
        build_id: String,
        job_id: Option<String>,
        correlation_id: String,
        run_id: Option<String>,
    },
    ResolveCuttlefishBuild {
        addr: String,
        branch: String,
        target: String,
        build_id: String,
    },
    StartCuttlefish {
        addr: String,
        show_full_ui: bool,
        job_id: Option<String>,
        correlation_id: String,
        run_id: Option<String>,
    },
    StopCuttlefish {
        addr: String,
        job_id: Option<String>,
        correlation_id: String,
        run_id: Option<String>,
    },
    GetCuttlefishStatus { addr: String },
    InstallApk {
        addr: String,
        target_id: String,
        apk_path: String,
        job_id: Option<String>,
        correlation_id: String,
        run_id: Option<String>,
    },
    /// Looks for the application id of the project that an APK was built from.
    InferApplicationId { apk_path: String },
    Launch {
        addr: String,
        target_id: String,
        application_id: String,
        activity: String,
        job_id: Option<String>,
        correlation_id: String,
        run_id: Option<String>,
    },
    StreamLogcat {
        addr: String,
        target_id: String,
        filter: String,
        include_history: bool,
    },
    ListRuns {
        addr: String,
        page_size: u32,
        page_token: String,
        filtered: bool,
        run_id: Option<String>,
        correlation_id: String,
        result: String,
    },
    ListRunOutputs {
        addr: String,
        run_id: String,
        page_size: u32,
        page_token: String,
        kind: RunOutputKind,
        output_type: String,
        path_contains: String,
        label_contains: String,
    },
    ExportSupportBundle {
        addr: String,
        include_logs: bool,
        include_config: bool,
        include_toolchain_provenance: bool,
        include_recent_runs: bool,
        recent_runs_limit: u32,
        job_id: Option<String>,
        correlation_id: String,
        run_id: Option<String>,
    },
    ExportEvidenceBundle {
        addr: String,
        run_id: String,
        job_id: Option<String>,
        correlation_id: String,
    },
    RunPipeline {
        addr: String,
        run_id: Option<String>,
        correlation_id: String,
        job_id: Option<String>,
        project_id: Option<String>,
        project_path: String,
        project_name: String,
        template_id: Option<String>,
        toolchain_id: Option<String>,
        toolchain_set_id: Option<String>,
        target_id: Option<String>,
        build_variant: BuildVariant,
        module: String,
        variant_name: String,
        tasks: Vec<String>,
        apk_path: String,
        application_id: String,
        activity: String,
        options: Option<PipelineOptions>,
    },
    Build {
        addr: String,
        project_id: String,
        variant: BuildVariant,
        clean_first: bool,
        gradle_args: Vec<KeyValue>,
        job_id: Option<String>,
        module: String,
        variant_name: String,
        tasks: Vec<String>,
        correlation_id: String,
        run_id: Option<String>,
    },
    ListArtifacts {
        addr: String,
        project_id: String,
        variant: BuildVariant,
        modules: Vec<String>,
        variant_name: String,
        types: Vec<ArtifactType>,
        name_contains: String,
        path_contains: String,
    },
    /// Waits for the turn to work on the state on disk.
    LockState { owner: String },
    /// Saves the state on disk to an archive, at the usual place without a path.
    SaveArchive { path: Option<String>, options: StateArchiveOptions },
    /// Restores the state on disk from an archive.
    OpenArchive { path: String, options: StateArchiveOptions },
    /// Reads the configuration again.
    LoadConfig,
    /// Has a service read its state again.
    ReloadState { service: ServiceName, addr: String },
    /// Deletes the local state under a directory.
    ResetState { dir: String },
}

/// The text of a request.
#[allow(inconsistent_fields)]
#[verifier::ext_equal]
pub enum CallView {
    StartJob {
        addr: Seq<char>,
        job_type: Seq<char>,
        params: Seq<KeyValueView>,
        project_id: Option<Seq<char>>,
        target_id: Option<Seq<char>>,
        toolchain_set_id: Option<Seq<char>>,
        correlation_id: Seq<char>,
        run_id: Option<Seq<char>>,
    },
    CancelJob { addr: Seq<char>, job_id: Seq<char> },
    ListJobs {
        addr: Seq<char>,
        page_size: u32,
        page_token: Seq<char>,
        job_types: Seq<Seq<char>>,
        states: Seq<JobState>,
        created_after: Option<i64>,
        created_before: Option<i64>,
        finished_after: Option<i64>,
        finished_before: Option<i64>,
        correlation_id: Seq<char>,
        run_id: Option<Seq<char>>,
    },
    ListJobHistory {
        addr: Seq<char>,
        job_id: Seq<char>,
        page_size: u32,
        page_token: Seq<char>,
        filtered: bool,
        kinds: Seq<JobEventKind>,
        after: Option<i64>,
        before: Option<i64>,
    },
    GetJob { addr: Seq<char>, job_id: Seq<char> },
    WriteExport { path: Seq<char>, export: UiLogExportView },
    ListProviders { addr: Seq<char> },
    ListAvailable { addr: Seq<char>, provider_id: Seq<char> },
    InstallToolchain {
        addr: Seq<char>,
        provider_id: Seq<char>,
        version: Seq<char>,
        install_root: Seq<char>,
        verify_hash: bool,
        job_id: Option<Seq<char>>,
        correlation_id: Seq<char>,
        run_id: Option<Seq<char>>,
    },
    UpdateToolchain {
        addr: Seq<char>,
        toolchain_id: Seq<char>,
        version: Seq<char>,
        verify_hash: bool,
        remove_cached_artifact: bool,
        job_id: Option<Seq<char>>,
        correlation_id: Seq<char>,
        run_id: Option<Seq<char>>,
    },
    UninstallToolchain {
        addr: Seq<char>,
        toolchain_id: Seq<char>,
        remove_cached_artifact: bool,
        force: bool,
        job_id: Option<Seq<char>>,
        correlation_id: Seq<char>,
        run_id: Option<Seq<char>>,
    },
    CleanupToolchainCache {
        addr: Seq<char>,
        dry_run: bool,
        remove_all: bool,
        job_id: Option<Seq<char>>,
        correlation_id: Seq<char>,
        run_id: Option<Seq<char>>,
    },
    ListInstalled { addr: Seq<char>, kind: ToolchainKind },
    ListToolchainSets { addr: Seq<char> },
    VerifyToolchain {
        addr: Seq<char>,
        toolchain_id: Seq<char>,
        job_id: Option<Seq<char>>,
        correlation_id: Seq<char>,
        run_id: Option<Seq<char>>,
    },
    CreateToolchainSet {
        addr: Seq<char>,
        sdk_toolchain_id: Option<Seq<char>>,
        ndk_toolchain_id: Option<Seq<char>>,
        display_name: Seq<char>,
    },
    SetActiveToolchainSet { addr: Seq<char>, toolchain_set_id: Seq<char> },
    GetActiveToolchainSet { addr: Seq<char> },
    ListTemplates { addr: Seq<char> },
    ListRecentProjects { addr: Seq<char> },
    CreateProject {
        addr: Seq<char>,
        name: Seq<char>,
        path: Seq<char>,
        template_id: Seq<char>,
        job_id: Option<Seq<char>>,
        correlation_id: Seq<char>,
        run_id: Option<Seq<char>>,
    },
    OpenProject { addr: Seq<char>, path: Seq<char> },
    SetProjectConfig {
        addr: Seq<char>,
        project_id: Seq<char>,
        toolchain_set_id: Option<Seq<char>>,
        default_target_id: Option<Seq<char>>,
    },
    ListTargets { addr: Seq<char>, include_offline: bool },
    SetDefaultTarget { addr: Seq<char>, target_id: Seq<char> },
    GetDefaultTarget { addr: Seq<char> },
    InstallCuttlefish {
        addr: Seq<char>,
        force: bool,
        branch: Seq<char>,
        target: Seq<char>,
        build_id: Seq<char>,
        job_id: Option<Seq<char>>,
        correlation_id: Seq<char>,
        run_id: Option<Seq<char>>,
    },
    ResolveCuttlefishBuild {
        addr: Seq<char>,
        branch: Seq<char>,
        target: Seq<char>,
        build_id: Seq<char>,
    },
    StartCuttlefish {
        addr: Seq<char>,
        show_full_ui: bool,
        job_id: Option<Seq<char>>,
        correlation_id: Seq<char>,
        run_id: Option<Seq<char>>,
    },
    StopCuttlefish {
        addr: Seq<char>,
        job_id: Option<Seq<char>>,
        correlation_id: Seq<char>,
        run_id: Option<Seq<char>>,
    },
    GetCuttlefishStatus { addr: Seq<char> },
    InstallApk {
        addr: Seq<char>,
        target_id: Seq<char>,
        apk_path: Seq<char>,
        job_id: Option<Seq<char>>,
        correlation_id: Seq<char>,
        run_id: Option<Seq<char>>,
    },
    InferApplicationId { apk_path: Seq<char> },
    Launch {
        addr: Seq<char>,
        target_id: Seq<char>,
        application_id: Seq<char>,
        activity: Seq<char>,
        job_id: Option<Seq<char>>,
        correlation_id: Seq<char>,
        run_id: Option<Seq<char>>,
    },
    StreamLogcat {
        addr: Seq<char>,
        target_id: Seq<char>,
        filter: Seq<char>,
        include_history: bool,
    },
    ListRuns {
        addr: Seq<char>,
        page_size: u32,
        page_token: Seq<char>,
        filtered: bool,
        run_id: Option<Seq<char>>,
        correlation_id: Seq<char>,
        result: Seq<char>,
    },
    ListRunOutputs {
        addr: Seq<char>,
        run_id: Seq<char>,
        page_size: u32,
        page_token: Seq<char>,
        kind: RunOutputKind,
        output_type: Seq<char>,
        path_contains: Seq<char>,
        label_contains: Seq<char>,
    },
    ExportSupportBundle {
        addr: Seq<char>,
        include_logs: bool,
        include_config: bool,
        include_toolchain_provenance: bool,
        include_recent_runs: bool,
        recent_runs_limit: u32,
        job_id: Option<Seq<char>>,
        correlation_id: Seq<char>,
        run_id: Option<Seq<char>>,
    },
    ExportEvidenceBundle {
        addr: Seq<char>,
        run_id: Seq<char>,
        job_id: Option<Seq<char>>,
        correlation_id: Seq<char>,
    },
    RunPipeline {
        addr: Seq<char>,
        run_id: Option<Seq<char>>,
        correlation_id: Seq<char>,
        job_id: Option<Seq<char>>,
        project_id: Option<Seq<char>>,
        project_path: Seq<char>,
        project_name: Seq<char>,
        template_id: Option<Seq<char>>,
        toolchain_id: Option<Seq<char>>,
        toolchain_set_id: Option<Seq<char>>,
        target_id: Option<Seq<char>>,
        build_variant: BuildVariant,
        module: Seq<char>,
        variant_name: Seq<char>,
        tasks: Seq<Seq<char>>,
        apk_path: Seq<char>,
        application_id: Seq<char>,
        activity: Seq<char>,
        options: Option<PipelineOptions>,
    },
    Build {
        addr: Seq<char>,
        project_id: Seq<char>,
        variant: BuildVariant,
        clean_first: bool,
        gradle_args: Seq<KeyValueView>,
        job_id: Option<Seq<char>>,
        module: Seq<char>,
        variant_name: Seq<char>,
        tasks: Seq<Seq<char>>,
        correlation_id: Seq<char>,
        run_id: Option<Seq<char>>,
    },
    ListArtifacts {
        addr: Seq<char>,
        project_id: Seq<char>,
        variant: BuildVariant,
        modules: Seq<Seq<char>>,
        variant_name: Seq<char>,
        types: Seq<ArtifactType>,
        name_contains: Seq<char>,
        path_contains: Seq<char>,
    },
    LockState { owner: Seq<char> },
    SaveArchive { path: Option<Seq<char>>, options: StateArchiveOptions },
    OpenArchive { path: Seq<char>, options: StateArchiveOptions },
    LoadConfig,
    ReloadState { service: ServiceName, addr: Seq<char> },
    ResetState { dir: Seq<char> },
}

impl View for Call {
    type V = CallView;

    open spec fn view(&self) -> CallView {
        match *self {
            Call::StartJob { addr, job_type, params, project_id, target_id, toolchain_set_id, correlation_id, run_id } => CallView::StartJob {
                addr: addr@,
                job_type: job_type@,
                params: kvs(params@),
                project_id: opt_text(project_id),
                target_id: opt_text(target_id),
                toolchain_set_id: opt_text(toolchain_set_id),
                correlation_id: correlation_id@,
                run_id: opt_text(run_id),
            },
            Call::CancelJob { addr, job_id } => CallView::CancelJob {
                addr: addr@,
                job_id: job_id@,
            },
            Call::ListJobs { addr, page_size, page_token, job_types, states, created_after, created_before, finished_after, finished_before, correlation_id, run_id } => CallView::ListJobs {
                addr: addr@,
                page_size,
                page_token: page_token@,
                job_types: texts(job_types@),
                states: states@,
                created_after,
                created_before,
                finished_after,
                finished_before,
                correlation_id: correlation_id@,
                run_id: opt_text(run_id),
            },
            Call::ListJobHistory { addr, job_id, page_size, page_token, filtered, kinds, after, before } => CallView::ListJobHistory {
                addr: addr@,
                job_id: job_id@,
                page_size,
                page_token: page_token@,
                filtered,
                kinds: kinds@,
                after,
                before,
            },
            Call::GetJob { addr, job_id } => CallView::GetJob {
                addr: addr@,
                job_id: job_id@,
            },
            Call::WriteExport { path, export } => CallView::WriteExport {
                path: path@,
                export: export@,
            },
            Call::ListProviders { addr } => CallView::ListProviders {
                addr: addr@,
            },
            Call::ListAvailable { addr, provider_id } => CallView::ListAvailable {
                addr: addr@,
                provider_id: provider_id@,
            },
            Call::InstallToolchain { addr, provider_id, version, install_root, verify_hash, job_id, correlation_id, run_id } => CallView::InstallToolchain {
                addr: addr@,
                provider_id: provider_id@,
                version: version@,
                install_root: install_root@,
                verify_hash,
                job_id: opt_text(job_id),
                correlation_id: correlation_id@,
                run_id: opt_text(run_id),
            },
            Call::UpdateToolchain { addr, toolchain_id, version, verify_hash, remove_cached_artifact, job_id, correlation_id, run_id } => CallView::UpdateToolchain {
                addr: addr@,
                toolchain_id: toolchain_id@,
                version: version@,
                verify_hash,
                remove_cached_artifact,
                job_id: opt_text(job_id),
                correlation_id: correlation_id@,
                run_id: opt_text(run_id),
            },
            Call::UninstallToolchain { addr, toolchain_id, remove_cached_artifact, force, job_id, correlation_id, run_id } => CallView::UninstallToolchain {
                addr: addr@,
                toolchain_id: toolchain_id@,
                remove_cached_artifact,
                force,
                job_id: opt_text(job_id),
                correlation_id: correlation_id@,
                run_id: opt_text(run_id),
            },
            Call::CleanupToolchainCache { addr, dry_run, remove_all, job_id, correlation_id, run_id } => CallView::CleanupToolchainCache {
                addr: addr@,
                dry_run,
                remove_all,
                job_id: opt_text(job_id),
                correlation_id: correlation_id@,
                run_id: opt_text(run_id),
            },
            Call::ListInstalled { addr, kind } => CallView::ListInstalled {
                addr: addr@,
                kind,
            },
            Call::ListToolchainSets { addr } => CallView::ListToolchainSets {
                addr: addr@,
            },
            Call::VerifyToolchain { addr, toolchain_id, job_id, correlation_id, run_id } => CallView::VerifyToolchain {
                addr: addr@,
                toolchain_id: toolchain_id@,
                job_id: opt_text(job_id),
                correlation_id: correlation_id@,
                run_id: opt_text(run_id),
            },
            Call::CreateToolchainSet { addr, sdk_toolchain_id, ndk_toolchain_id, display_name } => CallView::CreateToolchainSet {
                addr: addr@,
                sdk_toolchain_id: opt_text(sdk_toolchain_id),
                ndk_toolchain_id: opt_text(ndk_toolchain_id),
                display_name: display_name@,
            },
            Call::SetActiveToolchainSet { addr, toolchain_set_id } => CallView::SetActiveToolchainSet {
                addr: addr@,
                toolchain_set_id: toolchain_set_id@,
            },
            Call::GetActiveToolchainSet { addr } => CallView::GetActiveToolchainSet {
                addr: addr@,
            },
            Call::ListTemplates { addr } => CallView::ListTemplates {
                addr: addr@,
            },
            Call::ListRecentProjects { addr } => CallView::ListRecentProjects {
                addr: addr@,
            },
            Call::CreateProject { addr, name, path, template_id, job_id, correlation_id, run_id } => CallView::CreateProject {
                addr: addr@,
                name: name@,
                path: path@,
                template_id: template_id@,
                job_id: opt_text(job_id),
                correlation_id: correlation_id@,
                run_id: opt_text(run_id),
            },
            Call::OpenProject { addr, path } => CallView::OpenProject {
                addr: addr@,
                path: path@,
            },
            Call::SetProjectConfig { addr, project_id, toolchain_set_id, default_target_id } => CallView::SetProjectConfig {
                addr: addr@,
                project_id: project_id@,
                toolchain_set_id: opt_text(toolchain_set_id),
                default_target_id: opt_text(default_target_id),
            },
            Call::ListTargets { addr, include_offline } => CallView::ListTargets {
                addr: addr@,
                include_offline,
            },
            Call::SetDefaultTarget { addr, target_id } => CallView::SetDefaultTarget {
                addr: addr@,
                target_id: target_id@,
            },
            Call::GetDefaultTarget { addr } => CallView::GetDefaultTarget {
                addr: addr@,
            },
            Call::InstallCuttlefish { addr, force, branch, target, build_id, job_id, correlation_id, run_id } => CallView::InstallCuttlefish {
                addr: addr@,
                force,
                branch: branch@,
                target: target@,
                build_id: build_id@,
                job_id: opt_text(job_id),
                correlation_id: correlation_id@,
                run_id: opt_text(run_id),
            },
            Call::ResolveCuttlefishBuild { addr, branch, target, build_id } => CallView::ResolveCuttlefishBuild {
                addr: addr@,
                branch: branch@,
                target: target@,
                build_id: build_id@,
            },
            Call::StartCuttlefish { addr, show_full_ui, job_id, correlation_id, run_id } => CallView::StartCuttlefish {
                addr: addr@,
                show_full_ui,
                job_id: opt_text(job_id),
                correlation_id: correlation_id@,
                run_id: opt_text(run_id),
            },
            Call::StopCuttlefish { addr, job_id, correlation_id, run_id } => CallView::StopCuttlefish {
                addr: addr@,
                job_id: opt_text(job_id),
                correlation_id: correlation_id@,
                run_id: opt_text(run_id),
            },
            Call::GetCuttlefishStatus { addr } => CallView::GetCuttlefishStatus {
                addr: addr@,
            },
            Call::InstallApk { addr, target_id, apk_path, job_id, correlation_id, run_id } => CallView::InstallApk {
                addr: addr@,
                target_id: target_id@,
                apk_path: apk_path@,
                job_id: opt_text(job_id),
                correlation_id: correlation_id@,
                run_id: opt_text(run_id),
            },
            Call::InferApplicationId { apk_path } => CallView::InferApplicationId {
                apk_path: apk_path@,
            },
            Call::Launch { addr, target_id, application_id, activity, job_id, correlation_id, run_id } => CallView::Launch {
                addr: addr@,
                target_id: target_id@,
                application_id: application_id@,
                activity: activity@,
                job_id: opt_text(job_id),
                correlation_id: correlation_id@,
                run_id: opt_text(run_id),
            },
            Call::StreamLogcat { addr, target_id, filter, include_history } => CallView::StreamLogcat {
                addr: addr@,
                target_id: target_id@,
                filter: filter@,
                include_history,
            },
            Call::ListRuns { addr, page_size, page_token, filtered, run_id, correlation_id, result } => CallView::ListRuns {
                addr: addr@,
                page_size,
                page_token: page_token@,
                filtered,
                run_id: opt_text(run_id),
                correlation_id: correlation_id@,
                result: result@,
            },
            Call::ListRunOutputs { addr, run_id, page_size, page_token, kind, output_type, path_contains, label_contains } => CallView::ListRunOutputs {
                addr: addr@,
                run_id: run_id@,
                page_size,
                page_token: page_token@,
                kind,
                output_type: output_type@,
                path_contains: path_contains@,
                label_contains: label_contains@,
            },
            Call::ExportSupportBundle { addr, include_logs, include_config, include_toolchain_provenance, include_recent_runs, recent_runs_limit, job_id, correlation_id, run_id } => CallView::ExportSupportBundle {
                addr: addr@,
                include_logs,
                include_config,
                include_toolchain_provenance,
                include_recent_runs,
                recent_runs_limit,
                job_id: opt_text(job_id),
                correlation_id: correlation_id@,
                run_id: opt_text(run_id),
            },
            Call::ExportEvidenceBundle { addr, run_id, job_id, correlation_id } => CallView::ExportEvidenceBundle {
                addr: addr@,
                run_id: run_id@,
                job_id: opt_text(job_id),
                correlation_id: correlation_id@,
            },
            Call::RunPipeline { addr, run_id, correlation_id, job_id, project_id, project_path, project_name, template_id, toolchain_id, toolchain_set_id, target_id, build_variant, module, variant_name, tasks, apk_path, application_id, activity, options } => CallView::RunPipeline {
                addr: addr@,
                run_id: opt_text(run_id),
                correlation_id: correlation_id@,
                job_id: opt_text(job_id),
                project_id: opt_text(project_id),
                project_path: project_path@,
                project_name: project_name@,
                template_id: opt_text(template_id),
                toolchain_id: opt_text(toolchain_id),
                toolchain_set_id: opt_text(toolchain_set_id),
                target_id: opt_text(target_id),
                build_variant,
                module: module@,
                variant_name: variant_name@,
                tasks: texts(tasks@),
                apk_path: apk_path@,
                application_id: application_id@,
                activity: activity@,
                options,
            },
            Call::Build { addr, project_id, variant, clean_first, gradle_args, job_id, module, variant_name, tasks, correlation_id, run_id } => CallView::Build {
                addr: addr@,
                project_id: project_id@,
                variant,
                clean_first,
                gradle_args: kvs(gradle_args@),
                job_id: opt_text(job_id),
                module: module@,
                variant_name: variant_name@,
                tasks: texts(tasks@),
                correlation_id: correlation_id@,
                run_id: opt_text(run_id),
            },
            Call::ListArtifacts { addr, project_id, variant, modules, variant_name, types, name_contains, path_contains } => CallView::ListArtifacts {
                addr: addr@,
                project_id: project_id@,
                variant,
                modules: texts(modules@),
                variant_name: variant_name@,
                types: types@,
                name_contains: name_contains@,
                path_contains: path_contains@,
            },
            Call::LockState { owner } => CallView::LockState {
                owner: owner@,
            },
            Call::SaveArchive { path, options } => CallView::SaveArchive {
                path: opt_text(path),
                options,
            },
            Call::OpenArchive { path, options } => CallView::OpenArchive {
                path: path@,
                options,
            },
            Call::LoadConfig => CallView::LoadConfig,
            Call::ReloadState { service, addr } => CallView::ReloadState {
                service,
                addr: addr@,
            },
            Call::ResetState { dir } => CallView::ResetState {
                dir: dir@,
            },
        }
    }
}

/// What is seen of a call is what it holds, each part in its place.
pub proof fn law_call_is_seen_whole(call: Call)
    ensures
        match call {
            Call::StartJob { addr, job_type, params, project_id, target_id, toolchain_set_id, correlation_id, run_id } => {
                &&& call@ is StartJob
                &&& call@->StartJob_addr == addr@
                &&& call@->StartJob_job_type == job_type@
                &&& call@->StartJob_params == kvs(params@)
                &&& call@->StartJob_project_id == opt_text(project_id)
                &&& call@->StartJob_target_id == opt_text(target_id)
                &&& call@->StartJob_toolchain_set_id == opt_text(toolchain_set_id)
                &&& call@->StartJob_correlation_id == correlation_id@
                &&& call@->StartJob_run_id == opt_text(run_id)
            },
            Call::CancelJob { addr, job_id } => {
                &&& call@ is CancelJob
                &&& call@->CancelJob_addr == addr@
                &&& call@->CancelJob_job_id == job_id@
            },
            Call::ListJobs { addr, page_size, page_token, job_types, states, created_after, created_before, finished_after, finished_before, correlation_id, run_id } => {
                &&& call@ is ListJobs
                &&& call@->ListJobs_addr == addr@
                &&& call@->ListJobs_page_size == page_size
                &&& call@->ListJobs_page_token == page_token@
                &&& call@->ListJobs_job_types == texts(job_types@)
                &&& call@->ListJobs_states == states@
                &&& call@->ListJobs_created_after == created_after
                &&& call@->ListJobs_created_before == created_before
                &&& call@->ListJobs_finished_after == finished_after
                &&& call@->ListJobs_finished_before == finished_before
                &&& call@->ListJobs_correlation_id == correlation_id@
                &&& call@->ListJobs_run_id == opt_text(run_id)
            },
            Call::ListJobHistory { addr, job_id, page_size, page_token, filtered, kinds, after, before } => {
                &&& call@ is ListJobHistory
                &&& call@->ListJobHistory_addr == addr@
                &&& call@->ListJobHistory_job_id == job_id@
                &&& call@->ListJobHistory_page_size == page_size
                &&& call@->ListJobHistory_page_token == page_token@
                &&& call@->ListJobHistory_filtered == filtered
                &&& call@->ListJobHistory_kinds == kinds@
                &&& call@->ListJobHistory_after == after
                &&& call@->ListJobHistory_before == before
            },
            Call::GetJob { addr, job_id } => {
                &&& call@ is GetJob
                &&& call@->GetJob_addr == addr@
                &&& call@->GetJob_job_id == job_id@
            },
            Call::WriteExport { path, export } => {
                &&& call@ is WriteExport
                &&& call@->WriteExport_path == path@
                &&& call@->WriteExport_export == export@
            },
            Call::ListProviders { addr } => {
                &&& call@ is ListProviders
                &&& call@->ListProviders_addr == addr@
            },
            Call::ListAvailable { addr, provider_id } => {
                &&& call@ is ListAvailable
                &&& call@->ListAvailable_addr == addr@
                &&& call@->ListAvailable_provider_id == provider_id@
            },
            Call::InstallToolchain { addr, provider_id, version, install_root, verify_hash, job_id, correlation_id, run_id } => {
                &&& call@ is InstallToolchain
                &&& call@->InstallToolchain_addr == addr@
                &&& call@->InstallToolchain_provider_id == provider_id@
                &&& call@->InstallToolchain_version == version@
                &&& call@->InstallToolchain_install_root == install_root@
                &&& call@->InstallToolchain_verify_hash == verify_hash
                &&& call@->InstallToolchain_job_id == opt_text(job_id)
                &&& call@->InstallToolchain_correlation_id == correlation_id@
                &&& call@->InstallToolchain_run_id == opt_text(run_id)
            },
            Call::UpdateToolchain { addr, toolchain_id, version, verify_hash, remove_cached_artifact, job_id, correlation_id, run_id } => {
                &&& call@ is UpdateToolchain
                &&& call@->UpdateToolchain_addr == addr@
                &&& call@->UpdateToolchain_toolchain_id == toolchain_id@
                &&& call@->UpdateToolchain_version == version@
                &&& call@->UpdateToolchain_verify_hash == verify_hash
                &&& call@->UpdateToolchain_remove_cached_artifact == remove_cached_artifact
                &&& call@->UpdateToolchain_job_id == opt_text(job_id)
                &&& call@->UpdateToolchain_correlation_id == correlation_id@
                &&& call@->UpdateToolchain_run_id == opt_text(run_id)
            },
            Call::UninstallToolchain { addr, toolchain_id, remove_cached_artifact, force, job_id, correlation_id, run_id } => {
                &&& call@ is UninstallToolchain
                &&& call@->UninstallToolchain_addr == addr@
                &&& call@->UninstallToolchain_toolchain_id == toolchain_id@
                &&& call@->UninstallToolchain_remove_cached_artifact == remove_cached_artifact
                &&& call@->UninstallToolchain_force == force
                &&& call@->UninstallToolchain_job_id == opt_text(job_id)
                &&& call@->UninstallToolchain_correlation_id == correlation_id@
                &&& call@->UninstallToolchain_run_id == opt_text(run_id)
            },
            Call::CleanupToolchainCache { addr, dry_run, remove_all, job_id, correlation_id, run_id } => {
                &&& call@ is CleanupToolchainCache
                &&& call@->CleanupToolchainCache_addr == addr@
                &&& call@->CleanupToolchainCache_dry_run == dry_run
                &&& call@->CleanupToolchainCache_remove_all == remove_all
                &&& call@->CleanupToolchainCache_job_id == opt_text(job_id)
                &&& call@->CleanupToolchainCache_correlation_id == correlation_id@
                &&& call@->CleanupToolchainCache_run_id == opt_text(run_id)
            },
            Call::ListInstalled { addr, kind } => {
                &&& call@ is ListInstalled
                &&& call@->ListInstalled_addr == addr@
                &&& call@->ListInstalled_kind == kind
            },
            Call::ListToolchainSets { addr } => {
                &&& call@ is ListToolchainSets
                &&& call@->ListToolchainSets_addr == addr@
            },
            Call::VerifyToolchain { addr, toolchain_id, job_id, correlation_id, run_id } => {
                &&& call@ is VerifyToolchain
                &&& call@->VerifyToolchain_addr == addr@
                &&& call@->VerifyToolchain_toolchain_id == toolchain_id@
                &&& call@->VerifyToolchain_job_id == opt_text(job_id)
                &&& call@->VerifyToolchain_correlation_id == correlation_id@
                &&& call@->VerifyToolchain_run_id == opt_text(run_id)
            },
            Call::CreateToolchainSet { addr, sdk_toolchain_id, ndk_toolchain_id, display_name } => {
                &&& call@ is CreateToolchainSet
                &&& call@->CreateToolchainSet_addr == addr@
                &&& call@->CreateToolchainSet_sdk_toolchain_id == opt_text(sdk_toolchain_id)
                &&& call@->CreateToolchainSet_ndk_toolchain_id == opt_text(ndk_toolchain_id)
                &&& call@->CreateToolchainSet_display_name == display_name@
            },
            Call::SetActiveToolchainSet { addr, toolchain_set_id } => {
                &&& call@ is SetActiveToolchainSet
                &&& call@->SetActiveToolchainSet_addr == addr@
                &&& call@->SetActiveToolchainSet_toolchain_set_id == toolchain_set_id@
            },
            Call::GetActiveToolchainSet { addr } => {
                &&& call@ is GetActiveToolchainSet
                &&& call@->GetActiveToolchainSet_addr == addr@
            },
            Call::ListTemplates { addr } => {
                &&& call@ is ListTemplates
                &&& call@->ListTemplates_addr == addr@
            },
            Call::ListRecentProjects { addr } => {
                &&& call@ is ListRecentProjects
                &&& call@->ListRecentProjects_addr == addr@
            },
            Call::CreateProject { addr, name, path, template_id, job_id, correlation_id, run_id } => {
                &&& call@ is CreateProject
                &&& call@->CreateProject_addr == addr@
                &&& call@->CreateProject_name == name@
                &&& call@->CreateProject_path == path@
                &&& call@->CreateProject_template_id == template_id@
                &&& call@->CreateProject_job_id == opt_text(job_id)
                &&& call@->CreateProject_correlation_id == correlation_id@
                &&& call@->CreateProject_run_id == opt_text(run_id)
            },
            Call::OpenProject { addr, path } => {
                &&& call@ is OpenProject
                &&& call@->OpenProject_addr == addr@
                &&& call@->OpenProject_path == path@
            },
            Call::SetProjectConfig { addr, project_id, toolchain_set_id, default_target_id } => {
                &&& call@ is SetProjectConfig
                &&& call@->SetProjectConfig_addr == addr@
                &&& call@->SetProjectConfig_project_id == project_id@
                &&& call@->SetProjectConfig_toolchain_set_id == opt_text(toolchain_set_id)
                &&& call@->SetProjectConfig_default_target_id == opt_text(default_target_id)
            },
            Call::ListTargets { addr, include_offline } => {
                &&& call@ is ListTargets
                &&& call@->ListTargets_addr == addr@
                &&& call@->ListTargets_include_offline == include_offline
            },
            Call::SetDefaultTarget { addr, target_id } => {
                &&& call@ is SetDefaultTarget
                &&& call@->SetDefaultTarget_addr == addr@
                &&& call@->SetDefaultTarget_target_id == target_id@
            },
            Call::GetDefaultTarget { addr } => {
                &&& call@ is GetDefaultTarget
                &&& call@->GetDefaultTarget_addr == addr@
            },
            Call::InstallCuttlefish { addr, force, branch, target, build_id, job_id, correlation_id, run_id } => {
                &&& call@ is InstallCuttlefish
                &&& call@->InstallCuttlefish_addr == addr@
                &&& call@->InstallCuttlefish_force == force
                &&& call@->InstallCuttlefish_branch == branch@
                &&& call@->InstallCuttlefish_target == target@
                &&& call@->InstallCuttlefish_build_id == build_id@
                &&& call@->InstallCuttlefish_job_id == opt_text(job_id)
                &&& call@->InstallCuttlefish_correlation_id == correlation_id@
                &&& call@->InstallCuttlefish_run_id == opt_text(run_id)
            },
            Call::ResolveCuttlefishBuild { addr, branch, target, build_id } => {
                &&& call@ is ResolveCuttlefishBuild
                &&& call@->ResolveCuttlefishBuild_addr == addr@
                &&& call@->ResolveCuttlefishBuild_branch == branch@
                &&& call@->ResolveCuttlefishBuild_target == target@
                &&& call@->ResolveCuttlefishBuild_build_id == build_id@
            },
            Call::StartCuttlefish { addr, show_full_ui, job_id, correlation_id, run_id } => {
                &&& call@ is StartCuttlefish
                &&& call@->StartCuttlefish_addr == addr@
                &&& call@->StartCuttlefish_show_full_ui == show_full_ui
                &&& call@->StartCuttlefish_job_id == opt_text(job_id)
                &&& call@->StartCuttlefish_correlation_id == correlation_id@
                &&& call@->StartCuttlefish_run_id == opt_text(run_id)
            },
            Call::StopCuttlefish { addr, job_id, correlation_id, run_id } => {
                &&& call@ is StopCuttlefish
                &&& call@->StopCuttlefish_addr == addr@
                &&& call@->StopCuttlefish_job_id == opt_text(job_id)
                &&& call@->StopCuttlefish_correlation_id == correlation_id@
                &&& call@->StopCuttlefish_run_id == opt_text(run_id)
            },
            Call::GetCuttlefishStatus { addr } => {
                &&& call@ is GetCuttlefishStatus
                &&& call@->GetCuttlefishStatus_addr == addr@
            },
            Call::InstallApk { addr, target_id, apk_path, job_id, correlation_id, run_id } => {
                &&& call@ is InstallApk
                &&& call@->InstallApk_addr == addr@
                &&& call@->InstallApk_target_id == target_id@
                &&& call@->InstallApk_apk_path == apk_path@
                &&& call@->InstallApk_job_id == opt_text(job_id)
                &&& call@->InstallApk_correlation_id == correlation_id@
                &&& call@->InstallApk_run_id == opt_text(run_id)
            },
            Call::InferApplicationId { apk_path } => {
                &&& call@ is InferApplicationId
                &&& call@->InferApplicationId_apk_path == apk_path@
            },
            Call::Launch { addr, target_id, application_id, activity, job_id, correlation_id, run_id } => {
                &&& call@ is Launch
                &&& call@->Launch_addr == addr@
                &&& call@->Launch_target_id == target_id@
                &&& call@->Launch_application_id == application_id@
                &&& call@->Launch_activity == activity@
                &&& call@->Launch_job_id == opt_text(job_id)
                &&& call@->Launch_correlation_id == correlation_id@
                &&& call@->Launch_run_id == opt_text(run_id)
            },
            Call::StreamLogcat { addr, target_id, filter, include_history } => {
                &&& call@ is StreamLogcat
                &&& call@->StreamLogcat_addr == addr@
                &&& call@->StreamLogcat_target_id == target_id@
                &&& call@->StreamLogcat_filter == filter@
                &&& call@->StreamLogcat_include_history == include_history
            },
            Call::ListRuns { addr, page_size, page_token, filtered, run_id, correlation_id, result } => {
                &&& call@ is ListRuns
                &&& call@->ListRuns_addr == addr@
                &&& call@->ListRuns_page_size == page_size
                &&& call@->ListRuns_page_token == page_token@
                &&& call@->ListRuns_filtered == filtered
                &&& call@->ListRuns_run_id == opt_text(run_id)
                &&& call@->ListRuns_correlation_id == correlation_id@
                &&& call@->ListRuns_result == result@
            },
            Call::ListRunOutputs { addr, run_id, page_size, page_token, kind, output_type, path_contains, label_contains } => {
                &&& call@ is ListRunOutputs
                &&& call@->ListRunOutputs_addr == addr@
                &&& call@->ListRunOutputs_run_id == run_id@
                &&& call@->ListRunOutputs_page_size == page_size
                &&& call@->ListRunOutputs_page_token == page_token@
                &&& call@->ListRunOutputs_kind == kind
                &&& call@->ListRunOutputs_output_type == output_type@
                &&& call@->ListRunOutputs_path_contains == path_contains@
                &&& call@->ListRunOutputs_label_contains == label_contains@
            },
            Call::ExportSupportBundle { addr, include_logs, include_config, include_toolchain_provenance, include_recent_runs, recent_runs_limit, job_id, correlation_id, run_id } => {
                &&& call@ is ExportSupportBundle
                &&& call@->ExportSupportBundle_addr == addr@
                &&& call@->ExportSupportBundle_include_logs == include_logs
                &&& call@->ExportSupportBundle_include_config == include_config
                &&& call@->ExportSupportBundle_include_toolchain_provenance == include_toolchain_provenance
                &&& call@->ExportSupportBundle_include_recent_runs == include_recent_runs
                &&& call@->ExportSupportBundle_recent_runs_limit == recent_runs_limit
                &&& call@->ExportSupportBundle_job_id == opt_text(job_id)
                &&& call@->ExportSupportBundle_correlation_id == correlation_id@
                &&& call@->ExportSupportBundle_run_id == opt_text(run_id)
            },
            Call::ExportEvidenceBundle { addr, run_id, job_id, correlation_id } => {
                &&& call@ is ExportEvidenceBundle
                &&& call@->ExportEvidenceBundle_addr == addr@
                &&& call@->ExportEvidenceBundle_run_id == run_id@
                &&& call@->ExportEvidenceBundle_job_id == opt_text(job_id)
                &&& call@->ExportEvidenceBundle_correlation_id == correlation_id@
            },
            Call::RunPipeline { addr, run_id, correlation_id, job_id, project_id, project_path, project_name, template_id, toolchain_id, toolchain_set_id, target_id, build_variant, module, variant_name, tasks, apk_path, application_id, activity, options } => {
                &&& call@ is RunPipeline
                &&& call@->RunPipeline_addr == addr@
                &&& call@->RunPipeline_run_id == opt_text(run_id)
                &&& call@->RunPipeline_correlation_id == correlation_id@
                &&& call@->RunPipeline_job_id == opt_text(job_id)
                &&& call@->RunPipeline_project_id == opt_text(project_id)
                &&& call@->RunPipeline_project_path == project_path@
                &&& call@->RunPipeline_project_name == project_name@
                &&& call@->RunPipeline_template_id == opt_text(template_id)
                &&& call@->RunPipeline_toolchain_id == opt_text(toolchain_id)
                &&& call@->RunPipeline_toolchain_set_id == opt_text(toolchain_set_id)
                &&& call@->RunPipeline_target_id == opt_text(target_id)
                &&& call@->RunPipeline_build_variant == build_variant
                &&& call@->RunPipeline_module == module@
                &&& call@->RunPipeline_variant_name == variant_name@
                &&& call@->RunPipeline_tasks == texts(tasks@)
                &&& call@->RunPipeline_apk_path == apk_path@
                &&& call@->RunPipeline_application_id == application_id@
                &&& call@->RunPipeline_activity == activity@
                &&& call@->RunPipeline_options == options
            },
            Call::Build { addr, project_id, variant, clean_first, gradle_args, job_id, module, variant_name, tasks, correlation_id, run_id } => {
                &&& call@ is Build
                &&& call@->Build_addr == addr@
                &&& call@->Build_project_id == project_id@
                &&& call@->Build_variant == variant
                &&& call@->Build_clean_first == clean_first
                &&& call@->Build_gradle_args == kvs(gradle_args@)
                &&& call@->Build_job_id == opt_text(job_id)
                &&& call@->Build_module == module@
                &&& call@->Build_variant_name == variant_name@
                &&& call@->Build_tasks == texts(tasks@)
                &&& call@->Build_correlation_id == correlation_id@
                &&& call@->Build_run_id == opt_text(run_id)
            },
            Call::ListArtifacts { addr, project_id, variant, modules, variant_name, types, name_contains, path_contains } => {
                &&& call@ is ListArtifacts
                &&& call@->ListArtifacts_addr == addr@
                &&& call@->ListArtifacts_project_id == project_id@
                &&& call@->ListArtifacts_variant == variant
                &&& call@->ListArtifacts_modules == texts(modules@)
                &&& call@->ListArtifacts_variant_name == variant_name@
                &&& call@->ListArtifacts_types == types@
                &&& call@->ListArtifacts_name_contains == name_contains@
                &&& call@->ListArtifacts_path_contains == path_contains@
            },
            Call::LockState { owner } => {
                &&& call@ is LockState
                &&& call@->LockState_owner == owner@
            },
            Call::SaveArchive { path, options } => {
                &&& call@ is SaveArchive
                &&& call@->SaveArchive_path == opt_text(path)
                &&& call@->SaveArchive_options == options
            },
            Call::OpenArchive { path, options } => {
                &&& call@ is OpenArchive
                &&& call@->OpenArchive_path == path@
                &&& call@->OpenArchive_options == options
            },
            Call::LoadConfig => call@ is LoadConfig,
            Call::ReloadState { service, addr } => {
                &&& call@ is ReloadState
                &&& call@->ReloadState_service == service
                &&& call@->ReloadState_addr == addr@
            },
            Call::ResetState { dir } => {
                &&& call@ is ResetState
                &&& call@->ResetState_dir == dir@
            },
        },
{
}

} // verus!
