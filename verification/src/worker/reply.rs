//! The answers that the worker gets.

use crate::config::AppConfig;
use crate::job_events::{Job, JobError, JobEvent};
use crate::model::{Artifact, KeyValue, RunOutputKind, ToolchainKind};
use crate::worker::turn::Failure;
use vstd::prelude::*;

verus! {

/// Who provides toolchains of a kind. The kind is there by name, as far as it has one here, and by
/// number.
#[derive(Debug)]
pub struct Provider {
    pub name: String,
    pub kind: ToolchainKind,
    pub kind_code: i32,
}

/// Where a toolchain is fetched from.
#[derive(Debug)]
pub struct ToolchainArtifact {
    pub url: String,
    pub sha256: String,
    pub size_bytes: u64,
}

/// A toolchain that can be installed.
#[derive(Debug)]
pub struct AvailableToolchain {
    pub provider: Option<Provider>,
    pub version: Option<String>,
    pub artifact: Option<ToolchainArtifact>,
}

/// A toolchain that is installed.
#[derive(Debug)]
pub struct InstalledToolchain {
    pub toolchain_id: Option<String>,
    pub provider: Option<Provider>,
    pub version: Option<String>,
    pub installed_at: Option<i64>,
    pub verified: bool,
    pub install_path: String,
}

/// Toolchains that are used together.
#[derive(Debug)]
pub struct ToolchainSet {
    pub toolchain_set_id: Option<String>,
    pub sdk_toolchain_id: Option<String>,
    pub ndk_toolchain_id: Option<String>,
    pub display_name: String,
}

/// A template for projects.
#[derive(Debug)]
pub struct Template {
    pub template_id: Option<String>,
    pub name: String,
    pub description: String,
    pub defaults: Vec<KeyValue>,
}

/// A project.
#[derive(Debug)]
pub struct Project {
    pub project_id: Option<String>,
    pub name: String,
    pub path: String,
}

/// A device or emulator.
#[derive(Debug)]
pub struct Target {
    pub target_id: Option<String>,
    pub display_name: String,
    pub provider: String,
    pub state: String,
}

/// What a run put out, in numbers.
#[derive(Debug)]
pub struct OutputSummary {
    pub bundle_count: u32,
    pub artifact_count: u32,
    pub updated_at: Option<i64>,
    pub last_bundle_id: String,
}

/// A run.
#[derive(Debug)]
pub struct Run {
    pub run_id: Option<String>,
    pub result: String,
    pub correlation_id: String,
    pub project_id: Option<String>,
    pub target_id: Option<String>,
    pub toolchain_set_id: Option<String>,
    pub started_at: Option<i64>,
    pub finished_at: Option<i64>,
    pub job_ids: Vec<String>,
    pub output_summary: Option<OutputSummary>,
    pub summary: Vec<KeyValue>,
}

/// Something that a run put out.
#[derive(Debug)]
pub struct ListedOutput {
    pub output_id: String,
    pub kind: RunOutputKind,
    pub output_type: String,
    pub path: String,
    pub label: String,
    pub job_id: Option<String>,
    pub created_at: Option<i64>,
    pub metadata: Vec<KeyValue>,
}

/// An answer to a request.
#[allow(inconsistent_fields)]
#[derive(Debug)]
pub enum Reply {
    /// The request failed.
    Failed { failure: Failure },
    /// A job was started, or something was accepted that a job carries out.
    Queued { job_id: Option<String> },
    CancelAccepted { accepted: bool },
    Jobs { jobs: Vec<Job>, next_page_token: Option<String> },
    History { events: Vec<JobEvent>, next_page_token: Option<String> },
    JobFound { job: Option<Job> },
    /// A file was written, or a lock was obtained, or a directory was cleared.
    Finished,
    Providers { providers: Vec<Provider> },
    Available { items: Vec<AvailableToolchain> },
    Installed { items: Vec<InstalledToolchain> },
    Sets { sets: Vec<ToolchainSet>, next_page_token: Option<String> },
    Verified { verified: bool, error: Option<JobError>, job_id: Option<String> },
    SetFound { set: Option<ToolchainSet> },
    /// A setting was made, or it was not.
    Applied { ok: bool },
    Templates { templates: Vec<Template> },
    Projects { projects: Vec<Project>, next_page_token: Option<String> },
    ProjectQueued { job_id: Option<String>, project_id: Option<String> },
    ProjectOpened { project: Option<Project> },
    Targets { targets: Vec<Target> },
    DefaultTarget { target: Option<Target> },
    BuildResolved { build_id: String, product: String, branch: String, target: String },
    Cuttlefish { state: String, adb_serial: String, details: Vec<KeyValue> },
    Inferred { application_id: Option<String> },
    /// A line of a device's log.
    LogcatLine { line: Vec<u8> },
    /// The stream ended in an error.
    StreamFailed { error: String },
    /// The stream ended.
    StreamEnded,
    Runs { runs: Vec<Run>, next_page_token: Option<String> },
    Outputs {
        summary: Option<OutputSummary>,
        outputs: Vec<ListedOutput>,
        next_page_token: Option<String>,
    },
    Bundle { job_id: Option<String>, output_path: String },
    PipelineStarted {
        run_id: Option<String>,
        job_id: Option<String>,
        project_id: Option<String>,
        outputs: Vec<KeyValue>,
    },
    Artifacts { artifacts: Vec<Artifact> },
    Archived { output_path: String, file_count: u64, dir_count: u64, total_bytes: u64 },
    Restored { restored_files: u64, restored_dirs: u64, preserved_dirs: Vec<String> },
    Config { cfg: AppConfig },
    Reloaded { ok: bool, item_count: i64, detail: String },
}

} // verus!
