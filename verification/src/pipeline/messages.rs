//! What the pipeline sends out and what comes back.

use crate::model::{
    kvs, Artifact, ArtifactView, BuildVariant, JobState, KeyValue, KeyValueView, RunOutputKind,
};
use crate::text::{opt_text, texts};
use vstd::prelude::*;
use vstd::string::*;

verus! {

/// Which steps a request asks for explicitly.
#[derive(Clone, Copy, Debug, PartialEq, Eq, Structural)]
pub struct PipelineOptions {
    pub create_project: bool,
    pub open_project: bool,
    pub verify_toolchain: bool,
    pub build: bool,
    pub install_apk: bool,
    pub launch_app: bool,
    pub export_support_bundle: bool,
    pub export_evidence_bundle: bool,
}

/// A request to run a pipeline.
#[derive(Debug)]
pub struct PipelineRequest {
    pub run_id: Option<String>,
    pub correlation_id: String,
    pub job_id: Option<String>,
    pub project_id: Option<String>,
    pub project_path: String,
    pub project_name: String,
    pub template_id: Option<String>,
    pub toolchain_id: Option<String>,
    pub toolchain_set_id: Option<String>,
    pub target_id: Option<String>,
    pub build_variant: BuildVariant,
    pub module: String,
    pub variant_name: String,
    pub tasks: Vec<String>,
    pub apk_path: String,
    pub application_id: String,
    pub activity: String,
    pub options: Option<PipelineOptions>,
}

/// What sort of error a failure is.
#[derive(Clone, Copy, Debug, PartialEq, Eq, Structural)]
pub enum ErrorCode {
    Internal,
}

/// Why a job failed.
#[derive(Debug)]
pub struct ErrorDetail {
    pub code: ErrorCode,
    pub message: String,
    pub technical_details: String,
    pub remedies: Vec<String>,
    pub correlation_id: String,
}

/// What an `ErrorDetail` holds, mathematically.
#[verifier::ext_equal]
pub struct ErrorDetailView {
    pub code: ErrorCode,
    pub message: Seq<char>,
    pub technical_details: Seq<char>,
    pub remedies: Seq<Seq<char>>,
    pub correlation_id: Seq<char>,
}

impl View for ErrorDetail {
    type V = ErrorDetailView;

    open spec fn view(&self) -> ErrorDetailView {
        ErrorDetailView {
            code: self.code,
            message: self.message@,
            technical_details: self.technical_details@,
            remedies: texts(self.remedies@),
            correlation_id: self.correlation_id@,
        }
    }
}

/// An error without suggested remedies.
pub open spec fn error_detail(
    code: ErrorCode,
    message: Seq<char>,
    technical: Seq<char>,
    correlation_id: Seq<char>,
) -> ErrorDetailView {
    ErrorDetailView {
        code,
        message,
        technical_details: technical,
        remedies: Seq::empty(),
        correlation_id,
    }
}

/// An error without suggested remedies.
pub fn job_error_detail(code: ErrorCode, message: &str, technical: &str, correlation_id: &str) -> (r:
    ErrorDetail)
    ensures
        r@ == error_detail(code, message@, technical@, correlation_id@),
{
    let r = ErrorDetail {
        code,
        message: message.to_owned(),
        technical_details: technical.to_owned(),
        remedies: Vec::new(),
        correlation_id: correlation_id.to_owned(),
    };
    assert(texts(r.remedies@) =~= Seq::empty());
    r
}

/// What is recorded of a run.
#[derive(Debug)]
pub struct RunRecord {
    pub run_id: String,
    pub correlation_id: String,
    pub project_id: Option<String>,
    pub target_id: Option<String>,
    pub toolchain_set_id: Option<String>,
    pub job_ids: Vec<String>,
    pub result: String,
    pub summary: Vec<KeyValue>,
    pub started_at: Option<i64>,
    pub finished_at: Option<i64>,
}

/// What a `RunRecord` holds, mathematically.
#[verifier::ext_equal]
pub struct RunRecordView {
    pub run_id: Seq<char>,
    pub correlation_id: Seq<char>,
    pub project_id: Option<Seq<char>>,
    pub target_id: Option<Seq<char>>,
    pub toolchain_set_id: Option<Seq<char>>,
    pub job_ids: Seq<Seq<char>>,
    pub result: Seq<char>,
    pub summary: Seq<KeyValueView>,
    pub started_at: Option<i64>,
    pub finished_at: Option<i64>,
}

impl View for RunRecord {
    type V = RunRecordView;

    open spec fn view(&self) -> RunRecordView {
        RunRecordView {
            run_id: self.run_id@,
            correlation_id: self.correlation_id@,
            project_id: opt_text(self.project_id),
            target_id: opt_text(self.target_id),
            toolchain_set_id: opt_text(self.toolchain_set_id),
            job_ids: texts(self.job_ids@),
            result: self.result@,
            summary: kvs(self.summary@),
            started_at: self.started_at,
            finished_at: self.finished_at,
        }
    }
}

/// One thing that a run put out.
#[derive(Debug)]
pub struct RunOutput {
    pub output_id: String,
    pub run_id: String,
    pub kind: RunOutputKind,
    pub output_type: String,
    pub path: String,
    pub label: String,
    pub job_id: String,
    pub created_at: i64,
    pub metadata: Vec<KeyValue>,
}

/// What a `RunOutput` holds, mathematically.
#[verifier::ext_equal]
pub struct RunOutputView {
    pub output_id: Seq<char>,
    pub run_id: Seq<char>,
    pub kind: RunOutputKind,
    pub output_type: Seq<char>,
    pub path: Seq<char>,
    pub label: Seq<char>,
    pub job_id: Seq<char>,
    pub created_at: i64,
    pub metadata: Seq<KeyValueView>,
}

impl View for RunOutput {
    type V = RunOutputView;

    open spec fn view(&self) -> RunOutputView {
        RunOutputView {
            output_id: self.output_id@,
            run_id: self.run_id@,
            kind: self.kind,
            output_type: self.output_type@,
            path: self.path@,
            label: self.label@,
            job_id: self.job_id@,
            created_at: self.created_at,
            metadata: kvs(self.metadata@),
        }
    }
}

/// The texts of a list of outputs.
pub open spec fn output_views(items: Seq<RunOutput>) -> Seq<RunOutputView> {
    Seq::new(items.len(), |i: int| items[i]@)
}

/// Something to be sent whose outcome does not matter to the pipeline. What is published goes to
/// the pipeline's own job.
#[allow(inconsistent_fields)]
#[derive(Debug)]
pub enum Effect {
    PublishLog { stream: String, line: String },
    PublishState { state: JobState },
    PublishProgress { percent: u32, phase: String, metrics: Vec<KeyValue> },
    PublishFailed { error: ErrorDetail },
    PublishCompleted { summary: String, outputs: Vec<KeyValue> },
    RecordRun { record: RunRecord },
    RecordOutputs { run_id: String, outputs: Vec<RunOutput> },
}

/// What an `Effect` holds, mathematically.
#[allow(inconsistent_fields)]
#[verifier::ext_equal]
pub enum EffectView {
    PublishLog { stream: Seq<char>, line: Seq<char> },
    PublishState { state: JobState },
    PublishProgress { percent: u32, phase: Seq<char>, metrics: Seq<KeyValueView> },
    PublishFailed { error: ErrorDetailView },
    PublishCompleted { summary: Seq<char>, outputs: Seq<KeyValueView> },
    RecordRun { record: RunRecordView },
    RecordOutputs { run_id: Seq<char>, outputs: Seq<RunOutputView> },
}

impl View for Effect {
    type V = EffectView;

    open spec fn view(&self) -> EffectView {
        match *self {
            Effect::PublishLog { stream, line } => EffectView::PublishLog {
                stream: stream@,
                line: line@,
            },
            Effect::PublishState { state } => EffectView::PublishState { state },
            Effect::PublishProgress { percent, phase, metrics } => EffectView::PublishProgress {
                percent,
                phase: phase@,
                metrics: kvs(metrics@),
            },
            Effect::PublishFailed { error } => EffectView::PublishFailed { error: error@ },
            Effect::PublishCompleted { summary, outputs } => EffectView::PublishCompleted {
                summary: summary@,
                outputs: kvs(outputs@),
            },
            Effect::RecordRun { record } => EffectView::RecordRun { record: record@ },
            Effect::RecordOutputs { run_id, outputs } => EffectView::RecordOutputs {
                run_id: run_id@,
                outputs: output_views(outputs@),
            },
        }
    }
}

/// The effects of one turn, in order.
#[derive(Debug)]
pub struct Effects {
    pub items: Vec<Effect>,
}

impl View for Effects {
    type V = Seq<EffectView>;

    open spec fn view(&self) -> Seq<EffectView> {
        Seq::new(self.items@.len(), |i: int| self.items@[i]@)
    }
}

/// A line on the job's standard output.
pub open spec fn log_effect(line: Seq<char>) -> EffectView {
    EffectView::PublishLog { stream: "stdout"@, line }
}

impl Effects {
    /// Nothing yet.
    pub fn new() -> (r: Self)
        ensures
            r@ == Seq::<EffectView>::empty(),
    {
        let r = Effects { items: Vec::new() };
        assert(r@ =~= Seq::empty());
        r
    }

    /// Adds one at the end.
    pub fn push(&mut self, effect: Effect)
        ensures
            final(self)@ == old(self)@.push(effect@),
    {
        self.items.push(effect);
        assert(self@ =~= old(self)@.push(effect@));
    }

    /// Adds a line on the job's standard output.
    pub fn log(&mut self, line: String)
        ensures
            final(self)@ == old(self)@.push(log_effect(line@)),
    {
        self.push(Effect::PublishLog { stream: "stdout".to_owned(), line });
    }
}

/// A request whose answer the pipeline waits for.
#[allow(inconsistent_fields)]
#[derive(Debug)]
pub enum Call {
    RecordRun { record: RunRecord },
    CreateProject {
        name: String,
        path: String,
        template_id: String,
        toolchain_set_id: Option<String>,
        correlation_id: String,
        run_id: String,
    },
    OpenProject { path: String },
    VerifyToolchain { toolchain_id: String, correlation_id: String, run_id: String },
    Build {
        project_id: String,
        variant: BuildVariant,
        clean_first: bool,
        gradle_args: Vec<KeyValue>,
        module: String,
        variant_name: String,
        tasks: Vec<String>,
        correlation_id: String,
        run_id: String,
    },
    InstallApk {
        target_id: String,
        project_id: Option<String>,
        apk_path: String,
        correlation_id: String,
        run_id: String,
    },
    Launch {
        target_id: String,
        application_id: String,
        activity: String,
        correlation_id: String,
        run_id: String,
    },
    ExportSupportBundle {
        include_logs: bool,
        include_config: bool,
        include_toolchain_provenance: bool,
        include_recent_runs: bool,
        recent_runs_limit: u32,
        project_id: Option<String>,
        target_id: Option<String>,
        toolchain_set_id: Option<String>,
        correlation_id: String,
        run_id: String,
    },
    ExportEvidenceBundle { run_id: String, correlation_id: String },
    WaitForJob { job_id: String },
    ListArtifacts {
        project_id: String,
        variant: BuildVariant,
        modules: Vec<String>,
        variant_name: String,
    },
}

/// What a `Call` holds, mathematically.
#[allow(inconsistent_fields)]
#[verifier::ext_equal]
pub enum CallView {
    RecordRun { record: RunRecordView },
    CreateProject {
        name: Seq<char>,
        path: Seq<char>,
        template_id: Seq<char>,
        toolchain_set_id: Option<Seq<char>>,
        correlation_id: Seq<char>,
        run_id: Seq<char>,
    },
    OpenProject { path: Seq<char> },
    VerifyToolchain { toolchain_id: Seq<char>, correlation_id: Seq<char>, run_id: Seq<char> },
    Build {
        project_id: Seq<char>,
        variant: BuildVariant,
        clean_first: bool,
        gradle_args: Seq<KeyValueView>,
        module: Seq<char>,
        variant_name: Seq<char>,
        tasks: Seq<Seq<char>>,
        correlation_id: Seq<char>,
        run_id: Seq<char>,
    },
    InstallApk {
        target_id: Seq<char>,
        project_id: Option<Seq<char>>,
        apk_path: Seq<char>,
        correlation_id: Seq<char>,
        run_id: Seq<char>,
    },
    Launch {
        target_id: Seq<char>,
        application_id: Seq<char>,
        activity: Seq<char>,
        correlation_id: Seq<char>,
        run_id: Seq<char>,
    },
    ExportSupportBundle {
        include_logs: bool,
        include_config: bool,
        include_toolchain_provenance: bool,
        include_recent_runs: bool,
        recent_runs_limit: u32,
        project_id: Option<Seq<char>>,
        target_id: Option<Seq<char>>,
        toolchain_set_id: Option<Seq<char>>,
        correlation_id: Seq<char>,
        run_id: Seq<char>,
    },
    ExportEvidenceBundle { run_id: Seq<char>, correlation_id: Seq<char> },
    WaitForJob { job_id: Seq<char> },
    ListArtifacts {
        project_id: Seq<char>,
        variant: BuildVariant,
        modules: Seq<Seq<char>>,
        variant_name: Seq<char>,
    },
}

impl View for Call {
    type V = CallView;

    open spec fn view(&self) -> CallView {
        match *self {
            Call::RecordRun { record } => CallView::RecordRun { record: record@ },
            Call::CreateProject {
                name,
                path,
                template_id,
                toolchain_set_id,
                correlation_id,
                run_id,
            } => CallView::CreateProject {
                name: name@,
                path: path@,
                template_id: template_id@,
                toolchain_set_id: opt_text(toolchain_set_id),
                correlation_id: correlation_id@,
                run_id: run_id@,
            },
            Call::OpenProject { path } => CallView::OpenProject { path: path@ },
            Call::VerifyToolchain { toolchain_id, correlation_id, run_id } => {
                CallView::VerifyToolchain {
                    toolchain_id: toolchain_id@,
                    correlation_id: correlation_id@,
                    run_id: run_id@,
                }
            },
            Call::Build {
                project_id,
                variant,
                clean_first,
                gradle_args,
                module,
                variant_name,
                tasks,
                correlation_id,
                run_id,
            } => CallView::Build {
                project_id: project_id@,
                variant,
                clean_first,
                gradle_args: kvs(gradle_args@),
                module: module@,
                variant_name: variant_name@,
                tasks: texts(tasks@),
                correlation_id: correlation_id@,
                run_id: run_id@,
            },
            Call::InstallApk { target_id, project_id, apk_path, correlation_id, run_id } => {
                CallView::InstallApk {
                    target_id: target_id@,
                    project_id: opt_text(project_id),
                    apk_path: apk_path@,
                    correlation_id: correlation_id@,
                    run_id: run_id@,
                }
            },
            Call::Launch { target_id, application_id, activity, correlation_id, run_id } => {
                CallView::Launch {
                    target_id: target_id@,
                    application_id: application_id@,
                    activity: activity@,
                    correlation_id: correlation_id@,
                    run_id: run_id@,
                }
            },
            Call::ExportSupportBundle {
                include_logs,
                include_config,
                include_toolchain_provenance,
                include_recent_runs,
                recent_runs_limit,
                project_id,
                target_id,
                toolchain_set_id,
                correlation_id,
                run_id,
            } => CallView::ExportSupportBundle {
                include_logs,
                include_config,
                include_toolchain_provenance,
                include_recent_runs,
                recent_runs_limit,
                project_id: opt_text(project_id),
                target_id: opt_text(target_id),
                toolchain_set_id: opt_text(toolchain_set_id),
                correlation_id: correlation_id@,
                run_id: run_id@,
            },
            Call::ExportEvidenceBundle { run_id, correlation_id } => {
                CallView::ExportEvidenceBundle { run_id: run_id@, correlation_id: correlation_id@ }
            },
            Call::WaitForJob { job_id } => CallView::WaitForJob { job_id: job_id@ },
            Call::ListArtifacts { project_id, variant, modules, variant_name } => {
                CallView::ListArtifacts {
                    project_id: project_id@,
                    variant,
                    modules: texts(modules@),
                    variant_name: variant_name@,
                }
            },
        }
    }
}

/// An answer to a call.
#[derive(Debug)]
pub enum Reply {
    /// A run was recorded, or it was not and this is why.
    Recorded { problem: Option<String> },
    /// The service could not be reached.
    Unavailable { error: String },
    /// The service was reached and refused.
    Refused { error: String },
    /// The service accepted; what a step does not answer stays empty.
    Accepted { job_id: Option<String>, project_id: Option<String>, verified: bool },
    /// The job that was waited for came to this state.
    JobEnded { state: JobState },
    /// Waiting for the job failed.
    WaitFailed { error: String },
    /// What a build produced.
    Artifacts { artifacts: Vec<Artifact> },
}

/// What a `Reply` holds, mathematically.
pub enum ReplyView {
    Recorded { problem: Option<Seq<char>> },
    Unavailable { error: Seq<char> },
    Refused { error: Seq<char> },
    Accepted { job_id: Option<Seq<char>>, project_id: Option<Seq<char>>, verified: bool },
    JobEnded { state: JobState },
    WaitFailed { error: Seq<char> },
    Artifacts { artifacts: Seq<ArtifactView> },
}

/// The texts of a list of artifacts.
pub open spec fn artifact_views(items: Seq<Artifact>) -> Seq<ArtifactView> {
    Seq::new(items.len(), |i: int| items[i]@)
}

impl View for Reply {
    type V = ReplyView;

    open spec fn view(&self) -> ReplyView {
        match *self {
            Reply::Recorded { problem } => ReplyView::Recorded { problem: opt_text(problem) },
            Reply::Unavailable { error } => ReplyView::Unavailable { error: error@ },
            Reply::Refused { error } => ReplyView::Refused { error: error@ },
            Reply::Accepted { job_id, project_id, verified } => ReplyView::Accepted {
                job_id: opt_text(job_id),
                project_id: opt_text(project_id),
                verified,
            },
            Reply::JobEnded { state } => ReplyView::JobEnded { state },
            Reply::WaitFailed { error } => ReplyView::WaitFailed { error: error@ },
            Reply::Artifacts { artifacts } => ReplyView::Artifacts {
                artifacts: artifact_views(artifacts@),
            },
        }
    }
}

/// What the pipeline wants done next: the effects in order, then the call, if the run goes on.
#[derive(Debug)]
pub struct Turn {
    pub effects: Effects,
    pub call: Option<Call>,
}

/// What a `Turn` holds, mathematically.
#[verifier::ext_equal]
pub struct TurnView {
    pub effects: Seq<EffectView>,
    pub call: Option<CallView>,
}

impl View for Turn {
    type V = TurnView;

    open spec fn view(&self) -> TurnView {
        TurnView {
            effects: self.effects@,
            call: match self.call {
                Some(c) => Some(c@),
                None => None,
            },
        }
    }
}

/// What is seen of an error is what it holds, each part in its place.
pub proof fn law_error_is_seen_whole(error: ErrorDetail)
    ensures
        error@.code == error.code,
        error@.message == error.message@,
        error@.technical_details == error.technical_details@,
        error@.remedies == texts(error.remedies@),
        error@.correlation_id == error.correlation_id@,
{
}

/// What is seen of a record is what it holds, each part in its place.
pub proof fn law_record_is_seen_whole(record: RunRecord)
    ensures
        record@.run_id == record.run_id@,
        record@.correlation_id == record.correlation_id@,
        record@.project_id == opt_text(record.project_id),
        record@.target_id == opt_text(record.target_id),
        record@.toolchain_set_id == opt_text(record.toolchain_set_id),
        record@.job_ids == texts(record.job_ids@),
        record@.result == record.result@,
        record@.summary == kvs(record.summary@),
        record@.started_at == record.started_at,
        record@.finished_at == record.finished_at,
{
}

/// What is seen of an output is what it holds, each part in its place.
pub proof fn law_output_is_seen_whole(output: RunOutput)
    ensures
        output@.output_id == output.output_id@,
        output@.run_id == output.run_id@,
        output@.kind == output.kind,
        output@.output_type == output.output_type@,
        output@.path == output.path@,
        output@.label == output.label@,
        output@.job_id == output.job_id@,
        output@.created_at == output.created_at,
        output@.metadata == kvs(output.metadata@),
{
}

/// What is seen of an effect is what it holds, each part in its place.
pub proof fn law_effect_is_seen_whole(effect: Effect)
    ensures
        match effect {
            Effect::PublishLog { stream, line } => {
                &&& effect@ is PublishLog
                &&& effect@->PublishLog_stream == stream@
                &&& effect@->PublishLog_line == line@
            },
            Effect::PublishState { state } => {
                &&& effect@ is PublishState
                &&& effect@->PublishState_state == state
            },
            Effect::PublishProgress { percent, phase, metrics } => {
                &&& effect@ is PublishProgress
                &&& effect@->PublishProgress_percent == percent
                &&& effect@->PublishProgress_phase == phase@
                &&& effect@->PublishProgress_metrics == kvs(metrics@)
            },
            Effect::PublishFailed { error } => {
                &&& effect@ is PublishFailed
                &&& effect@->PublishFailed_error == error@
            },
            Effect::PublishCompleted { summary, outputs } => {
                &&& effect@ is PublishCompleted
                &&& effect@->PublishCompleted_summary == summary@
                &&& effect@->PublishCompleted_outputs == kvs(outputs@)
            },
            Effect::RecordRun { record } => {
                &&& effect@ is RecordRun
                &&& effect@->RecordRun_record == record@
            },
            Effect::RecordOutputs { run_id, outputs } => {
                &&& effect@ is RecordOutputs
                &&& effect@->RecordOutputs_run_id == run_id@
                &&& effect@->RecordOutputs_outputs == output_views(outputs@)
            },
        },
{
}

/// What is seen of a call is what it holds, each part in its place.
pub proof fn law_call_is_seen_whole(call: Call)
    ensures
        match call {
            Call::RecordRun { record } => {
                &&& call@ is RecordRun
                &&& call@->RecordRun_record == record@
            },
            Call::CreateProject { name, path, template_id, toolchain_set_id, correlation_id, run_id } => {
                &&& call@ is CreateProject
                &&& call@->CreateProject_name == name@
                &&& call@->CreateProject_path == path@
                &&& call@->CreateProject_template_id == template_id@
                &&& call@->CreateProject_toolchain_set_id == opt_text(toolchain_set_id)
                &&& call@->CreateProject_correlation_id == correlation_id@
                &&& call@->CreateProject_run_id == run_id@
            },
            Call::OpenProject { path } => {
                &&& call@ is OpenProject
                &&& call@->OpenProject_path == path@
            },
            Call::VerifyToolchain { toolchain_id, correlation_id, run_id } => {
                &&& call@ is VerifyToolchain
                &&& call@->VerifyToolchain_toolchain_id == toolchain_id@
                &&& call@->VerifyToolchain_correlation_id == correlation_id@
                &&& call@->VerifyToolchain_run_id == run_id@
            },
            Call::Build { project_id, variant, clean_first, gradle_args, module, variant_name, tasks, correlation_id, run_id } => {
                &&& call@ is Build
                &&& call@->Build_project_id == project_id@
                &&& call@->Build_variant == variant
                &&& call@->Build_clean_first == clean_first
                &&& call@->Build_gradle_args == kvs(gradle_args@)
                &&& call@->Build_module == module@
                &&& call@->Build_variant_name == variant_name@
                &&& call@->Build_tasks == texts(tasks@)
                &&& call@->Build_correlation_id == correlation_id@
                &&& call@->Build_run_id == run_id@
            },
            Call::InstallApk { target_id, project_id, apk_path, correlation_id, run_id } => {
                &&& call@ is InstallApk
                &&& call@->InstallApk_target_id == target_id@
                &&& call@->InstallApk_project_id == opt_text(project_id)
                &&& call@->InstallApk_apk_path == apk_path@
                &&& call@->InstallApk_correlation_id == correlation_id@
                &&& call@->InstallApk_run_id == run_id@
            },
            Call::Launch { target_id, application_id, activity, correlation_id, run_id } => {
                &&& call@ is Launch
                &&& call@->Launch_target_id == target_id@
                &&& call@->Launch_application_id == application_id@
                &&& call@->Launch_activity == activity@
                &&& call@->Launch_correlation_id == correlation_id@
                &&& call@->Launch_run_id == run_id@
            },
            Call::ExportSupportBundle { include_logs, include_config, include_toolchain_provenance, include_recent_runs, recent_runs_limit, project_id, target_id, toolchain_set_id, correlation_id, run_id } => {
                &&& call@ is ExportSupportBundle
                &&& call@->ExportSupportBundle_include_logs == include_logs
                &&& call@->ExportSupportBundle_include_config == include_config
                &&& call@->ExportSupportBundle_include_toolchain_provenance == include_toolchain_provenance
                &&& call@->ExportSupportBundle_include_recent_runs == include_recent_runs
                &&& call@->ExportSupportBundle_recent_runs_limit == recent_runs_limit
                &&& call@->ExportSupportBundle_project_id == opt_text(project_id)
                &&& call@->ExportSupportBundle_target_id == opt_text(target_id)
                &&& call@->ExportSupportBundle_toolchain_set_id == opt_text(toolchain_set_id)
                &&& call@->ExportSupportBundle_correlation_id == correlation_id@
                &&& call@->ExportSupportBundle_run_id == run_id@
            },
            Call::ExportEvidenceBundle { run_id, correlation_id } => {
                &&& call@ is ExportEvidenceBundle
                &&& call@->ExportEvidenceBundle_run_id == run_id@
                &&& call@->ExportEvidenceBundle_correlation_id == correlation_id@
            },
            Call::WaitForJob { job_id } => {
                &&& call@ is WaitForJob
                &&& call@->WaitForJob_job_id == job_id@
            },
            Call::ListArtifacts { project_id, variant, modules, variant_name } => {
                &&& call@ is ListArtifacts
                &&& call@->ListArtifacts_project_id == project_id@
                &&& call@->ListArtifacts_variant == variant
                &&& call@->ListArtifacts_modules == texts(modules@)
                &&& call@->ListArtifacts_variant_name == variant_name@
            },
        },
{
}

/// What is seen of a reply is what it holds, each part in its place.
pub proof fn law_reply_is_seen_whole(reply: Reply)
    ensures
        match reply {
            Reply::Recorded { problem } => {
                &&& reply@ is Recorded
                &&& reply@->Recorded_problem == opt_text(problem)
            },
            Reply::Unavailable { error } => {
                &&& reply@ is Unavailable
                &&& reply@->Unavailable_error == error@
            },
            Reply::Refused { error } => {
                &&& reply@ is Refused
                &&& reply@->Refused_error == error@
            },
            Reply::Accepted { job_id, project_id, verified } => {
                &&& reply@ is Accepted
                &&& reply@->Accepted_job_id == opt_text(job_id)
                &&& reply@->Accepted_project_id == opt_text(project_id)
                &&& reply@->Accepted_verified == verified
            },
            Reply::JobEnded { state } => {
                &&& reply@ is JobEnded
                &&& reply@->JobEnded_state == state
            },
            Reply::WaitFailed { error } => {
                &&& reply@ is WaitFailed
                &&& reply@->WaitFailed_error == error@
            },
            Reply::Artifacts { artifacts } => {
                &&& reply@ is Artifacts
                &&& reply@->Artifacts_artifacts == artifact_views(artifacts@)
            },
        },
{
}

/// What is seen of several outputs or artifacts is each of them, in order.
pub proof fn law_items_are_seen_whole(outputs: Seq<RunOutput>, artifacts: Seq<Artifact>, i: int)
    ensures
        output_views(outputs).len() == outputs.len(),
        0 <= i < outputs.len() ==> output_views(outputs)[i] == outputs[i]@,
        artifact_views(artifacts).len() == artifacts.len(),
        0 <= i < artifacts.len() ==> artifact_views(artifacts)[i] == artifacts[i]@,
{
}

} // verus!
