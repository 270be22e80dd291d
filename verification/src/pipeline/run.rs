//! A pipeline on its way: what is sent out at each turn, given the answers so far.

use crate::model::{
    artifact_type_label, artifact_type_name, clone_kvs, kv, kvs, lemma_kvs_push, metric, Artifact,
    ArtifactType, ArtifactView, JobState, KeyValue, KeyValueView, RunOutputKind,
};
use crate::pipeline::messages::{
    artifact_views, error_detail, job_error_detail, log_effect, output_views, Call, CallView,
    Effect, EffectView, Effects, ErrorCode, PipelineRequest, Reply, ReplyView, RunOutput,
    RunOutputView, RunRecord, RunRecordView, Turn, TurnView,
};
use crate::pipeline::plan::{
    clean_id, clean_id_text, count_steps, is_wanted, lemma_wanted_before_bound,
    lemma_wanted_before_grows, plan_pipeline, planned, total_steps, wanted, wanted_before,
    PipelinePlan, PlanView, Step, STEP_COUNT,
};
use crate::text::{
    blank, cat2, cat3, cat5, clone_texts, dec_nat, is_blank, lemma_texts_push, opt_text, texts,
    trim_owned, trimmed, u32_text,
};
use vstd::prelude::*;
use vstd::string::*;

verus! {

/// What the run is waiting for.
#[derive(Debug)]
pub enum Phase {
    /// The record of the run's start.
    Starting,
    /// The service's answer to a step's request.
    Requested { step: Step },
    /// The end of the job that a step started.
    Waiting { step: Step, job_id: String, project_id: Option<String>, verified: bool },
    /// The list of what the build job produced.
    Listing { job_id: String },
    /// The record of the run's completion.
    Recording,
    /// Nothing any more.
    Ended,
}

/// What a `Phase` holds, mathematically.
#[verifier::ext_equal]
pub enum PhaseView {
    Starting,
    Requested { step: Step },
    Waiting { step: Step, job_id: Seq<char>, project_id: Option<Seq<char>>, verified: bool },
    Listing { job_id: Seq<char> },
    Recording,
    Ended,
}

impl View for Phase {
    type V = PhaseView;

    open spec fn view(&self) -> PhaseView {
        match *self {
            Phase::Starting => PhaseView::Starting,
            Phase::Requested { step } => PhaseView::Requested { step },
            Phase::Waiting { step, job_id, project_id, verified } => PhaseView::Waiting {
                step,
                job_id: job_id@,
                project_id: opt_text(project_id),
                verified,
            },
            Phase::Listing { job_id } => PhaseView::Listing { job_id: job_id@ },
            Phase::Recording => PhaseView::Recording,
            Phase::Ended => PhaseView::Ended,
        }
    }
}

/// A pipeline on its way.
#[derive(Debug)]
pub struct PipelineRun {
    pub plan: PipelinePlan,
    pub step_index: u32,
    pub project_id: String,
    pub apk_path: String,
    pub job_ids: Vec<String>,
    pub outputs: Vec<KeyValue>,
    pub phase: Phase,
}

/// What a `PipelineRun` holds, mathematically.
#[verifier::ext_equal]
pub struct RunView {
    pub plan: PlanView,
    pub step_index: u32,
    pub project_id: Seq<char>,
    pub apk_path: Seq<char>,
    pub job_ids: Seq<Seq<char>>,
    pub outputs: Seq<KeyValueView>,
    pub phase: PhaseView,
}

impl View for PipelineRun {
    type V = RunView;

    open spec fn view(&self) -> RunView {
        RunView {
            plan: self.plan@,
            step_index: self.step_index,
            project_id: self.project_id@,
            apk_path: self.apk_path@,
            job_ids: texts(self.job_ids@),
            outputs: kvs(self.outputs@),
            phase: self.phase@,
        }
    }
}

/// A run and what it wants done.
#[verifier::ext_equal]
pub struct Progressed {
    pub run: RunView,
    pub turn: TurnView,
}

/// The steps that the run has begun when it is in its phase.
pub open spec fn begun(phase: PhaseView) -> int {
    match phase {
        PhaseView::Starting => 0,
        PhaseView::Requested { step } => step.index() + 1,
        PhaseView::Waiting { step, .. } => step.index() + 1,
        PhaseView::Listing { .. } => Step::Build.index() + 1,
        PhaseView::Recording => STEP_COUNT as int,
        PhaseView::Ended => STEP_COUNT as int,
    }
}

/// The counter of steps agrees with the steps that were begun, and a step in progress is one that
/// was asked for.
pub open spec fn run_wf(r: RunView) -> bool {
    &&& r.step_index <= wanted_before(r.plan.steps, STEP_COUNT as int)
    &&& !(r.phase is Ended) ==> r.step_index == wanted_before(r.plan.steps, begun(r.phase))
    &&& match r.phase {
        PhaseView::Requested { step } => wanted(r.plan.steps, step),
        PhaseView::Waiting { step, .. } => wanted(r.plan.steps, step) && step
            != Step::OpenProject,
        PhaseView::Listing { .. } => wanted(r.plan.steps, Step::Build),
        _ => true,
    }
}

/// The answer belongs to what the run is waiting for.
pub open spec fn fits(phase: PhaseView, reply: ReplyView) -> bool {
    match phase {
        PhaseView::Starting => reply is Recorded,
        PhaseView::Requested { .. } => reply is Unavailable || reply is Refused || reply
            is Accepted,
        PhaseView::Waiting { .. } => reply is JobEnded || reply is WaitFailed,
        PhaseView::Listing { .. } => reply is Artifacts || reply is Refused,
        PhaseView::Recording => reply is Recorded,
        PhaseView::Ended => false,
    }
}

/// The text, or nothing where it is empty.
pub open spec fn nonempty_text(s: Seq<char>) -> Option<Seq<char>> {
    if s.len() == 0 {
        None
    } else {
        Some(s)
    }
}

/// The optional text, unless it is empty.
pub open spec fn filled(o: Option<Seq<char>>) -> Option<Seq<char>> {
    match o {
        Some(s) => nonempty_text(s),
        None => None,
    }
}

fn optional(s: &String) -> (r: Option<String>)
    ensures
        opt_text(r) == nonempty_text(s@),
{
    if s.as_str().is_empty() {
        None
    } else {
        Some(s.clone())
    }
}

fn filled_text(o: &Option<String>) -> (r: Option<String>)
    ensures
        opt_text(r) == filled(opt_text(*o)),
{
    match o {
        Some(s) => optional(s),
        None => None,
    }
}

/// The project that a build works on: its id, or its path where it has none.
pub open spec fn project_ref(r: RunView) -> Seq<char> {
    if r.project_id.len() > 0 {
        r.project_id
    } else {
        r.plan.project_path
    }
}

/// An input that the step needs is not there.
pub open spec fn lacks_input(r: RunView, step: Step) -> bool {
    match step {
        Step::CreateProject => r.plan.template_id.len() == 0 || r.plan.project_path.len() == 0,
        Step::OpenProject => r.plan.project_path.len() == 0,
        Step::VerifyToolchain => r.plan.toolchain_id.len() == 0,
        Step::Build => blank(project_ref(r)),
        Step::InstallApk => r.plan.target_id.len() == 0 || r.apk_path.len() == 0,
        Step::LaunchApp => r.plan.target_id.len() == 0 || r.plan.application_id.len() == 0,
        Step::SupportBundle | Step::EvidenceBundle => false,
    }
}

/// What a step reports of itself besides its place.
pub open spec fn step_inputs(r: RunView, step: Step) -> Seq<KeyValueView> {
    match step {
        Step::CreateProject => {
            let template = if r.plan.template_id.len() > 0 {
                seq![kv("template_id"@, r.plan.template_id)]
            } else {
                Seq::empty()
            };
            let path = if r.plan.project_path.len() > 0 {
                seq![kv("project_path"@, r.plan.project_path)]
            } else {
                Seq::empty()
            };
            template + path
        },
        Step::OpenProject => seq![kv("project_path"@, r.plan.project_path)],
        Step::VerifyToolchain => seq![kv("toolchain_id"@, r.plan.toolchain_id)],
        Step::Build => seq![kv("project_ref"@, project_ref(r))],
        Step::InstallApk => seq![
            kv("target_id"@, r.plan.target_id),
            kv("apk_path"@, r.apk_path),
        ],
        Step::LaunchApp => seq![
            kv("target_id"@, r.plan.target_id),
            kv("application_id"@, r.plan.application_id),
        ],
        Step::SupportBundle | Step::EvidenceBundle => Seq::empty(),
    }
}

/// How far the run has come when it begins its step number `index` of `total`.
pub open spec fn percent_at(index: int, total: int) -> int {
    index * 100 / total
}

/// The report that a step begins.
pub open spec fn step_progress(r: RunView, step: Step) -> EffectView {
    EffectView::PublishProgress {
        percent: percent_at(r.step_index as int, total_steps(r.plan.steps) as int) as u32,
        phase: step.title(),
        metrics: seq![
            kv("pipeline_step"@, step.title()),
            kv("step_index"@, dec_nat(r.step_index as nat)),
            kv("total_steps"@, dec_nat(total_steps(r.plan.steps))),
            kv("run_id"@, r.plan.run_id),
            kv("correlation_id"@, r.plan.correlation_id),
        ] + step_inputs(r, step),
    }
}

/// A record of the run.
pub open spec fn run_record(
    r: RunView,
    result: Seq<char>,
    summary: Seq<KeyValueView>,
    finished_at: Option<i64>,
) -> RunRecordView {
    RunRecordView {
        run_id: r.plan.run_id,
        correlation_id: r.plan.correlation_id,
        project_id: nonempty_text(r.project_id),
        target_id: nonempty_text(r.plan.target_id),
        toolchain_set_id: nonempty_text(r.plan.toolchain_set_id),
        job_ids: r.job_ids,
        result,
        summary,
        started_at: Some(r.plan.started_at),
        finished_at,
    }
}

/// What is sent out when a run fails: the error, the record, and the state of the job.
pub open spec fn failure_effects(r: RunView, message: Seq<char>, technical: Seq<char>, now: i64) -> Seq<
    EffectView,
> {
    seq![
        EffectView::PublishFailed {
            error: error_detail(
                ErrorCode::Internal,
                message,
                technical,
                r.plan.correlation_id,
            ),
        },
        EffectView::RecordRun {
            record: run_record(
                r,
                "failed"@,
                seq![kv("error"@, message), kv("detail"@, technical)],
                Some(now),
            ),
        },
        EffectView::PublishState { state: JobState::Failed },
    ]
}

/// The run ends in failure.
pub open spec fn failed(
    r: RunView,
    effects: Seq<EffectView>,
    message: Seq<char>,
    technical: Seq<char>,
    now: i64,
) -> Progressed {
    Progressed {
        run: RunView { phase: PhaseView::Ended, ..r },
        turn: TurnView {
            effects: effects + failure_effects(r, message, technical, now),
            call: None,
        },
    }
}

/// The request of a step.
pub open spec fn step_request(r: RunView, step: Step) -> CallView {
    match step {
        Step::CreateProject => CallView::CreateProject {
            name: r.plan.project_name,
            path: r.plan.project_path,
            template_id: r.plan.template_id,
            toolchain_set_id: nonempty_text(r.plan.toolchain_set_id),
            correlation_id: r.plan.correlation_id,
            run_id: r.plan.run_id,
        },
        Step::OpenProject => CallView::OpenProject { path: r.plan.project_path },
        Step::VerifyToolchain => CallView::VerifyToolchain {
            toolchain_id: r.plan.toolchain_id,
            correlation_id: r.plan.correlation_id,
            run_id: r.plan.run_id,
        },
        Step::Build => CallView::Build {
            project_id: project_ref(r),
            variant: r.plan.variant,
            clean_first: false,
            gradle_args: Seq::empty(),
            module: r.plan.module,
            variant_name: r.plan.variant_name,
            tasks: r.plan.tasks,
            correlation_id: r.plan.correlation_id,
            run_id: r.plan.run_id,
        },
        Step::InstallApk => CallView::InstallApk {
            target_id: r.plan.target_id,
            project_id: nonempty_text(r.project_id),
            apk_path: r.apk_path,
            correlation_id: r.plan.correlation_id,
            run_id: r.plan.run_id,
        },
        Step::LaunchApp => CallView::Launch {
            target_id: r.plan.target_id,
            application_id: r.plan.application_id,
            activity: r.plan.activity,
            correlation_id: r.plan.correlation_id,
            run_id: r.plan.run_id,
        },
        Step::SupportBundle => CallView::ExportSupportBundle {
            include_logs: true,
            include_config: true,
            include_toolchain_provenance: true,
            include_recent_runs: false,
            recent_runs_limit: 10,
            project_id: nonempty_text(r.project_id),
            target_id: nonempty_text(r.plan.target_id),
            toolchain_set_id: nonempty_text(r.plan.toolchain_set_id),
            correlation_id: r.plan.correlation_id,
            run_id: r.plan.run_id,
        },
        Step::EvidenceBundle => CallView::ExportEvidenceBundle {
            run_id: r.plan.run_id,
            correlation_id: r.plan.correlation_id,
        },
    }
}

/// The list of what the build produced, as far as module and variant were named.
pub open spec fn artifacts_request(r: RunView) -> CallView {
    CallView::ListArtifacts {
        project_id: project_ref(r),
        variant: r.plan.variant,
        modules: if blank(r.plan.module) {
            Seq::empty()
        } else {
            seq![trimmed(r.plan.module)]
        },
        variant_name: trimmed(r.plan.variant_name),
    }
}

/// The run goes on with the first step from place `k` that it can request; a step whose input is
/// lacking is passed over with a warning where the steps were inferred, and fails the run where
/// they were asked for. Behind the last step the completion is recorded.
pub open spec fn went_on(r: RunView, k: int, effects: Seq<EffectView>, now: i64) -> Progressed
    decreases STEP_COUNT - k,
{
    if k >= STEP_COUNT {
        Progressed {
            run: RunView { phase: PhaseView::Recording, ..r },
            turn: TurnView {
                effects,
                call: Some(
                    CallView::RecordRun {
                        record: run_record(
                            r,
                            "success"@,
                            seq![kv("pipeline"@, "complete"@)],
                            Some(now),
                        ),
                    },
                ),
            },
        }
    } else {
        let step = Step::at(k);
        if !wanted(r.plan.steps, step) {
            went_on(r, k + 1, effects, now)
        } else {
            let begun = RunView { step_index: (r.step_index + 1) as u32, ..r };
            let reported = effects.push(step_progress(begun, step));
            if lacks_input(begun, step) {
                if r.plan.inferred {
                    went_on(
                        begun,
                        k + 1,
                        reported.push(log_effect("WARN: "@ + step.needs_text() + ", skipping\n"@)),
                        now,
                    )
                } else {
                    failed(begun, reported, "pipeline failed"@, step.needs_text(), now)
                }
            } else {
                Progressed {
                    run: RunView { phase: PhaseView::Requested { step }, ..begun },
                    turn: TurnView { effects: reported, call: Some(step_request(begun, step)) },
                }
            }
        }
    }
}

/// The project that a step made or found becomes the run's project.
pub open spec fn with_project(r: RunView, project_id: Option<Seq<char>>) -> RunView {
    match filled(project_id) {
        Some(id) => RunView {
            project_id: id,
            outputs: r.outputs.push(kv("project_id"@, id)),
            ..r
        },
        None => r,
    }
}

/// The step makes or finds a project.
pub open spec fn gives_project(step: Step) -> bool {
    step == Step::CreateProject || step == Step::OpenProject
}

/// The step is nothing without a job.
pub open spec fn needs_job(step: Step) -> bool {
    step == Step::Build || step == Step::InstallApk || step == Step::LaunchApp
}

/// A step's request was accepted.
pub open spec fn accepted(
    r: RunView,
    step: Step,
    job_id: Option<Seq<char>>,
    project_id: Option<Seq<char>>,
    verified: bool,
    now: i64,
) -> Progressed {
    let job = if step == Step::OpenProject {
        None
    } else {
        filled(job_id)
    };
    match job {
        Some(id) => Progressed {
            run: RunView {
                job_ids: r.job_ids.push(id),
                phase: PhaseView::Waiting { step, job_id: id, project_id, verified },
                ..r
            },
            turn: TurnView {
                effects: Seq::empty(),
                call: Some(CallView::WaitForJob { job_id: id }),
            },
        },
        None => if needs_job(step) {
            failed(r, Seq::empty(), step.title() + " failed"@, "empty job_id"@, now)
        } else if gives_project(step) {
            went_on(with_project(r, project_id), step.index() + 1, Seq::empty(), now)
        } else {
            went_on(r, step.index() + 1, Seq::empty(), now)
        },
    }
}

/// The job of a step came to an end.
pub open spec fn job_ended(
    r: RunView,
    step: Step,
    job_id: Seq<char>,
    project_id: Option<Seq<char>>,
    verified: bool,
    state: JobState,
    now: i64,
) -> Progressed {
    if step == Step::CreateProject {
        went_on(with_project(r, project_id), step.index() + 1, Seq::empty(), now)
    } else if state != JobState::Success || (step == Step::VerifyToolchain && !verified) {
        failed(r, Seq::empty(), step.title() + " failed"@, step.job_failed_text(), now)
    } else if step == Step::Build {
        Progressed {
            run: RunView { phase: PhaseView::Listing { job_id }, ..r },
            turn: TurnView { effects: Seq::empty(), call: Some(artifacts_request(r)) },
        }
    } else {
        went_on(r, step.index() + 1, Seq::empty(), now)
    }
}

/// What a run puts out for a file that its build produced.
pub open spec fn artifact_output(a: ArtifactView, run_id: Seq<char>, job_id: Seq<char>, now: i64) -> RunOutputView {
    let path = trimmed(a.path);
    let kind = artifact_type_name(a.kind);
    let base = a.metadata.push(kv("artifact_type"@, kind));
    RunOutputView {
        output_id: "artifact:"@ + job_id + ":"@ + path,
        run_id,
        kind: RunOutputKind::Artifact,
        output_type: kind,
        path,
        label: if blank(a.name) {
            path
        } else {
            trimmed(a.name)
        },
        job_id,
        created_at: now,
        metadata: if blank(a.name) {
            base
        } else {
            base.push(kv("artifact_name"@, a.name))
        },
    }
}

/// The outputs of the artifacts that have a path, in order.
pub open spec fn artifact_outputs(
    artifacts: Seq<ArtifactView>,
    run_id: Seq<char>,
    job_id: Seq<char>,
    now: i64,
) -> Seq<RunOutputView>
    decreases artifacts.len(),
{
    if artifacts.len() == 0 {
        Seq::empty()
    } else {
        let before = artifact_outputs(artifacts.drop_last(), run_id, job_id, now);
        if blank(artifacts.last().path) {
            before
        } else {
            before.push(artifact_output(artifacts.last(), run_id, job_id, now))
        }
    }
}

/// The record of a build's artifacts; none for a run without an id or where no artifact has a path.
pub open spec fn outputs_effects(
    artifacts: Seq<ArtifactView>,
    run_id: Seq<char>,
    job_id: Seq<char>,
    now: i64,
) -> Seq<EffectView> {
    let outputs = artifact_outputs(artifacts, run_id, job_id, now);
    if blank(run_id) || outputs.len() == 0 {
        Seq::empty()
    } else {
        seq![EffectView::RecordOutputs { run_id, outputs }]
    }
}

/// The path of the first APK.
pub open spec fn first_apk(artifacts: Seq<ArtifactView>) -> Option<Seq<char>>
    decreases artifacts.len(),
{
    if artifacts.len() == 0 {
        None
    } else if artifacts[0].kind == ArtifactType::Apk {
        Some(artifacts[0].path)
    } else {
        first_apk(artifacts.drop_first())
    }
}

/// The path of the first APK, or else of the first artifact.
pub open spec fn selected_artifact(artifacts: Seq<ArtifactView>) -> Option<Seq<char>> {
    match first_apk(artifacts) {
        Some(path) => Some(path),
        None => if artifacts.len() > 0 {
            Some(artifacts[0].path)
        } else {
            None
        },
    }
}

/// The artifact that is selected of a build is one of the run's outputs, and is what the run
/// installs unless the request named another.
pub open spec fn with_artifact(r: RunView, artifacts: Seq<ArtifactView>) -> RunView {
    match selected_artifact(artifacts) {
        Some(path) => RunView {
            apk_path: if r.apk_path.len() == 0 {
                path
            } else {
                r.apk_path
            },
            outputs: r.outputs.push(kv("artifact_path"@, path)),
            ..r
        },
        None => r,
    }
}

/// The build's artifacts are known: they are recorded, and the run goes on with the selected one.
pub open spec fn artifacts_listed(
    r: RunView,
    job_id: Seq<char>,
    artifacts: Seq<ArtifactView>,
    now: i64,
) -> Progressed {
    went_on(
        with_artifact(r, artifacts),
        Step::Build.index() + 1,
        outputs_effects(artifacts, r.plan.run_id, job_id, now),
        now,
    )
}

/// The warning that a record could not be made.
pub open spec fn record_warning(what: Seq<char>, problem: Option<Seq<char>>) -> Seq<EffectView> {
    match problem {
        Some(err) => seq![
            log_effect("WARN: failed to upsert run "@ + what + ": "@ + err + "\n"@),
        ],
        None => Seq::empty(),
    }
}

/// The run's completion is recorded: the job is completed with the run's outputs.
pub open spec fn completed(r: RunView, problem: Option<Seq<char>>) -> Progressed {
    Progressed {
        run: RunView { phase: PhaseView::Ended, ..r },
        turn: TurnView {
            effects: record_warning("completion"@, problem).push(
                EffectView::PublishCompleted {
                    summary: "Workflow pipeline completed"@,
                    outputs: r.outputs,
                },
            ),
            call: None,
        },
    }
}

/// The run stays as it is.
pub open spec fn unmoved(r: RunView) -> Progressed {
    Progressed { run: r, turn: TurnView { effects: Seq::empty(), call: None } }
}

/// What a run does with the answer to a step's request.
pub open spec fn answered(r: RunView, step: Step, reply: ReplyView, now: i64) -> Progressed {
    match reply {
        ReplyView::Unavailable { error } => failed(
            r,
            Seq::empty(),
            step.unavailable_text(),
            error,
            now,
        ),
        ReplyView::Refused { error } => failed(
            r,
            Seq::empty(),
            step.title() + " failed"@,
            error,
            now,
        ),
        ReplyView::Accepted { job_id, project_id, verified } => accepted(
            r,
            step,
            job_id,
            project_id,
            verified,
            now,
        ),
        _ => unmoved(r),
    }
}

/// What a run does with what came of waiting for a step's job.
pub open spec fn waited(
    r: RunView,
    step: Step,
    job_id: Seq<char>,
    project_id: Option<Seq<char>>,
    verified: bool,
    reply: ReplyView,
    now: i64,
) -> Progressed {
    match reply {
        ReplyView::WaitFailed { error } => failed(
            r,
            Seq::empty(),
            step.title() + " job failed"@,
            error,
            now,
        ),
        ReplyView::JobEnded { state } => job_ended(
            r,
            step,
            job_id,
            project_id,
            verified,
            state,
            now,
        ),
        _ => unmoved(r),
    }
}

/// The artifacts that an answer names; none where it names none.
pub open spec fn artifacts_in(reply: ReplyView) -> Seq<ArtifactView> {
    match reply {
        ReplyView::Artifacts { artifacts } => artifacts,
        _ => Seq::empty(),
    }
}

/// What a run does with an answer.
pub open spec fn advanced(r: RunView, reply: ReplyView, now: i64) -> Progressed {
    match r.phase {
        PhaseView::Starting => match reply {
            ReplyView::Recorded { problem } => went_on(
                r,
                0,
                record_warning("start"@, problem),
                now,
            ),
            _ => unmoved(r),
        },
        PhaseView::Requested { step } => answered(r, step, reply, now),
        PhaseView::Waiting { step, job_id, project_id, verified } => waited(
            r,
            step,
            job_id,
            project_id,
            verified,
            reply,
            now,
        ),
        PhaseView::Listing { job_id } => artifacts_listed(r, job_id, artifacts_in(reply), now),
        PhaseView::Recording => match reply {
            ReplyView::Recorded { problem } => completed(r, problem),
            _ => unmoved(r),
        },
        PhaseView::Ended => unmoved(r),
    }
}

/// A run at its start.
pub open spec fn started_run(
    req: PipelineRequest,
    run_id: Seq<char>,
    correlation_id: Seq<char>,
    now: i64,
) -> RunView {
    RunView {
        plan: planned(req, run_id, correlation_id, now),
        step_index: 0,
        project_id: clean_id(opt_text(req.project_id)),
        apk_path: trimmed(req.apk_path@),
        job_ids: Seq::empty(),
        outputs: seq![kv("run_id"@, run_id), kv("correlation_id"@, correlation_id)],
        phase: PhaseView::Starting,
    }
}

/// What a run does at its start: it says which run it is, is running, and is recorded as such.
pub open spec fn started(
    req: PipelineRequest,
    run_id: Seq<char>,
    correlation_id: Seq<char>,
    now: i64,
) -> Progressed {
    let run = started_run(req, run_id, correlation_id, now);
    Progressed {
        run,
        turn: TurnView {
            effects: seq![
                log_effect(
                    "pipeline run_id="@ + run_id + " correlation_id="@ + correlation_id + "\n"@,
                ),
                EffectView::PublishState { state: JobState::Running },
            ],
            call: Some(
                CallView::RecordRun { record: run_record(run, "running"@, Seq::empty(), None) },
            ),
        },
    }
}

/// The path of the first APK, or else of the first artifact.
pub fn select_artifact_path(artifacts: &Vec<Artifact>) -> (r: Option<String>)
    ensures
        opt_text(r) == selected_artifact(artifact_views(artifacts@)),
{
    let ghost all = artifact_views(artifacts@);
    assert(all.skip(0) =~= all);
    for i in 0..artifacts.len()
        invariant
            all == artifact_views(artifacts@),
            first_apk(all) == first_apk(all.skip(i as int)),
    {
        assert(all.skip(i as int)[0] == artifacts@[i as int]@);
        if artifacts[i].kind == ArtifactType::Apk {
            return Some(artifacts[i].path.clone());
        }
        assert(all.skip(i as int).drop_first() =~= all.skip(i + 1));
    }
    if artifacts.len() > 0 {
        Some(artifacts[0].path.clone())
    } else {
        None
    }
}

fn output_of(artifact: &Artifact, run_id: &str, job_id: &str, now: i64) -> (r: RunOutput)
    ensures
        r@ == artifact_output(artifact@, run_id@, job_id@, now),
{
    broadcast use lemma_kvs_push;

    let path: String = trim_owned(artifact.path.as_str());
    let kind: &'static str = artifact_type_label(artifact.kind);
    let named: bool = !is_blank(artifact.name.as_str());
    let label: String = if named {
        trim_owned(artifact.name.as_str())
    } else {
        path.clone()
    };
    let mut metadata: Vec<KeyValue> = clone_kvs(&artifact.metadata);
    metadata.push(metric("artifact_type", kind));
    if named {
        metadata.push(metric("artifact_name", artifact.name.as_str()));
    }
    let mut output_id: String = cat3("artifact:", job_id, ":");
    output_id.append(path.as_str());
    RunOutput {
        output_id,
        run_id: run_id.to_owned(),
        kind: RunOutputKind::Artifact,
        output_type: kind.to_owned(),
        path,
        label,
        job_id: job_id.to_owned(),
        created_at: now,
        metadata,
    }
}

/// Adds the record of a build's artifacts, unless there is nothing to record.
fn push_outputs(
    effects: &mut Effects,
    artifacts: &Vec<Artifact>,
    run_id: &str,
    job_id: &str,
    now: i64,
)
    requires
        old(effects)@ == Seq::<EffectView>::empty(),
    ensures
        final(effects)@ == outputs_effects(artifact_views(artifacts@), run_id@, job_id@, now),
{
    let ghost all = artifact_views(artifacts@);
    let mut outputs: Vec<RunOutput> = Vec::new();
    assert(output_views(outputs@) =~= artifact_outputs(all.take(0), run_id@, job_id@, now));
    for i in 0..artifacts.len()
        invariant
            all == artifact_views(artifacts@),
            output_views(outputs@) == artifact_outputs(
                all.take(i as int),
                run_id@,
                job_id@,
                now,
            ),
    {
        assert(all.take(i + 1).drop_last() =~= all.take(i as int));
        assert(all.take(i + 1).last() == artifacts@[i as int]@);
        let ghost done = output_views(outputs@);
        if !is_blank(artifacts[i].path.as_str()) {
            let output: RunOutput = output_of(&artifacts[i], run_id, job_id, now);
            outputs.push(output);
            assert(output_views(outputs@) =~= done.push(output@));
        }
    }
    assert(all.take(artifacts.len() as int) =~= all);
    assert(output_views(outputs@).len() == outputs@.len());
    if !is_blank(run_id) && outputs.len() > 0 {
        effects.push(Effect::RecordOutputs { run_id: run_id.to_owned(), outputs });
    }
}

impl PipelineRun {
    /// Begins a run.
    pub fn start(req: &PipelineRequest, run_id: &str, correlation_id: &str, now: i64) -> (r: (
        PipelineRun,
        Turn,
    ))
        ensures
            (Progressed { run: r.0@, turn: r.1@ }) == started(*req, run_id@, correlation_id@, now),
            run_wf(r.0@),
    {
        broadcast use lemma_kvs_push;

        let plan: PipelinePlan = plan_pipeline(req, run_id, correlation_id, now);
        let mut outputs: Vec<KeyValue> = Vec::new();
        assert(kvs(outputs@) =~= Seq::empty());
        outputs.push(metric("run_id", run_id));
        outputs.push(metric("correlation_id", correlation_id));
        let run = PipelineRun {
            plan,
            step_index: 0,
            project_id: clean_id_text(&req.project_id),
            apk_path: trim_owned(req.apk_path.as_str()),
            job_ids: Vec::new(),
            outputs,
            phase: Phase::Starting,
        };
        assert(texts(run.job_ids@) =~= Seq::empty());
        let mut effects: Effects = Effects::new();
        effects.log(
            cat5("pipeline run_id=", run_id, " correlation_id=", correlation_id, "\n"),
        );
        effects.push(Effect::PublishState { state: JobState::Running });
        let record: RunRecord = run.record("running", Vec::new(), None);
        assert(run@ =~= started_run(*req, run_id@, correlation_id@, now));
        let turn = Turn { effects, call: Some(Call::RecordRun { record }) };
        (run, turn)
    }

    fn record(&self, result: &str, summary: Vec<KeyValue>, finished_at: Option<i64>) -> (r:
        RunRecord)
        ensures
            r@ == run_record(self@, result@, kvs(summary@), finished_at),
    {
        RunRecord {
            run_id: self.plan.run_id.clone(),
            correlation_id: self.plan.correlation_id.clone(),
            project_id: optional(&self.project_id),
            target_id: optional(&self.plan.target_id),
            toolchain_set_id: optional(&self.plan.toolchain_set_id),
            job_ids: clone_texts(&self.job_ids),
            result: result.to_owned(),
            summary,
            started_at: Some(self.plan.started_at),
            finished_at,
        }
    }

    fn project_ref(&self) -> (r: String)
        ensures
            r@ == project_ref(self@),
    {
        if !self.project_id.as_str().is_empty() {
            self.project_id.clone()
        } else {
            self.plan.project_path.clone()
        }
    }

    fn lacks_input(&self, step: Step) -> (r: bool)
        ensures
            r == lacks_input(self@, step),
    {
        match step {
            Step::CreateProject => self.plan.template_id.as_str().is_empty()
                || self.plan.project_path.as_str().is_empty(),
            Step::OpenProject => self.plan.project_path.as_str().is_empty(),
            Step::VerifyToolchain => self.plan.toolchain_id.as_str().is_empty(),
            Step::Build => is_blank(self.project_ref().as_str()),
            Step::InstallApk => self.plan.target_id.as_str().is_empty()
                || self.apk_path.as_str().is_empty(),
            Step::LaunchApp => self.plan.target_id.as_str().is_empty()
                || self.plan.application_id.as_str().is_empty(),
            Step::SupportBundle | Step::EvidenceBundle => false,
        }
    }

    fn step_metrics(&self, step: Step, total: u32) -> (r: Vec<KeyValue>)
        requires
            total == total_steps(self@.plan.steps),
        ensures
            kvs(r@) == step_progress(self@, step)->metrics,
    {
        broadcast use lemma_kvs_push;

        let mut m: Vec<KeyValue> = Vec::new();
        assert(kvs(m@) =~= Seq::empty());
        m.push(metric("pipeline_step", step.name()));
        m.push(metric("step_index", u32_text(self.step_index).as_str()));
        m.push(metric("total_steps", u32_text(total).as_str()));
        m.push(metric("run_id", self.plan.run_id.as_str()));
        m.push(metric("correlation_id", self.plan.correlation_id.as_str()));
        match step {
            Step::CreateProject => {
                if !self.plan.template_id.as_str().is_empty() {
                    m.push(metric("template_id", self.plan.template_id.as_str()));
                }
                if !self.plan.project_path.as_str().is_empty() {
                    m.push(metric("project_path", self.plan.project_path.as_str()));
                }
            },
            Step::OpenProject => {
                m.push(metric("project_path", self.plan.project_path.as_str()));
            },
            Step::VerifyToolchain => {
                m.push(metric("toolchain_id", self.plan.toolchain_id.as_str()));
            },
            Step::Build => {
                m.push(metric("project_ref", self.project_ref().as_str()));
            },
            Step::InstallApk => {
                m.push(metric("target_id", self.plan.target_id.as_str()));
                m.push(metric("apk_path", self.apk_path.as_str()));
            },
            Step::LaunchApp => {
                m.push(metric("target_id", self.plan.target_id.as_str()));
                m.push(metric("application_id", self.plan.application_id.as_str()));
            },
            Step::SupportBundle | Step::EvidenceBundle => {},
        }
        assert(kvs(m@) =~= step_progress(self@, step)->metrics);
        m
    }

    fn push_progress(&self, effects: &mut Effects, step: Step)
        requires
            self.step_index <= STEP_COUNT,
        ensures
            final(effects)@ == old(effects)@.push(step_progress(self@, step)),
    {
        let total: u32 = count_steps(&self.plan.steps);
        let metrics: Vec<KeyValue> = self.step_metrics(step, total);
        let percent: u32 = self.step_index * 100 / total;
        effects.push(Effect::PublishProgress { percent, phase: step.name().to_owned(), metrics });
    }

    fn request(&self, step: Step) -> (r: Call)
        ensures
            r@ == step_request(self@, step),
    {
        match step {
            Step::CreateProject => Call::CreateProject {
                name: self.plan.project_name.clone(),
                path: self.plan.project_path.clone(),
                template_id: self.plan.template_id.clone(),
                toolchain_set_id: optional(&self.plan.toolchain_set_id),
                correlation_id: self.plan.correlation_id.clone(),
                run_id: self.plan.run_id.clone(),
            },
            Step::OpenProject => Call::OpenProject { path: self.plan.project_path.clone() },
            Step::VerifyToolchain => Call::VerifyToolchain {
                toolchain_id: self.plan.toolchain_id.clone(),
                correlation_id: self.plan.correlation_id.clone(),
                run_id: self.plan.run_id.clone(),
            },
            Step::Build => {
                let gradle_args: Vec<KeyValue> = Vec::new();
                assert(kvs(gradle_args@) =~= Seq::empty());
                Call::Build {
                    project_id: self.project_ref(),
                    variant: self.plan.variant,
                    clean_first: false,
                    gradle_args,
                    module: self.plan.module.clone(),
                    variant_name: self.plan.variant_name.clone(),
                    tasks: clone_texts(&self.plan.tasks),
                    correlation_id: self.plan.correlation_id.clone(),
                    run_id: self.plan.run_id.clone(),
                }
            },
            Step::InstallApk => Call::InstallApk {
                target_id: self.plan.target_id.clone(),
                project_id: optional(&self.project_id),
                apk_path: self.apk_path.clone(),
                correlation_id: self.plan.correlation_id.clone(),
                run_id: self.plan.run_id.clone(),
            },
            Step::LaunchApp => Call::Launch {
                target_id: self.plan.target_id.clone(),
                application_id: self.plan.application_id.clone(),
                activity: self.plan.activity.clone(),
                correlation_id: self.plan.correlation_id.clone(),
                run_id: self.plan.run_id.clone(),
            },
            Step::SupportBundle => Call::ExportSupportBundle {
                include_logs: true,
                include_config: true,
                include_toolchain_provenance: true,
                include_recent_runs: false,
                recent_runs_limit: 10,
                project_id: optional(&self.project_id),
                target_id: optional(&self.plan.target_id),
                toolchain_set_id: optional(&self.plan.toolchain_set_id),
                correlation_id: self.plan.correlation_id.clone(),
                run_id: self.plan.run_id.clone(),
            },
            Step::EvidenceBundle => Call::ExportEvidenceBundle {
                run_id: self.plan.run_id.clone(),
                correlation_id: self.plan.correlation_id.clone(),
            },
        }
    }

    fn artifacts_request(&self) -> (r: Call)
        ensures
            r@ == artifacts_request(self@),
    {
        broadcast use lemma_texts_push;

        let mut modules: Vec<String> = Vec::new();
        assert(texts(modules@) =~= Seq::empty());
        if !is_blank(self.plan.module.as_str()) {
            modules.push(trim_owned(self.plan.module.as_str()));
        }
        Call::ListArtifacts {
            project_id: self.project_ref(),
            variant: self.plan.variant,
            modules,
            variant_name: trim_owned(self.plan.variant_name.as_str()),
        }
    }

    /// Ends the run in failure.
    fn fail(&mut self, effects: Effects, message: &str, technical: &str, now: i64) -> (t: Turn)
        ensures
            (Progressed { run: final(self)@, turn: t@ }) == failed(
                old(self)@,
                effects@,
                message@,
                technical@,
                now,
            ),
            old(self)@.step_index <= wanted_before(old(self)@.plan.steps, STEP_COUNT as int)
                ==> run_wf(final(self)@),
    {
        broadcast use lemma_kvs_push;

        let mut effects: Effects = effects;
        let ghost before = effects@;
        let error = job_error_detail(
            ErrorCode::Internal,
            message,
            technical,
            self.plan.correlation_id.as_str(),
        );
        effects.push(Effect::PublishFailed { error });
        let mut summary: Vec<KeyValue> = Vec::new();
        assert(kvs(summary@) =~= Seq::empty());
        summary.push(metric("error", message));
        summary.push(metric("detail", technical));
        assert(kvs(summary@) =~= seq![kv("error"@, message@), kv("detail"@, technical@)]);
        let record: RunRecord = self.record("failed", summary, Some(now));
        let ghost last = failure_effects(old(self)@, message@, technical@, now);
        effects.push(Effect::RecordRun { record });
        effects.push(Effect::PublishState { state: JobState::Failed });
        self.phase = Phase::Ended;
        assert(effects@ =~= before.push(last[0]).push(last[1]).push(last[2]));
        assert(effects@ =~= before + last);
        Turn { effects, call: None }
    }

    /// Sends the request of a step that has begun.
    fn send_request(&mut self, step: Step, effects: Effects) -> (t: Turn)
        ensures
            final(self)@ == (RunView { phase: PhaseView::Requested { step }, ..old(self)@ }),
            t@ == (TurnView {
                effects: effects@,
                call: Some(step_request(old(self)@, step)),
            }),
    {
        let call: Call = self.request(step);
        self.phase = Phase::Requested { step };
        Turn { effects, call: Some(call) }
    }

    /// Has the completion recorded, behind the last step.
    fn record_completion(&mut self, effects: Effects, now: i64) -> (t: Turn)
        ensures
            (Progressed { run: final(self)@, turn: t@ }) == went_on(
                old(self)@,
                STEP_COUNT as int,
                effects@,
                now,
            ),
            final(self)@ == (RunView { phase: PhaseView::Recording, ..old(self)@ }),
    {
        broadcast use lemma_kvs_push;

        let mut summary: Vec<KeyValue> = Vec::new();
        assert(kvs(summary@) =~= Seq::empty());
        summary.push(metric("pipeline", "complete"));
        let record: RunRecord = self.record("success", summary, Some(now));
        self.phase = Phase::Recording;
        Turn { effects, call: Some(Call::RecordRun { record }) }
    }

    /// Counts a step that begins and reports it.
    fn begin_step(&mut self, effects: &mut Effects, step: Step)
        requires
            old(self)@.step_index < STEP_COUNT,
        ensures
            final(self)@ == (RunView {
                step_index: (old(self)@.step_index + 1) as u32,
                ..old(self)@
            }),
            final(effects)@ == old(effects)@.push(step_progress(final(self)@, step)),
    {
        self.step_index = self.step_index + 1;
        self.push_progress(effects, step);
    }

    /// Goes on with the first step from place `from` that can be requested.
    fn go_on(&mut self, from: usize, effects: Effects, now: i64) -> (t: Turn)
        requires
            from <= STEP_COUNT,
            old(self)@.step_index == wanted_before(old(self)@.plan.steps, from as int),
        ensures
            (Progressed { run: final(self)@, turn: t@ }) == went_on(
                old(self)@,
                from as int,
                effects@,
                now,
            ),
            run_wf(final(self)@),
        decreases STEP_COUNT - from,
    {
        if from >= STEP_COUNT {
            return self.record_completion(effects, now);
        }
        proof {
            lemma_wanted_before_bound(self@.plan.steps, from as int);
            lemma_wanted_before_grows(self@.plan.steps, from + 1, STEP_COUNT as int);
        }
        let step: Step = Step::from_place(from);
        if !is_wanted(&self.plan.steps, step) {
            return self.go_on(from + 1, effects, now);
        }
        let mut effects: Effects = effects;
        self.begin_step(&mut effects, step);
        if !self.lacks_input(step) {
            self.send_request(step, effects)
        } else if self.plan.inferred {
            effects.log(cat3("WARN: ", step.needs_message(), ", skipping\n"));
            self.go_on(from + 1, effects, now)
        } else {
            self.fail(effects, "pipeline failed", step.needs_message(), now)
        }
    }

    fn adopt_project(&mut self, project_id: &Option<String>)
        ensures
            final(self)@ == with_project(old(self)@, opt_text(*project_id)),
    {
        broadcast use lemma_kvs_push;

        if let Some(id) = filled_text(project_id) {
            self.outputs.push(metric("project_id", id.as_str()));
            self.project_id = id;
        }
    }

    /// Waits for the job that a step started.
    fn wait_for(
        &mut self,
        step: Step,
        job_id: String,
        project_id: Option<String>,
        verified: bool,
    ) -> (t: Turn)
        ensures
            final(self)@ == (RunView {
                job_ids: old(self)@.job_ids.push(job_id@),
                phase: PhaseView::Waiting {
                    step,
                    job_id: job_id@,
                    project_id: opt_text(project_id),
                    verified,
                },
                ..old(self)@
            }),
            t@ == (TurnView {
                effects: Seq::empty(),
                call: Some(CallView::WaitForJob { job_id: job_id@ }),
            }),
    {
        broadcast use lemma_texts_push;

        self.job_ids.push(job_id.clone());
        self.phase = Phase::Waiting { step, job_id: job_id.clone(), project_id, verified };
        Turn { effects: Effects::new(), call: Some(Call::WaitForJob { job_id }) }
    }

    /// Goes on behind a step that makes or finds a project.
    fn go_on_with_project(&mut self, step: Step, project_id: &Option<String>, now: i64) -> (t:
        Turn)
        requires
            old(self)@.step_index == wanted_before(old(self)@.plan.steps, step.index() + 1),
        ensures
            (Progressed { run: final(self)@, turn: t@ }) == went_on(
                with_project(old(self)@, opt_text(*project_id)),
                step.index() + 1,
                Seq::empty(),
                now,
            ),
            run_wf(final(self)@),
    {
        self.adopt_project(project_id);
        self.go_on(step.place() + 1, Effects::new(), now)
    }

    fn on_accepted(
        &mut self,
        step: Step,
        job_id: Option<String>,
        project_id: Option<String>,
        verified: bool,
        now: i64,
    ) -> (t: Turn)
        requires
            run_wf(old(self)@),
            old(self)@.phase == (PhaseView::Requested { step }),
        ensures
            (Progressed { run: final(self)@, turn: t@ }) == accepted(
                old(self)@,
                step,
                opt_text(job_id),
                opt_text(project_id),
                verified,
                now,
            ),
            run_wf(final(self)@),
    {
        let job: Option<String> = if step == Step::OpenProject {
            None
        } else {
            filled_text(&job_id)
        };
        match job {
            Some(id) => self.wait_for(step, id, project_id, verified),
            None => {
                if step == Step::Build || step == Step::InstallApk || step == Step::LaunchApp {
                    let message: String = cat2(step.name(), " failed");
                    self.fail(Effects::new(), message.as_str(), "empty job_id", now)
                } else if step == Step::CreateProject || step == Step::OpenProject {
                    self.go_on_with_project(step, &project_id, now)
                } else {
                    self.go_on(step.place() + 1, Effects::new(), now)
                }
            },
        }
    }

    fn on_job_ended(
        &mut self,
        step: Step,
        job_id: String,
        project_id: Option<String>,
        verified: bool,
        state: JobState,
        now: i64,
    ) -> (t: Turn)
        requires
            run_wf(old(self)@),
            old(self)@.phase == (PhaseView::Waiting {
                step,
                job_id: job_id@,
                project_id: opt_text(project_id),
                verified,
            }),
        ensures
            (Progressed { run: final(self)@, turn: t@ }) == job_ended(
                old(self)@,
                step,
                job_id@,
                opt_text(project_id),
                verified,
                state,
                now,
            ),
            run_wf(final(self)@),
    {
        if step == Step::CreateProject {
            self.go_on_with_project(step, &project_id, now)
        } else if state != JobState::Success || (step == Step::VerifyToolchain && !verified) {
            let message: String = cat2(step.name(), " failed");
            self.fail(Effects::new(), message.as_str(), step.job_failed_message(), now)
        } else if step == Step::Build {
            let call: Call = self.artifacts_request();
            self.phase = Phase::Listing { job_id };
            Turn { effects: Effects::new(), call: Some(call) }
        } else {
            self.go_on(step.place() + 1, Effects::new(), now)
        }
    }

    fn adopt_artifact(&mut self, artifacts: &Vec<Artifact>)
        ensures
            final(self)@ == with_artifact(old(self)@, artifact_views(artifacts@)),
    {
        broadcast use lemma_kvs_push;

        if let Some(path) = select_artifact_path(artifacts) {
            self.outputs.push(metric("artifact_path", path.as_str()));
            if self.apk_path.as_str().is_empty() {
                self.apk_path = path;
            }
        }
    }

    fn on_artifacts(&mut self, job_id: &str, artifacts: Vec<Artifact>, now: i64) -> (t: Turn)
        requires
            run_wf(old(self)@),
            old(self)@.phase == (PhaseView::Listing { job_id: job_id@ }),
        ensures
            (Progressed { run: final(self)@, turn: t@ }) == artifacts_listed(
                old(self)@,
                job_id@,
                artifact_views(artifacts@),
                now,
            ),
            run_wf(final(self)@),
    {
        let mut effects: Effects = Effects::new();
        push_outputs(&mut effects, &artifacts, self.plan.run_id.as_str(), job_id, now);
        self.adopt_artifact(&artifacts);
        self.go_on(Step::Build.place() + 1, effects, now)
    }

    fn warn_of(effects: &mut Effects, what: &str, problem: Option<String>)
        requires
            old(effects)@ == Seq::<EffectView>::empty(),
        ensures
            final(effects)@ == record_warning(what@, opt_text(problem)),
    {
        if let Some(err) = problem {
            effects.log(cat5("WARN: failed to upsert run ", what, ": ", err.as_str(), "\n"));
        }
    }

    fn copy_of_phase(&self) -> (r: Phase)
        ensures
            r@ == self@.phase,
    {
        match &self.phase {
            Phase::Starting => Phase::Starting,
            Phase::Requested { step } => Phase::Requested { step: *step },
            Phase::Waiting { step, job_id, project_id, verified } => Phase::Waiting {
                step: *step,
                job_id: job_id.clone(),
                project_id: match project_id {
                    Some(id) => Some(id.clone()),
                    None => None,
                },
                verified: *verified,
            },
            Phase::Listing { job_id } => Phase::Listing { job_id: job_id.clone() },
            Phase::Recording => Phase::Recording,
            Phase::Ended => Phase::Ended,
        }
    }

    fn on_start_recorded(&mut self, reply: Reply, now: i64) -> (t: Turn)
        requires
            run_wf(old(self)@),
            old(self)@.phase is Starting,
            reply@ is Recorded,
        ensures
            (Progressed { run: final(self)@, turn: t@ }) == advanced(old(self)@, reply@, now),
            run_wf(final(self)@),
    {
        let problem: Option<String> = match reply {
            Reply::Recorded { problem } => problem,
            _ => None,
        };
        let mut effects: Effects = Effects::new();
        Self::warn_of(&mut effects, "start", problem);
        self.go_on(0, effects, now)
    }

    fn on_answer(&mut self, step: Step, reply: Reply, now: i64) -> (t: Turn)
        requires
            run_wf(old(self)@),
            old(self)@.phase == (PhaseView::Requested { step }),
            reply@ is Unavailable || reply@ is Refused || reply@ is Accepted,
        ensures
            (Progressed { run: final(self)@, turn: t@ }) == answered(
                old(self)@,
                step,
                reply@,
                now,
            ),
            run_wf(final(self)@),
    {
        match reply {
            Reply::Unavailable { error } => {
                self.fail(Effects::new(), step.unavailable_message(), error.as_str(), now)
            },
            Reply::Refused { error } => {
                let message: String = cat2(step.name(), " failed");
                self.fail(Effects::new(), message.as_str(), error.as_str(), now)
            },
            Reply::Accepted { job_id, project_id, verified } => {
                self.on_accepted(step, job_id, project_id, verified, now)
            },
            _ => Turn { effects: Effects::new(), call: None },
        }
    }

    fn on_waited(
        &mut self,
        step: Step,
        job_id: String,
        project_id: Option<String>,
        verified: bool,
        reply: Reply,
        now: i64,
    ) -> (t: Turn)
        requires
            run_wf(old(self)@),
            old(self)@.phase == (PhaseView::Waiting {
                step,
                job_id: job_id@,
                project_id: opt_text(project_id),
                verified,
            }),
            reply@ is JobEnded || reply@ is WaitFailed,
        ensures
            (Progressed { run: final(self)@, turn: t@ }) == waited(
                old(self)@,
                step,
                job_id@,
                opt_text(project_id),
                verified,
                reply@,
                now,
            ),
            run_wf(final(self)@),
    {
        match reply {
            Reply::JobEnded { state } => {
                self.on_job_ended(step, job_id, project_id, verified, state, now)
            },
            Reply::WaitFailed { error } => {
                let message: String = cat2(step.name(), " job failed");
                self.fail(Effects::new(), message.as_str(), error.as_str(), now)
            },
            _ => Turn { effects: Effects::new(), call: None },
        }
    }

    fn on_listed(&mut self, job_id: &str, reply: Reply, now: i64) -> (t: Turn)
        requires
            run_wf(old(self)@),
            old(self)@.phase == (PhaseView::Listing { job_id: job_id@ }),
        ensures
            (Progressed { run: final(self)@, turn: t@ }) == artifacts_listed(
                old(self)@,
                job_id@,
                artifacts_in(reply@),
                now,
            ),
            run_wf(final(self)@),
    {
        let artifacts: Vec<Artifact> = match reply {
            Reply::Artifacts { artifacts } => artifacts,
            _ => Vec::new(),
        };
        assert(artifact_views(artifacts@) =~= artifacts_in(reply@));
        self.on_artifacts(job_id, artifacts, now)
    }

    fn on_end_recorded(&mut self, reply: Reply, now: i64) -> (t: Turn)
        requires
            run_wf(old(self)@),
            old(self)@.phase is Recording,
            reply@ is Recorded,
        ensures
            (Progressed { run: final(self)@, turn: t@ }) == advanced(old(self)@, reply@, now),
            run_wf(final(self)@),
    {
        let problem: Option<String> = match reply {
            Reply::Recorded { problem } => problem,
            _ => None,
        };
        let mut effects: Effects = Effects::new();
        Self::warn_of(&mut effects, "completion", problem);
        let outputs: Vec<KeyValue> = clone_kvs(&self.outputs);
        effects.push(
            Effect::PublishCompleted {
                summary: "Workflow pipeline completed".to_owned(),
                outputs,
            },
        );
        self.phase = Phase::Ended;
        Turn { effects, call: None }
    }

    /// What the run does with an answer to its last call.
    pub fn advance(&mut self, reply: Reply, now: i64) -> (t: Turn)
        requires
            run_wf(old(self)@),
            fits(old(self)@.phase, reply@),
        ensures
            (Progressed { run: final(self)@, turn: t@ }) == advanced(old(self)@, reply@, now),
            run_wf(final(self)@),
    {
        match self.copy_of_phase() {
            Phase::Starting => self.on_start_recorded(reply, now),
            Phase::Requested { step } => self.on_answer(step, reply, now),
            Phase::Waiting { step, job_id, project_id, verified } => {
                self.on_waited(step, job_id, project_id, verified, reply, now)
            },
            Phase::Listing { job_id } => self.on_listed(job_id.as_str(), reply, now),
            Phase::Recording => self.on_end_recorded(reply, now),
            Phase::Ended => Turn { effects: Effects::new(), call: None },
        }
    }
}

/// What is seen of a phase is what it holds, each part in its place.
pub proof fn law_phase_is_seen_whole(phase: Phase)
    ensures
        match phase {
            Phase::Starting => phase@ is Starting,
            Phase::Requested { step } => {
                &&& phase@ is Requested
                &&& phase@->Requested_step == step
            },
            Phase::Waiting { step, job_id, project_id, verified } => {
                &&& phase@ is Waiting
                &&& phase@->Waiting_step == step
                &&& phase@->Waiting_job_id == job_id@
                &&& phase@->Waiting_project_id == opt_text(project_id)
                &&& phase@->Waiting_verified == verified
            },
            Phase::Listing { job_id } => {
                &&& phase@ is Listing
                &&& phase@->Listing_job_id == job_id@
            },
            Phase::Recording => phase@ is Recording,
            Phase::Ended => phase@ is Ended,
        },
{
}

/// What is seen of a run is what it holds, each part in its place.
pub proof fn law_run_is_seen_whole(run: PipelineRun)
    ensures
        run@.plan == run.plan@,
        run@.step_index == run.step_index,
        run@.project_id == run.project_id@,
        run@.apk_path == run.apk_path@,
        run@.job_ids == texts(run.job_ids@),
        run@.outputs == kvs(run.outputs@),
        run@.phase == run.phase@,
{
}

/// A step lacks something exactly where what it works on is not there: a template and a path for a new
/// project, a path for one that is opened, a toolchain to verify, a project to build, a target and an
/// APK to install, a target and an application to launch. Bundles lack nothing.
pub proof fn law_what_a_step_lacks(r: RunView)
    ensures
        !lacks_input(r, Step::CreateProject) <==> r.plan.template_id.len() > 0
            && r.plan.project_path.len() > 0,
        !lacks_input(r, Step::OpenProject) <==> r.plan.project_path.len() > 0,
        !lacks_input(r, Step::VerifyToolchain) <==> r.plan.toolchain_id.len() > 0,
        !lacks_input(r, Step::Build) <==> (r.project_id.len() > 0 && !blank(r.project_id)) || (
        r.project_id.len() == 0 && !blank(r.plan.project_path)),
        !lacks_input(r, Step::InstallApk) <==> r.plan.target_id.len() > 0 && r.apk_path.len() > 0,
        !lacks_input(r, Step::LaunchApp) <==> r.plan.target_id.len() > 0
            && r.plan.application_id.len() > 0,
        !lacks_input(r, Step::SupportBundle) && !lacks_input(r, Step::EvidenceBundle),
{
}

/// A record of a run holds what the run is for and what it came to, each in its place.
pub proof fn law_record_of_a_run(
    r: RunView,
    result: Seq<char>,
    summary: Seq<KeyValueView>,
    finished_at: Option<i64>,
)
    ensures
        ({
            let record = run_record(r, result, summary, finished_at);
            &&& record.run_id == r.plan.run_id
            &&& record.correlation_id == r.plan.correlation_id
            &&& r.project_id.len() > 0 ==> record.project_id == Some(r.project_id)
            &&& r.project_id.len() == 0 ==> record.project_id is None
            &&& r.plan.target_id.len() > 0 ==> record.target_id == Some(r.plan.target_id)
            &&& r.plan.target_id.len() == 0 ==> record.target_id is None
            &&& r.plan.toolchain_set_id.len() > 0 ==> record.toolchain_set_id == Some(
                r.plan.toolchain_set_id,
            )
            &&& r.plan.toolchain_set_id.len() == 0 ==> record.toolchain_set_id is None
            &&& record.job_ids == r.job_ids
            &&& record.result == result
            &&& record.summary == summary
            &&& record.started_at == Some(r.plan.started_at)
            &&& record.finished_at == finished_at
        }),
{
}

/// A run that fails tells its error with the message and the detail, is recorded as failed at that
/// time with both, and leaves its job failed.
pub proof fn law_what_a_failure_tells(
    r: RunView,
    effects: Seq<EffectView>,
    message: Seq<char>,
    technical: Seq<char>,
    now: i64,
)
    ensures
        ({
            let g = failed(r, effects, message, technical, now);
            let n = effects.len() as int;
            let sent = g.turn.effects;
            &&& g.turn.call is None && g.run.phase is Ended
            &&& sent.len() == n + 3
            &&& effects.is_prefix_of(sent)
            &&& sent[n] is PublishFailed && sent[n]->error.message == message
                && sent[n]->error.technical_details == technical && sent[n]->error.correlation_id
                == r.plan.correlation_id
            &&& sent[n + 1] is RecordRun && sent[n + 1]->record.result == "failed"@ && sent[n
                + 1]->record.finished_at == Some(now) && sent[n + 1]->record.run_id
                == r.plan.run_id
            &&& sent[n + 1]->record.summary.contains(kv("error"@, message))
            &&& sent[n + 1]->record.summary.contains(kv("detail"@, technical))
            &&& sent[n + 2] == (EffectView::PublishState { state: JobState::Failed })
        }),
{
    let sent = failed(r, effects, message, technical, now).turn.effects;
    let n = effects.len() as int;
    assert(sent.take(n) =~= effects);
    let summary = sent[n + 1]->record.summary;
    assert(summary[0] == kv("error"@, message) && summary[1] == kv("detail"@, technical));
}

/// Of a build's artifacts the first APK is selected, or the first of all where there is none.
pub proof fn law_selected_artifact(artifacts: Seq<ArtifactView>)
    ensures
        selected_artifact(artifacts) is None <==> artifacts.len() == 0,
        forall|i: int|
            0 <= i < artifacts.len() && (#[trigger] artifacts[i]).kind == ArtifactType::Apk && (
            forall|j: int| 0 <= j < i ==> (#[trigger] artifacts[j]).kind != ArtifactType::Apk)
                ==> selected_artifact(artifacts) == Some(artifacts[i].path),
        artifacts.len() > 0 && (forall|j: int|
            0 <= j < artifacts.len() ==> (#[trigger] artifacts[j]).kind != ArtifactType::Apk)
            ==> selected_artifact(artifacts) == Some(artifacts[0].path),
{
    lemma_first_apk(artifacts);
}

proof fn lemma_first_apk(artifacts: Seq<ArtifactView>)
    ensures
        match first_apk(artifacts) {
            Some(path) => exists|i: int|
                #![trigger artifacts[i]]
                0 <= i < artifacts.len() && artifacts[i].kind == ArtifactType::Apk
                    && artifacts[i].path == path && forall|j: int|
                    0 <= j < i ==> (#[trigger] artifacts[j]).kind != ArtifactType::Apk,
            None => forall|j: int|
                0 <= j < artifacts.len() ==> (#[trigger] artifacts[j]).kind != ArtifactType::Apk,
        },
    decreases artifacts.len(),
{
    if artifacts.len() > 0 && artifacts[0].kind != ArtifactType::Apk {
        let rest = artifacts.drop_first();
        lemma_first_apk(rest);
        match first_apk(rest) {
            Some(path) => {
                let i = choose|i: int|
                    #![trigger rest[i]]
                    0 <= i < rest.len() && rest[i].kind == ArtifactType::Apk && rest[i].path == path
                        && forall|j: int|
                        0 <= j < i ==> (#[trigger] rest[j]).kind != ArtifactType::Apk;
                assert(artifacts[i + 1] == rest[i]);
                assert forall|j: int| 0 <= j < i + 1 implies (#[trigger] artifacts[j]).kind
                    != ArtifactType::Apk by {
                    if j > 0 {
                        assert(rest[j - 1] == artifacts[j]);
                    }
                }
            },
            None => {
                assert forall|j: int| 0 <= j < artifacts.len() implies (#[trigger] artifacts[j]).kind
                    != ArtifactType::Apk by {
                    if j > 0 {
                        assert(rest[j - 1] == artifacts[j]);
                    }
                }
            },
        }
    } else if artifacts.len() > 0 {
        assert(artifacts[0].kind == ArtifactType::Apk);
    }
}

/// A step that begins is reported with its own title, how far the run has come, and the run's ids.
pub proof fn law_report_of_a_step(r: RunView, step: Step)
    requires
        total_steps(r.plan.steps) > 0,
        r.step_index <= total_steps(r.plan.steps),
    ensures
        ({
            let e = step_progress(r, step);
            let total = total_steps(r.plan.steps) as int;
            &&& e is PublishProgress
            &&& e->phase == step.title()
            &&& e->percent * total <= r.step_index * 100 < (e->percent + 1) * total
            &&& e->metrics.contains(kv("pipeline_step"@, step.title()))
            &&& e->metrics.contains(kv("step_index"@, dec_nat(r.step_index as nat)))
            &&& e->metrics.contains(kv("total_steps"@, dec_nat(total_steps(r.plan.steps))))
            &&& e->metrics.contains(kv("run_id"@, r.plan.run_id))
            &&& e->metrics.contains(kv("correlation_id"@, r.plan.correlation_id))
        }),
{
    let e = step_progress(r, step);
    let total = total_steps(r.plan.steps) as int;
    let index = r.step_index as int;
    assert(e->metrics[0] == kv("pipeline_step"@, step.title()));
    assert(e->metrics[1] == kv("step_index"@, dec_nat(r.step_index as nat)));
    assert(e->metrics[2] == kv("total_steps"@, dec_nat(total_steps(r.plan.steps))));
    assert(e->metrics[3] == kv("run_id"@, r.plan.run_id));
    assert(e->metrics[4] == kv("correlation_id"@, r.plan.correlation_id));
    let p = percent_at(index, total);
    assert(0 <= p <= 100 && p * total <= index * 100 < (p + 1) * total) by (nonlinear_arith)
        requires
            p == index * 100 / total,
            total > 0,
            0 <= index <= total,
    ;
}

/// A step that needs something reports what it works on.
pub proof fn law_inputs_of_a_step(r: RunView)
    ensures
        r.plan.template_id.len() > 0 ==> step_inputs(r, Step::CreateProject).contains(
            kv("template_id"@, r.plan.template_id),
        ),
        r.plan.project_path.len() > 0 ==> step_inputs(r, Step::CreateProject).contains(
            kv("project_path"@, r.plan.project_path),
        ),
        step_inputs(r, Step::OpenProject).contains(kv("project_path"@, r.plan.project_path)),
        step_inputs(r, Step::VerifyToolchain).contains(kv("toolchain_id"@, r.plan.toolchain_id)),
        r.project_id.len() > 0 ==> step_inputs(r, Step::Build).contains(
            kv("project_ref"@, r.project_id),
        ),
        r.project_id.len() == 0 ==> step_inputs(r, Step::Build).contains(
            kv("project_ref"@, r.plan.project_path),
        ),
        step_inputs(r, Step::InstallApk).contains(kv("target_id"@, r.plan.target_id)),
        step_inputs(r, Step::InstallApk).contains(kv("apk_path"@, r.apk_path)),
        step_inputs(r, Step::LaunchApp).contains(kv("target_id"@, r.plan.target_id)),
        step_inputs(r, Step::LaunchApp).contains(kv("application_id"@, r.plan.application_id)),
{
    let created = step_inputs(r, Step::CreateProject);
    if r.plan.template_id.len() > 0 {
        assert(created[0] == kv("template_id"@, r.plan.template_id));
    }
    if r.plan.project_path.len() > 0 {
        assert(created.last() == kv("project_path"@, r.plan.project_path));
    }
    assert(step_inputs(r, Step::OpenProject)[0] == kv("project_path"@, r.plan.project_path));
    assert(step_inputs(r, Step::VerifyToolchain)[0] == kv("toolchain_id"@, r.plan.toolchain_id));
    assert(step_inputs(r, Step::Build)[0] == kv("project_ref"@, project_ref(r)));
    assert(step_inputs(r, Step::InstallApk)[0] == kv("target_id"@, r.plan.target_id));
    assert(step_inputs(r, Step::InstallApk)[1] == kv("apk_path"@, r.apk_path));
    assert(step_inputs(r, Step::LaunchApp)[0] == kv("target_id"@, r.plan.target_id));
    assert(step_inputs(r, Step::LaunchApp)[1] == kv("application_id"@, r.plan.application_id));
}

} // verus!
