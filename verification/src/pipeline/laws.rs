//! What holds of every pipeline run.

use crate::model::{kv, ArtifactView, JobState};
use crate::pipeline::messages::{
    log_effect, CallView, EffectView, PipelineOptions, PipelineRequest, ReplyView,
};
use crate::pipeline::plan::{
    lemma_wanted_before_bound, lemma_wanted_before_grows, planned, total_steps, wanted,
    wanted_before, PlanView, Step, STEP_COUNT,
};
use crate::pipeline::run::{
    accepted, advanced, answered, artifacts_in, artifacts_listed, begun, failed, failure_effects,
    filled, fits, job_ended, lacks_input, needs_job, outputs_effects, percent_at, record_warning,
    run_wf, started, step_progress, waited, went_on, with_artifact, with_project, PhaseView,
    Progressed, RunView,
};
use crate::text::dec_nat;
use vstd::prelude::*;

verus! {

/// The percentage that a step reports when it begins.
pub open spec fn step_percent(steps: PipelineOptions, step: Step) -> int {
    percent_at(wanted_before(steps, step.index() + 1) as int, total_steps(steps) as int)
}

/// The percentages that a run reports lie between 0 and 100, never fall from step to step, and
/// reach 100 with the last step.
pub proof fn law_percentages(steps: PipelineOptions, earlier: Step, later: Step)
    requires
        earlier.index() <= later.index(),
        wanted(steps, later),
    ensures
        0 <= step_percent(steps, earlier) <= step_percent(steps, later) <= 100,
        (forall|k: int| later.index() < k < STEP_COUNT ==> !wanted(steps, #[trigger] Step::at(k)))
            ==> step_percent(steps, later) == 100,
{
    let a = wanted_before(steps, earlier.index() + 1) as int;
    let b = wanted_before(steps, later.index() + 1) as int;
    let n = total_steps(steps) as int;
    lemma_wanted_before_grows(steps, earlier.index() + 1, later.index() + 1);
    lemma_wanted_before_grows(steps, later.index() + 1, STEP_COUNT as int);
    assert(Step::at(later.index()) == later);
    assert(b >= 1);
    assert(0 <= a * 100 / n <= b * 100 / n <= 100) by (nonlinear_arith)
        requires
            0 <= a <= b <= n,
            n > 0,
    ;
    if forall|k: int| later.index() < k < STEP_COUNT ==> !wanted(steps, #[trigger] Step::at(k)) {
        lemma_none_wanted_behind(steps, later.index() + 1, STEP_COUNT as int);
        assert(b * 100 / n == 100) by (nonlinear_arith)
            requires
                b == n,
                n > 0,
        ;
    }
}

proof fn lemma_none_wanted_behind(steps: PipelineOptions, j: int, k: int)
    requires
        0 <= j <= k <= STEP_COUNT,
        forall|i: int| j <= i < STEP_COUNT ==> !wanted(steps, #[trigger] Step::at(i)),
    ensures
        wanted_before(steps, k) == wanted_before(steps, j),
    decreases k - j,
{
    if j < k {
        lemma_none_wanted_behind(steps, j, k - 1);
        assert(!wanted(steps, Step::at(k - 1)));
    }
}

/// The last three effects say that the run failed: the error, the record, the state.
pub open spec fn ends_in_failure(effects: Seq<EffectView>) -> bool {
    let n = effects.len() as int;
    &&& n >= 3
    &&& effects[n - 3] is PublishFailed
    &&& effects[n - 2] matches EffectView::RecordRun { record } && record.result == "failed"@
    &&& effects[n - 1] == (EffectView::PublishState { state: JobState::Failed })
}

/// No effect completes the job.
pub open spec fn completes_nothing(effects: Seq<EffectView>) -> bool {
    forall|i: int| 0 <= i < effects.len() ==> !(#[trigger] effects[i] is PublishCompleted)
}

/// How far a run has come: a number that every answer raises.
pub open spec fn rank(phase: PhaseView) -> int {
    match phase {
        PhaseView::Starting => 0,
        PhaseView::Requested { step } => 3 * step.index() + 1,
        PhaseView::Waiting { step, .. } => 3 * step.index() + 2,
        PhaseView::Listing { .. } => 3 * Step::Build.index() + 3,
        PhaseView::Recording => 3 * STEP_COUNT + 1,
        PhaseView::Ended => 3 * STEP_COUNT + 2,
    }
}

proof fn lemma_failed(
    r: RunView,
    effects: Seq<EffectView>,
    message: Seq<char>,
    technical: Seq<char>,
    now: i64,
)
    requires
        completes_nothing(effects),
    ensures
        ends_in_failure(failed(r, effects, message, technical, now).turn.effects),
        completes_nothing(failed(r, effects, message, technical, now).turn.effects),
{
    let last = failure_effects(r, message, technical, now);
    let all = effects + last;
    let n = effects.len() as int;
    assert(all[n] == last[0] && all[n + 1] == last[1] && all[n + 2] == last[2]);
}

/// What holds of a run that has gone on from place `k`.
spec fn gone_on(r: RunView, k: int, g: Progressed) -> bool {
    &&& g.run.plan == r.plan
    &&& g.run.job_ids == r.job_ids
    &&& g.run.outputs == r.outputs
    &&& completes_nothing(g.turn.effects)
    &&& (g.turn.call is None <==> g.run.phase is Ended)
    &&& g.run.phase is Ended ==> !r.plan.inferred && ends_in_failure(g.turn.effects)
    &&& g.run.phase is Ended || g.run.phase is Recording || (g.run.phase matches
        PhaseView::Requested { step } && step.index() >= k)
    &&& g.run.phase matches PhaseView::Requested { step } ==> !lacks_input(g.run, step)
    &&& run_wf(g.run)
}

proof fn lemma_went_on(r: RunView, k: int, effects: Seq<EffectView>, now: i64)
    requires
        0 <= k <= STEP_COUNT,
        r.step_index == wanted_before(r.plan.steps, k),
        completes_nothing(effects),
    ensures
        gone_on(r, k, went_on(r, k, effects, now)),
    decreases STEP_COUNT - k,
{
    if k < STEP_COUNT {
        let step = Step::at(k);
        assert(step.index() == k);
        lemma_wanted_before_bound(r.plan.steps, k);
        lemma_wanted_before_grows(r.plan.steps, k + 1, STEP_COUNT as int);
        if !wanted(r.plan.steps, step) {
            lemma_went_on(r, k + 1, effects, now);
        } else {
            let begun_run = RunView { step_index: (r.step_index + 1) as u32, ..r };
            let reported = effects.push(step_progress(begun_run, step));
            assert(completes_nothing(reported));
            if lacks_input(begun_run, step) {
                if r.plan.inferred {
                    let warned = reported.push(
                        log_effect("WARN: "@ + step.needs_text() + ", skipping\n"@),
                    );
                    assert(completes_nothing(warned));
                    lemma_went_on(begun_run, k + 1, warned, now);
                } else {
                    lemma_failed(begun_run, reported, "pipeline failed"@, step.needs_text(), now);
                }
            }
        }
    }
}

/// Every answer brings a run further, so that a run ends after at most 26 answers.
pub proof fn law_run_comes_to_an_end(r: RunView, reply: ReplyView, now: i64)
    requires
        run_wf(r),
        fits(r.phase, reply),
    ensures
        rank(r.phase) < rank(advanced(r, reply, now).run.phase) <= 26,
{
    lemma_advanced(r, reply, now);
}

/// A run has ended exactly when it makes no further call.
pub proof fn law_ended_without_call(r: RunView, reply: ReplyView, now: i64)
    requires
        run_wf(r),
        fits(r.phase, reply),
    ensures
        advanced(r, reply, now).run.phase is Ended <==> advanced(r, reply, now).turn.call is None,
{
    lemma_advanced(r, reply, now);
}

/// A run that ends before its completion is recorded says that it failed: it publishes the error,
/// records the run as failed and sets the job's state, in this order and last.
pub proof fn law_failure_is_told(r: RunView, reply: ReplyView, now: i64)
    requires
        run_wf(r),
        fits(r.phase, reply),
        !(r.phase is Recording),
        advanced(r, reply, now).run.phase is Ended,
    ensures
        ends_in_failure(advanced(r, reply, now).turn.effects),
{
    lemma_advanced(r, reply, now);
}

/// The job is completed only by a run that has begun every step it was asked for and whose
/// completion was recorded.
pub proof fn law_completed_after_all_steps(r: RunView, reply: ReplyView, now: i64)
    requires
        run_wf(r),
        fits(r.phase, reply),
        !completes_nothing(advanced(r, reply, now).turn.effects),
    ensures
        r.phase is Recording,
        r.step_index == wanted_before(r.plan.steps, STEP_COUNT as int),
{
    lemma_advanced(r, reply, now);
}

/// The jobs that a run started, and the outputs that it has, are never forgotten.
pub proof fn law_jobs_and_outputs_only_grow(r: RunView, reply: ReplyView, now: i64)
    requires
        run_wf(r),
        fits(r.phase, reply),
    ensures
        r.job_ids.is_prefix_of(advanced(r, reply, now).run.job_ids),
        r.outputs.is_prefix_of(advanced(r, reply, now).run.outputs),
        advanced(r, reply, now).run.plan == r.plan,
{
    lemma_advanced(r, reply, now);
}

/// A request is sent only for a step that was asked for and has what it needs, and its steps are
/// taken in their order.
pub proof fn law_requests_in_order(r: RunView, reply: ReplyView, now: i64)
    requires
        run_wf(r),
        fits(r.phase, reply),
    ensures
        match advanced(r, reply, now).run.phase {
            PhaseView::Requested { step } => {
                &&& wanted(r.plan.steps, step)
                &&& !lacks_input(advanced(r, reply, now).run, step)
                &&& step.index() >= begun(r.phase)
            },
            _ => true,
        },
{
    lemma_advanced(r, reply, now);
}

/// A step's job is waited for: once a request was answered with a job, the wait for it is all that
/// follows, and the next request is sent only behind the job's end. That end must be a success,
/// but for the job that creates a project.
pub proof fn law_waits_for_jobs(r: RunView, reply: ReplyView, now: i64)
    requires
        run_wf(r),
        fits(r.phase, reply),
    ensures
        (r.phase matches PhaseView::Requested { step } && step != Step::OpenProject && (reply
            matches ReplyView::Accepted { job_id, .. } && filled(job_id) is Some)) ==> {
            &&& advanced(r, reply, now).run.phase is Waiting
            &&& advanced(r, reply, now).turn.call is Some
            &&& advanced(r, reply, now).turn.call->0 is WaitForJob
        },
        r.phase matches PhaseView::Waiting { step, .. } ==> advanced(r, reply, now).run.phase is Ended
            || (reply matches ReplyView::JobEnded { state } && (state == JobState::Success || step
            == Step::CreateProject)),
{
}

/// The call belongs to this run.
pub open spec fn carries_ids(call: CallView, run_id: Seq<char>, correlation_id: Seq<char>) -> bool {
    match call {
        CallView::RecordRun { record } => record.run_id == run_id && record.correlation_id
            == correlation_id,
        CallView::CreateProject { run_id: r, correlation_id: c, .. } => r == run_id && c
            == correlation_id,
        CallView::VerifyToolchain { run_id: r, correlation_id: c, .. } => r == run_id && c
            == correlation_id,
        CallView::Build { run_id: r, correlation_id: c, .. } => r == run_id && c
            == correlation_id,
        CallView::InstallApk { run_id: r, correlation_id: c, .. } => r == run_id && c
            == correlation_id,
        CallView::Launch { run_id: r, correlation_id: c, .. } => r == run_id && c
            == correlation_id,
        CallView::ExportSupportBundle { run_id: r, correlation_id: c, .. } => r == run_id && c
            == correlation_id,
        CallView::ExportEvidenceBundle { run_id: r, correlation_id: c } => r == run_id && c
            == correlation_id,
        CallView::OpenProject { .. } => true,
        CallView::WaitForJob { .. } => true,
        CallView::ListArtifacts { .. } => true,
    }
}

proof fn lemma_went_on_carries(r: RunView, k: int, effects: Seq<EffectView>, now: i64)
    requires
        0 <= k <= STEP_COUNT,
    ensures
        went_on(r, k, effects, now).turn.call matches Some(call) ==> carries_ids(
            call,
            r.plan.run_id,
            r.plan.correlation_id,
        ),
    decreases STEP_COUNT - k,
{
    if k < STEP_COUNT {
        let step = Step::at(k);
        let begun_run = RunView { step_index: (r.step_index + 1) as u32, ..r };
        let reported = effects.push(step_progress(begun_run, step));
        if !wanted(r.plan.steps, step) {
            lemma_went_on_carries(r, k + 1, effects, now);
        } else if lacks_input(begun_run, step) && r.plan.inferred {
            lemma_went_on_carries(
                begun_run,
                k + 1,
                reported.push(log_effect("WARN: "@ + step.needs_text() + ", skipping\n"@)),
                now,
            );
        }
    }
}

/// Both ways of going on behind a step carry the ids.
proof fn lemma_behind_step_carries(
    r: RunView,
    step: Step,
    project_id: Option<Seq<char>>,
    now: i64,
)
    ensures
        went_on(r, step.index() + 1, Seq::empty(), now).turn.call matches Some(call)
            ==> carries_ids(call, r.plan.run_id, r.plan.correlation_id),
        went_on(with_project(r, project_id), step.index() + 1, Seq::empty(), now).turn.call matches
            Some(call) ==> carries_ids(call, r.plan.run_id, r.plan.correlation_id),
{
    lemma_went_on_carries(r, step.index() + 1, Seq::empty(), now);
    lemma_went_on_carries(with_project(r, project_id), step.index() + 1, Seq::empty(), now);
}

proof fn lemma_answered_carries(r: RunView, step: Step, reply: ReplyView, now: i64)
    ensures
        answered(r, step, reply, now).turn.call matches Some(call) ==> carries_ids(
            call,
            r.plan.run_id,
            r.plan.correlation_id,
        ),
{
    if let ReplyView::Accepted { project_id, .. } = reply {
        lemma_behind_step_carries(r, step, project_id, now);
    }
}

proof fn lemma_waited_carries(
    r: RunView,
    step: Step,
    job_id: Seq<char>,
    project_id: Option<Seq<char>>,
    verified: bool,
    reply: ReplyView,
    now: i64,
)
    ensures
        waited(r, step, job_id, project_id, verified, reply, now).turn.call matches Some(call)
            ==> carries_ids(call, r.plan.run_id, r.plan.correlation_id),
{
    lemma_behind_step_carries(r, step, project_id, now);
}

/// Whatever a run starts or records carries its run id and its correlation id.
pub proof fn law_calls_carry_ids(r: RunView, reply: ReplyView, now: i64)
    requires
        run_wf(r),
        fits(r.phase, reply),
    ensures
        advanced(r, reply, now).turn.call matches Some(call) ==> carries_ids(
            call,
            r.plan.run_id,
            r.plan.correlation_id,
        ),
{
    match r.phase {
        PhaseView::Starting => {
            lemma_went_on_carries(r, 0, record_warning("start"@, reply->problem), now);
        },
        PhaseView::Requested { step } => {
            lemma_answered_carries(r, step, reply, now);
        },
        PhaseView::Waiting { step, job_id, project_id, verified } => {
            lemma_waited_carries(r, step, job_id, project_id, verified, reply, now);
        },
        PhaseView::Listing { job_id } => {
            let artifacts = artifacts_in(reply);
            lemma_went_on_carries(
                with_artifact(r, artifacts),
                Step::Build.index() + 1,
                outputs_effects(artifacts, r.plan.run_id, job_id, now),
                now,
            );
        },
        _ => {},
    }
}

/// The answer lets a run go on: the service took the request, and started a job where the step is
/// nothing without one; or the job ended well, as far as that is asked for.
pub open spec fn lets_go_on(phase: PhaseView, reply: ReplyView) -> bool {
    match phase {
        PhaseView::Starting => true,
        PhaseView::Requested { step } => reply matches ReplyView::Accepted { job_id, .. } && (
        !needs_job(step) || filled(job_id) is Some),
        PhaseView::Waiting { step, verified, .. } => reply matches ReplyView::JobEnded { state }
            && (step == Step::CreateProject || (state == JobState::Success && (step
            == Step::VerifyToolchain ==> verified))),
        PhaseView::Listing { .. } => true,
        PhaseView::Recording => false,
        PhaseView::Ended => false,
    }
}

/// Both ways of going on behind a step leave an inferred run under way.
proof fn lemma_behind_step_inferred(
    r: RunView,
    step: Step,
    project_id: Option<Seq<char>>,
    now: i64,
)
    requires
        r.step_index == wanted_before(r.plan.steps, step.index() + 1),
        r.plan.inferred,
    ensures
        !(went_on(r, step.index() + 1, Seq::empty(), now).run.phase is Ended),
        !(went_on(with_project(r, project_id), step.index() + 1, Seq::empty(), now).run.phase
            is Ended),
{
    let none = Seq::<EffectView>::empty();
    assert(completes_nothing(none));
    lemma_went_on(r, step.index() + 1, none, now);
    lemma_went_on(with_project(r, project_id), step.index() + 1, none, now);
}

proof fn lemma_answered_inferred(r: RunView, step: Step, reply: ReplyView, now: i64)
    requires
        run_wf(r),
        r.phase == (PhaseView::Requested { step }),
        fits(r.phase, reply),
        r.plan.inferred,
    ensures
        answered(r, step, reply, now).run.phase is Ended <==> !lets_go_on(r.phase, reply),
{
    if let ReplyView::Accepted { project_id, .. } = reply {
        lemma_behind_step_inferred(r, step, project_id, now);
    }
}

proof fn lemma_waited_inferred(
    r: RunView,
    step: Step,
    job_id: Seq<char>,
    project_id: Option<Seq<char>>,
    verified: bool,
    reply: ReplyView,
    now: i64,
)
    requires
        run_wf(r),
        r.phase == (PhaseView::Waiting { step, job_id, project_id, verified }),
        fits(r.phase, reply),
        r.plan.inferred,
    ensures
        waited(r, step, job_id, project_id, verified, reply, now).run.phase is Ended
            <==> !lets_go_on(r.phase, reply),
{
    lemma_behind_step_inferred(r, step, project_id, now);
}

/// A run whose steps were inferred never fails for want of an input: it goes on to a further call
/// exactly where the answer lets it, and ends otherwise, with its completion recorded or by what
/// it was answered.
pub proof fn law_inferred_runs_do_not_lack(r: RunView, reply: ReplyView, now: i64)
    requires
        run_wf(r),
        fits(r.phase, reply),
        r.plan.inferred,
    ensures
        advanced(r, reply, now).run.phase is Ended <==> !lets_go_on(r.phase, reply),
{
    match r.phase {
        PhaseView::Starting => {
            lemma_went_on(r, 0, record_warning("start"@, reply->problem), now);
        },
        PhaseView::Requested { step } => {
            lemma_answered_inferred(r, step, reply, now);
        },
        PhaseView::Waiting { step, job_id, project_id, verified } => {
            lemma_waited_inferred(r, step, job_id, project_id, verified, reply, now);
        },
        PhaseView::Listing { job_id } => {
            lemma_artifacts(r, job_id, artifacts_in(reply), now);
        },
        _ => {},
    }
}

/// A request without options never exports a bundle.
pub proof fn law_inferred_exports_nothing(
    req: PipelineRequest,
    run_id: Seq<char>,
    correlation_id: Seq<char>,
    now: i64,
)
    requires
        req.options is None,
    ensures
        !wanted(planned(req, run_id, correlation_id, now).steps, Step::SupportBundle),
        !wanted(planned(req, run_id, correlation_id, now).steps, Step::EvidenceBundle),
{
}

/// A run starts well-formed, waiting for the record of its start.
pub proof fn law_start(
    req: PipelineRequest,
    run_id: Seq<char>,
    correlation_id: Seq<char>,
    now: i64,
)
    ensures
        run_wf(started(req, run_id, correlation_id, now).run),
        started(req, run_id, correlation_id, now).run.phase is Starting,
        started(req, run_id, correlation_id, now).turn.call is Some,
{
}

/// What every turn of a run keeps.
spec fn sound(r: RunView, g: Progressed) -> bool {
    &&& run_wf(g.run)
    &&& g.run.plan == r.plan
    &&& r.job_ids.is_prefix_of(g.run.job_ids)
    &&& r.outputs.is_prefix_of(g.run.outputs)
    &&& !(r.phase is Recording) ==> completes_nothing(g.turn.effects)
    &&& (g.turn.call is None <==> g.run.phase is Ended)
    &&& !(r.phase is Recording) && g.run.phase is Ended ==> ends_in_failure(g.turn.effects)
    &&& rank(r.phase) < rank(g.run.phase) <= 26
    &&& g.run.phase matches PhaseView::Requested { step } ==> !lacks_input(g.run, step)
        && step.index() >= begun(r.phase)
}

proof fn lemma_failed_sound(r: RunView, message: Seq<char>, technical: Seq<char>, now: i64)
    requires
        run_wf(r),
        !(r.phase is Ended),
    ensures
        sound(r, failed(r, Seq::empty(), message, technical, now)),
{
    lemma_failed(r, Seq::empty(), message, technical, now);
}

/// A run that has gone on from where it was, with no less put out, is sound.
proof fn lemma_gone_on_sound(r: RunView, base: RunView, k: int, g: Progressed)
    requires
        begun(r.phase) == k,
        r.phase is Starting || r.phase is Requested || r.phase is Waiting || r.phase is Listing,
        base.plan == r.plan,
        base.job_ids == r.job_ids,
        r.outputs.is_prefix_of(base.outputs),
        gone_on(base, k, g),
    ensures
        sound(r, g),
{
}

proof fn lemma_went_on_sound(r: RunView, base: RunView, k: int, now: i64)
    requires
        run_wf(r),
        begun(r.phase) == k,
        r.phase is Requested || r.phase is Waiting,
        base.plan == r.plan,
        base.step_index == r.step_index,
        base.job_ids == r.job_ids,
        r.outputs.is_prefix_of(base.outputs),
    ensures
        sound(r, went_on(base, k, Seq::empty(), now)),
{
    let none = Seq::<EffectView>::empty();
    assert(completes_nothing(none));
    lemma_went_on(base, k, none, now);
    lemma_gone_on_sound(r, base, k, went_on(base, k, none, now));
}

proof fn lemma_artifacts(
    r: RunView,
    job_id: Seq<char>,
    artifacts: Seq<ArtifactView>,
    now: i64,
)
    requires
        run_wf(r),
        r.phase == (PhaseView::Listing { job_id }),
    ensures
        gone_on(
            with_artifact(r, artifacts),
            Step::Build.index() + 1,
            artifacts_listed(r, job_id, artifacts, now),
        ),
        sound(r, artifacts_listed(r, job_id, artifacts, now)),
{
    let base = with_artifact(r, artifacts);
    let effects = outputs_effects(artifacts, r.plan.run_id, job_id, now);
    assert(completes_nothing(effects));
    lemma_went_on(base, Step::Build.index() + 1, effects, now);
    lemma_gone_on_sound(
        r,
        base,
        Step::Build.index() + 1,
        artifacts_listed(r, job_id, artifacts, now),
    );
}

proof fn lemma_accepted_sound(
    r: RunView,
    step: Step,
    job_id: Option<Seq<char>>,
    project_id: Option<Seq<char>>,
    verified: bool,
    now: i64,
)
    requires
        run_wf(r),
        r.phase == (PhaseView::Requested { step }),
    ensures
        sound(r, accepted(r, step, job_id, project_id, verified, now)),
{
    let g = accepted(r, step, job_id, project_id, verified, now);
    if step != Step::OpenProject && filled(job_id) is Some {
        assert(g.turn.effects == Seq::<EffectView>::empty());
    } else {
        lemma_failed_sound(r, step.title() + " failed"@, "empty job_id"@, now);
        lemma_went_on_sound(r, r, step.index() + 1, now);
        lemma_went_on_sound(r, with_project(r, project_id), step.index() + 1, now);
    }
}

proof fn lemma_job_ended_sound(
    r: RunView,
    step: Step,
    job_id: Seq<char>,
    project_id: Option<Seq<char>>,
    verified: bool,
    state: JobState,
    now: i64,
)
    requires
        run_wf(r),
        r.phase == (PhaseView::Waiting { step, job_id, project_id, verified }),
    ensures
        sound(r, job_ended(r, step, job_id, project_id, verified, state, now)),
{
    let g = job_ended(r, step, job_id, project_id, verified, state, now);
    if step == Step::Build && state == JobState::Success {
        assert(g.turn.effects == Seq::<EffectView>::empty());
    } else {
        lemma_failed_sound(r, step.title() + " failed"@, step.job_failed_text(), now);
        lemma_went_on_sound(r, r, step.index() + 1, now);
        lemma_went_on_sound(r, with_project(r, project_id), step.index() + 1, now);
    }
}

proof fn lemma_advanced(r: RunView, reply: ReplyView, now: i64)
    requires
        run_wf(r),
        fits(r.phase, reply),
    ensures
        sound(r, advanced(r, reply, now)),
{
    match (r.phase, reply) {
        (PhaseView::Starting, ReplyView::Recorded { problem }) => {
            lemma_went_on(r, 0, record_warning("start"@, problem), now);
            lemma_gone_on_sound(r, r, 0, advanced(r, reply, now));
        },
        (PhaseView::Requested { step }, ReplyView::Unavailable { error }) => {
            lemma_failed_sound(r, step.unavailable_text(), error, now);
        },
        (PhaseView::Requested { step }, ReplyView::Refused { error }) => {
            lemma_failed_sound(r, step.title() + " failed"@, error, now);
        },
        (
            PhaseView::Requested { step },
            ReplyView::Accepted { job_id, project_id, verified },
        ) => {
            lemma_accepted_sound(r, step, job_id, project_id, verified, now);
        },
        (PhaseView::Waiting { step, .. }, ReplyView::WaitFailed { error }) => {
            lemma_failed_sound(r, step.title() + " job failed"@, error, now);
        },
        (
            PhaseView::Waiting { step, job_id, project_id, verified },
            ReplyView::JobEnded { state },
        ) => {
            lemma_job_ended_sound(r, step, job_id, project_id, verified, state, now);
        },
        (PhaseView::Listing { job_id }, _) => {
            lemma_artifacts(r, job_id, artifacts_in(reply), now);
        },
        _ => {},
    }
}

/// An answer, and when it came.
pub struct Answer {
    pub reply: ReplyView,
    pub now: i64,
}

/// A run behind its answers.
pub open spec fn run_after(r: RunView, answers: Seq<Answer>) -> RunView
    decreases answers.len(),
{
    if answers.len() == 0 {
        r
    } else {
        let a = answers.last();
        advanced(run_after(r, answers.drop_last()), a.reply, a.now).run
    }
}

/// Everything that a run sends out on its answers, in order.
pub open spec fn sent_after(r: RunView, answers: Seq<Answer>) -> Seq<EffectView>
    decreases answers.len(),
{
    if answers.len() == 0 {
        Seq::empty()
    } else {
        let a = answers.last();
        sent_after(r, answers.drop_last()) + advanced(
            run_after(r, answers.drop_last()),
            a.reply,
            a.now,
        ).turn.effects
    }
}

/// Each answer belongs to what the run was waiting for.
pub open spec fn all_fit(r: RunView, answers: Seq<Answer>) -> bool
    decreases answers.len(),
{
    answers.len() == 0 || (all_fit(r, answers.drop_last()) && fits(
        run_after(r, answers.drop_last()).phase,
        answers.last().reply,
    ))
}

/// The reports of steps among what is sent out, in order.
pub open spec fn reports(effects: Seq<EffectView>) -> Seq<EffectView>
    decreases effects.len(),
{
    if effects.len() == 0 {
        Seq::empty()
    } else if effects.last() is PublishProgress {
        reports(effects.drop_last()).push(effects.last())
    } else {
        reports(effects.drop_last())
    }
}

/// Those of the first `k` steps that are asked for, in order.
pub open spec fn wanted_steps(steps: PipelineOptions, k: int) -> Seq<Step>
    decreases k,
{
    if k <= 0 {
        Seq::empty()
    } else if wanted(steps, Step::at(k - 1)) {
        wanted_steps(steps, k - 1).push(Step::at(k - 1))
    } else {
        wanted_steps(steps, k - 1)
    }
}

/// The effect reports the step number `k`, counted from one, of the steps that are asked for.
pub open spec fn reports_step(e: EffectView, plan: PlanView, k: int) -> bool {
    let all = wanted_steps(plan.steps, STEP_COUNT as int);
    let title = all[k - 1].title();
    e matches EffectView::PublishProgress { percent, phase, metrics } && {
        &&& percent == k * 100 / all.len() as int
        &&& phase == title
        &&& metrics.len() >= 5
        &&& metrics[0] == kv("pipeline_step"@, title)
        &&& metrics[1] == kv("step_index"@, dec_nat(k as nat))
        &&& metrics[2] == kv("total_steps"@, dec_nat(all.len()))
        &&& metrics[3] == kv("run_id"@, plan.run_id)
        &&& metrics[4] == kv("correlation_id"@, plan.correlation_id)
    }
}

/// What was sent out reports each step that has begun, once and in order, and nothing else.
pub open spec fn steps_reported(r: RunView, effects: Seq<EffectView>) -> bool {
    &&& reports(effects).len() == r.step_index
    &&& forall|k: int|
        1 <= k <= r.step_index ==> reports_step(#[trigger] reports(effects)[k - 1], r.plan, k)
}

/// Everything that a run sends out from its start on.
pub open spec fn whole_run(
    req: PipelineRequest,
    run_id: Seq<char>,
    correlation_id: Seq<char>,
    start: i64,
    answers: Seq<Answer>,
) -> Seq<EffectView> {
    let s = started(req, run_id, correlation_id, start);
    s.turn.effects + sent_after(s.run, answers)
}

/// Wherever a run stands, it has reported each step that it has begun, once and in order.
pub proof fn law_begun_steps_are_reported(
    req: PipelineRequest,
    run_id: Seq<char>,
    correlation_id: Seq<char>,
    start: i64,
    answers: Seq<Answer>,
)
    requires
        all_fit(started(req, run_id, correlation_id, start).run, answers),
    ensures
        steps_reported(
            run_after(started(req, run_id, correlation_id, start).run, answers),
            whole_run(req, run_id, correlation_id, start, answers),
        ),
{
    reveal(stands);
    lemma_whole_run(req, run_id, correlation_id, start, answers);
}

/// A run that completes its job has reported every step that was asked for, once and in order:
/// of `n` steps the `k`-th with `k * 100 / n` percent, as number `k` of `n`.
pub proof fn law_completed_run_reports_every_step(
    req: PipelineRequest,
    run_id: Seq<char>,
    correlation_id: Seq<char>,
    start: i64,
    answers: Seq<Answer>,
)
    requires
        all_fit(started(req, run_id, correlation_id, start).run, answers),
        !completes_nothing(whole_run(req, run_id, correlation_id, start, answers)),
    ensures
        ({
            let plan = planned(req, run_id, correlation_id, start);
            let told = reports(whole_run(req, run_id, correlation_id, start, answers));
            &&& told.len() == wanted_steps(plan.steps, STEP_COUNT as int).len()
            &&& forall|k: int| 1 <= k <= told.len() ==> reports_step(#[trigger] told[k - 1], plan, k)
        }),
{
    reveal(stands);
    lemma_whole_run(req, run_id, correlation_id, start, answers);
    lemma_wanted_steps_len(planned(req, run_id, correlation_id, start).steps, STEP_COUNT as int);
}

/// Whatever is answered, a run keeps to the plan of its request.
pub proof fn law_plan_stays(
    req: PipelineRequest,
    run_id: Seq<char>,
    correlation_id: Seq<char>,
    start: i64,
    answers: Seq<Answer>,
)
    requires
        all_fit(started(req, run_id, correlation_id, start).run, answers),
    ensures
        run_after(started(req, run_id, correlation_id, start).run, answers).plan == planned(
            req,
            run_id,
            correlation_id,
            start,
        ),
{
    reveal(stands);
    lemma_whole_run(req, run_id, correlation_id, start, answers);
}

/// The last effect, and no other, completes the job.
pub open spec fn ends_in_completion(effects: Seq<EffectView>) -> bool {
    &&& effects.len() > 0
    &&& effects.last() is PublishCompleted
    &&& completes_nothing(effects.drop_last())
}

/// A run that has ended either completed its job, as the last it sent out, or it said that it
/// failed and never completed the job; one that has not ended did not complete it.
pub proof fn law_outcome_is_told_once(
    req: PipelineRequest,
    run_id: Seq<char>,
    correlation_id: Seq<char>,
    start: i64,
    answers: Seq<Answer>,
)
    requires
        all_fit(started(req, run_id, correlation_id, start).run, answers),
    ensures
        ({
            let all = whole_run(req, run_id, correlation_id, start, answers);
            if run_after(started(req, run_id, correlation_id, start).run, answers).phase is Ended {
                ends_in_completion(all) || (ends_in_failure(all) && completes_nothing(all))
            } else {
                completes_nothing(all)
            }
        }),
{
    reveal(stands);
    lemma_whole_run(req, run_id, correlation_id, start, answers);
}

/// A run takes at most 26 answers.
pub proof fn law_answers_are_bounded(
    req: PipelineRequest,
    run_id: Seq<char>,
    correlation_id: Seq<char>,
    start: i64,
    answers: Seq<Answer>,
)
    requires
        all_fit(started(req, run_id, correlation_id, start).run, answers),
    ensures
        answers.len() <= 26,
{
    reveal(stands);
    lemma_whole_run(req, run_id, correlation_id, start, answers);
}

proof fn lemma_wanted_steps_len(steps: PipelineOptions, k: int)
    ensures
        wanted_steps(steps, k).len() == wanted_before(steps, k),
    decreases k,
{
    if k > 0 {
        lemma_wanted_steps_len(steps, k - 1);
    }
}

/// A wanted step stands behind the wanted steps before it.
proof fn lemma_wanted_step_place(steps: PipelineOptions, k: int, m: int)
    requires
        0 <= k < m,
        wanted(steps, Step::at(k)),
    ensures
        wanted_before(steps, k) < wanted_steps(steps, m).len(),
        wanted_steps(steps, m)[wanted_before(steps, k) as int] == Step::at(k),
    decreases m,
{
    if k + 1 < m {
        lemma_wanted_step_place(steps, k, m - 1);
    } else {
        lemma_wanted_steps_len(steps, k);
    }
}

proof fn lemma_reports_push(effects: Seq<EffectView>, e: EffectView)
    ensures
        reports(effects.push(e)) == if e is PublishProgress {
            reports(effects).push(e)
        } else {
            reports(effects)
        },
{
    assert(effects.push(e).drop_last() =~= effects);
}

/// What holds no report adds none.
proof fn lemma_reports_add_none(a: Seq<EffectView>, b: Seq<EffectView>)
    requires
        forall|i: int| 0 <= i < b.len() ==> !(#[trigger] b[i] is PublishProgress),
    ensures
        reports(a + b) == reports(a),
    decreases b.len(),
{
    if b.len() == 0 {
        assert(a + b =~= a);
    } else {
        assert((a + b).drop_last() =~= a + b.drop_last());
        assert((a + b).last() == b.last());
        lemma_reports_add_none(a, b.drop_last());
    }
}

/// A step that begins reports itself with its number.
proof fn lemma_step_reported(r: RunView, k: int, effects: Seq<EffectView>)
    requires
        0 <= k < STEP_COUNT,
        r.step_index == wanted_before(r.plan.steps, k),
        wanted(r.plan.steps, Step::at(k)),
        steps_reported(r, effects),
    ensures
        ({
            let begun_run = RunView { step_index: (r.step_index + 1) as u32, ..r };
            &&& begun_run.step_index == wanted_before(r.plan.steps, k + 1)
            &&& steps_reported(begun_run, effects.push(step_progress(begun_run, Step::at(k))))
        }),
{
    let steps = r.plan.steps;
    let step = Step::at(k);
    let begun_run = RunView { step_index: (r.step_index + 1) as u32, ..r };
    let e = step_progress(begun_run, step);
    lemma_wanted_before_bound(steps, k);
    lemma_wanted_step_place(steps, k, STEP_COUNT as int);
    lemma_wanted_steps_len(steps, STEP_COUNT as int);
    lemma_reports_push(effects, e);
    let i = r.step_index + 1;
    let n = total_steps(steps) as int;
    assert(0 <= i * 100 / n <= 100) by (nonlinear_arith)
        requires
            0 <= i <= n,
            n > 0,
    ;
    assert(reports_step(e, r.plan, i));
    assert forall|j: int| 1 <= j <= begun_run.step_index implies reports_step(
        #[trigger] reports(effects.push(e))[j - 1],
        begun_run.plan,
        j,
    ) by {
        if j < i {
            assert(reports(effects.push(e))[j - 1] == reports(effects)[j - 1]);
        }
    }
}

proof fn lemma_went_on_reports(
    r: RunView,
    k: int,
    prior: Seq<EffectView>,
    effects: Seq<EffectView>,
    now: i64,
)
    requires
        0 <= k <= STEP_COUNT,
        r.step_index == wanted_before(r.plan.steps, k),
        steps_reported(r, prior + effects),
    ensures
        ({
            let g = went_on(r, k, effects, now);
            steps_reported(g.run, prior + g.turn.effects)
        }),
    decreases STEP_COUNT - k,
{
    if k < STEP_COUNT {
        let step = Step::at(k);
        if !wanted(r.plan.steps, step) {
            lemma_went_on_reports(r, k + 1, prior, effects, now);
        } else {
            let begun_run = RunView { step_index: (r.step_index + 1) as u32, ..r };
            let reported = effects.push(step_progress(begun_run, step));
            lemma_step_reported(r, k, prior + effects);
            assert(prior + reported =~= (prior + effects).push(step_progress(begun_run, step)));
            if lacks_input(begun_run, step) {
                if r.plan.inferred {
                    let warning = log_effect("WARN: "@ + step.needs_text() + ", skipping\n"@);
                    lemma_reports_push(prior + reported, warning);
                    assert(prior + reported.push(warning) =~= (prior + reported).push(warning));
                    lemma_went_on_reports(begun_run, k + 1, prior, reported.push(warning), now);
                } else {
                    lemma_failed_reports(
                        begun_run,
                        prior,
                        reported,
                        "pipeline failed"@,
                        step.needs_text(),
                        now,
                    );
                }
            }
        }
    }
}

proof fn lemma_failed_reports(
    r: RunView,
    prior: Seq<EffectView>,
    effects: Seq<EffectView>,
    message: Seq<char>,
    technical: Seq<char>,
    now: i64,
)
    requires
        steps_reported(r, prior + effects),
    ensures
        ({
            let g = failed(r, effects, message, technical, now);
            steps_reported(g.run, prior + g.turn.effects)
        }),
{
    let last = failure_effects(r, message, technical, now);
    lemma_reports_add_none(prior + effects, last);
    assert(prior + (effects + last) =~= (prior + effects) + last);
}

/// The reports stay in step where a run goes on with nothing further to send.
proof fn lemma_simply_went_on_reports(
    r: RunView,
    step: Step,
    project_id: Option<Seq<char>>,
    prior: Seq<EffectView>,
    now: i64,
)
    requires
        r.step_index == wanted_before(r.plan.steps, step.index() + 1),
        steps_reported(r, prior),
    ensures
        ({
            let g = went_on(r, step.index() + 1, Seq::empty(), now);
            steps_reported(g.run, prior + g.turn.effects)
        }),
        ({
            let g = went_on(with_project(r, project_id), step.index() + 1, Seq::empty(), now);
            steps_reported(g.run, prior + g.turn.effects)
        }),
{
    let none = Seq::<EffectView>::empty();
    assert(prior + none =~= prior);
    lemma_went_on_reports(r, step.index() + 1, prior, none, now);
    lemma_went_on_reports(with_project(r, project_id), step.index() + 1, prior, none, now);
}

proof fn lemma_answered_reports(
    r: RunView,
    step: Step,
    reply: ReplyView,
    now: i64,
    prior: Seq<EffectView>,
)
    requires
        run_wf(r),
        r.phase == (PhaseView::Requested { step }),
        steps_reported(r, prior),
    ensures
        ({
            let g = answered(r, step, reply, now);
            steps_reported(g.run, prior + g.turn.effects)
        }),
{
    let none = Seq::<EffectView>::empty();
    assert(prior + none =~= prior);
    let failed_text = step.title() + " failed"@;
    match reply {
        ReplyView::Unavailable { error } => {
            lemma_failed_reports(r, prior, none, step.unavailable_text(), error, now);
        },
        ReplyView::Refused { error } => {
            lemma_failed_reports(r, prior, none, failed_text, error, now);
        },
        ReplyView::Accepted { job_id, project_id, .. } => {
            if step == Step::OpenProject || filled(job_id) is None {
                if needs_job(step) {
                    lemma_failed_reports(r, prior, none, failed_text, "empty job_id"@, now);
                } else {
                    lemma_simply_went_on_reports(r, step, project_id, prior, now);
                }
            }
        },
        _ => {},
    }
}

proof fn lemma_waited_reports(
    r: RunView,
    step: Step,
    job_id: Seq<char>,
    project_id: Option<Seq<char>>,
    verified: bool,
    reply: ReplyView,
    now: i64,
    prior: Seq<EffectView>,
)
    requires
        run_wf(r),
        r.phase == (PhaseView::Waiting { step, job_id, project_id, verified }),
        steps_reported(r, prior),
    ensures
        ({
            let g = waited(r, step, job_id, project_id, verified, reply, now);
            steps_reported(g.run, prior + g.turn.effects)
        }),
{
    let none = Seq::<EffectView>::empty();
    assert(prior + none =~= prior);
    match reply {
        ReplyView::WaitFailed { error } => {
            lemma_failed_reports(r, prior, none, step.title() + " job failed"@, error, now);
        },
        ReplyView::JobEnded { state } => {
            if lets_go_on(r.phase, reply) {
                lemma_simply_went_on_reports(r, step, project_id, prior, now);
            } else {
                lemma_failed_reports(
                    r,
                    prior,
                    none,
                    step.title() + " failed"@,
                    step.job_failed_text(),
                    now,
                );
            }
        },
        _ => {},
    }
}

proof fn lemma_advanced_reports(r: RunView, reply: ReplyView, now: i64, prior: Seq<EffectView>)
    requires
        run_wf(r),
        fits(r.phase, reply),
        steps_reported(r, prior),
    ensures
        ({
            let g = advanced(r, reply, now);
            steps_reported(g.run, prior + g.turn.effects)
        }),
{
    match r.phase {
        PhaseView::Starting => {
            let warning = record_warning("start"@, reply->problem);
            lemma_reports_add_none(prior, warning);
            lemma_went_on_reports(r, 0, prior, warning, now);
        },
        PhaseView::Requested { step } => {
            lemma_answered_reports(r, step, reply, now, prior);
        },
        PhaseView::Waiting { step, job_id, project_id, verified } => {
            lemma_waited_reports(r, step, job_id, project_id, verified, reply, now, prior);
        },
        PhaseView::Listing { job_id } => {
            let artifacts = artifacts_in(reply);
            let effects = outputs_effects(artifacts, r.plan.run_id, job_id, now);
            lemma_reports_add_none(prior, effects);
            lemma_went_on_reports(
                with_artifact(r, artifacts),
                Step::Build.index() + 1,
                prior,
                effects,
                now,
            );
        },
        _ => {
            lemma_reports_add_none(prior, advanced(r, reply, now).turn.effects);
        },
    }
}

/// What was sent out tells how the run stands.
spec fn outcome_told(r: RunView, effects: Seq<EffectView>) -> bool {
    if r.phase is Ended {
        ||| ends_in_completion(effects) && r.step_index == wanted_before(
            r.plan.steps,
            STEP_COUNT as int,
        )
        ||| ends_in_failure(effects) && completes_nothing(effects)
    } else {
        completes_nothing(effects)
    }
}

proof fn lemma_advanced_outcome(r: RunView, reply: ReplyView, now: i64, prior: Seq<EffectView>)
    requires
        run_wf(r),
        fits(r.phase, reply),
        completes_nothing(prior),
    ensures
        ({
            let g = advanced(r, reply, now);
            outcome_told(g.run, prior + g.turn.effects)
        }),
{
    let g = advanced(r, reply, now);
    let all = prior + g.turn.effects;
    if r.phase is Recording {
        let warning = record_warning("completion"@, reply->problem);
        assert(all.drop_last() =~= prior + warning);
        assert(completes_nothing(all.drop_last()));
    } else {
        lemma_advanced(r, reply, now);
        let p = prior.len() as int;
        assert(forall|i: int| 0 <= i < g.turn.effects.len() ==> all[p + i] == g.turn.effects[i]);
    }
}

/// What holds of a run behind `n` answers, with all that it has sent out.
#[verifier::opaque]
spec fn stands(r: RunView, plan: PlanView, n: nat, effects: Seq<EffectView>) -> bool {
    &&& run_wf(r)
    &&& r.plan == plan
    &&& n <= rank(r.phase) <= 26
    &&& steps_reported(r, effects)
    &&& outcome_told(r, effects)
}

proof fn lemma_started_stands(
    req: PipelineRequest,
    run_id: Seq<char>,
    correlation_id: Seq<char>,
    start: i64,
)
    ensures
        ({
            let s = started(req, run_id, correlation_id, start);
            stands(s.run, planned(req, run_id, correlation_id, start), 0, s.turn.effects)
        }),
{
    reveal(stands);
    let effects = started(req, run_id, correlation_id, start).turn.effects;
    let none = Seq::<EffectView>::empty();
    lemma_reports_add_none(none, effects);
    assert(none + effects =~= effects);
}

proof fn lemma_advanced_stands(
    r: RunView,
    plan: PlanView,
    n: nat,
    prior: Seq<EffectView>,
    reply: ReplyView,
    now: i64,
)
    requires
        stands(r, plan, n, prior),
        fits(r.phase, reply),
    ensures
        stands(
            advanced(r, reply, now).run,
            plan,
            n + 1,
            prior + advanced(r, reply, now).turn.effects,
        ),
{
    reveal(stands);
    lemma_advanced(r, reply, now);
    lemma_advanced_reports(r, reply, now, prior);
    lemma_advanced_outcome(r, reply, now, prior);
}

proof fn lemma_sent_in_pieces(a: Seq<EffectView>, b: Seq<EffectView>, c: Seq<EffectView>)
    ensures
        a + (b + c) == (a + b) + c,
{
    assert(a + (b + c) =~= (a + b) + c);
}

proof fn lemma_stands_after(
    r: RunView,
    plan: PlanView,
    first: Seq<EffectView>,
    answers: Seq<Answer>,
)
    requires
        stands(r, plan, 0, first),
        all_fit(r, answers),
    ensures
        stands(run_after(r, answers), plan, answers.len(), first + sent_after(r, answers)),
    decreases answers.len(),
{
    if answers.len() == 0 {
        assert(first + sent_after(r, answers) =~= first);
    } else {
        let before = answers.drop_last();
        let a = answers.last();
        let mid = run_after(r, before);
        let sent = sent_after(r, before);
        lemma_stands_after(r, plan, first, before);
        lemma_advanced_stands(mid, plan, before.len(), first + sent, a.reply, a.now);
        lemma_sent_in_pieces(first, sent, advanced(mid, a.reply, a.now).turn.effects);
    }
}

proof fn lemma_whole_run(
    req: PipelineRequest,
    run_id: Seq<char>,
    correlation_id: Seq<char>,
    start: i64,
    answers: Seq<Answer>,
)
    requires
        all_fit(started(req, run_id, correlation_id, start).run, answers),
    ensures
        stands(
            run_after(started(req, run_id, correlation_id, start).run, answers),
            planned(req, run_id, correlation_id, start),
            answers.len(),
            whole_run(req, run_id, correlation_id, start, answers),
        ),
{
    let s = started(req, run_id, correlation_id, start);
    lemma_started_stands(req, run_id, correlation_id, start);
    lemma_stands_after(
        s.run,
        planned(req, run_id, correlation_id, start),
        s.turn.effects,
        answers,
    );
}

} // verus!
