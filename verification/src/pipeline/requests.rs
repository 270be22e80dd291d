//! What a pipeline run asks for, in terms of the request that it was started with and of the answers
//! that it got.

use crate::model::{kv, ArtifactType, ArtifactView, BuildVariant, JobState};
use crate::pipeline::laws::{all_fit, law_plan_stays, run_after, Answer};
use crate::pipeline::messages::{
    log_effect, CallView, EffectView, PipelineRequest, ReplyView,
};
use crate::pipeline::plan::{clean_id, planned, wanted, Step, STEP_COUNT};
use crate::pipeline::run::{
    advanced, artifact_outputs, artifacts_in, filled, first_apk, fits, lacks_input,
    outputs_effects, record_warning, selected_artifact, started,
    step_progress, went_on, with_artifact, with_project, PhaseView, RunView,
};
use crate::text::{blank, opt_text, texts, trimmed};
use crate::util::last_name;
use vstd::prelude::*;

verus! {

/// A plan holds what the request holds, each in its place. The variant is the one that was asked
/// for, and a debug build exactly where none was; the project's name is the one that was given, or
/// else the last name of its path.
pub proof fn law_plan_holds_the_request(
    req: PipelineRequest,
    run_id: Seq<char>,
    correlation_id: Seq<char>,
    start: i64,
)
    ensures
        ({
            let plan = planned(req, run_id, correlation_id, start);
            &&& plan.run_id == run_id
            &&& plan.correlation_id == correlation_id
            &&& plan.started_at == start
            &&& req.build_variant != BuildVariant::Unspecified ==> plan.variant == req.build_variant
            &&& req.build_variant == BuildVariant::Unspecified ==> plan.variant
                == BuildVariant::Debug
            &&& plan.project_path == trimmed(req.project_path@)
            &&& plan.template_id == clean_id(opt_text(req.template_id))
            &&& plan.toolchain_id == clean_id(opt_text(req.toolchain_id))
            &&& plan.toolchain_set_id == clean_id(opt_text(req.toolchain_set_id))
            &&& plan.target_id == clean_id(opt_text(req.target_id))
            &&& plan.application_id == trimmed(req.application_id@)
            &&& plan.activity == trimmed(req.activity@)
            &&& plan.module == req.module@
            &&& plan.variant_name == req.variant_name@
            &&& plan.tasks == texts(req.tasks@)
            &&& !blank(req.project_name@) ==> plan.project_name == trimmed(req.project_name@)
            &&& blank(req.project_name@) ==> match last_name(trimmed(req.project_path@)) {
                Some(name) => plan.project_name == name || (plan.project_name == "aadk-project"@
                    && (blank(name) || blank(req.project_path@))),
                None => plan.project_name == "aadk-project"@,
            }
        }),
{
}

/// With options a run takes exactly the steps that are ticked. Without, it takes exactly those whose
/// input is there: a project is created from a template, opened by a path without an id, built by
/// either; a toolchain is checked, an APK installed and an application launched where one is named.
pub proof fn law_steps_of_a_request(
    req: PipelineRequest,
    run_id: Seq<char>,
    correlation_id: Seq<char>,
    start: i64,
)
    ensures
        ({
            let plan = planned(req, run_id, correlation_id, start);
            let has_id = clean_id(opt_text(req.project_id)).len() > 0;
            &&& plan.inferred == (req.options is None)
            &&& req.options matches Some(o) ==> {
                &&& wanted(plan.steps, Step::CreateProject) == o.create_project
                &&& wanted(plan.steps, Step::OpenProject) == o.open_project
                &&& wanted(plan.steps, Step::VerifyToolchain) == o.verify_toolchain
                &&& wanted(plan.steps, Step::Build) == o.build
                &&& wanted(plan.steps, Step::InstallApk) == o.install_apk
                &&& wanted(plan.steps, Step::LaunchApp) == o.launch_app
                &&& wanted(plan.steps, Step::SupportBundle) == o.export_support_bundle
                &&& wanted(plan.steps, Step::EvidenceBundle) == o.export_evidence_bundle
            }
            &&& req.options is None ==> {
                &&& wanted(plan.steps, Step::CreateProject) == (clean_id(
                    opt_text(req.template_id),
                ).len() > 0)
                &&& wanted(plan.steps, Step::OpenProject) == (!has_id && !blank(req.project_path@))
                &&& wanted(plan.steps, Step::VerifyToolchain) == (clean_id(
                    opt_text(req.toolchain_id),
                ).len() > 0)
                &&& wanted(plan.steps, Step::Build) == (has_id || !blank(req.project_path@))
                &&& wanted(plan.steps, Step::InstallApk) == !blank(req.apk_path@)
                &&& wanted(plan.steps, Step::LaunchApp) == !blank(req.application_id@)
                &&& !wanted(plan.steps, Step::SupportBundle)
                &&& !wanted(plan.steps, Step::EvidenceBundle)
            }
        }),
{
}

/// The id, where there is one.
pub open spec fn some_id(id: Seq<char>) -> Option<Seq<char>> {
    if id.len() == 0 {
        None
    } else {
        Some(id)
    }
}

/// The project that is built: by its id where it has one, else by the path that was given.
pub open spec fn built_project(req: PipelineRequest, project_id: Seq<char>) -> Seq<char> {
    if project_id.len() > 0 {
        project_id
    } else {
        trimmed(req.project_path@)
    }
}

/// The variant that is asked for.
pub open spec fn asked_variant(req: PipelineRequest, variant: BuildVariant) -> bool {
    if req.build_variant == BuildVariant::Unspecified {
        variant == BuildVariant::Debug
    } else {
        variant == req.build_variant
    }
}

/// The call takes everything from the request, but for the project and the APK, which a run gets to
/// know on its way.
pub open spec fn serves(
    req: PipelineRequest,
    run: Seq<char>,
    correlation: Seq<char>,
    project: Seq<char>,
    apk: Seq<char>,
    call: CallView,
) -> bool {
    match call {
        CallView::CreateProject {
            name,
            path,
            template_id,
            toolchain_set_id,
            correlation_id,
            run_id,
        } => {
            &&& !blank(req.project_name@) ==> name == trimmed(req.project_name@)
            &&& path == trimmed(req.project_path@)
            &&& template_id == clean_id(opt_text(req.template_id))
            &&& toolchain_set_id == some_id(clean_id(opt_text(req.toolchain_set_id)))
            &&& correlation_id == correlation
            &&& run_id == run
        },
        CallView::OpenProject { path } => path == trimmed(req.project_path@),
        CallView::VerifyToolchain { toolchain_id, correlation_id, run_id } => {
            &&& toolchain_id == clean_id(opt_text(req.toolchain_id))
            &&& correlation_id == correlation
            &&& run_id == run
        },
        CallView::Build {
            project_id,
            variant,
            clean_first,
            gradle_args,
            module,
            variant_name,
            tasks,
            correlation_id,
            run_id,
        } => {
            &&& project_id == built_project(req, project)
            &&& asked_variant(req, variant)
            &&& !clean_first
            &&& gradle_args.len() == 0
            &&& module == req.module@
            &&& variant_name == req.variant_name@
            &&& tasks == texts(req.tasks@)
            &&& correlation_id == correlation
            &&& run_id == run
        },
        CallView::ListArtifacts { project_id, variant, modules, variant_name } => {
            &&& project_id == built_project(req, project)
            &&& asked_variant(req, variant)
            &&& modules.len() == if blank(req.module@) {
                0nat
            } else {
                1nat
            }
            &&& !blank(req.module@) ==> modules[0] == trimmed(req.module@)
            &&& variant_name == trimmed(req.variant_name@)
        },
        CallView::InstallApk { target_id, project_id, apk_path, correlation_id, run_id } => {
            &&& target_id == clean_id(opt_text(req.target_id))
            &&& project_id == some_id(project)
            &&& apk_path == apk
            &&& correlation_id == correlation
            &&& run_id == run
        },
        CallView::Launch { target_id, application_id, activity, correlation_id, run_id } => {
            &&& target_id == clean_id(opt_text(req.target_id))
            &&& application_id == trimmed(req.application_id@)
            &&& activity == trimmed(req.activity@)
            &&& correlation_id == correlation
            &&& run_id == run
        },
        CallView::ExportSupportBundle {
            include_logs,
            include_config,
            include_toolchain_provenance,
            include_recent_runs,
            recent_runs_limit,
            project_id,
            target_id,
            toolchain_set_id,
            correlation_id,
            run_id,
        } => {
            &&& include_logs && include_config && include_toolchain_provenance
            &&& !include_recent_runs
            &&& recent_runs_limit == 10
            &&& project_id == some_id(project)
            &&& target_id == some_id(clean_id(opt_text(req.target_id)))
            &&& toolchain_set_id == some_id(clean_id(opt_text(req.toolchain_set_id)))
            &&& correlation_id == correlation
            &&& run_id == run
        },
        CallView::ExportEvidenceBundle { run_id, correlation_id } => {
            &&& correlation_id == correlation
            &&& run_id == run
        },
        CallView::RecordRun { record } => {
            &&& record.run_id == run
            &&& record.correlation_id == correlation
            &&& record.project_id == some_id(project)
            &&& record.target_id == some_id(clean_id(opt_text(req.target_id)))
            &&& record.toolchain_set_id == some_id(clean_id(opt_text(req.toolchain_set_id)))
        },
        CallView::WaitForJob { .. } => true,
    }
}

/// The call belongs to the step.
pub open spec fn belongs(step: Step, call: CallView) -> bool {
    match step {
        Step::CreateProject => call is CreateProject,
        Step::OpenProject => call is OpenProject,
        Step::VerifyToolchain => call is VerifyToolchain,
        Step::Build => call is Build,
        Step::InstallApk => call is InstallApk,
        Step::LaunchApp => call is Launch,
        Step::SupportBundle => call is ExportSupportBundle,
        Step::EvidenceBundle => call is ExportEvidenceBundle,
    }
}

/// What a run that goes on asks for: the request of the step that it is in, or the record of its
/// completion, for the project and the APK that it knows of.
spec fn well_asked(
    req: PipelineRequest,
    run: Seq<char>,
    correlation: Seq<char>,
    base: RunView,
    g: crate::pipeline::run::Progressed,
) -> bool {
    &&& g.run.project_id == base.project_id
    &&& g.run.apk_path == base.apk_path
    &&& g.run.job_ids == base.job_ids
    &&& g.run.outputs == base.outputs
    &&& g.turn.call matches Some(call) ==> serves(
        req,
        run,
        correlation,
        base.project_id,
        base.apk_path,
        call,
    )
    &&& g.run.phase matches PhaseView::Requested { step } ==> g.turn.call is Some && belongs(
        step,
        g.turn.call->0,
    )
    &&& g.run.phase is Recording ==> {
        &&& g.turn.call is Some
        &&& g.turn.call->0 is RecordRun
        &&& g.turn.call->0->RecordRun_record.result == "success"@
        &&& g.turn.call->0->RecordRun_record.job_ids == base.job_ids
    }
    &&& g.run.phase is Requested || g.run.phase is Recording || g.run.phase is Ended
}

proof fn lemma_went_on_asks(
    req: PipelineRequest,
    run_id: Seq<char>,
    correlation_id: Seq<char>,
    start: i64,
    r: RunView,
    k: int,
    effects: Seq<EffectView>,
    now: i64,
)
    requires
        0 <= k <= STEP_COUNT,
        r.plan == planned(req, run_id, correlation_id, start),
    ensures
        well_asked(req, run_id, correlation_id, r, went_on(r, k, effects, now)),
    decreases STEP_COUNT - k,
{
    law_plan_holds_the_request(req, run_id, correlation_id, start);
    if k < STEP_COUNT {
        let step = Step::at(k);
        let begun_run = RunView { step_index: (r.step_index + 1) as u32, ..r };
        let reported = effects.push(step_progress(begun_run, step));
        if !wanted(r.plan.steps, step) {
            lemma_went_on_asks(req, run_id, correlation_id, start, r, k + 1, effects, now);
        } else if lacks_input(begun_run, step) && r.plan.inferred {
            lemma_went_on_asks(
                req,
                run_id,
                correlation_id,
                start,
                begun_run,
                k + 1,
                reported.push(log_effect("WARN: "@ + step.needs_text() + ", skipping\n"@)),
                now,
            );
        }
    }
}

/// The project that the run works on once an answer came: the one that a step made or found, where
/// the answer names it, and the one before otherwise.
pub open spec fn project_behind(r: RunView, reply: ReplyView) -> Seq<char> {
    match (r.phase, reply) {
        (PhaseView::Requested { step }, ReplyView::Accepted { job_id, project_id, .. }) => {
            if (step == Step::OpenProject || (step == Step::CreateProject && filled(job_id) is None))
                && filled(project_id) is Some {
                project_id->0
            } else {
                r.project_id
            }
        },
        (
            PhaseView::Waiting { step, project_id, .. },
            ReplyView::JobEnded { .. },
        ) => if step == Step::CreateProject && filled(project_id) is Some {
            project_id->0
        } else {
            r.project_id
        },
        _ => r.project_id,
    }
}

/// The APK that the run installs once an answer came: the one that was named or known before; and
/// where none was, an APK of the build, or else its first artifact.
pub open spec fn apk_fits(r: RunView, reply: ReplyView, apk: Seq<char>) -> bool {
    if r.phase is Listing && r.apk_path.len() == 0 && artifacts_in(reply).len() > 0 {
        let all = artifacts_in(reply);
        ||| exists|i: int|
            #![trigger all[i]]
            0 <= i < all.len() && all[i].kind == ArtifactType::Apk && all[i].path == apk
                && forall|j: int|
                0 <= j < i ==> (#[trigger] all[j]).kind != ArtifactType::Apk
        ||| apk == all[0].path && forall|j: int|
            0 <= j < all.len() ==> (#[trigger] all[j]).kind != ArtifactType::Apk
    } else {
        apk == r.apk_path
    }
}

proof fn lemma_selected(all: Seq<ArtifactView>)
    ensures
        match first_apk(all) {
            Some(path) => exists|i: int|
                #![trigger all[i]]
                0 <= i < all.len() && all[i].kind == ArtifactType::Apk && all[i].path == path
                    && forall|j: int| 0 <= j < i ==> (#[trigger] all[j]).kind != ArtifactType::Apk,
            None => forall|j: int|
                0 <= j < all.len() ==> (#[trigger] all[j]).kind != ArtifactType::Apk,
        },
    decreases all.len(),
{
    if all.len() > 0 {
        let rest = all.drop_first();
        if all[0].kind == ArtifactType::Apk {
            assert(all[0].path == first_apk(all)->0);
        } else {
            lemma_selected(rest);
            match first_apk(rest) {
                Some(path) => {
                    let i = choose|i: int|
                        #![trigger rest[i]]
                        0 <= i < rest.len() && rest[i].kind == ArtifactType::Apk && rest[i].path
                            == path && forall|j: int|
                            0 <= j < i ==> (#[trigger] rest[j]).kind != ArtifactType::Apk;
                    assert(all[i + 1] == rest[i]);
                    assert forall|j: int| 0 <= j < i + 1 implies (#[trigger] all[j]).kind
                        != ArtifactType::Apk by {
                        if j > 0 {
                            assert(all[j] == rest[j - 1]);
                        }
                    }
                },
                None => {
                    assert forall|j: int| 0 <= j < all.len() implies (#[trigger] all[j]).kind
                        != ArtifactType::Apk by {
                        if j > 0 {
                            assert(all[j] == rest[j - 1]);
                        }
                    }
                },
            }
        }
    }
}

/// What one answer does to a run's knowledge and what is asked for behind it.
spec fn answer_is_served(
    req: PipelineRequest,
    run_id: Seq<char>,
    correlation_id: Seq<char>,
    r: RunView,
    reply: ReplyView,
    now: i64,
) -> bool {
    let g = advanced(r, reply, now);
    &&& g.turn.call matches Some(call) ==> serves(
        req,
        run_id,
        correlation_id,
        g.run.project_id,
        g.run.apk_path,
        call,
    )
    &&& g.run.phase matches PhaseView::Requested { step } ==> g.turn.call is Some && belongs(
        step,
        g.turn.call->0,
    )
    &&& !(g.run.phase is Ended) ==> g.run.project_id == project_behind(r, reply) && apk_fits(
        r,
        reply,
        g.run.apk_path,
    )
}

proof fn lemma_answer_is_served(
    req: PipelineRequest,
    run_id: Seq<char>,
    correlation_id: Seq<char>,
    start: i64,
    r: RunView,
    reply: ReplyView,
    now: i64,
)
    requires
        r.plan == planned(req, run_id, correlation_id, start),
        fits(r.phase, reply),
    ensures
        answer_is_served(req, run_id, correlation_id, r, reply, now),
{
    law_plan_holds_the_request(req, run_id, correlation_id, start);
    match r.phase {
        PhaseView::Starting => {
            lemma_went_on_asks(
                req,
                run_id,
                correlation_id,
                start,
                r,
                0,
                record_warning("start"@, reply->problem),
                now,
            );
        },
        PhaseView::Requested { step } => {
            lemma_behind_step(req, run_id, correlation_id, start, r, step, None, now);
            if let ReplyView::Accepted { project_id, .. } = reply {
                lemma_behind_step(req, run_id, correlation_id, start, r, step, project_id, now);
            }
        },
        PhaseView::Waiting { step, project_id, .. } => {
            lemma_behind_step(req, run_id, correlation_id, start, r, step, None, now);
            lemma_behind_step(req, run_id, correlation_id, start, r, step, project_id, now);
        },
        PhaseView::Listing { job_id } => {
            let artifacts = artifacts_in(reply);
            lemma_selected(artifacts);
            lemma_went_on_asks(
                req,
                run_id,
                correlation_id,
                start,
                with_artifact(r, artifacts),
                Step::Build.index() + 1,
                outputs_effects(artifacts, r.plan.run_id, job_id, now),
                now,
            );
        },
        _ => {},
    }
}

proof fn lemma_behind_step(
    req: PipelineRequest,
    run_id: Seq<char>,
    correlation_id: Seq<char>,
    start: i64,
    r: RunView,
    step: Step,
    project_id: Option<Seq<char>>,
    now: i64,
)
    requires
        r.plan == planned(req, run_id, correlation_id, start),
    ensures
        well_asked(
            req,
            run_id,
            correlation_id,
            r,
            went_on(r, step.index() + 1, Seq::empty(), now),
        ),
        well_asked(
            req,
            run_id,
            correlation_id,
            with_project(r, project_id),
            went_on(with_project(r, project_id), step.index() + 1, Seq::empty(), now),
        ),
{
    let none = Seq::<EffectView>::empty();
    lemma_went_on_asks(req, run_id, correlation_id, start, r, step.index() + 1, none, now);
    lemma_went_on_asks(
        req,
        run_id,
        correlation_id,
        start,
        with_project(r, project_id),
        step.index() + 1,
        none,
        now,
    );
}

/// Over a whole run, from its start on and whatever was answered: each call takes from the request
/// what it names, in particular every build and every list of artifacts is of the variant that was
/// asked for; a step sends its own request and no other; and the project and the APK are those that
/// were given or came to light.
pub proof fn law_calls_serve_the_request(
    req: PipelineRequest,
    run_id: Seq<char>,
    correlation_id: Seq<char>,
    start: i64,
    answers: Seq<Answer>,
    reply: ReplyView,
    now: i64,
)
    requires
        all_fit(started(req, run_id, correlation_id, start).run, answers),
        fits(
            run_after(started(req, run_id, correlation_id, start).run, answers).phase,
            reply,
        ),
    ensures
        ({
            let r = run_after(started(req, run_id, correlation_id, start).run, answers);
            let g = advanced(r, reply, now);
            &&& g.turn.call matches Some(call) ==> serves(
                req,
                run_id,
                correlation_id,
                g.run.project_id,
                g.run.apk_path,
                call,
            )
            &&& g.run.phase matches PhaseView::Requested { step } ==> g.turn.call is Some
                && belongs(step, g.turn.call->0)
            &&& !(g.run.phase is Ended) ==> g.run.project_id == project_behind(r, reply)
                && apk_fits(r, reply, g.run.apk_path)
        }),
{
    let r = run_after(started(req, run_id, correlation_id, start).run, answers);
    law_plan_stays(req, run_id, correlation_id, start, answers);
    lemma_answer_is_served(req, run_id, correlation_id, start, r, reply, now);
}

/// A run starts with the project and the APK of the request, says under which ids it runs, is set to
/// running, and is recorded as running.
pub proof fn law_start_of_a_run(
    req: PipelineRequest,
    run_id: Seq<char>,
    correlation_id: Seq<char>,
    start: i64,
)
    ensures
        ({
            let s = started(req, run_id, correlation_id, start);
            &&& s.run.project_id == clean_id(opt_text(req.project_id))
            &&& s.run.apk_path == trimmed(req.apk_path@)
            &&& s.run.step_index == 0
            &&& s.run.job_ids.len() == 0
            &&& s.run.outputs == seq![kv("run_id"@, run_id), kv("correlation_id"@, correlation_id)]
            &&& s.turn.effects.last() == (EffectView::PublishState { state: JobState::Running })
            &&& s.turn.call is Some
            &&& s.turn.call->0 is RecordRun
            &&& s.turn.call->0->RecordRun_record.result == "running"@
            &&& s.turn.call->0->RecordRun_record.run_id == run_id
            &&& s.turn.call->0->RecordRun_record.correlation_id == correlation_id
            &&& s.turn.call->0->RecordRun_record.started_at == Some(start)
            &&& s.turn.call->0->RecordRun_record.finished_at is None
            &&& s.turn.call->0->RecordRun_record.job_ids.len() == 0
        }),
{
}

/// A job that an accepted request names is waited for under its own id and is one of the run's jobs
/// from then on; nothing else becomes one.
pub proof fn law_jobs_of_a_run(r: RunView, reply: ReplyView, now: i64)
    requires
        fits(r.phase, reply),
    ensures
        ({
            let g = advanced(r, reply, now);
            match (r.phase, reply) {
                (
                    PhaseView::Requested { step },
                    ReplyView::Accepted { job_id, project_id, verified },
                ) => if step != Step::OpenProject && filled(job_id) is Some {
                    &&& g.run.job_ids == r.job_ids.push(job_id->0)
                    &&& g.turn.call == Some(CallView::WaitForJob { job_id: job_id->0 })
                    &&& g.run.phase == (PhaseView::Waiting {
                        step,
                        job_id: job_id->0,
                        project_id,
                        verified,
                    })
                } else {
                    g.run.job_ids == r.job_ids
                },
                _ => g.run.job_ids == r.job_ids,
            }
        }),
{
    match r.phase {
        PhaseView::Starting => {
            lemma_jobs_stay(r, 0, record_warning("start"@, reply->problem), now);
        },
        PhaseView::Requested { step } => {
            lemma_jobs_stay(r, step.index() + 1, Seq::empty(), now);
            if let ReplyView::Accepted { project_id, .. } = reply {
                lemma_jobs_stay(with_project(r, project_id), step.index() + 1, Seq::empty(), now);
            }
        },
        PhaseView::Waiting { step, project_id, .. } => {
            lemma_jobs_stay(r, step.index() + 1, Seq::empty(), now);
            lemma_jobs_stay(with_project(r, project_id), step.index() + 1, Seq::empty(), now);
        },
        PhaseView::Listing { job_id } => {
            let artifacts = artifacts_in(reply);
            lemma_jobs_stay(
                with_artifact(r, artifacts),
                Step::Build.index() + 1,
                outputs_effects(artifacts, r.plan.run_id, job_id, now),
                now,
            );
        },
        _ => {},
    }
}

proof fn lemma_jobs_stay(r: RunView, k: int, effects: Seq<EffectView>, now: i64)
    requires
        0 <= k <= STEP_COUNT,
    ensures
        went_on(r, k, effects, now).run.job_ids == r.job_ids,
        went_on(r, k, effects, now).run.outputs == r.outputs,
        effects.is_prefix_of(went_on(r, k, effects, now).turn.effects),
    decreases STEP_COUNT - k,
{
    if k < STEP_COUNT {
        let step = Step::at(k);
        let begun_run = RunView { step_index: (r.step_index + 1) as u32, ..r };
        let reported = effects.push(step_progress(begun_run, step));
        let warned = reported.push(log_effect("WARN: "@ + step.needs_text() + ", skipping\n"@));
        if !wanted(r.plan.steps, step) {
            lemma_jobs_stay(r, k + 1, effects, now);
        } else if lacks_input(begun_run, step) && r.plan.inferred {
            lemma_jobs_stay(begun_run, k + 1, warned, now);
            assert(effects.is_prefix_of(warned));
        }
    }
}

/// A successful build is followed by the list of what it produced, under the build's job.
pub proof fn law_build_is_followed_by_its_artifacts(r: RunView, reply: ReplyView, now: i64)
    requires
        r.phase is Waiting,
        r.phase->Waiting_step == Step::Build,
        reply == (ReplyView::JobEnded { state: JobState::Success }),
    ensures
        ({
            let g = advanced(r, reply, now);
            &&& g.turn.call is Some
            &&& g.turn.call->0 is ListArtifacts
            &&& g.run.phase == (PhaseView::Listing { job_id: r.phase->Waiting_job_id })
        }),
{
}

/// The outputs that are recorded of a build are its artifacts that have a path, in order, each with
/// its own path and under the run and the job; they are recorded first of all, and the artifact
/// that is selected becomes one of the run's outputs.
pub proof fn law_artifacts_are_recorded(r: RunView, reply: ReplyView, now: i64)
    requires
        r.phase is Listing,
        fits(r.phase, reply),
    ensures
        ({
            let g = advanced(r, reply, now);
            let all = artifacts_in(reply);
            let outputs = artifact_outputs(all, r.plan.run_id, r.phase->Listing_job_id, now);
            &&& !blank(r.plan.run_id) && (exists|i: int|
                0 <= i < all.len() && !blank((#[trigger] all[i]).path)) ==> {
                &&& g.turn.effects.len() > 0
                &&& g.turn.effects[0] == (EffectView::RecordOutputs {
                    run_id: r.plan.run_id,
                    outputs,
                })
            }
            &&& forall|k: int|
                #![trigger outputs[k]]
                0 <= k < outputs.len() ==> {
                    &&& outputs[k].run_id == r.plan.run_id
                    &&& outputs[k].job_id == r.phase->Listing_job_id
                    &&& outputs[k].created_at == now
                    &&& exists|i: int|
                        #![trigger all[i]]
                        0 <= i < all.len() && outputs[k].path == trimmed(all[i].path) && !blank(
                            all[i].path,
                        )
                }
            &&& g.run.outputs == match selected_artifact(all) {
                Some(path) => r.outputs.push(kv("artifact_path"@, path)),
                None => r.outputs,
            }
        }),
{
    let all = artifacts_in(reply);
    let job_id = r.phase->Listing_job_id;
    lemma_jobs_stay(
        with_artifact(r, all),
        Step::Build.index() + 1,
        outputs_effects(all, r.plan.run_id, job_id, now),
        now,
    );
    lemma_outputs(all, r.plan.run_id, job_id, now);
    let g = advanced(r, reply, now);
    let effects = outputs_effects(all, r.plan.run_id, job_id, now);
    if effects.len() > 0 {
        assert(g.turn.effects.take(effects.len() as int)[0] == effects[0]);
    }
}

proof fn lemma_outputs(all: Seq<ArtifactView>, run_id: Seq<char>, job_id: Seq<char>, now: i64)
    ensures
        forall|k: int|
            #![trigger artifact_outputs(all, run_id, job_id, now)[k]]
            0 <= k < artifact_outputs(all, run_id, job_id, now).len() ==> {
                &&& artifact_outputs(all, run_id, job_id, now)[k].run_id == run_id
                &&& artifact_outputs(all, run_id, job_id, now)[k].job_id == job_id
                &&& artifact_outputs(all, run_id, job_id, now)[k].created_at == now
                &&& exists|i: int|
                    #![trigger all[i]]
                    0 <= i < all.len() && artifact_outputs(all, run_id, job_id, now)[k].path
                        == trimmed(all[i].path) && !blank(all[i].path)
            },
        (exists|i: int| 0 <= i < all.len() && !blank((#[trigger] all[i]).path))
            <==> artifact_outputs(all, run_id, job_id, now).len() > 0,
    decreases all.len(),
{
    if all.len() > 0 {
        let rest = all.drop_last();
        lemma_outputs(rest, run_id, job_id, now);
        let outs = artifact_outputs(all, run_id, job_id, now);
        let before = artifact_outputs(rest, run_id, job_id, now);
        assert forall|k: int|
            #![trigger outs[k]]
            0 <= k < outs.len() implies outs[k].run_id == run_id && outs[k].job_id == job_id
            && outs[k].created_at == now && exists|i: int|
            #![trigger all[i]]
            0 <= i < all.len() && outs[k].path == trimmed(all[i].path) && !blank(all[i].path) by {
            if k < before.len() {
                assert(outs[k] == before[k]);
                let i = choose|i: int|
                    #![trigger rest[i]]
                    0 <= i < rest.len() && before[k].path == trimmed(rest[i].path) && !blank(
                        rest[i].path,
                    );
                assert(all[i] == rest[i]);
            } else {
                assert(all[all.len() - 1] == all.last());
            }
        }
        if exists|i: int| 0 <= i < rest.len() && !blank((#[trigger] rest[i]).path) {
            let i = choose|i: int| 0 <= i < rest.len() && !blank((#[trigger] rest[i]).path);
            assert(all[i] == rest[i]);
        }
        if !blank(all.last().path) {
            assert(all[all.len() - 1] == all.last());
        }
        if exists|i: int| 0 <= i < all.len() && !blank((#[trigger] all[i]).path) {
            let i = choose|i: int| 0 <= i < all.len() && !blank((#[trigger] all[i]).path);
            if i < rest.len() {
                assert(rest[i] == all[i]);
            }
        }
    }
}

/// What is recorded of a failed run and of a completed one has the run's ids, its jobs and the time
/// at which it ended; a completed job is told the outputs of the run.
pub proof fn law_end_of_a_run(r: RunView, reply: ReplyView, now: i64)
    requires
        fits(r.phase, reply),
        r.phase is Recording || ((r.phase is Requested || r.phase is Waiting) && (reply is Unavailable
            || reply is Refused || reply is WaitFailed)),
    ensures
        ({
            let effects = advanced(r, reply, now).turn.effects;
            if r.phase is Recording {
                &&& effects.last() is PublishCompleted
                &&& effects.last()->PublishCompleted_outputs == r.outputs
                &&& reply->problem is None ==> effects.len() == 1
            } else {
                &&& effects.len() == 3
                &&& effects[0] is PublishFailed
                &&& effects[0]->error.correlation_id == r.plan.correlation_id
                &&& effects[0]->error.technical_details == match reply {
                    ReplyView::Unavailable { error } => error,
                    ReplyView::Refused { error } => error,
                    ReplyView::WaitFailed { error } => error,
                    _ => Seq::empty(),
                }
                &&& effects[1] is RecordRun
                &&& effects[1]->RecordRun_record.result == "failed"@
                &&& effects[1]->RecordRun_record.run_id == r.plan.run_id
                &&& effects[1]->RecordRun_record.job_ids == r.job_ids
                &&& effects[1]->RecordRun_record.started_at == Some(r.plan.started_at)
                &&& effects[1]->RecordRun_record.finished_at == Some(now)
                &&& effects[2] == (EffectView::PublishState { state: JobState::Failed })
            }
        }),
{
}

} // verus!
