//! The workflow page.

use crate::commands::UiCommand;
use crate::config::AppConfig;
use crate::forms::shared::{choose_job, job_choice, remember, remembered, variant_at, variant_of};
use crate::pipeline::messages::PipelineOptions;
use crate::text::{blank, is_blank, list_tokens, parse_list_tokens, texts};
use crate::ui_state::WorkflowState;
use vstd::prelude::*;
use vstd::string::*;

verus! {

/// The steps that are asked for: none are named where they are inferred.
pub open spec fn steps_asked(form: WorkflowState) -> Option<PipelineOptions> {
    if form.auto_infer_steps {
        None
    } else {
        Some(
            PipelineOptions {
                create_project: form.step_create,
                open_project: form.step_open,
                verify_toolchain: form.step_verify,
                build: form.step_build,
                install_apk: form.step_install,
                launch_app: form.step_launch,
                export_support_bundle: form.step_support,
                export_evidence_bundle: form.step_evidence,
            },
        )
    }
}

fn ask_steps(form: &WorkflowState) -> (r: Option<PipelineOptions>)
    ensures
        r == steps_asked(*form),
{
    if form.auto_infer_steps {
        None
    } else {
        Some(
            PipelineOptions {
                create_project: form.step_create,
                open_project: form.step_open,
                verify_toolchain: form.step_verify,
                build: form.step_build,
                install_apk: form.step_install,
                launch_app: form.step_launch,
                export_support_bundle: form.step_support,
                export_evidence_bundle: form.step_evidence,
            },
        )
    }
}

/// The application id that a pipeline gets: the one that was typed, or else the one that was found
/// near the APK.
pub open spec fn application_for(typed: String, inferred: Option<String>) -> String {
    if blank(typed@) {
        match inferred {
            Some(id) => id,
            None => typed,
        }
    } else {
        typed
    }
}

fn choose_application(typed: &String, inferred: &Option<String>) -> (r: String)
    ensures
        r == application_for(*typed, *inferred),
{
    if is_blank(typed.as_str()) {
        match inferred {
            Some(id) => id.clone(),
            None => typed.clone(),
        }
    } else {
        typed.clone()
    }
}

/// The button that runs a pipeline, given the application id that was found near the APK.
pub fn run_pipeline(cfg: &mut AppConfig, form: &WorkflowState, inferred: &Option<String>) -> (r:
    UiCommand)
    ensures
        *final(cfg) == remembered(*old(cfg), form.job_id, form.correlation_id),
        r matches UiCommand::WorkflowRunPipeline {
            cfg: c,
            run_id,
            correlation_id,
            job_id,
            project_id,
            project_path,
            project_name,
            template_id,
            toolchain_id,
            toolchain_set_id,
            target_id,
            build_variant,
            module,
            variant_name,
            tasks,
            apk_path,
            application_id,
            activity,
            options,
            stream_history,
        } && {
            &&& c == *final(cfg)
            &&& run_id == form.run_id
            &&& correlation_id == form.correlation_id
            &&& job_id == job_choice(form.use_job_id, form.job_id)
            &&& project_id == form.project_id
            &&& project_path == form.project_path
            &&& project_name == form.project_name
            &&& template_id == form.template_id
            &&& toolchain_id == form.toolchain_id
            &&& toolchain_set_id == form.toolchain_set_id
            &&& target_id == form.target_id
            &&& build_variant == variant_at(form.build_variant_index)
            &&& module == form.module
            &&& variant_name == form.variant_name
            &&& texts(tasks@) == list_tokens(form.tasks@)
            &&& apk_path == form.apk_path
            &&& application_id == application_for(form.application_id, *inferred)
            &&& activity == form.activity
            &&& options == steps_asked(*form)
            &&& stream_history == form.include_history
        },
{
    remember(cfg, &form.job_id, &form.correlation_id);
    UiCommand::WorkflowRunPipeline {
        cfg: cfg.clone(),
        run_id: form.run_id.clone(),
        correlation_id: form.correlation_id.clone(),
        job_id: choose_job(form.use_job_id, &form.job_id),
        project_id: form.project_id.clone(),
        project_path: form.project_path.clone(),
        project_name: form.project_name.clone(),
        template_id: form.template_id.clone(),
        toolchain_id: form.toolchain_id.clone(),
        toolchain_set_id: form.toolchain_set_id.clone(),
        target_id: form.target_id.clone(),
        build_variant: variant_of(form.build_variant_index),
        module: form.module.clone(),
        variant_name: form.variant_name.clone(),
        tasks: parse_list_tokens(form.tasks.as_str()),
        apk_path: form.apk_path.clone(),
        application_id: choose_application(&form.application_id, inferred),
        activity: form.activity.clone(),
        options: ask_steps(form),
        stream_history: form.include_history,
    }
}

/// The button that follows a run.
pub fn follow_run(cfg: &AppConfig, form: &WorkflowState) -> (r: UiCommand)
    ensures
        r matches UiCommand::StreamRunEvents {
            cfg: c,
            run_id,
            correlation_id,
            include_history,
            page,
        } && {
            &&& c == *cfg
            &&& run_id == form.run_id
            &&& correlation_id == form.correlation_id
            &&& include_history == form.include_history
            &&& page@ == "workflow"@
        },
{
    UiCommand::StreamRunEvents {
        cfg: cfg.clone(),
        run_id: form.run_id.clone(),
        correlation_id: form.correlation_id.clone(),
        include_history: form.include_history,
        page: "workflow",
    }
}

/// Steps are named exactly where they are not to be inferred, and each is asked for exactly where it
/// is ticked.
pub proof fn law_steps_asked(form: WorkflowState)
    ensures
        steps_asked(form) is None <==> form.auto_infer_steps,
        steps_asked(form) matches Some(o) ==> {
            &&& o.create_project == form.step_create
            &&& o.open_project == form.step_open
            &&& o.verify_toolchain == form.step_verify
            &&& o.build == form.step_build
            &&& o.install_apk == form.step_install
            &&& o.launch_app == form.step_launch
            &&& o.export_support_bundle == form.step_support
            &&& o.export_evidence_bundle == form.step_evidence
        },
{
}

/// What is typed as the application id counts; where nothing is, the inferred one does.
pub proof fn law_application_for(typed: String, inferred: Option<String>)
    ensures
        !blank(typed@) ==> application_for(typed, inferred) == typed,
        blank(typed@) ==> (inferred matches Some(id) ==> application_for(typed, inferred) == id),
        inferred is None ==> application_for(typed, inferred) == typed,
{
}

} // verus!
