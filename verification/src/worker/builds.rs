//! Pipelines and builds: starting them, and what they produced.

use crate::commands::{AppEvent, AppEventView, ArtifactFilter};
use crate::config::AppConfig;
use crate::model::{
    artifact_type_label, artifact_type_name, clone_kvs, id_text, kv_list_text, kv_pairs, kvs,
    or_else, or_empty, text_or_empty, to_optional_id, Artifact, ArtifactType, BuildVariant,
    KeyValue, KeyValueView,
};
use crate::pipeline::messages::PipelineOptions;
use crate::text::{
    blank, cat3, cat7, cat9, clone_texts, dec_nat, is_blank, lemma_texts_push, opt_text, text_eq,
    texts, trim_owned, trimmed, u64_text, usize_text,
};
use crate::worker::call::{Call, CallView};
use crate::worker::group::{
    group_by_key, group_views, grouped, groups_lines, lemma_members_in, lines_of_groups, Group,
    GroupView,
};
use crate::worker::jobs::{drop_blank, unless_blank};
use crate::worker::turn::{
    ask, call, done, finish, last_words, log, logs, ui, Effect, EffectView, Out, Turn, TurnView,
};
use vstd::prelude::*;
use vstd::string::*;

verus! {

/// A pipeline is to be run.
pub open spec fn run_pipeline(
    cfg: AppConfig,
    run_id: Seq<char>,
    correlation_id: Seq<char>,
    job_id: Option<Seq<char>>,
    project_id: Seq<char>,
    project_path: Seq<char>,
    project_name: Seq<char>,
    template_id: Seq<char>,
    toolchain_id: Seq<char>,
    toolchain_set_id: Seq<char>,
    target_id: Seq<char>,
    build_variant: BuildVariant,
    module: Seq<char>,
    variant_name: Seq<char>,
    tasks: Seq<Seq<char>>,
    apk_path: Seq<char>,
    application_id: Seq<char>,
    activity: Seq<char>,
    options: Option<PipelineOptions>,
) -> TurnView {
    call(
        seq![
            log("workflow"@, "Connecting to WorkflowService at "@ + cfg.workflow_addr@ + "\n"@),
        ],
        CallView::RunPipeline {
            addr: cfg.workflow_addr@,
            run_id: id_text(run_id),
            correlation_id: trimmed(correlation_id),
            job_id: unless_blank(job_id),
            project_id: id_text(project_id),
            project_path: trimmed(project_path),
            project_name: trimmed(project_name),
            template_id: id_text(template_id),
            toolchain_id: id_text(toolchain_id),
            toolchain_set_id: id_text(toolchain_set_id),
            target_id: id_text(target_id),
            build_variant,
            module,
            variant_name,
            tasks,
            apk_path,
            application_id,
            activity,
            options,
        },
    )
}

/// Starts a pipeline run from what the form holds.
pub fn begin_run_pipeline(
    cfg: &AppConfig,
    run_id: &str,
    correlation_id: &str,
    job_id: &Option<String>,
    project_id: &str,
    project_path: &str,
    project_name: &str,
    template_id: &str,
    toolchain_id: &str,
    toolchain_set_id: &str,
    target_id: &str,
    build_variant: BuildVariant,
    module: &str,
    variant_name: &str,
    tasks: &Vec<String>,
    apk_path: &str,
    application_id: &str,
    activity: &str,
    options: Option<PipelineOptions>,
) -> (r: Turn)
    ensures
        r@ == run_pipeline(
            *cfg,
            run_id@,
            correlation_id@,
            opt_text(*job_id),
            project_id@,
            project_path@,
            project_name@,
            template_id@,
            toolchain_id@,
            toolchain_set_id@,
            target_id@,
            build_variant,
            module@,
            variant_name@,
            texts(tasks@),
            apk_path@,
            application_id@,
            activity@,
            options,
        ),
{
    let mut out: Out = Out::new();
    out.log(
        "workflow",
        cat3("Connecting to WorkflowService at ", cfg.workflow_addr.as_str(), "\n"),
    );
    ask(
        out,
        Call::RunPipeline {
            addr: cfg.workflow_addr.clone(),
            run_id: to_optional_id(run_id),
            correlation_id: trim_owned(correlation_id),
            job_id: drop_blank(job_id),
            project_id: to_optional_id(project_id),
            project_path: trim_owned(project_path),
            project_name: trim_owned(project_name),
            template_id: to_optional_id(template_id),
            toolchain_id: to_optional_id(toolchain_id),
            toolchain_set_id: to_optional_id(toolchain_set_id),
            target_id: to_optional_id(target_id),
            build_variant,
            module: module.to_owned(),
            variant_name: variant_name.to_owned(),
            tasks: clone_texts(tasks),
            apk_path: apk_path.to_owned(),
            application_id: application_id.to_owned(),
            activity: activity.to_owned(),
            options,
        },
    )
}

/// An id that was given back, or else the one that was typed.
pub open spec fn answered_or_typed(answered: Seq<char>, typed: Seq<char>) -> Option<Seq<char>> {
    if blank(answered) {
        id_text(typed)
    } else {
        Some(answered)
    }
}

fn answer_or_typed(answered: &str, typed: &str) -> (r: Option<String>)
    ensures
        opt_text(r) == answered_or_typed(answered@, typed@),
{
    if is_blank(answered) {
        to_optional_id(typed)
    } else {
        Some(answered.to_owned())
    }
}

/// What is worked with once a pipeline is running; nothing where it names nothing.
pub open spec fn pipeline_context(
    run_id: Seq<char>,
    project_id: Seq<char>,
    project_path: Seq<char>,
    toolchain_set_id: Seq<char>,
    target_id: Seq<char>,
    answered_run: Seq<char>,
    answered_project: Seq<char>,
) -> Seq<EffectView> {
    let project = answered_or_typed(answered_project, project_id);
    let path = if project is Some || !blank(project_path) {
        Some(trimmed(project_path))
    } else {
        None
    };
    let set = id_text(toolchain_set_id);
    let target = id_text(target_id);
    let run = answered_or_typed(answered_run, run_id);
    if project is None && path is None && set is None && target is None && run is None {
        Seq::empty()
    } else {
        seq![
            ui(
                AppEventView::UpdateActiveContext {
                    project_id: project,
                    project_path: path,
                    toolchain_set_id: set,
                    target_id: target,
                    run_id: run,
                },
            ),
        ]
    }
}

fn push_pipeline_context(
    out: &mut Out,
    run_id: &str,
    project_id: &str,
    project_path: &str,
    toolchain_set_id: &str,
    target_id: &str,
    answered_run: &str,
    answered_project: &str,
)
    ensures
        final(out)@ == old(out)@ + pipeline_context(
            run_id@,
            project_id@,
            project_path@,
            toolchain_set_id@,
            target_id@,
            answered_run@,
            answered_project@,
        ),
{
    let ghost before = out@;
    let project: Option<String> = answer_or_typed(answered_project, project_id);
    let path: Option<String> = if project.is_some() || !is_blank(project_path) {
        Some(trim_owned(project_path))
    } else {
        None
    };
    let set: Option<String> = to_optional_id(toolchain_set_id);
    let target: Option<String> = to_optional_id(target_id);
    let run: Option<String> = answer_or_typed(answered_run, run_id);
    if project.is_some() || path.is_some() || set.is_some() || target.is_some() || run.is_some() {
        out.ui(
            AppEvent::UpdateActiveContext {
                project_id: project,
                project_path: path,
                toolchain_set_id: set,
                target_id: target,
                run_id: run,
            },
        );
    }
    assert(out@ =~= before + pipeline_context(
        run_id@,
        project_id@,
        project_path@,
        toolchain_set_id@,
        target_id@,
        answered_run@,
        answered_project@,
    ));
}

/// The events of a pipeline's run are followed, where it can be told by something.
pub open spec fn pipeline_stream(
    cfg: AppConfig,
    run_id: Seq<char>,
    correlation_id: Seq<char>,
    answered_run: Seq<char>,
    stream_history: bool,
) -> EffectView {
    let run = if blank(answered_run) {
        trimmed(run_id)
    } else {
        answered_run
    };
    let corr = trimmed(correlation_id);
    if run.len() == 0 && corr.len() == 0 {
        log("workflow"@, "No run_id or correlation_id to stream.\n"@)
    } else {
        EffectView::RunStream {
            addr: cfg.job_addr@,
            run_id: run,
            correlation_id: corr,
            include_history: stream_history,
            page: "workflow"@,
        }
    }
}

/// A pipeline is running.
pub open spec fn pipeline_started(
    cfg: AppConfig,
    run_id: Seq<char>,
    correlation_id: Seq<char>,
    project_id: Seq<char>,
    project_path: Seq<char>,
    toolchain_set_id: Seq<char>,
    target_id: Seq<char>,
    stream_history: bool,
    answered_run: Option<Seq<char>>,
    answered_job: Option<Seq<char>>,
    answered_project: Option<Seq<char>>,
    outputs: Seq<KeyValueView>,
) -> TurnView {
    let run = or_empty(answered_run);
    let project = or_empty(answered_project);
    let told = seq![
        log(
            "workflow"@,
            "Pipeline started: run_id="@ + run + " job_id="@ + or_empty(answered_job)
                + " project_id="@ + project + "\n"@,
        ),
    ] + pipeline_context(
        run_id,
        project_id,
        project_path,
        toolchain_set_id,
        target_id,
        run,
        project,
    );
    let with_outputs = if outputs.len() == 0 {
        told
    } else {
        told.push(log("workflow"@, "Outputs: "@ + kv_list_text(outputs) + "\n"@))
    };
    done(with_outputs.push(pipeline_stream(cfg, run_id, correlation_id, run, stream_history)))
}

/// Takes what a started pipeline run is known by.
pub fn end_run_pipeline(
    cfg: &AppConfig,
    run_id: &str,
    correlation_id: &str,
    project_id: &str,
    project_path: &str,
    toolchain_set_id: &str,
    target_id: &str,
    stream_history: bool,
    answered_run: &Option<String>,
    answered_job: &Option<String>,
    answered_project: &Option<String>,
    outputs: &Vec<KeyValue>,
) -> (r: Turn)
    ensures
        r@ == pipeline_started(
            *cfg,
            run_id@,
            correlation_id@,
            project_id@,
            project_path@,
            toolchain_set_id@,
            target_id@,
            stream_history,
            opt_text(*answered_run),
            opt_text(*answered_job),
            opt_text(*answered_project),
            kvs(outputs@),
        ),
{
    let run: String = text_or_empty(answered_run);
    let job: String = text_or_empty(answered_job);
    let project: String = text_or_empty(answered_project);
    let mut out: Out = Out::new();
    out.log(
        "workflow",
        cat7(
            "Pipeline started: run_id=",
            run.as_str(),
            " job_id=",
            job.as_str(),
            " project_id=",
            project.as_str(),
            "\n",
        ),
    );
    push_pipeline_context(
        &mut out,
        run_id,
        project_id,
        project_path,
        toolchain_set_id,
        target_id,
        run.as_str(),
        project.as_str(),
    );
    if outputs.len() != 0 {
        let pairs: String = kv_pairs(outputs);
        out.log("workflow", cat3("Outputs: ", pairs.as_str(), "\n"));
    }
    let stream_run: String = if is_blank(run.as_str()) {
        trim_owned(run_id)
    } else {
        run
    };
    let corr: String = trim_owned(correlation_id);
    if stream_run.as_str().is_empty() && corr.as_str().is_empty() {
        out.say("workflow", "No run_id or correlation_id to stream.\n");
    } else {
        out.push(
            Effect::RunStream {
                addr: cfg.job_addr.clone(),
                run_id: stream_run,
                correlation_id: corr,
                include_history: stream_history,
                page: "workflow",
            },
        );
    }
    finish(out)
}

/// A build is to be run.
pub open spec fn run_build(
    cfg: AppConfig,
    project_ref: Seq<char>,
    variant: BuildVariant,
    variant_name: Seq<char>,
    module: Seq<char>,
    tasks: Seq<Seq<char>>,
    clean_first: bool,
    gradle_args: Seq<KeyValueView>,
    job_id: Option<Seq<char>>,
    correlation_id: Seq<char>,
) -> TurnView {
    if blank(project_ref) {
        done(seq![log("console"@, "Project path or id is required.\n"@)])
    } else {
        call(
            seq![log("console"@, "Connecting to BuildService at "@ + cfg.build_addr@ + "\n"@)],
            CallView::Build {
                addr: cfg.build_addr@,
                project_id: trimmed(project_ref),
                variant,
                clean_first,
                gradle_args,
                job_id: unless_blank(job_id),
                module,
                variant_name,
                tasks,
                correlation_id: trimmed(correlation_id),
                run_id: id_text(correlation_id),
            },
        )
    }
}

/// Starts a build from what the form holds.
pub fn begin_run_build(
    cfg: &AppConfig,
    project_ref: &str,
    variant: BuildVariant,
    variant_name: &str,
    module: &str,
    tasks: &Vec<String>,
    clean_first: bool,
    gradle_args: &Vec<KeyValue>,
    job_id: &Option<String>,
    correlation_id: &str,
) -> (r: Turn)
    ensures
        r@ == run_build(
            *cfg,
            project_ref@,
            variant,
            variant_name@,
            module@,
            texts(tasks@),
            clean_first,
            kvs(gradle_args@),
            opt_text(*job_id),
            correlation_id@,
        ),
{
    if is_blank(project_ref) {
        return last_words("console", "Project path or id is required.\n");
    }
    let mut out: Out = Out::new();
    out.log("console", cat3("Connecting to BuildService at ", cfg.build_addr.as_str(), "\n"));
    ask(
        out,
        Call::Build {
            addr: cfg.build_addr.clone(),
            project_id: trim_owned(project_ref),
            variant,
            clean_first,
            gradle_args: clone_kvs(gradle_args),
            job_id: drop_blank(job_id),
            module: module.to_owned(),
            variant_name: variant_name.to_owned(),
            tasks: clone_texts(tasks),
            correlation_id: trim_owned(correlation_id),
            run_id: to_optional_id(correlation_id),
        },
    )
}

/// A build is running, or it is not.
pub open spec fn build_started(cfg: AppConfig, job_id: Option<Seq<char>>) -> TurnView {
    let id = or_empty(job_id);
    if id.len() == 0 {
        done(seq![log("console"@, "Build returned empty job_id.\n"@)])
    } else {
        done(
            seq![
                log("console"@, "Build started: job_id="@ + id + "\n"@),
                EffectView::JobStream { addr: cfg.job_addr@, job_id: id, page: "console"@ },
            ],
        )
    }
}

/// Takes the job that builds.
pub fn end_run_build(cfg: &AppConfig, job_id: &Option<String>) -> (r: Turn)
    ensures
        r@ == build_started(*cfg, opt_text(*job_id)),
{
    let id: String = text_or_empty(job_id);
    if id.as_str().is_empty() {
        return last_words("console", "Build returned empty job_id.\n");
    }
    let mut out: Out = Out::new();
    out.log("console", cat3("Build started: job_id=", id.as_str(), "\n"));
    out.push(Effect::JobStream { addr: cfg.job_addr.clone(), job_id: id, page: "console" });
    finish(out)
}

/// The artifacts of a project are to be listed.
pub open spec fn list_artifacts(
    cfg: AppConfig,
    project_ref: Seq<char>,
    variant: BuildVariant,
    filter: ArtifactFilter,
) -> TurnView {
    if blank(project_ref) {
        done(seq![log("console"@, "Project path or id is required.\n"@)])
    } else {
        call(
            seq![log("console"@, "Listing artifacts via "@ + cfg.build_addr@ + "\n"@)],
            CallView::ListArtifacts {
                addr: cfg.build_addr@,
                project_id: trimmed(project_ref),
                variant,
                modules: texts(filter.modules@),
                variant_name: filter.variant@,
                types: filter.types@,
                name_contains: filter.name_contains@,
                path_contains: filter.path_contains@,
            },
        )
    }
}

fn clone_types(types: &Vec<ArtifactType>) -> (r: Vec<ArtifactType>)
    ensures
        r@ == types@,
{
    let mut r: Vec<ArtifactType> = Vec::new();
    for i in 0..types.len()
        invariant
            r@ =~= types@.take(i as int),
    {
        r.push(types[i]);
    }
    assert(types@.take(types@.len() as int) =~= types@);
    r
}

/// Asks what a project has built.
pub fn begin_list_artifacts(
    cfg: &AppConfig,
    project_ref: &str,
    variant: BuildVariant,
    filter: &ArtifactFilter,
) -> (r: Turn)
    ensures
        r@ == list_artifacts(*cfg, project_ref@, variant, *filter),
{
    if is_blank(project_ref) {
        return last_words("console", "Project path or id is required.\n");
    }
    let mut out: Out = Out::new();
    out.log("console", cat3("Listing artifacts via ", cfg.build_addr.as_str(), "\n"));
    ask(
        out,
        Call::ListArtifacts {
            addr: cfg.build_addr.clone(),
            project_id: trim_owned(project_ref),
            variant,
            modules: clone_texts(&filter.modules),
            variant_name: filter.variant.clone(),
            types: clone_types(&filter.types),
            name_contains: filter.name_contains.clone(),
            path_contains: filter.path_contains.clone(),
        },
    )
}

/// The value of the first pair with a key.
pub open spec fn value_of(items: Seq<KeyValue>, key: Seq<char>) -> Option<Seq<char>>
    decreases items.len(),
{
    if items.len() == 0 {
        None
    } else {
        match value_of(items.drop_last(), key) {
            Some(value) => Some(value),
            None => if items.last().key@ == key {
                Some(items.last().value@)
            } else {
                None
            },
        }
    }
}

/// The value of the first pair with a key, or else `fallback`.
pub fn metadata_value<'a>(items: &'a Vec<KeyValue>, key: &str, fallback: &'a str) -> (r: &'a str)
    ensures
        r@ == or_else(value_of(items@, key@), fallback@),
{
    let mut found: Option<usize> = None;
    for i in 0..items.len()
        invariant
            match found {
                Some(k) => k < items@.len() && value_of(items@.take(i as int), key@) == Some(
                    items@[k as int].value@,
                ),
                None => value_of(items@.take(i as int), key@) is None,
            },
    {
        assert(items@.take(i + 1).drop_last() =~= items@.take(i as int));
        if found.is_none() && text_eq(items[i].key.as_str(), key) {
            found = Some(i);
        }
    }
    assert(items@.take(items@.len() as int) =~= items@);
    match found {
        Some(k) => items[k].value.as_str(),
        None => fallback,
    }
}

/// An artifact's line.
pub open spec fn artifact_line(a: Artifact) -> Seq<char> {
    "- ["@ + artifact_type_name(a.kind) + "] "@ + a.name@ + " module="@ + or_else(
        value_of(a.metadata@, "module"@),
        "-"@,
    ) + " variant="@ + or_else(value_of(a.metadata@, "variant"@), "-"@) + " task="@ + or_else(
        value_of(a.metadata@, "task"@),
        "-"@,
    ) + " size="@ + dec_nat(a.size_bytes as nat) + " path="@ + a.path@ + "\n"@
}

/// An artifact's line.
pub fn format_artifact_line(a: &Artifact) -> (r: String)
    ensures
        r@ == artifact_line(*a),
{
    let mut s: String = cat9(
        "- [",
        artifact_type_label(a.kind),
        "] ",
        a.name.as_str(),
        " module=",
        metadata_value(&a.metadata, "module", "-"),
        " variant=",
        metadata_value(&a.metadata, "variant", "-"),
        " task=",
    );
    s.append(metadata_value(&a.metadata, "task", "-"));
    s.append(" size=");
    s.append(u64_text(a.size_bytes).as_str());
    s.append(" path=");
    s.append(a.path.as_str());
    s.append("\n");
    s
}

/// The module that an artifact is counted to.
pub open spec fn module_key(a: Artifact) -> Seq<char> {
    let module = or_else(value_of(a.metadata@, "module"@), ""@);
    if blank(module) {
        "<root>"@
    } else {
        module
    }
}

/// The modules of artifacts.
pub open spec fn module_keys(artifacts: Seq<Artifact>) -> Seq<Seq<char>> {
    Seq::new(artifacts.len(), |i: int| module_key(artifacts[i]))
}

/// The lines of artifacts.
pub open spec fn artifact_rows(artifacts: Seq<Artifact>) -> Seq<Seq<char>> {
    Seq::new(artifacts.len(), |i: int| artifact_line(artifacts[i]))
}

/// The headings of groups of artifacts.
pub open spec fn module_headings(groups: Seq<GroupView>) -> Seq<Seq<char>> {
    Seq::new(groups.len(), |i: int| "Module: "@ + groups[i].key + "\n"@)
}

/// Artifacts were listed: module by module, in the order of their names.
pub open spec fn artifacts_listed(artifacts: Seq<Artifact>) -> TurnView {
    if artifacts.len() == 0 {
        done(seq![log("console"@, "No artifacts found.\n"@)])
    } else {
        let groups = grouped(module_keys(artifacts));
        done(
            seq![log("console"@, "Artifacts ("@ + dec_nat(artifacts.len()) + ")\n"@)] + logs(
                "console"@,
                groups_lines(groups, module_headings(groups), artifact_rows(artifacts)),
            ),
        )
    }
}

fn rows_of(artifacts: &Vec<Artifact>) -> (r: (Vec<String>, Vec<String>))
    ensures
        texts(r.0@) == module_keys(artifacts@),
        texts(r.1@) == artifact_rows(artifacts@),
        r.1@.len() == artifacts@.len(),
{
    broadcast use lemma_texts_push;

    let ghost all_keys = module_keys(artifacts@);
    let ghost all_rows = artifact_rows(artifacts@);
    let mut keys: Vec<String> = Vec::new();
    let mut rows: Vec<String> = Vec::new();
    assert(texts(keys@) =~= all_keys.take(0));
    assert(texts(rows@) =~= all_rows.take(0));
    for i in 0..artifacts.len()
        invariant
            all_keys == module_keys(artifacts@),
            all_rows == artifact_rows(artifacts@),
            texts(keys@) == all_keys.take(i as int),
            texts(rows@) == all_rows.take(i as int),
    {
        let a: &Artifact = &artifacts[i];
        let module: &str = metadata_value(&a.metadata, "module", "");
        if is_blank(module) {
            keys.push("<root>".to_owned());
        } else {
            keys.push(module.to_owned());
        }
        rows.push(format_artifact_line(a));
        assert(all_keys.take(i + 1) =~= all_keys.take(i as int).push(all_keys[i as int]));
        assert(all_rows.take(i + 1) =~= all_rows.take(i as int).push(all_rows[i as int]));
    }
    assert(all_keys.take(artifacts@.len() as int) =~= all_keys);
    assert(all_rows.take(artifacts@.len() as int) =~= all_rows);
    assert(texts(rows@).len() == rows@.len());
    (keys, rows)
}

fn headings_of(groups: &Vec<Group>) -> (r: Vec<String>)
    ensures
        texts(r@) == module_headings(group_views(groups@)),
        r@.len() == groups@.len(),
{
    broadcast use lemma_texts_push;

    let ghost all = module_headings(group_views(groups@));
    let mut headings: Vec<String> = Vec::new();
    assert(texts(headings@) =~= all.take(0));
    for i in 0..groups.len()
        invariant
            all == module_headings(group_views(groups@)),
            texts(headings@) == all.take(i as int),
    {
        headings.push(cat3("Module: ", groups[i].key.as_str(), "\n"));
        assert(all.take(i + 1) =~= all.take(i as int).push(all[i as int]));
    }
    assert(all.take(groups@.len() as int) =~= all);
    assert(texts(headings@).len() == headings@.len());
    headings
}

/// Shows what a project has built.
pub fn end_list_artifacts(artifacts: &Vec<Artifact>) -> (r: Turn)
    ensures
        r@ == artifacts_listed(artifacts@),
{
    if artifacts.len() == 0 {
        return last_words("console", "No artifacts found.\n");
    }
    let (keys, rows): (Vec<String>, Vec<String>) = rows_of(artifacts);
    let groups: Vec<Group> = group_by_key(&keys);
    proof {
        assert(texts(keys@).len() == artifacts@.len());
        lemma_members_in(texts(keys@));
    }
    let n: usize = artifacts.len();
    let mut out: Out = Out::new();
    out.log("console", cat3("Artifacts (", usize_text(n).as_str(), ")\n"));
    out.log_all("console", lines_of_groups(&groups, &headings_of(&groups), &rows));
    finish(out)
}

} // verus!
