//! Projects: templates, recent projects, creating and opening them, and their defaults.

use crate::commands::{set_pairs, target_pairs, template_pairs, AppEvent, AppEventView};
use crate::config::AppConfig;
use crate::context::{ProjectTemplateOption, TargetOption, ToolchainSetOption};
use crate::model::{
    id_text, kv_list_text, kv_pairs, kvs, or_else, or_empty, text_or, text_or_empty, to_optional_id,
};
use crate::text::{
    blank, cat2, cat3, cat5, cat7, is_blank, lemma_mentions_in_sum, lemma_mentions_itself,
    lemma_texts_push, mentions, opt_text, text_eq, texts, trim_owned, trimmed,
};
use crate::worker::call::{Call, CallView};
use crate::worker::jobs::{drop_blank, push_token, token_line, unless_blank};
use crate::worker::reply::{Project, Target, Template, ToolchainSet};
use crate::worker::toolchains::{trim_id, trimmed_id};
use crate::worker::turn::{
    ask, call, done, finish, job_stream, last_words, log, logs, ui, EffectView, Failure, Out, Turn,
    TurnView,
};
use vstd::prelude::*;
use vstd::string::*;

verus! {

/// A request to the project service is announced and made.
pub open spec fn ask_projects(what: Seq<char>, cfg: AppConfig, request: CallView) -> TurnView {
    call(seq![log("projects"@, what + cfg.project_addr@ + "\n"@)], request)
}

fn begin_projects(what: &str, cfg: &AppConfig, request: Call) -> (r: Turn)
    ensures
        r@ == ask_projects(what@, *cfg, request@),
{
    let mut out: Out = Out::new();
    out.log("projects", cat3(what, cfg.project_addr.as_str(), "\n"));
    ask(out, request)
}

/// The templates are asked for.
pub open spec fn list_templates(cfg: AppConfig) -> TurnView {
    ask_projects(
        "Connecting to ProjectService at "@,
        cfg,
        CallView::ListTemplates { addr: cfg.project_addr@ },
    )
}

/// Asks for the templates.
pub fn begin_list_templates(cfg: &AppConfig) -> (r: Turn)
    ensures
        r@ == list_templates(*cfg),
{
    begin_projects(
        "Connecting to ProjectService at ",
        cfg,
        Call::ListTemplates { addr: cfg.project_addr.clone() },
    )
}

/// The values that a template sets.
pub open spec fn defaults_line(t: Template) -> Seq<char> {
    if t.defaults@.len() == 0 {
        "defaults: none"@
    } else {
        "defaults: "@ + kv_list_text(kvs(t.defaults@))
    }
}

/// A template, in a few lines.
pub open spec fn template_lines(t: Template) -> Seq<char> {
    let id = or_else(opt_text(t.template_id), ""@);
    if id.len() == 0 {
        "- "@ + t.name@ + " (missing template_id)\n"@
    } else {
        "- "@ + t.name@ + " ("@ + id + ")\n  "@ + t.description@ + "\n  "@ + defaults_line(t)
            + "\n"@
    }
}

fn template_text(t: &Template) -> (r: String)
    ensures
        r@ == template_lines(*t),
{
    let id: &str = text_or(&t.template_id, "");
    if id.is_empty() {
        return cat3("- ", t.name.as_str(), " (missing template_id)\n");
    }
    let defaults: String = if t.defaults.len() == 0 {
        "defaults: none".to_owned()
    } else {
        cat2("defaults: ", kv_pairs(&t.defaults).as_str())
    };
    let mut s: String = cat7(
        "- ",
        t.name.as_str(),
        " (",
        id,
        ")\n  ",
        t.description.as_str(),
        "\n  ",
    );
    s.append(defaults.as_str());
    s.append("\n");
    s
}

/// The templates that can be chosen: those that have an id.
pub open spec fn template_choices(templates: Seq<Template>) -> Seq<(Seq<char>, Seq<char>)>
    decreases templates.len(),
{
    if templates.len() == 0 {
        Seq::empty()
    } else {
        let before = template_choices(templates.drop_last());
        let id = or_else(opt_text(templates.last().template_id), ""@);
        if id.len() == 0 {
            before
        } else {
            before.push((id, templates.last().name@))
        }
    }
}

/// The templates, shown and in words.
pub open spec fn templates_listed(templates: Seq<Template>) -> TurnView {
    done(
        (seq![log("projects"@, "Templates:\n"@)] + logs(
            "projects"@,
            Seq::new(templates.len(), |i: int| template_lines(templates[i])),
        )).push(ui(AppEventView::ProjectTemplates { templates: template_choices(templates) })),
    )
}

/// Shows the templates.
pub fn end_list_templates(templates: &Vec<Template>) -> (r: Turn)
    ensures
        r@ == templates_listed(templates@),
{
    broadcast use lemma_texts_push;

    let ghost all = Seq::new(templates@.len(), |i: int| template_lines(templates@[i]));
    let mut lines: Vec<String> = Vec::new();
    let mut options: Vec<ProjectTemplateOption> = Vec::new();
    assert(texts(lines@) =~= all.take(0));
    assert(template_pairs(options@) =~= template_choices(templates@.take(0)));
    for i in 0..templates.len()
        invariant
            all == Seq::new(templates@.len(), |i: int| template_lines(templates@[i])),
            texts(lines@) == all.take(i as int),
            template_pairs(options@) == template_choices(templates@.take(i as int)),
    {
        assert(templates@.take(i + 1).drop_last() =~= templates@.take(i as int));
        let t: &Template = &templates[i];
        lines.push(template_text(t));
        assert(all.take(i + 1) =~= all.take(i as int).push(all[i as int]));
        let id: &str = text_or(&t.template_id, "");
        if !id.is_empty() {
            let ghost before = template_pairs(options@);
            let option = ProjectTemplateOption { id: id.to_owned(), name: t.name.clone() };
            options.push(option);
            assert(template_pairs(options@) =~= before.push((option.id@, option.name@)));
        }
    }
    assert(templates@.take(templates@.len() as int) =~= templates@);
    assert(all.take(templates@.len() as int) =~= all);
    let mut out: Out = Out::new();
    out.say("projects", "Templates:\n");
    out.log_all("projects", lines);
    out.ui(AppEvent::ProjectTemplates { templates: options });
    finish(out)
}

/// The recent projects are asked for.
pub open spec fn list_recent(cfg: AppConfig) -> TurnView {
    ask_projects(
        "Listing recent projects via "@,
        cfg,
        CallView::ListRecentProjects { addr: cfg.project_addr@ },
    )
}

/// Asks for the recent projects.
pub fn begin_list_recent(cfg: &AppConfig) -> (r: Turn)
    ensures
        r@ == list_recent(*cfg),
{
    begin_projects(
        "Listing recent projects via ",
        cfg,
        Call::ListRecentProjects { addr: cfg.project_addr.clone() },
    )
}

/// A project behind a word, in two lines.
pub open spec fn project_lines(word: Seq<char>, p: Project) -> Seq<char> {
    word + p.name@ + " ("@ + or_else(opt_text(p.project_id), ""@) + ")\n  path="@ + p.path@
        + "\n"@
}

fn project_text(word: &str, p: &Project) -> (r: String)
    ensures
        r@ == project_lines(word@, *p),
{
    cat7(
        word,
        p.name.as_str(),
        " (",
        text_or(&p.project_id, ""),
        ")\n  path=",
        p.path.as_str(),
        "\n",
    )
}

/// The recent projects, in words.
pub open spec fn recent_listed(projects: Seq<Project>, token: Option<Seq<char>>) -> TurnView {
    let body = if projects.len() == 0 {
        seq![log("projects"@, "No recent projects.\n"@)]
    } else {
        seq![log("projects"@, "Recent projects:\n"@)] + logs(
            "projects"@,
            Seq::new(projects.len(), |i: int| project_lines("- "@, projects[i])),
        )
    };
    done(body + token_line("projects"@, unless_blank(token)))
}

/// Shows the recent projects.
pub fn end_list_recent(projects: &Vec<Project>, token: &Option<String>) -> (r: Turn)
    ensures
        r@ == recent_listed(projects@, opt_text(*token)),
{
    broadcast use lemma_texts_push;

    let mut out: Out = Out::new();
    if projects.len() == 0 {
        out.say("projects", "No recent projects.\n");
    } else {
        let ghost all = Seq::new(projects@.len(), |i: int| project_lines("- "@, projects@[i]));
        let mut lines: Vec<String> = Vec::new();
        assert(texts(lines@) =~= all.take(0));
        for i in 0..projects.len()
            invariant
                all == Seq::new(projects@.len(), |i: int| project_lines("- "@, projects@[i])),
                texts(lines@) == all.take(i as int),
        {
            lines.push(project_text("- ", &projects[i]));
            assert(all.take(i + 1) =~= all.take(i as int).push(all[i as int]));
        }
        assert(all.take(projects@.len() as int) =~= all);
        out.say("projects", "Recent projects:\n");
        out.log_all("projects", lines);
    }
    push_token(&mut out, "projects", &drop_blank(token));
    finish(out)
}

/// What a project can be set to is asked for: first the toolchain sets.
pub open spec fn load_defaults(cfg: AppConfig) -> TurnView {
    call(
        seq![log("projects"@, "Loading toolchain sets via "@ + cfg.toolchain_addr@ + "\n"@)],
        CallView::ListToolchainSets { addr: cfg.toolchain_addr@ },
    )
}

/// Asks for what a project can be set to: first the toolchain sets.
pub fn begin_load_defaults(cfg: &AppConfig) -> (r: Turn)
    ensures
        r@ == load_defaults(*cfg),
{
    let mut out: Out = Out::new();
    out.log("projects", cat3("Loading toolchain sets via ", cfg.toolchain_addr.as_str(), "\n"));
    ask(out, Call::ListToolchainSets { addr: cfg.toolchain_addr.clone() })
}

/// How a toolchain set is shown as a choice.
pub open spec fn set_label(s: ToolchainSet) -> Seq<char> {
    (if blank(s.display_name@) {
        "Toolchain Set"@
    } else {
        s.display_name@
    }) + " ("@ + or_else(opt_text(s.toolchain_set_id), ""@) + ") sdk="@ + or_else(
        opt_text(s.sdk_toolchain_id),
        ""@,
    ) + " ndk="@ + or_else(opt_text(s.ndk_toolchain_id), ""@)
}

/// The toolchain sets that can be chosen: those that have an id.
pub open spec fn set_choices(sets: Seq<ToolchainSet>) -> Seq<(Seq<char>, Seq<char>)>
    decreases sets.len(),
{
    if sets.len() == 0 {
        Seq::empty()
    } else {
        let before = set_choices(sets.drop_last());
        let id = or_else(opt_text(sets.last().toolchain_set_id), ""@);
        if id.len() == 0 {
            before
        } else {
            before.push((id, set_label(sets.last())))
        }
    }
}

fn choose_sets(sets: &Vec<ToolchainSet>) -> (r: Vec<ToolchainSetOption>)
    ensures
        set_pairs(r@) == set_choices(sets@),
{
    let mut options: Vec<ToolchainSetOption> = Vec::new();
    assert(set_pairs(options@) =~= set_choices(sets@.take(0)));
    for i in 0..sets.len()
        invariant
            set_pairs(options@) == set_choices(sets@.take(i as int)),
    {
        assert(sets@.take(i + 1).drop_last() =~= sets@.take(i as int));
        let s: &ToolchainSet = &sets[i];
        let id: &str = text_or(&s.toolchain_set_id, "");
        if !id.is_empty() {
            let name: &str = if is_blank(s.display_name.as_str()) {
                "Toolchain Set"
            } else {
                s.display_name.as_str()
            };
            let label: String = cat7(
                name,
                " (",
                id,
                ") sdk=",
                text_or(&s.sdk_toolchain_id, ""),
                " ndk=",
                text_or(&s.ndk_toolchain_id, ""),
            );
            let ghost before = set_pairs(options@);
            let option = ToolchainSetOption { id: id.to_owned(), label };
            options.push(option);
            assert(set_pairs(options@) =~= before.push((option.id@, option.label@)));
        }
    }
    assert(sets@.take(sets@.len() as int) =~= sets@);
    options
}

/// A line about a request that failed.
pub open spec fn failure_line(
    service: Seq<char>,
    what: Seq<char>,
    connecting: bool,
    err: Seq<char>,
) -> EffectView {
    log(
        "projects"@,
        (if connecting {
            service + " connection failed: "@
        } else {
            what
        }) + err + "\n"@,
    )
}

fn push_failure(out: &mut Out, service: &str, what: &str, failure: &Failure)
    ensures
        final(out)@ == old(out)@.push(
            failure_line(service@, what@, failure.connecting, failure.error@),
        ),
{
    let mut line: String = if failure.connecting {
        cat2(service, " connection failed: ")
    } else {
        what.to_owned()
    };
    line.append(failure.error.as_str());
    line.append("\n");
    out.log("projects", line);
}

/// The toolchain sets are dealt with: the targets follow.
pub open spec fn load_targets(cfg: AppConfig, effect: EffectView) -> TurnView {
    call(
        seq![effect, log("projects"@, "Loading targets via "@ + cfg.targets_addr@ + "\n"@)],
        CallView::ListTargets { addr: cfg.targets_addr@, include_offline: true },
    )
}

fn ask_targets(cfg: &AppConfig, mut out: Out) -> (r: Turn)
    requires
        out@.len() == 1,
    ensures
        r@ == load_targets(*cfg, out@[0]),
{
    let ghost effect = out@[0];
    out.log("projects", cat3("Loading targets via ", cfg.targets_addr.as_str(), "\n"));
    assert(out@ =~= seq![
        effect,
        log("projects"@, "Loading targets via "@ + cfg.targets_addr@ + "\n"@),
    ]);
    ask(out, Call::ListTargets { addr: cfg.targets_addr.clone(), include_offline: true })
}

/// The toolchain sets are there; the targets are asked for.
pub open spec fn default_sets_came(cfg: AppConfig, sets: Seq<ToolchainSet>) -> TurnView {
    load_targets(cfg, ui(AppEventView::ProjectToolchainSets { sets: set_choices(sets) }))
}

/// Shows the toolchain sets and asks for the targets.
pub fn defaults_on_sets(cfg: &AppConfig, sets: &Vec<ToolchainSet>) -> (r: Turn)
    ensures
        r@ == default_sets_came(*cfg, sets@),
{
    let mut out: Out = Out::new();
    out.ui(AppEvent::ProjectToolchainSets { sets: choose_sets(sets) });
    ask_targets(cfg, out)
}

/// The toolchain sets could not be had; the targets are asked for nonetheless.
pub open spec fn default_sets_failed(cfg: AppConfig, connecting: bool, err: Seq<char>) -> TurnView {
    load_targets(
        cfg,
        failure_line("ToolchainService"@, "List toolchain sets failed: "@, connecting, err),
    )
}

/// Tells that the toolchain sets could not be had and asks for the targets.
pub fn defaults_on_sets_failure(cfg: &AppConfig, failure: &Failure) -> (r: Turn)
    ensures
        r@ == default_sets_failed(*cfg, failure.connecting, failure.error@),
{
    let mut out: Out = Out::new();
    push_failure(&mut out, "ToolchainService", "List toolchain sets failed: ", failure);
    ask_targets(cfg, out)
}

/// How a target is shown as a choice.
pub open spec fn target_label(t: Target) -> Seq<char> {
    t.display_name@ + " ["@ + t.provider@ + "] "@ + t.state@ + " ("@ + or_else(
        opt_text(t.target_id),
        ""@,
    ) + ")"@
}

/// The targets that can be chosen: those that have an id.
pub open spec fn target_choices(targets: Seq<Target>) -> Seq<(Seq<char>, Seq<char>)>
    decreases targets.len(),
{
    if targets.len() == 0 {
        Seq::empty()
    } else {
        let before = target_choices(targets.drop_last());
        let id = or_else(opt_text(targets.last().target_id), ""@);
        if id.len() == 0 {
            before
        } else {
            before.push((id, target_label(targets.last())))
        }
    }
}

fn choose_targets(targets: &Vec<Target>) -> (r: Vec<TargetOption>)
    ensures
        target_pairs(r@) == target_choices(targets@),
{
    let mut options: Vec<TargetOption> = Vec::new();
    assert(target_pairs(options@) =~= target_choices(targets@.take(0)));
    for i in 0..targets.len()
        invariant
            target_pairs(options@) == target_choices(targets@.take(i as int)),
    {
        assert(targets@.take(i + 1).drop_last() =~= targets@.take(i as int));
        let t: &Target = &targets[i];
        let id: &str = text_or(&t.target_id, "");
        if !id.is_empty() {
            let mut label: String = cat7(
                t.display_name.as_str(),
                " [",
                t.provider.as_str(),
                "] ",
                t.state.as_str(),
                " (",
                id,
            );
            label.append(")");
            let ghost before = target_pairs(options@);
            let option = TargetOption { id: id.to_owned(), label };
            options.push(option);
            assert(target_pairs(options@) =~= before.push((option.id@, option.label@)));
        }
    }
    assert(targets@.take(targets@.len() as int) =~= targets@);
    options
}

/// The targets are there.
pub open spec fn default_targets_came(targets: Seq<Target>) -> TurnView {
    done(seq![ui(AppEventView::ProjectTargets { targets: target_choices(targets) })])
}

/// Shows the targets.
pub fn defaults_on_targets(targets: &Vec<Target>) -> (r: Turn)
    ensures
        r@ == default_targets_came(targets@),
{
    let mut out: Out = Out::new();
    out.ui(AppEvent::ProjectTargets { targets: choose_targets(targets) });
    finish(out)
}

/// A project is to be made from a template.
pub open spec fn create_project(
    cfg: AppConfig,
    name: Seq<char>,
    path: Seq<char>,
    template_id: Seq<char>,
    job_id: Option<Seq<char>>,
    correlation_id: Seq<char>,
) -> TurnView {
    let n = trimmed(name);
    let p = trimmed(path);
    let t = trimmed(template_id);
    if n.len() == 0 {
        done(seq![log("projects"@, "Create project requires a name.\n"@)])
    } else if p.len() == 0 {
        done(seq![log("projects"@, "Create project requires a path.\n"@)])
    } else if t.len() == 0 || t == "none"@ {
        done(seq![log("projects"@, "Select a template before creating the project.\n"@)])
    } else {
        ask_projects(
            "Creating project via "@,
            cfg,
            CallView::CreateProject {
                addr: cfg.project_addr@,
                name: n,
                path: p,
                template_id: t,
                job_id: unless_blank(job_id),
                correlation_id: trimmed(correlation_id),
                run_id: id_text(correlation_id),
            },
        )
    }
}

/// Asks for a project to be made from a template.
pub fn begin_create_project(
    cfg: &AppConfig,
    name: &str,
    path: &str,
    template_id: &str,
    job_id: &Option<String>,
    correlation_id: &str,
) -> (r: Turn)
    ensures
        r@ == create_project(
            *cfg,
            name@,
            path@,
            template_id@,
            opt_text(*job_id),
            correlation_id@,
        ),
{
    let n: String = trim_owned(name);
    let p: String = trim_owned(path);
    let t: String = trim_owned(template_id);
    if n.as_str().is_empty() {
        return last_words("projects", "Create project requires a name.\n");
    }
    if p.as_str().is_empty() {
        return last_words("projects", "Create project requires a path.\n");
    }
    if t.as_str().is_empty() || text_eq(t.as_str(), "none") {
        return last_words("projects", "Select a template before creating the project.\n");
    }
    begin_projects(
        "Creating project via ",
        cfg,
        Call::CreateProject {
            addr: cfg.project_addr.clone(),
            name: n,
            path: p,
            template_id: t,
            job_id: drop_blank(job_id),
            correlation_id: trim_owned(correlation_id),
            run_id: to_optional_id(correlation_id),
        },
    )
}

/// The job that makes a project is there.
pub open spec fn project_created(
    cfg: AppConfig,
    path: Seq<char>,
    project_id: Option<Seq<char>>,
    job_id: Option<Seq<char>>,
) -> TurnView {
    let p = or_empty(project_id);
    let j = or_empty(job_id);
    let told = seq![
        log("projects"@, "Create queued: project_id="@ + p + " job_id="@ + j + "\n"@),
    ];
    done(
        (if blank(p) {
            told
        } else {
            told.push(
                ui(
                    AppEventView::ProjectSelected {
                        project_id: p,
                        project_path: trimmed(path),
                        opened_existing: false,
                    },
                ),
            )
        }) + job_stream(cfg.job_addr@, j, "projects"@),
    )
}

/// Takes the job that makes a project.
pub fn end_create_project(
    cfg: &AppConfig,
    path: &str,
    project_id: &Option<String>,
    job_id: &Option<String>,
) -> (r: Turn)
    ensures
        r@ == project_created(*cfg, path@, opt_text(*project_id), opt_text(*job_id)),
{
    let p: String = text_or_empty(project_id);
    let j: String = text_or_empty(job_id);
    let mut out: Out = Out::new();
    out.log(
        "projects",
        cat5("Create queued: project_id=", p.as_str(), " job_id=", j.as_str(), "\n"),
    );
    if !is_blank(p.as_str()) {
        out.ui(
            AppEvent::ProjectSelected {
                project_id: p,
                project_path: trim_owned(path),
                opened_existing: false,
            },
        );
    }
    out.job_stream(cfg.job_addr.as_str(), j.as_str(), "projects");
    finish(out)
}

/// A project is to be opened.
pub open spec fn open_project(cfg: AppConfig, path: Seq<char>) -> TurnView {
    if trimmed(path).len() == 0 {
        done(seq![log("projects"@, "Open project requires a path.\n"@)])
    } else {
        ask_projects(
            "Opening project via "@,
            cfg,
            CallView::OpenProject { addr: cfg.project_addr@, path: trimmed(path) },
        )
    }
}

/// Asks for a project to be opened.
pub fn begin_open_project(cfg: &AppConfig, path: &str) -> (r: Turn)
    ensures
        r@ == open_project(*cfg, path@),
{
    let p: String = trim_owned(path);
    if p.as_str().is_empty() {
        return last_words("projects", "Open project requires a path.\n");
    }
    begin_projects(
        "Opening project via ",
        cfg,
        Call::OpenProject { addr: cfg.project_addr.clone(), path: p },
    )
}

/// A project was opened.
pub open spec fn project_opened(project: Option<Project>) -> TurnView {
    match project {
        Some(p) => {
            let id = or_else(opt_text(p.project_id), ""@);
            let told = seq![log("projects"@, project_lines("Opened: "@, p))];
            done(
                if blank(id) {
                    told
                } else {
                    told.push(
                        ui(
                            AppEventView::ProjectSelected {
                                project_id: id,
                                project_path: p.path@,
                                opened_existing: true,
                            },
                        ),
                    )
                },
            )
        },
        None => done(seq![log("projects"@, "Open project returned no project.\n"@)]),
    }
}

/// Takes the project that was opened.
pub fn end_open_project(project: &Option<Project>) -> (r: Turn)
    ensures
        r@ == project_opened(*project),
{
    match project {
        Some(p) => {
            let id: &str = text_or(&p.project_id, "");
            let mut out: Out = Out::new();
            out.log("projects", project_text("Opened: ", p));
            if !is_blank(id) {
                out.ui(
                    AppEvent::ProjectSelected {
                        project_id: id.to_owned(),
                        project_path: p.path.clone(),
                        opened_existing: true,
                    },
                );
            }
            finish(out)
        },
        None => last_words("projects", "Open project returned no project.\n"),
    }
}

/// A project is to be given a toolchain set and a target.
pub open spec fn set_config(
    cfg: AppConfig,
    project_id: Seq<char>,
    toolchain_set_id: Option<Seq<char>>,
    default_target_id: Option<Seq<char>>,
) -> TurnView {
    let p = trimmed(project_id);
    if p.len() == 0 {
        done(seq![log("projects"@, "Set project config requires a project id.\n"@)])
    } else if trimmed_id(toolchain_set_id) is None && trimmed_id(default_target_id) is None {
        done(
            seq![log("projects"@, "Provide a toolchain set id and/or default target id.\n"@)],
        )
    } else {
        ask_projects(
            "Updating project config via "@,
            cfg,
            CallView::SetProjectConfig {
                addr: cfg.project_addr@,
                project_id: p,
                toolchain_set_id: trimmed_id(toolchain_set_id),
                default_target_id: trimmed_id(default_target_id),
            },
        )
    }
}

/// Asks for a project to be given a toolchain set and a target.
pub fn begin_set_config(
    cfg: &AppConfig,
    project_id: &str,
    toolchain_set_id: &Option<String>,
    default_target_id: &Option<String>,
) -> (r: Turn)
    ensures
        r@ == set_config(
            *cfg,
            project_id@,
            opt_text(*toolchain_set_id),
            opt_text(*default_target_id),
        ),
{
    let p: String = trim_owned(project_id);
    if p.as_str().is_empty() {
        return last_words("projects", "Set project config requires a project id.\n");
    }
    let set_id: Option<String> = trim_id(toolchain_set_id);
    let target_id: Option<String> = trim_id(default_target_id);
    if set_id.is_none() && target_id.is_none() {
        return last_words("projects", "Provide a toolchain set id and/or default target id.\n");
    }
    begin_projects(
        "Updating project config via ",
        cfg,
        Call::SetProjectConfig {
            addr: cfg.project_addr.clone(),
            project_id: p,
            toolchain_set_id: set_id,
            default_target_id: target_id,
        },
    )
}

/// Whether a project was given its toolchain set and target, in words.
pub open spec fn config_set(project_id: Seq<char>, ok: bool) -> TurnView {
    done(
        seq![
            log(
                "projects"@,
                if ok {
                    "Updated config for "@ + trimmed(project_id) + "\n"@
                } else {
                    "Project config update returned ok=false.\n"@
                },
            ),
        ],
    )
}

/// Tells whether a project was given its toolchain set and target.
pub fn end_set_config(project_id: &str, ok: bool) -> (r: Turn)
    ensures
        r@ == config_set(project_id@, ok),
{
    if ok {
        let p: String = trim_owned(project_id);
        let line: String = cat3("Updated config for ", p.as_str(), "\n");
        last_words("projects", line.as_str())
    } else {
        last_words("projects", "Project config update returned ok=false.\n")
    }
}

/// A project is to be given the active toolchain set and the default target.
pub open spec fn use_defaults(cfg: AppConfig, project_id: Seq<char>) -> TurnView {
    if trimmed(project_id).len() == 0 {
        done(seq![log("projects"@, "Use active defaults requires a project id.\n"@)])
    } else {
        call(
            Seq::empty(),
            CallView::GetActiveToolchainSet { addr: cfg.toolchain_addr@ },
        )
    }
}

/// Asks for the active toolchain set, to give it to a project.
pub fn begin_use_defaults(cfg: &AppConfig, project_id: &str) -> (r: Turn)
    ensures
        r@ == use_defaults(*cfg, project_id@),
{
    if is_blank(project_id) {
        return last_words("projects", "Use active defaults requires a project id.\n");
    }
    ask(Out::new(), Call::GetActiveToolchainSet { addr: cfg.toolchain_addr.clone() })
}

/// The id of the active toolchain set, where it is not blank.
pub open spec fn active_set_id(set: Option<ToolchainSet>) -> Option<Seq<char>> {
    match set {
        Some(s) => unless_blank(opt_text(s.toolchain_set_id)),
        None => None,
    }
}

/// The id of the active toolchain set, where it is not blank.
pub fn set_id_of(set: &Option<ToolchainSet>) -> (r: Option<String>)
    ensures
        opt_text(r) == active_set_id(*set),
{
    match set {
        Some(s) => drop_blank(&s.toolchain_set_id),
        None => None,
    }
}

/// The id of the default target, where it is not blank.
pub open spec fn default_target_id(target: Option<Target>) -> Option<Seq<char>> {
    match target {
        Some(t) => unless_blank(opt_text(t.target_id)),
        None => None,
    }
}

/// The id of the default target, where it is not blank.
pub fn target_id_of(target: &Option<Target>) -> (r: Option<String>)
    ensures
        opt_text(r) == default_target_id(*target),
{
    match target {
        Some(t) => drop_blank(&t.target_id),
        None => None,
    }
}

/// The active toolchain set is known: the default target is asked for.
pub open spec fn active_set_known(cfg: AppConfig) -> TurnView {
    call(Seq::empty(), CallView::GetDefaultTarget { addr: cfg.targets_addr@ })
}

/// Goes on with the default target once the active toolchain set is known.
pub fn use_on_set(cfg: &AppConfig) -> (r: Turn)
    ensures
        r@ == active_set_known(*cfg),
{
    ask(Out::new(), Call::GetDefaultTarget { addr: cfg.targets_addr.clone() })
}

/// The active toolchain set is not known: the default target is asked for.
pub open spec fn active_set_unknown(cfg: AppConfig, connecting: bool, err: Seq<char>) -> TurnView {
    call(
        seq![
            failure_line(
                "ToolchainService"@,
                "Active toolchain set lookup failed: "@,
                connecting,
                err,
            ),
        ],
        CallView::GetDefaultTarget { addr: cfg.targets_addr@ },
    )
}

/// Goes on with the default target where the active toolchain set could not be had.
pub fn use_on_set_failure(cfg: &AppConfig, failure: &Failure) -> (r: Turn)
    ensures
        r@ == active_set_unknown(*cfg, failure.connecting, failure.error@),
{
    let mut out: Out = Out::new();
    push_failure(&mut out, "ToolchainService", "Active toolchain set lookup failed: ", failure);
    ask(out, Call::GetDefaultTarget { addr: cfg.targets_addr.clone() })
}

/// What there is of defaults is given to the project.
pub open spec fn apply_defaults(
    cfg: AppConfig,
    project_id: Seq<char>,
    set_id: Option<Seq<char>>,
    target_id: Option<Seq<char>>,
    before: Seq<EffectView>,
) -> TurnView {
    if set_id is None && target_id is None {
        done(
            before.push(
                log("projects"@, "No active toolchain set or default target found.\n"@),
            ),
        )
    } else {
        call(
            before.push(
                log("projects"@, "Applying active defaults via "@ + cfg.project_addr@ + "\n"@),
            ),
            CallView::SetProjectConfig {
                addr: cfg.project_addr@,
                project_id: trimmed(project_id),
                toolchain_set_id: set_id,
                default_target_id: target_id,
            },
        )
    }
}

fn apply(
    cfg: &AppConfig,
    project_id: &str,
    set_id: &Option<String>,
    target_id: &Option<String>,
    mut out: Out,
) -> (r: Turn)
    ensures
        r@ == apply_defaults(*cfg, project_id@, opt_text(*set_id), opt_text(*target_id), out@),
{
    if set_id.is_none() && target_id.is_none() {
        out.say("projects", "No active toolchain set or default target found.\n");
        return finish(out);
    }
    out.log("projects", cat3("Applying active defaults via ", cfg.project_addr.as_str(), "\n"));
    ask(
        out,
        Call::SetProjectConfig {
            addr: cfg.project_addr.clone(),
            project_id: trim_owned(project_id),
            toolchain_set_id: set_id.clone(),
            default_target_id: target_id.clone(),
        },
    )
}

/// The default target is known.
pub open spec fn default_target_known(
    cfg: AppConfig,
    project_id: Seq<char>,
    set_id: Option<Seq<char>>,
    target_id: Option<Seq<char>>,
) -> TurnView {
    apply_defaults(cfg, project_id, set_id, target_id, Seq::empty())
}

/// Gives a project the active toolchain set and the default target, as far as there are any.
pub fn use_on_target(
    cfg: &AppConfig,
    project_id: &str,
    set_id: &Option<String>,
    target_id: &Option<String>,
) -> (r: Turn)
    ensures
        r@ == default_target_known(*cfg, project_id@, opt_text(*set_id), opt_text(*target_id)),
{
    apply(cfg, project_id, set_id, target_id, Out::new())
}

/// The default target is not known.
pub open spec fn default_target_unknown(
    cfg: AppConfig,
    project_id: Seq<char>,
    set_id: Option<Seq<char>>,
    connecting: bool,
    err: Seq<char>,
) -> TurnView {
    apply_defaults(
        cfg,
        project_id,
        set_id,
        None,
        seq![
            failure_line("TargetService"@, "Default target lookup failed: "@, connecting, err),
        ],
    )
}

/// Gives a project the active toolchain set where the default target could not be had.
pub fn use_on_target_failure(
    cfg: &AppConfig,
    project_id: &str,
    set_id: &Option<String>,
    failure: &Failure,
) -> (r: Turn)
    ensures
        r@ == default_target_unknown(
            *cfg,
            project_id@,
            opt_text(*set_id),
            failure.connecting,
            failure.error@,
        ),
{
    let mut out: Out = Out::new();
    push_failure(&mut out, "TargetService", "Default target lookup failed: ", failure);
    apply(cfg, project_id, set_id, &None, out)
}

/// Whether a project was given the defaults, in words.
pub open spec fn defaults_applied(
    project_id: Seq<char>,
    set_id: Option<Seq<char>>,
    target_id: Option<Seq<char>>,
    ok: bool,
) -> TurnView {
    done(
        seq![
            log(
                "projects"@,
                if ok {
                    "Applied defaults to "@ + trimmed(project_id) + "\n  toolchain_set_id="@
                        + or_empty(set_id) + "\n  default_target_id="@ + or_empty(target_id)
                        + "\n"@
                } else {
                    "Project config update returned ok=false.\n"@
                },
            ),
        ],
    )
}

/// Tells whether a project was given the defaults.
pub fn end_use_defaults(
    project_id: &str,
    set_id: &Option<String>,
    target_id: &Option<String>,
    ok: bool,
) -> (r: Turn)
    ensures
        r@ == defaults_applied(project_id@, opt_text(*set_id), opt_text(*target_id), ok),
{
    if ok {
        let p: String = trim_owned(project_id);
        let s: String = text_or_empty(set_id);
        let t: String = text_or_empty(target_id);
        let line: String = cat7(
            "Applied defaults to ",
            p.as_str(),
            "\n  toolchain_set_id=",
            s.as_str(),
            "\n  default_target_id=",
            t.as_str(),
            "\n",
        );
        last_words("projects", line.as_str())
    } else {
        last_words("projects", "Project config update returned ok=false.\n")
    }
}

/// The active set and the default target count by their ids, exactly where they are there and have one
/// that is not blank.
pub proof fn law_active_ids(set: Option<ToolchainSet>, target: Option<Target>)
    ensures
        active_set_id(set) is Some <==> set is Some && set->0.toolchain_set_id is Some && !blank(
            set->0.toolchain_set_id->0@,
        ),
        active_set_id(set) matches Some(id) ==> id == set->0.toolchain_set_id->0@,
        default_target_id(target) is Some <==> target is Some && target->0.target_id is Some
            && !blank(target->0.target_id->0@),
        default_target_id(target) matches Some(id) ==> id == target->0.target_id->0@,
{
}

/// A choice is labelled with what it is: a set with its name, its id and its toolchains, a target with
/// its name, its provider, its state and its id.
pub proof fn law_labels(s: ToolchainSet, t: Target)
    ensures
        !blank(s.display_name@) ==> mentions(set_label(s), s.display_name@),
        s.toolchain_set_id matches Some(id) ==> mentions(set_label(s), id@),
        s.sdk_toolchain_id matches Some(id) ==> mentions(set_label(s), id@),
        s.ndk_toolchain_id matches Some(id) ==> mentions(set_label(s), id@),
        mentions(target_label(t), t.display_name@),
        mentions(target_label(t), t.provider@),
        mentions(target_label(t), t.state@),
        t.target_id matches Some(id) ==> mentions(target_label(t), id@),
{
    broadcast use {lemma_mentions_itself, lemma_mentions_in_sum};

}

/// A template's line tells its name, and where it has an id also that, what it is and what it sets.
pub proof fn law_template_lines(t: Template)
    ensures
        mentions(template_lines(t), t.name@),
        or_empty(opt_text(t.template_id)).len() > 0 ==> {
            &&& mentions(template_lines(t), or_empty(opt_text(t.template_id)))
            &&& mentions(template_lines(t), t.description@)
            &&& t.defaults@.len() > 0 ==> mentions(
                template_lines(t),
                kv_list_text(kvs(t.defaults@)),
            )
            &&& t.defaults@.len() == 0 ==> mentions(template_lines(t), "defaults: none"@)
        },
{
    broadcast use {lemma_mentions_itself, lemma_mentions_in_sum};

}

} // verus!
