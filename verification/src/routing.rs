//! What the interface does with each event of the worker.

use crate::commands::{set_pairs, target_pairs, template_pairs, AppEvent};
use crate::config::{cache_is_clear, context_updated, same_settings, AppConfig};
use crate::context::{project_reference, ProjectTemplateOption, TargetOption, ToolchainSetOption};
use crate::model::{or_empty, or_else};
use crate::text::{blank, cat2, is_blank, opt_text, text_eq, texts, trim, trim_owned, trimmed};
use crate::ui_state::{
    kept_log, log_place, logs_of, same_but_logs, ProjectsState, TargetsEnv, TargetsState, UiState,
    WorkflowState,
};
use vstd::prelude::*;
use vstd::string::*;

verus! {

/// The id of the provider of SDK toolchains.
pub const PROVIDER_SDK_ID: &'static str = "provider-android-sdk-custom";

/// The id of the provider of NDK toolchains.
pub const PROVIDER_NDK_ID: &'static str = "provider-android-ndk-custom";

/// The application id that the targets page once showed at first.
pub const LEGACY_SAMPLE_APPLICATION_ID: &'static str = "com.example.sampleconsole";

/// The notice that a reset was not complete.
pub const RESET_WARNING: &'static str =
    "Reset did not complete; continuing to select a project folder. Check Settings for reset errors.\n";

/// Something that the interface shows or does.
#[allow(inconsistent_fields)]
#[derive(Debug)]
pub enum Show {
    /// A line is added to a page's log.
    Append { page: &'static str, line: String },
    JobLabel { text: String },
    StateLabel { text: String },
    ProgressLabel { text: String },
    ResultLabel { text: String },
    /// The configuration is written to its file.
    SaveConfig,
    /// What is worked with is shown on all pages.
    Context,
    TargetsApk { path: String },
    WorkflowApk { path: String },
    TargetsApplication { id: String },
    WorkflowApplication { id: String },
    CuttlefishBuild { id: String },
    SdkVersions { versions: Vec<String>, preferred: String },
    NdkVersions { versions: Vec<String>, preferred: String },
    Templates { templates: Vec<ProjectTemplateOption>, preferred: Option<String> },
    ToolchainSets { sets: Vec<ToolchainSetOption>, preferred: Option<String> },
    Targets { targets: Vec<TargetOption>, preferred: Option<String> },
    /// What is empty on the projects page takes over what is worked with.
    FillProjects,
    /// No template is chosen.
    TemplateNone,
    /// The application id is looked for near an APK.
    InferFromApk { path: String, targets: bool, workflow: bool },
    /// The application id is looked for in a project.
    InferFromProject { path: String },
    /// All logs are emptied.
    ClearPages,
    /// The state of the interface is shown.
    State,
    /// The file with the state of the interface is deleted.
    ClearStateFile,
    /// The file with the state of the interface is read.
    LoadState,
    /// The settings page shows the configuration.
    Settings,
    /// The user is asked for a project's folder.
    PromptProject,
}

/// What a `Show` holds, mathematically.
#[allow(inconsistent_fields)]
#[verifier::ext_equal]
pub enum ShowView {
    Append { page: Seq<char>, line: Seq<char> },
    JobLabel { text: Seq<char> },
    StateLabel { text: Seq<char> },
    ProgressLabel { text: Seq<char> },
    ResultLabel { text: Seq<char> },
    SaveConfig,
    Context,
    TargetsApk { path: Seq<char> },
    WorkflowApk { path: Seq<char> },
    TargetsApplication { id: Seq<char> },
    WorkflowApplication { id: Seq<char> },
    CuttlefishBuild { id: Seq<char> },
    SdkVersions { versions: Seq<Seq<char>>, wanted: Seq<char> },
    NdkVersions { versions: Seq<Seq<char>>, wanted: Seq<char> },
    Templates { templates: Seq<(Seq<char>, Seq<char>)>, preferred: Option<Seq<char>> },
    ToolchainSets { sets: Seq<(Seq<char>, Seq<char>)>, preferred: Option<Seq<char>> },
    Targets { choices: Seq<(Seq<char>, Seq<char>)>, preferred: Option<Seq<char>> },
    FillProjects,
    TemplateNone,
    InferFromApk { path: Seq<char>, targets: bool, workflow: bool },
    InferFromProject { path: Seq<char> },
    ClearPages,
    State,
    ClearStateFile,
    LoadState,
    Settings,
    PromptProject,
}

impl View for Show {
    type V = ShowView;

    open spec fn view(&self) -> ShowView {
        match *self {
            Show::Append { page, line } => ShowView::Append { page: page@, line: line@ },
            Show::JobLabel { text } => ShowView::JobLabel { text: text@ },
            Show::StateLabel { text } => ShowView::StateLabel { text: text@ },
            Show::ProgressLabel { text } => ShowView::ProgressLabel { text: text@ },
            Show::ResultLabel { text } => ShowView::ResultLabel { text: text@ },
            Show::SaveConfig => ShowView::SaveConfig,
            Show::Context => ShowView::Context,
            Show::TargetsApk { path } => ShowView::TargetsApk { path: path@ },
            Show::WorkflowApk { path } => ShowView::WorkflowApk { path: path@ },
            Show::TargetsApplication { id } => ShowView::TargetsApplication { id: id@ },
            Show::WorkflowApplication { id } => ShowView::WorkflowApplication { id: id@ },
            Show::CuttlefishBuild { id } => ShowView::CuttlefishBuild { id: id@ },
            Show::SdkVersions { versions, preferred } => ShowView::SdkVersions {
                versions: texts(versions@),
                wanted: preferred@,
            },
            Show::NdkVersions { versions, preferred } => ShowView::NdkVersions {
                versions: texts(versions@),
                wanted: preferred@,
            },
            Show::Templates { templates, preferred } => ShowView::Templates {
                templates: template_pairs(templates@),
                preferred: opt_text(preferred),
            },
            Show::ToolchainSets { sets, preferred } => ShowView::ToolchainSets {
                sets: set_pairs(sets@),
                preferred: opt_text(preferred),
            },
            Show::Targets { targets, preferred } => ShowView::Targets {
                choices: target_pairs(targets@),
                preferred: opt_text(preferred),
            },
            Show::FillProjects => ShowView::FillProjects,
            Show::TemplateNone => ShowView::TemplateNone,
            Show::InferFromApk { path, targets, workflow } => ShowView::InferFromApk {
                path: path@,
                targets,
                workflow,
            },
            Show::InferFromProject { path } => ShowView::InferFromProject { path: path@ },
            Show::ClearPages => ShowView::ClearPages,
            Show::State => ShowView::State,
            Show::ClearStateFile => ShowView::ClearStateFile,
            Show::LoadState => ShowView::LoadState,
            Show::Settings => ShowView::Settings,
            Show::PromptProject => ShowView::PromptProject,
        }
    }
}

/// What the interface shows or does, in order.
#[derive(Debug)]
pub struct Shows {
    pub items: Vec<Show>,
}

impl View for Shows {
    type V = Seq<ShowView>;

    open spec fn view(&self) -> Seq<ShowView> {
        Seq::new(self.items@.len(), |i: int| self.items@[i]@)
    }
}

impl Shows {
    /// Nothing yet.
    pub fn new() -> (r: Self)
        ensures
            r@ == Seq::<ShowView>::empty(),
    {
        let r = Shows { items: Vec::new() };
        assert(r@ =~= Seq::empty());
        r
    }

    /// Adds one at the end.
    pub fn push(&mut self, show: Show)
        ensures
            final(self)@ == old(self)@.push(show@),
    {
        self.items.push(show);
        assert(self@ =~= old(self)@.push(show@));
    }
}

/// The job control page's label for the job that is being watched.
pub open spec fn job_label(job_id: Option<Seq<char>>) -> ShowView {
    ShowView::JobLabel { text: "job_id: "@ + or_else(job_id, "-"@) }
}

/// The job control page shows no job.
pub open spec fn status_reset() -> Seq<ShowView> {
    seq![
        job_label(None),
        ShowView::StateLabel { text: "state: "@ + "-"@ },
        ShowView::ProgressLabel { text: "progress: "@ + "-"@ },
        ShowView::ResultLabel { text: "result: "@ + "-"@ },
    ]
}

fn push_status_reset(out: &mut Shows)
    ensures
        final(out)@ == old(out)@ + status_reset(),
{
    let ghost before = out@;
    out.push(Show::JobLabel { text: cat2("job_id: ", "-") });
    out.push(Show::StateLabel { text: cat2("state: ", "-") });
    out.push(Show::ProgressLabel { text: cat2("progress: ", "-") });
    out.push(Show::ResultLabel { text: cat2("result: ", "-") });
    assert(out@ =~= before + status_reset());
}

/// What the pages show of the application ids.
#[derive(Debug)]
pub struct Screen {
    pub targets_application_id: String,
    pub workflow_application_id: String,
}

/// What the interface knows: the configuration, its own state, the job that is being watched, and
/// whether the user is asked for a project once a reset is complete.
#[derive(Debug)]
pub struct AppModel {
    pub cfg: AppConfig,
    pub ui_state: UiState,
    pub current_job_id: Option<String>,
    pub pending_prompt: bool,
}

/// A text, unless it is blank.
pub open spec fn preferred(text: Seq<char>) -> Option<Seq<char>> {
    if blank(text) {
        None
    } else {
        Some(text)
    }
}

fn prefer(text: &String) -> (r: Option<String>)
    ensures
        opt_text(r) == preferred(text@),
{
    if is_blank(text.as_str()) {
        None
    } else {
        Some(text.clone())
    }
}

/// What an APK that was just built changes on the pages.
pub open spec fn apk_shows(apk_path: Seq<char>, screen: Screen) -> Seq<ShowView> {
    let paths: Seq<ShowView> = if blank(apk_path) {
        Seq::empty()
    } else {
        seq![
            ShowView::TargetsApk { path: trimmed(apk_path) },
            ShowView::WorkflowApk { path: trimmed(apk_path) },
        ]
    };
    let targets = blank(screen.targets_application_id@);
    let workflow = blank(screen.workflow_application_id@);
    if targets || workflow {
        paths.push(ShowView::InferFromApk { path: apk_path, targets, workflow })
    } else {
        paths
    }
}

/// The page of the toolchains gets new versions of a provider that it knows.
pub open spec fn versions_shows(m: AppModel, provider_id: Seq<char>, versions: Seq<Seq<char>>) -> Seq<
    ShowView,
> {
    if provider_id == PROVIDER_SDK_ID@ {
        seq![ShowView::SdkVersions { versions, wanted: m.ui_state.toolchains.sdk_version@ }]
    } else if provider_id == PROVIDER_NDK_ID@ {
        seq![ShowView::NdkVersions { versions, wanted: m.ui_state.toolchains.ndk_version@ }]
    } else {
        Seq::empty()
    }
}

/// The targets page's application id is looked for again: there is none, or only the old sample.
pub open spec fn looks_for_application(screen: Screen) -> bool {
    blank(screen.targets_application_id@) || trimmed(screen.targets_application_id@)
        == LEGACY_SAMPLE_APPLICATION_ID@
}

/// What a project that was chosen changes on the pages.
pub open spec fn project_shows(project_path: Seq<char>, opened_existing: bool, screen: Screen) -> Seq<
    ShowView,
> {
    let head: Seq<ShowView> = if opened_existing {
        seq![ShowView::TemplateNone]
    } else {
        Seq::empty()
    };
    let shown = head.push(ShowView::SaveConfig).push(ShowView::Context);
    if looks_for_application(screen) {
        shown.push(ShowView::InferFromProject { path: project_path })
    } else {
        shown
    }
}

/// What the end of a reset changes: everything is emptied where it succeeded or the user is waiting
/// for it, and a user who is waiting is asked for a project.
pub open spec fn reset_shows(ok: bool, was_pending: bool) -> Seq<ShowView> {
    let cleared: Seq<ShowView> = if ok || was_pending {
        seq![ShowView::SaveConfig] + status_reset() + seq![
            ShowView::Context,
            ShowView::ClearPages,
            ShowView::State,
            ShowView::ClearStateFile,
        ]
    } else {
        Seq::empty()
    };
    let warned = if !ok && was_pending {
        cleared.push(
            ShowView::Append { page: "projects"@, line: RESET_WARNING@ },
        ).push(ShowView::Append { page: "settings"@, line: RESET_WARNING@ })
    } else {
        cleared
    };
    if was_pending {
        warned.push(ShowView::PromptProject)
    } else {
        warned
    }
}

/// What the interface shows or does for an event.
pub open spec fn shows_for(m: AppModel, event: AppEvent, screen: Screen) -> Seq<ShowView> {
    match event {
        AppEvent::Log { page, line } => if log_place(page@) is Some {
            seq![ShowView::Append { page: page@, line: line@ }]
        } else {
            Seq::empty()
        },
        AppEvent::SetCurrentJob { job_id } => seq![
            job_label(opt_text(job_id)),
            ShowView::SaveConfig,
        ],
        AppEvent::HomeResetStatus => status_reset(),
        AppEvent::HomeState { state } => seq![ShowView::StateLabel { text: "state: "@ + state@ }],
        AppEvent::HomeProgress { progress } => seq![
            ShowView::ProgressLabel { text: "progress: "@ + progress@ },
        ],
        AppEvent::HomeResult { result } => seq![
            ShowView::ResultLabel { text: "result: "@ + result@ },
        ],
        AppEvent::SetLastBuildApk { apk_path } => apk_shows(apk_path@, screen),
        AppEvent::SetCuttlefishBuildId { build_id } => if blank(build_id@) {
            Seq::empty()
        } else {
            seq![ShowView::CuttlefishBuild { id: trimmed(build_id@) }]
        },
        AppEvent::ToolchainAvailable { provider_id, versions } => versions_shows(
            m,
            provider_id@,
            texts(versions@),
        ),
        AppEvent::ProjectTemplates { templates } => seq![
            ShowView::Templates {
                templates: template_pairs(templates@),
                preferred: preferred(m.ui_state.projects.template_id@),
            },
        ],
        AppEvent::ProjectToolchainSets { sets } => seq![
            ShowView::ToolchainSets {
                sets: set_pairs(sets@),
                preferred: preferred(m.ui_state.projects.toolchain_set_id@),
            },
            ShowView::FillProjects,
        ],
        AppEvent::ProjectTargets { targets } => seq![
            ShowView::Targets {
                choices: target_pairs(targets@),
                preferred: preferred(m.ui_state.projects.default_target_id@),
            },
            ShowView::FillProjects,
        ],
        AppEvent::ProjectSelected { project_path, opened_existing, .. } => project_shows(
            project_path@,
            opened_existing,
            screen,
        ),
        AppEvent::UpdateActiveContext { .. } => seq![ShowView::SaveConfig, ShowView::Context],
        AppEvent::ResetAllStateComplete { ok } => reset_shows(ok, m.pending_prompt),
        AppEvent::ConfigReloaded { .. } => seq![
            ShowView::Context,
            ShowView::LoadState,
            ShowView::Settings,
        ],
    }
}

/// `post` is `pre` after a project was chosen.
pub open spec fn project_chosen(
    pre: AppModel,
    post: AppModel,
    project_id: String,
    project_path: String,
    opened_existing: bool,
) -> bool {
    &&& post.cfg.active_project_id == if blank(project_id@) {
        pre.cfg.active_project_id
    } else {
        project_id
    }
    &&& post.cfg.active_project_path == if blank(project_path@) && blank(project_id@) {
        pre.cfg.active_project_path
    } else {
        project_path
    }
    &&& post.cfg.last_job_project_id@ == ({
        let now = project_reference(post.cfg.active_project_id@, post.cfg.active_project_path@);
        if blank(now) {
            pre.cfg.last_job_project_id@
        } else {
            now
        }
    })
    &&& post.cfg == (AppConfig {
        active_project_id: post.cfg.active_project_id,
        active_project_path: post.cfg.active_project_path,
        last_job_project_id: post.cfg.last_job_project_id,
        ..pre.cfg
    })
    &&& post.ui_state == (UiState {
        projects: ProjectsState {
            template_id: post.ui_state.projects.template_id,
            ..pre.ui_state.projects
        },
        ..pre.ui_state
    })
    &&& post.ui_state.projects.template_id@ == if opened_existing {
        "none"@
    } else {
        pre.ui_state.projects.template_id@
    }
    &&& post.current_job_id == pre.current_job_id
    &&& post.pending_prompt == pre.pending_prompt
}

/// `post` is `pre` after the end of a reset.
pub open spec fn reset_taken(pre: AppModel, post: AppModel, ok: bool, env: TargetsEnv) -> bool {
    &&& !post.pending_prompt
    &&& if ok || pre.pending_prompt {
        &&& cache_is_clear(post.cfg)
        &&& same_settings(post.cfg, pre.cfg)
        &&& post.current_job_id is None
        &&& call_ensures(UiState::defaults, (&env,), post.ui_state)
    } else {
        &&& post.cfg == pre.cfg
        &&& post.current_job_id == pre.current_job_id
        &&& post.ui_state == pre.ui_state
    }
}

/// `post` is what the interface knows after an event, and `pre` what it knew before.
pub open spec fn event_taken(pre: AppModel, post: AppModel, event: AppEvent, env: TargetsEnv) -> bool {
    match event {
        AppEvent::Log { page, line } => {
            &&& same_but_logs(post.ui_state, pre.ui_state)
            &&& logs_of(post.ui_state) == match log_place(page@) {
                Some(i) => logs_of(pre.ui_state).update(
                    i,
                    kept_log(logs_of(pre.ui_state)[i] + line@),
                ),
                None => logs_of(pre.ui_state),
            }
            &&& post == (AppModel { ui_state: post.ui_state, ..pre })
        },
        AppEvent::SetCurrentJob { job_id } => {
            &&& post.cfg.last_job_id@ == or_empty(opt_text(job_id))
            &&& post == (AppModel {
                current_job_id: job_id,
                cfg: AppConfig { last_job_id: post.cfg.last_job_id, ..pre.cfg },
                ..pre
            })
        },
        AppEvent::ProjectSelected { project_id, project_path, opened_existing } => project_chosen(
            pre,
            post,
            project_id,
            project_path,
            opened_existing,
        ),
        AppEvent::UpdateActiveContext {
            project_id,
            project_path,
            toolchain_set_id,
            target_id,
            run_id,
        } => {
            &&& context_updated(
                pre.cfg,
                post.cfg,
                project_id,
                project_path,
                toolchain_set_id,
                target_id,
                run_id,
            )
            &&& post == (AppModel { cfg: post.cfg, ..pre })
        },
        AppEvent::ResetAllStateComplete { ok } => reset_taken(pre, post, ok, env),
        AppEvent::ConfigReloaded { cfg } => post == (AppModel { cfg, ..pre }),
        _ => post == pre,
    }
}

/// What the interface knows, with another application id on the targets page.
pub open spec fn with_targets_application(m: AppModel, id: String) -> AppModel {
    AppModel {
        ui_state: UiState {
            targets: TargetsState { application_id: id, ..m.ui_state.targets },
            ..m.ui_state
        },
        ..m
    }
}

/// What the interface knows, with another application id on the workflow page.
pub open spec fn with_workflow_application(m: AppModel, id: String) -> AppModel {
    AppModel {
        ui_state: UiState {
            workflow: WorkflowState { application_id: id, ..m.ui_state.workflow },
            ..m.ui_state
        },
        ..m
    }
}

impl AppModel {
    fn take_log(&mut self, page: &'static str, line: String) -> (r: Shows)
        ensures
            forall|env: TargetsEnv| #[trigger]
                event_taken(*old(self), *final(self), AppEvent::Log { page, line }, env),
            r@ == if log_place(page@) is Some {
                seq![ShowView::Append { page: page@, line: line@ }]
            } else {
                Seq::empty()
            },
    {
        self.ui_state.append_log(page, line.as_str());
        let mut out: Shows = Shows::new();
        if is_page(page) {
            out.push(Show::Append { page, line });
        }
        out
    }

    fn take_current_job(&mut self, job_id: Option<String>) -> (r: Shows)
        ensures
            forall|env: TargetsEnv| #[trigger]
                event_taken(*old(self), *final(self), AppEvent::SetCurrentJob { job_id }, env),
            r@ == seq![job_label(opt_text(job_id)), ShowView::SaveConfig],
    {
        let mut out: Shows = Shows::new();
        match &job_id {
            Some(id) => {
                out.push(Show::JobLabel { text: cat2("job_id: ", id.as_str()) });
                self.cfg.last_job_id = id.clone();
            },
            None => {
                out.push(Show::JobLabel { text: cat2("job_id: ", "-") });
                self.cfg.last_job_id = String::new();
                assert(self.cfg.last_job_id@ =~= Seq::empty());
            },
        }
        self.current_job_id = job_id;
        out.push(Show::SaveConfig);
        out
    }

    fn take_project(&mut self, project_id: String, project_path: String, opened_existing: bool, screen: &Screen) -> (r:
        Shows)
        ensures
            project_chosen(*old(self), *final(self), project_id, project_path, opened_existing),
            r@ == project_shows(project_path@, opened_existing, *screen),
    {
        let mut out: Shows = Shows::new();
        if opened_existing {
            out.push(Show::TemplateNone);
            self.ui_state.projects.template_id = "none".to_owned();
        }
        let path: String = project_path.clone();
        self.cfg.select_project(project_id, project_path);
        out.push(Show::SaveConfig);
        out.push(Show::Context);
        let shown: &str = trim(screen.targets_application_id.as_str());
        if shown.is_empty() || text_eq(shown, LEGACY_SAMPLE_APPLICATION_ID) {
            out.push(Show::InferFromProject { path });
        }
        out
    }

    fn take_reset(&mut self, ok: bool, env: &TargetsEnv) -> (r: Shows)
        ensures
            reset_taken(*old(self), *final(self), ok, *env),
            r@ == reset_shows(ok, old(self).pending_prompt),
    {
        let was_pending: bool = self.pending_prompt;
        self.pending_prompt = false;
        let mut out: Shows = Shows::new();
        if ok || was_pending {
            self.cfg.clear_cached_state();
            self.current_job_id = None;
            self.ui_state = UiState::defaults(env);
            out.push(Show::SaveConfig);
            push_status_reset(&mut out);
            out.push(Show::Context);
            out.push(Show::ClearPages);
            out.push(Show::State);
            out.push(Show::ClearStateFile);
            assert(out@ =~= seq![ShowView::SaveConfig] + status_reset() + seq![
                ShowView::Context,
                ShowView::ClearPages,
                ShowView::State,
                ShowView::ClearStateFile,
            ]);
        }
        if !ok && was_pending {
            out.push(Show::Append { page: "projects", line: RESET_WARNING.to_owned() });
            out.push(Show::Append { page: "settings", line: RESET_WARNING.to_owned() });
        }
        if was_pending {
            out.push(Show::PromptProject);
        }
        out
    }

    fn versions(&self, provider_id: &str, versions: Vec<String>) -> (r: Shows)
        ensures
            r@ == versions_shows(*self, provider_id@, texts(versions@)),
    {
        let mut out: Shows = Shows::new();
        if text_eq(provider_id, PROVIDER_SDK_ID) {
            let preferred: String = self.ui_state.toolchains.sdk_version.clone();
            out.push(Show::SdkVersions { versions, preferred });
        } else if text_eq(provider_id, PROVIDER_NDK_ID) {
            let preferred: String = self.ui_state.toolchains.ndk_version.clone();
            out.push(Show::NdkVersions { versions, preferred });
        }
        out
    }

    fn choices(&self, event: AppEvent) -> (r: Shows)
        requires
            event is ProjectTemplates || event is ProjectToolchainSets || event is ProjectTargets,
        ensures
            forall|screen: Screen| #[trigger] shows_for(*self, event, screen) == r@,
    {
        let mut out: Shows = Shows::new();
        match event {
            AppEvent::ProjectTemplates { templates } => {
                let wanted: Option<String> = prefer(&self.ui_state.projects.template_id);
                out.push(Show::Templates { templates, preferred: wanted });
            },
            AppEvent::ProjectToolchainSets { sets } => {
                let wanted: Option<String> = prefer(&self.ui_state.projects.toolchain_set_id);
                out.push(Show::ToolchainSets { sets, preferred: wanted });
                out.push(Show::FillProjects);
            },
            AppEvent::ProjectTargets { targets } => {
                let wanted: Option<String> = prefer(&self.ui_state.projects.default_target_id);
                out.push(Show::Targets { targets, preferred: wanted });
                out.push(Show::FillProjects);
            },
            _ => {},
        }
        out
    }

    /// Takes an event of the worker: changes what the interface knows, and tells what it shows and
    /// does.
    pub fn take(&mut self, event: AppEvent, screen: &Screen, env: &TargetsEnv) -> (r: Shows)
        ensures
            event_taken(*old(self), *final(self), event, *env),
            r@ == shows_for(*old(self), event, *screen),
    {
        let mut out: Shows = Shows::new();
        match event {
            AppEvent::Log { page, line } => self.take_log(page, line),
            AppEvent::SetCurrentJob { job_id } => self.take_current_job(job_id),
            AppEvent::HomeResetStatus => {
                push_status_reset(&mut out);
                assert(out@ =~= status_reset());
                out
            },
            AppEvent::HomeState { state } => {
                out.push(Show::StateLabel { text: cat2("state: ", state.as_str()) });
                out
            },
            AppEvent::HomeProgress { progress } => {
                out.push(Show::ProgressLabel { text: cat2("progress: ", progress.as_str()) });
                out
            },
            AppEvent::HomeResult { result } => {
                out.push(Show::ResultLabel { text: cat2("result: ", result.as_str()) });
                out
            },
            AppEvent::SetLastBuildApk { apk_path } => show_apk(apk_path, screen),
            AppEvent::SetCuttlefishBuildId { build_id } => {
                if !is_blank(build_id.as_str()) {
                    out.push(Show::CuttlefishBuild { id: trim_owned(build_id.as_str()) });
                }
                out
            },
            AppEvent::ToolchainAvailable { provider_id, versions } => {
                self.versions(provider_id.as_str(), versions)
            },
            AppEvent::ProjectTemplates { templates } => {
                self.choices(AppEvent::ProjectTemplates { templates })
            },
            AppEvent::ProjectToolchainSets { sets } => {
                self.choices(AppEvent::ProjectToolchainSets { sets })
            },
            AppEvent::ProjectTargets { targets } => {
                self.choices(AppEvent::ProjectTargets { targets })
            },
            AppEvent::ProjectSelected { project_id, project_path, opened_existing } => {
                self.take_project(project_id, project_path, opened_existing, screen)
            },
            AppEvent::UpdateActiveContext {
                project_id,
                project_path,
                toolchain_set_id,
                target_id,
                run_id,
            } => {
                self.cfg.update_context(
                    project_id,
                    project_path,
                    toolchain_set_id,
                    target_id,
                    run_id,
                );
                out.push(Show::SaveConfig);
                out.push(Show::Context);
                out
            },
            AppEvent::ResetAllStateComplete { ok } => self.take_reset(ok, env),
            AppEvent::ConfigReloaded { cfg } => {
                self.cfg = cfg;
                out.push(Show::Context);
                out.push(Show::LoadState);
                out.push(Show::Settings);
                out
            },
        }
    }

    fn keep_targets_application(&mut self, id: String)
        ensures
            *final(self) == with_targets_application(*old(self), id),
    {
        self.ui_state.targets.application_id = id;
    }

    fn keep_workflow_application(&mut self, id: String)
        ensures
            *final(self) == with_workflow_application(*old(self), id),
    {
        self.ui_state.workflow.application_id = id;
    }

    /// Takes the application id that was found near an APK: for the pages that lacked one.
    pub fn apk_inferred(&mut self, inferred: Option<String>, targets: bool, workflow: bool) -> (r:
        Shows)
        ensures
            *final(self) == match inferred {
                Some(id) => {
                    let m = if targets {
                        with_targets_application(*old(self), id)
                    } else {
                        *old(self)
                    };
                    if workflow {
                        with_workflow_application(m, id)
                    } else {
                        m
                    }
                },
                None => *old(self),
            },
            r@ == match inferred {
                Some(id) => {
                    let on_targets: Seq<ShowView> = if targets {
                        seq![ShowView::TargetsApplication { id: trimmed(id@) }]
                    } else {
                        Seq::empty()
                    };
                    if workflow {
                        on_targets.push(ShowView::WorkflowApplication { id: trimmed(id@) })
                    } else {
                        on_targets
                    }
                },
                None => Seq::empty(),
            },
    {
        let mut out: Shows = Shows::new();
        if let Some(id) = inferred {
            if targets {
                out.push(Show::TargetsApplication { id: trim_owned(id.as_str()) });
                self.keep_targets_application(id.clone());
            }
            if workflow {
                out.push(Show::WorkflowApplication { id: trim_owned(id.as_str()) });
                self.keep_workflow_application(id);
            }
        }
        out
    }

    /// Takes the application id that was found in a project, where it was looked for; without one,
    /// the old sample goes.
    pub fn project_inferred(&mut self, inferred: Option<String>, screen: &Screen) -> (r: Shows)
        ensures
            final(self).ui_state.targets.application_id@ == match inferred {
                Some(id) => id@,
                None => if trimmed(screen.targets_application_id@)
                    == LEGACY_SAMPLE_APPLICATION_ID@ {
                    Seq::empty()
                } else {
                    old(self).ui_state.targets.application_id@
                },
            },
            *final(self) == with_targets_application(
                *old(self),
                final(self).ui_state.targets.application_id,
            ),
            r@ == match inferred {
                Some(id) => seq![ShowView::TargetsApplication { id: trimmed(id@) }],
                None => if trimmed(screen.targets_application_id@)
                    == LEGACY_SAMPLE_APPLICATION_ID@ {
                    seq![ShowView::TargetsApplication { id: Seq::empty() }]
                } else {
                    Seq::empty()
                },
            },
    {
        let mut out: Shows = Shows::new();
        match inferred {
            Some(id) => {
                out.push(Show::TargetsApplication { id: trim_owned(id.as_str()) });
                self.keep_targets_application(id);
            },
            None => {
                let shown: &str = trim(screen.targets_application_id.as_str());
                if text_eq(shown, LEGACY_SAMPLE_APPLICATION_ID) {
                    let label: String = String::new();
                    let kept: String = String::new();
                    assert(label@ =~= Seq::empty());
                    assert(kept@ =~= Seq::empty());
                    out.push(Show::TargetsApplication { id: label });
                    self.keep_targets_application(kept);
                }
            },
        }
        out
    }

    /// Takes the state of the interface as its file holds it, and tells whether it is shown: it is
    /// where there was a file.
    pub fn state_read(&mut self, file: Option<UiState>, env: &TargetsEnv) -> (r: bool)
        ensures
            r == file is Some,
            match file {
                Some(state) => final(self).ui_state == state,
                None => call_ensures(UiState::defaults, (env,), final(self).ui_state),
            },
            *final(self) == (AppModel { ui_state: final(self).ui_state, ..*old(self) }),
    {
        let (state, loaded): (UiState, bool) = UiState::load_with_status(file, env);
        self.ui_state = state;
        loaded
    }

    /// Tells whether the button for cancelling does anything: only while a job is being watched.
    pub fn can_cancel(&self) -> (r: bool)
        ensures
            r == self.current_job_id is Some,
    {
        self.current_job_id.is_some()
    }
}

fn is_page(page: &str) -> (r: bool)
    ensures
        r == log_place(page@) is Some,
{
    text_eq(page, "home") || text_eq(page, "workflow") || text_eq(page, "toolchains") || text_eq(
        page,
        "projects",
    ) || text_eq(page, "targets") || text_eq(page, "console") || text_eq(page, "jobs") || text_eq(
        page,
        "evidence",
    ) || text_eq(page, "settings")
}

fn show_apk(apk_path: String, screen: &Screen) -> (r: Shows)
    ensures
        r@ == apk_shows(apk_path@, *screen),
{
    let mut out: Shows = Shows::new();
    if !is_blank(apk_path.as_str()) {
        out.push(Show::TargetsApk { path: trim_owned(apk_path.as_str()) });
        out.push(Show::WorkflowApk { path: trim_owned(apk_path.as_str()) });
    }
    let targets: bool = is_blank(screen.targets_application_id.as_str());
    let workflow: bool = is_blank(screen.workflow_application_id.as_str());
    if targets || workflow {
        out.push(Show::InferFromApk { path: apk_path, targets, workflow });
    }
    out
}

/// However a reset ended, nobody is waiting for it any more; and where it succeeded or somebody was
/// waiting, nothing is worked with, no job is watched, and the settings stay.
pub proof fn law_reset_settles(pre: AppModel, post: AppModel, ok: bool, env: TargetsEnv)
    requires
        event_taken(pre, post, AppEvent::ResetAllStateComplete { ok }, env),
    ensures
        !post.pending_prompt,
        ok || pre.pending_prompt ==> {
            &&& post.current_job_id is None
            &&& post.cfg.active_project_id@.len() == 0
            &&& post.cfg.active_target_id@.len() == 0
            &&& post.cfg.active_toolchain_set_id@.len() == 0
            &&& post.cfg.active_run_id@.len() == 0
            &&& same_settings(post.cfg, pre.cfg)
        },
{
}

/// A line is shown on a page exactly where it is also kept in that page's log.
pub proof fn law_shown_lines_are_kept(
    pre: AppModel,
    post: AppModel,
    page: &'static str,
    line: String,
    screen: Screen,
    env: TargetsEnv,
)
    requires
        event_taken(pre, post, AppEvent::Log { page, line }, env),
    ensures
        shows_for(pre, AppEvent::Log { page, line }, screen).len() == 1 <==> log_place(page@) is Some,
        log_place(page@) matches Some(i) ==> logs_of(post.ui_state)[i] == kept_log(
            logs_of(pre.ui_state)[i] + line@,
        ),
        log_place(page@) is None ==> logs_of(post.ui_state) == logs_of(pre.ui_state),
{
}

/// What a line, a label or a field shows is what the event holds.
pub proof fn law_labels_show_the_event(m: AppModel, event: AppEvent, screen: Screen)
    ensures
        ({
            let shown = shows_for(m, event, screen);
            match event {
                AppEvent::SetCurrentJob { job_id } => {
                    &&& shown.len() == 2 && shown[0] is JobLabel && shown[1] is SaveConfig
                    &&& job_id matches Some(id) ==> id@.is_suffix_of(shown[0]->JobLabel_text)
                    &&& job_id is None ==> "-"@.is_suffix_of(shown[0]->JobLabel_text)
                },
                AppEvent::HomeState { state } => {
                    &&& shown.len() == 1 && shown[0] is StateLabel
                    &&& state@.is_suffix_of(shown[0]->StateLabel_text)
                },
                AppEvent::HomeProgress { progress } => {
                    &&& shown.len() == 1 && shown[0] is ProgressLabel
                    &&& progress@.is_suffix_of(shown[0]->ProgressLabel_text)
                },
                AppEvent::HomeResult { result } => {
                    &&& shown.len() == 1 && shown[0] is ResultLabel
                    &&& result@.is_suffix_of(shown[0]->ResultLabel_text)
                },
                AppEvent::HomeResetStatus => {
                    &&& shown.len() == 4
                    &&& shown[0] is JobLabel && "-"@.is_suffix_of(shown[0]->JobLabel_text)
                    &&& shown[1] is StateLabel && "-"@.is_suffix_of(shown[1]->StateLabel_text)
                    &&& shown[2] is ProgressLabel && "-"@.is_suffix_of(
                        shown[2]->ProgressLabel_text,
                    )
                    &&& shown[3] is ResultLabel && "-"@.is_suffix_of(shown[3]->ResultLabel_text)
                },
                AppEvent::SetCuttlefishBuildId { build_id } => {
                    &&& blank(build_id@) ==> shown.len() == 0
                    &&& !blank(build_id@) ==> shown.len() == 1 && shown[0] is CuttlefishBuild
                        && shown[0]->CuttlefishBuild_id == trimmed(build_id@)
                },
                AppEvent::UpdateActiveContext { .. } => {
                    &&& shown.contains(ShowView::SaveConfig)
                    &&& shown.contains(ShowView::Context)
                    &&& shown.len() == 2
                },
                AppEvent::ConfigReloaded { .. } => {
                    &&& shown.contains(ShowView::Context)
                    &&& shown.contains(ShowView::LoadState)
                    &&& shown.contains(ShowView::Settings)
                    &&& shown.len() == 3
                },
                _ => true,
            }
        }),
{
    let shown = shows_for(m, event, screen);
    match event {
        AppEvent::SetCurrentJob { job_id } => {
            let text = shown[0]->JobLabel_text;
            let id = or_else(opt_text(job_id), "-"@);
            assert(text.skip(text.len() - id.len()) =~= id);
        },
        AppEvent::HomeState { state } => {
            let text = shown[0]->StateLabel_text;
            assert(text.skip(text.len() - state@.len()) =~= state@);
        },
        AppEvent::HomeProgress { progress } => {
            let text = shown[0]->ProgressLabel_text;
            assert(text.skip(text.len() - progress@.len()) =~= progress@);
        },
        AppEvent::HomeResult { result } => {
            let text = shown[0]->ResultLabel_text;
            assert(text.skip(text.len() - result@.len()) =~= result@);
        },
        AppEvent::HomeResetStatus => {
            let dash = "-"@;
            let job = shown[0]->JobLabel_text;
            assert(job.skip(job.len() - dash.len()) =~= dash);
            let state = shown[1]->StateLabel_text;
            assert(state.skip(state.len() - dash.len()) =~= dash);
            let progress = shown[2]->ProgressLabel_text;
            assert(progress.skip(progress.len() - dash.len()) =~= dash);
            let result = shown[3]->ResultLabel_text;
            assert(result.skip(result.len() - dash.len()) =~= dash);
        },
        AppEvent::UpdateActiveContext { .. } => {
            assert(shown[0] is SaveConfig && shown[1] is Context);
        },
        AppEvent::ConfigReloaded { .. } => {
            assert(shown[0] is Context && shown[1] is LoadState && shown[2] is Settings);
        },
        _ => {},
    }
}

/// The path of a new APK goes to the targets page and to the workflow page; and the application id is
/// looked for near it, for each of the two pages exactly where the page has none.
pub proof fn law_new_apk_is_shown(m: AppModel, apk_path: String, screen: Screen)
    ensures
        ({
            let shown = shows_for(m, AppEvent::SetLastBuildApk { apk_path }, screen);
            let needy = blank(screen.targets_application_id@) || blank(
                screen.workflow_application_id@,
            );
            &&& !blank(apk_path@) ==> shown.len() >= 2 && shown[0] == (ShowView::TargetsApk {
                path: trimmed(apk_path@),
            }) && shown[1] == (ShowView::WorkflowApk { path: trimmed(apk_path@) })
            &&& shown.len() == (if blank(apk_path@) {
                0int
            } else {
                2
            }) + (if needy {
                1int
            } else {
                0
            })
            &&& needy ==> shown.last() is InferFromApk && shown.last()->InferFromApk_path
                == apk_path@ && shown.last()->targets == blank(screen.targets_application_id@)
                && shown.last()->workflow == blank(screen.workflow_application_id@)
        }),
{
}

/// Versions and choices go to the list that they are for, all of them, with what the page remembers as
/// what is preferred.
pub proof fn law_lists_are_filled(m: AppModel, event: AppEvent, screen: Screen)
    ensures
        ({
            let shown = shows_for(m, event, screen);
            let page = m.ui_state.projects;
            match event {
                AppEvent::ToolchainAvailable { provider_id, versions } => {
                    &&& provider_id@ == "provider-android-sdk-custom"@ ==> shown.len() == 1
                        && shown[0] is SdkVersions && shown[0]->SdkVersions_versions == texts(
                        versions@,
                    ) && shown[0]->SdkVersions_wanted == m.ui_state.toolchains.sdk_version@
                    &&& provider_id@ == "provider-android-ndk-custom"@ ==> shown.len() == 1
                        && shown[0] is NdkVersions && shown[0]->NdkVersions_versions == texts(
                        versions@,
                    ) && shown[0]->NdkVersions_wanted == m.ui_state.toolchains.ndk_version@
                    &&& "provider-android-sdk-custom"@ != provider_id@
                        && "provider-android-ndk-custom"@ != provider_id@ ==> shown.len() == 0
                },
                AppEvent::ProjectTemplates { templates } => {
                    &&& shown.len() == 1 && shown[0] is Templates
                    &&& shown[0]->templates.len() == templates@.len()
                    &&& forall|i: int|
                        0 <= i < templates@.len() ==> #[trigger] shown[0]->templates[i] == (
                            templates@[i].id@,
                            templates@[i].name@,
                        )
                    &&& blank(page.template_id@) ==> shown[0]->Templates_preferred is None
                    &&& !blank(page.template_id@) ==> shown[0]->Templates_preferred == Some(
                        page.template_id@,
                    )
                },
                AppEvent::ProjectToolchainSets { sets } => {
                    &&& shown.len() == 2 && shown[0] is ToolchainSets && shown[1] is FillProjects
                    &&& shown[0]->sets.len() == sets@.len()
                    &&& forall|i: int|
                        0 <= i < sets@.len() ==> #[trigger] shown[0]->sets[i] == (
                            sets@[i].id@,
                            sets@[i].label@,
                        )
                    &&& blank(page.toolchain_set_id@) ==> shown[0]->ToolchainSets_preferred is None
                    &&& !blank(page.toolchain_set_id@) ==> shown[0]->ToolchainSets_preferred
                        == Some(page.toolchain_set_id@)
                },
                AppEvent::ProjectTargets { targets } => {
                    &&& shown.len() == 2 && shown[0] is Targets && shown[1] is FillProjects
                    &&& shown[0]->choices.len() == targets@.len()
                    &&& forall|i: int|
                        0 <= i < targets@.len() ==> #[trigger] shown[0]->choices[i] == (
                            targets@[i].id@,
                            targets@[i].label@,
                        )
                    &&& blank(page.default_target_id@) ==> shown[0]->Targets_preferred is None
                    &&& !blank(page.default_target_id@) ==> shown[0]->Targets_preferred == Some(
                        page.default_target_id@,
                    )
                },
                _ => true,
            }
        }),
{
    reveal_strlit("provider-android-sdk-custom");
    reveal_strlit("provider-android-ndk-custom");
    assert("provider-android-sdk-custom"@[17] == 's');
    assert("provider-android-ndk-custom"@[17] == 'n');
}

/// A project that is selected is worked with: its id and path where they are given; the next job is for
/// it. A project that was there already has no template. Nothing else changes.
pub proof fn law_selected_project_is_taken_up(
    pre: AppModel,
    post: AppModel,
    project_id: String,
    project_path: String,
    opened_existing: bool,
    env: TargetsEnv,
)
    requires
        event_taken(
            pre,
            post,
            AppEvent::ProjectSelected { project_id, project_path, opened_existing },
            env,
        ),
    ensures
        !blank(project_id@) ==> {
            &&& post.cfg.active_project_id == project_id
            &&& post.cfg.active_project_path == project_path
            &&& post.cfg.last_job_project_id@ == project_id@
        },
        blank(project_id@) ==> post.cfg.active_project_id == pre.cfg.active_project_id,
        blank(project_id@) && !blank(project_path@) ==> post.cfg.active_project_path
            == project_path,
        blank(project_id@) && blank(project_path@) ==> post.cfg.active_project_path
            == pre.cfg.active_project_path,
        opened_existing ==> post.ui_state.projects.template_id@ == "none"@,
        !opened_existing ==> post.ui_state.projects.template_id@
            == pre.ui_state.projects.template_id@,
        same_settings(post.cfg, pre.cfg),
        post.cfg.active_target_id == pre.cfg.active_target_id,
        post.cfg.active_toolchain_set_id == pre.cfg.active_toolchain_set_id,
        post.cfg.active_run_id == pre.cfg.active_run_id,
        post.cfg.last_job_id == pre.cfg.last_job_id,
        post.current_job_id == pre.current_job_id,
        post.pending_prompt == pre.pending_prompt,
        logs_of(post.ui_state) == logs_of(pre.ui_state),
{
}

/// A selected project is saved and shown, and its application id looked for at its own path exactly
/// where the targets page has none of its own; one that was there already is shown without a template.
pub proof fn law_selected_project_is_shown(
    m: AppModel,
    project_id: String,
    project_path: String,
    opened_existing: bool,
    screen: Screen,
)
    ensures
        ({
            let shown = shows_for(
                m,
                AppEvent::ProjectSelected { project_id, project_path, opened_existing },
                screen,
            );
            let typed = screen.targets_application_id@;
            let looks = blank(typed) || trimmed(typed) == "com.example.sampleconsole"@;
            &&& shown.contains(ShowView::SaveConfig)
            &&& shown.contains(ShowView::Context)
            &&& shown.contains(ShowView::TemplateNone) <==> opened_existing
            &&& looks ==> shown.last() == (ShowView::InferFromProject { path: project_path@ })
            &&& !looks ==> shown.last() is Context
        }),
{
    let shown = shows_for(
        m,
        AppEvent::ProjectSelected { project_id, project_path, opened_existing },
        screen,
    );
    if opened_existing {
        assert(shown[0] is TemplateNone && shown[1] is SaveConfig && shown[2] is Context);
    } else {
        assert(shown[0] is SaveConfig && shown[1] is Context);
        assert forall|i: int| 0 <= i < shown.len() implies (#[trigger] shown[i]) !is TemplateNone by {}
    }
}

/// The job that is followed is the one that is told, and is the last one used; a configuration that was
/// read again is taken over; a line changes nothing but logs; every other notice changes nothing.
pub proof fn law_what_events_change(
    pre: AppModel,
    post: AppModel,
    event: AppEvent,
    env: TargetsEnv,
)
    requires
        event_taken(pre, post, event, env),
    ensures
        event matches AppEvent::SetCurrentJob { job_id } ==> {
            &&& post.current_job_id == job_id
            &&& job_id matches Some(id) ==> post.cfg.last_job_id@ == id@
            &&& job_id is None ==> post.cfg.last_job_id@.len() == 0
            &&& post.ui_state == pre.ui_state && post.pending_prompt == pre.pending_prompt
            &&& same_settings(post.cfg, pre.cfg)
            &&& post.cfg.last_correlation_id == pre.cfg.last_correlation_id
        },
        event matches AppEvent::ConfigReloaded { cfg } ==> post.cfg == cfg && post.ui_state
            == pre.ui_state && post.current_job_id == pre.current_job_id && post.pending_prompt
            == pre.pending_prompt,
        event is Log ==> post.cfg == pre.cfg && post.current_job_id == pre.current_job_id
            && post.pending_prompt == pre.pending_prompt && same_but_logs(
            post.ui_state,
            pre.ui_state,
        ),
        event is UpdateActiveContext ==> post.ui_state == pre.ui_state && post.current_job_id
            == pre.current_job_id && post.pending_prompt == pre.pending_prompt,
        event is HomeState || event is HomeProgress || event is HomeResult
            || event is HomeResetStatus || event is SetLastBuildApk || event is SetCuttlefishBuildId
            || event is ToolchainAvailable || event is ProjectTemplates
            || event is ProjectToolchainSets || event is ProjectTargets ==> post == pre,
        event matches AppEvent::ResetAllStateComplete { ok } ==> !ok && !pre.pending_prompt
            ==> post.cfg == pre.cfg && post.ui_state == pre.ui_state && post.current_job_id
            == pre.current_job_id,
{
}

/// After a reset, what was kept is cleared everywhere exactly where it succeeded or somebody waits for
/// it; who waits is asked for a project, and is warned on both pages where it failed.
pub proof fn law_reset_is_shown(m: AppModel, ok: bool, screen: Screen)
    ensures
        ({
            let shown = shows_for(m, AppEvent::ResetAllStateComplete { ok }, screen);
            let waits = m.pending_prompt;
            &&& ok || waits ==> {
                &&& shown.contains(ShowView::SaveConfig)
                &&& shown.contains(ShowView::Context)
                &&& shown.contains(ShowView::ClearPages)
                &&& shown.contains(ShowView::State)
                &&& shown.contains(ShowView::ClearStateFile)
            }
            &&& !ok && !waits ==> shown.len() == 0
            &&& waits ==> shown.last() is PromptProject
            &&& !waits ==> !shown.contains(ShowView::PromptProject)
            &&& !ok && waits ==> {
                &&& shown.contains(ShowView::Append { page: "projects"@, line: RESET_WARNING@ })
                &&& shown.contains(ShowView::Append { page: "settings"@, line: RESET_WARNING@ })
            }
            &&& ok ==> forall|i: int| 0 <= i < shown.len() ==> (#[trigger] shown[i]) !is Append
        }),
{
    let shown = shows_for(m, AppEvent::ResetAllStateComplete { ok }, screen);
    if ok || m.pending_prompt {
        assert(shown[0] is SaveConfig);
        assert(shown[5] is Context && shown[6] is ClearPages && shown[7] is State
            && shown[8] is ClearStateFile);
    }
    if !ok && m.pending_prompt {
        assert(shown[9] == (ShowView::Append { page: "projects"@, line: RESET_WARNING@ }));
        assert(shown[10] == (ShowView::Append { page: "settings"@, line: RESET_WARNING@ }));
    }
}

/// A line for a page is shown on that page, as it is.
pub proof fn law_lines_are_shown(m: AppModel, page: &'static str, line: String, screen: Screen)
    ensures
        ({
            let shown = shows_for(m, AppEvent::Log { page, line }, screen);
            &&& log_place(page@) is Some ==> shown.len() == 1 && shown[0] is Append
                && shown[0]->page == page@ && shown[0]->line == line@
            &&& log_place(page@) is None ==> shown.len() == 0
        }),
{
}

/// An application id that was found goes to the page that it was looked for, and nowhere else.
pub proof fn law_found_application(m: AppModel, id: String)
    ensures
        with_targets_application(m, id).ui_state.targets.application_id == id,
        with_targets_application(m, id).ui_state.workflow == m.ui_state.workflow,
        with_targets_application(m, id).cfg == m.cfg,
        with_workflow_application(m, id).ui_state.workflow.application_id == id,
        with_workflow_application(m, id).ui_state.targets == m.ui_state.targets,
        with_workflow_application(m, id).cfg == m.cfg,
{
}

/// What is seen of what is shown is what it holds, each part in its place.
pub proof fn law_show_is_seen_whole(show: Show)
    ensures
        match show {
            Show::Append { page, line } => {
                &&& show@ is Append
                &&& show@->Append_page == page@
                &&& show@->Append_line == line@
            },
            Show::JobLabel { text } => {
                &&& show@ is JobLabel
                &&& show@->JobLabel_text == text@
            },
            Show::StateLabel { text } => {
                &&& show@ is StateLabel
                &&& show@->StateLabel_text == text@
            },
            Show::ProgressLabel { text } => {
                &&& show@ is ProgressLabel
                &&& show@->ProgressLabel_text == text@
            },
            Show::ResultLabel { text } => {
                &&& show@ is ResultLabel
                &&& show@->ResultLabel_text == text@
            },
            Show::SaveConfig => show@ is SaveConfig,
            Show::Context => show@ is Context,
            Show::TargetsApk { path } => {
                &&& show@ is TargetsApk
                &&& show@->TargetsApk_path == path@
            },
            Show::WorkflowApk { path } => {
                &&& show@ is WorkflowApk
                &&& show@->WorkflowApk_path == path@
            },
            Show::TargetsApplication { id } => {
                &&& show@ is TargetsApplication
                &&& show@->TargetsApplication_id == id@
            },
            Show::WorkflowApplication { id } => {
                &&& show@ is WorkflowApplication
                &&& show@->WorkflowApplication_id == id@
            },
            Show::CuttlefishBuild { id } => {
                &&& show@ is CuttlefishBuild
                &&& show@->CuttlefishBuild_id == id@
            },
            Show::SdkVersions { versions, preferred } => {
                &&& show@ is SdkVersions
                &&& show@->SdkVersions_versions == texts(versions@)
                &&& show@->SdkVersions_wanted == preferred@
            },
            Show::NdkVersions { versions, preferred } => {
                &&& show@ is NdkVersions
                &&& show@->NdkVersions_versions == texts(versions@)
                &&& show@->NdkVersions_wanted == preferred@
            },
            Show::Templates { templates, preferred } => {
                &&& show@ is Templates
                &&& show@->Templates_templates == template_pairs(templates@)
                &&& show@->Templates_preferred == opt_text(preferred)
            },
            Show::ToolchainSets { sets, preferred } => {
                &&& show@ is ToolchainSets
                &&& show@->ToolchainSets_sets == set_pairs(sets@)
                &&& show@->ToolchainSets_preferred == opt_text(preferred)
            },
            Show::Targets { targets, preferred } => {
                &&& show@ is Targets
                &&& show@->Targets_choices == target_pairs(targets@)
                &&& show@->Targets_preferred == opt_text(preferred)
            },
            Show::FillProjects => show@ is FillProjects,
            Show::TemplateNone => show@ is TemplateNone,
            Show::InferFromApk { path, targets, workflow } => {
                &&& show@ is InferFromApk
                &&& show@->InferFromApk_path == path@
                &&& show@->InferFromApk_targets == targets
                &&& show@->InferFromApk_workflow == workflow
            },
            Show::InferFromProject { path } => {
                &&& show@ is InferFromProject
                &&& show@->InferFromProject_path == path@
            },
            Show::ClearPages => show@ is ClearPages,
            Show::State => show@ is State,
            Show::ClearStateFile => show@ is ClearStateFile,
            Show::LoadState => show@ is LoadState,
            Show::Settings => show@ is Settings,
            Show::PromptProject => show@ is PromptProject,
        },
{
}

} // verus!
