//! From a request to the steps that it asks for.

use crate::model::BuildVariant;
use crate::pipeline::messages::{PipelineOptions, PipelineRequest};
use crate::text::{blank, clone_texts, is_blank, opt_text, texts, trim, trim_owned, trimmed};
use crate::util::{file_name, joined_path, last_name, law_last_name};
use vstd::prelude::*;
use vstd::string::*;

verus! {

/// The steps of a pipeline, in the order in which they are taken.
#[derive(Clone, Copy, Debug, PartialEq, Eq, Structural)]
pub enum Step {
    CreateProject,
    OpenProject,
    VerifyToolchain,
    Build,
    InstallApk,
    LaunchApp,
    SupportBundle,
    EvidenceBundle,
}

/// How many steps there are.
pub const STEP_COUNT: usize = 8;

impl Step {
    /// The step's place in the order.
    pub open spec fn index(self) -> int {
        match self {
            Step::CreateProject => 0,
            Step::OpenProject => 1,
            Step::VerifyToolchain => 2,
            Step::Build => 3,
            Step::InstallApk => 4,
            Step::LaunchApp => 5,
            Step::SupportBundle => 6,
            Step::EvidenceBundle => 7,
        }
    }

    /// The step at a place in the order.
    pub open spec fn at(k: int) -> Step {
        if k == 0 {
            Step::CreateProject
        } else if k == 1 {
            Step::OpenProject
        } else if k == 2 {
            Step::VerifyToolchain
        } else if k == 3 {
            Step::Build
        } else if k == 4 {
            Step::InstallApk
        } else if k == 5 {
            Step::LaunchApp
        } else if k == 6 {
            Step::SupportBundle
        } else {
            Step::EvidenceBundle
        }
    }

    /// The step's place in the order.
    pub fn place(self) -> (r: usize)
        ensures
            r == self.index(),
            r < STEP_COUNT,
    {
        match self {
            Step::CreateProject => 0,
            Step::OpenProject => 1,
            Step::VerifyToolchain => 2,
            Step::Build => 3,
            Step::InstallApk => 4,
            Step::LaunchApp => 5,
            Step::SupportBundle => 6,
            Step::EvidenceBundle => 7,
        }
    }

    /// The step at a place in the order.
    pub fn from_place(k: usize) -> (r: Step)
        requires
            k < STEP_COUNT,
        ensures
            r == Step::at(k as int),
            r.index() == k,
    {
        if k == 0 {
            Step::CreateProject
        } else if k == 1 {
            Step::OpenProject
        } else if k == 2 {
            Step::VerifyToolchain
        } else if k == 3 {
            Step::Build
        } else if k == 4 {
            Step::InstallApk
        } else if k == 5 {
            Step::LaunchApp
        } else if k == 6 {
            Step::SupportBundle
        } else {
            Step::EvidenceBundle
        }
    }

    /// The name under which the step is reported.
    pub open spec fn title(self) -> Seq<char> {
        match self {
            Step::CreateProject => "project.create"@,
            Step::OpenProject => "project.open"@,
            Step::VerifyToolchain => "toolchain.verify"@,
            Step::Build => "build.run"@,
            Step::InstallApk => "targets.install"@,
            Step::LaunchApp => "targets.launch"@,
            Step::SupportBundle => "observe.support_bundle"@,
            Step::EvidenceBundle => "observe.evidence_bundle"@,
        }
    }

    /// The name under which the step is reported.
    pub fn name(self) -> (r: &'static str)
        ensures
            r@ == self.title(),
    {
        match self {
            Step::CreateProject => "project.create",
            Step::OpenProject => "project.open",
            Step::VerifyToolchain => "toolchain.verify",
            Step::Build => "build.run",
            Step::InstallApk => "targets.install",
            Step::LaunchApp => "targets.launch",
            Step::SupportBundle => "observe.support_bundle",
            Step::EvidenceBundle => "observe.evidence_bundle",
        }
    }

    /// What the run is told when the step's service cannot be reached.
    pub open spec fn unavailable_text(self) -> Seq<char> {
        match self {
            Step::CreateProject | Step::OpenProject => "project service unavailable"@,
            Step::VerifyToolchain => "toolchain service unavailable"@,
            Step::Build => "build service unavailable"@,
            Step::InstallApk | Step::LaunchApp => "targets service unavailable"@,
            Step::SupportBundle | Step::EvidenceBundle => "observe service unavailable"@,
        }
    }

    /// What the run is told when the step's service cannot be reached.
    pub fn unavailable_message(self) -> (r: &'static str)
        ensures
            r@ == self.unavailable_text(),
    {
        match self {
            Step::CreateProject | Step::OpenProject => "project service unavailable",
            Step::VerifyToolchain => "toolchain service unavailable",
            Step::Build => "build service unavailable",
            Step::InstallApk | Step::LaunchApp => "targets service unavailable",
            Step::SupportBundle | Step::EvidenceBundle => "observe service unavailable",
        }
    }

    /// What the step needs from the request.
    pub open spec fn needs_text(self) -> Seq<char> {
        match self {
            Step::CreateProject => "project.create requires template_id and project_path"@,
            Step::OpenProject => "project.open requires project_path"@,
            Step::VerifyToolchain => "toolchain.verify requires toolchain_id"@,
            Step::Build => "build.run requires project_id or project_path"@,
            Step::InstallApk => "targets.install requires target_id and apk_path"@,
            Step::LaunchApp => "targets.launch requires target_id and application_id"@,
            Step::SupportBundle | Step::EvidenceBundle => ""@,
        }
    }

    /// What the step needs from the request.
    pub fn needs_message(self) -> (r: &'static str)
        ensures
            r@ == self.needs_text(),
    {
        match self {
            Step::CreateProject => "project.create requires template_id and project_path",
            Step::OpenProject => "project.open requires project_path",
            Step::VerifyToolchain => "toolchain.verify requires toolchain_id",
            Step::Build => "build.run requires project_id or project_path",
            Step::InstallApk => "targets.install requires target_id and apk_path",
            Step::LaunchApp => "targets.launch requires target_id and application_id",
            Step::SupportBundle | Step::EvidenceBundle => "",
        }
    }

    /// What is said of the step's job when it did not succeed.
    pub open spec fn job_failed_text(self) -> Seq<char> {
        match self {
            Step::CreateProject | Step::OpenProject => ""@,
            Step::VerifyToolchain => "verification failed"@,
            Step::Build => "build job failed"@,
            Step::InstallApk => "install job failed"@,
            Step::LaunchApp => "launch job failed"@,
            Step::SupportBundle => "support bundle failed"@,
            Step::EvidenceBundle => "evidence bundle failed"@,
        }
    }

    /// What is said of the step's job when it did not succeed.
    pub fn job_failed_message(self) -> (r: &'static str)
        ensures
            r@ == self.job_failed_text(),
    {
        match self {
            Step::CreateProject | Step::OpenProject => "",
            Step::VerifyToolchain => "verification failed",
            Step::Build => "build job failed",
            Step::InstallApk => "install job failed",
            Step::LaunchApp => "launch job failed",
            Step::SupportBundle => "support bundle failed",
            Step::EvidenceBundle => "evidence bundle failed",
        }
    }
}

/// The text of an optional identifier, trimmed; empty where there is none.
pub open spec fn clean_id(id: Option<Seq<char>>) -> Seq<char> {
    match id {
        Some(s) => trimmed(s),
        None => Seq::empty(),
    }
}

/// The text of an optional identifier, trimmed; empty where there is none.
pub fn clean_id_text(id: &Option<String>) -> (r: String)
    ensures
        r@ == clean_id(opt_text(*id)),
{
    match id {
        Some(s) => trim_owned(s.as_str()),
        None => String::new(),
    }
}

/// The name of a project, taken from the last name in its path.
pub open spec fn project_name_of(path: Seq<char>) -> Seq<char> {
    match last_name(path) {
        Some(name) => if blank(name) {
            "aadk-project"@
        } else {
            name
        },
        None => "aadk-project"@,
    }
}

/// The name of a project, taken from the last name in its path.
pub fn resolve_project_name(path: &str) -> (r: String)
    ensures
        r@ == project_name_of(path@),
{
    match file_name(path) {
        Some(name) => if is_blank(name.as_str()) {
            "aadk-project".to_owned()
        } else {
            name
        },
        None => "aadk-project".to_owned(),
    }
}

/// The variant to build: a debug build unless another is asked for.
pub open spec fn variant_to_build(variant: BuildVariant) -> BuildVariant {
    if variant == BuildVariant::Unspecified {
        BuildVariant::Debug
    } else {
        variant
    }
}

/// The variant to build: a debug build unless another is asked for.
pub fn resolve_variant(variant: BuildVariant) -> (r: BuildVariant)
    ensures
        r == variant_to_build(variant),
{
    if variant == BuildVariant::Unspecified {
        BuildVariant::Debug
    } else {
        variant
    }
}

/// Everything about a run that is settled before its first step.
#[derive(Debug)]
pub struct PipelinePlan {
    pub run_id: String,
    pub correlation_id: String,
    pub started_at: i64,
    /// The steps follow from the inputs that are there, not from explicit options.
    pub inferred: bool,
    pub steps: PipelineOptions,
    pub project_path: String,
    pub project_name: String,
    pub template_id: String,
    pub toolchain_id: String,
    pub toolchain_set_id: String,
    pub target_id: String,
    pub application_id: String,
    pub activity: String,
    pub variant: BuildVariant,
    pub module: String,
    pub variant_name: String,
    pub tasks: Vec<String>,
}

/// What a `PipelinePlan` holds, mathematically.
#[verifier::ext_equal]
pub struct PlanView {
    pub run_id: Seq<char>,
    pub correlation_id: Seq<char>,
    pub started_at: i64,
    pub inferred: bool,
    pub steps: PipelineOptions,
    pub project_path: Seq<char>,
    pub project_name: Seq<char>,
    pub template_id: Seq<char>,
    pub toolchain_id: Seq<char>,
    pub toolchain_set_id: Seq<char>,
    pub target_id: Seq<char>,
    pub application_id: Seq<char>,
    pub activity: Seq<char>,
    pub variant: BuildVariant,
    pub module: Seq<char>,
    pub variant_name: Seq<char>,
    pub tasks: Seq<Seq<char>>,
}

impl View for PipelinePlan {
    type V = PlanView;

    open spec fn view(&self) -> PlanView {
        PlanView {
            run_id: self.run_id@,
            correlation_id: self.correlation_id@,
            started_at: self.started_at,
            inferred: self.inferred,
            steps: self.steps,
            project_path: self.project_path@,
            project_name: self.project_name@,
            template_id: self.template_id@,
            toolchain_id: self.toolchain_id@,
            toolchain_set_id: self.toolchain_set_id@,
            target_id: self.target_id@,
            application_id: self.application_id@,
            activity: self.activity@,
            variant: self.variant,
            module: self.module@,
            variant_name: self.variant_name@,
            tasks: texts(self.tasks@),
        }
    }
}

/// The step is asked for.
pub open spec fn wanted(steps: PipelineOptions, step: Step) -> bool {
    match step {
        Step::CreateProject => steps.create_project,
        Step::OpenProject => steps.open_project,
        Step::VerifyToolchain => steps.verify_toolchain,
        Step::Build => steps.build,
        Step::InstallApk => steps.install_apk,
        Step::LaunchApp => steps.launch_app,
        Step::SupportBundle => steps.export_support_bundle,
        Step::EvidenceBundle => steps.export_evidence_bundle,
    }
}

/// How many of the first `k` steps are asked for.
pub open spec fn wanted_before(steps: PipelineOptions, k: int) -> nat
    decreases k,
{
    if k <= 0 {
        0
    } else {
        wanted_before(steps, k - 1) + if wanted(steps, Step::at(k - 1)) {
            1nat
        } else {
            0nat
        }
    }
}

/// How many steps are asked for, and one where none is.
pub open spec fn total_steps(steps: PipelineOptions) -> nat {
    if wanted_before(steps, STEP_COUNT as int) == 0 {
        1
    } else {
        wanted_before(steps, STEP_COUNT as int)
    }
}

/// No more steps are wanted than there are.
pub proof fn lemma_wanted_before_bound(steps: PipelineOptions, k: int)
    requires
        0 <= k,
    ensures
        wanted_before(steps, k) <= k,
    decreases k,
{
    if k > 0 {
        lemma_wanted_before_bound(steps, k - 1);
    }
}

/// Later places have no fewer wanted steps before them.
pub proof fn lemma_wanted_before_grows(steps: PipelineOptions, j: int, k: int)
    requires
        0 <= j <= k,
    ensures
        wanted_before(steps, j) <= wanted_before(steps, k),
    decreases k - j,
{
    if j < k {
        lemma_wanted_before_grows(steps, j, k - 1);
    }
}

/// Tells whether the step is asked for.
pub fn is_wanted(steps: &PipelineOptions, step: Step) -> (r: bool)
    ensures
        r == wanted(*steps, step),
{
    match step {
        Step::CreateProject => steps.create_project,
        Step::OpenProject => steps.open_project,
        Step::VerifyToolchain => steps.verify_toolchain,
        Step::Build => steps.build,
        Step::InstallApk => steps.install_apk,
        Step::LaunchApp => steps.launch_app,
        Step::SupportBundle => steps.export_support_bundle,
        Step::EvidenceBundle => steps.export_evidence_bundle,
    }
}

/// How many steps are asked for, and one where none is.
pub fn count_steps(steps: &PipelineOptions) -> (r: u32)
    ensures
        r == total_steps(*steps),
        1 <= r <= STEP_COUNT,
{
    let mut n: u32 = 0;
    for k in 0..STEP_COUNT
        invariant
            n == wanted_before(*steps, k as int),
            n <= k,
    {
        if is_wanted(steps, Step::from_place(k)) {
            n = n + 1;
        }
    }
    if n == 0 {
        1
    } else {
        n
    }
}

/// The steps that a request without options asks for: those whose inputs are there. Bundles are
/// exported on explicit demand only.
pub open spec fn inferred_steps(
    project_id: Seq<char>,
    project_path: Seq<char>,
    template_id: Seq<char>,
    toolchain_id: Seq<char>,
    apk_path: Seq<char>,
    application_id: Seq<char>,
) -> PipelineOptions {
    PipelineOptions {
        create_project: template_id.len() > 0,
        open_project: project_id.len() == 0 && project_path.len() > 0,
        verify_toolchain: toolchain_id.len() > 0,
        build: project_id.len() > 0 || project_path.len() > 0,
        install_apk: apk_path.len() > 0,
        launch_app: application_id.len() > 0,
        export_support_bundle: false,
        export_evidence_bundle: false,
    }
}

/// The plan for a request.
pub open spec fn planned(
    req: PipelineRequest,
    run_id: Seq<char>,
    correlation_id: Seq<char>,
    started_at: i64,
) -> PlanView {
    let project_path = trimmed(req.project_path@);
    let template_id = clean_id(opt_text(req.template_id));
    let toolchain_id = clean_id(opt_text(req.toolchain_id));
    let application_id = trimmed(req.application_id@);
    PlanView {
        run_id,
        correlation_id,
        started_at,
        inferred: req.options is None,
        steps: match req.options {
            Some(options) => options,
            None => inferred_steps(
                clean_id(opt_text(req.project_id)),
                project_path,
                template_id,
                toolchain_id,
                trimmed(req.apk_path@),
                application_id,
            ),
        },
        project_path,
        project_name: if !blank(req.project_name@) {
            trimmed(req.project_name@)
        } else if project_path.len() > 0 {
            project_name_of(project_path)
        } else {
            "aadk-project"@
        },
        template_id,
        toolchain_id,
        toolchain_set_id: clean_id(opt_text(req.toolchain_set_id)),
        target_id: clean_id(opt_text(req.target_id)),
        application_id,
        activity: trimmed(req.activity@),
        variant: variant_to_build(req.build_variant),
        module: req.module@,
        variant_name: req.variant_name@,
        tasks: texts(req.tasks@),
    }
}

/// The plan for a request.
pub fn plan_pipeline(req: &PipelineRequest, run_id: &str, correlation_id: &str, started_at: i64) -> (r:
    PipelinePlan)
    ensures
        r@ == planned(*req, run_id@, correlation_id@, started_at),
{
    let project_id: String = clean_id_text(&req.project_id);
    let project_path: String = trim_owned(req.project_path.as_str());
    let template_id: String = clean_id_text(&req.template_id);
    let toolchain_id: String = clean_id_text(&req.toolchain_id);
    let application_id: String = trim_owned(req.application_id.as_str());
    let given_name: &str = trim(req.project_name.as_str());
    let project_name: String = if !given_name.is_empty() {
        given_name.to_owned()
    } else if !project_path.as_str().is_empty() {
        resolve_project_name(project_path.as_str())
    } else {
        "aadk-project".to_owned()
    };
    let steps: PipelineOptions = match req.options {
        Some(options) => options,
        None => PipelineOptions {
            create_project: !template_id.as_str().is_empty(),
            open_project: project_id.as_str().is_empty() && !project_path.as_str().is_empty(),
            verify_toolchain: !toolchain_id.as_str().is_empty(),
            build: !project_id.as_str().is_empty() || !project_path.as_str().is_empty(),
            install_apk: !is_blank(req.apk_path.as_str()),
            launch_app: !application_id.as_str().is_empty(),
            export_support_bundle: false,
            export_evidence_bundle: false,
        },
    };
    let inferred: bool = match req.options {
        Some(_) => false,
        None => true,
    };
    PipelinePlan {
        run_id: run_id.to_owned(),
        correlation_id: correlation_id.to_owned(),
        started_at,
        inferred,
        steps,
        project_path,
        project_name,
        template_id,
        toolchain_id,
        toolchain_set_id: clean_id_text(&req.toolchain_set_id),
        target_id: clean_id_text(&req.target_id),
        application_id,
        activity: trim_owned(req.activity.as_str()),
        variant: resolve_variant(req.build_variant),
        module: req.module.clone(),
        variant_name: req.variant_name.clone(),
        tasks: clone_texts(&req.tasks),
    }
}

/// What is seen of a plan is what it holds, each part in its place.
pub proof fn law_plan_is_seen_whole(plan: PipelinePlan)
    ensures
        plan@.run_id == plan.run_id@,
        plan@.correlation_id == plan.correlation_id@,
        plan@.started_at == plan.started_at,
        plan@.inferred == plan.inferred,
        plan@.steps == plan.steps,
        plan@.project_path == plan.project_path@,
        plan@.project_name == plan.project_name@,
        plan@.template_id == plan.template_id@,
        plan@.toolchain_id == plan.toolchain_id@,
        plan@.toolchain_set_id == plan.toolchain_set_id@,
        plan@.target_id == plan.target_id@,
        plan@.application_id == plan.application_id@,
        plan@.activity == plan.activity@,
        plan@.variant == plan.variant,
        plan@.module == plan.module@,
        plan@.variant_name == plan.variant_name@,
        plan@.tasks == texts(plan.tasks@),
{
}

/// An id counts without the white space around it; one that is missing or blank is empty.
pub proof fn law_clean_id(id: Option<Seq<char>>)
    ensures
        id matches Some(s) ==> clean_id(id) == trimmed(s),
        id is None || blank(id->0) ==> clean_id(id).len() == 0,
        id is Some && !blank(id->0) ==> clean_id(id).len() > 0,
{
}

/// A project without a name is named after the last name of its path, if that is a name.
pub proof fn law_project_name(dir: Seq<char>, name: Seq<char>)
    requires
        name.len() > 0,
        name != "."@,
        name != ".."@,
        !name.contains('/'),
    ensures
        !blank(name) ==> project_name_of(joined_path(dir, name)) == name,
        blank(name) ==> project_name_of(joined_path(dir, name)) == "aadk-project"@,
{
    law_last_name(dir, name);
}

/// The steps are taken in this order: the project is created, then opened, the toolchain verified, the
/// project built, the APK installed, the application launched, and then the bundles exported.
pub proof fn law_order_of_steps(step: Step, k: int)
    ensures
        Step::at(step.index()) == step,
        0 <= step.index() < STEP_COUNT,
        0 <= k < STEP_COUNT ==> Step::at(k).index() == k,
        Step::CreateProject.index() < Step::OpenProject.index(),
        Step::OpenProject.index() < Step::VerifyToolchain.index(),
        Step::VerifyToolchain.index() < Step::Build.index(),
        Step::Build.index() < Step::InstallApk.index(),
        Step::InstallApk.index() < Step::LaunchApp.index(),
        Step::LaunchApp.index() < Step::SupportBundle.index(),
        Step::SupportBundle.index() < Step::EvidenceBundle.index(),
{
}

/// A step is taken exactly where its own option is set.
pub proof fn law_wanted_steps(steps: PipelineOptions)
    ensures
        wanted(steps, Step::CreateProject) == steps.create_project,
        wanted(steps, Step::OpenProject) == steps.open_project,
        wanted(steps, Step::VerifyToolchain) == steps.verify_toolchain,
        wanted(steps, Step::Build) == steps.build,
        wanted(steps, Step::InstallApk) == steps.install_apk,
        wanted(steps, Step::LaunchApp) == steps.launch_app,
        wanted(steps, Step::SupportBundle) == steps.export_support_bundle,
        wanted(steps, Step::EvidenceBundle) == steps.export_evidence_bundle,
{
}

/// One, where it is so.
pub open spec fn one_if(b: bool) -> int {
    if b {
        1
    } else {
        0
    }
}

/// Every step that is asked for counts once; where none is, one is counted all the same.
pub proof fn law_total_steps(steps: PipelineOptions)
    ensures
        ({
            let asked = one_if(steps.create_project) + one_if(steps.open_project) + one_if(steps.verify_toolchain)
                + one_if(steps.build) + one_if(steps.install_apk) + one_if(steps.launch_app)
                + one_if(steps.export_support_bundle) + one_if(steps.export_evidence_bundle);
            &&& asked > 0 ==> total_steps(steps) == asked
            &&& asked == 0 ==> total_steps(steps) == 1
        }),
{
    reveal_with_fuel(wanted_before, 9);
}

} // verus!
