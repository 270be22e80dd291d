//! Targets: listing and choosing them, virtual devices, installing and launching applications, and
//! device logs.

use crate::commands::{AppEvent, AppEventView};
use crate::config::AppConfig;
use crate::job_events::{lossy_text, text_of_bytes};
use crate::model::{id_text, or_else, text_or, to_optional_id, KeyValue};
use crate::text::{
    blank, cat3, cat5, cat7, cat9, eq_ignore_case, is_blank, lemma_texts_push, lowered, opt_text,
    text_eq, texts, to_lower, trim_owned, trimmed,
};
use crate::worker::call::{Call, CallView};
use crate::worker::jobs::{drop_blank, unless_blank};
use crate::worker::reply::Target;
use crate::worker::turn::{
    ask, call, complain, done, finish, last_words, log, logs, target_update, ui, EffectView, Next,
    NextView, Out, Turn, TurnView,
};
use vstd::prelude::*;
use vstd::string::*;

verus! {

/// A request to the target service is announced and made.
pub open spec fn ask_targets(what: Seq<char>, cfg: AppConfig, request: CallView) -> TurnView {
    call(seq![log("targets"@, what + cfg.targets_addr@ + "\n"@)], request)
}

fn begin_targets(what: &str, cfg: &AppConfig, request: Call) -> (r: Turn)
    ensures
        r@ == ask_targets(what@, *cfg, request@),
{
    let mut out: Out = Out::new();
    out.log("targets", cat3(what, cfg.targets_addr.as_str(), "\n"));
    ask(out, request)
}

/// The targets are asked for.
pub open spec fn list_targets(cfg: AppConfig) -> TurnView {
    ask_targets(
        "Connecting to TargetService at "@,
        cfg,
        CallView::ListTargets { addr: cfg.targets_addr@, include_offline: true },
    )
}

/// Asks for the targets.
pub fn begin_list_targets(cfg: &AppConfig) -> (r: Turn)
    ensures
        r@ == list_targets(*cfg),
{
    begin_targets(
        "Connecting to TargetService at ",
        cfg,
        Call::ListTargets { addr: cfg.targets_addr.clone(), include_offline: true },
    )
}

/// The id of a target; empty where it has none.
pub open spec fn target_id_text(t: Target) -> Seq<char> {
    or_else(opt_text(t.target_id), ""@)
}

/// A target's line.
pub open spec fn target_line(t: Target) -> Seq<char> {
    "- "@ + t.display_name@ + " ["@ + target_id_text(t) + "] "@ + t.state@ + " ("@ + t.provider@
        + ")\n"@
}

/// The target can be used: its id is not blank.
pub open spec fn usable(t: Target) -> bool {
    !blank(target_id_text(t))
}

/// The target can be used now.
pub open spec fn online(t: Target) -> bool {
    usable(t) && {
        let state = lowered(trimmed(t.state@));
        state == "device"@ || state == "online"@
    }
}

/// The id of the first target that can be used now.
pub open spec fn first_online(targets: Seq<Target>) -> Option<Seq<char>>
    decreases targets.len(),
{
    if targets.len() == 0 {
        None
    } else {
        match first_online(targets.drop_last()) {
            Some(id) => Some(id),
            None => if online(targets.last()) {
                Some(target_id_text(targets.last()))
            } else {
                None
            },
        }
    }
}

/// The id of the first target that can be used.
pub open spec fn first_usable(targets: Seq<Target>) -> Option<Seq<char>>
    decreases targets.len(),
{
    if targets.len() == 0 {
        None
    } else {
        match first_usable(targets.drop_last()) {
            Some(id) => Some(id),
            None => if usable(targets.last()) {
                Some(target_id_text(targets.last()))
            } else {
                None
            },
        }
    }
}

/// The target that is worked with is among the targets.
pub open spec fn has_target(targets: Seq<Target>, active: Seq<char>) -> bool {
    exists|i: int|
        0 <= i < targets.len() && lowered(#[trigger] target_id_text(targets[i])) == lowered(active)
}

/// The target that is taken up: none where the one that is worked with is there; otherwise the
/// first that can be used now, or else the first that can be used.
pub open spec fn target_taken(targets: Seq<Target>, active: Seq<char>) -> Option<Seq<char>> {
    let a = trimmed(active);
    if a.len() != 0 && has_target(targets, a) {
        None
    } else {
        match first_online(targets) {
            Some(id) => Some(id),
            None => first_usable(targets),
        }
    }
}

/// A target that is taken up is one of the targets, has an id that is not blank, and can be used
/// now where any can; one is taken up unless the one that is worked with is there or none can be
/// used.
pub proof fn law_target_taken(targets: Seq<Target>, active: Seq<char>)
    ensures
        match target_taken(targets, active) {
            Some(id) => {
                &&& exists|i: int|
                    0 <= i < targets.len() && #[trigger] usable(targets[i]) && target_id_text(
                        targets[i],
                    ) == id && (online(targets[i]) || forall|j: int|
                        0 <= j < targets.len() ==> !#[trigger] online(targets[j]))
                &&& trimmed(active).len() == 0 || !has_target(targets, trimmed(active))
            },
            None => {
                ||| trimmed(active).len() != 0 && has_target(targets, trimmed(active))
                ||| forall|j: int| 0 <= j < targets.len() ==> !#[trigger] usable(targets[j])
            },
        },
{
    lemma_first_online(targets);
    lemma_first_usable(targets);
}

proof fn lemma_first_online(targets: Seq<Target>)
    ensures
        match first_online(targets) {
            Some(id) => exists|i: int|
                0 <= i < targets.len() && #[trigger] usable(targets[i]) && online(targets[i])
                    && target_id_text(targets[i]) == id,
            None => forall|j: int| 0 <= j < targets.len() ==> !#[trigger] online(targets[j]),
        },
    decreases targets.len(),
{
    if targets.len() > 0 {
        let rest = targets.drop_last();
        lemma_first_online(rest);
        match first_online(rest) {
            Some(id) => {
                let i = choose|i: int|
                    0 <= i < rest.len() && #[trigger] usable(rest[i]) && online(rest[i])
                        && target_id_text(rest[i]) == id;
                assert(targets[i] == rest[i]);
                assert(usable(targets[i]));
            },
            None => {
                assert(usable(targets[targets.len() - 1]) || !usable(targets[targets.len() - 1]));
                assert forall|j: int| 0 <= j < targets.len() - 1 implies !#[trigger] online(
                    targets[j],
                ) by {
                    assert(!online(rest[j]));
                }
            },
        }
    }
}

proof fn lemma_first_usable(targets: Seq<Target>)
    ensures
        match first_usable(targets) {
            Some(id) => exists|i: int|
                0 <= i < targets.len() && #[trigger] usable(targets[i]) && target_id_text(
                    targets[i],
                ) == id,
            None => forall|j: int| 0 <= j < targets.len() ==> !#[trigger] usable(targets[j]),
        },
    decreases targets.len(),
{
    if targets.len() > 0 {
        let rest = targets.drop_last();
        lemma_first_usable(rest);
        match first_usable(rest) {
            Some(id) => {
                let i = choose|i: int|
                    0 <= i < rest.len() && #[trigger] usable(rest[i]) && target_id_text(rest[i])
                        == id;
                assert(targets[i] == rest[i]);
                assert(usable(targets[i]));
            },
            None => {
                assert(usable(targets[targets.len() - 1]) || !usable(targets[targets.len() - 1]));
                assert forall|j: int| 0 <= j < targets.len() - 1 implies !#[trigger] usable(
                    targets[j],
                ) by {
                    assert(!usable(rest[j]));
                }
            },
        }
    }
}

/// Tells which target is taken up.
pub fn take_target(targets: &Vec<Target>, active: &str) -> (r: Option<String>)
    ensures
        opt_text(r) == target_taken(targets@, active@),
{
    let a: String = trim_owned(active);
    let mut has_active: bool = false;
    let mut preferred: Option<String> = None;
    let mut fallback: Option<String> = None;
    for i in 0..targets.len()
        invariant
            a@ == trimmed(active@),
            has_active == (a@.len() != 0 && has_target(targets@.take(i as int), a@)),
            opt_text(preferred) == first_online(targets@.take(i as int)),
            opt_text(fallback) == first_usable(targets@.take(i as int)),
    {
        let ghost now = targets@.take(i + 1);
        let ghost before = targets@.take(i as int);
        assert(now.drop_last() =~= before);
        assert(now.last() == targets@[i as int]);
        let t: &Target = &targets[i];
        let id: &str = text_or(&t.target_id, "");
        let same: bool = !a.as_str().is_empty() && eq_ignore_case(id, a.as_str());
        proof {
            if has_target(before, a@) {
                let k = choose|k: int|
                    0 <= k < before.len() && lowered(#[trigger] target_id_text(before[k]))
                        == lowered(a@);
                assert(now[k] == before[k]);
                assert(lowered(target_id_text(now[k])) == lowered(a@));
            }
            if lowered(id@) == lowered(a@) {
                assert(lowered(target_id_text(now[i as int])) == lowered(a@));
            }
            if has_target(now, a@) {
                let k = choose|k: int|
                    0 <= k < now.len() && lowered(#[trigger] target_id_text(now[k])) == lowered(
                        a@,
                    );
                if k < i {
                    assert(before[k] == now[k]);
                    assert(lowered(target_id_text(before[k])) == lowered(a@));
                }
            }
        }
        if same {
            has_active = true;
        }
        if !is_blank(id) {
            if fallback.is_none() {
                fallback = Some(id.to_owned());
            }
            let trimmed_state: String = trim_owned(t.state.as_str());
            let state: String = to_lower(trimmed_state.as_str());
            if preferred.is_none() && (text_eq(state.as_str(), "device") || text_eq(
                state.as_str(),
                "online",
            )) {
                preferred = Some(id.to_owned());
            }
        }
    }
    assert(targets@.take(targets@.len() as int) =~= targets@);
    if a.as_str().is_empty() || !has_active {
        match preferred {
            Some(id) => Some(id),
            None => fallback,
        }
    } else {
        None
    }
}

/// The targets, in words, and the one that is taken for the active one, where there is one.
pub open spec fn targets_listed(cfg: AppConfig, targets: Seq<Target>) -> TurnView {
    let shown = seq![log("targets"@, "Targets:\n"@)] + logs(
        "targets"@,
        Seq::new(targets.len(), |i: int| target_line(targets[i])),
    );
    done(
        match target_taken(targets, cfg.active_target_id@) {
            Some(id) => shown.push(target_update(id)),
            None => shown,
        },
    )
}

/// Shows the targets and takes one for the active one.
pub fn end_list_targets(cfg: &AppConfig, targets: &Vec<Target>) -> (r: Turn)
    ensures
        r@ == targets_listed(*cfg, targets@),
{
    broadcast use lemma_texts_push;

    let ghost all = Seq::new(targets@.len(), |i: int| target_line(targets@[i]));
    let mut lines: Vec<String> = Vec::new();
    assert(texts(lines@) =~= all.take(0));
    for i in 0..targets.len()
        invariant
            all == Seq::new(targets@.len(), |i: int| target_line(targets@[i])),
            texts(lines@) == all.take(i as int),
    {
        let t: &Target = &targets[i];
        lines.push(
            cat9(
                "- ",
                t.display_name.as_str(),
                " [",
                text_or(&t.target_id, ""),
                "] ",
                t.state.as_str(),
                " (",
                t.provider.as_str(),
                ")\n",
            ),
        );
        assert(all.take(i + 1) =~= all.take(i as int).push(all[i as int]));
    }
    assert(all.take(targets@.len() as int) =~= all);
    let mut out: Out = Out::new();
    out.say("targets", "Targets:\n");
    out.log_all("targets", lines);
    match take_target(targets, cfg.active_target_id.as_str()) {
        Some(id) => {
            out.target_update(id);
        },
        None => {},
    }
    finish(out)
}

/// A target is to be the default.
pub open spec fn set_default(cfg: AppConfig, target_id: Seq<char>) -> TurnView {
    if trimmed(target_id).len() == 0 {
        done(seq![log("targets"@, "Set default target requires a target id.\n"@)])
    } else {
        ask_targets(
            "Setting default target via "@,
            cfg,
            CallView::SetDefaultTarget { addr: cfg.targets_addr@, target_id: trimmed(target_id) },
        )
    }
}

/// Asks for a target to be the default.
pub fn begin_set_default(cfg: &AppConfig, target_id: &str) -> (r: Turn)
    ensures
        r@ == set_default(*cfg, target_id@),
{
    let t: String = trim_owned(target_id);
    if t.as_str().is_empty() {
        return last_words("targets", "Set default target requires a target id.\n");
    }
    begin_targets(
        "Setting default target via ",
        cfg,
        Call::SetDefaultTarget { addr: cfg.targets_addr.clone(), target_id: t },
    )
}

/// Whether a target is the default now, in words.
pub open spec fn default_set(target_id: Seq<char>, ok: bool) -> TurnView {
    let t = trimmed(target_id);
    if ok {
        done(
            seq![
                log("targets"@, "Default target set to "@ + t + "\n"@),
                target_update(t),
            ],
        )
    } else {
        done(seq![log("targets"@, "Failed to set default target to "@ + t + "\n"@)])
    }
}

/// Tells whether a target is the default now.
pub fn end_set_default(target_id: &str, ok: bool) -> (r: Turn)
    ensures
        r@ == default_set(target_id@, ok),
{
    let t: String = trim_owned(target_id);
    let mut out: Out = Out::new();
    if ok {
        out.log("targets", cat3("Default target set to ", t.as_str(), "\n"));
        out.target_update(t);
    } else {
        out.log("targets", cat3("Failed to set default target to ", t.as_str(), "\n"));
    }
    finish(out)
}

/// The default target is asked for.
pub open spec fn get_default(cfg: AppConfig) -> TurnView {
    ask_targets(
        "Fetching default target via "@,
        cfg,
        CallView::GetDefaultTarget { addr: cfg.targets_addr@ },
    )
}

/// Asks for the default target.
pub fn begin_get_default(cfg: &AppConfig) -> (r: Turn)
    ensures
        r@ == get_default(*cfg),
{
    begin_targets(
        "Fetching default target via ",
        cfg,
        Call::GetDefaultTarget { addr: cfg.targets_addr.clone() },
    )
}

/// The default target, in words.
pub open spec fn default_found(target: Option<Target>) -> TurnView {
    match target {
        Some(t) => {
            let id = target_id_text(t);
            let told = seq![
                log(
                    "targets"@,
                    "Default target: "@ + t.display_name@ + " ("@ + id + ") ["@ + t.state@
                        + "]\n"@,
                ),
            ];
            done(
                if blank(id) {
                    told
                } else {
                    told.push(target_update(id))
                },
            )
        },
        None => done(seq![log("targets"@, "No default target configured.\n"@)]),
    }
}

/// Shows the default target.
pub fn end_get_default(target: &Option<Target>) -> (r: Turn)
    ensures
        r@ == default_found(*target),
{
    match target {
        Some(t) => {
            let id: &str = text_or(&t.target_id, "");
            let mut out: Out = Out::new();
            out.log(
                "targets",
                cat7(
                    "Default target: ",
                    t.display_name.as_str(),
                    " (",
                    id,
                    ") [",
                    t.state.as_str(),
                    "]\n",
                ),
            );
            if !is_blank(id) {
                out.target_update(id.to_owned());
            }
            finish(out)
        },
        None => last_words("targets", "No default target configured.\n"),
    }
}

/// Cuttlefish is to be installed.
pub open spec fn install_cuttlefish(
    cfg: AppConfig,
    force: bool,
    branch: Seq<char>,
    target: Seq<char>,
    build_id: Seq<char>,
    job_id: Option<Seq<char>>,
    correlation_id: Seq<char>,
) -> TurnView {
    ask_targets(
        "Connecting to TargetService at "@,
        cfg,
        CallView::InstallCuttlefish {
            addr: cfg.targets_addr@,
            force,
            branch: trimmed(branch),
            target: trimmed(target),
            build_id: trimmed(build_id),
            job_id: unless_blank(job_id),
            correlation_id: trimmed(correlation_id),
            run_id: id_text(correlation_id),
        },
    )
}

/// Asks for Cuttlefish to be installed.
pub fn begin_install_cuttlefish(
    cfg: &AppConfig,
    force: bool,
    branch: &str,
    target: &str,
    build_id: &str,
    job_id: &Option<String>,
    correlation_id: &str,
) -> (r: Turn)
    ensures
        r@ == install_cuttlefish(
            *cfg,
            force,
            branch@,
            target@,
            build_id@,
            opt_text(*job_id),
            correlation_id@,
        ),
{
    begin_targets(
        "Connecting to TargetService at ",
        cfg,
        Call::InstallCuttlefish {
            addr: cfg.targets_addr.clone(),
            force,
            branch: trim_owned(branch),
            target: trim_owned(target),
            build_id: trim_owned(build_id),
            job_id: drop_blank(job_id),
            correlation_id: trim_owned(correlation_id),
            run_id: to_optional_id(correlation_id),
        },
    )
}

/// It is asked which Cuttlefish build a branch and a target stand for.
pub open spec fn resolve_build(
    cfg: AppConfig,
    branch: Seq<char>,
    target: Seq<char>,
    build_id: Seq<char>,
) -> TurnView {
    ask_targets(
        "Resolving Cuttlefish build via "@,
        cfg,
        CallView::ResolveCuttlefishBuild {
            addr: cfg.targets_addr@,
            branch: trimmed(branch),
            target: trimmed(target),
            build_id: trimmed(build_id),
        },
    )
}

/// Asks which Cuttlefish build a branch and a target stand for.
pub fn begin_resolve_build(cfg: &AppConfig, branch: &str, target: &str, build_id: &str) -> (r: Turn)
    ensures
        r@ == resolve_build(*cfg, branch@, target@, build_id@),
{
    begin_targets(
        "Resolving Cuttlefish build via ",
        cfg,
        Call::ResolveCuttlefishBuild {
            addr: cfg.targets_addr.clone(),
            branch: trim_owned(branch),
            target: trim_owned(target),
            build_id: trim_owned(build_id),
        },
    )
}

/// The Cuttlefish build that was found.
pub open spec fn build_resolved(
    build_id: Seq<char>,
    product: Seq<char>,
    branch: Seq<char>,
    target: Seq<char>,
) -> TurnView {
    done(
        seq![
            log(
                "targets"@,
                "Resolved build_id="@ + build_id + " product="@ + product + " (branch="@ + branch
                    + ", target="@ + target + ")\n"@,
            ),
            ui(AppEventView::SetCuttlefishBuildId { build_id }),
        ],
    )
}

/// Shows the Cuttlefish build that was found.
pub fn end_resolve_build(build_id: &str, product: &str, branch: &str, target: &str) -> (r: Turn)
    ensures
        r@ == build_resolved(build_id@, product@, branch@, target@),
{
    let mut out: Out = Out::new();
    out.log(
        "targets",
        cat9(
            "Resolved build_id=",
            build_id,
            " product=",
            product,
            " (branch=",
            branch,
            ", target=",
            target,
            ")\n",
        ),
    );
    out.ui(AppEvent::SetCuttlefishBuildId { build_id: build_id.to_owned() });
    finish(out)
}

/// Cuttlefish is to be started.
pub open spec fn start_cuttlefish(
    cfg: AppConfig,
    show_full_ui: bool,
    job_id: Option<Seq<char>>,
    correlation_id: Seq<char>,
) -> TurnView {
    ask_targets(
        "Connecting to TargetService at "@,
        cfg,
        CallView::StartCuttlefish {
            addr: cfg.targets_addr@,
            show_full_ui,
            job_id: unless_blank(job_id),
            correlation_id: trimmed(correlation_id),
            run_id: id_text(correlation_id),
        },
    )
}

/// Asks for Cuttlefish to be started.
pub fn begin_start_cuttlefish(
    cfg: &AppConfig,
    show_full_ui: bool,
    job_id: &Option<String>,
    correlation_id: &str,
) -> (r: Turn)
    ensures
        r@ == start_cuttlefish(*cfg, show_full_ui, opt_text(*job_id), correlation_id@),
{
    begin_targets(
        "Connecting to TargetService at ",
        cfg,
        Call::StartCuttlefish {
            addr: cfg.targets_addr.clone(),
            show_full_ui,
            job_id: drop_blank(job_id),
            correlation_id: trim_owned(correlation_id),
            run_id: to_optional_id(correlation_id),
        },
    )
}

/// Cuttlefish is to be stopped.
pub open spec fn stop_cuttlefish(
    cfg: AppConfig,
    job_id: Option<Seq<char>>,
    correlation_id: Seq<char>,
) -> TurnView {
    ask_targets(
        "Connecting to TargetService at "@,
        cfg,
        CallView::StopCuttlefish {
            addr: cfg.targets_addr@,
            job_id: unless_blank(job_id),
            correlation_id: trimmed(correlation_id),
            run_id: id_text(correlation_id),
        },
    )
}

/// Asks for Cuttlefish to be stopped.
pub fn begin_stop_cuttlefish(cfg: &AppConfig, job_id: &Option<String>, correlation_id: &str) -> (r:
    Turn)
    ensures
        r@ == stop_cuttlefish(*cfg, opt_text(*job_id), correlation_id@),
{
    begin_targets(
        "Connecting to TargetService at ",
        cfg,
        Call::StopCuttlefish {
            addr: cfg.targets_addr.clone(),
            job_id: drop_blank(job_id),
            correlation_id: trim_owned(correlation_id),
            run_id: to_optional_id(correlation_id),
        },
    )
}

/// It is asked how Cuttlefish is.
pub open spec fn cuttlefish_status(cfg: AppConfig) -> TurnView {
    ask_targets(
        "Connecting to TargetService at "@,
        cfg,
        CallView::GetCuttlefishStatus { addr: cfg.targets_addr@ },
    )
}

/// Asks how Cuttlefish is.
pub fn begin_cuttlefish_status(cfg: &AppConfig) -> (r: Turn)
    ensures
        r@ == cuttlefish_status(*cfg),
{
    begin_targets(
        "Connecting to TargetService at ",
        cfg,
        Call::GetCuttlefishStatus { addr: cfg.targets_addr.clone() },
    )
}

/// How Cuttlefish is, in words.
pub open spec fn cuttlefish_told(
    state: Seq<char>,
    adb_serial: Seq<char>,
    details: Seq<KeyValue>,
) -> TurnView {
    done(
        seq![
            log("targets"@, "Cuttlefish state: "@ + state + " (adb="@ + adb_serial + ")\n"@),
        ] + logs(
            "targets"@,
            Seq::new(
                details.len(),
                |i: int| "- "@ + details[i].key@ + ": "@ + details[i].value@ + "\n"@,
            ),
        ),
    )
}

/// Tells how Cuttlefish is.
pub fn end_cuttlefish_status(state: &str, adb_serial: &str, details: &Vec<KeyValue>) -> (r: Turn)
    ensures
        r@ == cuttlefish_told(state@, adb_serial@, details@),
{
    broadcast use lemma_texts_push;

    let ghost all = Seq::new(
        details@.len(),
        |i: int| "- "@ + details@[i].key@ + ": "@ + details@[i].value@ + "\n"@,
    );
    let mut lines: Vec<String> = Vec::new();
    assert(texts(lines@) =~= all.take(0));
    for i in 0..details.len()
        invariant
            all == Seq::new(
                details@.len(),
                |i: int| "- "@ + details@[i].key@ + ": "@ + details@[i].value@ + "\n"@,
            ),
            texts(lines@) == all.take(i as int),
    {
        lines.push(
            cat5("- ", details[i].key.as_str(), ": ", details[i].value.as_str(), "\n"),
        );
        assert(all.take(i + 1) =~= all.take(i as int).push(all[i as int]));
    }
    assert(all.take(details@.len() as int) =~= all);
    let mut out: Out = Out::new();
    out.log("targets", cat5("Cuttlefish state: ", state, " (adb=", adb_serial, ")\n"));
    out.log_all("targets", lines);
    finish(out)
}

/// An APK is to be installed on a target.
pub open spec fn install_apk(
    cfg: AppConfig,
    target_id: Seq<char>,
    apk_path: Seq<char>,
    job_id: Option<Seq<char>>,
    correlation_id: Seq<char>,
) -> TurnView {
    if trimmed(target_id).len() == 0 {
        done(seq![log("targets"@, "Install APK requires a target id.\n"@)])
    } else if trimmed(apk_path).len() == 0 {
        done(seq![log("targets"@, "Install APK requires an apk path.\n"@)])
    } else {
        ask_targets(
            "Connecting to TargetService at "@,
            cfg,
            CallView::InstallApk {
                addr: cfg.targets_addr@,
                target_id: trimmed(target_id),
                apk_path: trimmed(apk_path),
                job_id: unless_blank(job_id),
                correlation_id: trimmed(correlation_id),
                run_id: id_text(correlation_id),
            },
        )
    }
}

/// Asks for an APK to be installed on a target.
pub fn begin_install_apk(
    cfg: &AppConfig,
    target_id: &str,
    apk_path: &str,
    job_id: &Option<String>,
    correlation_id: &str,
) -> (r: Turn)
    ensures
        r@ == install_apk(*cfg, target_id@, apk_path@, opt_text(*job_id), correlation_id@),
{
    let t: String = trim_owned(target_id);
    let p: String = trim_owned(apk_path);
    if t.as_str().is_empty() {
        return last_words("targets", "Install APK requires a target id.\n");
    }
    if p.as_str().is_empty() {
        return last_words("targets", "Install APK requires an apk path.\n");
    }
    begin_targets(
        "Connecting to TargetService at ",
        cfg,
        Call::InstallApk {
            addr: cfg.targets_addr.clone(),
            target_id: t,
            apk_path: p,
            job_id: drop_blank(job_id),
            correlation_id: trim_owned(correlation_id),
            run_id: to_optional_id(correlation_id),
        },
    )
}

/// The launch is asked for, behind `before`.
pub open spec fn launch_named(
    cfg: AppConfig,
    target_id: Seq<char>,
    application_id: Seq<char>,
    activity: Seq<char>,
    job_id: Option<Seq<char>>,
    correlation_id: Seq<char>,
    before: Seq<EffectView>,
) -> TurnView {
    if application_id.len() == 0 {
        done(
            before.push(
                log(
                    "targets"@,
                    "Launch requires an application id (provide one or select an APK from a project).\n"@,
                ),
            ),
        )
    } else {
        call(
            before.push(
                log("targets"@, "Connecting to TargetService at "@ + cfg.targets_addr@ + "\n"@),
            ),
            CallView::Launch {
                addr: cfg.targets_addr@,
                target_id: trimmed(target_id),
                application_id,
                activity: trimmed(activity),
                job_id: unless_blank(job_id),
                correlation_id: trimmed(correlation_id),
                run_id: id_text(correlation_id),
            },
        )
    }
}

fn launch_with(
    cfg: &AppConfig,
    target_id: &str,
    application_id: String,
    activity: &str,
    job_id: &Option<String>,
    correlation_id: &str,
    mut out: Out,
) -> (r: Turn)
    ensures
        r@ == launch_named(
            *cfg,
            target_id@,
            application_id@,
            activity@,
            opt_text(*job_id),
            correlation_id@,
            out@,
        ),
{
    if application_id.as_str().is_empty() {
        out.say(
            "targets",
            "Launch requires an application id (provide one or select an APK from a project).\n",
        );
        return finish(out);
    }
    out.log("targets", cat3("Connecting to TargetService at ", cfg.targets_addr.as_str(), "\n"));
    ask(
        out,
        Call::Launch {
            addr: cfg.targets_addr.clone(),
            target_id: trim_owned(target_id),
            application_id,
            activity: trim_owned(activity),
            job_id: drop_blank(job_id),
            correlation_id: trim_owned(correlation_id),
            run_id: to_optional_id(correlation_id),
        },
    )
}

/// An application is to be launched: its id is given, or it is looked for.
pub open spec fn launch(
    cfg: AppConfig,
    target_id: Seq<char>,
    apk_path: Seq<char>,
    application_id: Seq<char>,
    activity: Seq<char>,
    job_id: Option<Seq<char>>,
    correlation_id: Seq<char>,
) -> TurnView {
    if trimmed(target_id).len() == 0 {
        done(seq![log("targets"@, "Launch requires a target id.\n"@)])
    } else if trimmed(application_id).len() == 0 {
        call(Seq::empty(), CallView::InferApplicationId { apk_path: trimmed(apk_path) })
    } else {
        launch_named(
            cfg,
            target_id,
            trimmed(application_id),
            activity,
            job_id,
            correlation_id,
            Seq::empty(),
        )
    }
}

/// Asks for an app to be launched, or first for its id.
pub fn begin_launch(
    cfg: &AppConfig,
    target_id: &str,
    apk_path: &str,
    application_id: &str,
    activity: &str,
    job_id: &Option<String>,
    correlation_id: &str,
) -> (r: Turn)
    ensures
        r@ == launch(
            *cfg,
            target_id@,
            apk_path@,
            application_id@,
            activity@,
            opt_text(*job_id),
            correlation_id@,
        ),
{
    if is_blank(target_id) {
        return last_words("targets", "Launch requires a target id.\n");
    }
    let app: String = trim_owned(application_id);
    if app.as_str().is_empty() {
        return ask(Out::new(), Call::InferApplicationId { apk_path: trim_owned(apk_path) });
    }
    launch_with(cfg, target_id, app, activity, job_id, correlation_id, Out::new())
}

/// The application id was looked for.
pub open spec fn launch_inferred(
    cfg: AppConfig,
    target_id: Seq<char>,
    inferred: Option<Seq<char>>,
    activity: Seq<char>,
    job_id: Option<Seq<char>>,
    correlation_id: Seq<char>,
) -> TurnView {
    match inferred {
        Some(app) => launch_named(
            cfg,
            target_id,
            app,
            activity,
            job_id,
            correlation_id,
            seq![log("targets"@, "Inferred application id from APK: "@ + app + "\n"@)],
        ),
        None => launch_named(
            cfg,
            target_id,
            Seq::empty(),
            activity,
            job_id,
            correlation_id,
            Seq::empty(),
        ),
    }
}

/// Launches an app once it was tried to find its id.
pub fn launch_on_inferred(
    cfg: &AppConfig,
    target_id: &str,
    inferred: Option<String>,
    activity: &str,
    job_id: &Option<String>,
    correlation_id: &str,
) -> (r: Turn)
    ensures
        r@ == launch_inferred(
            *cfg,
            target_id@,
            opt_text(inferred),
            activity@,
            opt_text(*job_id),
            correlation_id@,
        ),
{
    let mut out: Out = Out::new();
    match inferred {
        Some(app) => {
            out.log("targets", cat3("Inferred application id from APK: ", app.as_str(), "\n"));
            launch_with(cfg, target_id, app, activity, job_id, correlation_id, out)
        },
        None => {
            let none: String = String::new();
            assert(none@ =~= Seq::empty());
            launch_with(cfg, target_id, none, activity, job_id, correlation_id, out)
        },
    }
}

/// The log of a target is asked for.
pub open spec fn stream_logcat(cfg: AppConfig, target_id: Seq<char>, filter: Seq<char>) -> TurnView {
    ask_targets(
        "Streaming logcat from "@ + target_id + " via "@,
        cfg,
        CallView::StreamLogcat {
            addr: cfg.targets_addr@,
            target_id,
            filter,
            include_history: true,
        },
    )
}

/// Asks for the log of a target.
pub fn begin_stream_logcat(cfg: &AppConfig, target_id: &str, filter: &str) -> (r: Turn)
    ensures
        r@ == stream_logcat(*cfg, target_id@, filter@),
{
    let what: String = cat3("Streaming logcat from ", target_id, " via ");
    begin_targets(
        what.as_str(),
        cfg,
        Call::StreamLogcat {
            addr: cfg.targets_addr.clone(),
            target_id: target_id.to_owned(),
            filter: filter.to_owned(),
            include_history: true,
        },
    )
}

/// A line of the device's log is shown as it is, and the next one is waited for.
pub open spec fn logcat_said(line: Seq<char>) -> TurnView {
    TurnView { effects: seq![log("targets"@, line)], next: NextView::Await }
}

/// A line of the device's log is shown as it is, and the next one is waited for.
pub fn show_logcat(line: String) -> (r: Turn)
    ensures
        r@ == logcat_said(line@),
{
    let mut out: Out = Out::new();
    out.log("targets", line);
    Turn { out, next: Next::Await }
}

/// A line of the device's log came, as bytes.
pub fn logcat_on_bytes(bytes: &Vec<u8>) -> (r: Turn)
    ensures
        r@ == logcat_said(lossy_text(bytes@)),
{
    show_logcat(text_of_bytes(bytes))
}

/// The device's log broke off.
pub open spec fn logcat_broken(err: Seq<char>) -> TurnView {
    done(seq![log("targets"@, "logcat stream error: "@ + err + "\n"@)])
}

/// Tells that the log of a target broke off.
pub fn logcat_on_break(err: &str) -> (r: Turn)
    ensures
        r@ == logcat_broken(err@),
{
    complain("targets", "logcat stream error: ", err)
}

} // verus!
