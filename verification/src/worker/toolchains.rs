//! Toolchains: listing, installing, updating, removing and verifying them, and sets of them.

use crate::commands::{AppEvent, AppEventView};
use crate::config::AppConfig;
use crate::job_events::{error_spelled, error_text, JobError};
use crate::model::{
    id_text, millis_or_zero, or_else, or_empty, or_zero, text_or, text_or_empty, to_optional_id,
    ToolchainKind,
};
use crate::text::{
    blank, bool_spelled, bool_text, cat3, cat4, cat5, cat7, cat9, dec_int, dec_nat, i32_text,
    is_blank, lemma_texts_push, opt_text, texts, trim, trim_owned, trimmed, u64_text,
};
use crate::worker::call::{Call, CallView};
use crate::worker::jobs::{drop_blank, token_line, unless_blank};
use crate::worker::reply::{AvailableToolchain, InstalledToolchain, Provider, ToolchainSet};
use crate::worker::turn::{
    ask, call, done, finish, job_stream, last_words, log, logs, set_update, ui, EffectView, Out,
    Turn, TurnView,
};
use vstd::prelude::*;
use vstd::string::*;

verus! {

/// A request to the toolchain service is announced and made.
pub open spec fn ask_toolchains(what: Seq<char>, cfg: AppConfig, request: CallView) -> TurnView {
    call(seq![log("toolchains"@, what + cfg.toolchain_addr@ + "\n"@)], request)
}

fn begin_toolchains(what: &str, cfg: &AppConfig, request: Call) -> (r: Turn)
    ensures
        r@ == ask_toolchains(what@, *cfg, request@),
{
    let mut out: Out = Out::new();
    out.log("toolchains", cat3(what, cfg.toolchain_addr.as_str(), "\n"));
    ask(out, request)
}

/// The providers of toolchains are asked for.
pub open spec fn list_providers(cfg: AppConfig) -> TurnView {
    ask_toolchains(
        "Connecting to ToolchainService at "@,
        cfg,
        CallView::ListProviders { addr: cfg.toolchain_addr@ },
    )
}

/// Asks for the providers of toolchains.
pub fn begin_list_providers(cfg: &AppConfig) -> (r: Turn)
    ensures
        r@ == list_providers(*cfg),
{
    begin_toolchains(
        "Connecting to ToolchainService at ",
        cfg,
        Call::ListProviders { addr: cfg.toolchain_addr.clone() },
    )
}

/// A provider's line.
pub open spec fn provider_line(p: Provider) -> Seq<char> {
    "- "@ + p.name@ + " (kind="@ + dec_int(p.kind_code as int) + ")\n"@
}

/// The providers of toolchains, in words.
pub open spec fn providers_listed(providers: Seq<Provider>) -> TurnView {
    done(
        seq![log("toolchains"@, "Providers:\n"@)] + logs(
            "toolchains"@,
            Seq::new(providers.len(), |i: int| provider_line(providers[i])),
        ),
    )
}

/// Shows the providers of toolchains.
pub fn end_list_providers(providers: &Vec<Provider>) -> (r: Turn)
    ensures
        r@ == providers_listed(providers@),
{
    broadcast use lemma_texts_push;

    let mut out: Out = Out::new();
    out.say("toolchains", "Providers:\n");
    let ghost all = Seq::new(providers@.len(), |i: int| provider_line(providers@[i]));
    let mut lines: Vec<String> = Vec::new();
    assert(texts(lines@) =~= all.take(0));
    for i in 0..providers.len()
        invariant
            all == Seq::new(providers@.len(), |i: int| provider_line(providers@[i])),
            texts(lines@) == all.take(i as int),
    {
        let p: &Provider = &providers[i];
        lines.push(
            cat5("- ", p.name.as_str(), " (kind=", i32_text(p.kind_code).as_str(), ")\n"),
        );
        assert(all.take(i + 1) =~= all.take(i as int).push(all[i as int]));
    }
    assert(all.take(providers@.len() as int) =~= all);
    out.log_all("toolchains", lines);
    finish(out)
}

/// The toolchains that a provider has are asked for.
pub open spec fn list_available(cfg: AppConfig, provider_id: Seq<char>) -> TurnView {
    ask_toolchains(
        "Listing available for "@ + provider_id + " via "@,
        cfg,
        CallView::ListAvailable { addr: cfg.toolchain_addr@, provider_id },
    )
}

/// Asks for the toolchains that a provider has.
pub fn begin_list_available(cfg: &AppConfig, provider_id: &str) -> (r: Turn)
    ensures
        r@ == list_available(*cfg, provider_id@),
{
    let what: String = cat3("Listing available for ", provider_id, " via ");
    begin_toolchains(
        what.as_str(),
        cfg,
        Call::ListAvailable {
            addr: cfg.toolchain_addr.clone(),
            provider_id: provider_id.to_owned(),
        },
    )
}

/// The name of a provider, where there is one.
pub open spec fn provider_name(p: Option<Provider>) -> Option<Seq<char>> {
    match p {
        Some(p) => Some(p.name@),
        None => None,
    }
}

fn name_of<'a>(p: &'a Option<Provider>) -> (r: &'a str)
    ensures
        r@ == or_else(provider_name(*p), "unknown"@),
{
    match p {
        Some(p) => p.name.as_str(),
        None => "unknown",
    }
}

/// A toolchain that can be installed, in a few lines.
pub open spec fn available_lines(t: AvailableToolchain) -> Seq<char> {
    let (url, sha, size) = match t.artifact {
        Some(a) => (a.url@, a.sha256@, a.size_bytes as nat),
        None => (""@, ""@, 0nat),
    };
    "- "@ + or_else(provider_name(t.provider), "unknown"@) + " "@ + or_else(
        opt_text(t.version),
        "unknown"@,
    ) + "\n  url="@ + url + "\n  sha256="@ + sha + "\n  size_bytes="@ + dec_nat(size) + "\n"@
}

fn available_text(t: &AvailableToolchain) -> (r: String)
    ensures
        r@ == available_lines(*t),
{
    let mut s: String = cat5(
        "- ",
        name_of(&t.provider),
        " ",
        text_or(&t.version, "unknown"),
        "\n  url=",
    );
    match &t.artifact {
        Some(a) => {
            s.append(a.url.as_str());
            s.append("\n  sha256=");
            s.append(a.sha256.as_str());
            s.append("\n  size_bytes=");
            s.append(u64_text(a.size_bytes).as_str());
        },
        None => {
            s.append("");
            s.append("\n  sha256=");
            s.append("");
            s.append("\n  size_bytes=");
            s.append(u64_text(0).as_str());
        },
    }
    s.append("\n");
    s
}

/// The versions that toolchains name, in order.
pub open spec fn versions_of(items: Seq<AvailableToolchain>) -> Seq<Seq<char>>
    decreases items.len(),
{
    if items.len() == 0 {
        Seq::empty()
    } else {
        let before = versions_of(items.drop_last());
        match items.last().version {
            Some(v) => before.push(v@),
            None => before,
        }
    }
}

/// The toolchains that a provider has, shown and in words.
pub open spec fn available_listed(provider_id: Seq<char>, items: Seq<AvailableToolchain>) -> TurnView {
    let head = seq![
        ui(AppEventView::ToolchainAvailable { provider_id, versions: versions_of(items) }),
    ];
    if items.len() == 0 {
        done(head.push(log("toolchains"@, "No available toolchains.\n"@)))
    } else {
        done(
            head.push(log("toolchains"@, "Available:\n"@)) + logs(
                "toolchains"@,
                Seq::new(items.len(), |i: int| available_lines(items[i])),
            ),
        )
    }
}

/// Shows the toolchains that a provider has.
pub fn end_list_available(provider_id: &str, items: &Vec<AvailableToolchain>) -> (r: Turn)
    ensures
        r@ == available_listed(provider_id@, items@),
{
    broadcast use lemma_texts_push;

    let ghost all = Seq::new(items@.len(), |i: int| available_lines(items@[i]));
    let mut versions: Vec<String> = Vec::new();
    let mut lines: Vec<String> = Vec::new();
    assert(texts(versions@) =~= versions_of(items@.take(0)));
    assert(texts(lines@) =~= all.take(0));
    for i in 0..items.len()
        invariant
            all == Seq::new(items@.len(), |i: int| available_lines(items@[i])),
            texts(versions@) == versions_of(items@.take(i as int)),
            texts(lines@) == all.take(i as int),
    {
        assert(items@.take(i + 1).drop_last() =~= items@.take(i as int));
        if let Some(v) = &items[i].version {
            versions.push(v.clone());
        }
        lines.push(available_text(&items[i]));
        assert(all.take(i + 1) =~= all.take(i as int).push(all[i as int]));
    }
    assert(items@.take(items@.len() as int) =~= items@);
    assert(all.take(items@.len() as int) =~= all);
    let mut out: Out = Out::new();
    out.ui(AppEvent::ToolchainAvailable { provider_id: provider_id.to_owned(), versions });
    if items.len() == 0 {
        out.say("toolchains", "No available toolchains.\n");
    } else {
        out.say("toolchains", "Available:\n");
        out.log_all("toolchains", lines);
    }
    finish(out)
}

/// A toolchain is to be installed.
pub open spec fn install(
    cfg: AppConfig,
    provider_id: Seq<char>,
    version: Seq<char>,
    verify: bool,
    job_id: Option<Seq<char>>,
    correlation_id: Seq<char>,
) -> TurnView {
    let p = trimmed(provider_id);
    let v = trimmed(version);
    if p.len() == 0 {
        done(seq![log("toolchains"@, "Toolchain install requires a provider.\n"@)])
    } else if v.len() == 0 {
        done(seq![log("toolchains"@, "Toolchain install requires a version.\n"@)])
    } else {
        call(
            seq![
                log(
                    "toolchains"@,
                    "Installing "@ + p + " "@ + v + " (verify="@ + bool_spelled(verify) + ")\n"@,
                ),
            ],
            CallView::InstallToolchain {
                addr: cfg.toolchain_addr@,
                provider_id: p,
                version: v,
                install_root: ""@,
                verify_hash: verify,
                job_id: unless_blank(job_id),
                correlation_id: trimmed(correlation_id),
                run_id: id_text(correlation_id),
            },
        )
    }
}

/// Asks for a toolchain to be installed.
pub fn begin_install(
    cfg: &AppConfig,
    provider_id: &str,
    version: &str,
    verify: bool,
    job_id: &Option<String>,
    correlation_id: &str,
) -> (r: Turn)
    ensures
        r@ == install(
            *cfg,
            provider_id@,
            version@,
            verify,
            opt_text(*job_id),
            correlation_id@,
        ),
{
    let p: String = trim_owned(provider_id);
    if p.as_str().is_empty() {
        return last_words("toolchains", "Toolchain install requires a provider.\n");
    }
    let v: String = trim_owned(version);
    if v.as_str().is_empty() {
        return last_words("toolchains", "Toolchain install requires a version.\n");
    }
    let mut out: Out = Out::new();
    out.log(
        "toolchains",
        cat7("Installing ", p.as_str(), " ", v.as_str(), " (verify=", bool_text(verify), ")\n"),
    );
    ask(
        out,
        Call::InstallToolchain {
            addr: cfg.toolchain_addr.clone(),
            provider_id: p,
            version: v,
            install_root: "".to_owned(),
            verify_hash: verify,
            job_id: drop_blank(job_id),
            correlation_id: trim_owned(correlation_id),
            run_id: to_optional_id(correlation_id),
        },
    )
}

/// A toolchain is to be updated.
pub open spec fn update(
    cfg: AppConfig,
    toolchain_id: Seq<char>,
    version: Seq<char>,
    verify: bool,
    remove_cached: bool,
    job_id: Option<Seq<char>>,
    correlation_id: Seq<char>,
) -> TurnView {
    let t = trimmed(toolchain_id);
    let v = trimmed(version);
    if t.len() == 0 || v.len() == 0 {
        done(
            seq![log("toolchains"@, "Toolchain update requires toolchain id and version.\n"@)],
        )
    } else {
        call(
            seq![
                log(
                    "toolchains"@,
                    "Updating "@ + t + " to "@ + v + " (verify="@ + bool_spelled(verify) + ")\n"@,
                ),
            ],
            CallView::UpdateToolchain {
                addr: cfg.toolchain_addr@,
                toolchain_id: t,
                version: v,
                verify_hash: verify,
                remove_cached_artifact: remove_cached,
                job_id: unless_blank(job_id),
                correlation_id: trimmed(correlation_id),
                run_id: id_text(correlation_id),
            },
        )
    }
}

/// Asks for a toolchain to be updated.
pub fn begin_update(
    cfg: &AppConfig,
    toolchain_id: &str,
    version: &str,
    verify: bool,
    remove_cached: bool,
    job_id: &Option<String>,
    correlation_id: &str,
) -> (r: Turn)
    ensures
        r@ == update(
            *cfg,
            toolchain_id@,
            version@,
            verify,
            remove_cached,
            opt_text(*job_id),
            correlation_id@,
        ),
{
    let t: String = trim_owned(toolchain_id);
    let v: String = trim_owned(version);
    if t.as_str().is_empty() || v.as_str().is_empty() {
        return last_words(
            "toolchains",
            "Toolchain update requires toolchain id and version.\n",
        );
    }
    let mut out: Out = Out::new();
    out.log(
        "toolchains",
        cat7("Updating ", t.as_str(), " to ", v.as_str(), " (verify=", bool_text(verify), ")\n"),
    );
    ask(
        out,
        Call::UpdateToolchain {
            addr: cfg.toolchain_addr.clone(),
            toolchain_id: t,
            version: v,
            verify_hash: verify,
            remove_cached_artifact: remove_cached,
            job_id: drop_blank(job_id),
            correlation_id: trim_owned(correlation_id),
            run_id: to_optional_id(correlation_id),
        },
    )
}

/// A toolchain is to be removed.
pub open spec fn uninstall(
    cfg: AppConfig,
    toolchain_id: Seq<char>,
    remove_cached: bool,
    force: bool,
    job_id: Option<Seq<char>>,
    correlation_id: Seq<char>,
) -> TurnView {
    let t = trimmed(toolchain_id);
    if t.len() == 0 {
        done(seq![log("toolchains"@, "Toolchain uninstall requires toolchain id.\n"@)])
    } else {
        call(
            seq![
                log(
                    "toolchains"@,
                    "Uninstalling "@ + t + " (force="@ + bool_spelled(force) + ")\n"@,
                ),
            ],
            CallView::UninstallToolchain {
                addr: cfg.toolchain_addr@,
                toolchain_id: t,
                remove_cached_artifact: remove_cached,
                force,
                job_id: unless_blank(job_id),
                correlation_id: trimmed(correlation_id),
                run_id: id_text(correlation_id),
            },
        )
    }
}

/// Asks for a toolchain to be removed.
pub fn begin_uninstall(
    cfg: &AppConfig,
    toolchain_id: &str,
    remove_cached: bool,
    force: bool,
    job_id: &Option<String>,
    correlation_id: &str,
) -> (r: Turn)
    ensures
        r@ == uninstall(
            *cfg,
            toolchain_id@,
            remove_cached,
            force,
            opt_text(*job_id),
            correlation_id@,
        ),
{
    let t: String = trim_owned(toolchain_id);
    if t.as_str().is_empty() {
        return last_words("toolchains", "Toolchain uninstall requires toolchain id.\n");
    }
    let mut out: Out = Out::new();
    out.log("toolchains", cat5("Uninstalling ", t.as_str(), " (force=", bool_text(force), ")\n"));
    ask(
        out,
        Call::UninstallToolchain {
            addr: cfg.toolchain_addr.clone(),
            toolchain_id: t,
            remove_cached_artifact: remove_cached,
            force,
            job_id: drop_blank(job_id),
            correlation_id: trim_owned(correlation_id),
            run_id: to_optional_id(correlation_id),
        },
    )
}

/// The downloaded toolchains are to be cleaned up.
pub open spec fn cleanup_cache(
    cfg: AppConfig,
    dry_run: bool,
    remove_all: bool,
    job_id: Option<Seq<char>>,
    correlation_id: Seq<char>,
) -> TurnView {
    call(
        seq![
            log(
                "toolchains"@,
                "Cleaning cache via "@ + cfg.toolchain_addr@ + " (dry_run="@ + bool_spelled(dry_run)
                    + ", remove_all="@ + bool_spelled(remove_all) + ")\n"@,
            ),
        ],
        CallView::CleanupToolchainCache {
            addr: cfg.toolchain_addr@,
            dry_run,
            remove_all,
            job_id: unless_blank(job_id),
            correlation_id: trimmed(correlation_id),
            run_id: id_text(correlation_id),
        },
    )
}

/// Asks for the downloaded toolchains to be cleaned up.
pub fn begin_cleanup_cache(
    cfg: &AppConfig,
    dry_run: bool,
    remove_all: bool,
    job_id: &Option<String>,
    correlation_id: &str,
) -> (r: Turn)
    ensures
        r@ == cleanup_cache(*cfg, dry_run, remove_all, opt_text(*job_id), correlation_id@),
{
    let mut out: Out = Out::new();
    out.log(
        "toolchains",
        cat7(
            "Cleaning cache via ",
            cfg.toolchain_addr.as_str(),
            " (dry_run=",
            bool_text(dry_run),
            ", remove_all=",
            bool_text(remove_all),
            ")\n",
        ),
    );
    ask(
        out,
        Call::CleanupToolchainCache {
            addr: cfg.toolchain_addr.clone(),
            dry_run,
            remove_all,
            job_id: drop_blank(job_id),
            correlation_id: trim_owned(correlation_id),
            run_id: to_optional_id(correlation_id),
        },
    )
}

/// The installed toolchains of a kind are asked for.
pub open spec fn list_installed(cfg: AppConfig, kind: ToolchainKind) -> TurnView {
    ask_toolchains(
        "Listing installed toolchains via "@,
        cfg,
        CallView::ListInstalled { addr: cfg.toolchain_addr@, kind },
    )
}

/// Asks for the installed toolchains of a kind.
pub fn begin_list_installed(cfg: &AppConfig, kind: ToolchainKind) -> (r: Turn)
    ensures
        r@ == list_installed(*cfg, kind),
{
    begin_toolchains(
        "Listing installed toolchains via ",
        cfg,
        Call::ListInstalled { addr: cfg.toolchain_addr.clone(), kind },
    )
}

/// An installed toolchain, in two lines.
pub open spec fn installed_lines(t: InstalledToolchain) -> Seq<char> {
    "- "@ + or_else(opt_text(t.toolchain_id), ""@) + " "@ + or_else(
        provider_name(t.provider),
        "unknown"@,
    ) + " "@ + or_else(opt_text(t.version), "unknown"@) + " verified="@ + bool_spelled(t.verified)
        + "\n  path="@ + t.install_path@ + "\n"@
}

fn installed_text(t: &InstalledToolchain) -> (r: String)
    ensures
        r@ == installed_lines(*t),
{
    let mut s: String = cat7(
        "- ",
        text_or(&t.toolchain_id, ""),
        " ",
        name_of(&t.provider),
        " ",
        text_or(&t.version, "unknown"),
        " verified=",
    );
    s.append(bool_text(t.verified));
    s.append("\n  path=");
    s.append(t.install_path.as_str());
    s.append("\n");
    s
}

/// The installed toolchains, in words.
pub open spec fn installed_listed(items: Seq<InstalledToolchain>) -> TurnView {
    if items.len() == 0 {
        done(seq![log("toolchains"@, "No installed toolchains.\n"@)])
    } else {
        done(
            seq![log("toolchains"@, "Installed:\n"@)] + logs(
                "toolchains"@,
                Seq::new(items.len(), |i: int| installed_lines(items[i])),
            ),
        )
    }
}

/// Shows the installed toolchains.
pub fn end_list_installed(items: &Vec<InstalledToolchain>) -> (r: Turn)
    ensures
        r@ == installed_listed(items@),
{
    broadcast use lemma_texts_push;

    if items.len() == 0 {
        return last_words("toolchains", "No installed toolchains.\n");
    }
    let ghost all = Seq::new(items@.len(), |i: int| installed_lines(items@[i]));
    let mut lines: Vec<String> = Vec::new();
    assert(texts(lines@) =~= all.take(0));
    for i in 0..items.len()
        invariant
            all == Seq::new(items@.len(), |i: int| installed_lines(items@[i])),
            texts(lines@) == all.take(i as int),
    {
        lines.push(installed_text(&items[i]));
        assert(all.take(i + 1) =~= all.take(i as int).push(all[i as int]));
    }
    assert(all.take(items@.len() as int) =~= all);
    let mut out: Out = Out::new();
    out.say("toolchains", "Installed:\n");
    out.log_all("toolchains", lines);
    finish(out)
}

/// The toolchain sets are asked for.
pub open spec fn list_sets(cfg: AppConfig) -> TurnView {
    ask_toolchains(
        "Listing toolchain sets via "@,
        cfg,
        CallView::ListToolchainSets { addr: cfg.toolchain_addr@ },
    )
}

/// Asks for the toolchain sets.
pub fn begin_list_sets(cfg: &AppConfig) -> (r: Turn)
    ensures
        r@ == list_sets(*cfg),
{
    begin_toolchains(
        "Listing toolchain sets via ",
        cfg,
        Call::ListToolchainSets { addr: cfg.toolchain_addr.clone() },
    )
}

/// A toolchain set, in three lines.
pub open spec fn set_lines(s: ToolchainSet) -> Seq<char> {
    "- "@ + s.display_name@ + " ("@ + or_else(opt_text(s.toolchain_set_id), ""@) + ")\n  sdk="@
        + or_else(opt_text(s.sdk_toolchain_id), ""@) + "\n  ndk="@ + or_else(
        opt_text(s.ndk_toolchain_id),
        ""@,
    ) + "\n"@
}

fn set_text(s: &ToolchainSet) -> (r: String)
    ensures
        r@ == set_lines(*s),
{
    cat9(
        "- ",
        s.display_name.as_str(),
        " (",
        text_or(&s.toolchain_set_id, ""),
        ")\n  sdk=",
        text_or(&s.sdk_toolchain_id, ""),
        "\n  ndk=",
        text_or(&s.ndk_toolchain_id, ""),
        "\n",
    )
}

/// The token of the next page, where it is not blank.
pub open spec fn sets_listed(sets: Seq<ToolchainSet>, token: Option<Seq<char>>) -> TurnView {
    let body = if sets.len() == 0 {
        seq![log("toolchains"@, "No toolchain sets found.\n"@)]
    } else {
        seq![log("toolchains"@, "Toolchain sets:\n"@)] + logs(
            "toolchains"@,
            Seq::new(sets.len(), |i: int| set_lines(sets[i])),
        )
    };
    done(body + token_line("toolchains"@, unless_blank(token)))
}

/// Shows the toolchain sets.
pub fn end_list_sets(sets: &Vec<ToolchainSet>, token: &Option<String>) -> (r: Turn)
    ensures
        r@ == sets_listed(sets@, opt_text(*token)),
{
    broadcast use lemma_texts_push;

    let mut out: Out = Out::new();
    if sets.len() == 0 {
        out.say("toolchains", "No toolchain sets found.\n");
    } else {
        let ghost all = Seq::new(sets@.len(), |i: int| set_lines(sets@[i]));
        let mut lines: Vec<String> = Vec::new();
        assert(texts(lines@) =~= all.take(0));
        for i in 0..sets.len()
            invariant
                all == Seq::new(sets@.len(), |i: int| set_lines(sets@[i])),
                texts(lines@) == all.take(i as int),
        {
            lines.push(set_text(&sets[i]));
            assert(all.take(i + 1) =~= all.take(i as int).push(all[i as int]));
        }
        assert(all.take(sets@.len() as int) =~= all);
        out.say("toolchains", "Toolchain sets:\n");
        out.log_all("toolchains", lines);
    }
    crate::worker::jobs::push_token(&mut out, "toolchains", &drop_blank(token));
    finish(out)
}

/// The installed toolchains are asked for, to verify them.
pub open spec fn verify_installed(cfg: AppConfig) -> TurnView {
    ask_toolchains(
        "Verifying installed toolchains via "@,
        cfg,
        CallView::ListInstalled { addr: cfg.toolchain_addr@, kind: ToolchainKind::Unspecified },
    )
}

/// Asks for the installed toolchains, to verify them.
pub fn begin_verify_installed(cfg: &AppConfig) -> (r: Turn)
    ensures
        r@ == verify_installed(*cfg),
{
    begin_toolchains(
        "Verifying installed toolchains via ",
        cfg,
        Call::ListInstalled {
            addr: cfg.toolchain_addr.clone(),
            kind: ToolchainKind::Unspecified,
        },
    )
}

/// The ids of installed toolchains.
pub open spec fn installed_ids(items: Seq<InstalledToolchain>) -> Seq<Option<Seq<char>>> {
    Seq::new(items.len(), |i: int| opt_text(items[i].toolchain_id))
}

/// The texts of optional ids.
pub open spec fn id_texts(ids: Seq<Option<String>>) -> Seq<Option<Seq<char>>> {
    Seq::new(ids.len(), |i: int| opt_text(ids[i]))
}

/// The ids of toolchains, as far as they have any.
pub fn ids_of(items: &Vec<InstalledToolchain>) -> (r: Vec<Option<String>>)
    ensures
        id_texts(r@) == installed_ids(items@),
{
    let mut ids: Vec<Option<String>> = Vec::new();
    for i in 0..items.len()
        invariant
            id_texts(ids@) =~= installed_ids(items@).take(i as int),
    {
        let id: Option<String> = match &items[i].toolchain_id {
            Some(id) => Some(id.clone()),
            None => None,
        };
        let ghost before = id_texts(ids@);
        ids.push(id);
        assert(id_texts(ids@) =~= before.push(opt_text(id)));
    }
    assert(installed_ids(items@).take(items@.len() as int) =~= installed_ids(items@));
    ids
}

/// What is checked next: the place of the toolchain, and the turn.
pub struct Verifying {
    pub at: int,
    pub turn: TurnView,
}

/// The next toolchain from place `k` that has an id is checked; the others are passed over.
pub open spec fn verify_from(
    cfg: AppConfig,
    job_id: Option<Seq<char>>,
    correlation_id: Seq<char>,
    ids: Seq<Option<Seq<char>>>,
    k: int,
    effects: Seq<EffectView>,
) -> Verifying
    decreases ids.len() - k,
{
    if k < 0 || k >= ids.len() {
        Verifying { at: k, turn: done(effects) }
    } else {
        match ids[k] {
            None => verify_from(
                cfg,
                job_id,
                correlation_id,
                ids,
                k + 1,
                effects.push(log("toolchains"@, "Skipping toolchain with missing id.\n"@)),
            ),
            Some(id) => Verifying {
                at: k,
                turn: call(
                    effects,
                    CallView::VerifyToolchain {
                        addr: cfg.toolchain_addr@,
                        toolchain_id: id,
                        job_id: unless_blank(job_id),
                        correlation_id: trimmed(correlation_id),
                        run_id: id_text(correlation_id),
                    },
                ),
            },
        }
    }
}

fn go_on_verifying(
    cfg: &AppConfig,
    job_id: &Option<String>,
    correlation_id: &str,
    ids: &Vec<Option<String>>,
    from: usize,
    out: Out,
) -> (r: (usize, Turn))
    requires
        from <= ids@.len(),
    ensures
        (Verifying { at: r.0 as int, turn: r.1@ }) == verify_from(
            *cfg,
            opt_text(*job_id),
            correlation_id@,
            id_texts(ids@),
            from as int,
            out@,
        ),
        r.0 <= ids@.len(),
{
    let mut out: Out = out;
    let mut k: usize = from;
    let ghost goal = verify_from(
        *cfg,
        opt_text(*job_id),
        correlation_id@,
        id_texts(ids@),
        from as int,
        out@,
    );
    while k < ids.len()
        invariant
            k <= ids@.len(),
            verify_from(
                *cfg,
                opt_text(*job_id),
                correlation_id@,
                id_texts(ids@),
                k as int,
                out@,
            ) == goal,
        ensures
            k <= ids@.len(),
            verify_from(
                *cfg,
                opt_text(*job_id),
                correlation_id@,
                id_texts(ids@),
                k as int,
                out@,
            ) == goal,
            k == ids@.len() || ids@[k as int] is Some,
        decreases ids@.len() - k,
    {
        match &ids[k] {
            None => {
                out.say("toolchains", "Skipping toolchain with missing id.\n");
                k = k + 1;
            },
            Some(_) => {
                break;
            },
        }
    }
    if k == ids.len() {
        return (k, finish(out));
    }
    match &ids[k] {
        None => (k, finish(out)),
        Some(id) => {
            let request = Call::VerifyToolchain {
                addr: cfg.toolchain_addr.clone(),
                toolchain_id: id.clone(),
                job_id: drop_blank(job_id),
                correlation_id: trim_owned(correlation_id),
                run_id: to_optional_id(correlation_id),
            };
            (k, ask(out, request))
        },
    }
}

/// The toolchains to be checked are known.
pub open spec fn verify_listed(
    cfg: AppConfig,
    job_id: Option<Seq<char>>,
    correlation_id: Seq<char>,
    ids: Seq<Option<Seq<char>>>,
) -> Verifying {
    if ids.len() == 0 {
        Verifying {
            at: 0,
            turn: done(seq![log("toolchains"@, "No installed toolchains to verify.\n"@)]),
        }
    } else {
        verify_from(cfg, job_id, correlation_id, ids, 0, Seq::empty())
    }
}

/// Takes the installed toolchains and asks for the first to be verified.
pub fn verify_on_list(
    cfg: &AppConfig,
    job_id: &Option<String>,
    correlation_id: &str,
    ids: &Vec<Option<String>>,
) -> (r: (usize, Turn))
    ensures
        (Verifying { at: r.0 as int, turn: r.1@ }) == verify_listed(
            *cfg,
            opt_text(*job_id),
            correlation_id@,
            id_texts(ids@),
        ),
        r.0 <= ids@.len(),
{
    if ids.len() == 0 {
        assert(id_texts(ids@).len() == 0);
        return (0, last_words("toolchains", "No installed toolchains to verify.\n"));
    }
    go_on_verifying(cfg, job_id, correlation_id, ids, 0, Out::new())
}

/// What a check of a toolchain came to.
pub open spec fn verdict_line(id: Seq<char>, verified: bool, err: Option<JobError>) -> Seq<char> {
    if verified {
        "- "@ + id + " verified OK\n"@
    } else {
        match err {
            Some(e) => "- "@ + id + " verify failed: "@ + error_spelled(e) + "\n"@,
            None => "- "@ + id + " verify failed (no details)\n"@,
        }
    }
}

/// A toolchain was checked, and the next one follows.
pub open spec fn verify_answered(
    cfg: AppConfig,
    job_id: Option<Seq<char>>,
    correlation_id: Seq<char>,
    ids: Seq<Option<Seq<char>>>,
    k: int,
    verified: bool,
    err: Option<JobError>,
    check_job: Option<Seq<char>>,
) -> Verifying {
    let id = or_empty(ids[k]);
    verify_from(
        cfg,
        job_id,
        correlation_id,
        ids,
        k + 1,
        seq![log("toolchains"@, verdict_line(id, verified, err))] + job_stream(
            cfg.job_addr@,
            or_empty(check_job),
            "toolchains"@,
        ),
    )
}

/// Tells how a toolchain fared and goes on with the next.
pub fn verify_on_answer(
    cfg: &AppConfig,
    job_id: &Option<String>,
    correlation_id: &str,
    ids: &Vec<Option<String>>,
    k: usize,
    verified: bool,
    err: &Option<JobError>,
    check_job: &Option<String>,
) -> (r: (usize, Turn))
    requires
        k < ids@.len(),
    ensures
        (Verifying { at: r.0 as int, turn: r.1@ }) == verify_answered(
            *cfg,
            opt_text(*job_id),
            correlation_id@,
            id_texts(ids@),
            k as int,
            verified,
            *err,
            opt_text(*check_job),
        ),
        r.0 <= ids@.len(),
{
    let id: String = text_or_empty(&ids[k]);
    let line: String = if verified {
        cat3("- ", id.as_str(), " verified OK\n")
    } else {
        match err {
            Some(e) => cat5(
                "- ",
                id.as_str(),
                " verify failed: ",
                error_text(e).as_str(),
                "\n",
            ),
            None => cat3("- ", id.as_str(), " verify failed (no details)\n"),
        }
    };
    let mut out: Out = Out::new();
    out.log("toolchains", line);
    let job: String = text_or_empty(check_job);
    out.job_stream(cfg.job_addr.as_str(), job.as_str(), "toolchains");
    assert(k < ids.len());
    go_on_verifying(cfg, job_id, correlation_id, ids, k + 1, out)
}

/// A toolchain could not be checked, and the next one follows.
pub open spec fn verify_refused(
    cfg: AppConfig,
    job_id: Option<Seq<char>>,
    correlation_id: Seq<char>,
    ids: Seq<Option<Seq<char>>>,
    k: int,
    err: Seq<char>,
) -> Verifying {
    verify_from(
        cfg,
        job_id,
        correlation_id,
        ids,
        k + 1,
        seq![
            log(
                "toolchains"@,
                "- "@ + or_empty(ids[k]) + " verify request failed: "@ + err + "\n"@,
            ),
        ],
    )
}

/// Tells that a toolchain could not be verified and goes on with the next.
pub fn verify_on_refusal(
    cfg: &AppConfig,
    job_id: &Option<String>,
    correlation_id: &str,
    ids: &Vec<Option<String>>,
    k: usize,
    err: &str,
) -> (r: (usize, Turn))
    requires
        k < ids@.len(),
    ensures
        (Verifying { at: r.0 as int, turn: r.1@ }) == verify_refused(
            *cfg,
            opt_text(*job_id),
            correlation_id@,
            id_texts(ids@),
            k as int,
            err@,
        ),
        r.0 <= ids@.len(),
{
    let id: String = text_or_empty(&ids[k]);
    let mut out: Out = Out::new();
    out.log("toolchains", cat5("- ", id.as_str(), " verify request failed: ", err, "\n"));
    assert(k < ids.len());
    go_on_verifying(cfg, job_id, correlation_id, ids, k + 1, out)
}

/// The id that an optional text gives, trimmed, where it is not blank.
pub open spec fn trimmed_id(raw: Option<Seq<char>>) -> Option<Seq<char>> {
    match raw {
        Some(s) => id_text(s),
        None => None,
    }
}

/// The id that an optional text gives, trimmed, where it is not blank.
pub fn trim_id(raw: &Option<String>) -> (r: Option<String>)
    ensures
        opt_text(r) == trimmed_id(opt_text(*raw)),
{
    match raw {
        Some(s) => to_optional_id(s.as_str()),
        None => None,
    }
}

/// A toolchain set is to be made.
pub open spec fn create_set(
    cfg: AppConfig,
    sdk: Option<Seq<char>>,
    ndk: Option<Seq<char>>,
    display_name: Seq<char>,
) -> TurnView {
    if trimmed_id(sdk) is None && trimmed_id(ndk) is None {
        done(seq![log("toolchains"@, "Provide an SDK and/or NDK toolchain id.\n"@)])
    } else {
        ask_toolchains(
            "Creating toolchain set via "@,
            cfg,
            CallView::CreateToolchainSet {
                addr: cfg.toolchain_addr@,
                sdk_toolchain_id: trimmed_id(sdk),
                ndk_toolchain_id: trimmed_id(ndk),
                display_name: trimmed(display_name),
            },
        )
    }
}

/// Asks for a toolchain set to be made.
pub fn begin_create_set(
    cfg: &AppConfig,
    sdk: &Option<String>,
    ndk: &Option<String>,
    display_name: &str,
) -> (r: Turn)
    ensures
        r@ == create_set(*cfg, opt_text(*sdk), opt_text(*ndk), display_name@),
{
    let sdk_id: Option<String> = trim_id(sdk);
    let ndk_id: Option<String> = trim_id(ndk);
    if sdk_id.is_none() && ndk_id.is_none() {
        return last_words("toolchains", "Provide an SDK and/or NDK toolchain id.\n");
    }
    begin_toolchains(
        "Creating toolchain set via ",
        cfg,
        Call::CreateToolchainSet {
            addr: cfg.toolchain_addr.clone(),
            sdk_toolchain_id: sdk_id,
            ndk_toolchain_id: ndk_id,
            display_name: trim_owned(display_name),
        },
    )
}

/// A toolchain set under a heading, in four lines.
pub open spec fn set_report(
    heading: Seq<char>,
    id: Seq<char>,
    name: Seq<char>,
    sdk: Seq<char>,
    ndk: Seq<char>,
) -> Seq<char> {
    heading + id + "\n  display_name="@ + name + "\n  sdk="@ + sdk + "\n  ndk="@ + ndk + "\n"@
}

fn report_set(heading: &str, id: &str, name: &str, sdk: &str, ndk: &str) -> (r: String)
    ensures
        r@ == set_report(heading@, id@, name@, sdk@, ndk@),
{
    cat9(heading, id, "\n  display_name=", name, "\n  sdk=", sdk, "\n  ndk=", ndk, "\n")
}

/// A toolchain set was made.
pub open spec fn set_created(set: Option<ToolchainSet>) -> TurnView {
    match set {
        Some(s) => done(
            seq![
                log(
                    "toolchains"@,
                    set_report(
                        "Created set "@,
                        or_else(opt_text(s.toolchain_set_id), ""@),
                        s.display_name@,
                        or_else(opt_text(s.sdk_toolchain_id), ""@),
                        or_else(opt_text(s.ndk_toolchain_id), ""@),
                    ),
                ),
            ],
        ),
        None => done(seq![log("toolchains"@, "Create toolchain set returned no set.\n"@)]),
    }
}

/// Takes the toolchain set that was made.
pub fn end_create_set(set: &Option<ToolchainSet>) -> (r: Turn)
    ensures
        r@ == set_created(*set),
{
    match set {
        Some(s) => {
            let line: String = report_set(
                "Created set ",
                text_or(&s.toolchain_set_id, ""),
                s.display_name.as_str(),
                text_or(&s.sdk_toolchain_id, ""),
                text_or(&s.ndk_toolchain_id, ""),
            );
            last_words("toolchains", line.as_str())
        },
        None => last_words("toolchains", "Create toolchain set returned no set.\n"),
    }
}

/// The installed toolchains are asked for, to make a set of the latest.
pub open spec fn create_latest(cfg: AppConfig) -> TurnView {
    ask_toolchains(
        "Creating active toolchain set from latest installed via "@,
        cfg,
        CallView::ListInstalled { addr: cfg.toolchain_addr@, kind: ToolchainKind::Unspecified },
    )
}

/// Asks for the installed toolchains, to make a set of the latest.
pub fn begin_create_latest(cfg: &AppConfig) -> (r: Turn)
    ensures
        r@ == create_latest(*cfg),
{
    begin_toolchains(
        "Creating active toolchain set from latest installed via ",
        cfg,
        Call::ListInstalled {
            addr: cfg.toolchain_addr.clone(),
            kind: ToolchainKind::Unspecified,
        },
    )
}

/// The toolchain is of this kind.
pub open spec fn of_kind(t: InstalledToolchain, kind: ToolchainKind) -> bool {
    match t.provider {
        Some(p) => p.kind == kind,
        None => false,
    }
}

/// The place of the toolchain of a kind that was installed last; of several at the same time, the
/// last one.
pub open spec fn latest_place(items: Seq<InstalledToolchain>, kind: ToolchainKind) -> Option<int>
    decreases items.len(),
{
    if items.len() == 0 {
        None
    } else {
        let before = latest_place(items.drop_last(), kind);
        let last = items.last();
        if of_kind(last, kind) && (match before {
            Some(i) => or_zero(last.installed_at) >= or_zero(items[i].installed_at),
            None => true,
        }) {
            Some(items.len() - 1)
        } else {
            before
        }
    }
}

/// The toolchain of a kind that counts as the latest is of that kind, no other of that kind was
/// installed later, and none behind it at the same time; there is none only where none is of that
/// kind.
pub proof fn law_latest_place(items: Seq<InstalledToolchain>, kind: ToolchainKind)
    ensures
        match latest_place(items, kind) {
            Some(i) => {
                &&& 0 <= i < items.len()
                &&& of_kind(items[i], kind)
                &&& forall|j: int|
                    0 <= j < items.len() && of_kind(#[trigger] items[j], kind) ==> or_zero(
                        items[j].installed_at,
                    ) <= or_zero(items[i].installed_at)
                &&& forall|j: int|
                    i < j < items.len() && of_kind(#[trigger] items[j], kind) ==> or_zero(
                        items[j].installed_at,
                    ) < or_zero(items[i].installed_at)
            },
            None => forall|j: int| 0 <= j < items.len() ==> !of_kind(#[trigger] items[j], kind),
        },
    decreases items.len(),
{
    if items.len() > 0 {
        let rest = items.drop_last();
        law_latest_place(rest, kind);
        assert forall|j: int| 0 <= j < rest.len() implies items[j] == #[trigger] rest[j] by {}
        let n = items.len() - 1;
        match latest_place(items, kind) {
            Some(i) => {
                assert forall|j: int|
                    0 <= j < items.len() && of_kind(#[trigger] items[j], kind) implies or_zero(
                    items[j].installed_at,
                ) <= or_zero(items[i].installed_at) by {
                    if j < n {
                        assert(rest[j] == items[j]);
                    }
                }
                assert forall|j: int|
                    i < j < items.len() && of_kind(#[trigger] items[j], kind) implies or_zero(
                    items[j].installed_at,
                ) < or_zero(items[i].installed_at) by {
                    if j < n {
                        assert(rest[j] == items[j]);
                    }
                }
            },
            None => {
                assert forall|j: int| 0 <= j < items.len() implies !of_kind(
                    #[trigger] items[j],
                    kind,
                ) by {
                    if j < n {
                        assert(rest[j] == items[j]);
                    }
                }
            },
        }
    }
}

/// The place of the toolchain of a kind that was installed last.
pub fn latest_installed_by_kind(items: &Vec<InstalledToolchain>, kind: ToolchainKind) -> (r: Option<
    usize,
>)
    ensures
        match r {
            Some(i) => latest_place(items@, kind) == Some(i as int) && i < items@.len(),
            None => latest_place(items@, kind) is None,
        },
{
    let mut best: Option<usize> = None;
    for i in 0..items.len()
        invariant
            match best {
                Some(b) => latest_place(items@.take(i as int), kind) == Some(b as int) && b < i,
                None => latest_place(items@.take(i as int), kind) is None,
            },
    {
        let ghost now = items@.take(i + 1);
        assert(now.drop_last() =~= items@.take(i as int));
        assert(now.last() == items@[i as int]);
        let fits: bool = match &items[i].provider {
            Some(p) => p.kind == kind,
            None => false,
        };
        if fits {
            match best {
                Some(b) => {
                    assert(now[b as int] == items@[b as int]);
                    if millis_or_zero(items[i].installed_at) >= millis_or_zero(
                        items[b].installed_at,
                    ) {
                        best = Some(i);
                    }
                },
                None => {
                    best = Some(i);
                },
            }
        }
    }
    assert(items@.take(items@.len() as int) =~= items@);
    best
}

/// What a set of the latest toolchains is made of, or why there is none.
#[allow(inconsistent_fields)]
pub enum LatestView {
    Refused { line: Seq<char> },
    Picked { sdk_id: Seq<char>, ndk_id: Seq<char>, name: Seq<char> },
}

/// What a set of the latest toolchains is made of, or why there is none.
pub open spec fn latest_pick(items: Seq<InstalledToolchain>, display_name: Seq<char>) -> LatestView {
    match (latest_place(items, ToolchainKind::Sdk), latest_place(items, ToolchainKind::Ndk)) {
        (None, _) => LatestView::Refused {
            line: "No installed SDK toolchains found. Install an SDK first.\n"@,
        },
        (_, None) => LatestView::Refused {
            line: "No installed NDK toolchains found. Install an NDK first.\n"@,
        },
        (Some(s), Some(n)) => match (
            unless_blank(opt_text(items[s].toolchain_id)),
            unless_blank(opt_text(items[n].toolchain_id)),
        ) {
            (None, _) => LatestView::Refused {
                line: "Latest SDK toolchain is missing an id.\n"@,
            },
            (_, None) => LatestView::Refused {
                line: "Latest NDK toolchain is missing an id.\n"@,
            },
            (Some(sdk_id), Some(ndk_id)) => LatestView::Picked {
                sdk_id,
                ndk_id,
                name: if blank(display_name) {
                    "SDK "@ + or_else(opt_text(items[s].version), "unknown"@) + " + NDK "@
                        + or_else(opt_text(items[n].version), "unknown"@)
                } else {
                    trimmed(display_name)
                },
            },
        },
    }
}

/// The installed toolchains are known: a set is made of the latest ones.
pub open spec fn latest_listed(
    cfg: AppConfig,
    items: Seq<InstalledToolchain>,
    display_name: Seq<char>,
) -> TurnView {
    match latest_pick(items, display_name) {
        LatestView::Refused { line } => done(seq![log("toolchains"@, line)]),
        LatestView::Picked { sdk_id, ndk_id, name } => call(
            Seq::empty(),
            CallView::CreateToolchainSet {
                addr: cfg.toolchain_addr@,
                sdk_toolchain_id: Some(sdk_id),
                ndk_toolchain_id: Some(ndk_id),
                display_name: name,
            },
        ),
    }
}

/// The ids of the toolchains that a set is made of; empty where there is none.
pub open spec fn picked_ids(pick: LatestView) -> (Seq<char>, Seq<char>) {
    match pick {
        LatestView::Refused { .. } => (Seq::empty(), Seq::empty()),
        LatestView::Picked { sdk_id, ndk_id, .. } => (sdk_id, ndk_id),
    }
}

/// Picks the latest toolchains and asks for a set of them.
pub fn latest_on_list(cfg: &AppConfig, items: &Vec<InstalledToolchain>, display_name: &str) -> (r: (
    (String, String),
    Turn,
))
    ensures
        r.1@ == latest_listed(*cfg, items@, display_name@),
        ((r.0).0@, (r.0).1@) == picked_ids(latest_pick(items@, display_name@)),
{
    let s: usize = match latest_installed_by_kind(items, ToolchainKind::Sdk) {
        Some(i) => i,
        None => return (
            (String::new(), String::new()),
            last_words(
                "toolchains",
                "No installed SDK toolchains found. Install an SDK first.\n",
            ),
        ),
    };
    let n: usize = match latest_installed_by_kind(items, ToolchainKind::Ndk) {
        Some(i) => i,
        None => return (
            (String::new(), String::new()),
            last_words(
                "toolchains",
                "No installed NDK toolchains found. Install an NDK first.\n",
            ),
        ),
    };
    let sdk_id: String = match drop_blank(&items[s].toolchain_id) {
        Some(id) => id,
        None => return (
            (String::new(), String::new()),
            last_words("toolchains", "Latest SDK toolchain is missing an id.\n"),
        ),
    };
    let ndk_id: String = match drop_blank(&items[n].toolchain_id) {
        Some(id) => id,
        None => return (
            (String::new(), String::new()),
            last_words("toolchains", "Latest NDK toolchain is missing an id.\n"),
        ),
    };
    let given: &str = trim(display_name);
    let name: String = if given.is_empty() {
        cat4(
            "SDK ",
            text_or(&items[s].version, "unknown"),
            " + NDK ",
            text_or(&items[n].version, "unknown"),
        )
    } else {
        given.to_owned()
    };
    let turn: Turn = ask(
        Out::new(),
        Call::CreateToolchainSet {
            addr: cfg.toolchain_addr.clone(),
            sdk_toolchain_id: Some(sdk_id.clone()),
            ndk_toolchain_id: Some(ndk_id.clone()),
            display_name: name,
        },
    );
    ((sdk_id, ndk_id), turn)
}

/// The id of the set that was made; empty where there is none.
pub open spec fn made_set_id(set: Option<ToolchainSet>) -> Seq<char> {
    match set {
        Some(s) => or_empty(unless_blank(opt_text(s.toolchain_set_id))),
        None => Seq::empty(),
    }
}

/// A set of the latest toolchains was made: it becomes the active one.
pub open spec fn latest_created(
    cfg: AppConfig,
    set: Option<ToolchainSet>,
    sdk_id: Seq<char>,
    ndk_id: Seq<char>,
) -> TurnView {
    match set {
        None => done(seq![log("toolchains"@, "Create toolchain set returned no set.\n"@)]),
        Some(s) => match unless_blank(opt_text(s.toolchain_set_id)) {
            None => done(seq![log("toolchains"@, "Created toolchain set is missing an id.\n"@)]),
            Some(id) => call(
                seq![
                    log(
                        "toolchains"@,
                        set_report("Created set "@, id, s.display_name@, sdk_id, ndk_id),
                    ),
                ],
                CallView::SetActiveToolchainSet {
                    addr: cfg.toolchain_addr@,
                    toolchain_set_id: id,
                },
            ),
        },
    }
}

/// Takes the set that was made and asks for it to be the active one.
pub fn latest_on_set(cfg: &AppConfig, set: &Option<ToolchainSet>, sdk_id: &str, ndk_id: &str) -> (r:
    (String, Turn))
    ensures
        r.0@ == made_set_id(*set),
        r.1@ == latest_created(*cfg, *set, sdk_id@, ndk_id@),
{
    match set {
        None => (
            String::new(),
            last_words("toolchains", "Create toolchain set returned no set.\n"),
        ),
        Some(s) => match drop_blank(&s.toolchain_set_id) {
            None => (
                String::new(),
                last_words("toolchains", "Created toolchain set is missing an id.\n"),
            ),
            Some(id) => {
                let mut out: Out = Out::new();
                out.log(
                    "toolchains",
                    report_set(
                        "Created set ",
                        id.as_str(),
                        s.display_name.as_str(),
                        sdk_id,
                        ndk_id,
                    ),
                );
                let request = Call::SetActiveToolchainSet {
                    addr: cfg.toolchain_addr.clone(),
                    toolchain_set_id: id.clone(),
                };
                (id, ask(out, request))
            },
        },
    }
}

/// A set was made the active one, or it was not.
pub open spec fn activated(what: Seq<char>, set_id: Seq<char>, ok: bool) -> TurnView {
    if ok {
        done(seq![log("toolchains"@, what + set_id + "\n"@), set_update(set_id)])
    } else {
        done(seq![log("toolchains"@, "Failed to set active toolchain set.\n"@)])
    }
}

/// Tells whether a toolchain set is the active one now.
pub fn end_activate(what: &str, set_id: &str, ok: bool) -> (r: Turn)
    ensures
        r@ == activated(what@, set_id@, ok),
{
    if ok {
        let mut out: Out = Out::new();
        out.log("toolchains", cat3(what, set_id, "\n"));
        out.set_update(set_id.to_owned());
        finish(out)
    } else {
        last_words("toolchains", "Failed to set active toolchain set.\n")
    }
}

/// A toolchain set is to be the active one.
pub open spec fn set_active(cfg: AppConfig, toolchain_set_id: Seq<char>) -> TurnView {
    let id = trimmed(toolchain_set_id);
    if id.len() == 0 {
        done(seq![log("toolchains"@, "Set active requires a toolchain set id.\n"@)])
    } else {
        ask_toolchains(
            "Setting active toolchain set via "@,
            cfg,
            CallView::SetActiveToolchainSet { addr: cfg.toolchain_addr@, toolchain_set_id: id },
        )
    }
}

/// Asks for a toolchain set to be the active one.
pub fn begin_set_active(cfg: &AppConfig, toolchain_set_id: &str) -> (r: Turn)
    ensures
        r@ == set_active(*cfg, toolchain_set_id@),
{
    let id: String = trim_owned(toolchain_set_id);
    if id.as_str().is_empty() {
        return last_words("toolchains", "Set active requires a toolchain set id.\n");
    }
    begin_toolchains(
        "Setting active toolchain set via ",
        cfg,
        Call::SetActiveToolchainSet { addr: cfg.toolchain_addr.clone(), toolchain_set_id: id },
    )
}

/// The active toolchain set is asked for.
pub open spec fn get_active(cfg: AppConfig) -> TurnView {
    ask_toolchains(
        "Fetching active toolchain set via "@,
        cfg,
        CallView::GetActiveToolchainSet { addr: cfg.toolchain_addr@ },
    )
}

/// Asks for the active toolchain set.
pub fn begin_get_active(cfg: &AppConfig) -> (r: Turn)
    ensures
        r@ == get_active(*cfg),
{
    begin_toolchains(
        "Fetching active toolchain set via ",
        cfg,
        Call::GetActiveToolchainSet { addr: cfg.toolchain_addr.clone() },
    )
}

/// The active toolchain set, in words.
pub open spec fn active_found(set: Option<ToolchainSet>) -> TurnView {
    match set {
        Some(s) => {
            let id = or_else(opt_text(s.toolchain_set_id), ""@);
            let shown = seq![
                log(
                    "toolchains"@,
                    set_report(
                        "Active set "@,
                        id,
                        s.display_name@,
                        or_else(opt_text(s.sdk_toolchain_id), ""@),
                        or_else(opt_text(s.ndk_toolchain_id), ""@),
                    ),
                ),
            ];
            done(
                if blank(id) {
                    shown
                } else {
                    shown.push(set_update(id))
                },
            )
        },
        None => done(seq![log("toolchains"@, "No active toolchain set configured.\n"@)]),
    }
}

/// Shows the active toolchain set.
pub fn end_get_active(set: &Option<ToolchainSet>) -> (r: Turn)
    ensures
        r@ == active_found(*set),
{
    match set {
        Some(s) => {
            let id: &str = text_or(&s.toolchain_set_id, "");
            let mut out: Out = Out::new();
            out.log(
                "toolchains",
                report_set(
                    "Active set ",
                    id,
                    s.display_name.as_str(),
                    text_or(&s.sdk_toolchain_id, ""),
                    text_or(&s.ndk_toolchain_id, ""),
                ),
            );
            if !is_blank(id) {
                out.set_update(id.to_owned());
            }
            finish(out)
        },
        None => last_words("toolchains", "No active toolchain set configured.\n"),
    }
}

/// An id counts exactly where it is there and not blank, and then without the white space around it.
pub proof fn law_trimmed_id(raw: Option<Seq<char>>)
    ensures
        trimmed_id(raw) is Some <==> raw is Some && !blank(raw->0),
        trimmed_id(raw) matches Some(t) ==> t == trimmed(raw->0),
{
}

/// The toolchains to be checked are those that are installed, in order, each by its id.
pub proof fn law_installed_ids(items: Seq<InstalledToolchain>, ids: Seq<Option<String>>, i: int)
    ensures
        installed_ids(items).len() == items.len(),
        0 <= i < items.len() ==> installed_ids(items)[i] == opt_text(items[i].toolchain_id),
        id_texts(ids).len() == ids.len(),
        0 <= i < ids.len() ==> id_texts(ids)[i] == opt_text(ids[i]),
{
}

} // verus!
