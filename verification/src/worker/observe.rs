//! Runs and their outputs: listing them, exporting bundles, and following a run.

use crate::config::AppConfig;
use crate::model::{
    id_text, kv_list_text, kv_pairs, kvs, millis_or_zero, or_else, or_empty, or_zero,
    run_output_kind_label, run_output_kind_name, text_or, text_or_empty, to_optional_id,
    RunOutputKind,
};
use crate::text::{
    cat3, cat5, cat9, dec_int, dec_nat, i64_text, join, joined, lemma_texts_push, opt_text, texts,
    trim_owned, trimmed, u32_text, usize_text,
};
use crate::worker::call::{Call, CallView};
use crate::worker::jobs::{
    at_least_one, drop_blank, page_size_of, push_token, token_line, unless_blank,
};
use crate::worker::reply::{ListedOutput, OutputSummary, Run};
use crate::worker::turn::{
    ask, call, done, finish, job_stream, last_words, log, logs, Effect, EffectView, Out, Turn,
    TurnView,
};
use vstd::prelude::*;
use vstd::string::*;

verus! {

/// A page of runs is asked for.
pub open spec fn list_runs(
    cfg: AppConfig,
    run_id: Seq<char>,
    correlation_id: Seq<char>,
    result: Seq<char>,
    page_size: u32,
    page_token: Seq<char>,
    page: Seq<char>,
) -> TurnView {
    let run = trimmed(run_id);
    let corr = trimmed(correlation_id);
    let res = trimmed(result);
    call(
        seq![log(page, "Listing runs via "@ + cfg.observe_addr@ + "\n"@)],
        CallView::ListRuns {
            addr: cfg.observe_addr@,
            page_size: at_least_one(page_size),
            page_token,
            filtered: !(run.len() == 0 && corr.len() == 0 && res.len() == 0),
            run_id: id_text(run_id),
            correlation_id: corr,
            result: res,
        },
    )
}

/// Asks for a page of runs.
pub fn begin_list_runs(
    cfg: &AppConfig,
    run_id: &str,
    correlation_id: &str,
    result: &str,
    page_size: u32,
    page_token: &str,
    page: &'static str,
) -> (r: Turn)
    ensures
        r@ == list_runs(
            *cfg,
            run_id@,
            correlation_id@,
            result@,
            page_size,
            page_token@,
            page@,
        ),
{
    let mut out: Out = Out::new();
    out.log(page, cat3("Listing runs via ", cfg.observe_addr.as_str(), "\n"));
    let run: String = trim_owned(run_id);
    let corr: String = trim_owned(correlation_id);
    let res: String = trim_owned(result);
    let filtered: bool = !(run.as_str().is_empty() && corr.as_str().is_empty()
        && res.as_str().is_empty());
    ask(
        out,
        Call::ListRuns {
            addr: cfg.observe_addr.clone(),
            page_size: page_size_of(page_size),
            page_token: page_token.to_owned(),
            filtered,
            run_id: to_optional_id(run_id),
            correlation_id: corr,
            result: res,
        },
    )
}

/// What there is of outputs, behind a word.
pub open spec fn summary_line(word: Seq<char>, s: OutputSummary) -> Seq<char> {
    word + "bundles="@ + dec_nat(s.bundle_count as nat) + " artifacts="@ + dec_nat(
        s.artifact_count as nat,
    ) + " updated="@ + dec_int(or_zero(s.updated_at) as int) + " last_bundle_id="@
        + s.last_bundle_id@ + "\n"@
}

fn summary_text(word: &str, s: &OutputSummary) -> (r: String)
    ensures
        r@ == summary_line(word@, *s),
{
    let mut line: String = cat9(
        word,
        "bundles=",
        u32_text(s.bundle_count).as_str(),
        " artifacts=",
        u32_text(s.artifact_count).as_str(),
        " updated=",
        i64_text(millis_or_zero(s.updated_at)).as_str(),
        " last_bundle_id=",
        s.last_bundle_id.as_str(),
    );
    line.append("\n");
    line
}

/// A run's first line.
pub open spec fn run_line(run: Run) -> Seq<char> {
    "- "@ + or_else(opt_text(run.run_id), "-"@) + " result="@ + run.result@ + " corr="@
        + run.correlation_id@ + " project="@ + or_else(opt_text(run.project_id), "-"@)
        + " target="@ + or_else(opt_text(run.target_id), "-"@) + " toolchain_set="@ + or_else(
        opt_text(run.toolchain_set_id),
        "-"@,
    ) + " started="@ + dec_int(or_zero(run.started_at) as int) + " finished="@ + dec_int(
        or_zero(run.finished_at) as int,
    ) + " jobs="@ + dec_nat(run.job_ids@.len()) + "\n"@
}

fn run_text(run: &Run) -> (r: String)
    ensures
        r@ == run_line(*run),
{
    let mut s: String = cat9(
        "- ",
        text_or(&run.run_id, "-"),
        " result=",
        run.result.as_str(),
        " corr=",
        run.correlation_id.as_str(),
        " project=",
        text_or(&run.project_id, "-"),
        " target=",
    );
    s.append(text_or(&run.target_id, "-"));
    s.append(" toolchain_set=");
    s.append(text_or(&run.toolchain_set_id, "-"));
    s.append(" started=");
    s.append(i64_text(millis_or_zero(run.started_at)).as_str());
    s.append(" finished=");
    s.append(i64_text(millis_or_zero(run.finished_at)).as_str());
    s.append(" jobs=");
    s.append(usize_text(run.job_ids.len()).as_str());
    s.append("\n");
    s
}

/// The lines of a run: the first one, and one each for its jobs, its outputs and its summary,
/// where there are any.
pub open spec fn run_lines_of(run: Run) -> Seq<Seq<char>> {
    let first = seq![run_line(run)];
    let with_jobs = if run.job_ids@.len() == 0 {
        first
    } else {
        first.push("  job_ids: "@ + joined(texts(run.job_ids@), ", "@) + "\n"@)
    };
    let with_outputs = match run.output_summary {
        Some(s) => with_jobs.push(summary_line("  outputs: "@, s)),
        None => with_jobs,
    };
    if run.summary@.len() == 0 {
        with_outputs
    } else {
        with_outputs.push("  summary: "@ + kv_list_text(kvs(run.summary@)) + "\n"@)
    }
}

fn push_run(lines: &mut Vec<String>, run: &Run)
    ensures
        texts(final(lines)@) == texts(old(lines)@) + run_lines_of(*run),
{
    broadcast use lemma_texts_push;

    let ghost before = texts(lines@);
    lines.push(run_text(run));
    assert(texts(lines@) =~= before + seq![run_line(*run)]);
    if run.job_ids.len() != 0 {
        let ids: String = join(&run.job_ids, ", ");
        lines.push(cat3("  job_ids: ", ids.as_str(), "\n"));
    }
    match &run.output_summary {
        Some(s) => {
            lines.push(summary_text("  outputs: ", s));
        },
        None => {},
    }
    if run.summary.len() != 0 {
        let pairs: String = kv_pairs(&run.summary);
        lines.push(cat3("  summary: ", pairs.as_str(), "\n"));
    }
    assert(texts(lines@) =~= before + run_lines_of(*run));
}

/// The lines of runs, in order.
pub open spec fn runs_lines(runs: Seq<Run>) -> Seq<Seq<char>>
    decreases runs.len(),
{
    if runs.len() == 0 {
        Seq::empty()
    } else {
        runs_lines(runs.drop_last()) + run_lines_of(runs.last())
    }
}

/// A page of runs, in words.
pub open spec fn runs_listed(page: Seq<char>, runs: Seq<Run>, token: Option<Seq<char>>) -> TurnView {
    let body = if runs.len() == 0 {
        seq![log(page, "No runs recorded.\n"@)]
    } else {
        seq![log(page, "Runs:\n"@)] + logs(page, runs_lines(runs))
    };
    done(body + token_line(page, unless_blank(token)))
}

/// Shows a page of runs.
pub fn end_list_runs(page: &'static str, runs: &Vec<Run>, token: &Option<String>) -> (r: Turn)
    ensures
        r@ == runs_listed(page@, runs@, opt_text(*token)),
{
    let mut out: Out = Out::new();
    if runs.len() == 0 {
        out.say(page, "No runs recorded.\n");
    } else {
        let mut lines: Vec<String> = Vec::new();
        assert(texts(lines@) =~= runs_lines(runs@.take(0)));
        for i in 0..runs.len()
            invariant
                texts(lines@) == runs_lines(runs@.take(i as int)),
        {
            assert(runs@.take(i + 1).drop_last() =~= runs@.take(i as int));
            push_run(&mut lines, &runs[i]);
        }
        assert(runs@.take(runs@.len() as int) =~= runs@);
        out.say(page, "Runs:\n");
        out.log_all(page, lines);
    }
    push_token(&mut out, page, &drop_blank(token));
    finish(out)
}

/// A page of what a run put out is asked for.
pub open spec fn list_outputs(
    cfg: AppConfig,
    run_id: Seq<char>,
    kind: RunOutputKind,
    output_type: Seq<char>,
    path_contains: Seq<char>,
    label_contains: Seq<char>,
    page_size: u32,
    page_token: Seq<char>,
    page: Seq<char>,
) -> TurnView {
    if trimmed(run_id).len() == 0 {
        done(seq![log(page, "Run id is required for output listing.\n"@)])
    } else {
        call(
            seq![log(page, "Listing outputs via "@ + cfg.observe_addr@ + "\n"@)],
            CallView::ListRunOutputs {
                addr: cfg.observe_addr@,
                run_id: trimmed(run_id),
                page_size: at_least_one(page_size),
                page_token,
                kind,
                output_type: trimmed(output_type),
                path_contains: trimmed(path_contains),
                label_contains: trimmed(label_contains),
            },
        )
    }
}

/// Asks for a page of what a run put out.
pub fn begin_list_outputs(
    cfg: &AppConfig,
    run_id: &str,
    kind: RunOutputKind,
    output_type: &str,
    path_contains: &str,
    label_contains: &str,
    page_size: u32,
    page_token: &str,
    page: &'static str,
) -> (r: Turn)
    ensures
        r@ == list_outputs(
            *cfg,
            run_id@,
            kind,
            output_type@,
            path_contains@,
            label_contains@,
            page_size,
            page_token@,
            page@,
        ),
{
    let run: String = trim_owned(run_id);
    if run.as_str().is_empty() {
        return last_words(page, "Run id is required for output listing.\n");
    }
    let mut out: Out = Out::new();
    out.log(page, cat3("Listing outputs via ", cfg.observe_addr.as_str(), "\n"));
    ask(
        out,
        Call::ListRunOutputs {
            addr: cfg.observe_addr.clone(),
            run_id: run,
            page_size: page_size_of(page_size),
            page_token: page_token.to_owned(),
            kind,
            output_type: trim_owned(output_type),
            path_contains: trim_owned(path_contains),
            label_contains: trim_owned(label_contains),
        },
    )
}

/// An output's first line.
pub open spec fn output_line(o: ListedOutput) -> Seq<char> {
    "- "@ + o.output_id@ + " kind="@ + run_output_kind_name(o.kind) + " type="@ + o.output_type@
        + " path="@ + o.path@ + " label="@ + o.label@ + " job_id="@ + or_else(
        opt_text(o.job_id),
        "-"@,
    ) + " created_at="@ + dec_int(or_zero(o.created_at) as int) + "\n"@
}

fn output_text(o: &ListedOutput) -> (r: String)
    ensures
        r@ == output_line(*o),
{
    let mut s: String = cat9(
        "- ",
        o.output_id.as_str(),
        " kind=",
        run_output_kind_label(o.kind),
        " type=",
        o.output_type.as_str(),
        " path=",
        o.path.as_str(),
        " label=",
    );
    s.append(o.label.as_str());
    s.append(" job_id=");
    s.append(text_or(&o.job_id, "-"));
    s.append(" created_at=");
    s.append(i64_text(millis_or_zero(o.created_at)).as_str());
    s.append("\n");
    s
}

/// The lines of outputs, in order; one that has metadata takes two.
pub open spec fn outputs_lines(outputs: Seq<ListedOutput>) -> Seq<Seq<char>>
    decreases outputs.len(),
{
    if outputs.len() == 0 {
        Seq::empty()
    } else {
        let o = outputs.last();
        let told = outputs_lines(outputs.drop_last()).push(output_line(o));
        if o.metadata@.len() == 0 {
            told
        } else {
            told.push("  metadata: "@ + kv_list_text(kvs(o.metadata@)) + "\n"@)
        }
    }
}

/// A page of what a run put out, in words.
pub open spec fn outputs_listed(
    page: Seq<char>,
    summary: Option<OutputSummary>,
    outputs: Seq<ListedOutput>,
    token: Option<Seq<char>>,
) -> TurnView {
    let head: Seq<EffectView> = match summary {
        Some(s) => seq![log(page, summary_line("Output summary: "@, s))],
        None => Seq::empty(),
    };
    let body = if outputs.len() == 0 {
        head.push(log(page, "No outputs recorded.\n"@))
    } else {
        head + logs(page, outputs_lines(outputs))
    };
    done(body + token_line(page, unless_blank(token)))
}

/// Shows a page of what a run put out.
pub fn end_list_outputs(
    page: &'static str,
    summary: &Option<OutputSummary>,
    outputs: &Vec<ListedOutput>,
    token: &Option<String>,
) -> (r: Turn)
    ensures
        r@ == outputs_listed(page@, *summary, outputs@, opt_text(*token)),
{
    broadcast use lemma_texts_push;

    let mut out: Out = Out::new();
    match summary {
        Some(s) => {
            out.log(page, summary_text("Output summary: ", s));
        },
        None => {},
    }
    if outputs.len() == 0 {
        out.say(page, "No outputs recorded.\n");
    } else {
        let mut lines: Vec<String> = Vec::new();
        assert(texts(lines@) =~= outputs_lines(outputs@.take(0)));
        for i in 0..outputs.len()
            invariant
                texts(lines@) == outputs_lines(outputs@.take(i as int)),
        {
            assert(outputs@.take(i + 1).drop_last() =~= outputs@.take(i as int));
            lines.push(output_text(&outputs[i]));
            if outputs[i].metadata.len() != 0 {
                let pairs: String = kv_pairs(&outputs[i].metadata);
                lines.push(cat3("  metadata: ", pairs.as_str(), "\n"));
            }
        }
        assert(outputs@.take(outputs@.len() as int) =~= outputs@);
        out.log_all(page, lines);
    }
    push_token(&mut out, page, &drop_blank(token));
    finish(out)
}

/// A support bundle is asked for.
pub open spec fn export_support(
    cfg: AppConfig,
    include_logs: bool,
    include_config: bool,
    include_toolchain_provenance: bool,
    include_recent_runs: bool,
    recent_runs_limit: u32,
    job_id: Option<Seq<char>>,
    correlation_id: Seq<char>,
    page: Seq<char>,
) -> TurnView {
    call(
        seq![log(page, "Connecting to ObserveService at "@ + cfg.observe_addr@ + "\n"@)],
        CallView::ExportSupportBundle {
            addr: cfg.observe_addr@,
            include_logs,
            include_config,
            include_toolchain_provenance,
            include_recent_runs,
            recent_runs_limit,
            job_id: unless_blank(job_id),
            correlation_id: trimmed(correlation_id),
            run_id: id_text(correlation_id),
        },
    )
}

/// Asks for a support bundle.
pub fn begin_export_support(
    cfg: &AppConfig,
    include_logs: bool,
    include_config: bool,
    include_toolchain_provenance: bool,
    include_recent_runs: bool,
    recent_runs_limit: u32,
    job_id: &Option<String>,
    correlation_id: &str,
    page: &'static str,
) -> (r: Turn)
    ensures
        r@ == export_support(
            *cfg,
            include_logs,
            include_config,
            include_toolchain_provenance,
            include_recent_runs,
            recent_runs_limit,
            opt_text(*job_id),
            correlation_id@,
            page@,
        ),
{
    let mut out: Out = Out::new();
    out.log(page, cat3("Connecting to ObserveService at ", cfg.observe_addr.as_str(), "\n"));
    ask(
        out,
        Call::ExportSupportBundle {
            addr: cfg.observe_addr.clone(),
            include_logs,
            include_config,
            include_toolchain_provenance,
            include_recent_runs,
            recent_runs_limit,
            job_id: drop_blank(job_id),
            correlation_id: trim_owned(correlation_id),
            run_id: to_optional_id(correlation_id),
        },
    )
}

/// An evidence bundle of a run is asked for.
pub open spec fn export_evidence(
    cfg: AppConfig,
    run_id: Seq<char>,
    job_id: Option<Seq<char>>,
    correlation_id: Seq<char>,
    page: Seq<char>,
) -> TurnView {
    if trimmed(run_id).len() == 0 {
        done(seq![log(page, "Run id is required for evidence export.\n"@)])
    } else {
        call(
            seq![log(page, "Connecting to ObserveService at "@ + cfg.observe_addr@ + "\n"@)],
            CallView::ExportEvidenceBundle {
                addr: cfg.observe_addr@,
                run_id: trimmed(run_id),
                job_id: unless_blank(job_id),
                correlation_id: trimmed(correlation_id),
            },
        )
    }
}

/// Asks for an evidence bundle of a run.
pub fn begin_export_evidence(
    cfg: &AppConfig,
    run_id: &str,
    job_id: &Option<String>,
    correlation_id: &str,
    page: &'static str,
) -> (r: Turn)
    ensures
        r@ == export_evidence(*cfg, run_id@, opt_text(*job_id), correlation_id@, page@),
{
    let run: String = trim_owned(run_id);
    if run.as_str().is_empty() {
        return last_words(page, "Run id is required for evidence export.\n");
    }
    let mut out: Out = Out::new();
    out.log(page, cat3("Connecting to ObserveService at ", cfg.observe_addr.as_str(), "\n"));
    ask(
        out,
        Call::ExportEvidenceBundle {
            addr: cfg.observe_addr.clone(),
            run_id: run,
            job_id: drop_blank(job_id),
            correlation_id: trim_owned(correlation_id),
        },
    )
}

/// A bundle is being made.
pub open spec fn bundle_queued(
    cfg: AppConfig,
    page: Seq<char>,
    what: Seq<char>,
    job_id: Option<Seq<char>>,
    output_path: Seq<char>,
) -> TurnView {
    let id = or_empty(job_id);
    done(
        seq![log(page, what + id + "\nOutput path: "@ + output_path + "\n"@)] + job_stream(
            cfg.job_addr@,
            id,
            page,
        ),
    )
}

/// Takes the job that makes a bundle.
pub fn end_bundle(
    cfg: &AppConfig,
    page: &'static str,
    what: &str,
    job_id: &Option<String>,
    output_path: &str,
) -> (r: Turn)
    ensures
        r@ == bundle_queued(*cfg, page@, what@, opt_text(*job_id), output_path@),
{
    let id: String = text_or_empty(job_id);
    let mut out: Out = Out::new();
    out.log(page, cat5(what, id.as_str(), "\nOutput path: ", output_path, "\n"));
    out.job_stream(cfg.job_addr.as_str(), id.as_str(), page);
    finish(out)
}

/// A run is to be followed on a page.
pub open spec fn follow_run(
    cfg: AppConfig,
    run_id: Seq<char>,
    correlation_id: Seq<char>,
    include_history: bool,
    page: Seq<char>,
) -> TurnView {
    let run = trimmed(run_id);
    let corr = trimmed(correlation_id);
    if run.len() == 0 && corr.len() == 0 {
        done(seq![log(page, "run_id or correlation_id is required to stream\n"@)])
    } else {
        done(
            seq![
                log(page, "Streaming run events via "@ + cfg.job_addr@ + "\n"@),
                EffectView::RunStream {
                    addr: cfg.job_addr@,
                    run_id: run,
                    correlation_id: corr,
                    include_history,
                    page,
                },
            ],
        )
    }
}

/// Begins to follow the events of a run.
pub fn begin_follow_run(
    cfg: &AppConfig,
    run_id: &str,
    correlation_id: &str,
    include_history: bool,
    page: &'static str,
) -> (r: Turn)
    ensures
        r@ == follow_run(*cfg, run_id@, correlation_id@, include_history, page@),
{
    let run: String = trim_owned(run_id);
    let corr: String = trim_owned(correlation_id);
    if run.as_str().is_empty() && corr.as_str().is_empty() {
        return last_words(page, "run_id or correlation_id is required to stream\n");
    }
    let mut out: Out = Out::new();
    out.log(page, cat3("Streaming run events via ", cfg.job_addr.as_str(), "\n"));
    out.push(
        Effect::RunStream {
            addr: cfg.job_addr.clone(),
            run_id: run,
            correlation_id: corr,
            include_history,
            page,
        },
    );
    finish(out)
}

} // verus!
