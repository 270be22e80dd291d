//! Taking a pipeline request in: which run and which job it belongs to, and what is answered.

use crate::model::{kv, kvs, lemma_kvs_push, metric, KeyValue, KeyValueView, StartJob};
use crate::pipeline::messages::PipelineRequest;
use crate::pipeline::plan::{clean_id, clean_id_text, law_clean_id};
use crate::text::{blank, cat2, cat3, cat4, opt_text, trim, trimmed};
use vstd::prelude::*;
use vstd::string::*;

verus! {

/// The category of an error that a service answers with.
#[derive(Clone, Copy, Debug, PartialEq, Eq, Structural)]
pub enum StatusCode {
    Internal,
    Unavailable,
}

/// An error that a service answers with.
#[derive(Debug)]
pub struct StatusError {
    pub code: StatusCode,
    pub message: String,
}

/// The error for an address that is not valid.
pub fn invalid_endpoint(service: &str, reason: &str) -> (r: StatusError)
    ensures
        r.code == StatusCode::Internal,
        r.message@ == "invalid "@ + service@ + " endpoint: "@ + reason@,
{
    StatusError {
        code: StatusCode::Internal,
        message: cat4("invalid ", service, " endpoint: ", reason),
    }
}

/// The error for a service that cannot be reached.
pub fn service_unavailable(service: &str, reason: &str) -> (r: StatusError)
    ensures
        r.code == StatusCode::Unavailable,
        r.message@ == service@ + " service unavailable: "@ + reason@,
{
    StatusError {
        code: StatusCode::Unavailable,
        message: cat3(service, " service unavailable: ", reason),
    }
}

/// The error for an event that could not be published.
pub fn publish_error(reason: &str) -> (r: StatusError)
    ensures
        r.code == StatusCode::Unavailable,
        r.message@ == "publish job event failed: "@ + reason@,
{
    StatusError {
        code: StatusCode::Unavailable,
        message: cat2("publish job event failed: ", reason),
    }
}

/// A lower-case hexadecimal digit.
pub open spec fn hex_digit(c: char) -> bool {
    '0' <= c <= '9' || 'a' <= c <= 'f'
}

/// The written form of a random UUID: five groups of lower-case hexadecimal digits between
/// hyphens, version 4, variant 1.
pub open spec fn uuid_shaped(s: Seq<char>) -> bool {
    &&& s.len() == 36
    &&& s[8] == '-' && s[13] == '-' && s[18] == '-' && s[23] == '-'
    &&& s[14] == '4'
    &&& s[19] == '8' || s[19] == '9' || s[19] == 'a' || s[19] == 'b'
    &&& forall|i: int|
        0 <= i < 36 && i != 8 && i != 13 && i != 18 && i != 23 ==> hex_digit(#[trigger] s[i])
}

/// A fresh random UUID in its written form (`uuid::Uuid::new_v4`, with its `Display`). The digits
/// are random: only their shape, the version and the variant are claimed.
#[verifier::external_body]
fn fresh_uuid() -> (r: String)
    ensures
        uuid_shaped(r@),
{
    uuid::Uuid::new_v4().to_string()
}

/// The run's id: the one that is asked for, or one made from `fresh`.
pub open spec fn run_id_from(requested: Option<Seq<char>>, fresh: Seq<char>) -> Seq<char> {
    if clean_id(requested).len() > 0 {
        clean_id(requested)
    } else {
        "run-"@ + fresh
    }
}

/// The run's id: the one that is asked for, or one made from `fresh`.
pub fn run_id_with(requested: &Option<String>, fresh: &str) -> (r: String)
    ensures
        r@ == run_id_from(opt_text(*requested), fresh@),
{
    let id: String = clean_id_text(requested);
    if id.as_str().is_empty() {
        cat2("run-", fresh)
    } else {
        id
    }
}

/// The run's id: the one that is asked for, or a fresh one, which is drawn only then.
pub fn resolve_run_id(requested: &Option<String>) -> (r: String)
    ensures
        clean_id(opt_text(*requested)).len() > 0 ==> r@ == clean_id(opt_text(*requested)),
        clean_id(opt_text(*requested)).len() == 0 ==> exists|fresh: Seq<char>|
            uuid_shaped(fresh) && r@ == #[trigger] run_id_from(opt_text(*requested), fresh),
{
    let id: String = clean_id_text(requested);
    if !id.as_str().is_empty() {
        return id;
    }
    let fresh: String = fresh_uuid();
    run_id_with(requested, fresh.as_str())
}

/// The id that ties a run's jobs together: the one that is asked for, or the run's id.
pub open spec fn correlation_from(raw: Seq<char>, run_id: Seq<char>) -> Seq<char> {
    if blank(raw) {
        run_id
    } else {
        trimmed(raw)
    }
}

/// The id that ties a run's jobs together: the one that is asked for, or the run's id.
pub fn resolve_correlation_id(raw: &str, run_id: &str) -> (r: String)
    ensures
        r@ == correlation_from(raw@, run_id@),
{
    let t: &str = trim(raw);
    if t.is_empty() {
        run_id.to_owned()
    } else {
        t.to_owned()
    }
}

/// The job under which a pipeline runs.
#[derive(Debug)]
pub enum Admission {
    /// A job that exists.
    Existing { job_id: String },
    /// A job that is still to be started.
    Start { request: StartJob },
}

/// One pair where there is a value, none otherwise.
pub open spec fn optional_pair(key: Seq<char>, value: Option<Seq<char>>) -> Seq<KeyValueView> {
    match value {
        Some(v) => seq![kv(key, v)],
        None => Seq::empty(),
    }
}

/// The parameters of a job that is started for a pipeline.
pub open spec fn pipeline_params(
    req: PipelineRequest,
    run_id: Seq<char>,
    correlation_id: Seq<char>,
) -> Seq<KeyValueView> {
    seq![kv("run_id"@, run_id), kv("correlation_id"@, correlation_id)] + optional_pair(
        "project_id"@,
        opt_text(req.project_id),
    ) + optional_pair("target_id"@, opt_text(req.target_id)) + optional_pair(
        "toolchain_set_id"@,
        opt_text(req.toolchain_set_id),
    )
}

fn push_pair(params: &mut Vec<KeyValue>, key: &str, value: &Option<String>)
    ensures
        kvs(final(params)@) == kvs(old(params)@) + optional_pair(key@, opt_text(*value)),
{
    broadcast use lemma_kvs_push;

    if let Some(v) = value {
        params.push(metric(key, v.as_str()));
    }
    assert(kvs(params@) =~= kvs(old(params)@) + optional_pair(key@, opt_text(*value)));
}

/// The job under which a pipeline runs: the one that the request names, or a new one.
pub fn pipeline_job(req: &PipelineRequest, run_id: &str, correlation_id: &str) -> (r: Admission)
    ensures
        match r {
            Admission::Existing { job_id } => {
                &&& clean_id(opt_text(req.job_id)).len() > 0
                &&& job_id@ == clean_id(opt_text(req.job_id))
            },
            Admission::Start { request } => {
                &&& clean_id(opt_text(req.job_id)).len() == 0
                &&& request.job_type@ == "workflow.pipeline"@
                &&& kvs(request.params@) == pipeline_params(*req, run_id@, correlation_id@)
                &&& opt_text(request.project_id) == opt_text(req.project_id)
                &&& opt_text(request.target_id) == opt_text(req.target_id)
                &&& opt_text(request.toolchain_set_id) == opt_text(req.toolchain_set_id)
                &&& request.correlation_id@ == correlation_id@
                &&& opt_text(request.run_id) == Some(run_id@)
            },
        },
{
    broadcast use lemma_kvs_push;

    let job_id: String = clean_id_text(&req.job_id);
    if !job_id.as_str().is_empty() {
        return Admission::Existing { job_id };
    }
    let mut params: Vec<KeyValue> = Vec::new();
    assert(kvs(params@) =~= Seq::empty());
    params.push(metric("run_id", run_id));
    params.push(metric("correlation_id", correlation_id));
    push_pair(&mut params, "project_id", &req.project_id);
    push_pair(&mut params, "target_id", &req.target_id);
    push_pair(&mut params, "toolchain_set_id", &req.toolchain_set_id);
    Admission::Start {
        request: StartJob {
            job_type: "workflow.pipeline".to_owned(),
            params,
            project_id: req.project_id.clone(),
            target_id: req.target_id.clone(),
            toolchain_set_id: req.toolchain_set_id.clone(),
            correlation_id: correlation_id.to_owned(),
            run_id: Some(run_id.to_owned()),
        },
    }
}

/// The answer to a pipeline request.
#[derive(Debug)]
pub struct PipelineResponse {
    pub run_id: String,
    pub job_id: String,
    pub project_id: Option<String>,
    pub outputs: Vec<KeyValue>,
}

/// The answer to a pipeline request that runs under `job_id`; an error without a job.
pub fn respond(req: &PipelineRequest, run_id: &str, correlation_id: &str, job_id: &str) -> (r: Result<
    PipelineResponse,
    StatusError,
>)
    ensures
        match r {
            Ok(response) => {
                &&& job_id@.len() > 0
                &&& response.run_id@ == run_id@
                &&& response.job_id@ == job_id@
                &&& opt_text(response.project_id) == opt_text(req.project_id)
                &&& kvs(response.outputs@) == seq![kv("correlation_id"@, correlation_id@)]
            },
            Err(err) => {
                &&& job_id@.len() == 0
                &&& err.code == StatusCode::Internal
                &&& err.message@ == "pipeline job_id is empty"@
            },
        },
{
    broadcast use lemma_kvs_push;

    if job_id.is_empty() {
        return Err(
            StatusError {
                code: StatusCode::Internal,
                message: "pipeline job_id is empty".to_owned(),
            },
        );
    }
    let mut outputs: Vec<KeyValue> = Vec::new();
    assert(kvs(outputs@) =~= Seq::empty());
    outputs.push(metric("correlation_id", correlation_id));
    Ok(
        PipelineResponse {
            run_id: run_id.to_owned(),
            job_id: job_id.to_owned(),
            project_id: req.project_id.clone(),
            outputs,
        },
    )
}

/// A run is known by the id that was asked for, without white space around it, or by a fresh one where
/// none was.
pub proof fn law_id_of_a_run(requested: Option<Seq<char>>, fresh: Seq<char>)
    ensures
        requested is Some && !blank(requested->0) ==> run_id_from(requested, fresh) == trimmed(
            requested->0,
        ),
        requested is None || blank(requested->0) ==> fresh.is_suffix_of(
            run_id_from(requested, fresh),
        ) && "run-"@.is_prefix_of(run_id_from(requested, fresh)),
{
    law_clean_id(requested);
    let id = "run-"@ + fresh;
    assert(id.skip("run-"@.len() as int) =~= fresh);
    assert(id.take("run-"@.len() as int) =~= "run-"@);
}

/// What ties a run to others is what was asked for, without white space around it, or else the run's
/// id.
pub proof fn law_correlation(raw: Seq<char>, run_id: Seq<char>)
    ensures
        !blank(raw) ==> correlation_from(raw, run_id) == trimmed(raw),
        blank(raw) ==> correlation_from(raw, run_id) == run_id,
{
}

/// The job of a run is told the run's ids, and those of the project, the target and the toolchain set
/// exactly where the request names them.
pub proof fn law_params_of_a_run(req: PipelineRequest, run_id: Seq<char>, correlation_id: Seq<char>)
    ensures
        ({
            let params = pipeline_params(req, run_id, correlation_id);
            &&& params.contains(kv("run_id"@, run_id))
            &&& params.contains(kv("correlation_id"@, correlation_id))
            &&& req.project_id matches Some(id) ==> params.contains(kv("project_id"@, id@))
            &&& req.target_id matches Some(id) ==> params.contains(kv("target_id"@, id@))
            &&& req.toolchain_set_id matches Some(id) ==> params.contains(
                kv("toolchain_set_id"@, id@),
            )
            &&& params.len() == 2 + (if req.project_id is Some {
                1int
            } else {
                0
            }) + (if req.target_id is Some {
                1int
            } else {
                0
            }) + (if req.toolchain_set_id is Some {
                1int
            } else {
                0
            })
        }),
{
    let params = pipeline_params(req, run_id, correlation_id);
    assert(params[0] == kv("run_id"@, run_id) && params[1] == kv("correlation_id"@, correlation_id));
    let t: int = if req.project_id is Some {
        3
    } else {
        2
    };
    if req.project_id is Some {
        assert(params[2] == kv("project_id"@, req.project_id->0@));
    }
    if req.target_id is Some {
        assert(params[t] == kv("target_id"@, req.target_id->0@));
    }
    if req.toolchain_set_id is Some {
        assert(params.last() == kv("toolchain_set_id"@, req.toolchain_set_id->0@));
    }
}

} // verus!
