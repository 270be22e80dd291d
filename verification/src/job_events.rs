//! Job events and jobs, and the lines in which they are shown.

use crate::config::AppConfig;
use crate::model::{
    kv_list_text, kv_pairs, kvs, millis_or_zero, or_else, or_zero, text_or, JobState, KeyValue,
};
use crate::text::{
    blank, bool_spelled, bool_text, cat3, cat4, cat5, cat7, cat9, dec_int, dec_nat,
    end_with_newline, i32_text, i64_text, is_blank, lemma_mentions_in_sum, lemma_mentions_itself,
    lemma_texts_push, mentions, newline_ended, opt_text, texts, u32_text,
};
use vstd::prelude::*;
use vstd::string::*;

verus! {

/// How far a job has come.
#[derive(Debug)]
pub struct JobProgress {
    pub percent: u32,
    pub phase: String,
    pub metrics: Vec<KeyValue>,
}

/// A piece of a job's output.
#[derive(Debug)]
pub struct LogChunk {
    pub stream: String,
    pub data: Vec<u8>,
    pub truncated: bool,
}

/// Why a job failed, with the numeric code of the error.
#[derive(Debug)]
pub struct JobError {
    pub message: String,
    pub code: i32,
}

/// What an event reports.
#[derive(Debug)]
pub enum JobPayload {
    StateChanged { new_state: JobState },
    Progress { progress: Option<JobProgress> },
    Log { chunk: Option<LogChunk> },
    Completed { summary: String, outputs: Vec<KeyValue> },
    Failed { error: Option<JobError> },
}

/// An event in the life of a job.
#[derive(Debug)]
pub struct JobEvent {
    pub at: Option<i64>,
    pub job_id: Option<String>,
    pub payload: Option<JobPayload>,
}

/// A job.
#[derive(Debug)]
pub struct Job {
    pub job_id: Option<String>,
    pub job_type: String,
    pub state: JobState,
    pub created_at: Option<i64>,
    pub started_at: Option<i64>,
    pub finished_at: Option<i64>,
    pub display_name: String,
    pub correlation_id: String,
    pub run_id: Option<String>,
    pub project_id: Option<String>,
    pub target_id: Option<String>,
    pub toolchain_set_id: Option<String>,
}

/// The text that `String::from_utf8_lossy` makes of bytes.
pub uninterp spec fn lossy_text(bytes: Seq<u8>) -> Seq<char>;

/// Bytes as text, with a replacement character for what is not valid UTF-8
/// (`String::from_utf8_lossy`). The result is a function of the bytes alone, and bytes that are
/// valid UTF-8 become the text that they encode; what invalid bytes become is left unsaid.
#[verifier::external_body]
pub(crate) fn text_of_bytes(bytes: &Vec<u8>) -> (r: String)
    ensures
        r@ == lossy_text(bytes@),
        vstd::utf8::valid_utf8(bytes@) ==> vstd::utf8::encode_utf8(r@) == bytes@,
{
    String::from_utf8_lossy(bytes).to_string()
}

/// The bytes of the log chunk that an event carries.
pub open spec fn log_bytes(event: JobEvent) -> Option<Seq<u8>> {
    match event.payload {
        Some(JobPayload::Log { chunk: Some(chunk) }) => Some(chunk.data@),
        _ => None,
    }
}

/// The text of the log chunk that an event carries.
pub open spec fn log_text(event: JobEvent) -> Option<Seq<char>> {
    match log_bytes(event) {
        Some(bytes) => Some(lossy_text(bytes)),
        None => None,
    }
}

/// The text of the log chunk that an event carries.
pub fn event_text(event: &JobEvent) -> (r: Option<String>)
    ensures
        opt_text(r) == log_text(*event),
{
    match &event.payload {
        Some(JobPayload::Log { chunk: Some(chunk) }) => Some(text_of_bytes(&chunk.data)),
        _ => None,
    }
}

/// An event as it is exported.
#[derive(Debug)]
pub struct LogExportEvent {
    pub at_unix_millis: i64,
    pub kind: String,
    pub summary: String,
    pub data: Option<String>,
}

/// `text`, with the pairs in brackets behind it, if there are any.
pub open spec fn with_pairs(text: Seq<char>, pairs: Seq<char>) -> Seq<char> {
    if pairs.len() == 0 {
        text
    } else {
        text + " ("@ + pairs + ")"@
    }
}

fn add_pairs(text: &str, pairs: &str) -> (r: String)
    ensures
        r@ == with_pairs(text@, pairs@),
{
    if pairs.is_empty() {
        text.to_owned()
    } else {
        cat4(text, " (", pairs, ")")
    }
}

/// `percent% phase`.
pub open spec fn progress_spelled(p: JobProgress) -> Seq<char> {
    dec_nat(p.percent as nat) + "% "@ + p.phase@
}

/// `percent% phase`.
pub fn progress_text(p: &JobProgress) -> (r: String)
    ensures
        r@ == progress_spelled(*p),
{
    cat3(u32_text(p.percent).as_str(), "% ", p.phase.as_str())
}

/// Where a log chunk comes from and whether it is whole.
pub open spec fn chunk_spelled(chunk: LogChunk) -> Seq<char> {
    "stream="@ + chunk.stream@ + " truncated="@ + bool_spelled(chunk.truncated)
}

fn chunk_label(chunk: &LogChunk) -> (r: String)
    ensures
        r@ == chunk_spelled(*chunk),
{
    cat4("stream=", chunk.stream.as_str(), " truncated=", bool_text(chunk.truncated))
}

/// `message (code)`.
pub open spec fn error_spelled(err: JobError) -> Seq<char> {
    err.message@ + " ("@ + dec_int(err.code as int) + ")"@
}

/// `message (code)`.
pub fn error_text(err: &JobError) -> (r: String)
    ensures
        r@ == error_spelled(*err),
{
    cat4(err.message.as_str(), " (", i32_text(err.code).as_str(), ")")
}

/// The name of what an event reports.
pub open spec fn event_kind(event: JobEvent) -> Seq<char> {
    match event.payload {
        Some(JobPayload::StateChanged { .. }) => "state_changed"@,
        Some(JobPayload::Progress { .. }) => "progress"@,
        Some(JobPayload::Log { .. }) => "log"@,
        Some(JobPayload::Completed { .. }) => "completed"@,
        Some(JobPayload::Failed { .. }) => "failed"@,
        None => "unknown"@,
    }
}

/// What an event reports, in short.
pub open spec fn event_summary(event: JobEvent) -> Seq<char> {
    match event.payload {
        Some(JobPayload::StateChanged { new_state }) => new_state.name(),
        Some(JobPayload::Progress { progress }) => match progress {
            Some(p) => with_pairs(progress_spelled(p), kv_list_text(kvs(p.metrics@))),
            None => "missing progress payload"@,
        },
        Some(JobPayload::Log { chunk }) => match chunk {
            Some(c) => chunk_spelled(c),
            None => "missing log chunk"@,
        },
        Some(JobPayload::Completed { summary, outputs }) => with_pairs(
            summary@,
            kv_list_text(kvs(outputs@)),
        ),
        Some(JobPayload::Failed { error }) => match error {
            Some(err) => error_spelled(err),
            None => "failed"@,
        },
        None => "missing payload"@,
    }
}

fn kind_label(event: &JobEvent) -> (r: &'static str)
    ensures
        r@ == event_kind(*event),
{
    match &event.payload {
        Some(JobPayload::StateChanged { .. }) => "state_changed",
        Some(JobPayload::Progress { .. }) => "progress",
        Some(JobPayload::Log { .. }) => "log",
        Some(JobPayload::Completed { .. }) => "completed",
        Some(JobPayload::Failed { .. }) => "failed",
        None => "unknown",
    }
}

fn summary_text(event: &JobEvent) -> (r: String)
    ensures
        r@ == event_summary(*event),
{
    match &event.payload {
        Some(JobPayload::StateChanged { new_state }) => new_state.label().to_owned(),
        Some(JobPayload::Progress { progress }) => match progress {
            Some(p) => add_pairs(progress_text(p).as_str(), kv_pairs(&p.metrics).as_str()),
            None => "missing progress payload".to_owned(),
        },
        Some(JobPayload::Log { chunk }) => match chunk {
            Some(c) => chunk_label(c),
            None => "missing log chunk".to_owned(),
        },
        Some(JobPayload::Completed { summary, outputs }) => add_pairs(
            summary.as_str(),
            kv_pairs(outputs).as_str(),
        ),
        Some(JobPayload::Failed { error }) => match error {
            Some(err) => error_text(err),
            None => "failed".to_owned(),
        },
        None => "missing payload".to_owned(),
    }
}

/// What a `LogExportEvent` holds, mathematically.
#[verifier::ext_equal]
pub struct LogExportView {
    pub at_unix_millis: i64,
    pub kind: Seq<char>,
    pub summary: Seq<char>,
    pub data: Option<Seq<char>>,
}

impl View for LogExportEvent {
    type V = LogExportView;

    open spec fn view(&self) -> LogExportView {
        LogExportView {
            at_unix_millis: self.at_unix_millis,
            kind: self.kind@,
            summary: self.summary@,
            data: opt_text(self.data),
        }
    }
}

/// The export of an event whose log text is `text`.
pub open spec fn exported(event: JobEvent, text: Option<Seq<char>>) -> LogExportView {
    LogExportView {
        at_unix_millis: or_zero(event.at),
        kind: event_kind(event),
        summary: event_summary(event),
        data: text,
    }
}

impl LogExportEvent {
    /// The export of an event whose log text is `text`.
    pub fn with_text(event: &JobEvent, text: Option<String>) -> (r: Self)
        ensures
            r@ == exported(*event, opt_text(text)),
    {
        LogExportEvent {
            at_unix_millis: millis_or_zero(event.at),
            kind: kind_label(event).to_owned(),
            summary: summary_text(event),
            data: text,
        }
    }

    /// The export of an event.
    pub fn from_proto(event: &JobEvent) -> (r: Self)
        ensures
            r@ == exported(*event, log_text(*event)),
    {
        LogExportEvent::with_text(event, event_text(event))
    }
}

/// The lines that show an event whose log text is `text`.
pub open spec fn event_lines(event: JobEvent, text: Option<Seq<char>>) -> Seq<Seq<char>> {
    let head = dec_int(or_zero(event.at) as int) + " "@ + event_kind(event) + ": "@
        + event_summary(event) + "\n"@;
    match text {
        Some(data) => seq![head, newline_ended(data)],
        None => seq![head],
    }
}

/// The lines that show an event whose log text is `text`.
pub fn job_event_lines_with(event: &JobEvent, text: Option<String>) -> (r: Vec<String>)
    ensures
        texts(r@) == event_lines(*event, opt_text(text)),
{
    broadcast use lemma_texts_push;

    let at: String = i64_text(millis_or_zero(event.at));
    let mut head: String = cat5(
        at.as_str(),
        " ",
        kind_label(event),
        ": ",
        summary_text(event).as_str(),
    );
    head.append("\n");
    let mut lines: Vec<String> = Vec::new();
    assert(texts(lines@) =~= Seq::empty());
    lines.push(head);
    if let Some(data) = text {
        lines.push(end_with_newline(data));
    }
    lines
}

/// The lines that show an event.
pub fn job_event_lines(event: &JobEvent) -> (r: Vec<String>)
    ensures
        texts(r@) == event_lines(*event, log_text(*event)),
{
    job_event_lines_with(event, event_text(event))
}

/// The line that tells which job a log chunk belongs to and where it comes from.
pub open spec fn chunk_line(job_id: Seq<char>, chunk: LogChunk) -> Seq<char> {
    "job "@ + job_id + ": log: "@ + chunk_spelled(chunk) + "\n"@
}

fn chunk_head(job_id: &str, chunk: &LogChunk) -> (r: String)
    ensures
        r@ == chunk_line(job_id@, *chunk),
{
    cat5("job ", job_id, ": log: ", chunk_label(chunk).as_str(), "\n")
}

/// The lines that show an event of a job that is being watched, given its log text.
pub open spec fn stream_lines(job_id: Seq<char>, event: JobEvent, text: Option<Seq<char>>) -> Seq<
    Seq<char>,
> {
    match event.payload {
        Some(JobPayload::Log { chunk }) => match (chunk, text) {
            (Some(c), Some(data)) => if data.len() == 0 {
                seq![chunk_line(job_id, c)]
            } else {
                seq![newline_ended(data)]
            },
            _ => seq!["job "@ + job_id + ": log: missing chunk\n"@],
        },
        _ => seq![
            "job "@ + job_id + ": "@ + dec_int(or_zero(event.at) as int) + " "@ + event_kind(event)
                + ": "@ + event_summary(event) + "\n"@,
        ],
    }
}

fn one_line(line: String) -> (r: Vec<String>)
    ensures
        texts(r@) == seq![line@],
{
    broadcast use lemma_texts_push;

    let mut lines: Vec<String> = Vec::new();
    assert(texts(lines@) =~= Seq::empty());
    lines.push(line);
    lines
}

/// The lines that show an event of a job that is being watched, given its log text.
pub fn stream_job_event_lines_with(job_id: &str, event: &JobEvent, text: Option<String>) -> (r: Vec<
    String,
>)
    ensures
        texts(r@) == stream_lines(job_id@, *event, opt_text(text)),
{
    match &event.payload {
        Some(JobPayload::Log { chunk }) => match (chunk, text) {
            (Some(c), Some(data)) => if data.as_str().is_empty() {
                one_line(chunk_head(job_id, c))
            } else {
                one_line(end_with_newline(data))
            },
            _ => one_line(cat3("job ", job_id, ": log: missing chunk\n")),
        },
        _ => {
            let at: String = i64_text(millis_or_zero(event.at));
            one_line(
                cat9(
                    "job ",
                    job_id,
                    ": ",
                    at.as_str(),
                    " ",
                    kind_label(event),
                    ": ",
                    summary_text(event).as_str(),
                    "\n",
                ),
            )
        },
    }
}

/// The lines that show an event of a job that is being watched.
pub fn stream_job_event_lines(job_id: &str, event: &JobEvent) -> (r: Vec<String>)
    ensures
        texts(r@) == stream_lines(job_id@, *event, log_text(*event)),
{
    stream_job_event_lines_with(job_id, event, event_text(event))
}

/// The lines that show an event of a run that is being watched, given its log text.
pub open spec fn run_lines(event: JobEvent, text: Option<Seq<char>>) -> Seq<Seq<char>> {
    let job_id = or_else(opt_text(event.job_id), "-"@);
    match event.payload {
        Some(JobPayload::Log { chunk: Some(c) }) => match text {
            Some(data) => if data.len() == 0 {
                seq![chunk_line(job_id, c)]
            } else {
                seq![chunk_line(job_id, c), newline_ended(data)]
            },
            None => stream_lines(job_id, event, text),
        },
        _ => stream_lines(job_id, event, text),
    }
}

/// The lines that show an event of a run that is being watched, given its log text.
pub fn run_stream_lines_with(event: &JobEvent, text: Option<String>) -> (r: Vec<String>)
    ensures
        texts(r@) == run_lines(*event, opt_text(text)),
{
    broadcast use lemma_texts_push;

    let job_id: &str = text_or(&event.job_id, "-");
    if let Some(JobPayload::Log { chunk: Some(c) }) = &event.payload {
        if let Some(data) = text {
            let empty: bool = data.as_str().is_empty();
            let mut lines: Vec<String> = one_line(chunk_head(job_id, c));
            if !empty {
                lines.push(end_with_newline(data));
            }
            return lines;
        }
        return stream_job_event_lines_with(job_id, event, None);
    }
    stream_job_event_lines_with(job_id, event, text)
}

/// The lines that show an event of a run that is being watched.
pub fn run_stream_lines(event: &JobEvent) -> (r: Vec<String>)
    ensures
        texts(r@) == run_lines(*event, log_text(*event)),
{
    run_stream_lines_with(event, event_text(event))
}

/// A job in short.
#[derive(Debug)]
pub struct JobSummary {
    pub job_id: String,
    pub job_type: String,
    pub state: String,
    pub created_at_unix_millis: i64,
    pub started_at_unix_millis: Option<i64>,
    pub finished_at_unix_millis: Option<i64>,
    pub display_name: String,
    pub correlation_id: String,
    pub run_id: String,
    pub project_id: String,
    pub target_id: String,
    pub toolchain_set_id: String,
}

/// What a `JobSummary` holds, mathematically.
#[verifier::ext_equal]
pub struct JobSummaryView {
    pub job_id: Seq<char>,
    pub job_type: Seq<char>,
    pub state: Seq<char>,
    pub created_at_unix_millis: i64,
    pub started_at_unix_millis: Option<i64>,
    pub finished_at_unix_millis: Option<i64>,
    pub display_name: Seq<char>,
    pub correlation_id: Seq<char>,
    pub run_id: Seq<char>,
    pub project_id: Seq<char>,
    pub target_id: Seq<char>,
    pub toolchain_set_id: Seq<char>,
}

impl View for JobSummary {
    type V = JobSummaryView;

    open spec fn view(&self) -> JobSummaryView {
        JobSummaryView {
            job_id: self.job_id@,
            job_type: self.job_type@,
            state: self.state@,
            created_at_unix_millis: self.created_at_unix_millis,
            started_at_unix_millis: self.started_at_unix_millis,
            finished_at_unix_millis: self.finished_at_unix_millis,
            display_name: self.display_name@,
            correlation_id: self.correlation_id@,
            run_id: self.run_id@,
            project_id: self.project_id@,
            target_id: self.target_id@,
            toolchain_set_id: self.toolchain_set_id@,
        }
    }
}

/// The job in short.
pub open spec fn summarized(job: Job) -> JobSummaryView {
    JobSummaryView {
        job_id: or_else(opt_text(job.job_id), ""@),
        job_type: job.job_type@,
        state: job.state.name(),
        created_at_unix_millis: or_zero(job.created_at),
        started_at_unix_millis: job.started_at,
        finished_at_unix_millis: job.finished_at,
        display_name: job.display_name@,
        correlation_id: job.correlation_id@,
        run_id: or_else(opt_text(job.run_id), ""@),
        project_id: or_else(opt_text(job.project_id), ""@),
        target_id: or_else(opt_text(job.target_id), ""@),
        toolchain_set_id: or_else(opt_text(job.toolchain_set_id), ""@),
    }
}

impl JobSummary {
    /// The job in short.
    pub fn from_proto(job: &Job) -> (r: Self)
        ensures
            r@ == summarized(*job),
    {
        JobSummary {
            job_id: text_or(&job.job_id, "").to_owned(),
            job_type: job.job_type.clone(),
            state: job.state.label().to_owned(),
            created_at_unix_millis: millis_or_zero(job.created_at),
            started_at_unix_millis: job.started_at,
            finished_at_unix_millis: job.finished_at,
            display_name: job.display_name.clone(),
            correlation_id: job.correlation_id.clone(),
            run_id: text_or(&job.run_id, "").to_owned(),
            project_id: text_or(&job.project_id, "").to_owned(),
            target_id: text_or(&job.target_id, "").to_owned(),
            toolchain_set_id: text_or(&job.toolchain_set_id, "").to_owned(),
        }
    }
}

/// What the export of a job's log holds.
#[derive(Debug)]
pub struct UiLogExport {
    pub exported_at_unix_millis: i64,
    pub job_id: String,
    pub config: AppConfig,
    pub job: Option<JobSummary>,
    pub events: Vec<LogExportEvent>,
}

/// What a `UiLogExport` holds, mathematically.
#[verifier::ext_equal]
pub struct UiLogExportView {
    pub exported_at_unix_millis: i64,
    pub job_id: Seq<char>,
    pub config: AppConfig,
    pub job: Option<JobSummaryView>,
    pub events: Seq<LogExportView>,
}

/// The texts of exported events.
pub open spec fn export_views(events: Seq<LogExportEvent>) -> Seq<LogExportView> {
    Seq::new(events.len(), |i: int| events[i]@)
}

/// The exports of events.
pub open spec fn exports_of(events: Seq<JobEvent>) -> Seq<LogExportView> {
    Seq::new(events.len(), |i: int| exported(events[i], log_text(events[i])))
}

impl View for UiLogExport {
    type V = UiLogExportView;

    open spec fn view(&self) -> UiLogExportView {
        UiLogExportView {
            exported_at_unix_millis: self.exported_at_unix_millis,
            job_id: self.job_id@,
            config: self.config,
            job: match self.job {
                Some(j) => Some(j@),
                None => None,
            },
            events: export_views(self.events@),
        }
    }
}

/// `s`, or a dash where it is blank.
pub open spec fn or_dash(s: Seq<char>) -> Seq<char> {
    if blank(s) {
        "-"@
    } else {
        s
    }
}

/// `s`, or a dash where it is blank.
pub fn text_or_dash(s: &str) -> (r: &str)
    ensures
        r@ == or_dash(s@),
{
    if is_blank(s) {
        "-"
    } else {
        s
    }
}

/// The row of a job in a list.
pub open spec fn job_row(job: Job) -> Seq<char> {
    "- "@ + or_else(opt_text(job.job_id), "-"@) + " type="@ + job.job_type@ + " state="@
        + job.state.name() + " run_id="@ + or_else(opt_text(job.run_id), "-"@) + " corr="@
        + or_dash(job.correlation_id@) + " created="@ + dec_int(or_zero(job.created_at) as int)
        + " finished="@ + dec_int(or_zero(job.finished_at) as int) + " display="@
        + job.display_name@ + "\n"@
}

/// The row of a job in a list.
pub fn format_job_row(job: &Job) -> (r: String)
    ensures
        r@ == job_row(*job),
{
    let mut line: String = cat7(
        "- ",
        text_or(&job.job_id, "-"),
        " type=",
        job.job_type.as_str(),
        " state=",
        job.state.label(),
        " run_id=",
    );
    line.append(text_or(&job.run_id, "-"));
    line.append(" corr=");
    line.append(text_or_dash(job.correlation_id.as_str()));
    line.append(" created=");
    line.append(i64_text(millis_or_zero(job.created_at)).as_str());
    line.append(" finished=");
    line.append(i64_text(millis_or_zero(job.finished_at)).as_str());
    line.append(" display=");
    line.append(job.display_name.as_str());
    line.append("\n");
    line
}

/// The name of a job's state.
pub fn job_state_label(job: &Job) -> (r: String)
    ensures
        r@ == job.state.name(),
{
    job.state.label().to_owned()
}

/// The notice that a job is under way.
pub open spec fn active_job_text(job: Job) -> Seq<char> {
    "latest job is "@ + job.state.name() + " job_id="@ + or_else(opt_text(job.job_id), "-"@)
        + " job_type="@ + or_dash(job.job_type@) + " created="@ + dec_int(
        or_zero(job.created_at) as int,
    )
}

/// The notice that a job is under way.
pub fn format_active_job(job: &Job) -> (r: String)
    ensures
        r@ == active_job_text(*job),
{
    let mut line: String = cat7(
        "latest job is ",
        job.state.label(),
        " job_id=",
        text_or(&job.job_id, "-"),
        " job_type=",
        text_or_dash(job.job_type.as_str()),
        " created=",
    );
    line.append(i64_text(millis_or_zero(job.created_at)).as_str());
    line
}

/// No job was created later than `jobs[i]`, and none behind it at the same time.
pub open spec fn latest_at(jobs: Seq<Job>, i: int) -> bool {
    &&& 0 <= i < jobs.len()
    &&& forall|j: int|
        0 <= j < jobs.len() ==> or_zero((#[trigger] jobs[j]).created_at) <= or_zero(
            jobs[i].created_at,
        )
    &&& forall|j: int|
        i < j < jobs.len() ==> or_zero((#[trigger] jobs[j]).created_at) < or_zero(
            jobs[i].created_at,
        )
}

/// The place of the job that was created last; of several at the same time, the last one.
pub fn latest_job(jobs: &Vec<Job>) -> (r: Option<usize>)
    ensures
        match r {
            Some(i) => latest_at(jobs@, i as int),
            None => jobs@.len() == 0,
        },
{
    if jobs.len() == 0 {
        return None;
    }
    let mut best: usize = 0;
    for i in 1..jobs.len()
        invariant
            0 <= best < i <= jobs@.len(),
            forall|j: int|
                0 <= j < i ==> or_zero((#[trigger] jobs@[j]).created_at) <= or_zero(
                    jobs@[best as int].created_at,
                ),
            forall|j: int|
                best < j < i ==> or_zero((#[trigger] jobs@[j]).created_at) < or_zero(
                    jobs@[best as int].created_at,
                ),
    {
        if millis_or_zero(jobs[i].created_at) >= millis_or_zero(jobs[best].created_at) {
            best = i;
        }
    }
    Some(best)
}

/// What an event says of the job's end.
pub open spec fn end_told(payload: Option<JobPayload>) -> Option<JobState> {
    match payload {
        Some(JobPayload::Completed { .. }) => Some(JobState::Success),
        Some(JobPayload::Failed { .. }) => Some(JobState::Failed),
        Some(JobPayload::StateChanged { new_state }) => if new_state.terminal() {
            Some(new_state)
        } else {
            None
        },
        _ => None,
    }
}

/// The state in which a job ended, as far as one event tells; waiting goes on otherwise.
pub fn job_end(payload: &Option<JobPayload>) -> (r: Option<JobState>)
    ensures
        r == end_told(*payload),
{
    match payload {
        Some(JobPayload::Completed { .. }) => Some(JobState::Success),
        Some(JobPayload::Failed { .. }) => Some(JobState::Failed),
        Some(JobPayload::StateChanged { new_state }) => if new_state.is_terminal() {
            Some(*new_state)
        } else {
            None
        },
        _ => None,
    }
}

/// The state of a job that is asked for when its events told no end: unspecified where there is no
/// such job.
pub fn state_without_end(job: &Option<Job>) -> (r: JobState)
    ensures
        r == match job {
            Some(j) => j.state,
            None => JobState::Unspecified,
        },
{
    match job {
        Some(j) => j.state,
        None => JobState::Unspecified,
    }
}

/// What is exported of a job is what the job holds, each in its place.
pub proof fn law_summary_of_a_job(job: Job)
    ensures
        ({
            let s = summarized(job);
            &&& Some(s.job_id) == opt_text(job.job_id) || (job.job_id is None && s.job_id == ""@)
            &&& s.job_type == job.job_type@
            &&& s.state == job.state.name()
            &&& s.created_at_unix_millis == or_zero(job.created_at)
            &&& s.started_at_unix_millis == job.started_at
            &&& s.finished_at_unix_millis == job.finished_at
            &&& s.display_name == job.display_name@
            &&& s.correlation_id == job.correlation_id@
            &&& Some(s.run_id) == opt_text(job.run_id) || (job.run_id is None && s.run_id == ""@)
            &&& Some(s.project_id) == opt_text(job.project_id) || (job.project_id is None
                && s.project_id == ""@)
            &&& Some(s.target_id) == opt_text(job.target_id) || (job.target_id is None
                && s.target_id == ""@)
            &&& Some(s.toolchain_set_id) == opt_text(job.toolchain_set_id) || (
            job.toolchain_set_id is None && s.toolchain_set_id == ""@)
        }),
{
}

/// Every event is exported, in order, at its time; with its text exactly where it is a piece of
/// output.
pub proof fn law_export_of_events(events: Seq<JobEvent>, i: int)
    requires
        0 <= i < events.len(),
    ensures
        exports_of(events).len() == events.len(),
        exports_of(events)[i].at_unix_millis == or_zero(events[i].at),
        exports_of(events)[i].data is Some <==> (events[i].payload matches Some(
            JobPayload::Log { chunk },
        ) && chunk is Some),
        events[i].payload matches Some(JobPayload::Log { chunk: Some(c) }) ==> exports_of(
            events,
        )[i].data == Some(lossy_text(c.data@)),
{
}

/// Events of different kinds are shown under different names.
pub proof fn law_event_kinds_differ(a: JobEvent, b: JobEvent)
    requires
        event_kind(a) == event_kind(b),
    ensures
        a.payload is None <==> b.payload is None,
        a.payload matches Some(p) ==> b.payload matches Some(q) && {
            &&& p is StateChanged <==> q is StateChanged
            &&& p is Progress <==> q is Progress
            &&& p is Log <==> q is Log
            &&& p is Completed <==> q is Completed
            &&& p is Failed <==> q is Failed
        },
{
    reveal_strlit("state_changed");
    reveal_strlit("progress");
    reveal_strlit("log");
    reveal_strlit("completed");
    reveal_strlit("failed");
    reveal_strlit("unknown");
    assert("state_changed"@[0] == 's' && "progress"@[0] == 'p' && "log"@[0] == 'l'
        && "completed"@[0] == 'c' && "failed"@[0] == 'f' && "unknown"@[0] == 'u');
}

/// An event tells what it holds: the name of the new state, the percentage and the phase, the
/// summary of what was completed, the message of what failed.
pub proof fn law_events_tell_what_they_hold(event: JobEvent)
    ensures
        ({
            let told = event_summary(event);
            match event.payload {
                Some(JobPayload::StateChanged { new_state }) => told == new_state.name(),
                Some(JobPayload::Progress { progress: Some(p) }) => mentions(
                    told,
                    dec_nat(p.percent as nat),
                ) && mentions(told, p.phase@),
                Some(JobPayload::Log { chunk: Some(c) }) => mentions(told, c.stream@),
                Some(JobPayload::Completed { summary, .. }) => mentions(told, summary@),
                Some(JobPayload::Failed { error: Some(err) }) => mentions(told, err.message@)
                    && mentions(told, dec_int(err.code as int)),
                _ => true,
            }
        }),
        event_lines(event, log_text(event)).len() > 0,
        mentions(event_lines(event, log_text(event))[0], event_summary(event)),
        mentions(event_lines(event, log_text(event))[0], event_kind(event)),
        mentions(event_lines(event, log_text(event))[0], dec_int(or_zero(event.at) as int)),
        log_text(event) matches Some(data) ==> event_lines(event, log_text(event)).len() == 2
            && event_lines(event, log_text(event))[1] == newline_ended(data),
        log_text(event) is None ==> event_lines(event, log_text(event)).len() == 1,
{
    broadcast use {lemma_mentions_itself, lemma_mentions_in_sum};

}

/// The lines of a stream name the job and what the event tells; the output of a job is shown as it is.
pub proof fn law_streams_tell_what_events_hold(job_id: Seq<char>, event: JobEvent)
    ensures
        ({
            let lines = stream_lines(job_id, event, log_text(event));
            &&& lines.len() == 1
            &&& log_text(event) matches Some(data) ==> {
                &&& data.len() > 0 ==> lines[0] == newline_ended(data)
                &&& data.len() == 0 ==> mentions(lines[0], job_id)
            }
            &&& log_text(event) is None ==> mentions(lines[0], job_id)
            &&& !(event.payload matches Some(JobPayload::Log { .. })) ==> mentions(
                lines[0],
                event_summary(event),
            ) && mentions(lines[0], event_kind(event))
        }),
{
    broadcast use {lemma_mentions_itself, lemma_mentions_in_sum};

}

/// A job has come to its end exactly with an event that it completed, that it failed, or that its
/// state is a last one; and the end is what the event says: completed is a success, failed is none.
pub proof fn law_end_of_a_job(payload: Option<JobPayload>)
    ensures
        payload matches Some(JobPayload::Completed { .. }) ==> end_told(payload) == Some(
            JobState::Success,
        ),
        payload matches Some(JobPayload::Failed { .. }) ==> end_told(payload) == Some(
            JobState::Failed,
        ),
        payload matches Some(JobPayload::StateChanged { new_state }) ==> {
            &&& end_told(payload) is Some <==> new_state == JobState::Success || new_state
                == JobState::Failed || new_state == JobState::Cancelled
            &&& end_told(payload) matches Some(state) ==> state == new_state
        },
        payload is None || payload->0 is Progress || payload->0 is Log ==> end_told(payload) is None,
{
}

/// The job that keeps work on the state back is named with its id, its type and its state.
pub proof fn law_active_job_is_named(job: Job)
    ensures
        mentions(active_job_text(job), or_else(opt_text(job.job_id), "-"@)),
        mentions(active_job_text(job), job.state.name()),
        !blank(job.job_type@) ==> mentions(active_job_text(job), job.job_type@),
{
    broadcast use {lemma_mentions_itself, lemma_mentions_in_sum};

}

/// What is seen of an exported event is what it holds, each part in its place.
pub proof fn law_exported_event_is_seen_whole(event: LogExportEvent)
    ensures
        event@.at_unix_millis == event.at_unix_millis,
        event@.kind == event.kind@,
        event@.summary == event.summary@,
        event@.data == opt_text(event.data),
{
}

/// What is seen of a summary is what it holds, each part in its place.
pub proof fn law_summary_is_seen_whole(job: JobSummary)
    ensures
        job@.job_id == job.job_id@,
        job@.job_type == job.job_type@,
        job@.state == job.state@,
        job@.created_at_unix_millis == job.created_at_unix_millis,
        job@.started_at_unix_millis == job.started_at_unix_millis,
        job@.finished_at_unix_millis == job.finished_at_unix_millis,
        job@.display_name == job.display_name@,
        job@.correlation_id == job.correlation_id@,
        job@.run_id == job.run_id@,
        job@.project_id == job.project_id@,
        job@.target_id == job.target_id@,
        job@.toolchain_set_id == job.toolchain_set_id@,
{
}

/// Pairs stand behind a text exactly where there are any, and the text stays.
pub proof fn law_with_pairs(text: Seq<char>, pairs: Seq<char>)
    ensures
        text.is_prefix_of(with_pairs(text, pairs)),
        pairs.len() == 0 ==> with_pairs(text, pairs) == text,
        pairs.len() > 0 ==> mentions(with_pairs(text, pairs), pairs) && with_pairs(text, pairs).len()
            > text.len() + pairs.len(),
{
    broadcast use {lemma_mentions_itself, lemma_mentions_in_sum};

    reveal_strlit(")");
    assert(with_pairs(text, pairs).take(text.len() as int) =~= text);
}

/// An event of a run is shown with the job that it is of; and the output of a job is shown as it is,
/// behind a line that names the job.
pub proof fn law_runs_tell_what_events_hold(event: JobEvent)
    ensures
        ({
            let lines = run_lines(event, log_text(event));
            let job_id = or_else(opt_text(event.job_id), "-"@);
            &&& lines.len() > 0
            &&& mentions(lines[0], job_id)
            &&& log_text(event) matches Some(data) ==> data.len() > 0 ==> lines.len() == 2
                && lines[1] == newline_ended(data)
            &&& log_text(event) is None || log_text(event)->0.len() == 0 ==> lines.len() == 1
            &&& !(event.payload matches Some(JobPayload::Log { .. })) ==> mentions(
                lines[0],
                event_summary(event),
            ) && mentions(lines[0], event_kind(event))
        }),
{
    broadcast use {lemma_mentions_itself, lemma_mentions_in_sum};

}

} // verus!
