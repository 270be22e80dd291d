//! Streams of events: what each event of a watched job or run tells the interface.

use crate::commands::{AppEvent, AppEventView};
use crate::job_events::{
    event_lines, event_text, job_event_lines_with, log_text, progress_spelled, progress_text,
    run_lines, run_stream_lines_with, stream_job_event_lines_with, stream_lines, JobEvent,
    JobPayload, JobProgress,
};
use crate::model::{JobState, KeyValue};
use crate::text::{blank, cat3, cat5, opt_text, text_eq, trim, trimmed};
use crate::worker::builds::value_of;
use crate::worker::turn::{logs, target_update, ui, EffectView, Out};
use vstd::prelude::*;
use vstd::string::*;

verus! {

/// How long the same percentage is not shown again, in nanoseconds.
pub const PROGRESS_THROTTLE_NANOS: u128 = 250_000_000;

/// What an event of a stream tells, and whether the stream is read further.
#[derive(Debug)]
pub struct Told {
    pub out: Out,
    pub more: bool,
}

/// What a `Told` holds, mathematically.
#[verifier::ext_equal]
pub struct ToldView {
    pub effects: Seq<EffectView>,
    pub more: bool,
}

impl View for Told {
    type V = ToldView;

    open spec fn view(&self) -> ToldView {
        ToldView { effects: self.out@, more: self.more }
    }
}

/// What the job control page remembers while it watches a job: the percentage that it showed last,
/// and when, in nanoseconds of a clock that never runs backwards.
#[derive(Clone, Copy, Debug)]
pub struct HomeWatch {
    pub last: Option<(u32, u128)>,
}

/// The percentage is shown: it is the first one, it is another one, or the last time is long ago.
pub open spec fn shows_progress(watch: HomeWatch, percent: u32, now: u128) -> bool {
    match watch.last {
        Some((last_percent, last_at)) => percent != last_percent || now - last_at
            >= PROGRESS_THROTTLE_NANOS,
        None => true,
    }
}

/// What the page remembers after an event.
pub open spec fn watch_after(watch: HomeWatch, event: JobEvent, now: u128) -> HomeWatch {
    match event.payload {
        Some(JobPayload::Progress { progress: Some(p) }) => if shows_progress(
            watch,
            p.percent,
            now,
        ) {
            HomeWatch { last: Some((p.percent, now)) }
        } else {
            watch
        },
        _ => watch,
    }
}

/// What an event changes on the page, besides its log.
pub open spec fn home_status(watch: HomeWatch, event: JobEvent, now: u128) -> Seq<EffectView> {
    match event.payload {
        Some(JobPayload::StateChanged { new_state }) => {
            let state = ui(AppEventView::HomeState { state: new_state.name() });
            if new_state.terminal() {
                seq![state, ui(AppEventView::HomeResult { result: new_state.name() })]
            } else {
                seq![state]
            }
        },
        Some(JobPayload::Progress { progress: Some(p) }) => if shows_progress(
            watch,
            p.percent,
            now,
        ) {
            seq![ui(AppEventView::HomeProgress { progress: progress_spelled(p) })]
        } else {
            Seq::empty()
        },
        Some(JobPayload::Completed { summary, .. }) => seq![
            ui(AppEventView::HomeState { state: "Success"@ }),
            ui(AppEventView::HomeResult { result: summary@ }),
        ],
        Some(JobPayload::Failed { error }) => seq![
            ui(AppEventView::HomeState { state: "Failed"@ }),
            ui(
                AppEventView::HomeResult {
                    result: match error {
                        Some(err) => err.message@,
                        None => "failed"@,
                    },
                },
            ),
        ],
        _ => Seq::empty(),
    }
}

/// The event ends the watching.
pub open spec fn ends_watching(event: JobEvent) -> bool {
    match event.payload {
        Some(JobPayload::Completed { .. }) => true,
        Some(JobPayload::Failed { .. }) => true,
        Some(JobPayload::StateChanged { new_state }) => new_state == JobState::Cancelled,
        _ => false,
    }
}

/// What an event of the watched job, with its log text, tells the job control page.
pub open spec fn home_told(
    watch: HomeWatch,
    event: JobEvent,
    text: Option<Seq<char>>,
    now: u128,
) -> ToldView {
    ToldView {
        effects: home_status(watch, event, now) + logs("home"@, event_lines(event, text)),
        more: !ends_watching(event),
    }
}

/// A percentage that was just shown is not shown again, and stays remembered as it is, until it
/// changes or the time has passed.
pub proof fn law_progress_throttled(
    watch: HomeWatch,
    first: JobEvent,
    second: JobEvent,
    p: JobProgress,
    q: JobProgress,
    then_at: u128,
    now: u128,
)
    requires
        first.payload == Some(JobPayload::Progress { progress: Some(p) }),
        second.payload == Some(JobPayload::Progress { progress: Some(q) }),
        shows_progress(watch, p.percent, then_at),
        p.percent == q.percent,
        now - then_at < PROGRESS_THROTTLE_NANOS,
    ensures
        home_status(watch_after(watch, first, then_at), second, now).len() == 0,
        watch_after(watch_after(watch, first, then_at), second, now) == watch_after(
            watch,
            first,
            then_at,
        ),
{
}

impl HomeWatch {
    /// Nothing yet.
    pub fn new() -> (r: Self)
        ensures
            r.last is None,
    {
        HomeWatch { last: None }
    }

    fn due(&self, percent: u32, now: u128) -> (r: bool)
        ensures
            r == shows_progress(*self, percent, now),
    {
        match self.last {
            Some((last_percent, last_at)) => {
                percent != last_percent || (now >= last_at && now - last_at
                    >= PROGRESS_THROTTLE_NANOS)
            },
            None => true,
        }
    }

    fn push_status(&mut self, out: &mut Out, event: &JobEvent, now: u128)
        ensures
            *final(self) == watch_after(*old(self), *event, now),
            final(out)@ == old(out)@ + home_status(*old(self), *event, now),
    {
        let ghost before = out@;
        let ghost watch = *self;
        match &event.payload {
            Some(JobPayload::StateChanged { new_state }) => {
                out.ui(AppEvent::HomeState { state: new_state.label().to_owned() });
                if new_state.is_terminal() {
                    out.ui(AppEvent::HomeResult { result: new_state.label().to_owned() });
                }
            },
            Some(JobPayload::Progress { progress: Some(p) }) => {
                if self.due(p.percent, now) {
                    out.ui(AppEvent::HomeProgress { progress: progress_text(p) });
                    self.last = Some((p.percent, now));
                }
            },
            Some(JobPayload::Completed { summary, .. }) => {
                out.ui(AppEvent::HomeState { state: "Success".to_owned() });
                out.ui(AppEvent::HomeResult { result: summary.clone() });
            },
            Some(JobPayload::Failed { error }) => {
                out.ui(AppEvent::HomeState { state: "Failed".to_owned() });
                let result: String = match error {
                    Some(err) => err.message.clone(),
                    None => "failed".to_owned(),
                };
                out.ui(AppEvent::HomeResult { result });
            },
            _ => {},
        }
        assert(out@ =~= before + home_status(watch, *event, now));
    }

    /// Takes an event of the watched job with its log text.
    pub fn event_with(&mut self, event: &JobEvent, text: Option<String>, now: u128) -> (r: Told)
        ensures
            *final(self) == watch_after(*old(self), *event, now),
            r@ == home_told(*old(self), *event, opt_text(text), now),
    {
        let mut out: Out = Out::new();
        self.push_status(&mut out, event, now);
        out.log_all("home", job_event_lines_with(event, text));
        let ends: bool = match &event.payload {
            Some(JobPayload::Completed { .. }) => true,
            Some(JobPayload::Failed { .. }) => true,
            Some(JobPayload::StateChanged { new_state }) => *new_state == JobState::Cancelled,
            _ => false,
        };
        let told = Told { out, more: !ends };
        assert(told@.effects =~= home_told(*old(self), *event, opt_text(text), now).effects);
        told
    }

    /// Takes an event of the watched job.
    pub fn event(&mut self, event: &JobEvent, now: u128) -> (r: Told)
        ensures
            *final(self) == watch_after(*old(self), *event, now),
            r@ == home_told(*old(self), *event, log_text(*event), now),
    {
        self.event_with(event, event_text(event), now)
    }
}

/// What a finished job changes elsewhere: a build's APK, or a device that came up.
pub open spec fn completion_effects(page: Seq<char>, event: JobEvent) -> Seq<EffectView> {
    match event.payload {
        Some(JobPayload::Completed { outputs, .. }) => {
            if page == "console"@ {
                match value_of(outputs@, "apk_path"@) {
                    Some(path) => seq![ui(AppEventView::SetLastBuildApk { apk_path: path })],
                    None => Seq::empty(),
                }
            } else if page == "targets"@ {
                match value_of(outputs@, "adb_serial"@) {
                    Some(serial) => if blank(serial) {
                        Seq::empty()
                    } else {
                        seq![target_update(trimmed(serial))]
                    },
                    None => Seq::empty(),
                }
            } else {
                Seq::empty()
            }
        },
        _ => Seq::empty(),
    }
}

/// The value of the first pair with a key.
fn find_value(items: &Vec<KeyValue>, key: &str) -> (r: Option<String>)
    ensures
        opt_text(r) == value_of(items@, key@),
{
    let mut found: Option<String> = None;
    for i in 0..items.len()
        invariant
            opt_text(found) == value_of(items@.take(i as int), key@),
    {
        assert(items@.take(i + 1).drop_last() =~= items@.take(i as int));
        if found.is_none() && text_eq(items[i].key.as_str(), key) {
            found = Some(items[i].value.clone());
        }
    }
    assert(items@.take(items@.len() as int) =~= items@);
    found
}

fn push_completion(out: &mut Out, page: &'static str, event: &JobEvent)
    ensures
        final(out)@ == old(out)@ + completion_effects(page@, *event),
{
    let ghost before = out@;
    proof {
        reveal_strlit("console");
        reveal_strlit("targets");
        assert("console"@[0] != "targets"@[0]);
    }
    if let Some(JobPayload::Completed { outputs, .. }) = &event.payload {
        if text_eq(page, "console") {
            if let Some(path) = find_value(outputs, "apk_path") {
                out.ui(AppEvent::SetLastBuildApk { apk_path: path });
            }
        }
        if text_eq(page, "targets") {
            if let Some(serial) = find_value(outputs, "adb_serial") {
                let id: &str = trim(serial.as_str());
                if !id.is_empty() {
                    out.target_update(id.to_owned());
                }
            }
        }
    }
    assert(out@ =~= before + completion_effects(page@, *event));
}

/// What an event of a job, with its log text, tells the page that shows it.
pub open spec fn job_told(
    page: Seq<char>,
    job_id: Seq<char>,
    event: JobEvent,
    text: Option<Seq<char>>,
) -> Seq<EffectView> {
    completion_effects(page, event) + logs(page, stream_lines(job_id, event, text))
}

/// Takes an event of a job that a page shows, with its log text.
pub fn job_event_with(page: &'static str, job_id: &str, event: &JobEvent, text: Option<String>) -> (r:
    Out)
    ensures
        r@ == job_told(page@, job_id@, *event, opt_text(text)),
{
    let mut out: Out = Out::new();
    push_completion(&mut out, page, event);
    out.log_all(page, stream_job_event_lines_with(job_id, event, text));
    assert(out@ =~= job_told(page@, job_id@, *event, opt_text(text)));
    out
}

/// Takes an event of a job that a page shows.
pub fn job_event(page: &'static str, job_id: &str, event: &JobEvent) -> (r: Out)
    ensures
        r@ == job_told(page@, job_id@, *event, log_text(*event)),
{
    job_event_with(page, job_id, event, event_text(event))
}

/// What an event of a run, with its log text, tells the page that shows it.
pub open spec fn run_told(page: Seq<char>, event: JobEvent, text: Option<Seq<char>>) -> Seq<
    EffectView,
> {
    logs(page, run_lines(event, text))
}

/// Takes an event of a run that a page shows, with its log text.
pub fn run_event_with(page: &'static str, event: &JobEvent, text: Option<String>) -> (r: Out)
    ensures
        r@ == run_told(page@, *event, opt_text(text)),
{
    let mut out: Out = Out::new();
    out.log_all(page, run_stream_lines_with(event, text));
    assert(out@ =~= run_told(page@, *event, opt_text(text)));
    out
}

/// Takes an event of a run that a page shows.
pub fn run_event(page: &'static str, event: &JobEvent) -> (r: Out)
    ensures
        r@ == run_told(page@, *event, log_text(*event)),
{
    run_event_with(page, event, event_text(event))
}

/// The line about a stream on the job control page that broke off.
pub fn home_stream_broken(err: &str) -> (r: String)
    ensures
        r@ == "job stream error: "@ + err@ + "\n"@,
{
    cat3("job stream error: ", err, "\n")
}

/// The line about a job's stream that broke off.
pub fn job_stream_broken(job_id: &str, err: &str) -> (r: String)
    ensures
        r@ == "job "@ + job_id@ + " stream error: "@ + err@ + "\n"@,
{
    cat5("job ", job_id, " stream error: ", err, "\n")
}

/// The line about a run's stream that broke off or did not begin.
pub fn run_stream_broken(err: &str) -> (r: String)
    ensures
        r@ == "run stream error: "@ + err@ + "\n"@,
{
    cat3("run stream error: ", err, "\n")
}

/// The line about a job's stream that did not begin.
pub fn job_stream_refused(job_id: &str, err: &str) -> (r: String)
    ensures
        r@ == "job stream error ("@ + job_id@ + "): "@ + err@ + "\n"@,
{
    cat5("job stream error (", job_id, "): ", err, "\n")
}

/// On the job control page a new state is shown by its name, and is the result where it is a last
/// one; a completed job is a success with its summary as result, a failed one is failed with its
/// message; and watching ends with the job: completed, failed or cancelled.
pub proof fn law_watching_shows_the_job(watch: HomeWatch, event: JobEvent, now: u128)
    ensures
        ({
            let told = home_told(watch, event, log_text(event), now);
            let shown = home_status(watch, event, now);
            &&& shown.is_prefix_of(told.effects)
            &&& match event.payload {
                Some(JobPayload::StateChanged { new_state }) => {
                    &&& shown.len() > 0 && shown[0] == ui(
                        AppEventView::HomeState { state: new_state.name() },
                    )
                    &&& (shown.len() == 2) == (new_state == JobState::Success || new_state
                        == JobState::Failed || new_state == JobState::Cancelled)
                    &&& shown.len() == 2 ==> shown[1] == ui(
                        AppEventView::HomeResult { result: new_state.name() },
                    )
                    &&& told.more == (new_state != JobState::Cancelled)
                },
                Some(JobPayload::Completed { summary, .. }) => {
                    &&& shown.len() == 2
                    &&& shown[0] == ui(
                        AppEventView::HomeState { state: JobState::Success.name() },
                    )
                    &&& shown[1] == ui(AppEventView::HomeResult { result: summary@ })
                    &&& !told.more
                },
                Some(JobPayload::Failed { error }) => {
                    &&& shown.len() == 2
                    &&& shown[0] == ui(AppEventView::HomeState { state: JobState::Failed.name() })
                    &&& error matches Some(err) ==> shown[1] == ui(
                        AppEventView::HomeResult { result: err.message@ },
                    )
                    &&& !told.more
                },
                Some(JobPayload::Progress { progress: Some(p) }) => {
                    &&& told.more
                    &&& shown.len() <= 1
                    &&& watch.last is None ==> shown.len() == 1
                    &&& watch.last matches Some((percent, _)) ==> percent != p.percent
                        ==> shown.len() == 1
                    &&& shown.len() == 1 ==> shown[0] == ui(
                        AppEventView::HomeProgress { progress: progress_spelled(p) },
                    ) && watch_after(watch, event, now).last == Some((p.percent, now))
                    &&& shown.len() == 0 ==> watch_after(watch, event, now) == watch
                },
                _ => told.more && shown.len() == 0,
            }
        }),
{
    let shown = home_status(watch, event, now);
    let told = home_told(watch, event, log_text(event), now);
    assert(told.effects.take(shown.len() as int) =~= shown);
}

/// A build that completed hands its APK on from the console page, and a device that came up becomes
/// the target from the targets page; no other event, and no other page, changes anything.
pub proof fn law_completions_are_taken_up(page: Seq<char>, job_id: Seq<char>, event: JobEvent)
    ensures
        ({
            let effects = completion_effects(page, event);
            &&& effects.is_prefix_of(job_told(page, job_id, event, log_text(event)))
            &&& effects.len() <= 1
            &&& !(event.payload matches Some(JobPayload::Completed { .. })) ==> effects.len() == 0
            &&& page != "console"@ && page != "targets"@ ==> effects.len() == 0
            &&& event.payload matches Some(JobPayload::Completed { outputs, .. }) ==> {
                &&& page == "console"@ ==> match value_of(outputs@, "apk_path"@) {
                    Some(path) => effects == seq![
                        ui(AppEventView::SetLastBuildApk { apk_path: path }),
                    ],
                    None => effects.len() == 0,
                }
                &&& page == "targets"@ ==> match value_of(outputs@, "adb_serial"@) {
                    Some(serial) => if blank(serial) {
                        effects.len() == 0
                    } else {
                        &&& effects.len() == 1
                        &&& effects[0] is Ui
                        &&& effects[0]->event is UpdateActiveContext
                        &&& effects[0]->event->UpdateActiveContext_target_id == Some(
                            trimmed(serial),
                        )
                        &&& effects[0]->event->UpdateActiveContext_project_id is None
                        &&& effects[0]->event->UpdateActiveContext_project_path is None
                        &&& effects[0]->event->UpdateActiveContext_toolchain_set_id is None
                        &&& effects[0]->event->UpdateActiveContext_run_id is None
                    },
                    None => effects.len() == 0,
                }
            }
        }),
{
    let effects = completion_effects(page, event);
    assert(job_told(page, job_id, event, log_text(event)).take(effects.len() as int) =~= effects);
    reveal_strlit("console");
    reveal_strlit("targets");
    assert("console"@[0] == 'c' && "targets"@[0] == 't');
}

/// The value of a key is that of its first pair; there is none exactly where no pair has the key.
pub proof fn law_value_of(items: Seq<KeyValue>, key: Seq<char>)
    ensures
        match value_of(items, key) {
            Some(value) => exists|i: int|
                #![trigger items[i]]
                0 <= i < items.len() && items[i].key@ == key && items[i].value@ == value && forall|
                    j: int,
                | 0 <= j < i ==> (#[trigger] items[j]).key@ != key,
            None => forall|i: int| 0 <= i < items.len() ==> (#[trigger] items[i]).key@ != key,
        },
    decreases items.len(),
{
    if items.len() > 0 {
        let rest = items.drop_last();
        law_value_of(rest, key);
        assert forall|i: int| 0 <= i < rest.len() implies items[i] == #[trigger] rest[i] by {}
        match value_of(rest, key) {
            Some(value) => {
                let i = choose|i: int|
                    #![trigger rest[i]]
                    0 <= i < rest.len() && rest[i].key@ == key && rest[i].value@ == value && forall|
                        j: int,
                    | 0 <= j < i ==> (#[trigger] rest[j]).key@ != key;
                assert(items[i] == rest[i]);
                assert forall|j: int| 0 <= j < i implies (#[trigger] items[j]).key@ != key by {
                    assert(rest[j] == items[j]);
                }
            },
            None => {
                assert forall|j: int| 0 <= j < rest.len() implies (#[trigger] items[j]).key@
                    != key by {
                    assert(rest[j] == items[j]);
                }
                assert(items[items.len() - 1] == items.last());
            },
        }
    }
}

/// What is seen of what an event tells are its effects and whether more follow.
pub proof fn law_told_is_seen_whole(told: Told)
    ensures
        told@.effects == told.out@,
        told@.more == told.more,
{
}

} // verus!
