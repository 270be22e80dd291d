//! What the worker wants done next.

use crate::commands::{AppEvent, AppEventView};
use crate::text::{cat2, opt_text, texts};
use crate::worker::call::{Call, CallView};
use vstd::prelude::*;
use vstd::string::*;

verus! {

/// Something to be done at once.
#[allow(inconsistent_fields)]
#[derive(Debug)]
pub enum Effect {
    /// Tell the interface.
    Ui { event: AppEvent },
    /// Remember the job that is being watched.
    CurrentJob { job_id: Option<String> },
    /// Watch a job on the job control page, in place of the one that is being watched.
    HomeStream { addr: String, job_id: String },
    /// Stop watching on the job control page.
    AbortHomeStream,
    /// Show the events of a job on a page.
    JobStream { addr: String, job_id: String, page: &'static str },
    /// Show the events of a run on a page.
    RunStream {
        addr: String,
        run_id: String,
        correlation_id: String,
        include_history: bool,
        page: &'static str,
    },
}

/// What an `Effect` holds, mathematically.
#[allow(inconsistent_fields)]
#[verifier::ext_equal]
pub enum EffectView {
    Ui { event: AppEventView },
    CurrentJob { current: Option<Seq<char>> },
    HomeStream { addr: Seq<char>, job_id: Seq<char> },
    AbortHomeStream,
    JobStream { addr: Seq<char>, job_id: Seq<char>, page: Seq<char> },
    RunStream {
        addr: Seq<char>,
        run_id: Seq<char>,
        correlation_id: Seq<char>,
        include_history: bool,
        page: Seq<char>,
    },
}

impl View for Effect {
    type V = EffectView;

    open spec fn view(&self) -> EffectView {
        match *self {
            Effect::Ui { event } => EffectView::Ui { event: event@ },
            Effect::CurrentJob { job_id } => EffectView::CurrentJob { current: opt_text(job_id) },
            Effect::HomeStream { addr, job_id } => EffectView::HomeStream {
                addr: addr@,
                job_id: job_id@,
            },
            Effect::AbortHomeStream => EffectView::AbortHomeStream,
            Effect::JobStream { addr, job_id, page } => EffectView::JobStream {
                addr: addr@,
                job_id: job_id@,
                page: page@,
            },
            Effect::RunStream { addr, run_id, correlation_id, include_history, page } => {
                EffectView::RunStream {
                    addr: addr@,
                    run_id: run_id@,
                    correlation_id: correlation_id@,
                    include_history,
                    page: page@,
                }
            },
        }
    }
}

/// A line for a page's log.
pub open spec fn log(page: Seq<char>, line: Seq<char>) -> EffectView {
    EffectView::Ui { event: AppEventView::Log { page, line } }
}

/// An event for the interface.
pub open spec fn ui(event: AppEventView) -> EffectView {
    EffectView::Ui { event }
}

/// Lines for a page's log, in order.
pub open spec fn logs(page: Seq<char>, lines: Seq<Seq<char>>) -> Seq<EffectView> {
    Seq::new(lines.len(), |i: int| log(page, lines[i]))
}

/// The stream of a job's events to a page, where there is a job.
pub open spec fn job_stream(addr: Seq<char>, job_id: Seq<char>, page: Seq<char>) -> Seq<EffectView> {
    if job_id.len() == 0 {
        Seq::empty()
    } else {
        seq![EffectView::JobStream { addr, job_id, page }]
    }
}

/// A change of what is worked with: only the target.
pub open spec fn target_update(target_id: Seq<char>) -> EffectView {
    ui(
        AppEventView::UpdateActiveContext {
            project_id: None,
            project_path: None,
            toolchain_set_id: None,
            target_id: Some(target_id),
            run_id: None,
        },
    )
}

/// A change of what is worked with: only the toolchain set.
pub open spec fn set_update(toolchain_set_id: Seq<char>) -> EffectView {
    ui(
        AppEventView::UpdateActiveContext {
            project_id: None,
            project_path: None,
            toolchain_set_id: Some(toolchain_set_id),
            target_id: None,
            run_id: None,
        },
    )
}

/// What is to be done, in order.
#[derive(Debug)]
pub struct Out {
    pub items: Vec<Effect>,
}

impl View for Out {
    type V = Seq<EffectView>;

    open spec fn view(&self) -> Seq<EffectView> {
        Seq::new(self.items@.len(), |i: int| self.items@[i]@)
    }
}

impl Out {
    /// Nothing yet.
    pub fn new() -> (r: Self)
        ensures
            r@ == Seq::<EffectView>::empty(),
    {
        let r = Out { items: Vec::new() };
        assert(r@ =~= Seq::empty());
        r
    }

    /// Adds one at the end.
    pub fn push(&mut self, effect: Effect)
        ensures
            final(self)@ == old(self)@.push(effect@),
    {
        self.items.push(effect);
        assert(self@ =~= old(self)@.push(effect@));
    }

    /// Adds an event for the interface.
    pub fn ui(&mut self, event: AppEvent)
        ensures
            final(self)@ == old(self)@.push(ui(event@)),
    {
        self.push(Effect::Ui { event });
    }

    /// Adds a line for a page's log.
    pub fn log(&mut self, page: &'static str, line: String)
        ensures
            final(self)@ == old(self)@.push(log(page@, line@)),
    {
        self.ui(AppEvent::Log { page, line });
    }

    /// Adds a fixed line for a page's log.
    pub fn say(&mut self, page: &'static str, line: &str)
        ensures
            final(self)@ == old(self)@.push(log(page@, line@)),
    {
        self.log(page, line.to_owned());
    }

    /// Adds lines for a page's log.
    pub fn log_all(&mut self, page: &'static str, lines: Vec<String>)
        ensures
            final(self)@ == old(self)@ + logs(page@, texts(lines@)),
    {
        let ghost before = self@;
        let ghost all = logs(page@, texts(lines@));
        for i in 0..lines.len()
            invariant
                all == logs(page@, texts(lines@)),
                self@ == before + all.take(i as int),
        {
            self.log(page, lines[i].clone());
            assert(self@ =~= before + all.take(i + 1));
        }
        assert(all.take(lines@.len() as int) =~= all);
    }

    /// Adds the stream of a job's events to a page, where there is a job.
    pub fn job_stream(&mut self, addr: &str, job_id: &str, page: &'static str)
        ensures
            final(self)@ == old(self)@ + job_stream(addr@, job_id@, page@),
    {
        let ghost before = self@;
        if !job_id.is_empty() {
            self.push(
                Effect::JobStream { addr: addr.to_owned(), job_id: job_id.to_owned(), page },
            );
        }
        assert(self@ =~= before + job_stream(addr@, job_id@, page@));
    }

    /// Adds a change of the target that is worked with.
    pub fn target_update(&mut self, target_id: String)
        ensures
            final(self)@ == old(self)@.push(target_update(target_id@)),
    {
        self.ui(
            AppEvent::UpdateActiveContext {
                project_id: None,
                project_path: None,
                toolchain_set_id: None,
                target_id: Some(target_id),
                run_id: None,
            },
        );
    }

    /// Adds a change of the toolchain set that is worked with.
    pub fn set_update(&mut self, toolchain_set_id: String)
        ensures
            final(self)@ == old(self)@.push(set_update(toolchain_set_id@)),
    {
        self.ui(
            AppEvent::UpdateActiveContext {
                project_id: None,
                project_path: None,
                toolchain_set_id: Some(toolchain_set_id),
                target_id: None,
                run_id: None,
            },
        );
    }
}

/// How a command goes on.
#[derive(Debug)]
pub enum Next {
    /// With an answer to a request.
    Call { call: Call },
    /// With a further answer to the last request.
    Await,
    /// Not any more.
    Done,
    /// Not any more, because of an error.
    Error { error: String },
}

/// What a `Next` holds, mathematically.
#[verifier::ext_equal]
pub enum NextView {
    Call { call: CallView },
    Await,
    Done,
    Error { error: Seq<char> },
}

impl View for Next {
    type V = NextView;

    open spec fn view(&self) -> NextView {
        match *self {
            Next::Call { call } => NextView::Call { call: call@ },
            Next::Await => NextView::Await,
            Next::Done => NextView::Done,
            Next::Error { error } => NextView::Error { error: error@ },
        }
    }
}

/// What the worker wants done next.
#[derive(Debug)]
pub struct Turn {
    pub out: Out,
    pub next: Next,
}

/// What a `Turn` holds, mathematically.
#[verifier::ext_equal]
pub struct TurnView {
    pub effects: Seq<EffectView>,
    pub next: NextView,
}

impl View for Turn {
    type V = TurnView;

    open spec fn view(&self) -> TurnView {
        TurnView { effects: self.out@, next: self.next@ }
    }
}

/// A last turn.
pub open spec fn done(effects: Seq<EffectView>) -> TurnView {
    TurnView { effects, next: NextView::Done }
}

/// A turn that ends in a request.
pub open spec fn call(effects: Seq<EffectView>, call: CallView) -> TurnView {
    TurnView { effects, next: NextView::Call { call } }
}

/// A last turn that hands an error on.
pub open spec fn error(text: Seq<char>) -> TurnView {
    TurnView { effects: Seq::empty(), next: NextView::Error { error: text } }
}

/// A last turn.
pub fn finish(out: Out) -> (r: Turn)
    ensures
        r@ == done(out@),
{
    Turn { out, next: Next::Done }
}

/// A turn that ends in a request.
pub fn ask(out: Out, call: Call) -> (r: Turn)
    ensures
        r@ == self::call(out@, call@),
{
    Turn { out, next: Next::Call { call } }
}

/// A last turn that hands an error on.
pub fn hand_on(error: String) -> (r: Turn)
    ensures
        r@ == self::error(error@),
{
    Turn { out: Out::new(), next: Next::Error { error } }
}

/// A last turn with one line for a page's log.
pub fn last_words(page: &'static str, line: &str) -> (r: Turn)
    ensures
        r@ == done(seq![log(page@, line@)]),
{
    let mut out: Out = Out::new();
    out.say(page, line);
    finish(out)
}

/// A last turn with a line about an error for a page's log.
pub fn complain(page: &'static str, what: &str, err: &str) -> (r: Turn)
    ensures
        r@ == done(seq![log(page@, what@ + err@ + "\n"@)]),
{
    let mut line: String = cat2(what, err);
    line.append("\n");
    last_words(page, line.as_str())
}

/// A request failed: the service could not be reached, or it refused.
#[derive(Debug)]
pub struct Failure {
    pub connecting: bool,
    pub error: String,
}

/// What is seen of an effect is what it holds, each part in its place.
pub proof fn law_effect_is_seen_whole(effect: Effect)
    ensures
        match effect {
            Effect::Ui { event } => {
                &&& effect@ is Ui
                &&& effect@->Ui_event == event@
            },
            Effect::CurrentJob { job_id } => {
                &&& effect@ is CurrentJob
                &&& effect@->CurrentJob_current == opt_text(job_id)
            },
            Effect::HomeStream { addr, job_id } => {
                &&& effect@ is HomeStream
                &&& effect@->HomeStream_addr == addr@
                &&& effect@->HomeStream_job_id == job_id@
            },
            Effect::AbortHomeStream => effect@ is AbortHomeStream,
            Effect::JobStream { addr, job_id, page } => {
                &&& effect@ is JobStream
                &&& effect@->JobStream_addr == addr@
                &&& effect@->JobStream_job_id == job_id@
                &&& effect@->JobStream_page == page@
            },
            Effect::RunStream { addr, run_id, correlation_id, include_history, page } => {
                &&& effect@ is RunStream
                &&& effect@->RunStream_addr == addr@
                &&& effect@->RunStream_run_id == run_id@
                &&& effect@->RunStream_correlation_id == correlation_id@
                &&& effect@->RunStream_include_history == include_history
                &&& effect@->RunStream_page == page@
            },
        },
{
}

/// What is seen of what comes next is what it holds.
pub proof fn law_next_is_seen_whole(next: Next)
    ensures
        match next {
            Next::Call { call } => {
                &&& next@ is Call
                &&& next@->Call_call == call@
            },
            Next::Await => next@ is Await,
            Next::Done => next@ is Done,
            Next::Error { error } => {
                &&& next@ is Error
                &&& next@->Error_error == error@
            },
        },
{
}

/// What is seen of a turn are its effects and what comes next.
pub proof fn law_turn_is_seen_whole(turn: Turn)
    ensures
        turn@.effects == turn.out@,
        turn@.next == turn.next@,
{
}

} // verus!
