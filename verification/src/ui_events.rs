//! The bounded queue of events between the worker and the interface.

use crate::commands::AppEvent;
use std::collections::VecDeque;
use vstd::prelude::*;

verus! {

/// How many events wait at most.
pub const DEFAULT_EVENT_QUEUE_SIZE: usize = 512;

/// A line for a page's log.
pub open spec fn log_line(e: AppEvent) -> bool {
    e is Log
}

/// News of how far a job has come.
pub open spec fn progress_news(e: AppEvent) -> bool {
    e is HomeProgress
}

fn is_log(e: &AppEvent) -> (r: bool)
    ensures
        r == log_line(*e),
{
    match e {
        AppEvent::Log { .. } => true,
        _ => false,
    }
}

fn is_progress(e: &AppEvent) -> (r: bool)
    ensures
        r == progress_news(*e),
{
    match e {
        AppEvent::HomeProgress { .. } => true,
        _ => false,
    }
}

/// The place of the first event of a kind; nothing where there is none.
pub open spec fn first_at(q: Seq<AppEvent>, i: int, kind: spec_fn(AppEvent) -> bool) -> bool {
    &&& 0 <= i < q.len()
    &&& kind(q[i])
    &&& forall|j: int| 0 <= j < i ==> !kind(#[trigger] q[j])
}

/// There is no event of a kind.
pub open spec fn none_of(q: Seq<AppEvent>, kind: spec_fn(AppEvent) -> bool) -> bool {
    forall|j: int| 0 <= j < q.len() ==> !kind(#[trigger] q[j])
}

/// What becomes of a queue when an event arrives. News of a job's progress takes the place of older
/// such news. In a full queue the oldest log line makes room; where there is none, a log line is
/// dropped, and any other event pushes the oldest event out.
pub open spec fn arrived(
    before: Seq<AppEvent>,
    max_len: nat,
    event: AppEvent,
    after: Seq<AppEvent>,
    queued: bool,
) -> bool {
    if progress_news(event) && !none_of(before, |e: AppEvent| progress_news(e)) {
        !queued && exists|i: int|
            first_at(before, i, |e: AppEvent| progress_news(e)) && after == #[trigger] before.update(
                i,
                event,
            )
    } else if before.len() < max_len {
        queued && after == before.push(event)
    } else if !none_of(before, |e: AppEvent| log_line(e)) {
        queued && exists|i: int|
            first_at(before, i, |e: AppEvent| log_line(e)) && after == #[trigger] before.remove(
                i,
            ).push(event)
    } else if log_line(event) {
        !queued && after == before
    } else if before.len() > 0 {
        queued && after == before.drop_first().push(event)
    } else {
        queued && after == before.push(event)
    }
}

/// Events that wait for the interface.
#[derive(Debug)]
pub struct UiEventQueue {
    pub queue: VecDeque<AppEvent>,
    pub max_len: usize,
}

/// The queue holds at most one piece of news of a job's progress.
pub open spec fn one_progress(q: Seq<AppEvent>) -> bool {
    forall|i: int, j: int|
        0 <= i < j < q.len() ==> !(progress_news(#[trigger] q[i]) && progress_news(#[trigger] q[j]))
}

impl UiEventQueue {
    /// The queue is not longer than allowed (one event fits in any case) and holds at most one
    /// piece of news of a job's progress.
    pub open spec fn wf(self) -> bool {
        &&& self.queue@.len() <= self.max_len || self.queue@.len() <= 1
        &&& one_progress(self.queue@)
    }

    /// An empty queue for at most `max_len` events.
    pub fn new(max_len: usize) -> (r: Self)
        ensures
            r.queue@ == Seq::<AppEvent>::empty(),
            r.max_len == max_len,
            r.wf(),
    {
        UiEventQueue { queue: VecDeque::new(), max_len }
    }

    /// Takes all events out, oldest first.
    pub fn drain(&mut self) -> (r: Vec<AppEvent>)
        ensures
            r@ == old(self).queue@,
            final(self).queue@ == Seq::<AppEvent>::empty(),
            final(self).max_len == old(self).max_len,
            final(self).wf(),
    {
        let mut out: Vec<AppEvent> = Vec::new();
        let ghost all = self.queue@;
        while self.queue.len() > 0
            invariant
                out@ + self.queue@ == all,
                self.max_len == old(self).max_len,
            decreases self.queue@.len(),
        {
            let ghost rest = self.queue@;
            let ghost done = out@;
            if let Some(e) = self.queue.pop_front() {
                out.push(e);
                assert(out@ + self.queue@ =~= done + rest);
            }
        }
        assert(out@ + self.queue@ =~= out@);
        assert(self.queue@ =~= Seq::empty());
        out
    }

    fn first_progress(&self) -> (r: Option<usize>)
        ensures
            match r {
                Some(i) => first_at(self.queue@, i as int, |e: AppEvent| progress_news(e)),
                None => none_of(self.queue@, |e: AppEvent| progress_news(e)),
            },
    {
        for i in 0..self.queue.len()
            invariant
                forall|j: int| 0 <= j < i ==> !progress_news(#[trigger] self.queue@[j]),
        {
            if is_progress(&self.queue[i]) {
                return Some(i);
            }
        }
        None
    }

    fn first_log(&self) -> (r: Option<usize>)
        ensures
            match r {
                Some(i) => first_at(self.queue@, i as int, |e: AppEvent| log_line(e)),
                None => none_of(self.queue@, |e: AppEvent| log_line(e)),
            },
    {
        for i in 0..self.queue.len()
            invariant
                forall|j: int| 0 <= j < i ==> !log_line(#[trigger] self.queue@[j]),
        {
            if is_log(&self.queue[i]) {
                return Some(i);
            }
        }
        None
    }

    /// Takes an event in. Tells whether it was queued, and whether the interface has to be woken:
    /// where the queue was empty.
    pub fn push(&mut self, event: AppEvent) -> (r: (bool, bool))
        requires
            old(self).wf(),
        ensures
            arrived(
                old(self).queue@,
                old(self).max_len as nat,
                event,
                final(self).queue@,
                r.0,
            ),
            r.1 == (r.0 && old(self).queue@.len() == 0),
            final(self).max_len == old(self).max_len,
            final(self).wf(),
    {
        let was_empty: bool = self.queue.len() == 0;
        let ghost before = self.queue@;
        if is_progress(&event) {
            if let Some(i) = self.first_progress() {
                self.queue.remove(i);
                self.queue.insert(i, event);
                assert(self.queue@ =~= before.update(i as int, event));
                return (false, false);
            }
        }
        if self.queue.len() >= self.max_len {
            if let Some(i) = self.first_log() {
                self.queue.remove(i);
                assert(self.queue@ =~= before.remove(i as int));
            } else if is_log(&event) {
                return (false, false);
            } else {
                self.queue.pop_front();
                assert(before.len() > 0 ==> self.queue@ =~= before.drop_first());
            }
        }
        self.queue.push_back(event);
        (true, was_empty)
    }
}

/// No event but a log line is ever dropped while a log line waits: what is lost when an event
/// arrives is a log line, older news of a job's progress, or, where no log line waits, the oldest
/// event.
pub proof fn law_what_is_lost(
    before: Seq<AppEvent>,
    max_len: nat,
    event: AppEvent,
    after: Seq<AppEvent>,
    queued: bool,
    i: int,
)
    requires
        arrived(before, max_len, event, after, queued),
        0 <= i < before.len(),
        !log_line(before[i]),
        !progress_news(before[i]),
        !none_of(before, |e: AppEvent| log_line(e)) || before.len() < max_len || i > 0,
    ensures
        after.contains(before[i]),
{
    let x = before[i];
    if progress_news(event) && !none_of(before, |e: AppEvent| progress_news(e)) {
        let k = choose|k: int|
            first_at(before, k, |e: AppEvent| progress_news(e)) && after == #[trigger] before.update(
                k,
                event,
            );
        assert(after[i] == x);
    } else if before.len() < max_len {
        assert(after[i] == x);
    } else if !none_of(before, |e: AppEvent| log_line(e)) {
        let k = choose|k: int|
            first_at(before, k, |e: AppEvent| log_line(e)) && after == #[trigger] before.remove(
                k,
            ).push(event);
        if i < k {
            assert(after[i] == x);
        } else {
            assert(after[i - 1] == x);
        }
    } else if log_line(event) {
        assert(after[i] == x);
    } else {
        assert(after[i - 1] == x);
    }
}

/// An event other than a log line always gets into the queue.
pub proof fn law_events_get_in(
    before: Seq<AppEvent>,
    max_len: nat,
    event: AppEvent,
    after: Seq<AppEvent>,
    queued: bool,
)
    requires
        arrived(before, max_len, event, after, queued),
        !log_line(event),
    ensures
        after.contains(event),
{
    if progress_news(event) && !none_of(before, |e: AppEvent| progress_news(e)) {
        let k = choose|k: int|
            first_at(before, k, |e: AppEvent| progress_news(e)) && after == #[trigger] before.update(
                k,
                event,
            );
        assert(after[k] == event);
    } else {
        assert(after[after.len() - 1] == event);
    }
}

} // verus!
