use aadk::commands::AppEvent;
use aadk::ui_events::{UiEventQueue, DEFAULT_EVENT_QUEUE_SIZE};

fn log(line: &str) -> AppEvent {
    AppEvent::Log { page: "home", line: line.to_string() }
}

fn progress(text: &str) -> AppEvent {
    AppEvent::HomeProgress { progress: text.to_string() }
}

fn state(text: &str) -> AppEvent {
    AppEvent::HomeState { state: text.to_string() }
}

fn names(events: Vec<AppEvent>) -> Vec<String> {
    events
        .into_iter()
        .map(|event| match event {
            AppEvent::Log { line, .. } => format!("log {line}"),
            AppEvent::HomeProgress { progress } => format!("progress {progress}"),
            AppEvent::HomeState { state } => format!("state {state}"),
            _ => "other".to_string(),
        })
        .collect()
}

#[test]
fn events_come_out_in_order_and_once() {
    assert_eq!(DEFAULT_EVENT_QUEUE_SIZE, 512);
    let mut q = UiEventQueue::new(8);
    assert_eq!(q.push(log("1")), (true, true));
    assert_eq!(q.push(state("a")), (true, false));
    assert_eq!(q.push(log("2")), (true, false));
    assert_eq!(names(q.drain()), vec!["log 1", "state a", "log 2"]);
    assert!(q.drain().is_empty());
    assert_eq!(q.push(log("3")), (true, true));
}

#[test]
fn news_of_progress_replaces_older_news_in_its_place() {
    let mut q = UiEventQueue::new(8);
    q.push(progress("1%"));
    q.push(state("a"));
    assert_eq!(q.push(progress("2%")), (false, false));
    assert_eq!(names(q.drain()), vec!["progress 2%", "state a"]);
}

#[test]
fn a_full_queue_drops_its_first_log_line() {
    let mut q = UiEventQueue::new(3);
    q.push(state("a"));
    q.push(log("1"));
    q.push(log("2"));
    assert_eq!(q.push(log("3")), (true, false));
    assert_eq!(names(q.drain()), vec!["state a", "log 2", "log 3"]);
}

#[test]
fn a_full_queue_without_log_lines_refuses_them() {
    let mut q = UiEventQueue::new(2);
    q.push(state("a"));
    q.push(state("b"));
    assert_eq!(q.push(log("1")), (false, false));
    assert_eq!(names(q.drain()), vec!["state a", "state b"]);
}

#[test]
fn other_events_always_get_in() {
    let mut q = UiEventQueue::new(2);
    q.push(state("a"));
    q.push(state("b"));
    assert_eq!(q.push(state("c")), (true, false));
    assert_eq!(names(q.drain()), vec!["state b", "state c"]);
}

#[test]
fn a_queue_without_room_still_passes_one_event_on() {
    let mut q = UiEventQueue::new(0);
    assert_eq!(q.push(log("1")), (false, false));
    assert_eq!(q.push(state("a")), (true, true));
    assert_eq!(q.push(state("b")), (true, false));
    assert_eq!(names(q.drain()), vec!["state b"]);
}
