//! Reading what is typed into the interface.

use crate::model::{kv, kvs, lemma_kvs_push, JobEventKind, JobState, KeyValue, KeyValueView};
use crate::text::{
    blank, cat2, find_char, first_place, i64_spelled, lemma_first_place, lemma_texts_push,
    list_tokens, lowered, parse_i64,
    parse_list_tokens, split, split_char, text_eq, texts, to_lower, trim, trim_owned, trimmed,
};
use vstd::prelude::*;
use vstd::string::*;

verus! {

/// The pair that a line spells: `key=value`, or a key alone; nothing for a line without a key.
pub open spec fn line_pair(line: Seq<char>) -> Option<KeyValueView> {
    let t = trimmed(line);
    let (key, value) = match first_place(t, '=') {
        Some(i) => (trimmed(t.take(i)), trimmed(t.skip(i + 1))),
        None => (t, Seq::empty()),
    };
    if t.len() == 0 || key.len() == 0 {
        None
    } else {
        Some(kv(key, value))
    }
}

/// The pairs that lines spell, in order.
pub open spec fn line_pairs(lines: Seq<Seq<char>>) -> Seq<KeyValueView>
    decreases lines.len(),
{
    if lines.len() == 0 {
        Seq::empty()
    } else {
        let before = line_pairs(lines.drop_last());
        match line_pair(lines.last()) {
            Some(pair) => before.push(pair),
            None => before,
        }
    }
}

fn read_pair(line: &str) -> (r: Option<KeyValue>)
    ensures
        match r {
            Some(pair) => line_pair(line@) == Some(pair@),
            None => line_pair(line@) is None,
        },
{
    let t: &str = trim(line);
    if t.is_empty() {
        return None;
    }
    match find_char(t, '=') {
        Some(i) => {
            let n: usize = t.unicode_len();
            let before: &str = t.substring_char(0, i);
            let after: &str = t.substring_char(i + 1, n);
            assert(before@ =~= t@.take(i as int));
            assert(after@ =~= t@.skip(i + 1));
            let key: &str = trim(before);
            if key.is_empty() {
                None
            } else {
                Some(KeyValue { key: key.to_owned(), value: trim_owned(after) })
            }
        },
        None => Some(KeyValue { key: t.to_owned(), value: String::new() }),
    }
}

/// The pairs in a text with one pair on a line.
pub fn parse_kv_lines(raw: &str) -> (r: Vec<KeyValue>)
    ensures
        kvs(r@) == line_pairs(split_char(raw@, '\n')),
{
    broadcast use lemma_kvs_push;

    let lines: Vec<String> = split(raw, '\n');
    let ghost all = texts(lines@);
    let mut r: Vec<KeyValue> = Vec::new();
    assert(kvs(r@) =~= line_pairs(all.take(0)));
    for i in 0..lines.len()
        invariant
            all == texts(lines@),
            kvs(r@) == line_pairs(all.take(i as int)),
    {
        assert(all.take(i + 1).drop_last() =~= all.take(i as int));
        if let Some(pair) = read_pair(lines[i].as_str()) {
            r.push(pair);
        }
    }
    assert(all.take(lines@.len() as int) =~= all);
    r
}

/// The state that a word names, in any case of its letters.
pub open spec fn state_named(token: Seq<char>) -> Option<JobState> {
    let s = lowered(token);
    if s == "queued"@ {
        Some(JobState::Queued)
    } else if s == "running"@ {
        Some(JobState::Running)
    } else if s == "success"@ || s == "succeeded"@ {
        Some(JobState::Success)
    } else if s == "failed"@ || s == "failure"@ {
        Some(JobState::Failed)
    } else if s == "cancelled"@ || s == "canceled"@ {
        Some(JobState::Cancelled)
    } else {
        None
    }
}

fn read_state(token: &str) -> (r: Option<JobState>)
    ensures
        r == state_named(token@),
{
    let low: String = to_lower(token);
    let s: &str = low.as_str();
    if text_eq(s, "queued") {
        Some(JobState::Queued)
    } else if text_eq(s, "running") {
        Some(JobState::Running)
    } else if text_eq(s, "success") || text_eq(s, "succeeded") {
        Some(JobState::Success)
    } else if text_eq(s, "failed") || text_eq(s, "failure") {
        Some(JobState::Failed)
    } else if text_eq(s, "cancelled") || text_eq(s, "canceled") {
        Some(JobState::Cancelled)
    } else {
        None
    }
}

/// The states that words name, in order, without the words that name none.
pub open spec fn states_named(tokens: Seq<Seq<char>>) -> Seq<JobState>
    decreases tokens.len(),
{
    if tokens.len() == 0 {
        Seq::empty()
    } else {
        let before = states_named(tokens.drop_last());
        match state_named(tokens.last()) {
            Some(state) => before.push(state),
            None => before,
        }
    }
}

/// The words that name no state, in order.
pub open spec fn not_states(tokens: Seq<Seq<char>>) -> Seq<Seq<char>>
    decreases tokens.len(),
{
    if tokens.len() == 0 {
        Seq::empty()
    } else {
        let before = not_states(tokens.drop_last());
        if state_named(tokens.last()) is None {
            before.push(tokens.last())
        } else {
            before
        }
    }
}

/// The states in a list, and the words in it that name none.
pub fn parse_job_states(raw: &str) -> (r: (Vec<JobState>, Vec<String>))
    ensures
        r.0@ == states_named(list_tokens(raw@)),
        texts(r.1@) == not_states(list_tokens(raw@)),
{
    broadcast use lemma_texts_push;

    let tokens: Vec<String> = parse_list_tokens(raw);
    let ghost all = texts(tokens@);
    let mut states: Vec<JobState> = Vec::new();
    let mut unknown: Vec<String> = Vec::new();
    assert(texts(unknown@) =~= not_states(all.take(0)));
    for i in 0..tokens.len()
        invariant
            all == texts(tokens@),
            states@ == states_named(all.take(i as int)),
            texts(unknown@) == not_states(all.take(i as int)),
    {
        assert(all.take(i + 1).drop_last() =~= all.take(i as int));
        match read_state(tokens[i].as_str()) {
            Some(state) => states.push(state),
            None => unknown.push(tokens[i].clone()),
        }
    }
    assert(all.take(tokens@.len() as int) =~= all);
    (states, unknown)
}

/// The kind of event that a word names, in any case of its letters.
pub open spec fn kind_named(token: Seq<char>) -> Option<JobEventKind> {
    let s = lowered(token);
    if s == "state"@ || s == "state_changed"@ {
        Some(JobEventKind::StateChanged)
    } else if s == "progress"@ {
        Some(JobEventKind::Progress)
    } else if s == "log"@ || s == "logs"@ {
        Some(JobEventKind::Log)
    } else if s == "completed"@ || s == "complete"@ {
        Some(JobEventKind::Completed)
    } else if s == "failed"@ || s == "failure"@ {
        Some(JobEventKind::Failed)
    } else {
        None
    }
}

fn read_kind(token: &str) -> (r: Option<JobEventKind>)
    ensures
        r == kind_named(token@),
{
    let low: String = to_lower(token);
    let s: &str = low.as_str();
    if text_eq(s, "state") || text_eq(s, "state_changed") {
        Some(JobEventKind::StateChanged)
    } else if text_eq(s, "progress") {
        Some(JobEventKind::Progress)
    } else if text_eq(s, "log") || text_eq(s, "logs") {
        Some(JobEventKind::Log)
    } else if text_eq(s, "completed") || text_eq(s, "complete") {
        Some(JobEventKind::Completed)
    } else if text_eq(s, "failed") || text_eq(s, "failure") {
        Some(JobEventKind::Failed)
    } else {
        None
    }
}

/// The kinds that words name, in order, without the words that name none.
pub open spec fn kinds_named(tokens: Seq<Seq<char>>) -> Seq<JobEventKind>
    decreases tokens.len(),
{
    if tokens.len() == 0 {
        Seq::empty()
    } else {
        let before = kinds_named(tokens.drop_last());
        match kind_named(tokens.last()) {
            Some(kind) => before.push(kind),
            None => before,
        }
    }
}

/// The words that name no kind, in order.
pub open spec fn not_kinds(tokens: Seq<Seq<char>>) -> Seq<Seq<char>>
    decreases tokens.len(),
{
    if tokens.len() == 0 {
        Seq::empty()
    } else {
        let before = not_kinds(tokens.drop_last());
        if kind_named(tokens.last()) is None {
            before.push(tokens.last())
        } else {
            before
        }
    }
}

/// The kinds of events in a list, and the words in it that name none.
pub fn parse_job_event_kinds(raw: &str) -> (r: (Vec<JobEventKind>, Vec<String>))
    ensures
        r.0@ == kinds_named(list_tokens(raw@)),
        texts(r.1@) == not_kinds(list_tokens(raw@)),
{
    broadcast use lemma_texts_push;

    let tokens: Vec<String> = parse_list_tokens(raw);
    let ghost all = texts(tokens@);
    let mut kinds: Vec<JobEventKind> = Vec::new();
    let mut unknown: Vec<String> = Vec::new();
    assert(texts(unknown@) =~= not_kinds(all.take(0)));
    for i in 0..tokens.len()
        invariant
            all == texts(tokens@),
            kinds@ == kinds_named(all.take(i as int)),
            texts(unknown@) == not_kinds(all.take(i as int)),
    {
        assert(all.take(i + 1).drop_last() =~= all.take(i as int));
        match read_kind(tokens[i].as_str()) {
            Some(kind) => kinds.push(kind),
            None => unknown.push(tokens[i].clone()),
        }
    }
    assert(all.take(tokens@.len() as int) =~= all);
    (kinds, unknown)
}

/// A time that is typed in: nothing for a blank text, an error for one that is no number.
pub open spec fn millis_typed(raw: Seq<char>) -> Result<Option<i64>, Seq<char>> {
    let t = trimmed(raw);
    if t.len() == 0 {
        Ok(None)
    } else {
        match i64_spelled(t) {
            Some(n) => Ok(Some(n)),
            None => Err("invalid unix millis: "@ + t),
        }
    }
}

/// A time that is typed in: nothing for a blank text, an error for one that is no number.
pub fn parse_optional_millis(raw: &str) -> (r: Result<Option<i64>, String>)
    ensures
        match r {
            Ok(value) => millis_typed(raw@) == Ok::<Option<i64>, Seq<char>>(value),
            Err(err) => millis_typed(raw@) == Err::<Option<i64>, Seq<char>>(err@),
        },
{
    let t: &str = trim(raw);
    if t.is_empty() {
        return Ok(None);
    }
    match parse_i64(t) {
        Some(n) => Ok(Some(n)),
        None => Err(cat2("invalid unix millis: ", t)),
    }
}

/// The name of every state, in any case, stands for that state.
pub proof fn law_state_names(state: JobState, token: Seq<char>)
    requires
        state != JobState::Unspecified,
        lowered(token) == lowered(state.name()),
    ensures
        state_named(token) == Some(state),
{
    reveal_strlit("Queued");
    reveal_strlit("Running");
    reveal_strlit("Success");
    reveal_strlit("Failed");
    reveal_strlit("Cancelled");
    reveal_strlit("queued");
    reveal_strlit("running");
    reveal_strlit("success");
    reveal_strlit("succeeded");
    reveal_strlit("failed");
    reveal_strlit("failure");
    reveal_strlit("cancelled");
    reveal_strlit("canceled");
    assert(lowered("Queued"@) =~= "queued"@);
    assert(lowered("Running"@) =~= "running"@);
    assert(lowered("Success"@) =~= "success"@);
    assert(lowered("Failed"@) =~= "failed"@);
    assert(lowered("Cancelled"@) =~= "cancelled"@);
    assert("queued"@[0] == 'q' && "running"@[0] == 'r' && "success"@[0] == 's' && "succeeded"@[0]
        == 's' && "failed"@[0] == 'f' && "failure"@[0] == 'f' && "cancelled"@[0] == 'c');
}

/// The name that an event of a kind is shown under, in any case, stands for that kind.
pub proof fn law_kind_names(token: Seq<char>)
    ensures
        lowered(token) == "state_changed"@ ==> kind_named(token) == Some(JobEventKind::StateChanged),
        lowered(token) == "progress"@ ==> kind_named(token) == Some(JobEventKind::Progress),
        lowered(token) == "log"@ ==> kind_named(token) == Some(JobEventKind::Log),
        lowered(token) == "completed"@ ==> kind_named(token) == Some(JobEventKind::Completed),
        lowered(token) == "failed"@ ==> kind_named(token) == Some(JobEventKind::Failed),
{
    reveal_strlit("state");
    reveal_strlit("state_changed");
    reveal_strlit("progress");
    reveal_strlit("log");
    reveal_strlit("logs");
    reveal_strlit("completed");
    reveal_strlit("complete");
    reveal_strlit("failed");
    reveal_strlit("failure");
    assert("state"@[0] == 's' && "state_changed"@[0] == 's' && "progress"@[0] == 'p' && "log"@[0]
        == 'l' && "logs"@[0] == 'l' && "completed"@[0] == 'c' && "complete"@[0] == 'c'
        && "failed"@[0] == 'f' && "failure"@[0] == 'f');
}

/// A further word adds the state that it names behind those before, or is itself one of the words
/// that name none: no word is lost.
pub proof fn law_every_word_counts(tokens: Seq<Seq<char>>, more: Seq<char>)
    ensures
        states_named(Seq::empty()).len() == 0 && not_states(Seq::empty()).len() == 0,
        kinds_named(Seq::empty()).len() == 0 && not_kinds(Seq::empty()).len() == 0,
        state_named(more) matches Some(state) ==> states_named(tokens.push(more)) == states_named(
            tokens,
        ).push(state) && not_states(tokens.push(more)) == not_states(tokens),
        state_named(more) is None ==> states_named(tokens.push(more)) == states_named(tokens)
            && not_states(tokens.push(more)) == not_states(tokens).push(more),
        kind_named(more) matches Some(kind) ==> kinds_named(tokens.push(more)) == kinds_named(
            tokens,
        ).push(kind) && not_kinds(tokens.push(more)) == not_kinds(tokens),
        kind_named(more) is None ==> kinds_named(tokens.push(more)) == kinds_named(tokens)
            && not_kinds(tokens.push(more)) == not_kinds(tokens).push(more),
{
    assert(tokens.push(more).drop_last() =~= tokens);
}

/// A line with a key and an equals sign gives the key and what stands behind the first sign, each
/// trimmed; a line without a key gives nothing, and further lines add their pairs behind those before.
pub proof fn law_typed_pairs(key: Seq<char>, value: Seq<char>, lines: Seq<Seq<char>>)
    requires
        !key.contains('='),
        key.len() > 0,
        trimmed(key + seq!['='] + value) == key + seq!['='] + value,
    ensures
        !blank(key) ==> line_pair(key + seq!['='] + value) == Some(
            kv(trimmed(key), trimmed(value)),
        ),
        blank(key) ==> line_pair(key + seq!['='] + value) is None,
        line_pairs(lines.push(key + seq!['='] + value)) == match line_pair(
            key + seq!['='] + value,
        ) {
            Some(pair) => line_pairs(lines).push(pair),
            None => line_pairs(lines),
        },
{
    let line = key + seq!['='] + value;
    let n = key.len() as int;
    lemma_first_place(line, '=');
    assert(line[n] == '=');
    assert forall|j: int| 0 <= j < n implies line[j] != '=' by {
        assert(line[j] == key[j]);
        assert(key.contains(key[j]));
    }
    assert(first_place(line, '=') == Some(n));
    assert(line.take(n) =~= key);
    assert(line.skip(n + 1) =~= value);
    assert(lines.push(line).drop_last() =~= lines);
}

} // verus!
