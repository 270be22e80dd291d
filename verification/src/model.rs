//! The vocabulary that the services share: states, kinds, key-value pairs and records.

use crate::text::{blank, cat3, join, joined, lemma_texts_push, opt_text, texts, trim, trimmed};
use vstd::prelude::*;
use vstd::string::*;

verus! {

/// A named value.
#[derive(Debug)]
pub struct KeyValue {
    pub key: String,
    pub value: String,
}

/// The text of a named value.
#[verifier::ext_equal]
pub struct KeyValueView {
    pub key: Seq<char>,
    pub value: Seq<char>,
}

impl View for KeyValue {
    type V = KeyValueView;

    open spec fn view(&self) -> KeyValueView {
        KeyValueView { key: self.key@, value: self.value@ }
    }
}

impl Clone for KeyValue {
    fn clone(&self) -> (r: Self)
        ensures
            r == *self,
    {
        KeyValue { key: self.key.clone(), value: self.value.clone() }
    }
}

/// The named value with this text.
pub open spec fn kv(key: Seq<char>, value: Seq<char>) -> KeyValueView {
    KeyValueView { key, value }
}

/// The texts of a list of named values.
pub open spec fn kvs(items: Seq<KeyValue>) -> Seq<KeyValueView> {
    Seq::new(items.len(), |i: int| items[i]@)
}

/// One more pair adds its view.
pub broadcast proof fn lemma_kvs_push(items: Seq<KeyValue>, x: KeyValue)
    ensures
        #[trigger] kvs(items.push(x)) == kvs(items).push(x@),
{
    assert(kvs(items.push(x)) =~= kvs(items).push(x@));
}

/// A named value that holds copies of two texts.
pub fn metric(key: &str, value: &str) -> (r: KeyValue)
    ensures
        r@ == kv(key@, value@),
{
    KeyValue { key: key.to_owned(), value: value.to_owned() }
}

/// A copy of a list of named values.
pub fn clone_kvs(items: &Vec<KeyValue>) -> (r: Vec<KeyValue>)
    ensures
        r@ == items@,
{
    let mut r: Vec<KeyValue> = Vec::new();
    for i in 0..items.len()
        invariant
            r@ == items@.take(i as int),
    {
        r.push(items[i].clone());
        assert(items@.take(i + 1) =~= items@.take(i as int).push(items@[i as int]));
    }
    assert(items@.take(items.len() as int) =~= items@);
    r
}

/// `key=value`.
pub open spec fn kv_text(item: KeyValueView) -> Seq<char> {
    item.key + "="@ + item.value
}

/// The pairs as `key=value`, separated by a comma and a space.
pub open spec fn kv_list_text(items: Seq<KeyValueView>) -> Seq<char> {
    joined(Seq::new(items.len(), |i: int| kv_text(items[i])), ", "@)
}

/// The pairs as `key=value`, separated by a comma and a space.
pub fn kv_pairs(items: &Vec<KeyValue>) -> (r: String)
    ensures
        r@ == kv_list_text(kvs(items@)),
{
    broadcast use lemma_texts_push;

    let mut parts: Vec<String> = Vec::new();
    for i in 0..items.len()
        invariant
            texts(parts@) =~= Seq::new(i as nat, |k: int| kv_text(items@[k]@)),
    {
        let ghost done = texts(parts@);
        let part: String = cat3(items[i].key.as_str(), "=", items[i].value.as_str());
        assert(part@ == kv_text(items@[i as int]@));
        parts.push(part);
        assert(texts(parts@) =~= done.push(kv_text(items@[i as int]@)));
    }
    assert(texts(parts@) =~= Seq::new(
        kvs(items@).len(),
        |k: int| kv_text(kvs(items@)[k]),
    ));
    join(&parts, ", ")
}

/// The life of a job.
#[derive(Clone, Copy, Debug, PartialEq, Eq, Structural)]
pub enum JobState {
    Unspecified,
    Queued,
    Running,
    Success,
    Failed,
    Cancelled,
}

impl JobState {
    /// The state's name.
    pub open spec fn name(self) -> Seq<char> {
        match self {
            JobState::Unspecified => "Unspecified"@,
            JobState::Queued => "Queued"@,
            JobState::Running => "Running"@,
            JobState::Success => "Success"@,
            JobState::Failed => "Failed"@,
            JobState::Cancelled => "Cancelled"@,
        }
    }

    /// The state's name.
    pub fn label(self) -> (r: &'static str)
        ensures
            r@ == self.name(),
    {
        match self {
            JobState::Unspecified => "Unspecified",
            JobState::Queued => "Queued",
            JobState::Running => "Running",
            JobState::Success => "Success",
            JobState::Failed => "Failed",
            JobState::Cancelled => "Cancelled",
        }
    }

    /// No further state follows.
    pub open spec fn terminal(self) -> bool {
        self == JobState::Success || self == JobState::Failed || self == JobState::Cancelled
    }

    /// Tells whether no further state follows.
    pub fn is_terminal(self) -> (r: bool)
        ensures
            r == self.terminal(),
    {
        self == JobState::Success || self == JobState::Failed || self == JobState::Cancelled
    }
}

/// What an event in a job's history reports.
#[derive(Clone, Copy, Debug, PartialEq, Eq, Structural)]
pub enum JobEventKind {
    StateChanged,
    Progress,
    Log,
    Completed,
    Failed,
}

/// The flavour of a build.
#[derive(Clone, Copy, Debug, PartialEq, Eq, Structural)]
pub enum BuildVariant {
    Unspecified,
    Debug,
    Release,
}

/// What a build produced.
#[derive(Clone, Copy, Debug, PartialEq, Eq, Structural)]
pub enum ArtifactType {
    Unspecified,
    Apk,
    Aab,
    Aar,
    Mapping,
    TestResult,
}

/// The short name of an artifact type.
pub open spec fn artifact_type_name(t: ArtifactType) -> Seq<char> {
    match t {
        ArtifactType::Apk => "apk"@,
        ArtifactType::Aab => "aab"@,
        ArtifactType::Aar => "aar"@,
        ArtifactType::Mapping => "mapping"@,
        ArtifactType::TestResult => "test_result"@,
        ArtifactType::Unspecified => "unspecified"@,
    }
}

/// The short name of an artifact type.
pub fn artifact_type_label(artifact_type: ArtifactType) -> (r: &'static str)
    ensures
        r@ == artifact_type_name(artifact_type),
{
    match artifact_type {
        ArtifactType::Apk => "apk",
        ArtifactType::Aab => "aab",
        ArtifactType::Aar => "aar",
        ArtifactType::Mapping => "mapping",
        ArtifactType::TestResult => "test_result",
        ArtifactType::Unspecified => "unspecified",
    }
}

/// What kind of thing a run put out.
#[derive(Clone, Copy, Debug, PartialEq, Eq, Structural)]
pub enum RunOutputKind {
    Unspecified,
    Bundle,
    Artifact,
}

/// The short name of an output kind.
pub open spec fn run_output_kind_name(kind: RunOutputKind) -> Seq<char> {
    match kind {
        RunOutputKind::Bundle => "bundle"@,
        RunOutputKind::Artifact => "artifact"@,
        RunOutputKind::Unspecified => "unspecified"@,
    }
}

/// The short name of an output kind.
pub fn run_output_kind_label(kind: RunOutputKind) -> (r: &'static str)
    ensures
        r@ == run_output_kind_name(kind),
{
    match kind {
        RunOutputKind::Bundle => "bundle",
        RunOutputKind::Artifact => "artifact",
        RunOutputKind::Unspecified => "unspecified",
    }
}

/// What a toolchain is for.
#[derive(Clone, Copy, Debug, PartialEq, Eq, Structural)]
pub enum ToolchainKind {
    Unspecified,
    Sdk,
    Ndk,
}

/// A request to start a job.
#[derive(Debug)]
pub struct StartJob {
    pub job_type: String,
    pub params: Vec<KeyValue>,
    pub project_id: Option<String>,
    pub target_id: Option<String>,
    pub toolchain_set_id: Option<String>,
    pub correlation_id: String,
    pub run_id: Option<String>,
}

/// A file that a build produced.
#[derive(Debug)]
pub struct Artifact {
    pub kind: ArtifactType,
    pub name: String,
    pub path: String,
    pub size_bytes: u64,
    pub metadata: Vec<KeyValue>,
}

/// What an `Artifact` holds, mathematically.
#[verifier::ext_equal]
pub struct ArtifactView {
    pub kind: ArtifactType,
    pub name: Seq<char>,
    pub path: Seq<char>,
    pub size_bytes: u64,
    pub metadata: Seq<KeyValueView>,
}

impl View for Artifact {
    type V = ArtifactView;

    open spec fn view(&self) -> ArtifactView {
        ArtifactView {
            kind: self.kind,
            name: self.name@,
            path: self.path@,
            size_bytes: self.size_bytes,
            metadata: kvs(self.metadata@),
        }
    }
}

/// An identifier without surrounding white space, or nothing where that leaves no text.
pub open spec fn id_text(raw: Seq<char>) -> Option<Seq<char>> {
    if blank(raw) {
        None
    } else {
        Some(trimmed(raw))
    }
}

/// An identifier without surrounding white space, or nothing where that leaves no text.
pub fn to_optional_id(raw: &str) -> (r: Option<String>)
    ensures
        opt_text(r) == id_text(raw@),
{
    let t: &str = trim(raw);
    if t.is_empty() {
        None
    } else {
        Some(t.to_owned())
    }
}

/// The text, or the empty text where there is none.
pub open spec fn or_empty(o: Option<Seq<char>>) -> Seq<char> {
    match o {
        Some(s) => s,
        None => Seq::empty(),
    }
}

/// The text, or the empty text where there is none.
pub fn text_or_empty(o: &Option<String>) -> (r: String)
    ensures
        r@ == or_empty(opt_text(*o)),
{
    match o {
        Some(s) => s.clone(),
        None => String::new(),
    }
}

/// The text, or `fallback` where there is none.
pub open spec fn or_else(o: Option<Seq<char>>, fallback: Seq<char>) -> Seq<char> {
    match o {
        Some(s) => s,
        None => fallback,
    }
}

/// The text, or `fallback` where there is none.
pub fn text_or<'a>(o: &'a Option<String>, fallback: &'a str) -> (r: &'a str)
    ensures
        r@ == or_else(opt_text(*o), fallback@),
{
    match o {
        Some(s) => s.as_str(),
        None => fallback,
    }
}

/// The value, or zero where there is none.
pub open spec fn or_zero(o: Option<i64>) -> i64 {
    match o {
        Some(n) => n,
        None => 0,
    }
}

/// The value, or zero where there is none.
pub fn millis_or_zero(o: Option<i64>) -> (r: i64)
    ensures
        r == or_zero(o),
{
    match o {
        Some(n) => n,
        None => 0,
    }
}

/// A typed id counts exactly where it is not blank, and then without the white space around it; an
/// id that is not there counts as the empty text, or as what stands for it.
pub proof fn law_ids(raw: Seq<char>, id: Option<Seq<char>>, fallback: Seq<char>, at: Option<i64>)
    ensures
        id_text(raw) is Some <==> !blank(raw),
        id_text(raw) matches Some(t) ==> t == trimmed(raw) && t.len() > 0,
        id matches Some(t) ==> or_empty(id) == t && or_else(id, fallback) == t,
        id is None ==> or_empty(id).len() == 0 && or_else(id, fallback) == fallback,
        at matches Some(n) ==> or_zero(at) == n,
        at is None ==> or_zero(at) == 0,
{
}

/// A job has ended exactly where it succeeded, failed or was cancelled: not where it is queued or
/// running.
pub proof fn law_ended_states(state: JobState)
    ensures
        state.terminal() <==> !(state == JobState::Unspecified || state == JobState::Queued || state
            == JobState::Running),
{
}

/// What is seen of a pair is its key and its value.
pub proof fn law_pair_is_seen_whole(pair: KeyValue)
    ensures
        pair@.key == pair.key@,
        pair@.value == pair.value@,
{
}

/// What is seen of an artifact is what it holds, each part in its place.
pub proof fn law_artifact_is_seen_whole(artifact: Artifact)
    ensures
        artifact@.kind == artifact.kind,
        artifact@.name == artifact.name@,
        artifact@.path == artifact.path@,
        artifact@.size_bytes == artifact.size_bytes,
        artifact@.metadata == kvs(artifact.metadata@),
{
}

/// What is seen of pairs is each pair, in order.
pub proof fn law_pairs_are_seen_whole(v: Seq<KeyValue>, i: int, key: Seq<char>, value: Seq<char>)
    requires
        0 <= i < v.len(),
    ensures
        kvs(v).len() == v.len(),
        kvs(v)[i].key == v[i].key@,
        kvs(v)[i].value == v[i].value@,
        kv(key, value).key == key,
        kv(key, value).value == value,
{
}

} // verus!
