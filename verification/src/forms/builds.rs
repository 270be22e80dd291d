//! The build page.

use crate::commands::{ArtifactFilter, UiCommand};
use crate::config::AppConfig;
use crate::forms::shared::{choose_job, job_choice, remember, remembered, variant_at, variant_of};
use crate::model::{kv, kvs, lemma_kvs_push, metric, ArtifactType, KeyValue, KeyValueView};
use crate::text::{
    list_tokens, lowered, parse_list_tokens, parse_words, text_eq, texts, to_lower, trim_owned,
    trimmed, words,
};
use crate::ui_state::BuildState;
use vstd::prelude::*;
use vstd::string::*;

verus! {

/// Arguments for Gradle: each word is a key without a value.
pub open spec fn gradle_words(words: Seq<Seq<char>>) -> Seq<KeyValueView> {
    Seq::new(words.len(), |i: int| kv(words[i], ""@))
}

/// Arguments for Gradle: each word is a key without a value.
pub fn parse_gradle_args(raw: &str) -> (r: Vec<KeyValue>)
    ensures
        kvs(r@) == gradle_words(words(raw@)),
{
    broadcast use lemma_kvs_push;

    let tokens: Vec<String> = parse_words(raw);
    let ghost all = gradle_words(texts(tokens@));
    let mut args: Vec<KeyValue> = Vec::new();
    assert(kvs(args@) =~= all.take(0));
    for i in 0..tokens.len()
        invariant
            all == gradle_words(texts(tokens@)),
            kvs(args@) == all.take(i as int),
    {
        args.push(metric(tokens[i].as_str(), ""));
        assert(all.take(i + 1) =~= all.take(i as int).push(all[i as int]));
    }
    assert(all.take(tokens@.len() as int) =~= all);
    args
}

/// The artifact type that a word names.
pub open spec fn type_named(word: Seq<char>) -> Option<ArtifactType> {
    let w = lowered(word);
    if w == "apk"@ {
        Some(ArtifactType::Apk)
    } else if w == "aab"@ || w == "bundle"@ {
        Some(ArtifactType::Aab)
    } else if w == "aar"@ {
        Some(ArtifactType::Aar)
    } else if w == "mapping"@ || w == "mapping.txt"@ {
        Some(ArtifactType::Mapping)
    } else if w == "test"@ || w == "tests"@ || w == "test_result"@ || w == "test-results"@ {
        Some(ArtifactType::TestResult)
    } else {
        None
    }
}

fn type_of(word: &str) -> (r: Option<ArtifactType>)
    ensures
        r == type_named(word@),
{
    let lower: String = to_lower(word);
    let w: &str = lower.as_str();
    if text_eq(w, "apk") {
        Some(ArtifactType::Apk)
    } else if text_eq(w, "aab") || text_eq(w, "bundle") {
        Some(ArtifactType::Aab)
    } else if text_eq(w, "aar") {
        Some(ArtifactType::Aar)
    } else if text_eq(w, "mapping") || text_eq(w, "mapping.txt") {
        Some(ArtifactType::Mapping)
    } else if text_eq(w, "test") || text_eq(w, "tests") || text_eq(w, "test_result") || text_eq(
        w,
        "test-results",
    ) {
        Some(ArtifactType::TestResult)
    } else {
        None
    }
}

/// The artifact types that words name; words that name none are passed over.
pub open spec fn types_named(words: Seq<Seq<char>>) -> Seq<ArtifactType>
    decreases words.len(),
{
    if words.len() == 0 {
        Seq::empty()
    } else {
        let before = types_named(words.drop_last());
        match type_named(words.last()) {
            Some(t) => before.push(t),
            None => before,
        }
    }
}

/// The artifact types that a list names.
pub fn parse_artifact_types(raw: &str) -> (r: Vec<ArtifactType>)
    ensures
        r@ == types_named(list_tokens(raw@)),
{
    let tokens: Vec<String> = parse_list_tokens(raw);
    let ghost all = texts(tokens@);
    let mut types: Vec<ArtifactType> = Vec::new();
    assert(types@ =~= types_named(all.take(0)));
    for i in 0..tokens.len()
        invariant
            all == texts(tokens@),
            types@ == types_named(all.take(i as int)),
    {
        assert(all.take(i + 1).drop_last() =~= all.take(i as int));
        if let Some(t) = type_of(tokens[i].as_str()) {
            types.push(t);
        }
    }
    assert(all.take(tokens@.len() as int) =~= all);
    types
}

/// The button that runs a build.
pub fn run_build(cfg: &mut AppConfig, form: &BuildState) -> (r: UiCommand)
    ensures
        *final(cfg) == remembered(*old(cfg), form.job_id, form.correlation_id),
        r matches UiCommand::BuildRun {
            cfg: c,
            project_ref,
            variant,
            variant_name,
            module,
            tasks,
            clean_first,
            gradle_args,
            job_id,
            correlation_id,
        } && {
            &&& c == *final(cfg)
            &&& project_ref == form.project_ref
            &&& variant == variant_at(form.variant_index)
            &&& variant_name == form.variant_name
            &&& module == form.module
            &&& texts(tasks@) == list_tokens(form.tasks@)
            &&& clean_first == form.clean_first
            &&& kvs(gradle_args@) == gradle_words(words(form.gradle_args@))
            &&& job_id == job_choice(form.use_job_id, form.job_id)
            &&& correlation_id == form.correlation_id
        },
{
    remember(cfg, &form.job_id, &form.correlation_id);
    UiCommand::BuildRun {
        cfg: cfg.clone(),
        project_ref: form.project_ref.clone(),
        variant: variant_of(form.variant_index),
        variant_name: form.variant_name.clone(),
        module: form.module.clone(),
        tasks: parse_list_tokens(form.tasks.as_str()),
        clean_first: form.clean_first,
        gradle_args: parse_gradle_args(form.gradle_args.as_str()),
        job_id: choose_job(form.use_job_id, &form.job_id),
        correlation_id: form.correlation_id.clone(),
    }
}

/// The button that lists what builds produced.
pub fn list_artifacts(cfg: &AppConfig, form: &BuildState) -> (r: UiCommand)
    ensures
        r matches UiCommand::BuildListArtifacts { cfg: c, project_ref, variant, filter } && {
            &&& c == *cfg
            &&& project_ref == form.project_ref
            &&& variant == variant_at(form.variant_index)
            &&& texts(filter.modules@) == list_tokens(form.artifact_modules@)
            &&& filter.variant@ == trimmed(form.artifact_variant@)
            &&& filter.types@ == types_named(list_tokens(form.artifact_types@))
            &&& filter.name_contains@ == trimmed(form.artifact_name@)
            &&& filter.path_contains@ == trimmed(form.artifact_path@)
        },
{
    UiCommand::BuildListArtifacts {
        cfg: cfg.clone(),
        project_ref: form.project_ref.clone(),
        variant: variant_of(form.variant_index),
        filter: ArtifactFilter {
            modules: parse_list_tokens(form.artifact_modules.as_str()),
            variant: trim_owned(form.artifact_variant.as_str()),
            types: parse_artifact_types(form.artifact_types.as_str()),
            name_contains: trim_owned(form.artifact_name.as_str()),
            path_contains: trim_owned(form.artifact_path.as_str()),
        },
    }
}

/// Each kind of artifact has its names, in any case; any other word names none.
pub proof fn law_artifact_names(word: Seq<char>)
    ensures
        lowered(word) == "apk"@ ==> type_named(word) == Some(ArtifactType::Apk),
        lowered(word) == "aab"@ ==> type_named(word) == Some(ArtifactType::Aab),
        lowered(word) == "bundle"@ ==> type_named(word) == Some(ArtifactType::Aab),
        lowered(word) == "aar"@ ==> type_named(word) == Some(ArtifactType::Aar),
        lowered(word) == "mapping"@ ==> type_named(word) == Some(ArtifactType::Mapping),
        lowered(word) == "mapping.txt"@ ==> type_named(word) == Some(ArtifactType::Mapping),
        lowered(word) == "test"@ ==> type_named(word) == Some(ArtifactType::TestResult),
        lowered(word) == "tests"@ ==> type_named(word) == Some(ArtifactType::TestResult),
        lowered(word) == "test_result"@ ==> type_named(word) == Some(ArtifactType::TestResult),
        lowered(word) == "test-results"@ ==> type_named(word) == Some(ArtifactType::TestResult),
        !("apk"@ == lowered(word) || "aab"@ == lowered(word) || "bundle"@ == lowered(word) || "aar"@ == lowered(word) || "mapping"@ == lowered(word) || "mapping.txt"@ == lowered(word) || "test"@ == lowered(word) || "tests"@ == lowered(word) || "test_result"@ == lowered(word) || "test-results"@ == lowered(word))
            ==> type_named(word) is None,
{
    reveal_strlit("apk");
    reveal_strlit("aab");
    reveal_strlit("bundle");
    reveal_strlit("aar");
    reveal_strlit("mapping");
    reveal_strlit("mapping.txt");
    reveal_strlit("test");
    reveal_strlit("tests");
    reveal_strlit("test_result");
    reveal_strlit("test-results");
    let w = lowered(word);
    if w =~= "aar"@ {
        assert(w[1] == 'a' && w[2] == 'r');
        assert("apk"@[1] == 'p' && "aab"@[2] == 'b');
    }
    if w =~= "aab"@ {
        assert(w[1] == 'a' && "apk"@[1] == 'p');
    }
    if w =~= "test_result"@ || w =~= "mapping.txt"@ {
        assert("mapping.txt"@[0] == 'm' && "test_result"@[0] == 't');
    }
}

/// A further word adds the kind that it names behind those before, or nothing where it names none;
/// and each word for Gradle is an argument of its own, in order.
pub proof fn law_words_of_the_form(words: Seq<Seq<char>>, more: Seq<char>, i: int)
    requires
        0 <= i < words.len(),
    ensures
        types_named(Seq::empty()).len() == 0,
        type_named(more) matches Some(t) ==> types_named(words.push(more)) == types_named(
            words,
        ).push(t),
        type_named(more) is None ==> types_named(words.push(more)) == types_named(words),
        gradle_words(words).len() == words.len(),
        gradle_words(words)[i].key == words[i],
        gradle_words(words)[i].value == ""@,
{
    assert(words.push(more).drop_last() =~= words);
}

} // verus!
