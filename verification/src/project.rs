//! What a project's files say about its application id.

use crate::text::{
    blank, find_char, first_place, has_prefix, is_white_space, law_prefix_and_suffix, lemma_first_place,
    opt_text, split, split_char, strip_prefix, texts, trim, trim_owned, trimmed, white_space,
};
use crate::util::{join_path, joined_path, opt_str};
use vstd::prelude::*;
use vstd::string::*;

verus! {

/// Tells whether `c` opens a quoted value.
pub open spec fn is_quote(c: char) -> bool {
    c == '"' || c == '\''
}

/// The place of the first quotation mark in `s`, of either kind.
pub open spec fn first_quote(s: Seq<char>) -> Option<int>
    decreases s.len(),
{
    if s.len() == 0 {
        None
    } else if is_quote(s[0]) {
        Some(0)
    } else {
        match first_quote(s.drop_first()) {
            Some(i) => Some(i + 1),
            None => None,
        }
    }
}

proof fn lemma_first_quote(s: Seq<char>)
    ensures
        match first_quote(s) {
            Some(i) => 0 <= i < s.len() && is_quote(s[i]) && forall|j: int|
                0 <= j < i ==> !is_quote(#[trigger] s[j]),
            None => forall|j: int| 0 <= j < s.len() ==> !is_quote(#[trigger] s[j]),
        },
    decreases s.len(),
{
    if s.len() > 0 && !is_quote(s[0]) {
        let rest = s.drop_first();
        lemma_first_quote(rest);
        match first_quote(rest) {
            Some(i) => {
                assert forall|j: int| 0 <= j < i + 1 implies !is_quote(#[trigger] s[j]) by {
                    if j > 0 {
                        assert(rest[j - 1] == s[j]);
                    }
                }
            },
            None => {
                assert forall|j: int| 0 <= j < s.len() implies !is_quote(#[trigger] s[j]) by {
                    if j > 0 {
                        assert(rest[j - 1] == s[j]);
                    }
                }
            },
        }
    }
}

fn find_quote(s: &str) -> (r: Option<usize>)
    ensures
        match r {
            Some(i) => first_quote(s@) == Some(i as int) && i < s@.len(),
            None => first_quote(s@) is None,
        },
{
    let v: Vec<char> = crate::text::chars_of(s);
    proof {
        lemma_first_quote(s@);
    }
    for i in 0..v.len()
        invariant
            v@ == s@,
            forall|j: int| 0 <= j < i ==> !is_quote(#[trigger] s@[j]),
    {
        if v[i] == '"' || v[i] == '\'' {
            proof {
                lemma_first_quote(s@);
            }
            return Some(i);
        }
    }
    None
}

/// The first value in quotation marks, without white space around it: from the first mark to the
/// next one of the same kind. There is none where the second mark is missing or nothing is left.
pub open spec fn quoted_value(s: Seq<char>) -> Option<Seq<char>> {
    match first_quote(s) {
        Some(i) => {
            let rest = s.skip(i + 1);
            match first_place(rest, s[i]) {
                Some(e) => if blank(rest.take(e)) {
                    None
                } else {
                    Some(trimmed(rest.take(e)))
                },
                None => None,
            }
        },
        None => None,
    }
}

/// The first value in quotation marks.
pub fn extract_quoted_value(raw: &str) -> (r: Option<String>)
    ensures
        opt_text(r) == quoted_value(raw@),
{
    let start: usize = match find_quote(raw) {
        Some(i) => i,
        None => return None,
    };
    let n: usize = raw.unicode_len();
    let quote: char = raw.get_char(start);
    let rest: &str = raw.substring_char(start + 1, n);
    assert(rest@ =~= raw@.skip(start + 1));
    let end: usize = match find_char(rest, quote) {
        Some(e) => e,
        None => return None,
    };
    let inner: &str = rest.substring_char(0, end);
    assert(inner@ =~= rest@.take(end as int));
    let value: &str = trim(inner);
    if value.is_empty() {
        None
    } else {
        Some(value.to_owned())
    }
}

/// A value between two quotation marks of a kind that does not occur in it is found as it is, where
/// no mark stands before it, it is not empty, and no white space surrounds it.
pub proof fn law_quoted_value(before: Seq<char>, quote: char, value: Seq<char>, behind: Seq<char>)
    requires
        is_quote(quote),
        forall|j: int| 0 <= j < before.len() ==> !is_quote(#[trigger] before[j]),
        forall|j: int| 0 <= j < value.len() ==> #[trigger] value[j] != quote,
        value.len() > 0,
        trimmed(value) == value,
    ensures
        quoted_value(before.push(quote) + value.push(quote) + behind) == Some(value),
{
    let s = before.push(quote) + value.push(quote) + behind;
    lemma_first_quote(s);
    let n = before.len() as int;
    assert(s[n] == quote);
    match first_quote(s) {
        Some(i) => {
            if i < n {
                assert(s[i] == before[i]);
            }
            assert(i == n);
            let rest = s.skip(i + 1);
            lemma_first_place(rest, quote);
            let m = value.len() as int;
            assert(rest[m] == quote);
            match first_place(rest, quote) {
                Some(e) => {
                    if e < m {
                        assert(rest[e] == value[e]);
                    }
                    assert(e == m);
                    assert(rest.take(e) =~= value);
                },
                None => {
                    assert(rest[m] != quote);
                },
            }
        },
        None => {
            assert(!is_quote(s[n]));
        },
    }
}

/// The first value among lines, where each line has one or none.
pub open spec fn first_some(values: Seq<Option<Seq<char>>>) -> Option<Seq<char>>
    decreases values.len(),
{
    if values.len() == 0 {
        None
    } else {
        match first_some(values.drop_last()) {
            Some(v) => Some(v),
            None => values.last(),
        }
    }
}

/// The value that a line of a Gradle script gives to a key.
pub open spec fn gradle_line_value(line: Seq<char>, key: Seq<char>) -> Option<Seq<char>> {
    let t = trimmed(line);
    if has_prefix(t, key) {
        let rest = t.skip(key.len() as int);
        if rest.len() == 0 || white_space(rest[0]) || rest[0] == '=' {
            quoted_value(rest)
        } else {
            None
        }
    } else {
        None
    }
}

fn gradle_line(line: &str, key: &str) -> (r: Option<String>)
    ensures
        opt_text(r) == gradle_line_value(line@, key@),
{
    let t: &str = trim(line);
    match strip_prefix(t, key) {
        Some(rest) => {
            let n: usize = rest.unicode_len();
            if n == 0 || is_white_space(rest.get_char(0)) || rest.get_char(0) == '=' {
                extract_quoted_value(rest)
            } else {
                None
            }
        },
        None => None,
    }
}

/// The values of the lines of a Gradle script.
pub open spec fn gradle_values(lines: Seq<Seq<char>>, key: Seq<char>) -> Seq<Option<Seq<char>>> {
    Seq::new(lines.len(), |i: int| gradle_line_value(lines[i], key))
}

/// The value that a Gradle script gives to a key: that of the first line that gives one.
pub open spec fn gradle_value(contents: Seq<char>, key: Seq<char>) -> Option<Seq<char>> {
    first_some(gradle_values(split_char(contents, '\n'), key))
}

/// The value that a Gradle script gives to a key.
pub fn parse_gradle_value(contents: &str, key: &str) -> (r: Option<String>)
    ensures
        opt_text(r) == gradle_value(contents@, key@),
{
    let lines: Vec<String> = split(contents, '\n');
    let ghost all = gradle_values(texts(lines@), key@);
    let mut found: Option<String> = None;
    for i in 0..lines.len()
        invariant
            all == gradle_values(texts(lines@), key@),
            opt_text(found) == first_some(all.take(i as int)),
    {
        assert(all.take(i + 1).drop_last() =~= all.take(i as int));
        assert(all.take(i + 1).last() == gradle_line_value(lines@[i as int]@, key@));
        if found.is_none() {
            found = gradle_line(lines[i].as_str(), key);
        }
    }
    assert(all.take(lines@.len() as int) =~= all);
    found
}

/// The place of the first `part` in `s`.
pub open spec fn first_part(s: Seq<char>, part: Seq<char>) -> Option<int>
    decreases s.len(),
{
    if has_prefix(s, part) {
        Some(0)
    } else if s.len() == 0 {
        None
    } else {
        match first_part(s.drop_first(), part) {
            Some(i) => Some(i + 1),
            None => None,
        }
    }
}

/// What is left of `s` from the first `part` on.
fn from_part<'a>(s: &'a str, part: &str) -> (r: Option<&'a str>)
    ensures
        match r {
            Some(rest) => first_part(s@, part@) is Some && rest@ == s@.skip(
                first_part(s@, part@)->0,
            ),
            None => first_part(s@, part@) is None,
        },
{
    let n: usize = s.unicode_len();
    let mut i: usize = 0;
    assert(s@.skip(0) =~= s@);
    while i <= n
        invariant
            n == s@.len(),
            i <= n + 1,
            i <= n ==> first_part(s@, part@) == match first_part(s@.skip(i as int), part@) {
                Some(k) => Some(k + i),
                None => None,
            },
            i > n ==> first_part(s@, part@) is None,
        decreases n + 1 - i,
    {
        let rest: &str = s.substring_char(i, n);
        assert(rest@ =~= s@.skip(i as int));
        if strip_prefix(rest, part).is_some() {
            return Some(rest);
        }
        if i == n {
            return None;
        }
        assert(s@.skip(i as int).drop_first() =~= s@.skip(i + 1));
        i = i + 1;
    }
    None
}

/// The package that a line of a manifest names.
pub open spec fn manifest_line_value(line: Seq<char>) -> Option<Seq<char>> {
    match first_part(line, "package"@) {
        Some(i) => quoted_value(line.skip(i)),
        None => None,
    }
}

/// The packages of the lines of a manifest.
pub open spec fn manifest_values(lines: Seq<Seq<char>>) -> Seq<Option<Seq<char>>> {
    Seq::new(lines.len(), |i: int| manifest_line_value(lines[i]))
}

/// The package that a manifest names: that of the first line that names one.
pub open spec fn manifest_package(contents: Seq<char>) -> Option<Seq<char>> {
    first_some(manifest_values(split_char(contents, '\n')))
}

/// The package that a manifest names.
pub fn parse_manifest_package(contents: &str) -> (r: Option<String>)
    ensures
        opt_text(r) == manifest_package(contents@),
{
    let lines: Vec<String> = split(contents, '\n');
    let ghost all = manifest_values(texts(lines@));
    let mut found: Option<String> = None;
    for i in 0..lines.len()
        invariant
            all == manifest_values(texts(lines@)),
            opt_text(found) == first_some(all.take(i as int)),
    {
        assert(all.take(i + 1).drop_last() =~= all.take(i as int));
        assert(all.take(i + 1).last() == manifest_line_value(lines@[i as int]@));
        if found.is_none() {
            found = match from_part(lines[i].as_str(), "package") {
                Some(rest) => extract_quoted_value(rest),
                None => None,
            };
        }
    }
    assert(all.take(lines@.len() as int) =~= all);
    found
}

/// The files of a project that may name its application id.
#[derive(Debug)]
pub struct ProjectFiles {
    pub gradle_kts: String,
    pub gradle: String,
    pub manifest: String,
}

/// The paths of the files of a project that may name its application id; none for a blank path.
pub fn project_files(project_path: &str) -> (r: Option<ProjectFiles>)
    ensures
        match r {
            Some(f) => {
                let root = trimmed(project_path@);
                &&& !blank(project_path@)
                &&& f.gradle_kts@ == joined_path(root, "app/build.gradle.kts"@)
                &&& f.gradle@ == joined_path(root, "app/build.gradle"@)
                &&& f.manifest@ == joined_path(root, "app/src/main/AndroidManifest.xml"@)
            },
            None => blank(project_path@),
        },
{
    let root: &str = trim(project_path);
    if root.is_empty() {
        return None;
    }
    Some(
        ProjectFiles {
            gradle_kts: join_path(root, "app/build.gradle.kts"),
            gradle: join_path(root, "app/build.gradle"),
            manifest: join_path(root, "app/src/main/AndroidManifest.xml"),
        },
    )
}

/// The application id in a Gradle script, as far as there is one: its own, or else its namespace.
pub open spec fn gradle_application_id(contents: Option<Seq<char>>) -> Option<Seq<char>> {
    match contents {
        Some(c) => match gradle_value(c, "applicationId"@) {
            Some(id) => Some(id),
            None => gradle_value(c, "namespace"@),
        },
        None => None,
    }
}

fn gradle_application(contents: Option<&str>) -> (r: Option<String>)
    ensures
        opt_text(r) == gradle_application_id(opt_str(contents)),
{
    match contents {
        Some(c) => match parse_gradle_value(c, "applicationId") {
            Some(id) => Some(id),
            None => parse_gradle_value(c, "namespace"),
        },
        None => None,
    }
}

/// The application id of a project, given what its files hold as far as they can be read.
pub open spec fn application_id_of(
    gradle_kts: Option<Seq<char>>,
    gradle: Option<Seq<char>>,
    manifest: Option<Seq<char>>,
) -> Option<Seq<char>> {
    match gradle_application_id(gradle_kts) {
        Some(id) => Some(id),
        None => match gradle_application_id(gradle) {
            Some(id) => Some(id),
            None => match manifest {
                Some(c) => manifest_package(c),
                None => None,
            },
        },
    }
}

/// The application id of a project, given what its files hold as far as they can be read.
pub fn infer_application_id(
    gradle_kts: Option<&str>,
    gradle: Option<&str>,
    manifest: Option<&str>,
) -> (r: Option<String>)
    ensures
        opt_text(r) == application_id_of(opt_str(gradle_kts), opt_str(gradle), opt_str(manifest)),
{
    if let Some(id) = gradle_application(gradle_kts) {
        return Some(id);
    }
    if let Some(id) = gradle_application(gradle) {
        return Some(id);
    }
    match manifest {
        Some(c) => parse_manifest_package(c),
        None => None,
    }
}

/// The file whose presence marks a directory as a project; none for a blank path.
pub fn project_marker(project_path: &str) -> (r: Option<String>)
    ensures
        opt_text(r) == if blank(project_path@) {
            None
        } else {
            Some(joined_path(trimmed(project_path@), ".aadk/project.json"@))
        },
{
    let root: String = trim_owned(project_path);
    if root.as_str().is_empty() {
        return None;
    }
    Some(join_path(root.as_str(), ".aadk/project.json"))
}

/// Of several lines, the first that says something counts.
pub proof fn law_first_counts(values: Seq<Option<Seq<char>>>)
    ensures
        match first_some(values) {
            Some(v) => exists|i: int|
                #![trigger values[i]]
                0 <= i < values.len() && values[i] == Some(v) && forall|j: int|
                    0 <= j < i ==> (#[trigger] values[j]) is None,
            None => forall|i: int| 0 <= i < values.len() ==> (#[trigger] values[i]) is None,
        },
    decreases values.len(),
{
    if values.len() > 0 {
        let rest = values.drop_last();
        law_first_counts(rest);
        match first_some(rest) {
            Some(v) => {
                let i = choose|i: int|
                    #![trigger rest[i]]
                    0 <= i < rest.len() && rest[i] == Some(v) && forall|j: int|
                        0 <= j < i ==> (#[trigger] rest[j]) is None;
                assert(values[i] == rest[i]);
                assert forall|j: int| 0 <= j < i implies (#[trigger] values[j]) is None by {
                    assert(rest[j] == values[j]);
                }
            },
            None => {
                assert forall|j: int| 0 <= j < rest.len() implies (
                #[trigger] values[j]) is None by {
                    assert(rest[j] == values[j]);
                }
                assert(values[values.len() - 1] == values.last());
            },
        }
    }
}

/// A line of a Gradle file gives a value for a key only where the key stands first on it, as a word of
/// its own; then what stands between quotation marks behind it.
pub proof fn law_gradle_line(line: Seq<char>, key: Seq<char>)
    ensures
        gradle_line_value(line, key) is Some ==> {
            &&& key.is_prefix_of(trimmed(line))
            &&& trimmed(line).len() > key.len()
            &&& white_space(trimmed(line)[key.len() as int]) || trimmed(line)[key.len() as int]
                == '='
            &&& gradle_line_value(line, key) == quoted_value(trimmed(line).skip(key.len() as int))
        },
        key.is_prefix_of(trimmed(line)) && trimmed(line).len() > key.len() && (white_space(
            trimmed(line)[key.len() as int],
        ) || trimmed(line)[key.len() as int] == '=') ==> gradle_line_value(line, key)
            == quoted_value(trimmed(line).skip(key.len() as int)),
{
    law_prefix_and_suffix(trimmed(line), key);
    let t = trimmed(line);
    if has_prefix(t, key) {
        assert(t.take(key.len() as int) =~= key);
        let rest = t.skip(key.len() as int);
        if rest.len() == 0 {
            lemma_first_quote(rest);
            assert(quoted_value(rest) is None);
        } else {
            assert(rest[0] == t[key.len() as int]);
        }
    }
    if key.is_prefix_of(t) {
        assert(has_prefix(t, key));
    }
}

/// A line of a manifest gives what stands between quotation marks behind the first place where the
/// package is named, and nothing where it is not named.
pub proof fn law_manifest_line(before: Seq<char>, behind: Seq<char>)
    requires
        forall|i: int|
            0 <= i < before.len() ==> !("package"@.is_prefix_of(
                #[trigger] (before + "package"@ + behind).skip(i),
            )),
    ensures
        manifest_line_value(before + "package"@ + behind) == quoted_value("package"@ + behind),
    decreases before.len(),
{
    let line = before + "package"@ + behind;
    if before.len() == 0 {
        assert(line =~= "package"@ + behind);
        assert(line.take("package"@.len() as int) =~= "package"@);
        law_prefix_and_suffix(line, "package"@);
        assert(has_prefix(line, "package"@));
        assert(line.skip(0) =~= line);
    } else {
        let rest = before.drop_first();
        let all = rest + "package"@ + behind;
        assert(line.drop_first() =~= all);
        assert forall|i: int| 0 <= i < rest.len() implies !("package"@.is_prefix_of(
            #[trigger] all.skip(i),
        )) by {
            assert(all.skip(i) =~= line.skip(i + 1));
        }
        law_manifest_line(rest, behind);
        assert(line.skip(0) =~= line);
        law_prefix_and_suffix(line, "package"@);
        lemma_manifest_place(rest, behind);
        let i = first_part(all, "package"@)->0;
        assert(line.skip(i + 1) =~= all.skip(i));
    }
}

proof fn lemma_manifest_place(before: Seq<char>, behind: Seq<char>)
    ensures
        first_part(before + "package"@ + behind, "package"@) matches Some(i) && 0 <= i
            <= before.len(),
    decreases before.len(),
{
    let line = before + "package"@ + behind;
    if before.len() == 0 {
        assert(line =~= "package"@ + behind);
        assert(line.take("package"@.len() as int) =~= "package"@);
        law_prefix_and_suffix(line, "package"@);
        assert(has_prefix(line, "package"@));
    } else {
        assert(line.drop_first() =~= before.drop_first() + "package"@ + behind);
        lemma_manifest_place(before.drop_first(), behind);
    }
}

/// The application id is the one that a build file names, the Kotlin one before the other, else its
/// namespace; else the package of the manifest.
pub proof fn law_where_the_id_comes_from(
    gradle_kts: Option<Seq<char>>,
    gradle: Option<Seq<char>>,
    manifest: Option<Seq<char>>,
)
    ensures
        ({
            let id = application_id_of(gradle_kts, gradle, manifest);
            let silent = |file: Option<Seq<char>>|
                file is None || (gradle_value(file->0, "applicationId"@) is None && gradle_value(
                    file->0,
                    "namespace"@,
                ) is None);
            &&& gradle_kts matches Some(c) ==> gradle_value(c, "applicationId"@) is Some ==> id
                == gradle_value(c, "applicationId"@)
            &&& gradle_kts matches Some(c) ==> gradle_value(c, "applicationId"@) is None
                && gradle_value(c, "namespace"@) is Some ==> id == gradle_value(c, "namespace"@)
            &&& silent(gradle_kts) ==> (gradle matches Some(c) ==> {
                &&& gradle_value(c, "applicationId"@) is Some ==> id == gradle_value(
                    c,
                    "applicationId"@,
                )
                &&& gradle_value(c, "applicationId"@) is None && gradle_value(c, "namespace"@) is Some
                    ==> id == gradle_value(c, "namespace"@)
            })
            &&& silent(gradle_kts) && silent(gradle) ==> match manifest {
                Some(c) => id == manifest_package(c),
                None => id is None,
            }
        }),
{
}

/// Every line is looked at, each by itself.
pub proof fn law_lines_are_looked_at(contents: Seq<char>, key: Seq<char>, i: int)
    requires
        0 <= i < split_char(contents, '\n').len(),
    ensures
        gradle_values(split_char(contents, '\n'), key)[i] == gradle_line_value(
            split_char(contents, '\n')[i],
            key,
        ),
        manifest_values(split_char(contents, '\n'))[i] == manifest_line_value(
            split_char(contents, '\n')[i],
        ),
        gradle_values(split_char(contents, '\n'), key).len() == split_char(contents, '\n').len(),
        manifest_values(split_char(contents, '\n')).len() == split_char(contents, '\n').len(),
        gradle_value(contents, key) is None ==> gradle_line_value(
            split_char(contents, '\n')[i],
            key,
        ) is None,
        manifest_package(contents) is None ==> manifest_line_value(
            split_char(contents, '\n')[i],
        ) is None,
{
    law_first_counts(gradle_values(split_char(contents, '\n'), key));
    law_first_counts(manifest_values(split_char(contents, '\n')));
    assert(gradle_values(split_char(contents, '\n'), key)[i] == gradle_line_value(
        split_char(contents, '\n')[i],
        key,
    ));
    assert(manifest_values(split_char(contents, '\n'))[i] == manifest_line_value(
        split_char(contents, '\n')[i],
    ));
}

} // verus!
