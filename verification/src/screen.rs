//! What the widgets hold after a change: the choices in lists, the fields that show what is worked
//! with, the length of a log, and the size of the window.

use crate::context::{project_reference, ActiveContext};
use crate::text::{blank, cat4, is_blank, opt_text, text_eq, texts, trim_owned, trimmed};
use crate::util::opt_str;
use vstd::prelude::*;
use vstd::string::*;

verus! {

/// The version of SDK toolchains that is offered where none is known.
pub const SDK_VERSION: &'static str = "36.0.0";

/// The version of NDK toolchains that is offered where none is known.
pub const NDK_VERSION: &'static str = "r29";

/// The choice that stands for none, at the head of a list.
pub const NO_CHOICE: &'static str = "none";

/// The first place of a text in a list.
pub open spec fn place_of(items: Seq<Seq<char>>, wanted: Seq<char>) -> Option<int>
    decreases items.len(),
{
    if items.len() == 0 {
        None
    } else {
        match place_of(items.drop_last(), wanted) {
            Some(i) => Some(i),
            None => if items.last() == wanted {
                Some(items.len() - 1)
            } else {
                None
            },
        }
    }
}

proof fn lemma_place_of(items: Seq<Seq<char>>, wanted: Seq<char>)
    ensures
        match place_of(items, wanted) {
            Some(i) => 0 <= i < items.len() && items[i] == wanted && forall|j: int|
                0 <= j < i ==> #[trigger] items[j] != wanted,
            None => forall|j: int| 0 <= j < items.len() ==> #[trigger] items[j] != wanted,
        },
    decreases items.len(),
{
    if items.len() > 0 {
        let rest = items.drop_last();
        lemma_place_of(rest, wanted);
        assert forall|j: int| 0 <= j < rest.len() implies #[trigger] items[j] == rest[j] by {}
    }
}

fn find_text(items: &Vec<String>, wanted: &str) -> (r: Option<usize>)
    ensures
        match r {
            Some(i) => place_of(texts(items@), wanted@) == Some(i as int) && i < items@.len(),
            None => place_of(texts(items@), wanted@) is None,
        },
{
    let ghost all = texts(items@);
    let mut found: Option<usize> = None;
    for i in 0..items.len()
        invariant
            all == texts(items@),
            match found {
                Some(k) => place_of(all.take(i as int), wanted@) == Some(k as int) && k < i,
                None => place_of(all.take(i as int), wanted@) is None,
            },
    {
        assert(all.take(i + 1).drop_last() =~= all.take(i as int));
        assert(all.take(i + 1).last() == items@[i as int]@);
        if found.is_none() && text_eq(items[i].as_str(), wanted) {
            found = Some(i);
        }
    }
    assert(all.take(items@.len() as int) =~= all);
    found
}

/// What is wanted in a list that was filled again: what was chosen before, or else what is
/// preferred.
pub open spec fn wanted(current: Option<Seq<char>>, preferred: Option<Seq<char>>) -> Option<
    Seq<char>,
> {
    match current {
        Some(c) => Some(c),
        None => preferred,
    }
}

/// The place that is chosen among versions: that of the wanted one, or else the first.
pub open spec fn version_place(
    versions: Seq<Seq<char>>,
    current: Option<Seq<char>>,
    preferred: Option<Seq<char>>,
) -> int {
    match wanted(current, preferred) {
        Some(w) => match place_of(versions, w) {
            Some(i) => i,
            None => 0,
        },
        None => 0,
    }
}

/// The place that is chosen among versions.
pub fn choose_version(versions: &Vec<String>, current: Option<&str>, preferred: Option<&str>) -> (r:
    usize)
    ensures
        r == version_place(texts(versions@), opt_str(current), opt_str(preferred)),
        versions@.len() > 0 ==> r < versions@.len(),
{
    let desired: Option<&str> = match current {
        Some(c) => Some(c),
        None => preferred,
    };
    match desired {
        Some(w) => match find_text(versions, w) {
            Some(i) => i,
            None => 0,
        },
        None => 0,
    }
}

/// The place that is chosen in a list with the choice for none at its head: that of the wanted one
/// where it is there and not blank, or else `otherwise`.
pub open spec fn option_place(
    ids: Seq<Seq<char>>,
    current: Option<Seq<char>>,
    preferred: Option<Seq<char>>,
    otherwise: int,
) -> int {
    match wanted(current, preferred) {
        Some(w) => if blank(w) {
            otherwise
        } else if w == NO_CHOICE@ {
            0
        } else {
            match place_of(ids, w) {
                Some(i) => i + 1,
                None => otherwise,
            }
        },
        None => otherwise,
    }
}

fn choose_option(ids: &Vec<String>, current: Option<&str>, preferred: Option<&str>, otherwise: usize) -> (r:
    usize)
    requires
        otherwise <= ids@.len(),
    ensures
        r == option_place(texts(ids@), opt_str(current), opt_str(preferred), otherwise as int),
        r <= ids@.len(),
{
    let desired: Option<&str> = match current {
        Some(c) => Some(c),
        None => preferred,
    };
    match desired {
        Some(w) => {
            if is_blank(w) {
                otherwise
            } else if text_eq(w, NO_CHOICE) {
                0
            } else {
                match find_text(ids, w) {
                    Some(i) => {
                        assert(i < ids.len());
                        i + 1
                    },
                    None => otherwise,
                }
            }
        },
        None => otherwise,
    }
}

/// What a template is called in the list of templates.
pub fn template_label(name: &str, id: &str) -> (r: String)
    ensures
        r@ == name@ + " ("@ + id@ + ")"@,
{
    cat4(name, " (", id, ")")
}

/// The place that is chosen among templates: without a wanted one, the first template where there
/// is any.
pub fn choose_template(ids: &Vec<String>, current: Option<&str>, preferred: Option<&str>) -> (r:
    usize)
    ensures
        r == option_place(
            texts(ids@),
            opt_str(current),
            opt_str(preferred),
            if ids@.len() == 0 {
                0
            } else {
                1
            },
        ),
        r <= ids@.len(),
{
    let otherwise: usize = if ids.len() == 0 {
        0
    } else {
        1
    };
    choose_option(ids, current, preferred, otherwise)
}

/// The place that is chosen among toolchain sets or targets: without a wanted one, none.
pub fn choose_default(ids: &Vec<String>, current: Option<&str>, preferred: Option<&str>) -> (r:
    usize)
    ensures
        r == option_place(texts(ids@), opt_str(current), opt_str(preferred), 0),
        r <= ids@.len(),
{
    choose_option(ids, current, preferred, 0)
}

/// What was chosen before stays chosen when a list is filled again and still holds it.
pub proof fn law_choice_stays(
    ids: Seq<Seq<char>>,
    current: Seq<char>,
    preferred: Option<Seq<char>>,
    otherwise: int,
)
    requires
        ids.contains(current),
        !blank(current),
        current != NO_CHOICE@,
    ensures
        ids[option_place(ids, Some(current), preferred, otherwise) - 1] == current,
        ids[version_place(ids, Some(current), preferred)] == current,
{
    lemma_place_of(ids, current);
    let k = choose|k: int| 0 <= k < ids.len() && ids[k] == current;
    assert(ids[k] == current);
}

/// What the pages show of what is worked with.
#[derive(Debug)]
pub struct ContextFields {
    pub run_id: String,
    pub project_id: String,
    pub project_path: String,
    pub toolchain_set_id: String,
    pub target_id: String,
    /// What is chosen in the list of toolchain sets.
    pub toolchain_choice: String,
    /// What is chosen in the list of targets.
    pub target_choice: String,
    /// What the build page shows as the project.
    pub project_ref: String,
}

/// The choice that stands for an id: a blank one stands for none.
pub open spec fn choice_for(id: Seq<char>) -> Seq<char> {
    if blank(id) {
        NO_CHOICE@
    } else {
        trimmed(id)
    }
}

fn choice_of(id: &str) -> (r: String)
    ensures
        r@ == choice_for(id@),
{
    if is_blank(id) {
        NO_CHOICE.to_owned()
    } else {
        trim_owned(id)
    }
}

/// What the pages show of what is worked with.
pub fn context_fields(ctx: &ActiveContext) -> (r: ContextFields)
    ensures
        r.run_id@ == trimmed(ctx.run_id@),
        r.project_id@ == trimmed(ctx.project_id@),
        r.project_path@ == trimmed(ctx.project_path@),
        r.toolchain_set_id@ == trimmed(ctx.toolchain_set_id@),
        r.target_id@ == trimmed(ctx.target_id@),
        r.toolchain_choice@ == choice_for(ctx.toolchain_set_id@),
        r.target_choice@ == choice_for(ctx.target_id@),
        r.project_ref@ == trimmed(project_reference(ctx.project_id@, ctx.project_path@)),
{
    let project: String = ctx.project_ref();
    ContextFields {
        run_id: trim_owned(ctx.run_id.as_str()),
        project_id: trim_owned(ctx.project_id.as_str()),
        project_path: trim_owned(ctx.project_path.as_str()),
        toolchain_set_id: trim_owned(ctx.toolchain_set_id.as_str()),
        target_id: trim_owned(ctx.target_id.as_str()),
        toolchain_choice: choice_of(ctx.toolchain_set_id.as_str()),
        target_choice: choice_of(ctx.target_id.as_str()),
        project_ref: trim_owned(project.as_str()),
    }
}

/// The project in which the workflow page looks for an application id: only where it shows none.
pub fn looks_in_project(application_id: &str, ctx: &ActiveContext) -> (r: Option<String>)
    ensures
        opt_text(r) == if blank(application_id@) && !blank(ctx.project_path@) {
            Some(trimmed(ctx.project_path@))
        } else {
            None
        },
{
    if is_blank(application_id) && !is_blank(ctx.project_path.as_str()) {
        Some(trim_owned(ctx.project_path.as_str()))
    } else {
        None
    }
}

/// What the projects page takes over of what is worked with, field by field.
#[derive(Debug)]
pub struct ProjectsFill {
    pub project_id: Option<String>,
    pub toolchain_choice: Option<String>,
    pub target_choice: Option<String>,
}

/// Nothing is chosen.
pub open spec fn unchosen(id: Option<Seq<char>>) -> bool {
    match id {
        Some(i) => i.len() == 0 || i == NO_CHOICE@,
        None => true,
    }
}

fn is_unchosen(id: Option<&str>) -> (r: bool)
    ensures
        r == unchosen(opt_str(id)),
{
    match id {
        Some(i) => i.is_empty() || text_eq(i, NO_CHOICE),
        None => true,
    }
}

/// What is taken over for a field that is empty; nothing where nothing is worked with.
pub open spec fn taken_over(empty: bool, value: Seq<char>) -> Option<Seq<char>> {
    if empty && !blank(value) {
        Some(trimmed(value))
    } else {
        None
    }
}

fn take_over(empty: bool, value: &str) -> (r: Option<String>)
    ensures
        opt_text(r) == taken_over(empty, value@),
{
    if empty && !is_blank(value) {
        Some(trim_owned(value))
    } else {
        None
    }
}

/// What the projects page takes over of what is worked with: each field only where it is empty.
pub fn fill_projects(
    project_id: &str,
    toolchain_choice: Option<&str>,
    target_choice: Option<&str>,
    ctx: &ActiveContext,
) -> (r: ProjectsFill)
    ensures
        opt_text(r.project_id) == taken_over(blank(project_id@), ctx.project_id@),
        opt_text(r.toolchain_choice) == taken_over(
            unchosen(opt_str(toolchain_choice)),
            ctx.toolchain_set_id@,
        ),
        opt_text(r.target_choice) == taken_over(
            unchosen(opt_str(target_choice)),
            ctx.target_id@,
        ),
{
    ProjectsFill {
        project_id: take_over(is_blank(project_id), ctx.project_id.as_str()),
        toolchain_choice: take_over(
            is_unchosen(toolchain_choice),
            ctx.toolchain_set_id.as_str(),
        ),
        target_choice: take_over(is_unchosen(target_choice), ctx.target_id.as_str()),
    }
}

/// The most lines that a page shows of its log.
pub const PAGE_MAX_LINES: i32 = 2_000;

/// The most characters that a page shows of its log.
pub const PAGE_MAX_CHARS: i32 = 200_000;

/// How many characters go at a time where a page shows too many.
pub const PAGE_TRIM_CHARS: i32 = 20_000;

/// How many lines go from the head of a page's log.
pub fn lines_to_cut(line_count: i32) -> (r: i32)
    ensures
        r == if line_count > PAGE_MAX_LINES {
            line_count - PAGE_MAX_LINES
        } else {
            0
        },
{
    if line_count > PAGE_MAX_LINES {
        line_count - PAGE_MAX_LINES
    } else {
        0
    }
}

/// How many characters go from the head of a page's log.
pub fn chars_to_cut(char_count: i32) -> (r: i32)
    ensures
        r == if char_count > PAGE_MAX_CHARS {
            PAGE_TRIM_CHARS
        } else {
            0
        },
{
    if char_count > PAGE_MAX_CHARS {
        PAGE_TRIM_CHARS
    } else {
        0
    }
}

/// A length, unless the greatest possible one is smaller; one that is not positive is unknown.
pub open spec fn fitted(length: i32, greatest: i32) -> i32 {
    if 0 < greatest < length {
        greatest
    } else {
        length
    }
}

/// The size of the window at first, given the greatest possible one where that is known.
pub fn window_size(greatest: Option<(i32, i32)>) -> (r: (i32, i32))
    ensures
        r == match greatest {
            Some((w, h)) => (fitted(1100, w), fitted(700, h)),
            None => (1100i32, 700i32),
        },
{
    match greatest {
        Some((w, h)) => {
            let width: i32 = if 0 < w && w < 1100 {
                w
            } else {
                1100
            };
            let height: i32 = if 0 < h && h < 700 {
                h
            } else {
                700
            };
            (width, height)
        },
        None => (1100, 700),
    }
}

/// What a filled list shows as chosen is what was chosen before, else what is preferred, wherever the
/// list holds it; else it is what is chosen without either. The entry for none stands first.
pub proof fn law_choices(
    ids: Seq<Seq<char>>,
    current: Option<Seq<char>>,
    preferred: Option<Seq<char>>,
    otherwise: int,
)
    ensures
        ({
            let place = option_place(ids, current, preferred, otherwise);
            let version = version_place(ids, current, preferred);
            let asked = if current is Some {
                current
            } else {
                preferred
            };
            &&& asked matches Some(w) ==> {
                &&& w == "none"@ ==> place == if blank(w) {
                    otherwise
                } else {
                    0
                }
                &&& blank(w) ==> place == otherwise
                &&& !blank(w) && w != "none"@ && ids.contains(w) ==> 1 <= place <= ids.len()
                    && ids[place - 1] == w && forall|j: int|
                    0 <= j < place - 1 ==> (#[trigger] ids[j]) != w
                &&& !blank(w) && w != "none"@ && !ids.contains(w) ==> place == otherwise
                &&& ids.contains(w) ==> 0 <= version < ids.len() && ids[version] == w && forall|
                    j: int,
                | 0 <= j < version ==> (#[trigger] ids[j]) != w
                &&& !ids.contains(w) ==> version == 0
            }
            &&& asked is None ==> place == otherwise && version == 0
        }),
{
    let asked = if current is Some {
        current
    } else {
        preferred
    };
    if asked is Some {
        let w = asked->0;
        lemma_place_of(ids, w);
        if ids.contains(w) {
            let k = choose|k: int| 0 <= k < ids.len() && ids[k] == w;
            assert(ids[k] == w);
        }
    }
}

/// The list shows what is worked with, without the white space around it, or none.
pub proof fn law_choice_for(id: Seq<char>)
    ensures
        blank(id) ==> choice_for(id) == "none"@,
        !blank(id) ==> choice_for(id) == trimmed(id),
        unchosen(None) && unchosen(Some(Seq::empty())) && unchosen(Some("none"@)),
        id.len() > 0 && id != "none"@ ==> !unchosen(Some(id)),
{
}

/// A field takes a value over exactly where the field is empty and the value is not blank.
pub proof fn law_taken_over(empty: bool, value: Seq<char>)
    ensures
        taken_over(empty, value) is Some <==> empty && !blank(value),
        taken_over(empty, value) matches Some(v) ==> v == trimmed(value),
{
}

/// A window is as large as asked for, but no larger than the screen where its size is known.
pub proof fn law_fitted(length: i32, greatest: i32)
    ensures
        greatest > 0 ==> fitted(length, greatest) <= greatest && fitted(length, greatest) <= length
            && (fitted(length, greatest) == greatest || fitted(length, greatest) == length),
        greatest <= 0 ==> fitted(length, greatest) == length,
{
}

} // verus!
