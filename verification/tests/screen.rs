use aadk::context::ActiveContext;
use aadk::screen::{
    chars_to_cut, choose_default, choose_template, choose_version, context_fields, fill_projects,
    lines_to_cut, looks_in_project, template_label, window_size, NO_CHOICE,
};

fn texts(all: &[&str]) -> Vec<String> {
    all.iter().map(|x| x.to_string()).collect()
}

fn context() -> ActiveContext {
    ActiveContext {
        run_id: " r ".to_string(),
        project_id: " p ".to_string(),
        project_path: " /p ".to_string(),
        toolchain_set_id: "s".to_string(),
        target_id: " ".to_string(),
    }
}

#[test]
fn a_version_is_chosen() {
    let versions = texts(&["r27", "r28", "r29"]);
    assert_eq!(choose_version(&versions, Some("r28"), Some("r29")), 1);
    assert_eq!(choose_version(&versions, None, Some("r29")), 2);
    assert_eq!(choose_version(&versions, Some("r1"), Some("r29")), 0);
    assert_eq!(choose_version(&versions, None, None), 0);
}

#[test]
fn a_template_is_chosen() {
    let ids = texts(&["a", "b"]);
    assert_eq!(choose_template(&ids, Some("b"), None), 2);
    assert_eq!(choose_template(&ids, None, Some("a")), 1);
    assert_eq!(choose_template(&ids, Some("gone"), Some("gone too")), 1);
    assert_eq!(choose_template(&texts(&[]), Some("a"), None), 0);
}

#[test]
fn a_default_is_chosen() {
    let ids = texts(&["a", "b"]);
    assert_eq!(choose_default(&ids, Some("b"), Some("a")), 2);
    assert_eq!(choose_default(&ids, None, Some("b")), 2);
    assert_eq!(choose_default(&ids, None, None), 0);
}

#[test]
fn what_was_chosen_stays_chosen() {
    let before = texts(&["a", "b"]);
    let after = texts(&["c", "b"]);
    assert_eq!(choose_default(&before, Some("b"), Some("a")), 2);
    assert_eq!(choose_default(&after, Some("b"), Some("c")), 2);
    assert_eq!(choose_template(&after, Some("b"), Some("c")), 2);
    assert_eq!(choose_version(&after, Some("b"), Some("c")), 1);
}

#[test]
fn the_context_fills_the_pages() {
    let fields = context_fields(&context());
    assert_eq!(fields.run_id, "r");
    assert_eq!(fields.project_id, "p");
    assert_eq!(fields.project_path, "/p");
    assert_eq!(fields.toolchain_choice, "s");
    assert_eq!(fields.target_choice, NO_CHOICE);
    assert_eq!(fields.project_ref, "p");
    assert_eq!(NO_CHOICE, "none");
}

#[test]
fn an_application_id_is_looked_for_where_there_is_none() {
    assert_eq!(looks_in_project(" ", &context()), Some("/p".to_string()));
    assert_eq!(looks_in_project("com.a", &context()), None);
    let mut ctx = context();
    ctx.project_path = String::new();
    assert_eq!(looks_in_project("", &ctx), None);
}

#[test]
fn the_projects_page_is_filled_where_empty() {
    let fill = fill_projects("", Some("none"), None, &context());
    assert_eq!(fill.project_id, Some("p".to_string()));
    assert_eq!(fill.toolchain_choice, Some("s".to_string()));
    assert_eq!(fill.target_choice, None);
    let fill = fill_projects("kept", Some("other"), Some(""), &context());
    assert_eq!(fill.project_id, None);
    assert_eq!(fill.toolchain_choice, None);
    assert_eq!(fill.target_choice, None);
}

#[test]
fn windows_fit_on_the_screen() {
    assert_eq!(window_size(None), (1100, 700));
    assert_eq!(window_size(Some((900, 600))), (900, 600));
    assert_eq!(window_size(Some((5000, 5000))), (1100, 700));
    assert_eq!(window_size(Some((0, -1))), (1100, 700));
}

#[test]
fn long_pages_are_cut() {
    assert_eq!(lines_to_cut(2_000), 0);
    assert_eq!(lines_to_cut(2_001), 1);
    assert_eq!(lines_to_cut(-1), 0);
    assert_eq!(chars_to_cut(200_000), 0);
    assert_eq!(chars_to_cut(200_001), 20_000);
}

#[test]
fn templates_are_listed_by_name_and_id() {
    assert_eq!(template_label("Compose App", "tmpl-1"), "Compose App (tmpl-1)");
}
