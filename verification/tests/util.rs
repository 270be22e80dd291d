use aadk::util::{
    build_addr, data_dir, default_export_path, default_export_path_at, endpoint, env_addr,
    expand_user, file_name, job_addr, join_path, millis_of, now_millis, observe_addr, project_addr,
    state_dir, state_file_path, targets_addr, text_ref, toolchain_addr, workflow_addr,
};
use std::path::Path;

#[test]
fn job_addr_defaults() {
    assert_eq!(job_addr(None), "127.0.0.1:50051");
    assert_eq!(job_addr(Some("10.0.0.1:1")), "10.0.0.1:1");
}

#[test]
fn every_service_has_its_address() {
    assert_eq!(toolchain_addr(None), "127.0.0.1:50052");
    assert_eq!(project_addr(None), "127.0.0.1:50053");
    assert_eq!(build_addr(None), "127.0.0.1:50054");
    assert_eq!(targets_addr(None), "127.0.0.1:50055");
    assert_eq!(observe_addr(None), "127.0.0.1:50056");
    assert_eq!(workflow_addr(None), "127.0.0.1:50057");
    assert_eq!(toolchain_addr(Some("t")), "t");
    assert_eq!(project_addr(Some("p")), "p");
    assert_eq!(build_addr(Some("b")), "b");
    assert_eq!(targets_addr(Some("g")), "g");
    assert_eq!(observe_addr(Some("o")), "o");
    assert_eq!(workflow_addr(Some("w")), "w");
    assert_eq!(env_addr(Some(""), "default"), "");
    assert_eq!(env_addr(None, "default"), "default");
}

#[test]
fn endpoints_are_plain_http() {
    assert_eq!(endpoint("127.0.0.1:50051"), "http://127.0.0.1:50051");
}

#[test]
fn paths_are_joined_as_std_joins_them() {
    for base in ["/home/u", "/home/u/", "", "rel", "/"] {
        for child in ["state", "", "/abs", "a/b", ".local/share/aadk"] {
            let expected = Path::new(base).join(child);
            assert_eq!(join_path(base, child), expected.to_str().unwrap(), "{base} {child}");
        }
    }
}

#[test]
fn data_lives_under_home() {
    assert_eq!(data_dir(Some("/home/u")), "/home/u/.local/share/aadk");
    assert_eq!(data_dir(None), "/tmp/aadk");
    assert_eq!(state_dir(Some("/home/u")), "/home/u/.local/share/aadk/state");
    assert_eq!(state_dir(None), "/tmp/aadk/state");
    assert_eq!(
        state_file_path(Some("/home/u"), "jobs.json"),
        "/home/u/.local/share/aadk/state/jobs.json"
    );
}

#[test]
fn the_users_home_is_expanded() {
    assert_eq!(expand_user("~/x/y", Some("/home/u")), "/home/u/x/y");
    assert_eq!(expand_user("~", Some("/home/u")), "/home/u/");
    assert_eq!(expand_user("~x", Some("/home/u")), "~x");
    assert_eq!(expand_user("/a/~/b", Some("/home/u")), "/a/~/b");
    assert_eq!(expand_user("~/x", None), "~/x");
    assert_eq!(expand_user("", Some("/home/u")), "");
    assert_eq!(
        expand_user("~", Some("/home/u")),
        Path::new("/home/u").join("").to_str().unwrap()
    );
}

#[test]
fn file_names_are_those_of_std() {
    for path in [
        "/a/b.apk", "b.apk", "/a/b/", "/", "", "..", "a/..", ".", "a/.", "a//", "/a/./", "~", "a/b//c",
        "./x", "x/./.", "é/ü",
    ] {
        let expected = Path::new(path).file_name().map(|n| n.to_str().unwrap().to_string());
        assert_eq!(file_name(path), expected, "{path}");
    }
}

#[test]
fn readings_of_the_clock_become_milliseconds() {
    assert_eq!(millis_of(None), 0);
    assert_eq!(millis_of(Some(0)), 0);
    assert_eq!(millis_of(Some(1_700_000_000_123)), 1_700_000_000_123);
    assert_eq!(millis_of(Some(i64::MAX as u128)), i64::MAX);
    assert_eq!(millis_of(Some(i64::MAX as u128 + 1)), i64::MIN);
    assert_eq!(millis_of(Some(u128::MAX)), -1);
}

#[test]
fn the_clock_runs() {
    let first = now_millis();
    assert!(first > 1_600_000_000_000);
    assert!(now_millis() >= first);
}

#[test]
fn export_paths_name_prefix_job_and_time() {
    assert_eq!(
        default_export_path_at(Some("/h"), "ui-job-export", "job-1", 42),
        "/h/.local/share/aadk/state/ui-job-export-job-1-42.json"
    );
    let path = default_export_path(None, "ui-job-export", "j");
    assert!(path.starts_with("/tmp/aadk/state/ui-job-export-j-"));
    assert!(path.ends_with(".json"));
    let time = &path["/tmp/aadk/state/ui-job-export-j-".len()..path.len() - ".json".len()];
    assert!(time.parse::<i64>().unwrap() > 1_600_000_000_000);
}

#[test]
fn optional_texts_are_borrowed() {
    assert_eq!(text_ref(&Some("a".to_string())), Some("a"));
    assert_eq!(text_ref(&None), None);
}
