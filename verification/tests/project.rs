use aadk::project::{
    extract_quoted_value, infer_application_id, parse_gradle_value, parse_manifest_package,
    project_files, project_marker,
};

#[test]
fn the_first_quoted_value_is_taken() {
    assert_eq!(extract_quoted_value("x \" a b \" \"c\""), Some("a b".to_string()));
    assert_eq!(extract_quoted_value("'it is' \"x\""), Some("it is".to_string()));
    assert_eq!(extract_quoted_value("\"it's\""), Some("it's".to_string()));
    assert_eq!(extract_quoted_value("\"open"), None);
    assert_eq!(extract_quoted_value("\"  \" \"x\""), None);
    assert_eq!(extract_quoted_value("none"), None);
    assert_eq!(extract_quoted_value("é\"ü\""), Some("ü".to_string()));
}

#[test]
fn gradle_values_stand_behind_their_key() {
    let script = "android {\n  applicationIdSuffix \".debug\"\n  applicationId\n  applicationId = \"com.a\"\n}\n";
    assert_eq!(parse_gradle_value(script, "applicationId"), Some("com.a".to_string()));
    assert_eq!(parse_gradle_value("namespace 'com.b'\r\n", "namespace"), Some("com.b".to_string()));
    assert_eq!(parse_gradle_value("namespace='c'", "namespace"), Some("c".to_string()));
    assert_eq!(parse_gradle_value("val namespace = \"x\"", "namespace"), None);
    assert_eq!(parse_gradle_value("", "namespace"), None);
}

#[test]
fn manifests_name_their_package() {
    assert_eq!(
        parse_manifest_package("<manifest\n  package=\"com.m\">\n"),
        Some("com.m".to_string())
    );
    assert_eq!(
        parse_manifest_package("a=\"no\" package='com.n' b=\"x\""),
        Some("com.n".to_string())
    );
    assert_eq!(parse_manifest_package("<!-- package -->\n<x package=\"y\">"), Some("y".to_string()));
    assert_eq!(parse_manifest_package("<manifest>"), None);
}

#[test]
fn scripts_come_before_the_manifest() {
    let both = "namespace = \"ns\"\napplicationId = \"app\"";
    assert_eq!(
        infer_application_id(Some(both), Some("applicationId 'other'"), None),
        Some("app".to_string())
    );
    assert_eq!(
        infer_application_id(Some("nothing"), Some("namespace 'ns'"), Some("package=\"m\"")),
        Some("ns".to_string())
    );
    assert_eq!(infer_application_id(None, None, Some("package=\"m\"")), Some("m".to_string()));
    assert_eq!(infer_application_id(None, None, None), None);
}

#[test]
fn the_files_of_a_project() {
    let files = project_files(" /p ").unwrap();
    assert_eq!(files.gradle_kts, "/p/app/build.gradle.kts");
    assert_eq!(files.gradle, "/p/app/build.gradle");
    assert_eq!(files.manifest, "/p/app/src/main/AndroidManifest.xml");
    assert!(project_files("  ").is_none());
    assert_eq!(project_marker("/p"), Some("/p/.aadk/project.json".to_string()));
    assert_eq!(project_marker(""), None);
}
