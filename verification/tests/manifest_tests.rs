use cargo_ros2ws::error::Ros2wsError;
use cargo_ros2ws::manifest::Manifest;
use cargo_ros2ws::validate::ensure_abs_path;

#[test]
fn test_manifest_write_to_error() {
    // relative destination paths are rejected before any write
    assert!(ensure_abs_path("./relative").is_err());
    assert!(ensure_abs_path("../relative").is_err());
    assert!(matches!(
        ensure_abs_path("relative"),
        Err(Ros2wsError::NotAbsolutePath(p)) if p == "relative"
    ));
}

#[test]
fn test_manifest_add_member_from_empty() {
    let ans = "[workspace]\nmembers = [\"/test1\", \"/test2/test2\"]\n";

    let mut manifest = Manifest::init();
    manifest.add_member("/test1").unwrap();
    manifest.add_member("/test2/test2").unwrap();

    assert_eq!(manifest.to_toml_string(), ans);
    assert_eq!(
        manifest.members().unwrap(),
        vec![Some("/test1".to_string()), Some("/test2/test2".to_string())]
    );
}

#[test]
fn test_manifest_add_member_with_content() {
    let content = "\n[workspace]\nmembers = [\"/test1\"]\n\n[patch.crate-io]\nhoge = { path = \"/hoge/hoge\" }\n";
    let ans = "\n[workspace]\nmembers = [\"/test1\", \"/test2/test2\"]\n\n[patch.crate-io]\nhoge = { path = \"/hoge/hoge\" }\n";

    let mut manifest = Manifest::from_toml_str(content).unwrap();
    manifest.add_member("/test2/test2").unwrap();

    assert_eq!(manifest.to_toml_string(), ans);
}

#[test]
fn test_manifest_add_member_with_duplicate() {
    let ans = "[workspace]\nmembers = [\"/test1\", \"/test2/test2\"]\n";

    let mut manifest = Manifest::from_toml_str("").unwrap();
    manifest.add_member("/test1").unwrap();
    manifest.add_member("/test2/test2").unwrap();
    manifest.add_member("/test1").unwrap();
    manifest.add_member("/test2/test2").unwrap();

    assert_eq!(manifest.to_toml_string(), ans);
}

#[test]
fn test_manifest_add_member_error() {
    let mut manifest = Manifest::from_toml_str("").unwrap();
    assert!(manifest.add_member("test").is_err());
}

#[test]
fn test_manifest_add_patch_from_empty() {
    let ans = "[patch.crates-io]\nhoge = { path = \"/hoge\" }\nfuga = { path = \"/fuga/fuga\" }\n";

    let mut manifest = Manifest::from_toml_str("").unwrap();
    manifest.add_patch("hoge", "/hoge").unwrap();
    manifest.add_patch("fuga", "/fuga/fuga").unwrap();

    assert_eq!(manifest.to_toml_string(), ans);
    assert_eq!(manifest.patch_path("hoge").unwrap(), Some("/hoge".to_string()));
    assert_eq!(manifest.patch_path("fuga").unwrap(), Some("/fuga/fuga".to_string()));
}

#[test]
fn test_manifest_add_patch_with_content() {
    let content = "\n[workspace]\nmembers = [\"/test1\"]\n\n[patch.crates-io]\nhoge = { path = \"/hoge/hoge\" }\n";
    let ans = "\n[workspace]\nmembers = [\"/test1\"]\n\n[patch.crates-io]\nhoge = { path = \"/hoge/hoge\" }\nfuga = { path = \"/fuga/fuga\" }\n";

    let mut manifest = Manifest::from_toml_str(content).unwrap();
    manifest.add_patch("fuga", "/fuga/fuga").unwrap();

    assert_eq!(manifest.to_toml_string(), ans);
}

#[test]
fn test_manifest_add_patch_with_override() {
    let ans = "[patch.crates-io]\nhoge = { path = \"/piyo\" }\n";

    let mut manifest = Manifest::from_toml_str("").unwrap();
    manifest.add_patch("hoge", "/hoge").unwrap();
    manifest.add_patch("hoge", "/fuga").unwrap();
    manifest.add_patch("hoge", "/piyo").unwrap();

    assert_eq!(manifest.to_toml_string(), ans);
    assert_eq!(manifest.patch_path("hoge").unwrap(), Some("/piyo".to_string()));
}

#[test]
fn test_manifest_add_patch_error() {
    let mut manifest = Manifest::from_toml_str("").unwrap();
    // empty crate name
    assert!(manifest.add_patch("", "/test").is_err());
    // relative path
    assert!(manifest.add_patch("hoge", "hoge").is_err());
    assert!(manifest.add_patch("hoge", "./hoge").is_err());
    assert!(manifest.add_patch("hoge", "../hoge").is_err());
}

#[test]
fn test_round_trip_preserves_unrelated_content() {
    let content = "# top comment\ntitle = \"x\"\n\n[unrelated.section]\nkey = 1   # trailing comment\nother = { a = 2 ,  b = 3 }\n\n[workspace]\nmembers = [\"/m1\"]\n";
    let manifest = Manifest::from_toml_str(content).unwrap();
    assert_eq!(manifest.to_toml_string(), content);
}

#[test]
fn test_parse_failed_error() {
    let r = Manifest::from_toml_str("= not toml");
    assert!(matches!(r, Err(Ros2wsError::ParseFailed(_))));
}

#[test]
fn test_add_member_empty_path_error() {
    let mut manifest = Manifest::init();
    assert!(matches!(
        manifest.add_member(""),
        Err(Ros2wsError::NotAbsolutePath(p)) if p.is_empty()
    ));
}

#[test]
fn test_add_member_schema_error_workspace() {
    let content = "workspace = 1\n";
    let mut manifest = Manifest::from_toml_str(content).unwrap();
    let e = manifest.add_member("/test").unwrap_err();
    assert_eq!(
        e,
        Ros2wsError::InvalidManifestFile("workspace".to_string(), "table".to_string())
    );
    // the failed mutation left the document unchanged
    assert_eq!(manifest.to_toml_string(), content);
}

#[test]
fn test_add_member_schema_error_members() {
    let content = "[workspace]\nmembers = 5\n";
    let mut manifest = Manifest::from_toml_str(content).unwrap();
    let e = manifest.add_member("/test").unwrap_err();
    assert_eq!(
        e,
        Ros2wsError::InvalidManifestFile("workspace.members".to_string(), "array".to_string())
    );
    assert_eq!(manifest.to_toml_string(), content);
}

#[test]
fn test_add_patch_schema_error_patch() {
    let content = "patch = \"x\"\n";
    let mut manifest = Manifest::from_toml_str(content).unwrap();
    let e = manifest.add_patch("hoge", "/hoge").unwrap_err();
    assert_eq!(
        e,
        Ros2wsError::InvalidManifestFile("patch".to_string(), "table".to_string())
    );
    assert_eq!(manifest.to_toml_string(), content);
}

#[test]
fn test_add_patch_schema_error_crates_io() {
    let content = "[patch]\ncrates-io = 1\n";
    let mut manifest = Manifest::from_toml_str(content).unwrap();
    let e = manifest.add_patch("hoge", "/hoge").unwrap_err();
    assert_eq!(
        e,
        Ros2wsError::InvalidManifestFile("patch.crates-io".to_string(), "table".to_string())
    );
}

#[test]
fn test_add_member_idempotent_with_prior_content() {
    let content = "[workspace]\nmembers = [\"/a\", \"/b\"]\n# tail\n";
    let mut manifest = Manifest::from_toml_str(content).unwrap();
    manifest.add_member("/c").unwrap();
    let once = manifest.to_toml_string();
    manifest.add_member("/c").unwrap();
    let twice = manifest.to_toml_string();
    assert_eq!(once, twice);
    // an already-present path is a no-op from the start
    manifest.add_member("/a").unwrap();
    assert_eq!(manifest.to_toml_string(), twice);
}

#[test]
fn test_add_member_keeps_order() {
    let mut manifest = Manifest::from_toml_str("[workspace]\nmembers = [\"/a\", \"/b\"]\n").unwrap();
    manifest.add_member("/c").unwrap();
    assert_eq!(
        manifest.members().unwrap(),
        vec![
            Some("/a".to_string()),
            Some("/b".to_string()),
            Some("/c".to_string())
        ]
    );
}

#[test]
fn test_add_patch_upsert_keeps_single_record() {
    let mut manifest =
        Manifest::from_toml_str("[patch.crates-io]\nhoge = { path = \"/hoge/hoge\" }\n").unwrap();
    manifest.add_patch("hoge", "/piyo").unwrap();
    assert_eq!(manifest.patch_path("hoge").unwrap(), Some("/piyo".to_string()));
    let out = manifest.to_toml_string();
    assert_eq!(out.matches("hoge").count(), 1);
    assert_eq!(out.matches("/piyo").count(), 1);
}

#[test]
fn test_getters_on_missing_sections() {
    let manifest = Manifest::init();
    assert_eq!(manifest.members().unwrap(), Vec::<Option<String>>::new());
    assert_eq!(manifest.patch_path("hoge").unwrap(), None);
}

#[test]
fn test_init_is_empty_document() {
    let manifest = Manifest::init();
    assert_eq!(manifest.to_toml_string(), "");
}

#[test]
fn test_members_getter_schema_error() {
    let manifest = Manifest::from_toml_str("workspace = [1]\n").unwrap();
    assert!(manifest.members().is_err());
    let manifest = Manifest::from_toml_str("[workspace]\nmembers = \"x\"\n").unwrap();
    assert!(manifest.members().is_err());
}

#[test]
fn test_non_string_members_are_kept() {
    let mut manifest = Manifest::from_toml_str("[workspace]\nmembers = [1]\n").unwrap();
    manifest.add_member("/a").unwrap();
    assert_eq!(
        manifest.members().unwrap(),
        vec![None, Some("/a".to_string())]
    );
}

#[test]
fn test_parse_skips_leading_byte_order_mark() {
    let manifest = Manifest::from_toml_str("\u{feff}key = 1\n").unwrap();
    assert_eq!(manifest.to_toml_string(), "key = 1\n");
}

#[test]
fn test_add_patch_keeps_other_records_in_order() {
    let content = "[patch.crates-io]\nhoge = { path = \"/hoge\" }\nfuga = { path = \"/fuga\" }\n";
    let mut manifest = Manifest::from_toml_str(content).unwrap();
    manifest.add_patch("hoge", "/piyo").unwrap();
    assert_eq!(
        manifest.to_toml_string(),
        "[patch.crates-io]\nhoge = { path = \"/piyo\" }\nfuga = { path = \"/fuga\" }\n"
    );
}

#[test]
fn test_parse_adds_missing_final_newline() {
    let manifest = Manifest::from_toml_str("key = 1").unwrap();
    assert_eq!(manifest.to_toml_string(), "key = 1\n");
}

#[test]
fn test_parse_rewrites_crlf_line_ending() {
    let manifest = Manifest::from_toml_str("a = 1\r\n").unwrap();
    assert_eq!(manifest.to_toml_string(), "a = 1\n");
}

#[test]
fn test_add_member_keeps_workspace_siblings() {
    let content = "[workspace]\nresolver = \"2\"\nmembers = [\"/a\"]\n";
    let mut manifest = Manifest::from_toml_str(content).unwrap();
    manifest.add_member("/b").unwrap();
    assert_eq!(
        manifest.to_toml_string(),
        "[workspace]\nresolver = \"2\"\nmembers = [\"/a\", \"/b\"]\n"
    );
}

#[test]
fn test_add_patch_keeps_patch_siblings() {
    let content = "[patch.crate-io]\nhoge = { path = \"/hoge\" }\n\n[patch.crates-io]\nfuga = { path = \"/fuga\" }\n";
    let mut manifest = Manifest::from_toml_str(content).unwrap();
    manifest.add_patch("piyo", "/piyo").unwrap();
    assert_eq!(
        manifest.to_toml_string(),
        "[patch.crate-io]\nhoge = { path = \"/hoge\" }\n\n[patch.crates-io]\nfuga = { path = \"/fuga\" }\npiyo = { path = \"/piyo\" }\n"
    );
}

#[test]
fn test_add_patch_hides_bare_patch_header() {
    // an explicit [patch] header with no direct keys disappears once the
    // mutation marks the table implicit: an implicit table with no direct
    // key-values prints no header
    let content = "[patch]\n[patch.crates-io]\nhoge = { path = \"/a\" }\n";
    let mut manifest = Manifest::from_toml_str(content).unwrap();
    manifest.add_patch("fuga", "/b").unwrap();
    let out = manifest.to_toml_string();
    assert!(!out.contains("[patch]\n"));
    assert!(out.contains("[patch.crates-io]"));
    assert_eq!(manifest.patch_path("fuga").unwrap(), Some("/b".to_string()));
}
