use nmkup::error::Error;
use nmkup::metadata::ObjectMeta;
use nmkup::vendor::{
    filter_by_os_release, filter_vendor_archives, get_display_name, parse_choice,
    select_vendor_files, OsReleaseId,
};

fn meta(name: &str) -> ObjectMeta {
    ObjectMeta {
        name: name.to_string(),
        generation: "1".to_string(),
        media_link: String::new(),
        size: 0,
    }
}

#[test]
fn test_filter_by_os_release_ubuntu() {
    let input = vec![
        meta("nmk-vendor-ubuntu-x64.tar.xz"),
        meta("nmk-vendor-centos-x64.tar.xz"),
    ];
    let out = filter_by_os_release(input, Some(OsReleaseId::Ubuntu));
    assert_eq!(out.len(), 1);
    assert_eq!(out[0].name, "nmk-vendor-ubuntu-x64.tar.xz");
}

#[test]
fn test_filter_by_os_release_unresolved_host() {
    let input = vec![
        meta("nmk-vendor-ubuntu-x64.tar.xz"),
        meta("nmk-vendor-centos-x64.tar.xz"),
    ];
    let out = filter_by_os_release(input, None);
    assert_eq!(out.len(), 2);
    assert_eq!(out[0].name, "nmk-vendor-ubuntu-x64.tar.xz");
    assert_eq!(out[1].name, "nmk-vendor-centos-x64.tar.xz");
}

#[test]
fn test_filter_vendor_archives() {
    let input = vec![
        meta("nmk-vendor/"),
        meta("nmk-vendor/a.tar.xz"),
        meta("nmk-vendor/readme.txt"),
        meta("nmk-vendor/b.tar.xz"),
    ];
    let out = filter_vendor_archives(input);
    assert_eq!(out.len(), 2);
    assert_eq!(out[0].name, "nmk-vendor/a.tar.xz");
    assert_eq!(out[1].name, "nmk-vendor/b.tar.xz");
}

#[test]
fn test_get_display_name() {
    let objects = vec![
        meta("nmk-vendor/nmk-vendor-ubuntu-x64.tar.xz"),
        meta("plain-name.tar.xz"),
    ];
    let names = get_display_name(&objects);
    assert_eq!(names, vec!["nmk-vendor-ubuntu-x64.tar.xz", "plain-name.tar.xz"]);
}

#[test]
fn test_from_os_release_id() {
    assert_eq!(OsReleaseId::from_os_release_id("amzn"), Some(OsReleaseId::Amazon));
    assert_eq!(OsReleaseId::from_os_release_id("centos"), Some(OsReleaseId::CentOs));
    assert_eq!(OsReleaseId::from_os_release_id("debian"), Some(OsReleaseId::Debian));
    assert_eq!(OsReleaseId::from_os_release_id("ubuntu"), Some(OsReleaseId::Ubuntu));
    assert_eq!(OsReleaseId::from_os_release_id("fedora"), None);
    assert_eq!(OsReleaseId::from_os_release_id(""), None);
}

#[test]
fn test_parse_choice() {
    assert_eq!(parse_choice("abc", 3), None);
    assert_eq!(parse_choice("5", 3), None);
    assert_eq!(parse_choice("0", 3), None);
    assert_eq!(parse_choice("2", 3), Some(1));
    assert_eq!(parse_choice(" 2\n", 3), Some(1));
    assert_eq!(parse_choice("", 3), None);
    assert_eq!(parse_choice("99999999999999999999999999", 3), None);
}

#[test]
fn test_select_prompting_rejects_until_valid() {
    // Three candidates; the first three input lines are rejected and the
    // fourth chooses candidate 2 (one-based).
    let objects = vec![meta("a.tar.xz"), meta("b.tar.xz"), meta("c.tar.xz")];
    let inputs: Vec<String> = ["abc", "5", "0", "2"].iter().map(|s| s.to_string()).collect();
    for rejected in &inputs[..3] {
        assert_eq!(parse_choice(rejected, objects.len()), None);
    }
    assert_eq!(select_vendor_files(&objects, &inputs), Ok(Some(1)));
}

#[test]
fn test_select_no_candidates() {
    let objects: Vec<ObjectMeta> = Vec::new();
    let inputs: Vec<String> = vec!["1".to_string()];
    let got = select_vendor_files(&objects, &inputs);
    assert_eq!(got, Err(Error::NoCandidates));
    assert_eq!(Error::NoCandidates.message(), "no vendor candidate for this host");
}

#[test]
fn test_select_single_candidate_skips_prompt() {
    let objects = vec![meta("only.tar.xz")];
    let inputs: Vec<String> = Vec::new();
    assert_eq!(select_vendor_files(&objects, &inputs), Ok(Some(0)));
}

#[test]
fn test_select_inputs_exhausted() {
    let objects = vec![meta("a.tar.xz"), meta("b.tar.xz")];
    let inputs: Vec<String> = vec!["x".to_string(), "9".to_string()];
    assert_eq!(select_vendor_files(&objects, &inputs), Ok(None));
}
