use nmkup::metadata::{CachedMetadata, ObjectMeta};
use nmkup::staleness::{decide, is_entrypoint_up2date, Staleness};

fn remote(generation: &str) -> ObjectMeta {
    ObjectMeta {
        name: "nmk.tar.xz".to_string(),
        generation: generation.to_string(),
        media_link: "https://example.invalid/nmk.tar.xz".to_string(),
        size: 1024,
    }
}

fn cached(generation: &str) -> CachedMetadata {
    CachedMetadata { generation: generation.to_string() }
}

#[test]
fn test_staleness_decision_table() {
    // Exhaustive: force x artifact_present x {no cache, stale cache, matching
    // cache} against a remote at generation "170".
    let rem = remote("170");
    let stale = cached("169");
    let same = cached("170");
    for &force in &[false, true] {
        for &present in &[false, true] {
            for cache in &[None, Some(&stale), Some(&same)] {
                let got = decide(force, present, *cache, &rem);
                let expected = if force {
                    Staleness::NeedsInstall
                } else if !present {
                    Staleness::NeedsInstall
                } else {
                    match cache {
                        None => Staleness::NeedsInstall,
                        Some(c) => {
                            if c.generation == rem.generation {
                                Staleness::UpToDate
                            } else {
                                Staleness::NeedsInstall
                            }
                        }
                    }
                };
                assert_eq!(got, expected);
            }
        }
    }
}

#[test]
fn test_second_run_is_up_to_date() {
    // With identical markers and no force, a run decides UpToDate, and so
    // does any run after it: nothing is installed twice.
    let rem = remote("42");
    let cache = cached("42");
    let first = decide(false, true, Some(&cache), &rem);
    assert_eq!(first, Staleness::UpToDate);
    let second = decide(false, true, Some(&cache), &rem);
    assert_eq!(second, Staleness::UpToDate);
}

#[test]
fn test_force_always_installs() {
    let rem = remote("7");
    let same = cached("7");
    let other = cached("6");
    for &present in &[false, true] {
        for cache in &[None, Some(&same), Some(&other)] {
            assert_eq!(decide(true, present, *cache, &rem), Staleness::NeedsInstall);
        }
    }
}

#[test]
fn test_is_entrypoint_up2date() {
    let rem = remote("33");
    assert!(is_entrypoint_up2date(true, Some(&cached("33")), &rem));
    assert!(!is_entrypoint_up2date(true, Some(&cached("32")), &rem));
    assert!(!is_entrypoint_up2date(true, None, &rem));
    assert!(!is_entrypoint_up2date(false, Some(&cached("33")), &rem));
}
