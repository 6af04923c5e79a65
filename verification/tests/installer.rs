use std::io::Write;

use nmkup::decompress::decompress_artifact;
use nmkup::error::Error;
use nmkup::installer::InstallState;

#[test]
fn test_interrupted_install_preserves_destination() {
    // The temporary sibling is partially written and the process dies before
    // the rename: the destination still holds the complete prior artifact.
    let prior = b"complete old binary".to_vec();
    let mut state = InstallState::begin(Some(prior.clone()));
    state.stage(b"half of the new bi");
    drop(state);

    let mut state = InstallState::begin(Some(prior.clone()));
    state.stage(b"half of the new bi");
    assert_eq!(state.dest, Some(prior));
}

#[test]
fn test_interrupted_install_keeps_destination_absent() {
    let mut state = InstallState::begin(None);
    state.stage(b"partial");
    assert_eq!(state.dest, None);
}

#[test]
fn test_commit_publishes_whole_payload() {
    let mut state = InstallState::begin(Some(b"old".to_vec()));
    state.stage(b"new art");
    state.stage(b"ifact");
    state.commit();
    assert_eq!(state.dest, Some(b"new artifact".to_vec()));
    assert!(state.temp.is_empty());
}

#[test]
fn test_decompress_artifact_round_trip() {
    let payload = b"precompiled vendor tools, many bytes of them".to_vec();
    let mut encoder = xz2::write::XzEncoder::new(Vec::new(), 6);
    encoder.write_all(&payload).expect("encoding is in memory");
    let compressed = encoder.finish().expect("encoding is in memory");
    assert_ne!(compressed, payload);
    let decoded = decompress_artifact(&compressed).expect("valid xz must decode");
    assert_eq!(decoded, payload);
}

#[test]
fn test_decompress_artifact_rejects_garbage() {
    let garbage = b"this is not an xz stream at all".to_vec();
    assert_eq!(decompress_artifact(&garbage), Err(Error::IoError));
    assert_eq!(Error::IoError.message(), "filesystem operation failed");
}
