use nmkup::error::Error;
use nmkup::metadata::{
    cached_from_remote, encode_cache, parse_cache, validate_metadata, CachedMetadata, ObjectMeta,
};

fn remote(generation: &str) -> ObjectMeta {
    ObjectMeta {
        name: "nmk.tar.xz".to_string(),
        generation: generation.to_string(),
        media_link: "https://example.invalid/nmk.tar.xz".to_string(),
        size: 1024,
    }
}

#[test]
fn test_cache_round_trip() {
    // Saving a record and loading it back yields the identical generation.
    let record = CachedMetadata { generation: "1592125427137583".to_string() };
    let encoded = encode_cache(&record);
    assert_eq!(encoded, "generation=1592125427137583\n");
    let loaded = parse_cache(&encoded).expect("a saved record must load");
    assert_eq!(loaded.generation, record.generation);
}

#[test]
fn test_cache_round_trip_from_remote() {
    let rem = remote("8080");
    let record = cached_from_remote(&rem);
    let loaded = parse_cache(&encode_cache(&record)).expect("a saved record must load");
    assert_eq!(loaded.generation, rem.generation);
}

#[test]
fn test_parse_cache_rejects_corrupt_records() {
    // A corrupt record is indistinguishable from a missing one: both load as
    // nothing and simply trigger reinstallation.
    assert!(parse_cache("").is_none());
    assert!(parse_cache("garbage").is_none());
    assert!(parse_cache("generation=").is_none());
    assert!(parse_cache("gen=123\n").is_none());
}

#[test]
fn test_parse_cache_reads_first_line() {
    let loaded = parse_cache("generation=123\ntrailing noise").expect("first line is valid");
    assert_eq!(loaded.generation, "123");
}

#[test]
fn test_validate_metadata() {
    assert_eq!(validate_metadata(&remote("170")), Ok(()));
    assert_eq!(validate_metadata(&remote("")), Err(Error::MalformedResponse));
    assert_eq!(validate_metadata(&remote("1\n2")), Err(Error::MalformedResponse));
    assert_eq!(
        Error::MalformedResponse.message(),
        "malformed object store response"
    );
}
