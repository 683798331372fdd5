use fuzz_corpus::errors::Error;
use fuzz_corpus::metadata::MetadataValue;
use fuzz_corpus::testcase::InputPayload;
use fuzz_corpus::testcase::Testcase;

#[test]
fn new_testcase_is_in_memory_and_unowned() {
    let tc = Testcase::new("input_0001");
    assert_eq!(tc.get_filename(), "input_0001");
    assert!(!tc.is_on_disk());
    assert_eq!(tc.handle(), 0);
    assert_eq!(tc.metadata_len(), 0);
}

#[test]
fn load_input_without_cache_is_unimplemented() {
    let tc = Testcase::new("missing");
    assert!(matches!(tc.load_input(), Err(Error::Unimplemented)));
}

#[test]
fn load_input_returns_cached_payload() {
    let mut tc = Testcase::new("seed");
    tc.cache_input(InputPayload::new(vec![0xde, 0xad, 0xbe, 0xef]));
    let payload = tc.load_input().unwrap();
    assert_eq!(payload.bytes(), &vec![0xde, 0xad, 0xbe, 0xef]);
}

#[test]
fn metadata_round_trips_by_kind() {
    let mut tc = Testcase::new("seed");
    let prev = tc.add_metadata("coverage".to_owned(), MetadataValue::CoverageMap(vec![1, 0, 3]));
    assert!(prev.is_none());
    let prev = tc.add_metadata("exec_time".to_owned(), MetadataValue::ExecTimeUs(1500));
    assert!(prev.is_none());
    assert_eq!(tc.metadata_len(), 2);
    assert_eq!(
        tc.get_metadata("coverage"),
        Some(&MetadataValue::CoverageMap(vec![1, 0, 3]))
    );
    assert_eq!(tc.get_metadata("exec_time"), Some(&MetadataValue::ExecTimeUs(1500)));
    assert!(tc.get_metadata("minimized").is_none());
}

#[test]
fn metadata_insert_replaces_and_returns_previous() {
    let mut tc = Testcase::new("seed");
    tc.add_metadata("stage".to_owned(), MetadataValue::MinimizationStage(1));
    let prev = tc.add_metadata("stage".to_owned(), MetadataValue::MinimizationStage(2));
    assert_eq!(prev, Some(MetadataValue::MinimizationStage(1)));
    assert_eq!(tc.metadata_len(), 1);
    assert_eq!(tc.get_metadata("stage"), Some(&MetadataValue::MinimizationStage(2)));
}

#[test]
fn metadata_store_is_mutable_in_place() {
    let mut tc = Testcase::new("seed");
    let store = tc.get_metadatas();
    store.insert("stage".to_owned(), MetadataValue::MinimizationStage(4));
    assert_eq!(tc.metadata_len(), 1);
    assert_eq!(tc.get_metadata("stage"), Some(&MetadataValue::MinimizationStage(4)));
}

#[test]
fn clone_keeps_identity_and_payload() {
    let mut tc = Testcase::new("seed");
    tc.add_metadata("exec_time".to_owned(), MetadataValue::ExecTimeUs(99));
    tc.cache_input(InputPayload::new(vec![7, 7]));
    let copy = tc.clone();
    assert_eq!(copy.handle(), tc.handle());
    assert_eq!(copy.get_filename(), "seed");
    assert_eq!(copy.get_metadata("exec_time"), Some(&MetadataValue::ExecTimeUs(99)));
    assert_eq!(copy.load_input().unwrap().bytes(), &vec![7, 7]);
}
