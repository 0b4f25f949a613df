use valence_testkit::checks::{
    scenario_env_key, select_validator, sweep_delete_applicable, telemetry_counter_check,
    ttl_capability_check, warn_once_check, Validator,
};
use valence_testkit::iter_scan::{
    bare_record_id, distinct_count, iter_page_query, iter_probe_id, IterScan, ITER_PAGE_SIZE,
    ITER_PROBE_ROWS,
};
use valence_testkit::matrix::StorageAdapter;
use valence_testkit::text::{decimal_string, zero_padded_decimal};
use valence_testkit::ttl::TtlCapability;

#[test]
fn decimal_formatting() {
    assert_eq!(decimal_string(0), "0");
    assert_eq!(decimal_string(7), "7");
    assert_eq!(decimal_string(1001), "1001");
    assert_eq!(decimal_string(u64::MAX), u64::MAX.to_string());
    assert_eq!(zero_padded_decimal(7, 4), "0007");
    assert_eq!(zero_padded_decimal(12345, 4), "12345");
}

#[test]
fn probe_ids_are_zero_padded() {
    assert_eq!(iter_probe_id(0), "r0000");
    assert_eq!(iter_probe_id(42), format!("r{:04}", 42));
    assert_eq!(iter_probe_id(1000), "r1000");
}

#[test]
fn page_queries_per_engine() {
    assert_eq!(
        iter_page_query("surrealdb", 1000),
        "SELECT VALUE id FROM catalog_iter_probe ORDER BY id ASC LIMIT 1000 START 1000"
    );
    assert_eq!(
        iter_page_query("sqlite", 0),
        "SELECT id FROM catalog_iter_probe ORDER BY id ASC LIMIT 1000 OFFSET 0"
    );
    assert_eq!(
        iter_page_query("hybrid_indra_sql", 2000),
        "SELECT id FROM catalog_iter_probe ORDER BY id ASC LIMIT 1000 OFFSET 2000"
    );
    assert_eq!(
        iter_page_query("inmemory", 5),
        "SELECT VALUE id FROM catalog_iter_probe ORDER BY id ASC LIMIT 1000 OFFSET 5"
    );
}

#[test]
fn bare_ids() {
    assert_eq!(bare_record_id("catalog_iter_probe:r0001"), "r0001");
    assert_eq!(bare_record_id("\"r0002\""), "r0002");
    assert_eq!(bare_record_id("a:b: \"r0003\" "), "r0003");
    assert_eq!(bare_record_id("plain"), "plain");
    assert_eq!(bare_record_id("x:"), "");
    assert_eq!(bare_record_id(" \"\" "), "");
}

#[test]
fn distinct_counting() {
    let ids: Vec<String> = ["a", "b", "a", "c", "b"].iter().map(|s| s.to_string()).collect();
    assert_eq!(distinct_count(&ids), 3);
    assert_eq!(distinct_count(&vec![]), 0);
}

#[test]
fn scan_completes_over_two_pages() {
    let mut scan = IterScan::new();
    assert_eq!(scan.offset(), 0);
    let first: Vec<String> = (0..ITER_PAGE_SIZE).map(|i| format!("t:r{i:04}")).collect();
    assert_eq!(scan.absorb(&first), Ok(true));
    assert_eq!(scan.offset(), 1000);
    assert!(scan.page_query("postgres").ends_with("OFFSET 1000"));
    let second = vec!["\"r1000\"".to_string()];
    assert_eq!(scan.absorb(&second), Ok(false));
    assert_eq!(scan.verdict(), Ok(()));
    assert_eq!(ITER_PROBE_ROWS, 1001);
}

#[test]
fn scan_reports_missing_and_runaway() {
    let mut scan = IterScan::new();
    let rows = vec!["r1".to_string(), "r1".to_string(), "".to_string()];
    assert_eq!(scan.absorb(&rows), Ok(false));
    assert_eq!(
        scan.verdict(),
        Err("iter-scan-complete expected 1001 unique ids, got 1 (raw 2)".to_string())
    );
    let mut runaway = IterScan::new();
    let page: Vec<String> = vec!["x".to_string(); ITER_PAGE_SIZE];
    assert_eq!(runaway.absorb(&page), Ok(true));
    assert_eq!(runaway.absorb(&page), Ok(true));
    assert_eq!(runaway.absorb(&page), Err("iter-scan-complete did not terminate".to_string()));
    assert_eq!(IterScan::new().absorb(&vec![]), Ok(false));
}

#[test]
fn telemetry_counter_verdicts() {
    assert_eq!(telemetry_counter_check("w", "op", "create", &vec![1, 2], 3), Ok(()));
    assert_eq!(
        telemetry_counter_check("valence_db_writes", "op", "create", &vec![], 1),
        Err("counter valence_db_writes op=create total 0 < 1".to_string())
    );
}

#[test]
fn validator_and_env_key_selection() {
    assert_eq!(select_validator("email"), Ok(Validator::Email));
    assert_eq!(select_validator("non_empty"), Ok(Validator::NonEmpty));
    assert_eq!(select_validator("phone"), Err("unsupported validator: phone".to_string()));
    assert_eq!(scenario_env_key("VALENCE_ENDPOINT_DEFAULT"), Ok("VALENCE_ENDPOINT_DEFAULT"));
    assert_eq!(
        scenario_env_key("PATH"),
        Err("unsupported env key for scenario: PATH".to_string())
    );
}

#[test]
fn ttl_verdicts() {
    assert_eq!(
        ttl_capability_check(StorageAdapter::Redis, TtlCapability::SupportedNative),
        Ok(TtlCapability::SupportedNative)
    );
    assert_eq!(
        ttl_capability_check(StorageAdapter::Mem, TtlCapability::Unsupported),
        Err("ttl capability mismatch for mem: expected Deferred, got Unsupported".to_string())
    );
    assert_eq!(sweep_delete_applicable(StorageAdapter::Sqlite), Ok(()));
    assert_eq!(
        sweep_delete_applicable(StorageAdapter::IndraDb),
        Err("ttl-deferred-sweep-delete not applicable to indradb (Unsupported)".to_string())
    );
    assert_eq!(
        warn_once_check(StorageAdapter::MongoDb, 0, 1),
        Err("ttl-non-native-warn not applicable to native adapters".to_string())
    );
    assert_eq!(warn_once_check(StorageAdapter::Mem, 3, 4), Ok(()));
    assert_eq!(
        warn_once_check(StorageAdapter::Mem, 3, 3),
        Err("expected non-native TTL warn on mem (Deferred)".to_string())
    );
    assert_eq!(
        warn_once_check(StorageAdapter::Sqlite, 1, 3),
        Err("expected warn-once, got 2 emits".to_string())
    );
}
