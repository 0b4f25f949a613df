use valence_testkit::matrix::StorageAdapter;
use valence_testkit::ttl::{
    create_only_plan, create_stamp_verdict, poll_absent_step, stamp_kept_verdict,
    ttl_presence_verdict, ttl_probe_plan, ttl_stamp_verdict, CreateOnlyProbe, PollStep,
    TtlCapability, TtlProbe, POLL_INTERVAL_MS,
};
use valence_testkit::verdicts::{endpoint_resolve_verdict, endpoint_unresolved_verdict};

#[test]
fn probe_per_storage_and_capability() {
    assert_eq!(
        ttl_probe_plan(StorageAdapter::Redis, TtlCapability::SupportedNative),
        Ok(TtlProbe::PresentThenPollAbsent)
    );
    assert_eq!(
        ttl_probe_plan(StorageAdapter::MongoDb, TtlCapability::SupportedNative),
        Ok(TtlProbe::StampedThenMongoIndex)
    );
    assert_eq!(
        ttl_probe_plan(StorageAdapter::Mem, TtlCapability::SupportedNative),
        Err("ttl-native-expire not applicable to mem".to_string())
    );
    assert_eq!(
        ttl_probe_plan(StorageAdapter::Sqlite, TtlCapability::Deferred),
        Ok(TtlProbe::Linger { stamped: true })
    );
    assert_eq!(
        ttl_probe_plan(StorageAdapter::IndraDb, TtlCapability::Unsupported),
        Ok(TtlProbe::Linger { stamped: false })
    );
}

#[test]
fn stamp_verdicts_per_probe() {
    let f = "_valence_expire_at";
    assert_eq!(ttl_stamp_verdict(TtlProbe::PresentThenPollAbsent, false, f), Ok(()));
    assert_eq!(ttl_stamp_verdict(TtlProbe::StampedThenMongoIndex, true, f), Ok(()));
    assert_eq!(
        ttl_stamp_verdict(TtlProbe::StampedThenMongoIndex, false, f),
        Err("mongo create missing _valence_expire_at".to_string())
    );
    assert_eq!(
        ttl_stamp_verdict(TtlProbe::Linger { stamped: true }, false, f),
        Err("deferred create missing _valence_expire_at".to_string())
    );
    assert_eq!(ttl_stamp_verdict(TtlProbe::Linger { stamped: true }, true, f), Ok(()));
    assert_eq!(
        ttl_stamp_verdict(TtlProbe::Linger { stamped: false }, true, f),
        Err("unsupported backend must not stamp expire field".to_string())
    );
    assert_eq!(ttl_stamp_verdict(TtlProbe::Linger { stamped: false }, false, f), Ok(()));
}

#[test]
fn presence_verdicts_per_probe() {
    assert_eq!(ttl_presence_verdict(TtlProbe::PresentThenPollAbsent, true), Ok(()));
    assert_eq!(
        ttl_presence_verdict(TtlProbe::PresentThenPollAbsent, false),
        Err("redis row missing immediately after create".to_string())
    );
    assert_eq!(
        ttl_presence_verdict(TtlProbe::Linger { stamped: true }, false),
        Err("deferred row deleted by engine after TTL — expected linger without sweeper".to_string())
    );
    assert_eq!(
        ttl_presence_verdict(TtlProbe::Linger { stamped: false }, false),
        Err("unsupported row unexpectedly missing after wait".to_string())
    );
    assert_eq!(ttl_presence_verdict(TtlProbe::StampedThenMongoIndex, false), Ok(()));
}

#[test]
fn polling_for_expiry() {
    assert!(matches!(poll_absent_step(0, 8, false, "r1"), PollStep::Done));
    assert!(matches!(poll_absent_step(9000, 8, false, "r1"), PollStep::Done));
    assert!(matches!(poll_absent_step(7999, 8, true, "r1"), PollStep::Retry { wait_ms: 200 }));
    assert_eq!(POLL_INTERVAL_MS, 200);
    match poll_absent_step(8000, 8, true, "ttl_redis_native") {
        PollStep::Fail(m) => {
            assert_eq!(m, "redis/native row ttl_redis_native still present after 8s");
            assert_eq!(
                m,
                format!(
                    "redis/native row ttl_redis_native still present after {:?}",
                    std::time::Duration::from_secs(8)
                )
            );
        }
        other => panic!("unexpected {other:?}"),
    }
    assert!(matches!(poll_absent_step(u64::MAX, u64::MAX, true, "x"), PollStep::Retry { .. }));
}

#[test]
fn create_only_probes() {
    assert_eq!(
        create_only_plan(StorageAdapter::IndraDb, true),
        Err("ttl-create-only-no-refresh not applicable to Unsupported".to_string())
    );
    assert_eq!(create_only_plan(StorageAdapter::Redis, true), Ok(CreateOnlyProbe::UpdateThenPollAbsent));
    assert_eq!(create_only_plan(StorageAdapter::Mem, true), Ok(CreateOnlyProbe::StampSurvivesMerge));
    assert_eq!(create_only_plan(StorageAdapter::MongoDb, false), Ok(CreateOnlyProbe::StampSurvivesUpdate));
    assert_eq!(
        create_stamp_verdict(false, "_valence_expire_at"),
        Err("missing _valence_expire_at after create".to_string())
    );
    assert_eq!(create_stamp_verdict(true, "f"), Ok(()));
    assert_eq!(
        stamp_kept_verdict(CreateOnlyProbe::StampSurvivesMerge, false),
        Err("merge refreshed create-only expire stamp".to_string())
    );
    assert_eq!(
        stamp_kept_verdict(CreateOnlyProbe::StampSurvivesUpdate, false),
        Err("update changed create-only expire stamp".to_string())
    );
    assert_eq!(stamp_kept_verdict(CreateOnlyProbe::StampSurvivesUpdate, true), Ok(()));
}

#[test]
fn endpoint_verdicts_show_the_resolution_in_debug_form() {
    assert_eq!(endpoint_resolve_verdict("default", "mem://x", Some("mem://x")), Ok(()));
    assert_eq!(
        endpoint_resolve_verdict("default", "mem://x", Some("mem://y")),
        Err("endpoint default: expected mem://x, got Some(\"mem://y\")".to_string())
    );
    assert_eq!(
        endpoint_resolve_verdict("default", "mem://x", None),
        Err("endpoint default: expected mem://x, got None".to_string())
    );
    assert_eq!(endpoint_unresolved_verdict("billing", None), Ok(()));
    assert_eq!(
        endpoint_unresolved_verdict("billing", Some("a\"b")),
        Err("endpoint billing: expected unresolved, got Some(\"a\\\"b\")".to_string())
    );
}
