use valence_testkit::fixtures::{invalid_router_key, smoke_actor};
use valence_testkit::matrix::StorageAdapter;
use valence_testkit::scenario::{step_label, ActorSpec, EngineId, ScenarioSpec, ScenarioStep, StepGroup};

#[test]
fn builder_smoke_steps() {
    let s = ScenarioSpec::builder_smoke();
    assert_eq!(s.id, "builder-smoke");
    assert_eq!(s.steps.len(), 2);
    assert!(matches!(s.steps[0], ScenarioStep::BuildValence));
    assert!(matches!(s.steps[1], ScenarioStep::AssertActiveBackend));
}

#[test]
fn multi_logical_engine_with_two_names() {
    let s = ScenarioSpec::router_multi_logical_engine(&EngineId::Redis, &["default", "billing"]);
    assert_eq!(s.id, "router-multi-logical");
    assert_eq!(s.steps.len(), 7);
    assert!(matches!(s.steps[1], ScenarioStep::AssertRouterLen { min: 2 }));
    match &s.steps[3] {
        ScenarioStep::AssertRouterResolve { key } => assert_eq!(key.logical, "billing"),
        other => panic!("unexpected {other:?}"),
    }
    match &s.steps[5] {
        ScenarioStep::CrudAcrossRouterKeys { create_key, read_key, table, id } => {
            assert_eq!(create_key.logical, "default");
            assert_eq!(read_key.logical, "billing");
            assert_eq!(table, "router_multi_smoke");
            assert_eq!(id, "rml1");
        }
        other => panic!("unexpected {other:?}"),
    }
    match &s.steps[6] {
        ScenarioStep::AssertRouterResolveFails { key } => {
            assert_eq!(key.logical, "nonexistent_logical");
            assert!(matches!(key.engine, EngineId::Redis));
        }
        other => panic!("unexpected {other:?}"),
    }
}

#[test]
fn multi_logical_engine_with_one_name_has_no_shared_check() {
    let s = ScenarioSpec::router_multi_logical_engine(&EngineId::Other("x".into()), &["solo"]);
    assert_eq!(s.steps.len(), 4);
    assert!(matches!(s.steps[3], ScenarioStep::AssertRouterResolveFails { .. }));
    let empty = ScenarioSpec::router_multi_logical_engine(&EngineId::Sqlite, &[]);
    assert_eq!(empty.steps.len(), 3);
    assert!(matches!(empty.steps[1], ScenarioStep::AssertRouterLen { min: 0 }));
}

#[test]
fn named_multi_logical_scenarios() {
    let surreal = ScenarioSpec::router_multi_logical();
    match &surreal.steps[2] {
        ScenarioStep::AssertRouterResolve { key } => assert!(matches!(key.engine, EngineId::SurrealDb)),
        other => panic!("unexpected {other:?}"),
    }
    let acme = ScenarioSpec::router_multi_logical_acme();
    match &acme.steps[3] {
        ScenarioStep::AssertRouterResolve { key } => assert_eq!(key.logical, "vault"),
        other => panic!("unexpected {other:?}"),
    }
    let mem = ScenarioSpec::router_multi_logical_mem();
    assert_eq!(mem.steps.len(), 7);
}

#[test]
fn router_key_not_found_uses_the_storage_engine() {
    let s = ScenarioSpec::router_key_not_found(StorageAdapter::SurrealRocksdb);
    match &s.steps[1] {
        ScenarioStep::AssertRouterResolveFails { key } => {
            assert!(matches!(key.engine, EngineId::SurrealDb));
            assert_eq!(key.logical, "nonexistent_logical");
        }
        other => panic!("unexpected {other:?}"),
    }
    assert!(matches!(invalid_router_key("hybrid").engine, EngineId::HybridIndraSql));
    assert!(matches!(invalid_router_key("acme-stub").engine, EngineId::AcmeStub));
    assert!(matches!(invalid_router_key("mem").engine, EngineId::InMemory));
    assert!(matches!(invalid_router_key("whatever").engine, EngineId::InMemory));
}

#[test]
fn fixed_scenarios() {
    let t = ScenarioSpec::telemetry_crud_counters();
    match &t.steps[2] {
        ScenarioStep::AssertTelemetryCounter { name, label_key, label_value, min_count } => {
            assert_eq!(name, "valence_db_writes");
            assert_eq!(label_key, "op");
            assert_eq!(label_value, "create");
            assert_eq!(*min_count, 1);
        }
        other => panic!("unexpected {other:?}"),
    }
    let e = ScenarioSpec::endpoint_env_resolve();
    match (&e.steps[0], &e.steps[1]) {
        (ScenarioStep::SetEnv { key, value }, ScenarioStep::AssertEndpointResolve { logical, expect_url }) => {
            assert_eq!(key, "VALENCE_ENDPOINT_DEFAULT");
            assert_eq!(value, "http://127.0.0.1:8000");
            assert_eq!(logical, "default");
            assert_eq!(expect_url, "http://127.0.0.1:8000");
        }
        other => panic!("unexpected {other:?}"),
    }
    let f = ScenarioSpec::factory_background_build();
    match &f.steps[0] {
        ScenarioStep::BuildValenceFromFactory { actor: ActorSpec::System { operation } } => {
            assert_eq!(operation, "valence-testkit")
        }
        other => panic!("unexpected {other:?}"),
    }
    assert!(matches!(smoke_actor(), ActorSpec::System { .. }));
    let v = ScenarioSpec::validation_reject_smoke();
    assert!(matches!(&v.steps[0], ScenarioStep::AssertValidationRejects { value, .. } if value == "not-an-email"));
    let ttl = ScenarioSpec::ttl_native_expire("ttl_mem_native".to_string());
    assert!(matches!(ttl.steps[1], ScenarioStep::EnsureTtlForAll));
    assert!(matches!(&ttl.steps[2], ScenarioStep::TtlNativeOrLingerContract { id } if id == "ttl_mem_native"));
    assert_eq!(ScenarioSpec::query_union_join_smoke().steps.len(), 1);
    assert_eq!(ScenarioSpec::inventory_bootstrap().steps.len(), 3);
    assert_eq!(ScenarioSpec::on_delete_set_null_cross_engine().id, "on-delete-set-null-cross-engine");
}

#[test]
fn step_labels_and_groups() {
    assert_eq!(step_label(&ScenarioStep::BuildValence), "build_valence");
    let f = ScenarioStep::BuildValenceFromFactory { actor: smoke_actor() };
    assert_eq!(step_label(&f), "build_from_factory");
    assert_eq!(f.group(), StepGroup::Wiring);
    assert_eq!(ScenarioStep::TtlNativeOrLingerContract { id: "x".into() }.label(), "ttl_native_or_linger");
    assert_eq!(ScenarioStep::IterScanComplete.group(), StepGroup::Ttl);
    assert_eq!(ScenarioStep::QueryUnionJoinSmoke.group(), StepGroup::Crud);
    assert_eq!(ScenarioStep::AssertQueryLimitClamped.group(), StepGroup::Privacy);
    assert_eq!(ScenarioStep::OnDeleteSetNull.group(), StepGroup::OnDelete);
    assert_eq!(ScenarioStep::ReadCacheSmoke.group(), StepGroup::Model);
    let t = ScenarioStep::AssertTelemetryCounter {
        name: "n".into(),
        label_key: "k".into(),
        label_value: "v".into(),
        min_count: 3,
    };
    assert_eq!(t.group(), StepGroup::Telemetry);
    assert_eq!(t.label(), "assert_telemetry_counter");
}
