use valence_testkit::bootstrap::{BootstrapMode, BootstrapSession, RouterBuild};
use valence_testkit::matrix::{BuildFeatures, MatrixSpec, StorageAdapter, TelemetryAdapter, Topology, WireBackendOptions};
use valence_testkit::on_delete::{on_delete_cross_engine_secondary, ordered_deletion_nodes, DeletionNodeOrder};
use valence_testkit::runner::{RunMode, ScenarioRun};
use valence_testkit::scenario::{EngineId, RouterKey, ScenarioSpec};
use valence_testkit::ttl::{expected_ttl_capability, TtlCapability};

fn row(storage: StorageAdapter, telemetry: TelemetryAdapter) -> MatrixSpec {
    MatrixSpec { storage, telemetry, topology: Topology::Embedded }
}

#[test]
fn new_session_defaults() {
    let s = BootstrapSession::new(MatrixSpec::ci_mem_embedded());
    assert!(!s.is_ready());
    assert_eq!(s.logical_names(), &vec!["default".to_string()]);
    assert_eq!(s.bootstrap_mode(), BootstrapMode::ExplicitLogicalNames);
    assert!(s.wire_options().is_none());
    assert!(s.default_backend_key().is_none());
    assert_eq!(*s.matrix(), MatrixSpec::ci_mem_embedded());
    assert_eq!(BootstrapMode::default(), BootstrapMode::ExplicitLogicalNames);
}

#[test]
fn builders_update_config() {
    let s = BootstrapSession::new(MatrixSpec::ci_surreal_mem_embedded())
        .with_logical_names(&["default", "billing"])
        .with_wire_options(WireBackendOptions::new())
        .with_inventory_bootstrap();
    assert_eq!(s.logical_names(), &vec!["default".to_string(), "billing".to_string()]);
    assert!(s.wire_options().is_some());
    assert_eq!(s.bootstrap_mode(), BootstrapMode::FromInventory);
}

#[test]
fn spawn_plan_for_mem_and_recording() {
    let s = BootstrapSession::new(row(StorageAdapter::Mem, TelemetryAdapter::Recording));
    let plan = s.spawn_plan().expect("mem always builds");
    assert_eq!(plan.build, RouterBuild::SharedBackend { storage: StorageAdapter::Mem });
    assert_eq!(plan.default_key.logical, "default");
    assert!(matches!(plan.default_key.engine, EngineId::InMemory));
    assert!(plan.wrap_backend);
    assert_eq!(plan.telemetry, TelemetryAdapter::Recording);
}

#[test]
fn spawn_plan_errors() {
    let sqlite = BootstrapSession::new(row(StorageAdapter::Sqlite, TelemetryAdapter::Off));
    assert_eq!(sqlite.spawn_plan().unwrap_err(), "enable valence-testkit/sqlite");
    let remote = BootstrapSession::new(MatrixSpec {
        storage: StorageAdapter::Mem,
        telemetry: TelemetryAdapter::Off,
        topology: Topology::RemoteStub,
    });
    assert_eq!(remote.spawn_plan().unwrap_err(), "remote topology stub — host wiring required");
    let rocks = BootstrapSession::new(row(StorageAdapter::SurrealRocksdb, TelemetryAdapter::Off));
    let mut f = BuildFeatures::current();
    f.surreal_mem = true;
    assert_eq!(rocks.spawn_plan_in(&f).unwrap_err(), "enable valence-testkit/surreal-rocksdb");
    f.surreal_rocksdb = true;
    let plan = rocks.spawn_plan_in(&f).unwrap();
    assert_eq!(plan.build, RouterBuild::SurrealEmbedded { rocksdb: true, from_inventory: false });
    assert!(!plan.wrap_backend);
}

#[test]
fn acme_default_key_and_mark_spawned() {
    let mut f = BuildFeatures::current();
    f.acme_stub = true;
    let mut s = BootstrapSession::new(MatrixSpec::ci_acme_stub_embedded()).with_logical_names(&["vault", "primary"]);
    let plan = s.spawn_plan_in(&f).unwrap();
    assert_eq!(plan.default_key.logical, "vault");
    assert!(matches!(plan.default_key.engine, EngineId::AcmeStub));
    let empty = BootstrapSession::new(MatrixSpec::ci_acme_stub_embedded()).with_logical_names(&[]);
    assert_eq!(empty.spawn_plan_in(&f).unwrap().default_key.logical, "primary");
    s.mark_spawned(RouterKey { logical: "vault".into(), engine: EngineId::AcmeStub });
    assert!(s.is_ready());
    assert_eq!(s.default_backend_key().unwrap().logical, "vault");
}

#[test]
fn runner_refuses_unready_session() {
    let spec = ScenarioSpec::builder_smoke();
    let err = ScenarioRun::start(false, &spec, "mem_off_embedded".into(), RunMode::Correctness).err();
    assert_eq!(err.as_deref(), Some("BootstrapSession::spawn must succeed before running scenarios"));
}

#[test]
fn runner_stops_at_first_error_and_times_benchmarks() {
    let spec = ScenarioSpec::telemetry_crud_counters();
    let mut run = ScenarioRun::start(true, &spec, "mem_recording_embedded".into(), RunMode::Benchmark).unwrap();
    assert_eq!(run.next_step(), Some(0));
    run.record(&spec, Ok(()));
    assert_eq!(run.next_step(), Some(1));
    run.record(&spec, Err("boom".into()));
    assert_eq!(run.next_step(), None);
    let out = run.finish();
    assert_eq!(out.scenario_id, "telemetry-crud-counters");
    assert_eq!(out.matrix_slug, "mem_recording_embedded");
    assert_eq!(out.error.as_deref(), Some("boom"));
    assert_eq!(out.timed_steps.len(), 2);
    assert_eq!(out.timed_steps[1].step_index, 1);
    assert_eq!(out.timed_steps[1].op, "crud_smoke");
}

#[test]
fn runner_correctness_mode_times_nothing() {
    let spec = ScenarioSpec::builder_smoke();
    let mut run = ScenarioRun::start(true, &spec, "x".into(), RunMode::Correctness).unwrap();
    while let Some(_) = run.next_step() {
        run.record(&spec, Ok(()));
    }
    let out = run.finish();
    assert!(out.error.is_none());
    assert!(out.timed_steps.is_empty());
}

#[test]
fn deletion_order_deepest_first_then_wave() {
    let nodes = vec![
        DeletionNodeOrder { depth: 0, wave: 0 },
        DeletionNodeOrder { depth: 2, wave: 1 },
        DeletionNodeOrder { depth: 1, wave: 2 },
        DeletionNodeOrder { depth: 2, wave: 0 },
        DeletionNodeOrder { depth: 1, wave: 0 },
        DeletionNodeOrder { depth: 1, wave: 7 },
        DeletionNodeOrder { depth: 2, wave: 0 },
    ];
    assert_eq!(ordered_deletion_nodes(&nodes), vec![3, 6, 1, 4, 2, 0]);
    assert!(ordered_deletion_nodes(&vec![]).is_empty());
}

#[test]
fn cross_engine_secondary_and_ttl_capability() {
    assert_eq!(on_delete_cross_engine_secondary(StorageAdapter::Mem), Some(StorageAdapter::Sqlite));
    assert_eq!(on_delete_cross_engine_secondary(StorageAdapter::Sqlite), Some(StorageAdapter::Mem));
    assert_eq!(on_delete_cross_engine_secondary(StorageAdapter::Redis), Some(StorageAdapter::Mem));
    assert_eq!(on_delete_cross_engine_secondary(StorageAdapter::AcmeStub), None);
    assert_eq!(expected_ttl_capability(StorageAdapter::Redis), TtlCapability::SupportedNative);
    assert_eq!(expected_ttl_capability(StorageAdapter::IndraDb), TtlCapability::Unsupported);
    assert_eq!(expected_ttl_capability(StorageAdapter::Postgres), TtlCapability::Deferred);
}
