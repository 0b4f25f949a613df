use valence_testkit::matrix::{
    all_storage_adapters, all_storage_adapters_in, extended_store_available,
    extended_store_available_in, extended_store_available_with_wire, extended_store_skip_reason,
    extended_store_skip_reason_in, rocksdb_opt_in, topology_available, topology_skip_reason,
    wire_backend_configured, wire_backend_configured_in, BuildFeatures, CrossBackendLayout,
    MatrixSpec, StorageAdapter, TelemetryAdapter, Topology, WireBackendOptions,
};

const ALL: [StorageAdapter; 9] = [
    StorageAdapter::Mem,
    StorageAdapter::Sqlite,
    StorageAdapter::Postgres,
    StorageAdapter::MongoDb,
    StorageAdapter::IndraDb,
    StorageAdapter::Redis,
    StorageAdapter::SurrealMem,
    StorageAdapter::SurrealRocksdb,
    StorageAdapter::AcmeStub,
];

#[test]
fn storage_slugs_parse_back() {
    for s in ALL {
        assert_eq!(StorageAdapter::parse_cli(s.slug()), Some(s));
    }
    assert_eq!(StorageAdapter::SurrealRocksdb.slug(), "surreal-rocksdb");
}

#[test]
fn storage_parse_accepts_aliases_case_and_space() {
    assert_eq!(StorageAdapter::parse_cli("  MEM \n"), Some(StorageAdapter::Mem));
    assert_eq!(StorageAdapter::parse_cli("PostgreSQL"), Some(StorageAdapter::Postgres));
    assert_eq!(StorageAdapter::parse_cli("mongo"), Some(StorageAdapter::MongoDb));
    assert_eq!(StorageAdapter::parse_cli("indra"), Some(StorageAdapter::IndraDb));
    assert_eq!(StorageAdapter::parse_cli("Surreal_Mem"), Some(StorageAdapter::SurrealMem));
    assert_eq!(StorageAdapter::parse_cli("rocksdb"), Some(StorageAdapter::SurrealRocksdb));
    assert_eq!(StorageAdapter::parse_cli("\u{3000}acme\u{a0}"), Some(StorageAdapter::AcmeStub));
    assert_eq!(StorageAdapter::parse_cli("surreal mem"), None);
    assert_eq!(StorageAdapter::parse_cli(""), None);
    assert_eq!(StorageAdapter::parse_cli("mém"), None);
}

#[test]
fn telemetry_and_topology_parse() {
    for t in [TelemetryAdapter::Off, TelemetryAdapter::Console, TelemetryAdapter::Recording] {
        assert_eq!(TelemetryAdapter::parse_cli(t.slug()), Some(t));
    }
    assert_eq!(TelemetryAdapter::parse_cli(" 0 "), Some(TelemetryAdapter::Off));
    assert_eq!(TelemetryAdapter::parse_cli("FALSE"), Some(TelemetryAdapter::Off));
    assert_eq!(TelemetryAdapter::parse_cli("Record"), Some(TelemetryAdapter::Recording));
    assert_eq!(TelemetryAdapter::parse_cli("on"), None);
    for t in [Topology::Embedded, Topology::RemoteStub] {
        assert_eq!(Topology::parse_cli(t.slug()), Some(t));
    }
    assert_eq!(Topology::parse_cli("REMOTE"), Some(Topology::RemoteStub));
    assert_eq!(Topology::parse_cli("remote_stub"), Some(Topology::RemoteStub));
    assert_eq!(Topology::parse_cli("cloud"), None);
    assert_eq!(TelemetryAdapter::default(), TelemetryAdapter::Off);
    assert_eq!(Topology::default(), Topology::Embedded);
}

#[test]
fn adapter_capabilities() {
    assert!(!StorageAdapter::AcmeStub.supports_model_runtime());
    assert!(StorageAdapter::Redis.supports_model_runtime());
    assert!(!StorageAdapter::AcmeStub.supports_admin_runtime());
    assert!(StorageAdapter::SurrealRocksdb.supports_surreal_inventory());
    assert!(!StorageAdapter::Mem.supports_surreal_inventory());
}

#[test]
fn cross_backend_layout_slugs() {
    assert_eq!(CrossBackendLayout::MemSqlite.slug(), "mem-sqlite");
    assert_eq!(CrossBackendLayout::SurrealPostgres.slug(), "surreal-postgres");
}

#[test]
fn matrix_rows_and_slugs() {
    assert_eq!(MatrixSpec::default(), MatrixSpec::ci_mem_embedded());
    assert_eq!(MatrixSpec::ci_mem_embedded().slug(), "mem_off_embedded");
    assert_eq!(MatrixSpec::ci_surreal_mem_embedded().slug(), "surreal-mem_off_embedded");
    assert_eq!(MatrixSpec::ci_acme_stub_embedded().storage, StorageAdapter::AcmeStub);
    let row = MatrixSpec {
        storage: StorageAdapter::Redis,
        telemetry: TelemetryAdapter::Recording,
        topology: Topology::RemoteStub,
    };
    assert_eq!(row.slug(), "redis_recording_remote-stub");
}

#[test]
fn adapters_of_this_build() {
    assert_eq!(all_storage_adapters(), vec![StorageAdapter::Mem]);
    let mut f = BuildFeatures::current();
    f.postgres = true;
    f.acme_stub = true;
    f.redis = true;
    assert_eq!(
        all_storage_adapters_in(&f),
        vec![StorageAdapter::Mem, StorageAdapter::Redis, StorageAdapter::Postgres, StorageAdapter::AcmeStub]
    );
    let all = BuildFeatures {
        sqlite: true,
        postgres: true,
        mongodb: true,
        indradb: true,
        hybrid: true,
        redis: true,
        surreal_mem: true,
        surreal_rocksdb: true,
        surreal_inventory: true,
        acme_stub: true,
    };
    assert_eq!(
        all_storage_adapters_in(&all),
        vec![
            StorageAdapter::Mem,
            StorageAdapter::Sqlite,
            StorageAdapter::MongoDb,
            StorageAdapter::IndraDb,
            StorageAdapter::Redis,
            StorageAdapter::Postgres,
            StorageAdapter::SurrealMem,
            StorageAdapter::SurrealRocksdb,
            StorageAdapter::AcmeStub,
        ]
    );
}

#[test]
fn matrix_slugs_tell_rows_apart() {
    let mut slugs = Vec::new();
    for s in ALL {
        for t in [TelemetryAdapter::Off, TelemetryAdapter::Console, TelemetryAdapter::Recording] {
            for p in [Topology::Embedded, Topology::RemoteStub] {
                slugs.push(MatrixSpec { storage: s, telemetry: t, topology: p }.slug());
            }
        }
    }
    let mut unique = slugs.clone();
    unique.sort();
    unique.dedup();
    assert_eq!(unique.len(), slugs.len());
    assert_eq!(slugs.len(), 54);
}

#[test]
fn availability_of_this_build() {
    assert!(extended_store_available(StorageAdapter::Mem));
    assert!(extended_store_available(StorageAdapter::AcmeStub));
    assert!(!extended_store_available(StorageAdapter::Redis));
    assert!(!extended_store_available(StorageAdapter::SurrealRocksdb));
    let wire = WireBackendOptions::new();
    assert!(!extended_store_available_with_wire(StorageAdapter::Postgres, Some(&wire)));
    assert!(!wire_backend_configured(StorageAdapter::MongoDb, None));
    assert!(wire_backend_configured(StorageAdapter::Sqlite, None));
    assert_eq!(extended_store_skip_reason(StorageAdapter::Mem), None);
    assert_eq!(
        extended_store_skip_reason(StorageAdapter::Redis).as_deref(),
        Some("enable valence-testkit/redis")
    );
    assert_eq!(
        extended_store_skip_reason(StorageAdapter::SurrealRocksdb).as_deref(),
        Some("set VALENCE_BENCH_ROCKSDB=1 and enable valence-testkit/surreal-rocksdb")
    );
}

#[test]
fn availability_with_features() {
    let mut f = BuildFeatures::current();
    f.redis = true;
    f.surreal_rocksdb = true;
    assert!(!extended_store_available_in(&f, StorageAdapter::Redis, false, false));
    assert!(extended_store_available_in(&f, StorageAdapter::Redis, true, false));
    assert!(wire_backend_configured_in(&f, StorageAdapter::Redis, true));
    assert_eq!(
        extended_store_skip_reason_in(&f, StorageAdapter::Redis, false, false).as_deref(),
        Some("configure RedisBackendBuilder.url() or VALENCE_REDIS_URL via from_env_defaults")
    );
    assert!(extended_store_available_in(&f, StorageAdapter::SurrealRocksdb, false, true));
    assert!(!extended_store_available_in(&f, StorageAdapter::SurrealRocksdb, false, false));
}

#[test]
fn rocksdb_opt_in_values() {
    assert!(rocksdb_opt_in(Some("1")));
    assert!(rocksdb_opt_in(Some("TrUe")));
    assert!(!rocksdb_opt_in(Some(" true")));
    assert!(!rocksdb_opt_in(Some("yes")));
    assert!(!rocksdb_opt_in(None));
}

#[test]
fn topology_availability() {
    assert!(topology_available(Topology::Embedded));
    assert!(!topology_available(Topology::RemoteStub));
    assert_eq!(topology_skip_reason(Topology::Embedded), None);
    assert_eq!(
        topology_skip_reason(Topology::RemoteStub).as_deref(),
        Some("remote topology owned by host wiring — stub only")
    );
}
