use valence_testkit::catalog::{
    catalog_for_storage, e2e_storage_backends, embedded_catalog, iter_catalog_applies,
    matrix_for_entry, on_delete_catalog_applies, plan_catalog_entry, plan_catalog_entry_in,
    ttl_catalog_applies, ttl_record_id, CatalogEntry, CatalogRun, CatalogScenario, PathKind,
};
use valence_testkit::matrix::{BuildFeatures, StorageAdapter, TelemetryAdapter, Topology};
use valence_testkit::scenario::{EngineId, ScenarioStep};

fn no_features() -> BuildFeatures {
    BuildFeatures::current()
}

#[test]
fn catalog_has_twelve_plus_scenarios() {
    assert!(embedded_catalog().len() >= 12);
}

#[test]
fn catalog_includes_sad_path_entries() {
    assert!(embedded_catalog().iter().any(|e| e.path == PathKind::Sad));
}

#[test]
fn catalog_ids_match_their_scenarios() {
    let catalog = embedded_catalog();
    assert_eq!(catalog.len(), 44);
    assert_eq!(catalog[0].id, "builder-smoke");
    assert_eq!(catalog[43].id, "on-delete-set-null-cross-engine");
    for entry in &catalog {
        let spec = entry.spec.build(StorageAdapter::Mem);
        if entry.id.starts_with("ttl-") || entry.id == "router-multi-logical" {
            assert_eq!(spec.id, entry.id);
        } else {
            assert_eq!(spec.id, entry.id);
        }
    }
}

#[test]
fn multi_logical_entry_carries_default_and_billing() {
    let catalog = embedded_catalog();
    let e = catalog.iter().find(|e| e.id == "router-multi-logical").unwrap();
    assert_eq!(e.logical_names, Some(&["default", "billing"][..]));
    let inv = catalog.iter().find(|e| e.id == "inventory-bootstrap").unwrap();
    assert!(inv.surreal_only && inv.inventory_bootstrap);
    let tel = catalog.iter().find(|e| e.id == "telemetry-crud-counters").unwrap();
    assert_eq!(tel.telemetry, Some(TelemetryAdapter::Recording));
}

#[test]
fn ttl_entries_follow_capabilities() {
    assert!(ttl_catalog_applies("builder-smoke", StorageAdapter::AcmeStub));
    assert!(!ttl_catalog_applies("ttl-deferred-stamp", StorageAdapter::AcmeStub));
    assert!(ttl_catalog_applies("ttl-native-expire", StorageAdapter::Redis));
    assert!(!ttl_catalog_applies("ttl-native-expire", StorageAdapter::Mem));
    assert!(ttl_catalog_applies("ttl-deferred-stamp", StorageAdapter::Mem));
    assert!(!ttl_catalog_applies("ttl-deferred-stamp", StorageAdapter::MongoDb));
    assert!(ttl_catalog_applies("ttl-deferred-sweep-delete", StorageAdapter::Sqlite));
    assert!(!ttl_catalog_applies("ttl-deferred-sweep-delete", StorageAdapter::IndraDb));
    assert!(!ttl_catalog_applies("ttl-create-only-no-refresh", StorageAdapter::IndraDb));
    assert!(ttl_catalog_applies("ttl-unknown", StorageAdapter::IndraDb));
}

#[test]
fn iter_and_on_delete_applicability() {
    assert!(!iter_catalog_applies("iter-scan-complete", StorageAdapter::Redis));
    assert!(iter_catalog_applies("iter-scan-complete", StorageAdapter::Sqlite));
    assert!(iter_catalog_applies("builder-smoke", StorageAdapter::Redis));
    assert!(!on_delete_catalog_applies("on-delete-set-null", StorageAdapter::AcmeStub));
    assert!(on_delete_catalog_applies("on-delete-set-null-cross-engine", StorageAdapter::Redis));
    assert!(on_delete_catalog_applies("model-crud-smoke", StorageAdapter::AcmeStub));
}

#[test]
fn catalog_for_acme_drops_model_ttl_and_on_delete_entries() {
    let entries = catalog_for_storage(StorageAdapter::AcmeStub);
    assert!(entries.iter().all(|e| !e.generated_model_only));
    assert!(entries.iter().all(|e| !e.id.starts_with("ttl-")));
    assert!(entries.iter().all(|e| !e.id.starts_with("on-delete-")));
    assert!(entries.iter().any(|e| e.id == "builder-smoke"));
    assert!(entries.iter().all(|e| e.id != "inventory-bootstrap"));
}

#[test]
fn catalog_for_surreal_keeps_inventory_entry() {
    let entries = catalog_for_storage(StorageAdapter::SurrealMem);
    assert!(entries.iter().any(|e| e.id == "inventory-bootstrap"));
    // entries stay in catalog order
    let pos: Vec<usize> = entries
        .iter()
        .map(|e| embedded_catalog().iter().position(|c| c.id == e.id).unwrap())
        .collect();
    assert!(pos.windows(2).all(|w| w[0] < w[1]));
}

#[test]
fn e2e_backends_are_the_runnable_ones() {
    assert_eq!(e2e_storage_backends(), vec![StorageAdapter::Mem]);
}

#[test]
fn validation_reject_smoke_is_a_sad_path() {
    let catalog = embedded_catalog();
    let e = catalog.iter().find(|e| e.id == "validation-reject-smoke").unwrap();
    assert_eq!(e.path, PathKind::Sad);
    let accept = catalog.iter().find(|e| e.id == "validation-accept-smoke").unwrap();
    assert_eq!(accept.path, PathKind::Happy);
}

#[test]
fn catalog_for_storage_drops_iter_where_paging_is_unsupported() {
    for s in [StorageAdapter::Redis, StorageAdapter::MongoDb, StorageAdapter::IndraDb, StorageAdapter::AcmeStub] {
        assert!(catalog_for_storage(s).iter().all(|e| e.id != "iter-scan-complete"));
    }
    for s in [StorageAdapter::Mem, StorageAdapter::Sqlite, StorageAdapter::Postgres, StorageAdapter::SurrealMem] {
        assert!(catalog_for_storage(s).iter().any(|e| e.id == "iter-scan-complete"));
    }
}

#[test]
fn catalog_ids_are_unique() {
    let catalog = embedded_catalog();
    for (i, a) in catalog.iter().enumerate() {
        for (j, b) in catalog.iter().enumerate() {
            assert_eq!(a.id == b.id, i == j);
        }
    }
}

#[test]
fn plan_runs_a_hand_built_entry_by_its_own_fields() {
    let e = CatalogEntry {
        id: "custom-smoke",
        path: PathKind::Sad,
        spec: CatalogScenario::BuilderSmoke,
        telemetry: Some(TelemetryAdapter::Recording),
        inventory_bootstrap: false,
        logical_names: Some(&["a", "b", "c"]),
        surreal_only: false,
        generated_model_only: true,
    };
    match plan_catalog_entry(&e, StorageAdapter::Mem) {
        CatalogRun::Run { matrix, logical_names, inventory_bootstrap, scenario } => {
            assert_eq!(matrix.slug(), "mem_recording_embedded");
            assert_eq!(logical_names, Some(&["a", "b", "c"][..]));
            assert!(!inventory_bootstrap);
            assert_eq!(scenario.id, "builder-smoke");
        }
        other => panic!("unexpected {other:?}"),
    }
    // generated-model-only entries skip the acme stub silently
    assert!(matches!(
        plan_catalog_entry(&e, StorageAdapter::AcmeStub),
        CatalogRun::Skip { notice: None }
    ));
    let surreal_only = CatalogEntry { surreal_only: true, ..e };
    assert!(matches!(
        plan_catalog_entry(&surreal_only, StorageAdapter::Mem),
        CatalogRun::Skip { notice: None }
    ));
    // the entry's own id decides the iteration gate
    let iter_named = CatalogEntry { id: "iter-scan-complete", generated_model_only: false, ..e };
    match plan_catalog_entry(&iter_named, StorageAdapter::Redis) {
        CatalogRun::Skip { notice } => assert_eq!(
            notice.as_deref(),
            Some("catalog entry iter-scan-complete/redis: iter unsupported on this adapter until paging fix — skipping")
        ),
        other => panic!("unexpected {other:?}"),
    }
}

#[test]
fn ttl_record_ids() {
    assert_eq!(ttl_record_id(StorageAdapter::SurrealMem, "native"), "ttl_surreal-mem_native");
    let spec = CatalogScenario::TtlDeferredStamp.build(StorageAdapter::Sqlite);
    assert!(matches!(&spec.steps[2], ScenarioStep::TtlNativeOrLingerContract { id } if id == "ttl_sqlite_deferred"));
}

#[test]
fn matrix_for_entry_uses_telemetry_override() {
    let catalog = embedded_catalog();
    let e = catalog.iter().find(|e| e.id == "telemetry-console-smoke").unwrap();
    let m = matrix_for_entry(e, StorageAdapter::Redis);
    assert_eq!(m.telemetry, TelemetryAdapter::Console);
    assert_eq!(m.topology, Topology::Embedded);
    let plain = catalog.iter().find(|e| e.id == "builder-smoke").unwrap();
    assert_eq!(matrix_for_entry(plain, StorageAdapter::Mem).telemetry, TelemetryAdapter::Off);
}

#[test]
fn plan_runs_builder_smoke_on_mem() {
    let catalog = embedded_catalog();
    let e = catalog.iter().find(|e| e.id == "builder-smoke").unwrap();
    match plan_catalog_entry(e, StorageAdapter::Mem) {
        CatalogRun::Run { matrix, logical_names, inventory_bootstrap, scenario } => {
            assert_eq!(matrix.slug(), "mem_off_embedded");
            assert!(logical_names.is_none());
            assert!(!inventory_bootstrap);
            assert_eq!(scenario.id, "builder-smoke");
        }
        other => panic!("unexpected {other:?}"),
    }
}

#[test]
fn plan_skips_unavailable_store_with_notice() {
    let catalog = embedded_catalog();
    let e = catalog.iter().find(|e| e.id == "builder-smoke").unwrap();
    match plan_catalog_entry(e, StorageAdapter::Postgres) {
        CatalogRun::Skip { notice } => assert_eq!(
            notice.as_deref(),
            Some("catalog entry builder-smoke/postgres: enable valence-testkit/postgres — skipping")
        ),
        other => panic!("unexpected {other:?}"),
    }
}

#[test]
fn plan_skips_iter_on_redis_with_notice_and_ttl_silently() {
    let catalog = embedded_catalog();
    let iter = catalog.iter().find(|e| e.id == "iter-scan-complete").unwrap();
    match plan_catalog_entry(iter, StorageAdapter::Redis) {
        CatalogRun::Skip { notice } => assert_eq!(
            notice.as_deref(),
            Some("catalog entry iter-scan-complete/redis: iter unsupported on this adapter until paging fix — skipping")
        ),
        other => panic!("unexpected {other:?}"),
    }
    let ttl = catalog.iter().find(|e| e.id == "ttl-native-expire").unwrap();
    assert!(matches!(plan_catalog_entry(ttl, StorageAdapter::Mem), CatalogRun::Skip { notice: None }));
}

#[test]
fn plan_inventory_needs_the_feature() {
    let catalog = embedded_catalog();
    let inv = catalog.iter().find(|e| e.id == "inventory-bootstrap").unwrap();
    match plan_catalog_entry(inv, StorageAdapter::SurrealMem) {
        CatalogRun::Skip { notice } => assert_eq!(
            notice.as_deref(),
            Some("catalog entry inventory-bootstrap: surreal-inventory feature disabled — skipping")
        ),
        other => panic!("unexpected {other:?}"),
    }
    assert!(matches!(plan_catalog_entry(inv, StorageAdapter::Mem), CatalogRun::Skip { notice: None }));
    let mut f = no_features();
    f.surreal_inventory = true;
    assert!(matches!(
        plan_catalog_entry_in(&f, inv, StorageAdapter::SurrealMem, false, false),
        CatalogRun::Run { inventory_bootstrap: true, .. }
    ));
}

#[test]
fn plan_multi_logical_on_acme_uses_primary_and_vault() {
    let catalog = embedded_catalog();
    let e = catalog.iter().find(|e| e.id == "router-multi-logical").unwrap();
    match plan_catalog_entry(e, StorageAdapter::AcmeStub) {
        CatalogRun::Run { logical_names, scenario, .. } => {
            assert_eq!(logical_names, Some(&["primary", "vault"][..]));
            match &scenario.steps[2] {
                ScenarioStep::AssertRouterResolve { key } => {
                    assert_eq!(key.logical, "primary");
                    assert!(matches!(key.engine, EngineId::AcmeStub));
                }
                other => panic!("unexpected {other:?}"),
            }
        }
        other => panic!("unexpected {other:?}"),
    }
}

#[test]
fn multi_logical_engine_follows_features() {
    let mut f = no_features();
    let spec = CatalogScenario::RouterMultiLogical.build_in(&f, StorageAdapter::Sqlite);
    match &spec.steps[2] {
        ScenarioStep::AssertRouterResolve { key } => assert!(matches!(key.engine, EngineId::InMemory)),
        other => panic!("unexpected {other:?}"),
    }
    f.sqlite = true;
    let spec = CatalogScenario::RouterMultiLogical.build_in(&f, StorageAdapter::Sqlite);
    match &spec.steps[2] {
        ScenarioStep::AssertRouterResolve { key } => assert!(matches!(key.engine, EngineId::Sqlite)),
        other => panic!("unexpected {other:?}"),
    }
}
