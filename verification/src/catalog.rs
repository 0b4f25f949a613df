//! Shared correctness catalog for matrix end-to-end runs and bench smoke:
//! which scenarios exist, which storage adapters each applies to, and what
//! running one entry on one adapter amounts to.

use vstd::prelude::*;

use crate::matrix::{
    all_storage_adapters, enabled_storage_adapters, extended_store_available_in,
    extended_store_skip_reason_in, spec_skip_reason, spec_store_available, topology_available,
    topology_skip_reason, BuildFeatures, MatrixSpec, StorageAdapter, TelemetryAdapter, Topology,
};
use crate::on_delete::{on_delete_cross_engine_secondary, spec_cross_engine_secondary};
use crate::scenario::{is_multi_logical_scenario, EngineId, ScenarioSpec};
use crate::text::{contains_str, has_infix, has_prefix, owned, starts_with};
use crate::hops::lemma_filter_take_step;
use crate::ttl::{spec_expected_ttl_capability, TtlCapability};

verus! {

/// Happy vs sad path label for catalog entries.
#[derive(Debug, Clone, Copy, PartialEq, Eq, Structural)]
pub enum PathKind {
    /// Expected success.
    Happy,
    /// Expected rejection or error path.
    Sad,
}

/// One row in the shared correctness catalog.
#[derive(Debug, Clone, Copy)]
pub struct CatalogEntry {
    /// Stable id (matches the test name prefix).
    pub id: &'static str,
    /// Happy or sad path.
    pub path: PathKind,
    /// The scenario the entry runs (see [`CatalogScenario::build`]).
    pub spec: CatalogScenario,
    /// Optional telemetry override (defaults to off).
    pub telemetry: Option<TelemetryAdapter>,
    /// When true, inventory bootstrap is used (Surreal only).
    pub inventory_bootstrap: bool,
    /// Extra logical names for multi-logical scenarios.
    pub logical_names: Option<&'static [&'static str]>,
    /// When true, skip unless the storage is Surreal.
    pub surreal_only: bool,
    /// When true, only run on adapters that support generated model CRUD.
    pub generated_model_only: bool,
}

/// Every field of `e` is the one its scenario `k` prescribes.
pub open spec fn entry_matches(e: CatalogEntry, k: CatalogScenario) -> bool {
    &&& e.spec == k
    &&& e.id@ == k.spec_id()
    &&& e.path == k.spec_path()
    &&& e.telemetry == k.spec_telemetry()
    &&& e.inventory_bootstrap == k.spec_inventory_bootstrap()
    &&& e.surreal_only == k.spec_surreal_only()
    &&& e.generated_model_only == k.spec_generated_model_only()
    &&& if k.spec_multi_logical() {
        e.logical_names matches Some(ns) && ns@.len() == 2 && ns@[0]@ == "default"@ && ns@[1]@
            == "billing"@
    } else {
        e.logical_names is None
    }
}

fn entry(id: &'static str, path: PathKind, spec: CatalogScenario) -> (e: CatalogEntry)
    ensures
        e.id == id && e.path == path && e.spec == spec && e.telemetry is None
            && !e.inventory_bootstrap && e.logical_names is None && !e.surreal_only
            && !e.generated_model_only,
{
    CatalogEntry {
        id,
        path,
        spec,
        telemetry: None,
        inventory_bootstrap: false,
        logical_names: None,
        surreal_only: false,
        generated_model_only: false,
    }
}

fn entry_telemetry(
    id: &'static str,
    path: PathKind,
    spec: CatalogScenario,
    telemetry: TelemetryAdapter,
) -> (e: CatalogEntry)
    ensures
        e.id == id && e.path == path && e.spec == spec && e.telemetry == Some(telemetry)
            && !e.inventory_bootstrap && e.logical_names is None && !e.surreal_only
            && !e.generated_model_only,
{
    CatalogEntry {
        id,
        path,
        spec,
        telemetry: Some(telemetry),
        inventory_bootstrap: false,
        logical_names: None,
        surreal_only: false,
        generated_model_only: false,
    }
}

fn entry_inventory(id: &'static str, spec: CatalogScenario) -> (e: CatalogEntry)
    ensures
        e.id == id && e.path == PathKind::Happy && e.spec == spec && e.telemetry is None
            && e.inventory_bootstrap && e.logical_names is None && e.surreal_only
            && !e.generated_model_only,
{
    CatalogEntry {
        id,
        path: PathKind::Happy,
        spec,
        telemetry: None,
        inventory_bootstrap: true,
        logical_names: None,
        surreal_only: true,
        generated_model_only: false,
    }
}

fn entry_generated_model(id: &'static str, path: PathKind, spec: CatalogScenario) -> (e:
    CatalogEntry)
    ensures
        e.id == id && e.path == path && e.spec == spec && e.telemetry is None
            && !e.inventory_bootstrap && e.logical_names is None && !e.surreal_only
            && e.generated_model_only,
{
    CatalogEntry {
        id,
        path,
        spec,
        telemetry: None,
        inventory_bootstrap: false,
        logical_names: None,
        surreal_only: false,
        generated_model_only: true,
    }
}

fn entry_sad(id: &'static str, spec: CatalogScenario) -> (e: CatalogEntry)
    ensures
        e.id == id && e.path == PathKind::Sad && e.spec == spec && e.telemetry is None
            && !e.inventory_bootstrap && e.logical_names is None && !e.surreal_only
            && !e.generated_model_only,
{
    CatalogEntry {
        id,
        path: PathKind::Sad,
        spec,
        telemetry: None,
        inventory_bootstrap: false,
        logical_names: None,
        surreal_only: false,
        generated_model_only: false,
    }
}

fn entry_multi_logical(id: &'static str, spec: CatalogScenario) -> (e: CatalogEntry)
    ensures
        e.id == id && e.path == PathKind::Happy && e.spec == spec && e.telemetry is None
            && !e.inventory_bootstrap && !e.surreal_only && !e.generated_model_only,
        e.logical_names matches Some(ns) && ns@.len() == 2 && ns@[0]@ == "default"@ && ns@[1]@
            == "billing"@,
{
    CatalogEntry {
        id,
        path: PathKind::Happy,
        spec,
        telemetry: None,
        inventory_bootstrap: false,
        logical_names: Some(&["default", "billing"]),
        surreal_only: false,
        generated_model_only: false,
    }
}

/// `default` and `billing`.
pub open spec fn default_billing() -> Seq<Seq<char>> {
    seq!["default"@, "billing"@]
}

/// `r` is the multi-logical router scenario the catalog runs on `storage`
/// in a build with `f`: the storage's own engine when its backend is built
/// in, else the in-memory engine (Surreal, acme and mem always use their own).
pub open spec fn is_router_multi_logical_for(
    f: BuildFeatures,
    storage: StorageAdapter,
    r: ScenarioSpec,
) -> bool {
    match storage {
        StorageAdapter::SurrealMem | StorageAdapter::SurrealRocksdb => is_multi_logical_scenario(
            r,
            EngineId::SurrealDb,
            default_billing(),
        ),
        StorageAdapter::AcmeStub => is_multi_logical_scenario(
            r,
            EngineId::AcmeStub,
            seq!["primary"@, "vault"@],
        ),
        StorageAdapter::Mem => is_multi_logical_scenario(r, EngineId::InMemory, default_billing()),
        StorageAdapter::Sqlite => is_multi_logical_scenario(
            r,
            if f.sqlite {
                EngineId::Sqlite
            } else {
                EngineId::InMemory
            },
            default_billing(),
        ),
        StorageAdapter::Postgres => is_multi_logical_scenario(
            r,
            if f.postgres {
                EngineId::Postgres
            } else {
                EngineId::InMemory
            },
            default_billing(),
        ),
        StorageAdapter::MongoDb => is_multi_logical_scenario(
            r,
            if f.mongodb {
                EngineId::MongoDb
            } else {
                EngineId::InMemory
            },
            default_billing(),
        ),
        StorageAdapter::IndraDb => is_multi_logical_scenario(
            r,
            if f.indradb {
                EngineId::IndraDb
            } else {
                EngineId::InMemory
            },
            default_billing(),
        ),
        StorageAdapter::Redis => is_multi_logical_scenario(
            r,
            if f.redis {
                EngineId::Redis
            } else {
                EngineId::InMemory
            },
            default_billing(),
        ),
    }
}

fn router_multi_logical_on(engine: EngineId) -> (r: ScenarioSpec)
    ensures
        is_multi_logical_scenario(r, engine, default_billing()),
{
    let names: [&str; 2] = ["default", "billing"];
    assert(crate::scenario::name_views(names@) =~= default_billing());
    ScenarioSpec::router_multi_logical_engine(&engine, &names)
}

/// Multi-logical router scenario for `storage` in a build with `features`.
pub fn router_multi_logical_spec_in(features: &BuildFeatures, storage: StorageAdapter) -> (r:
    ScenarioSpec)
    ensures
        is_router_multi_logical_for(*features, storage, r),
{
    match storage {
        StorageAdapter::SurrealMem | StorageAdapter::SurrealRocksdb => {
            ScenarioSpec::router_multi_logical()
        },
        StorageAdapter::AcmeStub => ScenarioSpec::router_multi_logical_acme(),
        StorageAdapter::Mem => ScenarioSpec::router_multi_logical_mem(),
        StorageAdapter::Sqlite => router_multi_logical_on(
            if features.sqlite {
                EngineId::Sqlite
            } else {
                EngineId::InMemory
            },
        ),
        StorageAdapter::Postgres => router_multi_logical_on(
            if features.postgres {
                EngineId::Postgres
            } else {
                EngineId::InMemory
            },
        ),
        StorageAdapter::MongoDb => router_multi_logical_on(
            if features.mongodb {
                EngineId::MongoDb
            } else {
                EngineId::InMemory
            },
        ),
        StorageAdapter::IndraDb => router_multi_logical_on(
            if features.indradb {
                EngineId::IndraDb
            } else {
                EngineId::InMemory
            },
        ),
        StorageAdapter::Redis => router_multi_logical_on(
            if features.redis {
                EngineId::Redis
            } else {
                EngineId::InMemory
            },
        ),
    }
}

/// `ttl_<storage slug>_<kind>`.
pub open spec fn ttl_record_id_view(storage: StorageAdapter, kind: Seq<char>) -> Seq<char> {
    "ttl_"@ + storage.spec_slug() + "_"@ + kind
}

/// Record id of a TTL probe row for `storage`.
pub fn ttl_record_id(storage: StorageAdapter, kind: &str) -> (r: String)
    ensures
        r@ == ttl_record_id_view(storage, kind@),
{
    let mut r = owned("ttl_");
    r.append(storage.slug());
    r.append("_");
    r.append(kind);
    r
}

/// Which scenario a catalog entry runs.
#[derive(Debug, Clone, Copy, PartialEq, Eq, Structural)]
pub enum CatalogScenario {
    /// The `builder-smoke` scenario.
    BuilderSmoke,
    /// The `router-multi-logical` scenario.
    RouterMultiLogical,
    /// The `inventory-bootstrap` scenario.
    InventoryBootstrap,
    /// The `telemetry-crud-counters` scenario.
    TelemetryCrudCounters,
    /// The `factory-background-build` scenario.
    FactoryBackgroundBuild,
    /// The `endpoint-env-resolve` scenario.
    EndpointEnvResolve,
    /// The `compiled-query-empty-table` scenario.
    CompiledQueryEmptyTable,
    /// The `router-key-not-found` scenario.
    RouterKeyNotFound,
    /// The `get-record-missing` scenario.
    GetRecordMissing,
    /// The `privacy-read-deny-anonymous` scenario.
    PrivacyReadDenyAnonymous,
    /// The `model-crud-smoke` scenario.
    ModelCrudSmoke,
    /// The `ownership-gate-smoke` scenario.
    OwnershipGateSmoke,
    /// The `validation-reject-smoke` scenario.
    ValidationRejectSmoke,
    /// The `graph-edge-smoke` scenario.
    GraphEdgeSmoke,
    /// The `telemetry-console-smoke` scenario.
    TelemetryConsoleSmoke,
    /// The `builder-empty-rejects` scenario.
    BuilderEmptyRejects,
    /// The `endpoint-env-unresolved` scenario.
    EndpointEnvUnresolved,
    /// The `privacy-write-deny` scenario.
    PrivacyWriteDeny,
    /// The `privacy-empty-default-deny` scenario.
    PrivacyEmptyDefaultDeny,
    /// The `privacy-field-system-only-hidden` scenario.
    PrivacyFieldSystemOnlyHidden,
    /// The `query-limit-clamped` scenario.
    QueryLimitClamped,
    /// The `privacy-bypass-requires-force` scenario.
    PrivacyBypassRequiresForce,
    /// The `validation-accept-smoke` scenario.
    ValidationAcceptSmoke,
    /// The `model-update-upsert` scenario.
    ModelUpdateUpsert,
    /// The `query-filter-eq` scenario.
    QueryFilterEq,
    /// The `query-filter-miss` scenario.
    QueryFilterMiss,
    /// The `query-order-by` scenario.
    QueryOrderBy,
    /// The `query-pagination` scenario.
    QueryPagination,
    /// The `query-offset-empty` scenario.
    QueryOffsetEmpty,
    /// The `read-cache-smoke` scenario.
    ReadCacheSmoke,
    /// The `query-union-join-smoke` scenario.
    QueryUnionJoinSmoke,
    /// The `m2m-relate-smoke` scenario.
    M2mRelateSmoke,
    /// The `ttl-native-expire` scenario.
    TtlNativeExpire,
    /// The `ttl-deferred-stamp` scenario.
    TtlDeferredStamp,
    /// The `ttl-create-only-no-refresh` scenario.
    TtlCreateOnlyNoRefresh,
    /// The `ttl-non-native-warn` scenario.
    TtlNonNativeWarn,
    /// The `ttl-deferred-sweep-delete` scenario.
    TtlDeferredSweepDelete,
    /// The `iter-scan-complete` scenario.
    IterScanComplete,
    /// The `on-delete-cascade-same-backend` scenario.
    OnDeleteCascadeSameBackend,
    /// The `on-delete-set-null` scenario.
    OnDeleteSetNull,
    /// The `on-delete-remove-edge` scenario.
    OnDeleteRemoveEdge,
    /// The `on-delete-restrict-blocks` scenario.
    OnDeleteRestrictBlocks,
    /// The `on-delete-cascade-cross-engine` scenario.
    OnDeleteCascadeCrossEngine,
    /// The `on-delete-set-null-cross-engine` scenario.
    OnDeleteSetNullCrossEngine,
}

/// The embedded catalog, in the order it is exercised.
pub open spec fn catalog_order() -> Seq<CatalogScenario> {
    seq![
        CatalogScenario::BuilderSmoke,
        CatalogScenario::RouterMultiLogical,
        CatalogScenario::InventoryBootstrap,
        CatalogScenario::TelemetryCrudCounters,
        CatalogScenario::FactoryBackgroundBuild,
        CatalogScenario::EndpointEnvResolve,
        CatalogScenario::CompiledQueryEmptyTable,
        CatalogScenario::RouterKeyNotFound,
        CatalogScenario::GetRecordMissing,
        CatalogScenario::PrivacyReadDenyAnonymous,
        CatalogScenario::ModelCrudSmoke,
        CatalogScenario::OwnershipGateSmoke,
        CatalogScenario::ValidationRejectSmoke,
        CatalogScenario::GraphEdgeSmoke,
        CatalogScenario::TelemetryConsoleSmoke,
        CatalogScenario::BuilderEmptyRejects,
        CatalogScenario::EndpointEnvUnresolved,
        CatalogScenario::PrivacyWriteDeny,
        CatalogScenario::PrivacyEmptyDefaultDeny,
        CatalogScenario::PrivacyFieldSystemOnlyHidden,
        CatalogScenario::QueryLimitClamped,
        CatalogScenario::PrivacyBypassRequiresForce,
        CatalogScenario::ValidationAcceptSmoke,
        CatalogScenario::ModelUpdateUpsert,
        CatalogScenario::QueryFilterEq,
        CatalogScenario::QueryFilterMiss,
        CatalogScenario::QueryOrderBy,
        CatalogScenario::QueryPagination,
        CatalogScenario::QueryOffsetEmpty,
        CatalogScenario::ReadCacheSmoke,
        CatalogScenario::QueryUnionJoinSmoke,
        CatalogScenario::M2mRelateSmoke,
        CatalogScenario::TtlNativeExpire,
        CatalogScenario::TtlDeferredStamp,
        CatalogScenario::TtlCreateOnlyNoRefresh,
        CatalogScenario::TtlNonNativeWarn,
        CatalogScenario::TtlDeferredSweepDelete,
        CatalogScenario::IterScanComplete,
        CatalogScenario::OnDeleteCascadeSameBackend,
        CatalogScenario::OnDeleteSetNull,
        CatalogScenario::OnDeleteRemoveEdge,
        CatalogScenario::OnDeleteRestrictBlocks,
        CatalogScenario::OnDeleteCascadeCrossEngine,
        CatalogScenario::OnDeleteSetNullCrossEngine,
    ]
}

/// The embedded catalog, in the order it is exercised.
fn catalog_order_vec() -> (v: Vec<CatalogScenario>)
    ensures
        v@ == catalog_order(),
{
    let v = vec![
        CatalogScenario::BuilderSmoke,
        CatalogScenario::RouterMultiLogical,
        CatalogScenario::InventoryBootstrap,
        CatalogScenario::TelemetryCrudCounters,
        CatalogScenario::FactoryBackgroundBuild,
        CatalogScenario::EndpointEnvResolve,
        CatalogScenario::CompiledQueryEmptyTable,
        CatalogScenario::RouterKeyNotFound,
        CatalogScenario::GetRecordMissing,
        CatalogScenario::PrivacyReadDenyAnonymous,
        CatalogScenario::ModelCrudSmoke,
        CatalogScenario::OwnershipGateSmoke,
        CatalogScenario::ValidationRejectSmoke,
        CatalogScenario::GraphEdgeSmoke,
        CatalogScenario::TelemetryConsoleSmoke,
        CatalogScenario::BuilderEmptyRejects,
        CatalogScenario::EndpointEnvUnresolved,
        CatalogScenario::PrivacyWriteDeny,
        CatalogScenario::PrivacyEmptyDefaultDeny,
        CatalogScenario::PrivacyFieldSystemOnlyHidden,
        CatalogScenario::QueryLimitClamped,
        CatalogScenario::PrivacyBypassRequiresForce,
        CatalogScenario::ValidationAcceptSmoke,
        CatalogScenario::ModelUpdateUpsert,
        CatalogScenario::QueryFilterEq,
        CatalogScenario::QueryFilterMiss,
        CatalogScenario::QueryOrderBy,
        CatalogScenario::QueryPagination,
        CatalogScenario::QueryOffsetEmpty,
        CatalogScenario::ReadCacheSmoke,
        CatalogScenario::QueryUnionJoinSmoke,
        CatalogScenario::M2mRelateSmoke,
        CatalogScenario::TtlNativeExpire,
        CatalogScenario::TtlDeferredStamp,
        CatalogScenario::TtlCreateOnlyNoRefresh,
        CatalogScenario::TtlNonNativeWarn,
        CatalogScenario::TtlDeferredSweepDelete,
        CatalogScenario::IterScanComplete,
        CatalogScenario::OnDeleteCascadeSameBackend,
        CatalogScenario::OnDeleteSetNull,
        CatalogScenario::OnDeleteRemoveEdge,
        CatalogScenario::OnDeleteRestrictBlocks,
        CatalogScenario::OnDeleteCascadeCrossEngine,
        CatalogScenario::OnDeleteSetNullCrossEngine,
    ];
    assert(v@ =~= catalog_order());
    v
}

impl CatalogScenario {
    /// Stable id of the entry (the id of its scenario).
    pub open spec fn spec_id(self) -> Seq<char> {
        match self {
            CatalogScenario::BuilderSmoke => "builder-smoke"@,
            CatalogScenario::RouterMultiLogical => "router-multi-logical"@,
            CatalogScenario::InventoryBootstrap => "inventory-bootstrap"@,
            CatalogScenario::TelemetryCrudCounters => "telemetry-crud-counters"@,
            CatalogScenario::FactoryBackgroundBuild => "factory-background-build"@,
            CatalogScenario::EndpointEnvResolve => "endpoint-env-resolve"@,
            CatalogScenario::CompiledQueryEmptyTable => "compiled-query-empty-table"@,
            CatalogScenario::RouterKeyNotFound => "router-key-not-found"@,
            CatalogScenario::GetRecordMissing => "get-record-missing"@,
            CatalogScenario::PrivacyReadDenyAnonymous => "privacy-read-deny-anonymous"@,
            CatalogScenario::ModelCrudSmoke => "model-crud-smoke"@,
            CatalogScenario::OwnershipGateSmoke => "ownership-gate-smoke"@,
            CatalogScenario::ValidationRejectSmoke => "validation-reject-smoke"@,
            CatalogScenario::GraphEdgeSmoke => "graph-edge-smoke"@,
            CatalogScenario::TelemetryConsoleSmoke => "telemetry-console-smoke"@,
            CatalogScenario::BuilderEmptyRejects => "builder-empty-rejects"@,
            CatalogScenario::EndpointEnvUnresolved => "endpoint-env-unresolved"@,
            CatalogScenario::PrivacyWriteDeny => "privacy-write-deny"@,
            CatalogScenario::PrivacyEmptyDefaultDeny => "privacy-empty-default-deny"@,
            CatalogScenario::PrivacyFieldSystemOnlyHidden => "privacy-field-system-only-hidden"@,
            CatalogScenario::QueryLimitClamped => "query-limit-clamped"@,
            CatalogScenario::PrivacyBypassRequiresForce => "privacy-bypass-requires-force"@,
            CatalogScenario::ValidationAcceptSmoke => "validation-accept-smoke"@,
            CatalogScenario::ModelUpdateUpsert => "model-update-upsert"@,
            CatalogScenario::QueryFilterEq => "query-filter-eq"@,
            CatalogScenario::QueryFilterMiss => "query-filter-miss"@,
            CatalogScenario::QueryOrderBy => "query-order-by"@,
            CatalogScenario::QueryPagination => "query-pagination"@,
            CatalogScenario::QueryOffsetEmpty => "query-offset-empty"@,
            CatalogScenario::ReadCacheSmoke => "read-cache-smoke"@,
            CatalogScenario::QueryUnionJoinSmoke => "query-union-join-smoke"@,
            CatalogScenario::M2mRelateSmoke => "m2m-relate-smoke"@,
            CatalogScenario::TtlNativeExpire => "ttl-native-expire"@,
            CatalogScenario::TtlDeferredStamp => "ttl-deferred-stamp"@,
            CatalogScenario::TtlCreateOnlyNoRefresh => "ttl-create-only-no-refresh"@,
            CatalogScenario::TtlNonNativeWarn => "ttl-non-native-warn"@,
            CatalogScenario::TtlDeferredSweepDelete => "ttl-deferred-sweep-delete"@,
            CatalogScenario::IterScanComplete => "iter-scan-complete"@,
            CatalogScenario::OnDeleteCascadeSameBackend => "on-delete-cascade-same-backend"@,
            CatalogScenario::OnDeleteSetNull => "on-delete-set-null"@,
            CatalogScenario::OnDeleteRemoveEdge => "on-delete-remove-edge"@,
            CatalogScenario::OnDeleteRestrictBlocks => "on-delete-restrict-blocks"@,
            CatalogScenario::OnDeleteCascadeCrossEngine => "on-delete-cascade-cross-engine"@,
            CatalogScenario::OnDeleteSetNullCrossEngine => "on-delete-set-null-cross-engine"@,
        }
    }

    /// Stable id of the entry (the id of its scenario).
    pub fn id(self) -> (s: &'static str)
        ensures
            s@ == self.spec_id(),
    {
        match self {
            CatalogScenario::BuilderSmoke => "builder-smoke",
            CatalogScenario::RouterMultiLogical => "router-multi-logical",
            CatalogScenario::InventoryBootstrap => "inventory-bootstrap",
            CatalogScenario::TelemetryCrudCounters => "telemetry-crud-counters",
            CatalogScenario::FactoryBackgroundBuild => "factory-background-build",
            CatalogScenario::EndpointEnvResolve => "endpoint-env-resolve",
            CatalogScenario::CompiledQueryEmptyTable => "compiled-query-empty-table",
            CatalogScenario::RouterKeyNotFound => "router-key-not-found",
            CatalogScenario::GetRecordMissing => "get-record-missing",
            CatalogScenario::PrivacyReadDenyAnonymous => "privacy-read-deny-anonymous",
            CatalogScenario::ModelCrudSmoke => "model-crud-smoke",
            CatalogScenario::OwnershipGateSmoke => "ownership-gate-smoke",
            CatalogScenario::ValidationRejectSmoke => "validation-reject-smoke",
            CatalogScenario::GraphEdgeSmoke => "graph-edge-smoke",
            CatalogScenario::TelemetryConsoleSmoke => "telemetry-console-smoke",
            CatalogScenario::BuilderEmptyRejects => "builder-empty-rejects",
            CatalogScenario::EndpointEnvUnresolved => "endpoint-env-unresolved",
            CatalogScenario::PrivacyWriteDeny => "privacy-write-deny",
            CatalogScenario::PrivacyEmptyDefaultDeny => "privacy-empty-default-deny",
            CatalogScenario::PrivacyFieldSystemOnlyHidden => "privacy-field-system-only-hidden",
            CatalogScenario::QueryLimitClamped => "query-limit-clamped",
            CatalogScenario::PrivacyBypassRequiresForce => "privacy-bypass-requires-force",
            CatalogScenario::ValidationAcceptSmoke => "validation-accept-smoke",
            CatalogScenario::ModelUpdateUpsert => "model-update-upsert",
            CatalogScenario::QueryFilterEq => "query-filter-eq",
            CatalogScenario::QueryFilterMiss => "query-filter-miss",
            CatalogScenario::QueryOrderBy => "query-order-by",
            CatalogScenario::QueryPagination => "query-pagination",
            CatalogScenario::QueryOffsetEmpty => "query-offset-empty",
            CatalogScenario::ReadCacheSmoke => "read-cache-smoke",
            CatalogScenario::QueryUnionJoinSmoke => "query-union-join-smoke",
            CatalogScenario::M2mRelateSmoke => "m2m-relate-smoke",
            CatalogScenario::TtlNativeExpire => "ttl-native-expire",
            CatalogScenario::TtlDeferredStamp => "ttl-deferred-stamp",
            CatalogScenario::TtlCreateOnlyNoRefresh => "ttl-create-only-no-refresh",
            CatalogScenario::TtlNonNativeWarn => "ttl-non-native-warn",
            CatalogScenario::TtlDeferredSweepDelete => "ttl-deferred-sweep-delete",
            CatalogScenario::IterScanComplete => "iter-scan-complete",
            CatalogScenario::OnDeleteCascadeSameBackend => "on-delete-cascade-same-backend",
            CatalogScenario::OnDeleteSetNull => "on-delete-set-null",
            CatalogScenario::OnDeleteRemoveEdge => "on-delete-remove-edge",
            CatalogScenario::OnDeleteRestrictBlocks => "on-delete-restrict-blocks",
            CatalogScenario::OnDeleteCascadeCrossEngine => "on-delete-cascade-cross-engine",
            CatalogScenario::OnDeleteSetNullCrossEngine => "on-delete-set-null-cross-engine",
        }
    }

    /// Happy or sad path.
    pub open spec fn spec_path(self) -> PathKind {
        match self {
            CatalogScenario::BuilderSmoke => PathKind::Happy,
            CatalogScenario::RouterMultiLogical => PathKind::Happy,
            CatalogScenario::InventoryBootstrap => PathKind::Happy,
            CatalogScenario::TelemetryCrudCounters => PathKind::Happy,
            CatalogScenario::FactoryBackgroundBuild => PathKind::Happy,
            CatalogScenario::EndpointEnvResolve => PathKind::Happy,
            CatalogScenario::CompiledQueryEmptyTable => PathKind::Happy,
            CatalogScenario::RouterKeyNotFound => PathKind::Sad,
            CatalogScenario::GetRecordMissing => PathKind::Sad,
            CatalogScenario::PrivacyReadDenyAnonymous => PathKind::Sad,
            CatalogScenario::ModelCrudSmoke => PathKind::Happy,
            CatalogScenario::OwnershipGateSmoke => PathKind::Happy,
            CatalogScenario::ValidationRejectSmoke => PathKind::Sad,
            CatalogScenario::GraphEdgeSmoke => PathKind::Happy,
            CatalogScenario::TelemetryConsoleSmoke => PathKind::Happy,
            CatalogScenario::BuilderEmptyRejects => PathKind::Sad,
            CatalogScenario::EndpointEnvUnresolved => PathKind::Sad,
            CatalogScenario::PrivacyWriteDeny => PathKind::Sad,
            CatalogScenario::PrivacyEmptyDefaultDeny => PathKind::Sad,
            CatalogScenario::PrivacyFieldSystemOnlyHidden => PathKind::Sad,
            CatalogScenario::QueryLimitClamped => PathKind::Sad,
            CatalogScenario::PrivacyBypassRequiresForce => PathKind::Sad,
            CatalogScenario::ValidationAcceptSmoke => PathKind::Happy,
            CatalogScenario::ModelUpdateUpsert => PathKind::Happy,
            CatalogScenario::QueryFilterEq => PathKind::Happy,
            CatalogScenario::QueryFilterMiss => PathKind::Sad,
            CatalogScenario::QueryOrderBy => PathKind::Happy,
            CatalogScenario::QueryPagination => PathKind::Happy,
            CatalogScenario::QueryOffsetEmpty => PathKind::Sad,
            CatalogScenario::ReadCacheSmoke => PathKind::Happy,
            CatalogScenario::QueryUnionJoinSmoke => PathKind::Happy,
            CatalogScenario::M2mRelateSmoke => PathKind::Happy,
            CatalogScenario::TtlNativeExpire => PathKind::Happy,
            CatalogScenario::TtlDeferredStamp => PathKind::Happy,
            CatalogScenario::TtlCreateOnlyNoRefresh => PathKind::Happy,
            CatalogScenario::TtlNonNativeWarn => PathKind::Sad,
            CatalogScenario::TtlDeferredSweepDelete => PathKind::Happy,
            CatalogScenario::IterScanComplete => PathKind::Happy,
            CatalogScenario::OnDeleteCascadeSameBackend => PathKind::Happy,
            CatalogScenario::OnDeleteSetNull => PathKind::Happy,
            CatalogScenario::OnDeleteRemoveEdge => PathKind::Happy,
            CatalogScenario::OnDeleteRestrictBlocks => PathKind::Sad,
            CatalogScenario::OnDeleteCascadeCrossEngine => PathKind::Happy,
            CatalogScenario::OnDeleteSetNullCrossEngine => PathKind::Happy,
        }
    }

    /// Telemetry override of the entry.
    pub open spec fn spec_telemetry(self) -> Option<TelemetryAdapter> {
        match self {
            CatalogScenario::TelemetryCrudCounters => Some(TelemetryAdapter::Recording),
            CatalogScenario::TelemetryConsoleSmoke => Some(TelemetryAdapter::Console),
            _ => None,
        }
    }

    /// Whether the entry bootstraps from the schema inventory (Surreal only).
    pub open spec fn spec_inventory_bootstrap(self) -> bool {
        self == CatalogScenario::InventoryBootstrap
    }

    /// Whether the entry only runs on Surreal storage.
    pub open spec fn spec_surreal_only(self) -> bool {
        self == CatalogScenario::InventoryBootstrap
    }

    /// Whether the entry registers extra logical names (`default`, `billing`).
    pub open spec fn spec_multi_logical(self) -> bool {
        self == CatalogScenario::RouterMultiLogical
    }

    /// Whether the entry only runs on adapters with generated model CRUD.
    pub open spec fn spec_generated_model_only(self) -> bool {
        self == CatalogScenario::ModelCrudSmoke
            || self == CatalogScenario::ModelUpdateUpsert
            || self == CatalogScenario::QueryFilterEq
            || self == CatalogScenario::QueryFilterMiss
            || self == CatalogScenario::QueryOrderBy
            || self == CatalogScenario::QueryPagination
            || self == CatalogScenario::QueryOffsetEmpty
            || self == CatalogScenario::ReadCacheSmoke
    }

    /// The catalog row of this scenario.
    pub fn entry(self) -> (e: CatalogEntry)
        ensures
            entry_matches(e, self),
    {
        match self {
            CatalogScenario::BuilderSmoke => entry("builder-smoke", PathKind::Happy, CatalogScenario::BuilderSmoke),
            CatalogScenario::RouterMultiLogical => entry_multi_logical("router-multi-logical", CatalogScenario::RouterMultiLogical),
            CatalogScenario::InventoryBootstrap => entry_inventory("inventory-bootstrap", CatalogScenario::InventoryBootstrap),
            CatalogScenario::TelemetryCrudCounters => entry_telemetry("telemetry-crud-counters", PathKind::Happy, CatalogScenario::TelemetryCrudCounters, TelemetryAdapter::Recording),
            CatalogScenario::FactoryBackgroundBuild => entry("factory-background-build", PathKind::Happy, CatalogScenario::FactoryBackgroundBuild),
            CatalogScenario::EndpointEnvResolve => entry("endpoint-env-resolve", PathKind::Happy, CatalogScenario::EndpointEnvResolve),
            CatalogScenario::CompiledQueryEmptyTable => entry("compiled-query-empty-table", PathKind::Happy, CatalogScenario::CompiledQueryEmptyTable),
            CatalogScenario::RouterKeyNotFound => entry_sad("router-key-not-found", CatalogScenario::RouterKeyNotFound),
            CatalogScenario::GetRecordMissing => entry_sad("get-record-missing", CatalogScenario::GetRecordMissing),
            CatalogScenario::PrivacyReadDenyAnonymous => entry_sad("privacy-read-deny-anonymous", CatalogScenario::PrivacyReadDenyAnonymous),
            CatalogScenario::ModelCrudSmoke => entry_generated_model("model-crud-smoke", PathKind::Happy, CatalogScenario::ModelCrudSmoke),
            CatalogScenario::OwnershipGateSmoke => entry("ownership-gate-smoke", PathKind::Happy, CatalogScenario::OwnershipGateSmoke),
            CatalogScenario::ValidationRejectSmoke => entry_sad("validation-reject-smoke", CatalogScenario::ValidationRejectSmoke),
            CatalogScenario::GraphEdgeSmoke => entry("graph-edge-smoke", PathKind::Happy, CatalogScenario::GraphEdgeSmoke),
            CatalogScenario::TelemetryConsoleSmoke => entry_telemetry("telemetry-console-smoke", PathKind::Happy, CatalogScenario::TelemetryConsoleSmoke, TelemetryAdapter::Console),
            CatalogScenario::BuilderEmptyRejects => entry("builder-empty-rejects", PathKind::Sad, CatalogScenario::BuilderEmptyRejects),
            CatalogScenario::EndpointEnvUnresolved => entry("endpoint-env-unresolved", PathKind::Sad, CatalogScenario::EndpointEnvUnresolved),
            CatalogScenario::PrivacyWriteDeny => entry("privacy-write-deny", PathKind::Sad, CatalogScenario::PrivacyWriteDeny),
            CatalogScenario::PrivacyEmptyDefaultDeny => entry_sad("privacy-empty-default-deny", CatalogScenario::PrivacyEmptyDefaultDeny),
            CatalogScenario::PrivacyFieldSystemOnlyHidden => entry_sad("privacy-field-system-only-hidden", CatalogScenario::PrivacyFieldSystemOnlyHidden),
            CatalogScenario::QueryLimitClamped => entry_sad("query-limit-clamped", CatalogScenario::QueryLimitClamped),
            CatalogScenario::PrivacyBypassRequiresForce => entry_sad("privacy-bypass-requires-force", CatalogScenario::PrivacyBypassRequiresForce),
            CatalogScenario::ValidationAcceptSmoke => entry("validation-accept-smoke", PathKind::Happy, CatalogScenario::ValidationAcceptSmoke),
            CatalogScenario::ModelUpdateUpsert => entry_generated_model("model-update-upsert", PathKind::Happy, CatalogScenario::ModelUpdateUpsert),
            CatalogScenario::QueryFilterEq => entry_generated_model("query-filter-eq", PathKind::Happy, CatalogScenario::QueryFilterEq),
            CatalogScenario::QueryFilterMiss => entry_generated_model("query-filter-miss", PathKind::Sad, CatalogScenario::QueryFilterMiss),
            CatalogScenario::QueryOrderBy => entry_generated_model("query-order-by", PathKind::Happy, CatalogScenario::QueryOrderBy),
            CatalogScenario::QueryPagination => entry_generated_model("query-pagination", PathKind::Happy, CatalogScenario::QueryPagination),
            CatalogScenario::QueryOffsetEmpty => entry_generated_model("query-offset-empty", PathKind::Sad, CatalogScenario::QueryOffsetEmpty),
            CatalogScenario::ReadCacheSmoke => entry_generated_model("read-cache-smoke", PathKind::Happy, CatalogScenario::ReadCacheSmoke),
            CatalogScenario::QueryUnionJoinSmoke => entry("query-union-join-smoke", PathKind::Happy, CatalogScenario::QueryUnionJoinSmoke),
            CatalogScenario::M2mRelateSmoke => entry("m2m-relate-smoke", PathKind::Happy, CatalogScenario::M2mRelateSmoke),
            CatalogScenario::TtlNativeExpire => entry("ttl-native-expire", PathKind::Happy, CatalogScenario::TtlNativeExpire),
            CatalogScenario::TtlDeferredStamp => entry("ttl-deferred-stamp", PathKind::Happy, CatalogScenario::TtlDeferredStamp),
            CatalogScenario::TtlCreateOnlyNoRefresh => entry("ttl-create-only-no-refresh", PathKind::Happy, CatalogScenario::TtlCreateOnlyNoRefresh),
            CatalogScenario::TtlNonNativeWarn => entry_sad("ttl-non-native-warn", CatalogScenario::TtlNonNativeWarn),
            CatalogScenario::TtlDeferredSweepDelete => entry("ttl-deferred-sweep-delete", PathKind::Happy, CatalogScenario::TtlDeferredSweepDelete),
            CatalogScenario::IterScanComplete => entry("iter-scan-complete", PathKind::Happy, CatalogScenario::IterScanComplete),
            CatalogScenario::OnDeleteCascadeSameBackend => entry("on-delete-cascade-same-backend", PathKind::Happy, CatalogScenario::OnDeleteCascadeSameBackend),
            CatalogScenario::OnDeleteSetNull => entry("on-delete-set-null", PathKind::Happy, CatalogScenario::OnDeleteSetNull),
            CatalogScenario::OnDeleteRemoveEdge => entry("on-delete-remove-edge", PathKind::Happy, CatalogScenario::OnDeleteRemoveEdge),
            CatalogScenario::OnDeleteRestrictBlocks => entry_sad("on-delete-restrict-blocks", CatalogScenario::OnDeleteRestrictBlocks),
            CatalogScenario::OnDeleteCascadeCrossEngine => entry("on-delete-cascade-cross-engine", PathKind::Happy, CatalogScenario::OnDeleteCascadeCrossEngine),
            CatalogScenario::OnDeleteSetNullCrossEngine => entry("on-delete-set-null-cross-engine", PathKind::Happy, CatalogScenario::OnDeleteSetNullCrossEngine),
        }
    }

    /// `r` is the scenario this entry runs on `storage` in a build with `f`.
    pub open spec fn spec_builds(self, f: BuildFeatures, storage: StorageAdapter, r: ScenarioSpec) -> bool {
        match self {
            CatalogScenario::BuilderSmoke => r.is_builder_smoke(),
            CatalogScenario::RouterMultiLogical => is_router_multi_logical_for(f, storage, r),
            CatalogScenario::InventoryBootstrap => r.is_inventory_bootstrap(),
            CatalogScenario::TelemetryCrudCounters => r.is_telemetry_crud_counters(),
            CatalogScenario::FactoryBackgroundBuild => r.is_factory_background_build(),
            CatalogScenario::EndpointEnvResolve => r.is_endpoint_env_resolve(),
            CatalogScenario::CompiledQueryEmptyTable => r.is_compiled_query_empty_table(),
            CatalogScenario::RouterKeyNotFound => r.is_router_key_not_found(storage),
            CatalogScenario::GetRecordMissing => r.is_get_record_missing(),
            CatalogScenario::PrivacyReadDenyAnonymous => r.is_privacy_read_deny_anonymous(),
            CatalogScenario::ModelCrudSmoke => r.is_model_crud_smoke(),
            CatalogScenario::OwnershipGateSmoke => r.is_ownership_gate_smoke(),
            CatalogScenario::ValidationRejectSmoke => r.is_validation_reject_smoke(),
            CatalogScenario::GraphEdgeSmoke => r.is_graph_edge_smoke(),
            CatalogScenario::TelemetryConsoleSmoke => r.is_telemetry_console_smoke(),
            CatalogScenario::BuilderEmptyRejects => r.is_builder_empty_rejects(),
            CatalogScenario::EndpointEnvUnresolved => r.is_endpoint_env_unresolved(),
            CatalogScenario::PrivacyWriteDeny => r.is_privacy_write_deny(),
            CatalogScenario::PrivacyEmptyDefaultDeny => r.is_privacy_empty_default_deny(),
            CatalogScenario::PrivacyFieldSystemOnlyHidden => r.is_privacy_field_system_only_hidden(),
            CatalogScenario::QueryLimitClamped => r.is_query_limit_clamped(),
            CatalogScenario::PrivacyBypassRequiresForce => r.is_privacy_bypass_requires_force(),
            CatalogScenario::ValidationAcceptSmoke => r.is_validation_accept_smoke(),
            CatalogScenario::ModelUpdateUpsert => r.is_model_update_upsert(),
            CatalogScenario::QueryFilterEq => r.is_query_filter_eq(),
            CatalogScenario::QueryFilterMiss => r.is_query_filter_miss(),
            CatalogScenario::QueryOrderBy => r.is_query_order_by(),
            CatalogScenario::QueryPagination => r.is_query_pagination(),
            CatalogScenario::QueryOffsetEmpty => r.is_query_offset_empty(),
            CatalogScenario::ReadCacheSmoke => r.is_read_cache_smoke(),
            CatalogScenario::QueryUnionJoinSmoke => r.is_query_union_join_smoke(),
            CatalogScenario::M2mRelateSmoke => r.is_m2m_relate_smoke(),
            CatalogScenario::TtlNativeExpire => r.is_ttl_native_expire(ttl_record_id_view(storage, "native"@)),
            CatalogScenario::TtlDeferredStamp => r.is_ttl_deferred_stamp(ttl_record_id_view(storage, "deferred"@)),
            CatalogScenario::TtlCreateOnlyNoRefresh => r.is_ttl_create_only_no_refresh(ttl_record_id_view(storage, "create_only"@)),
            CatalogScenario::TtlNonNativeWarn => r.is_ttl_non_native_warn(),
            CatalogScenario::TtlDeferredSweepDelete => r.is_ttl_deferred_sweep_delete(ttl_record_id_view(storage, "sweep_delete"@)),
            CatalogScenario::IterScanComplete => r.is_iter_scan_complete(),
            CatalogScenario::OnDeleteCascadeSameBackend => r.is_on_delete_cascade_same_backend(),
            CatalogScenario::OnDeleteSetNull => r.is_on_delete_set_null(),
            CatalogScenario::OnDeleteRemoveEdge => r.is_on_delete_remove_edge(),
            CatalogScenario::OnDeleteRestrictBlocks => r.is_on_delete_restrict_blocks(),
            CatalogScenario::OnDeleteCascadeCrossEngine => r.is_on_delete_cascade_cross_engine(),
            CatalogScenario::OnDeleteSetNullCrossEngine => r.is_on_delete_set_null_cross_engine(),
        }
    }

    /// The scenario this entry runs on `storage` in a build with `features`.
    pub fn build_in(self, features: &BuildFeatures, storage: StorageAdapter) -> (r: ScenarioSpec)
        ensures
            self.spec_builds(*features, storage, r),
    {
        match self {
            CatalogScenario::BuilderSmoke => ScenarioSpec::builder_smoke(),
            CatalogScenario::RouterMultiLogical => router_multi_logical_spec_in(features, storage),
            CatalogScenario::InventoryBootstrap => ScenarioSpec::inventory_bootstrap(),
            CatalogScenario::TelemetryCrudCounters => ScenarioSpec::telemetry_crud_counters(),
            CatalogScenario::FactoryBackgroundBuild => ScenarioSpec::factory_background_build(),
            CatalogScenario::EndpointEnvResolve => ScenarioSpec::endpoint_env_resolve(),
            CatalogScenario::CompiledQueryEmptyTable => ScenarioSpec::compiled_query_empty_table(),
            CatalogScenario::RouterKeyNotFound => ScenarioSpec::router_key_not_found(storage),
            CatalogScenario::GetRecordMissing => ScenarioSpec::get_record_missing(),
            CatalogScenario::PrivacyReadDenyAnonymous => ScenarioSpec::privacy_read_deny_anonymous(),
            CatalogScenario::ModelCrudSmoke => ScenarioSpec::model_crud_smoke(),
            CatalogScenario::OwnershipGateSmoke => ScenarioSpec::ownership_gate_smoke(),
            CatalogScenario::ValidationRejectSmoke => ScenarioSpec::validation_reject_smoke(),
            CatalogScenario::GraphEdgeSmoke => ScenarioSpec::graph_edge_smoke(),
            CatalogScenario::TelemetryConsoleSmoke => ScenarioSpec::telemetry_console_smoke(),
            CatalogScenario::BuilderEmptyRejects => ScenarioSpec::builder_empty_rejects(),
            CatalogScenario::EndpointEnvUnresolved => ScenarioSpec::endpoint_env_unresolved(),
            CatalogScenario::PrivacyWriteDeny => ScenarioSpec::privacy_write_deny(),
            CatalogScenario::PrivacyEmptyDefaultDeny => ScenarioSpec::privacy_empty_default_deny(),
            CatalogScenario::PrivacyFieldSystemOnlyHidden => ScenarioSpec::privacy_field_system_only_hidden(),
            CatalogScenario::QueryLimitClamped => ScenarioSpec::query_limit_clamped(),
            CatalogScenario::PrivacyBypassRequiresForce => ScenarioSpec::privacy_bypass_requires_force(),
            CatalogScenario::ValidationAcceptSmoke => ScenarioSpec::validation_accept_smoke(),
            CatalogScenario::ModelUpdateUpsert => ScenarioSpec::model_update_upsert(),
            CatalogScenario::QueryFilterEq => ScenarioSpec::query_filter_eq(),
            CatalogScenario::QueryFilterMiss => ScenarioSpec::query_filter_miss(),
            CatalogScenario::QueryOrderBy => ScenarioSpec::query_order_by(),
            CatalogScenario::QueryPagination => ScenarioSpec::query_pagination(),
            CatalogScenario::QueryOffsetEmpty => ScenarioSpec::query_offset_empty(),
            CatalogScenario::ReadCacheSmoke => ScenarioSpec::read_cache_smoke(),
            CatalogScenario::QueryUnionJoinSmoke => ScenarioSpec::query_union_join_smoke(),
            CatalogScenario::M2mRelateSmoke => ScenarioSpec::m2m_relate_smoke(),
            CatalogScenario::TtlNativeExpire => ScenarioSpec::ttl_native_expire(ttl_record_id(storage, "native")),
            CatalogScenario::TtlDeferredStamp => ScenarioSpec::ttl_deferred_stamp(ttl_record_id(storage, "deferred")),
            CatalogScenario::TtlCreateOnlyNoRefresh => ScenarioSpec::ttl_create_only_no_refresh(ttl_record_id(storage, "create_only")),
            CatalogScenario::TtlNonNativeWarn => ScenarioSpec::ttl_non_native_warn(),
            CatalogScenario::TtlDeferredSweepDelete => ScenarioSpec::ttl_deferred_sweep_delete(ttl_record_id(storage, "sweep_delete")),
            CatalogScenario::IterScanComplete => ScenarioSpec::iter_scan_complete(),
            CatalogScenario::OnDeleteCascadeSameBackend => ScenarioSpec::on_delete_cascade_same_backend(),
            CatalogScenario::OnDeleteSetNull => ScenarioSpec::on_delete_set_null(),
            CatalogScenario::OnDeleteRemoveEdge => ScenarioSpec::on_delete_remove_edge(),
            CatalogScenario::OnDeleteRestrictBlocks => ScenarioSpec::on_delete_restrict_blocks(),
            CatalogScenario::OnDeleteCascadeCrossEngine => ScenarioSpec::on_delete_cascade_cross_engine(),
            CatalogScenario::OnDeleteSetNullCrossEngine => ScenarioSpec::on_delete_set_null_cross_engine(),
        }
    }

    /// The scenario this entry runs on `storage` in the current build.
    pub fn build(self, storage: StorageAdapter) -> (r: ScenarioSpec)
        ensures
            self.spec_builds(BuildFeatures::spec_current(), storage, r),
    {
        let f = BuildFeatures::current();
        self.build_in(&f, storage)
    }
}

/// Default embedded catalog exercised by the end-to-end matrix.
pub fn embedded_catalog() -> (r: Vec<CatalogEntry>)
    ensures
        r@.len() == catalog_order().len(),
        forall|i: int| 0 <= i < r@.len() ==> entry_matches(#[trigger] r@[i], catalog_order()[i]),
{
    let kinds = catalog_order_vec();
    let n = kinds.len();
    let mut r: Vec<CatalogEntry> = Vec::new();
    let mut i: usize = 0;
    while i < n
        invariant
            n == kinds@.len(),
            kinds@ == catalog_order(),
            i <= n,
            r@.len() == i,
            forall|j: int| 0 <= j < i ==> entry_matches(#[trigger] r@[j], catalog_order()[j]),
        decreases n - i,
    {
        let e = kinds[i].entry();
        r.push(e);
        i = i + 1;
    }
    r
}

/// Whether a TTL catalog entry applies to this storage adapter.
pub open spec fn spec_ttl_catalog_applies(id: Seq<char>, storage: StorageAdapter) -> bool {
    if !has_prefix(id, "ttl-"@) {
        true
    } else if storage == StorageAdapter::AcmeStub {
        false
    } else if id == "ttl-native-expire"@ {
        storage == StorageAdapter::Redis || storage == StorageAdapter::MongoDb
    } else if id == "ttl-deferred-stamp"@ {
        !(storage == StorageAdapter::Redis || storage == StorageAdapter::MongoDb)
    } else if id == "ttl-deferred-sweep-delete"@ {
        storage == StorageAdapter::Mem || storage == StorageAdapter::Sqlite || storage
            == StorageAdapter::Postgres || storage == StorageAdapter::SurrealMem || storage
            == StorageAdapter::SurrealRocksdb
    } else if id == "ttl-create-only-no-refresh"@ {
        storage != StorageAdapter::IndraDb
    } else if id == "ttl-non-native-warn"@ {
        !(storage == StorageAdapter::Redis || storage == StorageAdapter::MongoDb)
    } else {
        true
    }
}

/// Whether a TTL catalog entry applies to this storage adapter.
pub fn ttl_catalog_applies(entry_id: &str, storage: StorageAdapter) -> (b: bool)
    ensures
        b == spec_ttl_catalog_applies(entry_id@, storage),
{
    if !starts_with(entry_id, "ttl-") {
        return true;
    }
    if matches!(storage, StorageAdapter::AcmeStub) {
        return false;
    }
    let id = crate::text::chars_of(entry_id);
    if crate::text::chars_equal(&id, "ttl-native-expire") {
        matches!(storage, StorageAdapter::Redis | StorageAdapter::MongoDb)
    } else if crate::text::chars_equal(&id, "ttl-deferred-stamp") {
        !matches!(storage, StorageAdapter::Redis | StorageAdapter::MongoDb)
    } else if crate::text::chars_equal(&id, "ttl-deferred-sweep-delete") {
        matches!(
            storage,
            StorageAdapter::Mem | StorageAdapter::Sqlite | StorageAdapter::Postgres
                | StorageAdapter::SurrealMem | StorageAdapter::SurrealRocksdb
        )
    } else if crate::text::chars_equal(&id, "ttl-create-only-no-refresh") {
        !matches!(storage, StorageAdapter::IndraDb)
    } else if crate::text::chars_equal(&id, "ttl-non-native-warn") {
        !matches!(storage, StorageAdapter::Redis | StorageAdapter::MongoDb)
    } else {
        true
    }
}

/// Whether an iteration catalog entry applies to this storage adapter:
/// paging on redis, mongo and indra is unsupported until keyset pushdown exists.
pub open spec fn spec_iter_catalog_applies(id: Seq<char>, storage: StorageAdapter) -> bool {
    id != "iter-scan-complete"@ || !(storage == StorageAdapter::Redis || storage
        == StorageAdapter::MongoDb || storage == StorageAdapter::IndraDb || storage
        == StorageAdapter::AcmeStub)
}

/// Whether an iteration catalog entry applies to this storage adapter.
pub fn iter_catalog_applies(entry_id: &str, storage: StorageAdapter) -> (b: bool)
    ensures
        b == spec_iter_catalog_applies(entry_id@, storage),
{
    let id = crate::text::chars_of(entry_id);
    if !crate::text::chars_equal(&id, "iter-scan-complete") {
        return true;
    }
    !matches!(
        storage,
        StorageAdapter::Redis | StorageAdapter::MongoDb | StorageAdapter::IndraDb
            | StorageAdapter::AcmeStub
    )
}

/// Whether an OnDelete catalog entry applies to this storage adapter.
pub open spec fn spec_on_delete_catalog_applies(id: Seq<char>, storage: StorageAdapter) -> bool {
    if !has_prefix(id, "on-delete-"@) {
        true
    } else if storage == StorageAdapter::AcmeStub {
        false
    } else if has_infix(id, "cross-engine"@) {
        spec_cross_engine_secondary(storage) is Some
    } else {
        true
    }
}

/// Whether an OnDelete catalog entry applies to this storage adapter.
pub fn on_delete_catalog_applies(entry_id: &str, storage: StorageAdapter) -> (b: bool)
    ensures
        b == spec_on_delete_catalog_applies(entry_id@, storage),
{
    if !starts_with(entry_id, "on-delete-") {
        return true;
    }
    if matches!(storage, StorageAdapter::AcmeStub) {
        return false;
    }
    if contains_str(entry_id, "cross-engine") {
        return on_delete_cross_engine_secondary(storage).is_some();
    }
    true
}

/// Storage is one of the Surreal adapters.
pub open spec fn is_surreal(storage: StorageAdapter) -> bool {
    storage == StorageAdapter::SurrealMem || storage == StorageAdapter::SurrealRocksdb
}

/// Whether the catalog lists entry `k` for `storage`.
pub open spec fn spec_listed(k: CatalogScenario, storage: StorageAdapter) -> bool {
    &&& !(k.spec_surreal_only() && !is_surreal(storage))
    &&& !(k.spec_inventory_bootstrap() && !is_surreal(storage))
    &&& !(k.spec_generated_model_only() && storage == StorageAdapter::AcmeStub)
    &&& spec_ttl_catalog_applies(k.spec_id(), storage)
    &&& spec_iter_catalog_applies(k.spec_id(), storage)
    &&& spec_on_delete_catalog_applies(k.spec_id(), storage)
}

pub open spec fn listed_for(storage: StorageAdapter) -> spec_fn(CatalogScenario) -> bool {
    |k: CatalogScenario| spec_listed(k, storage)
}

fn entry_listed(entry: &CatalogEntry, storage: StorageAdapter) -> (b: bool)
    requires
        entry_matches(*entry, entry.spec),
    ensures
        b == spec_listed(entry.spec, storage),
{
    let surreal = matches!(storage, StorageAdapter::SurrealMem | StorageAdapter::SurrealRocksdb);
    if entry.surreal_only && !surreal {
        return false;
    }
    if entry.inventory_bootstrap && !surreal {
        return false;
    }
    if entry.generated_model_only && !storage.supports_model_runtime() {
        return false;
    }
    if !ttl_catalog_applies(entry.id, storage) {
        return false;
    }
    if !iter_catalog_applies(entry.id, storage) {
        return false;
    }
    if !on_delete_catalog_applies(entry.id, storage) {
        return false;
    }
    true
}

/// The scenarios of a list of entries.
pub open spec fn scenarios_of(entries: Seq<CatalogEntry>) -> Seq<CatalogScenario> {
    entries.map_values(|e: CatalogEntry| e.spec)
}

/// Catalog entries applicable to a storage adapter, in catalog order.
pub fn catalog_for_storage(storage: StorageAdapter) -> (r: Vec<CatalogEntry>)
    ensures
        scenarios_of(r@) == catalog_order().filter(listed_for(storage)),
        forall|i: int| 0 <= i < r@.len() ==> entry_matches(#[trigger] r@[i], r@[i].spec),
{
    let all = embedded_catalog();
    let n = all.len();
    let ghost kinds = catalog_order();
    let mut r: Vec<CatalogEntry> = Vec::new();
    let mut i: usize = 0;
    while i < n
        invariant
            n == all@.len(),
            n == kinds.len(),
            kinds == catalog_order(),
            forall|j: int| 0 <= j < all@.len() ==> entry_matches(#[trigger] all@[j], kinds[j]),
            i <= n,
            scenarios_of(r@) == kinds.take(i as int).filter(listed_for(storage)),
            forall|j: int| 0 <= j < r@.len() ==> entry_matches(#[trigger] r@[j], r@[j].spec),
        decreases n - i,
    {
        proof {
            lemma_filter_take_step(kinds, listed_for(storage), i as int);
        }
        let e = all[i];
        assert(entry_matches(all@[i as int], kinds[i as int]));
        if entry_listed(&e, storage) {
            let ghost before = r@;
            r.push(e);
            assert(scenarios_of(r@) =~= scenarios_of(before).push(e.spec));
        }
        i = i + 1;
    }
    assert(kinds.take(n as int) =~= kinds);
    r
}

/// Storage adapters of the current build that can run, in matrix order
/// (the default PR CI matrix).
pub fn e2e_storage_backends() -> (r: Vec<StorageAdapter>)
    ensures
        r@ == enabled_storage_adapters(BuildFeatures::spec_current()).filter(
            runnable_in(BuildFeatures::spec_current()),
        ),
{
    let all = all_storage_adapters();
    let f = BuildFeatures::current();
    let n = all.len();
    let mut r: Vec<StorageAdapter> = Vec::new();
    let mut i: usize = 0;
    while i < n
        invariant
            n == all@.len(),
            f == BuildFeatures::spec_current(),
            i <= n,
            r@ == all@.take(i as int).filter(runnable_in(BuildFeatures::spec_current())),
        decreases n - i,
    {
        proof {
            lemma_filter_take_step(all@, runnable_in(BuildFeatures::spec_current()), i as int);
        }
        if extended_store_available_in(&f, all[i], false, false) {
            r.push(all[i]);
        }
        i = i + 1;
    }
    assert(all@.take(n as int) =~= all@);
    r
}

/// Adapters that can run in a build with `f` (no wire backend resolved, no RocksDB opt-in).
pub open spec fn runnable_in(f: BuildFeatures) -> spec_fn(StorageAdapter) -> bool {
    |s: StorageAdapter| spec_store_available(f, s, false, false)
}

/// The matrix row an entry runs on for `storage`.
pub open spec fn spec_matrix_for(k: CatalogScenario, storage: StorageAdapter) -> MatrixSpec {
    MatrixSpec {
        storage,
        telemetry: match k.spec_telemetry() {
            Some(t) => t,
            None => TelemetryAdapter::Off,
        },
        topology: Topology::Embedded,
    }
}

/// The matrix row an entry runs on for `storage`: its telemetry override
/// (off by default), embedded topology.
pub fn matrix_for_entry(entry: &CatalogEntry, storage: StorageAdapter) -> (m: MatrixSpec)
    ensures
        m == (MatrixSpec {
            storage,
            telemetry: match entry.telemetry {
                Some(t) => t,
                None => TelemetryAdapter::Off,
            },
            topology: Topology::Embedded,
        }),
{
    let telemetry = match entry.telemetry {
        Some(t) => t,
        None => TelemetryAdapter::Off,
    };
    MatrixSpec { storage, telemetry, topology: Topology::Embedded }
}

/// What running one catalog entry on one storage adapter amounts to.
#[derive(Debug)]
pub enum CatalogRun {
    /// The entry does not run; `notice` is printed when present.
    Skip { notice: Option<String> },
    /// Bootstrap a session for `matrix` (with the extra logical names and
    /// inventory bootstrap when set), then run `scenario` and expect no error.
    Run {
        matrix: MatrixSpec,
        logical_names: Option<&'static [&'static str]>,
        inventory_bootstrap: bool,
        scenario: ScenarioSpec,
    },
}

/// `catalog entry <id>/<name>: <reason> — skipping`.
pub open spec fn skip_notice(id: Seq<char>, name: Seq<char>, reason: Seq<char>) -> Seq<char> {
    "catalog entry "@ + id + "/"@ + name + ": "@ + reason + " — skipping"@
}

/// Whether entry `e` runs on `storage` in a build with `f`, judged by the
/// entry's own id and flags: `None` when it runs, `Some(None)` for a silent
/// skip, `Some(Some(m))` for a skip with notice `m`.
pub open spec fn spec_run_gate(
    f: BuildFeatures,
    e: CatalogEntry,
    storage: StorageAdapter,
    wire_resolves: bool,
    rocksdb_opted_in: bool,
) -> Option<Option<Seq<char>>> {
    let id = e.id@;
    if e.surreal_only && !is_surreal(storage) {
        Some(None)
    } else if e.inventory_bootstrap && !is_surreal(storage) {
        Some(None)
    } else if e.generated_model_only && storage == StorageAdapter::AcmeStub {
        Some(None)
    } else if !spec_ttl_catalog_applies(id, storage) {
        Some(None)
    } else if !spec_iter_catalog_applies(id, storage) {
        Some(
            Some(
                skip_notice(
                    id,
                    storage.spec_slug(),
                    "iter unsupported on this adapter until paging fix"@,
                ),
            ),
        )
    } else if !spec_on_delete_catalog_applies(id, storage) {
        Some(None)
    } else if spec_skip_reason(f, storage, wire_resolves, rocksdb_opted_in) is Some {
        Some(
            Some(
                skip_notice(
                    id,
                    storage.spec_slug(),
                    spec_skip_reason(f, storage, wire_resolves, rocksdb_opted_in)->0,
                ),
            ),
        )
    } else if e.inventory_bootstrap && !f.surreal_inventory {
        Some(Some("catalog entry "@ + id + ": surreal-inventory feature disabled — skipping"@))
    } else {
        None
    }
}

/// The logical names a run of entry `e` on `storage` registers: the entry's
/// own, except that the multi-logical router entry uses `primary` and
/// `vault` on the acme stub.
pub open spec fn run_logical_names_ok(
    names: Option<&'static [&'static str]>,
    e: CatalogEntry,
    storage: StorageAdapter,
) -> bool {
    match e.logical_names {
        None => names is None,
        Some(own) => if storage == StorageAdapter::AcmeStub && e.id@ == "router-multi-logical"@ {
            names matches Some(ns) && ns@.len() == 2 && ns@[0]@ == "primary"@ && ns@[1]@
                == "vault"@
        } else {
            names == Some(own)
        },
    }
}

/// `r` is the outcome of planning entry `e` on `storage` in a build with `f`.
pub open spec fn is_catalog_run(
    r: CatalogRun,
    f: BuildFeatures,
    e: CatalogEntry,
    storage: StorageAdapter,
    wire_resolves: bool,
    rocksdb_opted_in: bool,
) -> bool {
    let gate = spec_run_gate(f, e, storage, wire_resolves, rocksdb_opted_in);
    match r {
        CatalogRun::Skip { notice } => gate == Some(crate::matrix::opt_view(notice)),
        CatalogRun::Run { matrix, logical_names, inventory_bootstrap, scenario } => {
            &&& gate is None
            &&& matrix == (MatrixSpec {
                storage,
                telemetry: match e.telemetry {
                    Some(t) => t,
                    None => TelemetryAdapter::Off,
                },
                topology: Topology::Embedded,
            })
            &&& inventory_bootstrap == e.inventory_bootstrap
            &&& run_logical_names_ok(logical_names, e, storage)
            &&& e.spec.spec_builds(f, storage, scenario)
        },
    }
}

fn notice(id: &str, name: &str, reason: &str) -> (m: String)
    ensures
        m@ == skip_notice(id@, name@, reason@),
{
    let mut m = owned("catalog entry ");
    m.append(id);
    m.append("/");
    m.append(name);
    m.append(": ");
    m.append(reason);
    m.append(" — skipping");
    m
}

/// Decide how catalog entry `entry` runs on `storage` in a build with
/// `features`, given the host's wire-builder resolution and RocksDB opt-in.
pub fn plan_catalog_entry_in(
    features: &BuildFeatures,
    entry: &CatalogEntry,
    storage: StorageAdapter,
    wire_resolves: bool,
    rocksdb_opted_in: bool,
) -> (r: CatalogRun)
    ensures
        is_catalog_run(r, *features, *entry, storage, wire_resolves, rocksdb_opted_in),
{
    let surreal = matches!(storage, StorageAdapter::SurrealMem | StorageAdapter::SurrealRocksdb);
    if entry.surreal_only && !surreal {
        return CatalogRun::Skip { notice: None };
    }
    if entry.inventory_bootstrap && !surreal {
        return CatalogRun::Skip { notice: None };
    }
    if entry.generated_model_only && !storage.supports_model_runtime() {
        return CatalogRun::Skip { notice: None };
    }
    if !ttl_catalog_applies(entry.id, storage) {
        return CatalogRun::Skip { notice: None };
    }
    if !iter_catalog_applies(entry.id, storage) {
        return CatalogRun::Skip {
            notice: Some(
                notice(entry.id, storage.slug(), "iter unsupported on this adapter until paging fix"),
            ),
        };
    }
    if !on_delete_catalog_applies(entry.id, storage) {
        return CatalogRun::Skip { notice: None };
    }
    let matrix = matrix_for_entry(entry, storage);
    match extended_store_skip_reason_in(features, matrix.storage, wire_resolves, rocksdb_opted_in) {
        Some(reason) => {
            return CatalogRun::Skip {
                notice: Some(notice(entry.id, matrix.storage.slug(), reason.as_str())),
            };
        },
        None => {},
    }
    match topology_skip_reason(matrix.topology) {
        Some(reason) => {
            return CatalogRun::Skip {
                notice: Some(notice(entry.id, matrix.topology.slug(), reason.as_str())),
            };
        },
        None => {},
    }
    if !extended_store_available_in(features, matrix.storage, wire_resolves, rocksdb_opted_in)
        || !topology_available(matrix.topology) {
        return CatalogRun::Skip { notice: None };
    }
    let logical_names: Option<&'static [&'static str]> = match entry.logical_names {
        Some(names) => {
            if matches!(storage, StorageAdapter::AcmeStub) && crate::text::chars_equal(
                &crate::text::chars_of(entry.id),
                "router-multi-logical",
            ) {
                Some(&["primary", "vault"])
            } else {
                Some(names)
            }
        },
        None => None,
    };
    if entry.inventory_bootstrap && !features.surreal_inventory {
        let mut m = owned("catalog entry ");
        m.append(entry.id);
        m.append(": surreal-inventory feature disabled — skipping");
        return CatalogRun::Skip { notice: Some(m) };
    }
    let scenario = entry.spec.build_in(features, storage);
    CatalogRun::Run {
        matrix,
        logical_names,
        inventory_bootstrap: entry.inventory_bootstrap,
        scenario,
    }
}

/// Decide how catalog entry `entry` runs on `storage` in the current build.
pub fn plan_catalog_entry(entry: &CatalogEntry, storage: StorageAdapter) -> (r: CatalogRun)
    ensures
        is_catalog_run(r, BuildFeatures::spec_current(), *entry, storage, false, false),
{
    let f = BuildFeatures::current();
    plan_catalog_entry_in(&f, entry, storage, false, false)
}

/// An entry whose fields are the ones its scenario prescribes, and that
/// would run on a storage adapter, is among the entries the catalog lists
/// for that adapter.
pub proof fn lemma_runnable_entries_are_listed(
    f: BuildFeatures,
    e: CatalogEntry,
    storage: StorageAdapter,
    wire_resolves: bool,
    rocksdb_opted_in: bool,
)
    requires
        entry_matches(e, e.spec),
        spec_run_gate(f, e, storage, wire_resolves, rocksdb_opted_in) is None,
    ensures
        catalog_order().contains(e.spec) ==> catalog_order().filter(listed_for(storage)).contains(
            e.spec,
        ),
        spec_listed(e.spec, storage),
{
    let k = e.spec;
    if catalog_order().contains(k) {
        let i = choose|i: int| 0 <= i < catalog_order().len() && catalog_order()[i] == k;
        catalog_order().lemma_filter_contains(listed_for(storage), i);
    }
}

/// Every entry the catalog lists for a storage adapter applies to it.
pub proof fn lemma_listed_entries_apply(storage: StorageAdapter, i: int)
    requires
        0 <= i < catalog_order().filter(listed_for(storage)).len(),
    ensures
        spec_listed(catalog_order().filter(listed_for(storage))[i], storage),
{
    catalog_order().lemma_filter_pred(listed_for(storage), i);
}

/// The default CI backends are enabled adapters that can run.
pub proof fn lemma_e2e_backends_runnable(f: BuildFeatures, s: StorageAdapter)
    ensures
        enabled_storage_adapters(f).filter(runnable_in(f)).contains(s) <==> (
        enabled_storage_adapters(f).contains(s) && spec_store_available(f, s, false, false)),
{
    let e = enabled_storage_adapters(f);
    let r = e.filter(runnable_in(f));
    if r.contains(s) {
        let i = choose|i: int| 0 <= i < r.len() && r[i] == s;
        e.lemma_filter_pred(runnable_in(f), i);
        e.lemma_filter_contains_rev(runnable_in(f), s);
    }
    if e.contains(s) && spec_store_available(f, s, false, false) {
        let i = choose|i: int| 0 <= i < e.len() && e[i] == s;
        e.lemma_filter_contains(runnable_in(f), i);
    }
}


/// The length and the chars at positions 0, 1, 2, 11 and last of an id:
/// enough to tell the catalog's ids apart.
pub open spec fn id_fingerprint(s: Seq<char>) -> (nat, char, char, char, char, char) {
    (s.len(), s[0], s[1], s[2], s[11], s[s.len() - 1])
}

impl CatalogScenario {
    /// The fingerprint of this scenario's id.
    pub open spec fn spec_fingerprint(self) -> (nat, char, char, char, char, char) {
        match self {
            CatalogScenario::BuilderSmoke => (13nat, 'b', 'u', 'i', 'k', 'e'),
            CatalogScenario::RouterMultiLogical => (20nat, 'r', 'o', 'u', 'i', 'l'),
            CatalogScenario::InventoryBootstrap => (19nat, 'i', 'n', 'v', 'o', 'p'),
            CatalogScenario::TelemetryCrudCounters => (23nat, 't', 'e', 'l', 'r', 's'),
            CatalogScenario::FactoryBackgroundBuild => (24nat, 'f', 'a', 'c', 'k', 'd'),
            CatalogScenario::EndpointEnvResolve => (20nat, 'e', 'n', 'd', 'v', 'e'),
            CatalogScenario::CompiledQueryEmptyTable => (26nat, 'c', 'o', 'm', 'e', 'e'),
            CatalogScenario::RouterKeyNotFound => (20nat, 'r', 'o', 'u', 'n', 'd'),
            CatalogScenario::GetRecordMissing => (18nat, 'g', 'e', 't', 'm', 'g'),
            CatalogScenario::PrivacyReadDenyAnonymous => (27nat, 'p', 'r', 'i', 'd', 's'),
            CatalogScenario::ModelCrudSmoke => (16nat, 'm', 'o', 'd', 's', 'e'),
            CatalogScenario::OwnershipGateSmoke => (20nat, 'o', 'w', 'n', 'a', 'e'),
            CatalogScenario::ValidationRejectSmoke => (23nat, 'v', 'a', 'l', 'r', 'e'),
            CatalogScenario::GraphEdgeSmoke => (16nat, 'g', 'r', 'a', 's', 'e'),
            CatalogScenario::TelemetryConsoleSmoke => (23nat, 't', 'e', 'l', 'o', 'e'),
            CatalogScenario::BuilderEmptyRejects => (21nat, 'b', 'u', 'i', 't', 's'),
            CatalogScenario::EndpointEnvUnresolved => (23nat, 'e', 'n', 'd', 'v', 'd'),
            CatalogScenario::PrivacyWriteDeny => (18nat, 'p', 'r', 'i', 't', 'y'),
            CatalogScenario::PrivacyEmptyDefaultDeny => (26nat, 'p', 'r', 'i', 't', 'y'),
            CatalogScenario::PrivacyFieldSystemOnlyHidden => (32nat, 'p', 'r', 'i', 'l', 'n'),
            CatalogScenario::QueryLimitClamped => (19nat, 'q', 'u', 'e', '-', 'd'),
            CatalogScenario::PrivacyBypassRequiresForce => (29nat, 'p', 'r', 'i', 'a', 'e'),
            CatalogScenario::ValidationAcceptSmoke => (23nat, 'v', 'a', 'l', 'a', 'e'),
            CatalogScenario::ModelUpdateUpsert => (19nat, 'm', 'o', 'd', 'e', 't'),
            CatalogScenario::QueryFilterEq => (15nat, 'q', 'u', 'e', 'r', 'q'),
            CatalogScenario::QueryFilterMiss => (17nat, 'q', 'u', 'e', 'r', 's'),
            CatalogScenario::QueryOrderBy => (14nat, 'q', 'u', 'e', '-', 'y'),
            CatalogScenario::QueryPagination => (16nat, 'q', 'u', 'e', 'a', 'n'),
            CatalogScenario::QueryOffsetEmpty => (18nat, 'q', 'u', 'e', 't', 'y'),
            CatalogScenario::ReadCacheSmoke => (16nat, 'r', 'e', 'a', 's', 'e'),
            CatalogScenario::QueryUnionJoinSmoke => (22nat, 'q', 'u', 'e', '-', 'e'),
            CatalogScenario::M2mRelateSmoke => (16nat, 'm', '2', 'm', 's', 'e'),
            CatalogScenario::TtlNativeExpire => (17nat, 't', 't', 'l', 'e', 'e'),
            CatalogScenario::TtlDeferredStamp => (18nat, 't', 't', 'l', 'd', 'p'),
            CatalogScenario::TtlCreateOnlyNoRefresh => (26nat, 't', 't', 'l', 'o', 'h'),
            CatalogScenario::TtlNonNativeWarn => (19nat, 't', 't', 'l', 'i', 'n'),
            CatalogScenario::TtlDeferredSweepDelete => (25nat, 't', 't', 'l', 'd', 'e'),
            CatalogScenario::IterScanComplete => (18nat, 'i', 't', 'e', 'o', 'e'),
            CatalogScenario::OnDeleteCascadeSameBackend => (30nat, 'o', 'n', '-', 'a', 'd'),
            CatalogScenario::OnDeleteSetNull => (18nat, 'o', 'n', '-', 'e', 'l'),
            CatalogScenario::OnDeleteRemoveEdge => (21nat, 'o', 'n', '-', 'e', 'e'),
            CatalogScenario::OnDeleteRestrictBlocks => (25nat, 'o', 'n', '-', 'e', 's'),
            CatalogScenario::OnDeleteCascadeCrossEngine => (30nat, 'o', 'n', '-', 'a', 'e'),
            CatalogScenario::OnDeleteSetNullCrossEngine => (31nat, 'o', 'n', '-', 'e', 'e'),
        }
    }

    /// Position of this scenario in the catalog order.
    pub open spec fn spec_position(self) -> int {
        match self {
            CatalogScenario::BuilderSmoke => 0,
            CatalogScenario::RouterMultiLogical => 1,
            CatalogScenario::InventoryBootstrap => 2,
            CatalogScenario::TelemetryCrudCounters => 3,
            CatalogScenario::FactoryBackgroundBuild => 4,
            CatalogScenario::EndpointEnvResolve => 5,
            CatalogScenario::CompiledQueryEmptyTable => 6,
            CatalogScenario::RouterKeyNotFound => 7,
            CatalogScenario::GetRecordMissing => 8,
            CatalogScenario::PrivacyReadDenyAnonymous => 9,
            CatalogScenario::ModelCrudSmoke => 10,
            CatalogScenario::OwnershipGateSmoke => 11,
            CatalogScenario::ValidationRejectSmoke => 12,
            CatalogScenario::GraphEdgeSmoke => 13,
            CatalogScenario::TelemetryConsoleSmoke => 14,
            CatalogScenario::BuilderEmptyRejects => 15,
            CatalogScenario::EndpointEnvUnresolved => 16,
            CatalogScenario::PrivacyWriteDeny => 17,
            CatalogScenario::PrivacyEmptyDefaultDeny => 18,
            CatalogScenario::PrivacyFieldSystemOnlyHidden => 19,
            CatalogScenario::QueryLimitClamped => 20,
            CatalogScenario::PrivacyBypassRequiresForce => 21,
            CatalogScenario::ValidationAcceptSmoke => 22,
            CatalogScenario::ModelUpdateUpsert => 23,
            CatalogScenario::QueryFilterEq => 24,
            CatalogScenario::QueryFilterMiss => 25,
            CatalogScenario::QueryOrderBy => 26,
            CatalogScenario::QueryPagination => 27,
            CatalogScenario::QueryOffsetEmpty => 28,
            CatalogScenario::ReadCacheSmoke => 29,
            CatalogScenario::QueryUnionJoinSmoke => 30,
            CatalogScenario::M2mRelateSmoke => 31,
            CatalogScenario::TtlNativeExpire => 32,
            CatalogScenario::TtlDeferredStamp => 33,
            CatalogScenario::TtlCreateOnlyNoRefresh => 34,
            CatalogScenario::TtlNonNativeWarn => 35,
            CatalogScenario::TtlDeferredSweepDelete => 36,
            CatalogScenario::IterScanComplete => 37,
            CatalogScenario::OnDeleteCascadeSameBackend => 38,
            CatalogScenario::OnDeleteSetNull => 39,
            CatalogScenario::OnDeleteRemoveEdge => 40,
            CatalogScenario::OnDeleteRestrictBlocks => 41,
            CatalogScenario::OnDeleteCascadeCrossEngine => 42,
            CatalogScenario::OnDeleteSetNullCrossEngine => 43,
        }
    }
}

/// The scenario whose id has fingerprint `fp`, if any.
pub open spec fn scenario_with_fingerprint(fp: (nat, char, char, char, char, char)) -> Option<CatalogScenario> {
    if fp == (13nat, 'b', 'u', 'i', 'k', 'e') {
        Some(CatalogScenario::BuilderSmoke)
    } else if fp == (20nat, 'r', 'o', 'u', 'i', 'l') {
        Some(CatalogScenario::RouterMultiLogical)
    } else if fp == (19nat, 'i', 'n', 'v', 'o', 'p') {
        Some(CatalogScenario::InventoryBootstrap)
    } else if fp == (23nat, 't', 'e', 'l', 'r', 's') {
        Some(CatalogScenario::TelemetryCrudCounters)
    } else if fp == (24nat, 'f', 'a', 'c', 'k', 'd') {
        Some(CatalogScenario::FactoryBackgroundBuild)
    } else if fp == (20nat, 'e', 'n', 'd', 'v', 'e') {
        Some(CatalogScenario::EndpointEnvResolve)
    } else if fp == (26nat, 'c', 'o', 'm', 'e', 'e') {
        Some(CatalogScenario::CompiledQueryEmptyTable)
    } else if fp == (20nat, 'r', 'o', 'u', 'n', 'd') {
        Some(CatalogScenario::RouterKeyNotFound)
    } else if fp == (18nat, 'g', 'e', 't', 'm', 'g') {
        Some(CatalogScenario::GetRecordMissing)
    } else if fp == (27nat, 'p', 'r', 'i', 'd', 's') {
        Some(CatalogScenario::PrivacyReadDenyAnonymous)
    } else if fp == (16nat, 'm', 'o', 'd', 's', 'e') {
        Some(CatalogScenario::ModelCrudSmoke)
    } else if fp == (20nat, 'o', 'w', 'n', 'a', 'e') {
        Some(CatalogScenario::OwnershipGateSmoke)
    } else if fp == (23nat, 'v', 'a', 'l', 'r', 'e') {
        Some(CatalogScenario::ValidationRejectSmoke)
    } else if fp == (16nat, 'g', 'r', 'a', 's', 'e') {
        Some(CatalogScenario::GraphEdgeSmoke)
    } else if fp == (23nat, 't', 'e', 'l', 'o', 'e') {
        Some(CatalogScenario::TelemetryConsoleSmoke)
    } else if fp == (21nat, 'b', 'u', 'i', 't', 's') {
        Some(CatalogScenario::BuilderEmptyRejects)
    } else if fp == (23nat, 'e', 'n', 'd', 'v', 'd') {
        Some(CatalogScenario::EndpointEnvUnresolved)
    } else if fp == (18nat, 'p', 'r', 'i', 't', 'y') {
        Some(CatalogScenario::PrivacyWriteDeny)
    } else if fp == (26nat, 'p', 'r', 'i', 't', 'y') {
        Some(CatalogScenario::PrivacyEmptyDefaultDeny)
    } else if fp == (32nat, 'p', 'r', 'i', 'l', 'n') {
        Some(CatalogScenario::PrivacyFieldSystemOnlyHidden)
    } else if fp == (19nat, 'q', 'u', 'e', '-', 'd') {
        Some(CatalogScenario::QueryLimitClamped)
    } else if fp == (29nat, 'p', 'r', 'i', 'a', 'e') {
        Some(CatalogScenario::PrivacyBypassRequiresForce)
    } else if fp == (23nat, 'v', 'a', 'l', 'a', 'e') {
        Some(CatalogScenario::ValidationAcceptSmoke)
    } else if fp == (19nat, 'm', 'o', 'd', 'e', 't') {
        Some(CatalogScenario::ModelUpdateUpsert)
    } else if fp == (15nat, 'q', 'u', 'e', 'r', 'q') {
        Some(CatalogScenario::QueryFilterEq)
    } else if fp == (17nat, 'q', 'u', 'e', 'r', 's') {
        Some(CatalogScenario::QueryFilterMiss)
    } else if fp == (14nat, 'q', 'u', 'e', '-', 'y') {
        Some(CatalogScenario::QueryOrderBy)
    } else if fp == (16nat, 'q', 'u', 'e', 'a', 'n') {
        Some(CatalogScenario::QueryPagination)
    } else if fp == (18nat, 'q', 'u', 'e', 't', 'y') {
        Some(CatalogScenario::QueryOffsetEmpty)
    } else if fp == (16nat, 'r', 'e', 'a', 's', 'e') {
        Some(CatalogScenario::ReadCacheSmoke)
    } else if fp == (22nat, 'q', 'u', 'e', '-', 'e') {
        Some(CatalogScenario::QueryUnionJoinSmoke)
    } else if fp == (16nat, 'm', '2', 'm', 's', 'e') {
        Some(CatalogScenario::M2mRelateSmoke)
    } else if fp == (17nat, 't', 't', 'l', 'e', 'e') {
        Some(CatalogScenario::TtlNativeExpire)
    } else if fp == (18nat, 't', 't', 'l', 'd', 'p') {
        Some(CatalogScenario::TtlDeferredStamp)
    } else if fp == (26nat, 't', 't', 'l', 'o', 'h') {
        Some(CatalogScenario::TtlCreateOnlyNoRefresh)
    } else if fp == (19nat, 't', 't', 'l', 'i', 'n') {
        Some(CatalogScenario::TtlNonNativeWarn)
    } else if fp == (25nat, 't', 't', 'l', 'd', 'e') {
        Some(CatalogScenario::TtlDeferredSweepDelete)
    } else if fp == (18nat, 'i', 't', 'e', 'o', 'e') {
        Some(CatalogScenario::IterScanComplete)
    } else if fp == (30nat, 'o', 'n', '-', 'a', 'd') {
        Some(CatalogScenario::OnDeleteCascadeSameBackend)
    } else if fp == (18nat, 'o', 'n', '-', 'e', 'l') {
        Some(CatalogScenario::OnDeleteSetNull)
    } else if fp == (21nat, 'o', 'n', '-', 'e', 'e') {
        Some(CatalogScenario::OnDeleteRemoveEdge)
    } else if fp == (25nat, 'o', 'n', '-', 'e', 's') {
        Some(CatalogScenario::OnDeleteRestrictBlocks)
    } else if fp == (30nat, 'o', 'n', '-', 'a', 'e') {
        Some(CatalogScenario::OnDeleteCascadeCrossEngine)
    } else if fp == (31nat, 'o', 'n', '-', 'e', 'e') {
        Some(CatalogScenario::OnDeleteSetNullCrossEngine)
    } else {
        None
    }
}

proof fn lemma_id_fingerprint(k: CatalogScenario)
    ensures
        id_fingerprint(k.spec_id()) == k.spec_fingerprint(),
        scenario_with_fingerprint(k.spec_fingerprint()) == Some(k),
{
    match k {
        CatalogScenario::BuilderSmoke => {
            reveal_strlit("builder-smoke");
        },
        CatalogScenario::RouterMultiLogical => {
            reveal_strlit("router-multi-logical");
        },
        CatalogScenario::InventoryBootstrap => {
            reveal_strlit("inventory-bootstrap");
        },
        CatalogScenario::TelemetryCrudCounters => {
            reveal_strlit("telemetry-crud-counters");
        },
        CatalogScenario::FactoryBackgroundBuild => {
            reveal_strlit("factory-background-build");
        },
        CatalogScenario::EndpointEnvResolve => {
            reveal_strlit("endpoint-env-resolve");
        },
        CatalogScenario::CompiledQueryEmptyTable => {
            reveal_strlit("compiled-query-empty-table");
        },
        CatalogScenario::RouterKeyNotFound => {
            reveal_strlit("router-key-not-found");
        },
        CatalogScenario::GetRecordMissing => {
            reveal_strlit("get-record-missing");
        },
        CatalogScenario::PrivacyReadDenyAnonymous => {
            reveal_strlit("privacy-read-deny-anonymous");
        },
        CatalogScenario::ModelCrudSmoke => {
            reveal_strlit("model-crud-smoke");
        },
        CatalogScenario::OwnershipGateSmoke => {
            reveal_strlit("ownership-gate-smoke");
        },
        CatalogScenario::ValidationRejectSmoke => {
            reveal_strlit("validation-reject-smoke");
        },
        CatalogScenario::GraphEdgeSmoke => {
            reveal_strlit("graph-edge-smoke");
        },
        CatalogScenario::TelemetryConsoleSmoke => {
            reveal_strlit("telemetry-console-smoke");
        },
        CatalogScenario::BuilderEmptyRejects => {
            reveal_strlit("builder-empty-rejects");
        },
        CatalogScenario::EndpointEnvUnresolved => {
            reveal_strlit("endpoint-env-unresolved");
        },
        CatalogScenario::PrivacyWriteDeny => {
            reveal_strlit("privacy-write-deny");
        },
        CatalogScenario::PrivacyEmptyDefaultDeny => {
            reveal_strlit("privacy-empty-default-deny");
        },
        CatalogScenario::PrivacyFieldSystemOnlyHidden => {
            reveal_strlit("privacy-field-system-only-hidden");
        },
        CatalogScenario::QueryLimitClamped => {
            reveal_strlit("query-limit-clamped");
        },
        CatalogScenario::PrivacyBypassRequiresForce => {
            reveal_strlit("privacy-bypass-requires-force");
        },
        CatalogScenario::ValidationAcceptSmoke => {
            reveal_strlit("validation-accept-smoke");
        },
        CatalogScenario::ModelUpdateUpsert => {
            reveal_strlit("model-update-upsert");
        },
        CatalogScenario::QueryFilterEq => {
            reveal_strlit("query-filter-eq");
        },
        CatalogScenario::QueryFilterMiss => {
            reveal_strlit("query-filter-miss");
        },
        CatalogScenario::QueryOrderBy => {
            reveal_strlit("query-order-by");
        },
        CatalogScenario::QueryPagination => {
            reveal_strlit("query-pagination");
        },
        CatalogScenario::QueryOffsetEmpty => {
            reveal_strlit("query-offset-empty");
        },
        CatalogScenario::ReadCacheSmoke => {
            reveal_strlit("read-cache-smoke");
        },
        CatalogScenario::QueryUnionJoinSmoke => {
            reveal_strlit("query-union-join-smoke");
        },
        CatalogScenario::M2mRelateSmoke => {
            reveal_strlit("m2m-relate-smoke");
        },
        CatalogScenario::TtlNativeExpire => {
            reveal_strlit("ttl-native-expire");
        },
        CatalogScenario::TtlDeferredStamp => {
            reveal_strlit("ttl-deferred-stamp");
        },
        CatalogScenario::TtlCreateOnlyNoRefresh => {
            reveal_strlit("ttl-create-only-no-refresh");
        },
        CatalogScenario::TtlNonNativeWarn => {
            reveal_strlit("ttl-non-native-warn");
        },
        CatalogScenario::TtlDeferredSweepDelete => {
            reveal_strlit("ttl-deferred-sweep-delete");
        },
        CatalogScenario::IterScanComplete => {
            reveal_strlit("iter-scan-complete");
        },
        CatalogScenario::OnDeleteCascadeSameBackend => {
            reveal_strlit("on-delete-cascade-same-backend");
        },
        CatalogScenario::OnDeleteSetNull => {
            reveal_strlit("on-delete-set-null");
        },
        CatalogScenario::OnDeleteRemoveEdge => {
            reveal_strlit("on-delete-remove-edge");
        },
        CatalogScenario::OnDeleteRestrictBlocks => {
            reveal_strlit("on-delete-restrict-blocks");
        },
        CatalogScenario::OnDeleteCascadeCrossEngine => {
            reveal_strlit("on-delete-cascade-cross-engine");
        },
        CatalogScenario::OnDeleteSetNullCrossEngine => {
            reveal_strlit("on-delete-set-null-cross-engine");
        },
    }
}

/// Two catalog scenarios with the same id are the same scenario.
pub proof fn lemma_catalog_id_identifies(a: CatalogScenario, b: CatalogScenario)
    requires
        a.spec_id() == b.spec_id(),
    ensures
        a == b,
{
    lemma_id_fingerprint(a);
    lemma_id_fingerprint(b);
}

proof fn lemma_catalog_positions(i: int)
    requires
        0 <= i < catalog_order().len(),
    ensures
        catalog_order()[i].spec_position() == i,
{
    if i == 0 {
        assert(catalog_order()[0].spec_position() == 0);
    } else if i == 1 {
        assert(catalog_order()[1].spec_position() == 1);
    } else if i == 2 {
        assert(catalog_order()[2].spec_position() == 2);
    } else if i == 3 {
        assert(catalog_order()[3].spec_position() == 3);
    } else if i == 4 {
        assert(catalog_order()[4].spec_position() == 4);
    } else if i == 5 {
        assert(catalog_order()[5].spec_position() == 5);
    } else if i == 6 {
        assert(catalog_order()[6].spec_position() == 6);
    } else if i == 7 {
        assert(catalog_order()[7].spec_position() == 7);
    } else if i == 8 {
        assert(catalog_order()[8].spec_position() == 8);
    } else if i == 9 {
        assert(catalog_order()[9].spec_position() == 9);
    } else if i == 10 {
        assert(catalog_order()[10].spec_position() == 10);
    } else if i == 11 {
        assert(catalog_order()[11].spec_position() == 11);
    } else if i == 12 {
        assert(catalog_order()[12].spec_position() == 12);
    } else if i == 13 {
        assert(catalog_order()[13].spec_position() == 13);
    } else if i == 14 {
        assert(catalog_order()[14].spec_position() == 14);
    } else if i == 15 {
        assert(catalog_order()[15].spec_position() == 15);
    } else if i == 16 {
        assert(catalog_order()[16].spec_position() == 16);
    } else if i == 17 {
        assert(catalog_order()[17].spec_position() == 17);
    } else if i == 18 {
        assert(catalog_order()[18].spec_position() == 18);
    } else if i == 19 {
        assert(catalog_order()[19].spec_position() == 19);
    } else if i == 20 {
        assert(catalog_order()[20].spec_position() == 20);
    } else if i == 21 {
        assert(catalog_order()[21].spec_position() == 21);
    } else if i == 22 {
        assert(catalog_order()[22].spec_position() == 22);
    } else if i == 23 {
        assert(catalog_order()[23].spec_position() == 23);
    } else if i == 24 {
        assert(catalog_order()[24].spec_position() == 24);
    } else if i == 25 {
        assert(catalog_order()[25].spec_position() == 25);
    } else if i == 26 {
        assert(catalog_order()[26].spec_position() == 26);
    } else if i == 27 {
        assert(catalog_order()[27].spec_position() == 27);
    } else if i == 28 {
        assert(catalog_order()[28].spec_position() == 28);
    } else if i == 29 {
        assert(catalog_order()[29].spec_position() == 29);
    } else if i == 30 {
        assert(catalog_order()[30].spec_position() == 30);
    } else if i == 31 {
        assert(catalog_order()[31].spec_position() == 31);
    } else if i == 32 {
        assert(catalog_order()[32].spec_position() == 32);
    } else if i == 33 {
        assert(catalog_order()[33].spec_position() == 33);
    } else if i == 34 {
        assert(catalog_order()[34].spec_position() == 34);
    } else if i == 35 {
        assert(catalog_order()[35].spec_position() == 35);
    } else if i == 36 {
        assert(catalog_order()[36].spec_position() == 36);
    } else if i == 37 {
        assert(catalog_order()[37].spec_position() == 37);
    } else if i == 38 {
        assert(catalog_order()[38].spec_position() == 38);
    } else if i == 39 {
        assert(catalog_order()[39].spec_position() == 39);
    } else if i == 40 {
        assert(catalog_order()[40].spec_position() == 40);
    } else if i == 41 {
        assert(catalog_order()[41].spec_position() == 41);
    } else if i == 42 {
        assert(catalog_order()[42].spec_position() == 42);
    } else if i == 43 {
        assert(catalog_order()[43].spec_position() == 43);
    }
}

/// Catalog ids are pairwise distinct: no two positions of the catalog hold
/// entries with the same id.
pub proof fn lemma_catalog_ids_distinct(i: int, j: int)
    requires
        0 <= i < catalog_order().len(),
        0 <= j < catalog_order().len(),
        i != j,
    ensures
        catalog_order()[i].spec_id() != catalog_order()[j].spec_id(),
{
    lemma_catalog_positions(i);
    lemma_catalog_positions(j);
    if catalog_order()[i].spec_id() == catalog_order()[j].spec_id() {
        lemma_catalog_id_identifies(catalog_order()[i], catalog_order()[j]);
    }
}

/// The scenario an entry builds, on any storage adapter and in any build,
/// carries the entry's id.
pub proof fn lemma_built_scenario_carries_id(
    k: CatalogScenario,
    f: BuildFeatures,
    storage: StorageAdapter,
    r: ScenarioSpec,
)
    requires
        k.spec_builds(f, storage, r),
    ensures
        r.id@ == k.spec_id(),
{
}

/// In entries laid out as the embedded catalog (what [`embedded_catalog`]
/// returns), ids are pairwise distinct, and each entry's scenario, built on
/// any storage adapter in any build, carries that entry's id.
pub proof fn lemma_catalog_entry_ids(
    entries: Seq<CatalogEntry>,
    i: int,
    j: int,
    f: BuildFeatures,
    storage: StorageAdapter,
    r: ScenarioSpec,
)
    requires
        entries.len() == catalog_order().len(),
        forall|k: int| 0 <= k < entries.len() ==> entry_matches(#[trigger] entries[k], catalog_order()[k]),
        0 <= i < entries.len(),
        0 <= j < entries.len(),
    ensures
        i != j ==> entries[i].id@ != entries[j].id@,
        entries[i].spec.spec_builds(f, storage, r) ==> r.id@ == entries[i].id@,
{
    assert(entry_matches(entries[i], catalog_order()[i]));
    assert(entry_matches(entries[j], catalog_order()[j]));
    if i != j {
        lemma_catalog_ids_distinct(i, j);
    }
    if entries[i].spec.spec_builds(f, storage, r) {
        lemma_built_scenario_carries_id(entries[i].spec, f, storage, r);
    }
}

/// The TTL entries of the catalog follow the TTL capability each storage is
/// expected to report: native expiry is probed exactly on natively expiring
/// stores, the sweep-delete entry runs exactly on deferred ones, the
/// create-only entry on every store with TTL support, and the deferred-stamp
/// and non-native-warning entries on every store but the native ones and
/// the acme stub.
pub proof fn lemma_ttl_entries_follow_capability(s: StorageAdapter)
    ensures
        spec_ttl_catalog_applies("ttl-native-expire"@, s) <==> spec_expected_ttl_capability(s)
            == TtlCapability::SupportedNative,
        spec_ttl_catalog_applies("ttl-deferred-sweep-delete"@, s)
            <==> spec_expected_ttl_capability(s) == TtlCapability::Deferred,
        spec_ttl_catalog_applies("ttl-create-only-no-refresh"@, s)
            <==> spec_expected_ttl_capability(s) != TtlCapability::Unsupported,
        spec_ttl_catalog_applies("ttl-deferred-stamp"@, s) <==> (s != StorageAdapter::AcmeStub
            && spec_expected_ttl_capability(s) != TtlCapability::SupportedNative),
        spec_ttl_catalog_applies("ttl-non-native-warn"@, s) <==> (s != StorageAdapter::AcmeStub
            && spec_expected_ttl_capability(s) != TtlCapability::SupportedNative),
{
    reveal_strlit("ttl-");
    reveal_strlit("ttl-native-expire");
    reveal_strlit("ttl-deferred-stamp");
    reveal_strlit("ttl-deferred-sweep-delete");
    reveal_strlit("ttl-create-only-no-refresh");
    reveal_strlit("ttl-non-native-warn");
    assert("ttl-native-expire"@.subrange(0, 4) =~= "ttl-"@);
    assert("ttl-deferred-stamp"@.subrange(0, 4) =~= "ttl-"@);
    assert("ttl-deferred-sweep-delete"@.subrange(0, 4) =~= "ttl-"@);
    assert("ttl-create-only-no-refresh"@.subrange(0, 4) =~= "ttl-"@);
    assert("ttl-non-native-warn"@.subrange(0, 4) =~= "ttl-"@);
    assert("ttl-native-expire"@.len() == 17);
    assert("ttl-deferred-stamp"@.len() == 18);
    assert("ttl-deferred-sweep-delete"@.len() == 25);
    assert("ttl-create-only-no-refresh"@.len() == 26);
    assert("ttl-non-native-warn"@.len() == 19);
}

} // verus!
