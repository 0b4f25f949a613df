//! Declarative scenario steps shared by end-to-end runs (which assert) and
//! benches (which measure), and the named scenarios built from them.

use vstd::prelude::*;

use crate::matrix::StorageAdapter;
use crate::fixtures::{engine_for_storage_slug, invalid_router_key, smoke_actor};
use crate::text::owned;

verus! {

/// Storage engine a router key is registered under.
#[derive(Debug)]
pub enum EngineId {
    /// The in-memory engine.
    InMemory,
    Sqlite,
    Postgres,
    MongoDb,
    IndraDb,
    /// The hybrid IndraDB + SQL engine.
    HybridIndraSql,
    Redis,
    SurrealDb,
    /// The acme stub engine (`acme_stub`).
    AcmeStub,
    /// Any other engine, by its id.
    Other(String),
}

impl EngineId {
    /// A copy of this engine id.
    pub fn duplicate(&self) -> (r: EngineId)
        ensures
            r == *self,
    {
        match self {
            EngineId::InMemory => EngineId::InMemory,
            EngineId::Sqlite => EngineId::Sqlite,
            EngineId::Postgres => EngineId::Postgres,
            EngineId::MongoDb => EngineId::MongoDb,
            EngineId::IndraDb => EngineId::IndraDb,
            EngineId::HybridIndraSql => EngineId::HybridIndraSql,
            EngineId::Redis => EngineId::Redis,
            EngineId::SurrealDb => EngineId::SurrealDb,
            EngineId::AcmeStub => EngineId::AcmeStub,
            EngineId::Other(s) => EngineId::Other(s.clone()),
        }
    }
}

/// A compound router key: a logical database name under an engine.
///
/// The host renders it in the router's key syntax when a step runs.
#[derive(Debug)]
pub struct RouterKey {
    pub logical: String,
    pub engine: EngineId,
}

/// `k` names logical database `logical` under engine `engine`.
pub open spec fn key_is(k: RouterKey, logical: Seq<char>, engine: EngineId) -> bool {
    k.logical@ == logical && k.engine == engine
}

impl RouterKey {
    /// The key of logical database `logical` under `engine`.
    pub fn new(logical: &str, engine: &EngineId) -> (k: RouterKey)
        ensures
            key_is(k, logical@, *engine),
    {
        RouterKey { logical: owned(logical), engine: engine.duplicate() }
    }
}

/// Actor handed to the router-backed factory.
#[derive(Debug)]
pub enum ActorSpec {
    /// The system actor for the named operation.
    System { operation: String },
    /// An actor given as JSON text.
    Json { text: String },
}

/// One step in a Valence matrix scenario.
#[derive(Debug)]
#[allow(inconsistent_fields)]
pub enum ScenarioStep {
    /// Build the Valence handle from the bootstrapped router.
    BuildValence,
    /// Assert the active backend resolves.
    AssertActiveBackend,
    /// Assert a router key resolves.
    AssertRouterResolve {
        /// Router key.
        key: RouterKey,
    },
    /// Assert a router key does not resolve (sad path).
    AssertRouterResolveFails {
        /// Router key expected to be missing.
        key: RouterKey,
    },
    /// Assert a minimum router registration count.
    AssertRouterLen {
        /// Minimum expected registrations.
        min: usize,
    },
    /// Assert two router keys resolve to the same backend instance.
    AssertRouterSharedBackend {
        /// First router key.
        key_a: RouterKey,
        /// Second router key.
        key_b: RouterKey,
    },
    /// Create a record via the backend at `create_key`, read it back via `read_key`.
    CrudAcrossRouterKeys {
        /// Router key used for the create.
        create_key: RouterKey,
        /// Router key used for the read-back.
        read_key: RouterKey,
        /// Table name.
        table: String,
        /// Record id.
        id: String,
    },
    /// Create and get a smoke record on the active backend.
    CrudSmoke {
        /// Table name.
        table: String,
        /// Record id.
        id: String,
    },
    /// Assert get on a missing record returns none (sad path).
    AssertGetMissing {
        /// Table name.
        table: String,
        /// Record id that must not exist.
        id: String,
    },
    /// Assert anonymous read is denied on the auth-only fixture schema (sad path).
    AssertPrivacyReadDenied,
    /// Assert anonymous create is denied (sad path).
    AssertPrivacyWriteDenied,
    /// Assert empty entity policies deny non-System actors (sad path).
    AssertPrivacyEmptyDefaultDeny,
    /// Assert a SYSTEM_ONLY field is hidden from anonymous viewers (sad path).
    AssertPrivacyFieldSystemOnlyHidden,
    /// Assert a huge query limit is clamped (sad path).
    AssertQueryLimitClamped,
    /// Assert privacy bypass requires both environment keys (sad path).
    AssertPrivacyBypassRequiresForce,
    /// Assert a validation helper rejects a value (sad path).
    AssertValidationRejects {
        /// Validator name (`email`, `non_empty`).
        validator: String,
        /// Input that must fail validation.
        value: String,
    },
    /// Assert a validation helper accepts a value.
    AssertValidationAccepts {
        /// Validator name (`email`, `non_empty`).
        validator: String,
        /// Input that must pass validation.
        value: String,
    },
    /// Generated model create/get smoke.
    ModelCrudSmoke,
    /// Generated model update and upsert.
    ModelUpdateUpsert,
    /// Ownership pending-deletion gate allows active rows.
    OwnershipGateSmoke,
    /// Relate/unrelate graph edges when the backend supports them.
    GraphEdgeSmoke,
    /// Assert a telemetry counter was recorded (recording telemetry).
    AssertTelemetryCounter {
        /// Counter metric name.
        name: String,
        /// Label key.
        label_key: String,
        /// Expected label value.
        label_value: String,
        /// Minimum matching increments.
        min_count: u64,
    },
    /// Build the Valence handle through the router-backed factory.
    BuildValenceFromFactory {
        /// Actor handed to the factory.
        actor: ActorSpec,
    },
    /// Set one environment variable (restored when the session ends).
    SetEnv {
        /// Environment variable name.
        key: String,
        /// Value to set.
        value: String,
    },
    /// Assert the environment endpoint resolver resolves a URL.
    AssertEndpointResolve {
        /// Logical database name.
        logical: String,
        /// Expected URL.
        expect_url: String,
    },
    /// Assert endpoint resolution returns none when unset (sad path).
    AssertEndpointUnresolved {
        /// Logical database name.
        logical: String,
    },
    /// A read-only compiled query on a missing table returns empty.
    CompiledQueryEmpty {
        /// Table name (may not exist).
        table: String,
    },
    /// An empty Valence builder without backends must fail (sad path).
    AssertBuilderEmptyFails,
    /// ORM equality filter returns matching rows.
    QueryFilterEq,
    /// ORM equality filter returns empty on a miss (sad path).
    QueryFilterMiss,
    /// ORM ascending order_by.
    QueryOrderBy,
    /// ORM limit/offset page size.
    QueryPagination,
    /// A far offset returns an empty page (sad path).
    QueryOffsetEmpty,
    /// Read cache enabled and invalidated still serves from storage.
    ReadCacheSmoke,
    /// Query union_with / join_with composition.
    QueryUnionJoinSmoke,
    /// Many-to-many style relate via graph edges when supported.
    M2mRelateSmoke,
    /// Ensure TTL configuration for all tables.
    EnsureTtlForAll,
    /// Ensure TTL configuration for the catalog TTL probe table.
    EnsureTtlForTable,
    /// Create a TTL probe row and assert capability-specific postconditions.
    TtlNativeOrLingerContract {
        /// Record id for this run.
        id: String,
    },
    /// Create, capture the expiry stamp, update, and assert the create-only clock.
    TtlCreateOnlyNoRefresh {
        /// Record id for this run.
        id: String,
    },
    /// Assert the non-native TTL warning is emitted once.
    TtlNonNativeWarnOnce,
    /// Deferred adapter: stamp, backdate, delete, assert the row is gone.
    TtlDeferredSweepDelete {
        /// Record id for this run.
        id: String,
    },
    /// Multi-page scan completeness for iteration-capable adapters.
    IterScanComplete,
    /// Same-engine cascade delete.
    OnDeleteCascadeSameBackend,
    /// Same-engine set-null foreign key clear.
    OnDeleteSetNull,
    /// Same-engine many-to-many edge removal.
    OnDeleteRemoveEdge,
    /// Restrict violations block the delete.
    OnDeleteRestrictBlocks,
    /// Cross-engine cascade delete.
    OnDeleteCascadeCrossEngine,
    /// Cross-engine set-null on the secondary engine.
    OnDeleteSetNullCrossEngine,
}

/// Executor family that runs a step.
#[derive(Debug, Clone, Copy, PartialEq, Eq, Structural)]
pub enum StepGroup {
    /// Router, factory, builder and endpoint wiring.
    Wiring,
    /// Adapter CRUD, compiled queries and query composition.
    Crud,
    /// Generated model and ORM query steps.
    Model,
    /// Privacy and validation steps.
    Privacy,
    /// Telemetry counter assertions.
    Telemetry,
    /// TTL and iteration steps.
    Ttl,
    /// OnDelete steps.
    OnDelete,
}

impl ScenarioStep {
    /// Short operation label of the step, as reported in bench timings.
    pub open spec fn spec_label(self) -> Seq<char> {
        match self {
            ScenarioStep::BuildValence => "build_valence"@,
            ScenarioStep::AssertActiveBackend => "assert_active_backend"@,
            ScenarioStep::AssertRouterResolve { .. } => "assert_router_resolve"@,
            ScenarioStep::AssertRouterResolveFails { .. } => "assert_router_resolve_fails"@,
            ScenarioStep::AssertRouterLen { .. } => "assert_router_len"@,
            ScenarioStep::AssertRouterSharedBackend { .. } => "assert_router_shared_backend"@,
            ScenarioStep::CrudAcrossRouterKeys { .. } => "crud_across_router_keys"@,
            ScenarioStep::CrudSmoke { .. } => "crud_smoke"@,
            ScenarioStep::AssertGetMissing { .. } => "assert_get_missing"@,
            ScenarioStep::AssertPrivacyReadDenied => "assert_privacy_read_denied"@,
            ScenarioStep::AssertPrivacyWriteDenied => "assert_privacy_write_denied"@,
            ScenarioStep::AssertPrivacyEmptyDefaultDeny => "assert_privacy_empty_default_deny"@,
            ScenarioStep::AssertPrivacyFieldSystemOnlyHidden => "assert_privacy_field_system_only_hidden"@,
            ScenarioStep::AssertQueryLimitClamped => "assert_query_limit_clamped"@,
            ScenarioStep::AssertPrivacyBypassRequiresForce => "assert_privacy_bypass_requires_force"@,
            ScenarioStep::AssertValidationRejects { .. } => "assert_validation_rejects"@,
            ScenarioStep::AssertValidationAccepts { .. } => "assert_validation_accepts"@,
            ScenarioStep::ModelCrudSmoke => "model_crud_smoke"@,
            ScenarioStep::ModelUpdateUpsert => "model_update_upsert"@,
            ScenarioStep::OwnershipGateSmoke => "ownership_gate_smoke"@,
            ScenarioStep::GraphEdgeSmoke => "graph_edge_smoke"@,
            ScenarioStep::AssertTelemetryCounter { .. } => "assert_telemetry_counter"@,
            ScenarioStep::BuildValenceFromFactory { .. } => "build_from_factory"@,
            ScenarioStep::SetEnv { .. } => "set_env"@,
            ScenarioStep::AssertEndpointResolve { .. } => "assert_endpoint_resolve"@,
            ScenarioStep::AssertEndpointUnresolved { .. } => "assert_endpoint_unresolved"@,
            ScenarioStep::CompiledQueryEmpty { .. } => "compiled_query_empty"@,
            ScenarioStep::AssertBuilderEmptyFails => "assert_builder_empty_fails"@,
            ScenarioStep::QueryFilterEq => "query_filter_eq"@,
            ScenarioStep::QueryFilterMiss => "query_filter_miss"@,
            ScenarioStep::QueryOrderBy => "query_order_by"@,
            ScenarioStep::QueryPagination => "query_pagination"@,
            ScenarioStep::QueryOffsetEmpty => "query_offset_empty"@,
            ScenarioStep::ReadCacheSmoke => "read_cache_smoke"@,
            ScenarioStep::QueryUnionJoinSmoke => "query_union_join_smoke"@,
            ScenarioStep::M2mRelateSmoke => "m2m_relate_smoke"@,
            ScenarioStep::EnsureTtlForAll => "ensure_ttl_for_all"@,
            ScenarioStep::EnsureTtlForTable => "ensure_ttl_for_table"@,
            ScenarioStep::TtlNativeOrLingerContract { .. } => "ttl_native_or_linger"@,
            ScenarioStep::TtlCreateOnlyNoRefresh { .. } => "ttl_create_only_no_refresh"@,
            ScenarioStep::TtlNonNativeWarnOnce => "ttl_non_native_warn_once"@,
            ScenarioStep::TtlDeferredSweepDelete { .. } => "ttl_deferred_sweep_delete"@,
            ScenarioStep::IterScanComplete => "iter_scan_complete"@,
            ScenarioStep::OnDeleteCascadeSameBackend => "on_delete_cascade_same_backend"@,
            ScenarioStep::OnDeleteSetNull => "on_delete_set_null"@,
            ScenarioStep::OnDeleteRemoveEdge => "on_delete_remove_edge"@,
            ScenarioStep::OnDeleteRestrictBlocks => "on_delete_restrict_blocks"@,
            ScenarioStep::OnDeleteCascadeCrossEngine => "on_delete_cascade_cross_engine"@,
            ScenarioStep::OnDeleteSetNullCrossEngine => "on_delete_set_null_cross_engine"@,
        }
    }

    /// Executor family of the step.
    pub open spec fn spec_group(self) -> StepGroup {
        match self {
            ScenarioStep::BuildValence => StepGroup::Wiring,
            ScenarioStep::AssertActiveBackend => StepGroup::Wiring,
            ScenarioStep::AssertRouterResolve { .. } => StepGroup::Wiring,
            ScenarioStep::AssertRouterResolveFails { .. } => StepGroup::Wiring,
            ScenarioStep::AssertRouterLen { .. } => StepGroup::Wiring,
            ScenarioStep::AssertRouterSharedBackend { .. } => StepGroup::Wiring,
            ScenarioStep::CrudAcrossRouterKeys { .. } => StepGroup::Wiring,
            ScenarioStep::CrudSmoke { .. } => StepGroup::Crud,
            ScenarioStep::AssertGetMissing { .. } => StepGroup::Crud,
            ScenarioStep::AssertPrivacyReadDenied => StepGroup::Privacy,
            ScenarioStep::AssertPrivacyWriteDenied => StepGroup::Privacy,
            ScenarioStep::AssertPrivacyEmptyDefaultDeny => StepGroup::Privacy,
            ScenarioStep::AssertPrivacyFieldSystemOnlyHidden => StepGroup::Privacy,
            ScenarioStep::AssertQueryLimitClamped => StepGroup::Privacy,
            ScenarioStep::AssertPrivacyBypassRequiresForce => StepGroup::Privacy,
            ScenarioStep::AssertValidationRejects { .. } => StepGroup::Privacy,
            ScenarioStep::AssertValidationAccepts { .. } => StepGroup::Privacy,
            ScenarioStep::ModelCrudSmoke => StepGroup::Model,
            ScenarioStep::ModelUpdateUpsert => StepGroup::Model,
            ScenarioStep::OwnershipGateSmoke => StepGroup::Model,
            ScenarioStep::GraphEdgeSmoke => StepGroup::Model,
            ScenarioStep::AssertTelemetryCounter { .. } => StepGroup::Telemetry,
            ScenarioStep::BuildValenceFromFactory { .. } => StepGroup::Wiring,
            ScenarioStep::SetEnv { .. } => StepGroup::Wiring,
            ScenarioStep::AssertEndpointResolve { .. } => StepGroup::Wiring,
            ScenarioStep::AssertEndpointUnresolved { .. } => StepGroup::Wiring,
            ScenarioStep::CompiledQueryEmpty { .. } => StepGroup::Crud,
            ScenarioStep::AssertBuilderEmptyFails => StepGroup::Wiring,
            ScenarioStep::QueryFilterEq => StepGroup::Model,
            ScenarioStep::QueryFilterMiss => StepGroup::Model,
            ScenarioStep::QueryOrderBy => StepGroup::Model,
            ScenarioStep::QueryPagination => StepGroup::Model,
            ScenarioStep::QueryOffsetEmpty => StepGroup::Model,
            ScenarioStep::ReadCacheSmoke => StepGroup::Model,
            ScenarioStep::QueryUnionJoinSmoke => StepGroup::Crud,
            ScenarioStep::M2mRelateSmoke => StepGroup::Crud,
            ScenarioStep::EnsureTtlForAll => StepGroup::Ttl,
            ScenarioStep::EnsureTtlForTable => StepGroup::Ttl,
            ScenarioStep::TtlNativeOrLingerContract { .. } => StepGroup::Ttl,
            ScenarioStep::TtlCreateOnlyNoRefresh { .. } => StepGroup::Ttl,
            ScenarioStep::TtlNonNativeWarnOnce => StepGroup::Ttl,
            ScenarioStep::TtlDeferredSweepDelete { .. } => StepGroup::Ttl,
            ScenarioStep::IterScanComplete => StepGroup::Ttl,
            ScenarioStep::OnDeleteCascadeSameBackend => StepGroup::OnDelete,
            ScenarioStep::OnDeleteSetNull => StepGroup::OnDelete,
            ScenarioStep::OnDeleteRemoveEdge => StepGroup::OnDelete,
            ScenarioStep::OnDeleteRestrictBlocks => StepGroup::OnDelete,
            ScenarioStep::OnDeleteCascadeCrossEngine => StepGroup::OnDelete,
            ScenarioStep::OnDeleteSetNullCrossEngine => StepGroup::OnDelete,
        }
    }

    /// Short operation label of the step.
    pub fn label(&self) -> (r: String)
        ensures
            r@ == self.spec_label(),
    {
        let s: &str = match self {
            ScenarioStep::BuildValence => "build_valence",
            ScenarioStep::AssertActiveBackend => "assert_active_backend",
            ScenarioStep::AssertRouterResolve { .. } => "assert_router_resolve",
            ScenarioStep::AssertRouterResolveFails { .. } => "assert_router_resolve_fails",
            ScenarioStep::AssertRouterLen { .. } => "assert_router_len",
            ScenarioStep::AssertRouterSharedBackend { .. } => "assert_router_shared_backend",
            ScenarioStep::CrudAcrossRouterKeys { .. } => "crud_across_router_keys",
            ScenarioStep::CrudSmoke { .. } => "crud_smoke",
            ScenarioStep::AssertGetMissing { .. } => "assert_get_missing",
            ScenarioStep::AssertPrivacyReadDenied => "assert_privacy_read_denied",
            ScenarioStep::AssertPrivacyWriteDenied => "assert_privacy_write_denied",
            ScenarioStep::AssertPrivacyEmptyDefaultDeny => "assert_privacy_empty_default_deny",
            ScenarioStep::AssertPrivacyFieldSystemOnlyHidden => "assert_privacy_field_system_only_hidden",
            ScenarioStep::AssertQueryLimitClamped => "assert_query_limit_clamped",
            ScenarioStep::AssertPrivacyBypassRequiresForce => "assert_privacy_bypass_requires_force",
            ScenarioStep::AssertValidationRejects { .. } => "assert_validation_rejects",
            ScenarioStep::AssertValidationAccepts { .. } => "assert_validation_accepts",
            ScenarioStep::ModelCrudSmoke => "model_crud_smoke",
            ScenarioStep::ModelUpdateUpsert => "model_update_upsert",
            ScenarioStep::OwnershipGateSmoke => "ownership_gate_smoke",
            ScenarioStep::GraphEdgeSmoke => "graph_edge_smoke",
            ScenarioStep::AssertTelemetryCounter { .. } => "assert_telemetry_counter",
            ScenarioStep::BuildValenceFromFactory { .. } => "build_from_factory",
            ScenarioStep::SetEnv { .. } => "set_env",
            ScenarioStep::AssertEndpointResolve { .. } => "assert_endpoint_resolve",
            ScenarioStep::AssertEndpointUnresolved { .. } => "assert_endpoint_unresolved",
            ScenarioStep::CompiledQueryEmpty { .. } => "compiled_query_empty",
            ScenarioStep::AssertBuilderEmptyFails => "assert_builder_empty_fails",
            ScenarioStep::QueryFilterEq => "query_filter_eq",
            ScenarioStep::QueryFilterMiss => "query_filter_miss",
            ScenarioStep::QueryOrderBy => "query_order_by",
            ScenarioStep::QueryPagination => "query_pagination",
            ScenarioStep::QueryOffsetEmpty => "query_offset_empty",
            ScenarioStep::ReadCacheSmoke => "read_cache_smoke",
            ScenarioStep::QueryUnionJoinSmoke => "query_union_join_smoke",
            ScenarioStep::M2mRelateSmoke => "m2m_relate_smoke",
            ScenarioStep::EnsureTtlForAll => "ensure_ttl_for_all",
            ScenarioStep::EnsureTtlForTable => "ensure_ttl_for_table",
            ScenarioStep::TtlNativeOrLingerContract { .. } => "ttl_native_or_linger",
            ScenarioStep::TtlCreateOnlyNoRefresh { .. } => "ttl_create_only_no_refresh",
            ScenarioStep::TtlNonNativeWarnOnce => "ttl_non_native_warn_once",
            ScenarioStep::TtlDeferredSweepDelete { .. } => "ttl_deferred_sweep_delete",
            ScenarioStep::IterScanComplete => "iter_scan_complete",
            ScenarioStep::OnDeleteCascadeSameBackend => "on_delete_cascade_same_backend",
            ScenarioStep::OnDeleteSetNull => "on_delete_set_null",
            ScenarioStep::OnDeleteRemoveEdge => "on_delete_remove_edge",
            ScenarioStep::OnDeleteRestrictBlocks => "on_delete_restrict_blocks",
            ScenarioStep::OnDeleteCascadeCrossEngine => "on_delete_cascade_cross_engine",
            ScenarioStep::OnDeleteSetNullCrossEngine => "on_delete_set_null_cross_engine",
        };
        owned(s)
    }

    /// Executor family of the step.
    pub fn group(&self) -> (g: StepGroup)
        ensures
            g == self.spec_group(),
    {
        match self {
            ScenarioStep::BuildValence => StepGroup::Wiring,
            ScenarioStep::AssertActiveBackend => StepGroup::Wiring,
            ScenarioStep::AssertRouterResolve { .. } => StepGroup::Wiring,
            ScenarioStep::AssertRouterResolveFails { .. } => StepGroup::Wiring,
            ScenarioStep::AssertRouterLen { .. } => StepGroup::Wiring,
            ScenarioStep::AssertRouterSharedBackend { .. } => StepGroup::Wiring,
            ScenarioStep::CrudAcrossRouterKeys { .. } => StepGroup::Wiring,
            ScenarioStep::CrudSmoke { .. } => StepGroup::Crud,
            ScenarioStep::AssertGetMissing { .. } => StepGroup::Crud,
            ScenarioStep::AssertPrivacyReadDenied => StepGroup::Privacy,
            ScenarioStep::AssertPrivacyWriteDenied => StepGroup::Privacy,
            ScenarioStep::AssertPrivacyEmptyDefaultDeny => StepGroup::Privacy,
            ScenarioStep::AssertPrivacyFieldSystemOnlyHidden => StepGroup::Privacy,
            ScenarioStep::AssertQueryLimitClamped => StepGroup::Privacy,
            ScenarioStep::AssertPrivacyBypassRequiresForce => StepGroup::Privacy,
            ScenarioStep::AssertValidationRejects { .. } => StepGroup::Privacy,
            ScenarioStep::AssertValidationAccepts { .. } => StepGroup::Privacy,
            ScenarioStep::ModelCrudSmoke => StepGroup::Model,
            ScenarioStep::ModelUpdateUpsert => StepGroup::Model,
            ScenarioStep::OwnershipGateSmoke => StepGroup::Model,
            ScenarioStep::GraphEdgeSmoke => StepGroup::Model,
            ScenarioStep::AssertTelemetryCounter { .. } => StepGroup::Telemetry,
            ScenarioStep::BuildValenceFromFactory { .. } => StepGroup::Wiring,
            ScenarioStep::SetEnv { .. } => StepGroup::Wiring,
            ScenarioStep::AssertEndpointResolve { .. } => StepGroup::Wiring,
            ScenarioStep::AssertEndpointUnresolved { .. } => StepGroup::Wiring,
            ScenarioStep::CompiledQueryEmpty { .. } => StepGroup::Crud,
            ScenarioStep::AssertBuilderEmptyFails => StepGroup::Wiring,
            ScenarioStep::QueryFilterEq => StepGroup::Model,
            ScenarioStep::QueryFilterMiss => StepGroup::Model,
            ScenarioStep::QueryOrderBy => StepGroup::Model,
            ScenarioStep::QueryPagination => StepGroup::Model,
            ScenarioStep::QueryOffsetEmpty => StepGroup::Model,
            ScenarioStep::ReadCacheSmoke => StepGroup::Model,
            ScenarioStep::QueryUnionJoinSmoke => StepGroup::Crud,
            ScenarioStep::M2mRelateSmoke => StepGroup::Crud,
            ScenarioStep::EnsureTtlForAll => StepGroup::Ttl,
            ScenarioStep::EnsureTtlForTable => StepGroup::Ttl,
            ScenarioStep::TtlNativeOrLingerContract { .. } => StepGroup::Ttl,
            ScenarioStep::TtlCreateOnlyNoRefresh { .. } => StepGroup::Ttl,
            ScenarioStep::TtlNonNativeWarnOnce => StepGroup::Ttl,
            ScenarioStep::TtlDeferredSweepDelete { .. } => StepGroup::Ttl,
            ScenarioStep::IterScanComplete => StepGroup::Ttl,
            ScenarioStep::OnDeleteCascadeSameBackend => StepGroup::OnDelete,
            ScenarioStep::OnDeleteSetNull => StepGroup::OnDelete,
            ScenarioStep::OnDeleteRemoveEdge => StepGroup::OnDelete,
            ScenarioStep::OnDeleteRestrictBlocks => StepGroup::OnDelete,
            ScenarioStep::OnDeleteCascadeCrossEngine => StepGroup::OnDelete,
            ScenarioStep::OnDeleteSetNullCrossEngine => StepGroup::OnDelete,
        }
    }
}

/// Short operation label of a step (see [`ScenarioStep::label`]).
pub fn step_label(step: &ScenarioStep) -> (r: String)
    ensures
        r@ == step.spec_label(),
{
    step.label()
}

/// Declarative scenario specification.
#[derive(Debug)]
pub struct ScenarioSpec {
    /// Stable scenario identifier.
    pub id: String,
    /// Ordered steps.
    pub steps: Vec<ScenarioStep>,
}

impl ScenarioSpec {
    /// `self` is the `builder-smoke` scenario.
    pub open spec fn is_builder_smoke(self) -> bool {
        &&& self.id@ == "builder-smoke"@
        &&& self.steps@.len() == 2
        &&& self.steps@[0] == ScenarioStep::BuildValence
        &&& self.steps@[1] == ScenarioStep::AssertActiveBackend
    }

    /// `self` is the `builder-empty-rejects` scenario.
    pub open spec fn is_builder_empty_rejects(self) -> bool {
        &&& self.id@ == "builder-empty-rejects"@
        &&& self.steps@.len() == 1
        &&& self.steps@[0] == ScenarioStep::AssertBuilderEmptyFails
    }

    /// `self` is the `get-record-missing` scenario.
    pub open spec fn is_get_record_missing(self) -> bool {
        &&& self.id@ == "get-record-missing"@
        &&& self.steps@.len() == 2
        &&& self.steps@[0] == ScenarioStep::BuildValence
        &&& self.steps@[1] matches ScenarioStep::AssertGetMissing { table: table_1, id: id_1 } && table_1@ == "missing_smoke_table"@ && id_1@ == "ghost_record"@
    }

    /// `self` is the `privacy-read-deny-anonymous` scenario.
    pub open spec fn is_privacy_read_deny_anonymous(self) -> bool {
        &&& self.id@ == "privacy-read-deny-anonymous"@
        &&& self.steps@.len() == 2
        &&& self.steps@[0] == ScenarioStep::BuildValence
        &&& self.steps@[1] == ScenarioStep::AssertPrivacyReadDenied
    }

    /// `self` is the `privacy-write-deny` scenario.
    pub open spec fn is_privacy_write_deny(self) -> bool {
        &&& self.id@ == "privacy-write-deny"@
        &&& self.steps@.len() == 2
        &&& self.steps@[0] == ScenarioStep::BuildValence
        &&& self.steps@[1] == ScenarioStep::AssertPrivacyWriteDenied
    }

    /// `self` is the `privacy-empty-default-deny` scenario.
    pub open spec fn is_privacy_empty_default_deny(self) -> bool {
        &&& self.id@ == "privacy-empty-default-deny"@
        &&& self.steps@.len() == 2
        &&& self.steps@[0] == ScenarioStep::BuildValence
        &&& self.steps@[1] == ScenarioStep::AssertPrivacyEmptyDefaultDeny
    }

    /// `self` is the `privacy-field-system-only-hidden` scenario.
    pub open spec fn is_privacy_field_system_only_hidden(self) -> bool {
        &&& self.id@ == "privacy-field-system-only-hidden"@
        &&& self.steps@.len() == 2
        &&& self.steps@[0] == ScenarioStep::BuildValence
        &&& self.steps@[1] == ScenarioStep::AssertPrivacyFieldSystemOnlyHidden
    }

    /// `self` is the `query-limit-clamped` scenario.
    pub open spec fn is_query_limit_clamped(self) -> bool {
        &&& self.id@ == "query-limit-clamped"@
        &&& self.steps@.len() == 2
        &&& self.steps@[0] == ScenarioStep::BuildValence
        &&& self.steps@[1] == ScenarioStep::AssertQueryLimitClamped
    }

    /// `self` is the `privacy-bypass-requires-force` scenario.
    pub open spec fn is_privacy_bypass_requires_force(self) -> bool {
        &&& self.id@ == "privacy-bypass-requires-force"@
        &&& self.steps@.len() == 2
        &&& self.steps@[0] == ScenarioStep::BuildValence
        &&& self.steps@[1] == ScenarioStep::AssertPrivacyBypassRequiresForce
    }

    /// `self` is the `inventory-bootstrap` scenario.
    pub open spec fn is_inventory_bootstrap(self) -> bool {
        &&& self.id@ == "inventory-bootstrap"@
        &&& self.steps@.len() == 3
        &&& self.steps@[0] matches ScenarioStep::AssertRouterLen { min: min_0 } && min_0 == 1
        &&& self.steps@[1] == ScenarioStep::BuildValence
        &&& self.steps@[2] == ScenarioStep::AssertActiveBackend
    }

    /// `self` is the `telemetry-crud-counters` scenario.
    pub open spec fn is_telemetry_crud_counters(self) -> bool {
        &&& self.id@ == "telemetry-crud-counters"@
        &&& self.steps@.len() == 3
        &&& self.steps@[0] == ScenarioStep::BuildValence
        &&& self.steps@[1] matches ScenarioStep::CrudSmoke { table: table_1, id: id_1 } && table_1@ == "telemetry_smoke"@ && id_1@ == "t1"@
        &&& self.steps@[2] matches ScenarioStep::AssertTelemetryCounter { name: name_2, label_key: label_key_2, label_value: label_value_2, min_count: min_count_2 } && name_2@ == "valence_db_writes"@ && label_key_2@ == "op"@ && label_value_2@ == "create"@ && min_count_2 == 1
    }

    /// `self` is the `telemetry-console-smoke` scenario.
    pub open spec fn is_telemetry_console_smoke(self) -> bool {
        &&& self.id@ == "telemetry-console-smoke"@
        &&& self.steps@.len() == 2
        &&& self.steps@[0] == ScenarioStep::BuildValence
        &&& self.steps@[1] matches ScenarioStep::CrudSmoke { table: table_1, id: id_1 } && table_1@ == "telemetry_console_smoke"@ && id_1@ == "c1"@
    }

    /// `self` is the `factory-background-build` scenario.
    pub open spec fn is_factory_background_build(self) -> bool {
        &&& self.id@ == "factory-background-build"@
        &&& self.steps@.len() == 1
        &&& self.steps@[0] matches ScenarioStep::BuildValenceFromFactory { actor: actor_0 } && actor_0 matches ActorSpec::System { operation } && operation@ == "valence-testkit"@
    }

    /// `self` is the `endpoint-env-resolve` scenario.
    pub open spec fn is_endpoint_env_resolve(self) -> bool {
        &&& self.id@ == "endpoint-env-resolve"@
        &&& self.steps@.len() == 2
        &&& self.steps@[0] matches ScenarioStep::SetEnv { key: key_0, value: value_0 } && key_0@ == "VALENCE_ENDPOINT_DEFAULT"@ && value_0@ == "http://127.0.0.1:8000"@
        &&& self.steps@[1] matches ScenarioStep::AssertEndpointResolve { logical: logical_1, expect_url: expect_url_1 } && logical_1@ == "default"@ && expect_url_1@ == "http://127.0.0.1:8000"@
    }

    /// `self` is the `endpoint-env-unresolved` scenario.
    pub open spec fn is_endpoint_env_unresolved(self) -> bool {
        &&& self.id@ == "endpoint-env-unresolved"@
        &&& self.steps@.len() == 1
        &&& self.steps@[0] matches ScenarioStep::AssertEndpointUnresolved { logical: logical_0 } && logical_0@ == "no_such_logical"@
    }

    /// `self` is the `compiled-query-empty-table` scenario.
    pub open spec fn is_compiled_query_empty_table(self) -> bool {
        &&& self.id@ == "compiled-query-empty-table"@
        &&& self.steps@.len() == 2
        &&& self.steps@[0] == ScenarioStep::BuildValence
        &&& self.steps@[1] matches ScenarioStep::CompiledQueryEmpty { table: table_1 } && table_1@ == "missing_valence_table"@
    }

    /// `self` is the `model-crud-smoke` scenario.
    pub open spec fn is_model_crud_smoke(self) -> bool {
        &&& self.id@ == "model-crud-smoke"@
        &&& self.steps@.len() == 2
        &&& self.steps@[0] == ScenarioStep::BuildValence
        &&& self.steps@[1] == ScenarioStep::ModelCrudSmoke
    }

    /// `self` is the `model-update-upsert` scenario.
    pub open spec fn is_model_update_upsert(self) -> bool {
        &&& self.id@ == "model-update-upsert"@
        &&& self.steps@.len() == 2
        &&& self.steps@[0] == ScenarioStep::BuildValence
        &&& self.steps@[1] == ScenarioStep::ModelUpdateUpsert
    }

    /// `self` is the `ownership-gate-smoke` scenario.
    pub open spec fn is_ownership_gate_smoke(self) -> bool {
        &&& self.id@ == "ownership-gate-smoke"@
        &&& self.steps@.len() == 2
        &&& self.steps@[0] == ScenarioStep::BuildValence
        &&& self.steps@[1] == ScenarioStep::OwnershipGateSmoke
    }

    /// `self` is the `validation-reject-smoke` scenario.
    pub open spec fn is_validation_reject_smoke(self) -> bool {
        &&& self.id@ == "validation-reject-smoke"@
        &&& self.steps@.len() == 1
        &&& self.steps@[0] matches ScenarioStep::AssertValidationRejects { validator: validator_0, value: value_0 } && validator_0@ == "email"@ && value_0@ == "not-an-email"@
    }

    /// `self` is the `validation-accept-smoke` scenario.
    pub open spec fn is_validation_accept_smoke(self) -> bool {
        &&& self.id@ == "validation-accept-smoke"@
        &&& self.steps@.len() == 1
        &&& self.steps@[0] matches ScenarioStep::AssertValidationAccepts { validator: validator_0, value: value_0 } && validator_0@ == "email"@ && value_0@ == "user@example.com"@
    }

    /// `self` is the `graph-edge-smoke` scenario.
    pub open spec fn is_graph_edge_smoke(self) -> bool {
        &&& self.id@ == "graph-edge-smoke"@
        &&& self.steps@.len() == 2
        &&& self.steps@[0] == ScenarioStep::BuildValence
        &&& self.steps@[1] == ScenarioStep::GraphEdgeSmoke
    }

    /// `self` is the `query-filter-eq` scenario.
    pub open spec fn is_query_filter_eq(self) -> bool {
        &&& self.id@ == "query-filter-eq"@
        &&& self.steps@.len() == 2
        &&& self.steps@[0] == ScenarioStep::BuildValence
        &&& self.steps@[1] == ScenarioStep::QueryFilterEq
    }

    /// `self` is the `query-filter-miss` scenario.
    pub open spec fn is_query_filter_miss(self) -> bool {
        &&& self.id@ == "query-filter-miss"@
        &&& self.steps@.len() == 2
        &&& self.steps@[0] == ScenarioStep::BuildValence
        &&& self.steps@[1] == ScenarioStep::QueryFilterMiss
    }

    /// `self` is the `query-order-by` scenario.
    pub open spec fn is_query_order_by(self) -> bool {
        &&& self.id@ == "query-order-by"@
        &&& self.steps@.len() == 2
        &&& self.steps@[0] == ScenarioStep::BuildValence
        &&& self.steps@[1] == ScenarioStep::QueryOrderBy
    }

    /// `self` is the `query-pagination` scenario.
    pub open spec fn is_query_pagination(self) -> bool {
        &&& self.id@ == "query-pagination"@
        &&& self.steps@.len() == 2
        &&& self.steps@[0] == ScenarioStep::BuildValence
        &&& self.steps@[1] == ScenarioStep::QueryPagination
    }

    /// `self` is the `query-offset-empty` scenario.
    pub open spec fn is_query_offset_empty(self) -> bool {
        &&& self.id@ == "query-offset-empty"@
        &&& self.steps@.len() == 2
        &&& self.steps@[0] == ScenarioStep::BuildValence
        &&& self.steps@[1] == ScenarioStep::QueryOffsetEmpty
    }

    /// `self` is the `read-cache-smoke` scenario.
    pub open spec fn is_read_cache_smoke(self) -> bool {
        &&& self.id@ == "read-cache-smoke"@
        &&& self.steps@.len() == 2
        &&& self.steps@[0] == ScenarioStep::BuildValence
        &&& self.steps@[1] == ScenarioStep::ReadCacheSmoke
    }

    /// `self` is the `query-union-join-smoke` scenario.
    pub open spec fn is_query_union_join_smoke(self) -> bool {
        &&& self.id@ == "query-union-join-smoke"@
        &&& self.steps@.len() == 1
        &&& self.steps@[0] == ScenarioStep::QueryUnionJoinSmoke
    }

    /// `self` is the `m2m-relate-smoke` scenario.
    pub open spec fn is_m2m_relate_smoke(self) -> bool {
        &&& self.id@ == "m2m-relate-smoke"@
        &&& self.steps@.len() == 2
        &&& self.steps@[0] == ScenarioStep::BuildValence
        &&& self.steps@[1] == ScenarioStep::M2mRelateSmoke
    }

    /// `self` is the `ttl-native-expire` scenario.
    pub open spec fn is_ttl_native_expire(self, id: Seq<char>) -> bool {
        &&& self.id@ == "ttl-native-expire"@
        &&& self.steps@.len() == 3
        &&& self.steps@[0] == ScenarioStep::BuildValence
        &&& self.steps@[1] == ScenarioStep::EnsureTtlForAll
        &&& self.steps@[2] matches ScenarioStep::TtlNativeOrLingerContract { id: id_2 } && id_2@ == id
    }

    /// `self` is the `ttl-deferred-stamp` scenario.
    pub open spec fn is_ttl_deferred_stamp(self, id: Seq<char>) -> bool {
        &&& self.id@ == "ttl-deferred-stamp"@
        &&& self.steps@.len() == 3
        &&& self.steps@[0] == ScenarioStep::BuildValence
        &&& self.steps@[1] == ScenarioStep::EnsureTtlForTable
        &&& self.steps@[2] matches ScenarioStep::TtlNativeOrLingerContract { id: id_2 } && id_2@ == id
    }

    /// `self` is the `ttl-create-only-no-refresh` scenario.
    pub open spec fn is_ttl_create_only_no_refresh(self, id: Seq<char>) -> bool {
        &&& self.id@ == "ttl-create-only-no-refresh"@
        &&& self.steps@.len() == 3
        &&& self.steps@[0] == ScenarioStep::BuildValence
        &&& self.steps@[1] == ScenarioStep::EnsureTtlForTable
        &&& self.steps@[2] matches ScenarioStep::TtlCreateOnlyNoRefresh { id: id_2 } && id_2@ == id
    }

    /// `self` is the `ttl-non-native-warn` scenario.
    pub open spec fn is_ttl_non_native_warn(self) -> bool {
        &&& self.id@ == "ttl-non-native-warn"@
        &&& self.steps@.len() == 2
        &&& self.steps@[0] == ScenarioStep::BuildValence
        &&& self.steps@[1] == ScenarioStep::TtlNonNativeWarnOnce
    }

    /// `self` is the `ttl-deferred-sweep-delete` scenario.
    pub open spec fn is_ttl_deferred_sweep_delete(self, id: Seq<char>) -> bool {
        &&& self.id@ == "ttl-deferred-sweep-delete"@
        &&& self.steps@.len() == 3
        &&& self.steps@[0] == ScenarioStep::BuildValence
        &&& self.steps@[1] == ScenarioStep::EnsureTtlForTable
        &&& self.steps@[2] matches ScenarioStep::TtlDeferredSweepDelete { id: id_2 } && id_2@ == id
    }

    /// `self` is the `iter-scan-complete` scenario.
    pub open spec fn is_iter_scan_complete(self) -> bool {
        &&& self.id@ == "iter-scan-complete"@
        &&& self.steps@.len() == 2
        &&& self.steps@[0] == ScenarioStep::BuildValence
        &&& self.steps@[1] == ScenarioStep::IterScanComplete
    }

    /// `self` is the `on-delete-cascade-same-backend` scenario.
    pub open spec fn is_on_delete_cascade_same_backend(self) -> bool {
        &&& self.id@ == "on-delete-cascade-same-backend"@
        &&& self.steps@.len() == 2
        &&& self.steps@[0] == ScenarioStep::BuildValence
        &&& self.steps@[1] == ScenarioStep::OnDeleteCascadeSameBackend
    }

    /// `self` is the `on-delete-set-null` scenario.
    pub open spec fn is_on_delete_set_null(self) -> bool {
        &&& self.id@ == "on-delete-set-null"@
        &&& self.steps@.len() == 2
        &&& self.steps@[0] == ScenarioStep::BuildValence
        &&& self.steps@[1] == ScenarioStep::OnDeleteSetNull
    }

    /// `self` is the `on-delete-remove-edge` scenario.
    pub open spec fn is_on_delete_remove_edge(self) -> bool {
        &&& self.id@ == "on-delete-remove-edge"@
        &&& self.steps@.len() == 2
        &&& self.steps@[0] == ScenarioStep::BuildValence
        &&& self.steps@[1] == ScenarioStep::OnDeleteRemoveEdge
    }

    /// `self` is the `on-delete-restrict-blocks` scenario.
    pub open spec fn is_on_delete_restrict_blocks(self) -> bool {
        &&& self.id@ == "on-delete-restrict-blocks"@
        &&& self.steps@.len() == 2
        &&& self.steps@[0] == ScenarioStep::BuildValence
        &&& self.steps@[1] == ScenarioStep::OnDeleteRestrictBlocks
    }

    /// `self` is the `on-delete-cascade-cross-engine` scenario.
    pub open spec fn is_on_delete_cascade_cross_engine(self) -> bool {
        &&& self.id@ == "on-delete-cascade-cross-engine"@
        &&& self.steps@.len() == 2
        &&& self.steps@[0] == ScenarioStep::BuildValence
        &&& self.steps@[1] == ScenarioStep::OnDeleteCascadeCrossEngine
    }

    /// `self` is the `on-delete-set-null-cross-engine` scenario.
    pub open spec fn is_on_delete_set_null_cross_engine(self) -> bool {
        &&& self.id@ == "on-delete-set-null-cross-engine"@
        &&& self.steps@.len() == 2
        &&& self.steps@[0] == ScenarioStep::BuildValence
        &&& self.steps@[1] == ScenarioStep::OnDeleteSetNullCrossEngine
    }

    /// The `builder-smoke` scenario.
    pub fn builder_smoke() -> (r: Self)
        ensures
            r.is_builder_smoke(),
    {
        ScenarioSpec {
            id: owned("builder-smoke"),
            steps: vec![
                ScenarioStep::BuildValence,
                ScenarioStep::AssertActiveBackend,
            ],
        }
    }

    /// The `builder-empty-rejects` scenario.
    pub fn builder_empty_rejects() -> (r: Self)
        ensures
            r.is_builder_empty_rejects(),
    {
        ScenarioSpec {
            id: owned("builder-empty-rejects"),
            steps: vec![
                ScenarioStep::AssertBuilderEmptyFails,
            ],
        }
    }

    /// The `get-record-missing` scenario.
    pub fn get_record_missing() -> (r: Self)
        ensures
            r.is_get_record_missing(),
    {
        ScenarioSpec {
            id: owned("get-record-missing"),
            steps: vec![
                ScenarioStep::BuildValence,
                ScenarioStep::AssertGetMissing { table: owned("missing_smoke_table"), id: owned("ghost_record") },
            ],
        }
    }

    /// The `privacy-read-deny-anonymous` scenario.
    pub fn privacy_read_deny_anonymous() -> (r: Self)
        ensures
            r.is_privacy_read_deny_anonymous(),
    {
        ScenarioSpec {
            id: owned("privacy-read-deny-anonymous"),
            steps: vec![
                ScenarioStep::BuildValence,
                ScenarioStep::AssertPrivacyReadDenied,
            ],
        }
    }

    /// The `privacy-write-deny` scenario.
    pub fn privacy_write_deny() -> (r: Self)
        ensures
            r.is_privacy_write_deny(),
    {
        ScenarioSpec {
            id: owned("privacy-write-deny"),
            steps: vec![
                ScenarioStep::BuildValence,
                ScenarioStep::AssertPrivacyWriteDenied,
            ],
        }
    }

    /// The `privacy-empty-default-deny` scenario.
    pub fn privacy_empty_default_deny() -> (r: Self)
        ensures
            r.is_privacy_empty_default_deny(),
    {
        ScenarioSpec {
            id: owned("privacy-empty-default-deny"),
            steps: vec![
                ScenarioStep::BuildValence,
                ScenarioStep::AssertPrivacyEmptyDefaultDeny,
            ],
        }
    }

    /// The `privacy-field-system-only-hidden` scenario.
    pub fn privacy_field_system_only_hidden() -> (r: Self)
        ensures
            r.is_privacy_field_system_only_hidden(),
    {
        ScenarioSpec {
            id: owned("privacy-field-system-only-hidden"),
            steps: vec![
                ScenarioStep::BuildValence,
                ScenarioStep::AssertPrivacyFieldSystemOnlyHidden,
            ],
        }
    }

    /// The `query-limit-clamped` scenario.
    pub fn query_limit_clamped() -> (r: Self)
        ensures
            r.is_query_limit_clamped(),
    {
        ScenarioSpec {
            id: owned("query-limit-clamped"),
            steps: vec![
                ScenarioStep::BuildValence,
                ScenarioStep::AssertQueryLimitClamped,
            ],
        }
    }

    /// The `privacy-bypass-requires-force` scenario.
    pub fn privacy_bypass_requires_force() -> (r: Self)
        ensures
            r.is_privacy_bypass_requires_force(),
    {
        ScenarioSpec {
            id: owned("privacy-bypass-requires-force"),
            steps: vec![
                ScenarioStep::BuildValence,
                ScenarioStep::AssertPrivacyBypassRequiresForce,
            ],
        }
    }

    /// The `inventory-bootstrap` scenario.
    pub fn inventory_bootstrap() -> (r: Self)
        ensures
            r.is_inventory_bootstrap(),
    {
        ScenarioSpec {
            id: owned("inventory-bootstrap"),
            steps: vec![
                ScenarioStep::AssertRouterLen { min: 1 },
                ScenarioStep::BuildValence,
                ScenarioStep::AssertActiveBackend,
            ],
        }
    }

    /// The `telemetry-crud-counters` scenario.
    pub fn telemetry_crud_counters() -> (r: Self)
        ensures
            r.is_telemetry_crud_counters(),
    {
        ScenarioSpec {
            id: owned("telemetry-crud-counters"),
            steps: vec![
                ScenarioStep::BuildValence,
                ScenarioStep::CrudSmoke { table: owned("telemetry_smoke"), id: owned("t1") },
                ScenarioStep::AssertTelemetryCounter { name: owned("valence_db_writes"), label_key: owned("op"), label_value: owned("create"), min_count: 1 },
            ],
        }
    }

    /// The `telemetry-console-smoke` scenario.
    pub fn telemetry_console_smoke() -> (r: Self)
        ensures
            r.is_telemetry_console_smoke(),
    {
        ScenarioSpec {
            id: owned("telemetry-console-smoke"),
            steps: vec![
                ScenarioStep::BuildValence,
                ScenarioStep::CrudSmoke { table: owned("telemetry_console_smoke"), id: owned("c1") },
            ],
        }
    }

    /// The `factory-background-build` scenario.
    pub fn factory_background_build() -> (r: Self)
        ensures
            r.is_factory_background_build(),
    {
        ScenarioSpec {
            id: owned("factory-background-build"),
            steps: vec![
                ScenarioStep::BuildValenceFromFactory { actor: smoke_actor() },
            ],
        }
    }

    /// The `endpoint-env-resolve` scenario.
    pub fn endpoint_env_resolve() -> (r: Self)
        ensures
            r.is_endpoint_env_resolve(),
    {
        ScenarioSpec {
            id: owned("endpoint-env-resolve"),
            steps: vec![
                ScenarioStep::SetEnv { key: owned("VALENCE_ENDPOINT_DEFAULT"), value: owned("http://127.0.0.1:8000") },
                ScenarioStep::AssertEndpointResolve { logical: owned("default"), expect_url: owned("http://127.0.0.1:8000") },
            ],
        }
    }

    /// The `endpoint-env-unresolved` scenario.
    pub fn endpoint_env_unresolved() -> (r: Self)
        ensures
            r.is_endpoint_env_unresolved(),
    {
        ScenarioSpec {
            id: owned("endpoint-env-unresolved"),
            steps: vec![
                ScenarioStep::AssertEndpointUnresolved { logical: owned("no_such_logical") },
            ],
        }
    }

    /// The `compiled-query-empty-table` scenario.
    pub fn compiled_query_empty_table() -> (r: Self)
        ensures
            r.is_compiled_query_empty_table(),
    {
        ScenarioSpec {
            id: owned("compiled-query-empty-table"),
            steps: vec![
                ScenarioStep::BuildValence,
                ScenarioStep::CompiledQueryEmpty { table: owned("missing_valence_table") },
            ],
        }
    }

    /// The `model-crud-smoke` scenario.
    pub fn model_crud_smoke() -> (r: Self)
        ensures
            r.is_model_crud_smoke(),
    {
        ScenarioSpec {
            id: owned("model-crud-smoke"),
            steps: vec![
                ScenarioStep::BuildValence,
                ScenarioStep::ModelCrudSmoke,
            ],
        }
    }

    /// The `model-update-upsert` scenario.
    pub fn model_update_upsert() -> (r: Self)
        ensures
            r.is_model_update_upsert(),
    {
        ScenarioSpec {
            id: owned("model-update-upsert"),
            steps: vec![
                ScenarioStep::BuildValence,
                ScenarioStep::ModelUpdateUpsert,
            ],
        }
    }

    /// The `ownership-gate-smoke` scenario.
    pub fn ownership_gate_smoke() -> (r: Self)
        ensures
            r.is_ownership_gate_smoke(),
    {
        ScenarioSpec {
            id: owned("ownership-gate-smoke"),
            steps: vec![
                ScenarioStep::BuildValence,
                ScenarioStep::OwnershipGateSmoke,
            ],
        }
    }

    /// The `validation-reject-smoke` scenario.
    pub fn validation_reject_smoke() -> (r: Self)
        ensures
            r.is_validation_reject_smoke(),
    {
        ScenarioSpec {
            id: owned("validation-reject-smoke"),
            steps: vec![
                ScenarioStep::AssertValidationRejects { validator: owned("email"), value: owned("not-an-email") },
            ],
        }
    }

    /// The `validation-accept-smoke` scenario.
    pub fn validation_accept_smoke() -> (r: Self)
        ensures
            r.is_validation_accept_smoke(),
    {
        ScenarioSpec {
            id: owned("validation-accept-smoke"),
            steps: vec![
                ScenarioStep::AssertValidationAccepts { validator: owned("email"), value: owned("user@example.com") },
            ],
        }
    }

    /// The `graph-edge-smoke` scenario.
    pub fn graph_edge_smoke() -> (r: Self)
        ensures
            r.is_graph_edge_smoke(),
    {
        ScenarioSpec {
            id: owned("graph-edge-smoke"),
            steps: vec![
                ScenarioStep::BuildValence,
                ScenarioStep::GraphEdgeSmoke,
            ],
        }
    }

    /// The `query-filter-eq` scenario.
    pub fn query_filter_eq() -> (r: Self)
        ensures
            r.is_query_filter_eq(),
    {
        ScenarioSpec {
            id: owned("query-filter-eq"),
            steps: vec![
                ScenarioStep::BuildValence,
                ScenarioStep::QueryFilterEq,
            ],
        }
    }

    /// The `query-filter-miss` scenario.
    pub fn query_filter_miss() -> (r: Self)
        ensures
            r.is_query_filter_miss(),
    {
        ScenarioSpec {
            id: owned("query-filter-miss"),
            steps: vec![
                ScenarioStep::BuildValence,
                ScenarioStep::QueryFilterMiss,
            ],
        }
    }

    /// The `query-order-by` scenario.
    pub fn query_order_by() -> (r: Self)
        ensures
            r.is_query_order_by(),
    {
        ScenarioSpec {
            id: owned("query-order-by"),
            steps: vec![
                ScenarioStep::BuildValence,
                ScenarioStep::QueryOrderBy,
            ],
        }
    }

    /// The `query-pagination` scenario.
    pub fn query_pagination() -> (r: Self)
        ensures
            r.is_query_pagination(),
    {
        ScenarioSpec {
            id: owned("query-pagination"),
            steps: vec![
                ScenarioStep::BuildValence,
                ScenarioStep::QueryPagination,
            ],
        }
    }

    /// The `query-offset-empty` scenario.
    pub fn query_offset_empty() -> (r: Self)
        ensures
            r.is_query_offset_empty(),
    {
        ScenarioSpec {
            id: owned("query-offset-empty"),
            steps: vec![
                ScenarioStep::BuildValence,
                ScenarioStep::QueryOffsetEmpty,
            ],
        }
    }

    /// The `read-cache-smoke` scenario.
    pub fn read_cache_smoke() -> (r: Self)
        ensures
            r.is_read_cache_smoke(),
    {
        ScenarioSpec {
            id: owned("read-cache-smoke"),
            steps: vec![
                ScenarioStep::BuildValence,
                ScenarioStep::ReadCacheSmoke,
            ],
        }
    }

    /// The `query-union-join-smoke` scenario.
    pub fn query_union_join_smoke() -> (r: Self)
        ensures
            r.is_query_union_join_smoke(),
    {
        ScenarioSpec {
            id: owned("query-union-join-smoke"),
            steps: vec![
                ScenarioStep::QueryUnionJoinSmoke,
            ],
        }
    }

    /// The `m2m-relate-smoke` scenario.
    pub fn m2m_relate_smoke() -> (r: Self)
        ensures
            r.is_m2m_relate_smoke(),
    {
        ScenarioSpec {
            id: owned("m2m-relate-smoke"),
            steps: vec![
                ScenarioStep::BuildValence,
                ScenarioStep::M2mRelateSmoke,
            ],
        }
    }

    /// The `ttl-native-expire` scenario.
    pub fn ttl_native_expire(id: String) -> (r: Self)
        ensures
            r.is_ttl_native_expire(id@),
    {
        ScenarioSpec {
            id: owned("ttl-native-expire"),
            steps: vec![
                ScenarioStep::BuildValence,
                ScenarioStep::EnsureTtlForAll,
                ScenarioStep::TtlNativeOrLingerContract { id },
            ],
        }
    }

    /// The `ttl-deferred-stamp` scenario.
    pub fn ttl_deferred_stamp(id: String) -> (r: Self)
        ensures
            r.is_ttl_deferred_stamp(id@),
    {
        ScenarioSpec {
            id: owned("ttl-deferred-stamp"),
            steps: vec![
                ScenarioStep::BuildValence,
                ScenarioStep::EnsureTtlForTable,
                ScenarioStep::TtlNativeOrLingerContract { id },
            ],
        }
    }

    /// The `ttl-create-only-no-refresh` scenario.
    pub fn ttl_create_only_no_refresh(id: String) -> (r: Self)
        ensures
            r.is_ttl_create_only_no_refresh(id@),
    {
        ScenarioSpec {
            id: owned("ttl-create-only-no-refresh"),
            steps: vec![
                ScenarioStep::BuildValence,
                ScenarioStep::EnsureTtlForTable,
                ScenarioStep::TtlCreateOnlyNoRefresh { id },
            ],
        }
    }

    /// The `ttl-non-native-warn` scenario.
    pub fn ttl_non_native_warn() -> (r: Self)
        ensures
            r.is_ttl_non_native_warn(),
    {
        ScenarioSpec {
            id: owned("ttl-non-native-warn"),
            steps: vec![
                ScenarioStep::BuildValence,
                ScenarioStep::TtlNonNativeWarnOnce,
            ],
        }
    }

    /// The `ttl-deferred-sweep-delete` scenario.
    pub fn ttl_deferred_sweep_delete(id: String) -> (r: Self)
        ensures
            r.is_ttl_deferred_sweep_delete(id@),
    {
        ScenarioSpec {
            id: owned("ttl-deferred-sweep-delete"),
            steps: vec![
                ScenarioStep::BuildValence,
                ScenarioStep::EnsureTtlForTable,
                ScenarioStep::TtlDeferredSweepDelete { id },
            ],
        }
    }

    /// The `iter-scan-complete` scenario.
    pub fn iter_scan_complete() -> (r: Self)
        ensures
            r.is_iter_scan_complete(),
    {
        ScenarioSpec {
            id: owned("iter-scan-complete"),
            steps: vec![
                ScenarioStep::BuildValence,
                ScenarioStep::IterScanComplete,
            ],
        }
    }

    /// The `on-delete-cascade-same-backend` scenario.
    pub fn on_delete_cascade_same_backend() -> (r: Self)
        ensures
            r.is_on_delete_cascade_same_backend(),
    {
        ScenarioSpec {
            id: owned("on-delete-cascade-same-backend"),
            steps: vec![
                ScenarioStep::BuildValence,
                ScenarioStep::OnDeleteCascadeSameBackend,
            ],
        }
    }

    /// The `on-delete-set-null` scenario.
    pub fn on_delete_set_null() -> (r: Self)
        ensures
            r.is_on_delete_set_null(),
    {
        ScenarioSpec {
            id: owned("on-delete-set-null"),
            steps: vec![
                ScenarioStep::BuildValence,
                ScenarioStep::OnDeleteSetNull,
            ],
        }
    }

    /// The `on-delete-remove-edge` scenario.
    pub fn on_delete_remove_edge() -> (r: Self)
        ensures
            r.is_on_delete_remove_edge(),
    {
        ScenarioSpec {
            id: owned("on-delete-remove-edge"),
            steps: vec![
                ScenarioStep::BuildValence,
                ScenarioStep::OnDeleteRemoveEdge,
            ],
        }
    }

    /// The `on-delete-restrict-blocks` scenario.
    pub fn on_delete_restrict_blocks() -> (r: Self)
        ensures
            r.is_on_delete_restrict_blocks(),
    {
        ScenarioSpec {
            id: owned("on-delete-restrict-blocks"),
            steps: vec![
                ScenarioStep::BuildValence,
                ScenarioStep::OnDeleteRestrictBlocks,
            ],
        }
    }

    /// The `on-delete-cascade-cross-engine` scenario.
    pub fn on_delete_cascade_cross_engine() -> (r: Self)
        ensures
            r.is_on_delete_cascade_cross_engine(),
    {
        ScenarioSpec {
            id: owned("on-delete-cascade-cross-engine"),
            steps: vec![
                ScenarioStep::BuildValence,
                ScenarioStep::OnDeleteCascadeCrossEngine,
            ],
        }
    }

    /// The `on-delete-set-null-cross-engine` scenario.
    pub fn on_delete_set_null_cross_engine() -> (r: Self)
        ensures
            r.is_on_delete_set_null_cross_engine(),
    {
        ScenarioSpec {
            id: owned("on-delete-set-null-cross-engine"),
            steps: vec![
                ScenarioStep::BuildValence,
                ScenarioStep::OnDeleteSetNullCrossEngine,
            ],
        }
    }

}

/// `r` is the multi-logical router scenario for logical names `names`
/// under `engine`: build, at least `names.len()` registrations, each name
/// resolves; with two or more names the first two share one backend and a
/// record created through the first reads back through the second; and an
/// unregistered logical name under the same engine fails to resolve.
pub open spec fn is_multi_logical_scenario(
    r: ScenarioSpec,
    engine: EngineId,
    names: Seq<Seq<char>>,
) -> bool {
    let n = names.len() as int;
    &&& r.id@ == "router-multi-logical"@
    &&& r.steps@.len() == n + 3 + (if n >= 2 {
        2int
    } else {
        0int
    })
    &&& r.steps@[0] == ScenarioStep::BuildValence
    &&& r.steps@[1] matches ScenarioStep::AssertRouterLen { min } && min == n
    &&& forall|k: int|
        #![trigger r.steps@[k]]
        2 <= k < n + 2 ==> (r.steps@[k] matches ScenarioStep::AssertRouterResolve { key } && key_is(
            key,
            names[k - 2],
            engine,
        ))
    &&& n >= 2 ==> (r.steps@[n + 2] matches ScenarioStep::AssertRouterSharedBackend {
        key_a,
        key_b,
    } && key_is(key_a, names[0], engine) && key_is(key_b, names[1], engine))
    &&& n >= 2 ==> (r.steps@[n + 3] matches ScenarioStep::CrudAcrossRouterKeys {
        create_key,
        read_key,
        table,
        id,
    } && key_is(create_key, names[0], engine) && key_is(read_key, names[1], engine) && table@
        == "router_multi_smoke"@ && id@ == "rml1"@)
    &&& r.steps@[r.steps@.len() - 1] matches ScenarioStep::AssertRouterResolveFails { key }
        && key_is(key, "nonexistent_logical"@, engine)
}

/// The char views of a list of names.
pub open spec fn name_views(names: Seq<&str>) -> Seq<Seq<char>> {
    names.map_values(|s: &str| s@)
}

impl ScenarioSpec {
    /// Multi-logical router scenario for any engine.
    pub fn router_multi_logical_engine(engine: &EngineId, logical_names: &[&str]) -> (r: Self)
        ensures
            is_multi_logical_scenario(r, *engine, name_views(logical_names@)),
    {
        let ghost names = name_views(logical_names@);
        let n = logical_names.len();
        let mut steps: Vec<ScenarioStep> = Vec::new();
        steps.push(ScenarioStep::BuildValence);
        steps.push(ScenarioStep::AssertRouterLen { min: n });
        let mut i: usize = 0;
        while i < n
            invariant
                n == logical_names@.len(),
                names == name_views(logical_names@),
                i <= n,
                steps@.len() == 2 + i,
                steps@[0] == ScenarioStep::BuildValence,
                steps@[1] matches ScenarioStep::AssertRouterLen { min } && min == n,
                forall|k: int|
                    #![trigger steps@[k]]
                    2 <= k < 2 + i ==> (steps@[k] matches ScenarioStep::AssertRouterResolve {
                        key,
                    } && key_is(key, names[k - 2], *engine)),
            decreases n - i,
        {
            let key = RouterKey::new(logical_names[i], engine);
            steps.push(ScenarioStep::AssertRouterResolve { key });
            i = i + 1;
        }
        let ghost mid = steps@;
        if n >= 2 {
            let key_a = RouterKey::new(logical_names[0], engine);
            let key_b = RouterKey::new(logical_names[1], engine);
            let create_key = RouterKey::new(logical_names[0], engine);
            let read_key = RouterKey::new(logical_names[1], engine);
            steps.push(ScenarioStep::AssertRouterSharedBackend { key_a, key_b });
            steps.push(
                ScenarioStep::CrudAcrossRouterKeys {
                    create_key,
                    read_key,
                    table: owned("router_multi_smoke"),
                    id: owned("rml1"),
                },
            );
        }
        steps.push(
            ScenarioStep::AssertRouterResolveFails {
                key: RouterKey::new("nonexistent_logical", engine),
            },
        );
        assert forall|k: int| #![trigger steps@[k]] 2 <= k < 2 + n implies (steps@[k] matches ScenarioStep::AssertRouterResolve { key } && key_is(
            key,
            names[k - 2],
            *engine,
        )) by {
            assert(steps@[k] == mid[k]);
        }
        assert(steps@[1] == mid[1]);
        ScenarioSpec { id: owned("router-multi-logical"), steps }
    }

    /// Multi-logical router scenario on the Surreal engine (`default`, `billing`).
    pub fn router_multi_logical() -> (r: Self)
        ensures
            is_multi_logical_scenario(r, EngineId::SurrealDb, seq!["default"@, "billing"@]),
    {
        let names: [&str; 2] = ["default", "billing"];
        assert(name_views(names@) =~= seq!["default"@, "billing"@]);
        Self::router_multi_logical_engine(&EngineId::SurrealDb, &names)
    }

    /// Multi-logical router scenario on the acme stub engine (`primary`, `vault`).
    pub fn router_multi_logical_acme() -> (r: Self)
        ensures
            is_multi_logical_scenario(r, EngineId::AcmeStub, seq!["primary"@, "vault"@]),
    {
        let names: [&str; 2] = ["primary", "vault"];
        assert(name_views(names@) =~= seq!["primary"@, "vault"@]);
        Self::router_multi_logical_engine(&EngineId::AcmeStub, &names)
    }

    /// Multi-logical router scenario on the in-memory engine (`default`, `billing`).
    pub fn router_multi_logical_mem() -> (r: Self)
        ensures
            is_multi_logical_scenario(r, EngineId::InMemory, seq!["default"@, "billing"@]),
    {
        let names: [&str; 2] = ["default", "billing"];
        assert(name_views(names@) =~= seq!["default"@, "billing"@]);
        Self::router_multi_logical_engine(&EngineId::InMemory, &names)
    }

    /// `self` is the router-key-not-found sad path for `storage`.
    pub open spec fn is_router_key_not_found(self, storage: StorageAdapter) -> bool {
        &&& self.id@ == "router-key-not-found"@
        &&& self.steps@.len() == 2
        &&& self.steps@[0] == ScenarioStep::BuildValence
        &&& self.steps@[1] matches ScenarioStep::AssertRouterResolveFails { key } && key_is(
            key,
            "nonexistent_logical"@,
            engine_for_storage_slug(storage.spec_slug()),
        )
    }

    /// Sad path: an unregistered logical name under the storage's own engine
    /// fails to resolve.
    pub fn router_key_not_found(storage: StorageAdapter) -> (r: Self)
        ensures
            r.is_router_key_not_found(storage),
    {
        let key = invalid_router_key(storage.slug());
        ScenarioSpec {
            id: owned("router-key-not-found"),
            steps: vec![ScenarioStep::BuildValence, ScenarioStep::AssertRouterResolveFails { key }],
        }
    }
}

} // verus!
