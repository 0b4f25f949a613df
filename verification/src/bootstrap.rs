//! Matrix-driven bootstrap: the configuration of a session for one matrix
//! row, and the plan of the router its spawn installs.

use vstd::prelude::*;

use crate::matrix::{BuildFeatures, MatrixSpec, StorageAdapter, TelemetryAdapter, Topology, WireBackendOptions};
use crate::fixtures::engine_for_storage_slug;
use crate::scenario::{key_is, name_views, EngineId, RouterKey};
use crate::text::owned;

verus! {

/// How embedded Surreal logical names are registered.
#[derive(Debug, Clone, Copy, PartialEq, Eq, Structural)]
pub enum BootstrapMode {
    /// Explicit logical name list (default `["default"]`).
    ExplicitLogicalNames,
    /// Discover logical names from the linked schema inventory (Surreal only).
    FromInventory,
}

impl Default for BootstrapMode {
    fn default() -> (r: Self)
        ensures
            r == BootstrapMode::ExplicitLogicalNames,
    {
        BootstrapMode::ExplicitLogicalNames
    }
}

/// How the router of a session is built.
#[derive(Debug, Clone, Copy, PartialEq, Eq, Structural)]
pub enum RouterBuild {
    /// One backend of the given storage, shared by every logical name.
    SharedBackend { storage: StorageAdapter },
    /// An embedded Surreal router (in memory or on RocksDB in a temporary
    /// directory), with logical names listed or taken from the inventory.
    SurrealEmbedded { rocksdb: bool, from_inventory: bool },
}

/// The router a spawn installs.
#[derive(Debug)]
pub struct RouterPlan {
    /// How the router is built.
    pub build: RouterBuild,
    /// Default backend key of the session.
    pub default_key: RouterKey,
    /// Telemetry sink of the row (installed globally when recording).
    pub telemetry: TelemetryAdapter,
    /// Whether the shared backend is wrapped in instrumentation.
    pub wrap_backend: bool,
}

/// Engine of the backend a storage adapter builds.
pub open spec fn engine_of(storage: StorageAdapter) -> EngineId {
    match storage {
        StorageAdapter::Mem => EngineId::InMemory,
        StorageAdapter::Sqlite => EngineId::Sqlite,
        StorageAdapter::Postgres => EngineId::Postgres,
        StorageAdapter::MongoDb => EngineId::MongoDb,
        StorageAdapter::IndraDb => EngineId::IndraDb,
        StorageAdapter::Redis => EngineId::Redis,
        StorageAdapter::SurrealMem | StorageAdapter::SurrealRocksdb => EngineId::SurrealDb,
        StorageAdapter::AcmeStub => EngineId::AcmeStub,
    }
}

fn engine_for(storage: StorageAdapter) -> (e: EngineId)
    ensures
        e == engine_of(storage),
{
    match storage {
        StorageAdapter::Mem => EngineId::InMemory,
        StorageAdapter::Sqlite => EngineId::Sqlite,
        StorageAdapter::Postgres => EngineId::Postgres,
        StorageAdapter::MongoDb => EngineId::MongoDb,
        StorageAdapter::IndraDb => EngineId::IndraDb,
        StorageAdapter::Redis => EngineId::Redis,
        StorageAdapter::SurrealMem | StorageAdapter::SurrealRocksdb => EngineId::SurrealDb,
        StorageAdapter::AcmeStub => EngineId::AcmeStub,
    }
}

/// How the router for `storage` is built in a build with `f`, or why it
/// cannot be (the backend is not built in).
pub open spec fn spec_router_build(
    f: BuildFeatures,
    storage: StorageAdapter,
    mode: BootstrapMode,
) -> Result<RouterBuild, Seq<char>> {
    let shared = Ok(RouterBuild::SharedBackend { storage });
    match storage {
        StorageAdapter::Mem => shared,
        StorageAdapter::Sqlite => if f.sqlite {
            shared
        } else {
            Err("enable valence-testkit/sqlite"@)
        },
        StorageAdapter::Postgres => if f.postgres {
            shared
        } else {
            Err("enable valence-testkit/postgres"@)
        },
        StorageAdapter::MongoDb => if f.mongodb {
            shared
        } else {
            Err("enable valence-testkit/mongodb"@)
        },
        StorageAdapter::IndraDb => if f.indradb {
            shared
        } else {
            Err("enable valence-testkit/indradb"@)
        },
        StorageAdapter::Redis => if f.redis {
            shared
        } else {
            Err("enable valence-testkit/redis"@)
        },
        StorageAdapter::SurrealMem => if f.surreal_mem {
            Ok(
                RouterBuild::SurrealEmbedded {
                    rocksdb: false,
                    from_inventory: mode == BootstrapMode::FromInventory,
                },
            )
        } else {
            Err("enable valence-testkit/surreal-mem"@)
        },
        StorageAdapter::SurrealRocksdb => if !f.surreal_mem {
            Err("enable valence-testkit/surreal-mem"@)
        } else if !f.surreal_rocksdb {
            Err("enable valence-testkit/surreal-rocksdb"@)
        } else {
            Ok(
                RouterBuild::SurrealEmbedded {
                    rocksdb: true,
                    from_inventory: mode == BootstrapMode::FromInventory,
                },
            )
        },
        StorageAdapter::AcmeStub => if f.acme_stub {
            shared
        } else {
            Err("enable valence-testkit/acme-stub"@)
        },
    }
}

/// Logical name the default backend key uses when no name is configured.
pub open spec fn default_logical_fallback(storage: StorageAdapter) -> Seq<char> {
    if storage == StorageAdapter::AcmeStub {
        "primary"@
    } else {
        "default"@
    }
}

/// Bootstraps a Valence stack for one matrix row: the configuration part.
///
/// A host installs the router that [`BootstrapSession::spawn_plan`]
/// describes, then records the spawn with [`BootstrapSession::mark_spawned`].
#[derive(Debug)]
pub struct BootstrapSession {
    matrix: MatrixSpec,
    bootstrap_mode: BootstrapMode,
    logical_names: Vec<String>,
    wire_options: Option<WireBackendOptions>,
    default_backend_key: Option<RouterKey>,
    ready: bool,
}

impl BootstrapSession {
    pub closed spec fn spec_matrix(&self) -> MatrixSpec {
        self.matrix
    }

    pub closed spec fn spec_mode(&self) -> BootstrapMode {
        self.bootstrap_mode
    }

    /// The configured logical names.
    pub closed spec fn spec_logical_names(&self) -> Seq<Seq<char>> {
        self.logical_names@.map_values(|s: String| s@)
    }

    pub closed spec fn spec_has_wire_options(&self) -> bool {
        self.wire_options is Some
    }

    pub closed spec fn spec_default_key(&self) -> Option<RouterKey> {
        self.default_backend_key
    }

    pub closed spec fn spec_ready(&self) -> bool {
        self.ready
    }

    /// Create a session for one matrix row (spawn it before use).
    pub fn new(matrix: MatrixSpec) -> (s: Self)
        ensures
            s.spec_matrix() == matrix,
            s.spec_mode() == BootstrapMode::ExplicitLogicalNames,
            s.spec_logical_names() == seq!["default"@],
            !s.spec_has_wire_options(),
            s.spec_default_key() is None,
            !s.spec_ready(),
    {
        let names = vec![owned("default")];
        let s = BootstrapSession {
            matrix,
            bootstrap_mode: BootstrapMode::ExplicitLogicalNames,
            logical_names: names,
            wire_options: None,
            default_backend_key: None,
            ready: false,
        };
        assert(s.spec_logical_names() =~= seq!["default"@]);
        s
    }

    /// Override the logical names (multi-logical scenarios).
    pub fn with_logical_names(self, names: &[&str]) -> (s: Self)
        ensures
            s.spec_logical_names() == name_views(names@),
            s.spec_matrix() == self.spec_matrix(),
            s.spec_mode() == self.spec_mode(),
            s.spec_has_wire_options() == self.spec_has_wire_options(),
            s.spec_default_key() == self.spec_default_key(),
            s.spec_ready() == self.spec_ready(),
    {
        let n = names.len();
        let mut v: Vec<String> = Vec::new();
        let mut i: usize = 0;
        while i < n
            invariant
                n == names@.len(),
                i <= n,
                v@.map_values(|s: String| s@) == name_views(names@).take(i as int),
            decreases n - i,
        {
            let ghost before = v@;
            v.push(owned(names[i]));
            i = i + 1;
            assert(v@.map_values(|s: String| s@) =~= name_views(names@).take(i as int)) by {
                assert(before.map_values(|s: String| s@) =~= name_views(names@).take(i - 1));
            }
        }
        assert(name_views(names@).take(n as int) =~= name_views(names@));
        BootstrapSession {
            matrix: self.matrix,
            bootstrap_mode: self.bootstrap_mode,
            logical_names: v,
            wire_options: self.wire_options,
            default_backend_key: self.default_backend_key,
            ready: self.ready,
        }
    }

    /// Set explicit wire-backend builder options.
    pub fn with_wire_options(self, opts: WireBackendOptions) -> (s: Self)
        ensures
            s.spec_has_wire_options(),
            s.spec_logical_names() == self.spec_logical_names(),
            s.spec_matrix() == self.spec_matrix(),
            s.spec_mode() == self.spec_mode(),
            s.spec_default_key() == self.spec_default_key(),
            s.spec_ready() == self.spec_ready(),
    {
        BootstrapSession {
            matrix: self.matrix,
            bootstrap_mode: self.bootstrap_mode,
            logical_names: self.logical_names,
            wire_options: Some(opts),
            default_backend_key: self.default_backend_key,
            ready: self.ready,
        }
    }

    /// Use schema inventory discovery for the Surreal bootstrap.
    pub fn with_inventory_bootstrap(self) -> (s: Self)
        ensures
            s.spec_mode() == BootstrapMode::FromInventory,
            s.spec_has_wire_options() == self.spec_has_wire_options(),
            s.spec_logical_names() == self.spec_logical_names(),
            s.spec_matrix() == self.spec_matrix(),
            s.spec_default_key() == self.spec_default_key(),
            s.spec_ready() == self.spec_ready(),
    {
        BootstrapSession {
            matrix: self.matrix,
            bootstrap_mode: BootstrapMode::FromInventory,
            logical_names: self.logical_names,
            wire_options: self.wire_options,
            default_backend_key: self.default_backend_key,
            ready: self.ready,
        }
    }

    /// Wire options for remote adapters when set.
    pub fn wire_options(&self) -> (r: Option<&WireBackendOptions>)
        ensures
            r is Some == self.spec_has_wire_options(),
    {
        self.wire_options.as_ref()
    }

    /// Matrix row this session was constructed for.
    pub fn matrix(&self) -> (m: &MatrixSpec)
        ensures
            *m == self.spec_matrix(),
    {
        &self.matrix
    }

    /// How Surreal logical names are registered.
    pub fn bootstrap_mode(&self) -> (m: BootstrapMode)
        ensures
            m == self.spec_mode(),
    {
        self.bootstrap_mode
    }

    /// The configured logical names.
    pub fn logical_names(&self) -> (v: &Vec<String>)
        ensures
            v@.map_values(|s: String| s@) == self.spec_logical_names(),
    {
        &self.logical_names
    }

    /// Whether the spawn completed successfully.
    pub fn is_ready(&self) -> (b: bool)
        ensures
            b == self.spec_ready(),
    {
        self.ready
    }

    /// Default backend key of the session, once spawned.
    pub fn default_backend_key(&self) -> (k: Option<&RouterKey>)
        ensures
            match k {
                Some(key) => self.spec_default_key() == Some(*key),
                None => self.spec_default_key() is None,
            },
    {
        self.default_backend_key.as_ref()
    }

    /// The router a spawn installs for this session in a build with `f`,
    /// or the reason the spawn fails.
    pub open spec fn spec_spawn(self, f: BuildFeatures) -> Result<RouterBuild, Seq<char>> {
        if self.spec_matrix().topology == Topology::RemoteStub {
            Err("remote topology stub — host wiring required"@)
        } else {
            spec_router_build(f, self.spec_matrix().storage, self.spec_mode())
        }
    }

    /// Logical name of the default backend key: the first configured name,
    /// else the storage's fallback.
    pub open spec fn spec_default_logical(self) -> Seq<char> {
        if self.spec_logical_names().len() > 0 {
            self.spec_logical_names()[0]
        } else {
            default_logical_fallback(self.spec_matrix().storage)
        }
    }

    /// Plan the spawn: the router to install and the default backend key,
    /// in a build with `features`.
    pub fn spawn_plan_in(&self, features: &BuildFeatures) -> (r: Result<RouterPlan, String>)
        ensures
            match r {
                Ok(p) => {
                    &&& self.spec_spawn(*features) == Ok::<RouterBuild, Seq<char>>(p.build)
                    &&& key_is(
                        p.default_key,
                        self.spec_default_logical(),
                        engine_of(self.spec_matrix().storage),
                    )
                    &&& p.telemetry == self.spec_matrix().telemetry
                    &&& p.wrap_backend == (p.build is SharedBackend
                        && self.spec_matrix().telemetry == TelemetryAdapter::Recording)
                },
                Err(m) => self.spec_spawn(*features) == Err::<RouterBuild, Seq<char>>(m@),
            },
    {
        if matches!(self.matrix.topology, Topology::RemoteStub) {
            return Err(owned("remote topology stub — host wiring required"));
        }
        let storage = self.matrix.storage;
        let from_inventory = matches!(self.bootstrap_mode, BootstrapMode::FromInventory);
        let shared = RouterBuild::SharedBackend { storage };
        let build = match storage {
            StorageAdapter::Mem => shared,
            StorageAdapter::Sqlite => {
                if !features.sqlite {
                    return Err(owned("enable valence-testkit/sqlite"));
                }
                shared
            },
            StorageAdapter::Postgres => {
                if !features.postgres {
                    return Err(owned("enable valence-testkit/postgres"));
                }
                shared
            },
            StorageAdapter::MongoDb => {
                if !features.mongodb {
                    return Err(owned("enable valence-testkit/mongodb"));
                }
                shared
            },
            StorageAdapter::IndraDb => {
                if !features.indradb {
                    return Err(owned("enable valence-testkit/indradb"));
                }
                shared
            },
            StorageAdapter::Redis => {
                if !features.redis {
                    return Err(owned("enable valence-testkit/redis"));
                }
                shared
            },
            StorageAdapter::SurrealMem => {
                if !features.surreal_mem {
                    return Err(owned("enable valence-testkit/surreal-mem"));
                }
                RouterBuild::SurrealEmbedded { rocksdb: false, from_inventory }
            },
            StorageAdapter::SurrealRocksdb => {
                if !features.surreal_mem {
                    return Err(owned("enable valence-testkit/surreal-mem"));
                }
                if !features.surreal_rocksdb {
                    return Err(owned("enable valence-testkit/surreal-rocksdb"));
                }
                RouterBuild::SurrealEmbedded { rocksdb: true, from_inventory }
            },
            StorageAdapter::AcmeStub => {
                if !features.acme_stub {
                    return Err(owned("enable valence-testkit/acme-stub"));
                }
                shared
            },
        };
        let logical = if self.logical_names.len() > 0 {
            let first: &String = &self.logical_names[0];
            proof {
                assert(self.spec_logical_names()[0] == first@);
            }
            first.clone()
        } else if matches!(storage, StorageAdapter::AcmeStub) {
            owned("primary")
        } else {
            owned("default")
        };
        let default_key = RouterKey { logical, engine: engine_for(storage) };
        let wrap_backend = matches!(build, RouterBuild::SharedBackend { .. }) && matches!(
            self.matrix.telemetry,
            TelemetryAdapter::Recording
        );
        Ok(RouterPlan { build, default_key, telemetry: self.matrix.telemetry, wrap_backend })
    }

    /// Plan the spawn in the current build.
    pub fn spawn_plan(&self) -> (r: Result<RouterPlan, String>)
        ensures
            match r {
                Ok(p) => {
                    &&& self.spec_spawn(BuildFeatures::spec_current()) == Ok::<
                        RouterBuild,
                        Seq<char>,
                    >(p.build)
                    &&& key_is(
                        p.default_key,
                        self.spec_default_logical(),
                        engine_of(self.spec_matrix().storage),
                    )
                    &&& p.telemetry == self.spec_matrix().telemetry
                    &&& p.wrap_backend == (p.build is SharedBackend
                        && self.spec_matrix().telemetry == TelemetryAdapter::Recording)
                },
                Err(m) => self.spec_spawn(BuildFeatures::spec_current()) == Err::<
                    RouterBuild,
                    Seq<char>,
                >(m@),
            },
    {
        let f = BuildFeatures::current();
        self.spawn_plan_in(&f)
    }

    /// Record a completed spawn with its default backend key.
    pub fn mark_spawned(&mut self, default_key: RouterKey)
        ensures
            final(self).spec_ready(),
            final(self).spec_default_key() == Some(default_key),
            final(self).spec_matrix() == old(self).spec_matrix(),
            final(self).spec_mode() == old(self).spec_mode(),
            final(self).spec_logical_names() == old(self).spec_logical_names(),
            final(self).spec_has_wire_options() == old(self).spec_has_wire_options(),
    {
        self.default_backend_key = Some(default_key);
        self.ready = true;
    }
}

/// The engine a storage adapter's backend registers under is the one its
/// slug names (as the sad-path router key reads it); only the in-memory
/// adapter uses the in-memory engine, and only the two Surreal adapters share
/// an engine.
pub proof fn lemma_engine_of_storage(a: StorageAdapter, b: StorageAdapter)
    ensures
        engine_of(a) == engine_for_storage_slug(a.spec_slug()),
        engine_of(a) == EngineId::InMemory <==> a == StorageAdapter::Mem,
        engine_of(a) == engine_of(b) ==> (a == b || (a == StorageAdapter::SurrealMem || a
            == StorageAdapter::SurrealRocksdb) && (b == StorageAdapter::SurrealMem || b
            == StorageAdapter::SurrealRocksdb)),
{
    reveal_strlit("mem");
    reveal_strlit("sqlite");
    reveal_strlit("postgres");
    reveal_strlit("mongodb");
    reveal_strlit("indradb");
    reveal_strlit("hybrid");
    reveal_strlit("redis");
    reveal_strlit("surreal-mem");
    reveal_strlit("surreal-rocksdb");
    reveal_strlit("acme-stub");
    assert("sqlite"@[0] != "hybrid"@[0]);
    assert("mongodb"@[0] != "indradb"@[0]);
    assert("mem"@.len() == 3 && "sqlite"@.len() == 6 && "postgres"@.len() == 8);
    assert("mongodb"@.len() == 7 && "indradb"@.len() == 7 && "hybrid"@.len() == 6);
    assert("redis"@.len() == 5 && "surreal-mem"@.len() == 11 && "surreal-rocksdb"@.len() == 15);
    assert("acme-stub"@.len() == 9);
    assert("sqlite"@ != "hybrid"@);
    assert("mongodb"@ != "indradb"@);
}

} // verus!
