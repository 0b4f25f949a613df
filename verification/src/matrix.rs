//! Matrix dimensions for Valence end-to-end runs and benches: storage
//! adapter × telemetry sink × deployment topology, and which rows can run.

use vstd::prelude::*;

use crate::text::{
    lemma_normal_form_fixed,
    ascii_lower, ascii_lowercase_chars, chars_equal, chars_of, cli_normal_form, cli_normalize, owned,
};

verus! {

/// Storage adapter under test.
#[derive(Debug, Clone, Copy, PartialEq, Eq, Structural, Hash)]
pub enum StorageAdapter {
    Mem,
    Sqlite,
    Postgres,
    MongoDb,
    IndraDb,
    Redis,
    SurrealMem,
    SurrealRocksdb,
    AcmeStub,
}

/// Optional backend support compiled into a build of the kit.
///
/// Each flag stands for one optional backend integration. The row
/// availability rules of this module are stated for every combination of
/// flags; [`BuildFeatures::current`] is the combination of this build.
#[derive(Debug, Clone, Copy, PartialEq, Eq, Structural)]
pub struct BuildFeatures {
    pub sqlite: bool,
    pub postgres: bool,
    pub mongodb: bool,
    pub indradb: bool,
    pub hybrid: bool,
    pub redis: bool,
    pub surreal_mem: bool,
    pub surreal_rocksdb: bool,
    pub surreal_inventory: bool,
    pub acme_stub: bool,
}

impl BuildFeatures {
    /// This build links no optional storage backend, so every flag is off.
    pub open spec fn spec_current() -> BuildFeatures {
        BuildFeatures {
            sqlite: false,
            postgres: false,
            mongodb: false,
            indradb: false,
            hybrid: false,
            redis: false,
            surreal_mem: false,
            surreal_rocksdb: false,
            surreal_inventory: false,
            acme_stub: false,
        }
    }

    /// The optional backend support of this build.
    pub fn current() -> (f: BuildFeatures)
        ensures
            f == Self::spec_current(),
    {
        BuildFeatures {
            sqlite: false,
            postgres: false,
            mongodb: false,
            indradb: false,
            hybrid: false,
            redis: false,
            surreal_mem: false,
            surreal_rocksdb: false,
            surreal_inventory: false,
            acme_stub: false,
        }
    }
}

impl StorageAdapter {
    /// Stable lower-case name of the adapter.
    pub open spec fn spec_slug(self) -> Seq<char> {
        match self {
            StorageAdapter::Mem => "mem"@,
            StorageAdapter::Sqlite => "sqlite"@,
            StorageAdapter::Postgres => "postgres"@,
            StorageAdapter::MongoDb => "mongodb"@,
            StorageAdapter::IndraDb => "indradb"@,
            StorageAdapter::Redis => "redis"@,
            StorageAdapter::SurrealMem => "surreal-mem"@,
            StorageAdapter::SurrealRocksdb => "surreal-rocksdb"@,
            StorageAdapter::AcmeStub => "acme-stub"@,
        }
    }

    /// Adapter named by a normalized command-line token (aliases included).
    pub open spec fn from_cli_token(t: Seq<char>) -> Option<StorageAdapter> {
        if t == "mem"@ {
            Some(StorageAdapter::Mem)
        } else if t == "sqlite"@ {
            Some(StorageAdapter::Sqlite)
        } else if t == "postgres"@ || t == "postgresql"@ {
            Some(StorageAdapter::Postgres)
        } else if t == "mongodb"@ || t == "mongo"@ {
            Some(StorageAdapter::MongoDb)
        } else if t == "indradb"@ || t == "indra"@ {
            Some(StorageAdapter::IndraDb)
        } else if t == "redis"@ {
            Some(StorageAdapter::Redis)
        } else if t == "surreal-mem"@ || t == "surreal_mem"@ {
            Some(StorageAdapter::SurrealMem)
        } else if t == "surreal-rocksdb"@ || t == "surreal_rocksdb"@ || t == "rocksdb"@ {
            Some(StorageAdapter::SurrealRocksdb)
        } else if t == "acme-stub"@ || t == "acme_stub"@ || t == "acme"@ {
            Some(StorageAdapter::AcmeStub)
        } else {
            None
        }
    }

    /// Stable lower-case name of the adapter.
    pub fn slug(self) -> (s: &'static str)
        ensures
            s@ == self.spec_slug(),
    {
        match self {
            StorageAdapter::Mem => "mem",
            StorageAdapter::Sqlite => "sqlite",
            StorageAdapter::Postgres => "postgres",
            StorageAdapter::MongoDb => "mongodb",
            StorageAdapter::IndraDb => "indradb",
            StorageAdapter::Redis => "redis",
            StorageAdapter::SurrealMem => "surreal-mem",
            StorageAdapter::SurrealRocksdb => "surreal-rocksdb",
            StorageAdapter::AcmeStub => "acme-stub",
        }
    }

    /// Parse a command-line token: surrounding white space is ignored and
    /// ASCII letters match in any case.
    pub fn parse_cli(raw: &str) -> (r: Option<Self>)
        ensures
            r == Self::from_cli_token(cli_normal_form(raw@)),
    {
        let t = cli_normalize(raw);
        if chars_equal(&t, "mem") {
            Some(StorageAdapter::Mem)
        } else if chars_equal(&t, "sqlite") {
            Some(StorageAdapter::Sqlite)
        } else if chars_equal(&t, "postgres") || chars_equal(&t, "postgresql") {
            Some(StorageAdapter::Postgres)
        } else if chars_equal(&t, "mongodb") || chars_equal(&t, "mongo") {
            Some(StorageAdapter::MongoDb)
        } else if chars_equal(&t, "indradb") || chars_equal(&t, "indra") {
            Some(StorageAdapter::IndraDb)
        } else if chars_equal(&t, "redis") {
            Some(StorageAdapter::Redis)
        } else if chars_equal(&t, "surreal-mem") || chars_equal(&t, "surreal_mem") {
            Some(StorageAdapter::SurrealMem)
        } else if chars_equal(&t, "surreal-rocksdb") || chars_equal(&t, "surreal_rocksdb")
            || chars_equal(&t, "rocksdb") {
            Some(StorageAdapter::SurrealRocksdb)
        } else if chars_equal(&t, "acme-stub") || chars_equal(&t, "acme_stub") || chars_equal(
            &t,
            "acme",
        ) {
            Some(StorageAdapter::AcmeStub)
        } else {
            None
        }
    }

    /// Whether generated model CRUD scenarios apply (concrete document/graph backends).
    pub fn supports_model_runtime(self) -> (b: bool)
        ensures
            b == (self != StorageAdapter::AcmeStub),
    {
        !matches!(self, StorageAdapter::AcmeStub)
    }

    /// Whether the admin runtime contract applies (needs a registered query compiler).
    pub fn supports_admin_runtime(self) -> (b: bool)
        ensures
            b == (self != StorageAdapter::AcmeStub),
    {
        !matches!(self, StorageAdapter::AcmeStub)
    }

    /// Whether Surreal-only inventory bootstrap scenarios apply.
    pub fn supports_surreal_inventory(self) -> (b: bool)
        ensures
            b == (self == StorageAdapter::SurrealMem || self == StorageAdapter::SurrealRocksdb),
    {
        matches!(self, StorageAdapter::SurrealMem | StorageAdapter::SurrealRocksdb)
    }
}

/// Cross-backend router layouts for hop contract tests.
#[derive(Debug, Clone, Copy, PartialEq, Eq, Structural, Hash)]
pub enum CrossBackendLayout {
    /// Project on mem, task on sqlite.
    MemSqlite,
    /// Two logical mem backends (default + billing).
    MemMem,
    /// Project on postgres, task on sqlite.
    PostgresSqlite,
    /// Project on postgres, task on mem.
    PostgresMem,
    /// Project on surreal, task on postgres.
    SurrealPostgres,
}

impl CrossBackendLayout {
    pub open spec fn spec_slug(self) -> Seq<char> {
        match self {
            CrossBackendLayout::MemSqlite => "mem-sqlite"@,
            CrossBackendLayout::MemMem => "mem-mem"@,
            CrossBackendLayout::PostgresSqlite => "postgres-sqlite"@,
            CrossBackendLayout::PostgresMem => "postgres-mem"@,
            CrossBackendLayout::SurrealPostgres => "surreal-postgres"@,
        }
    }

    pub fn slug(self) -> (s: &'static str)
        ensures
            s@ == self.spec_slug(),
    {
        match self {
            CrossBackendLayout::MemSqlite => "mem-sqlite",
            CrossBackendLayout::MemMem => "mem-mem",
            CrossBackendLayout::PostgresSqlite => "postgres-sqlite",
            CrossBackendLayout::PostgresMem => "postgres-mem",
            CrossBackendLayout::SurrealPostgres => "surreal-postgres",
        }
    }
}

/// `a` alone when `on`, else nothing.
pub open spec fn gated(on: bool, a: StorageAdapter) -> Seq<StorageAdapter> {
    if on {
        seq![a]
    } else {
        Seq::empty()
    }
}

/// The adapters of a build with the given features, in matrix order: the
/// in-memory adapter, which is always built in, then each feature-gated one
/// that is enabled.
pub open spec fn enabled_storage_adapters(f: BuildFeatures) -> Seq<StorageAdapter> {
    seq![StorageAdapter::Mem] + gated(f.sqlite, StorageAdapter::Sqlite) + gated(
        f.mongodb,
        StorageAdapter::MongoDb,
    ) + gated(f.indradb, StorageAdapter::IndraDb) + gated(f.redis, StorageAdapter::Redis) + gated(
        f.postgres,
        StorageAdapter::Postgres,
    ) + gated(f.surreal_mem, StorageAdapter::SurrealMem) + gated(
        f.surreal_rocksdb,
        StorageAdapter::SurrealRocksdb,
    ) + gated(f.acme_stub, StorageAdapter::AcmeStub)
}

/// Append `a` to `out` when `on`.
fn push_if(out: &mut Vec<StorageAdapter>, on: bool, a: StorageAdapter)
    ensures
        final(out)@ == old(out)@ + gated(on, a),
{
    if on {
        out.push(a);
    }
    assert(out@ =~= old(out)@ + gated(on, a));
}

/// All storage adapters enabled in a build with features `features`.
pub fn all_storage_adapters_in(features: &BuildFeatures) -> (out: Vec<StorageAdapter>)
    ensures
        out@ == enabled_storage_adapters(*features),
{
    let mut out = vec![StorageAdapter::Mem];
    assert(out@ =~= seq![StorageAdapter::Mem]);
    push_if(&mut out, features.sqlite, StorageAdapter::Sqlite);
    push_if(&mut out, features.mongodb, StorageAdapter::MongoDb);
    push_if(&mut out, features.indradb, StorageAdapter::IndraDb);
    push_if(&mut out, features.redis, StorageAdapter::Redis);
    push_if(&mut out, features.postgres, StorageAdapter::Postgres);
    push_if(&mut out, features.surreal_mem, StorageAdapter::SurrealMem);
    push_if(&mut out, features.surreal_rocksdb, StorageAdapter::SurrealRocksdb);
    push_if(&mut out, features.acme_stub, StorageAdapter::AcmeStub);
    out
}

/// All storage adapters enabled in the current build.
pub fn all_storage_adapters() -> (out: Vec<StorageAdapter>)
    ensures
        out@ == enabled_storage_adapters(BuildFeatures::spec_current()),
{
    let f = BuildFeatures::current();
    all_storage_adapters_in(&f)
}

/// Telemetry sink selection.
#[derive(Debug, Clone, Copy, PartialEq, Eq, Structural, Hash)]
pub enum TelemetryAdapter {
    Off,
    Console,
    Recording,
}

impl Default for TelemetryAdapter {
    fn default() -> (r: Self)
        ensures
            r == TelemetryAdapter::Off,
    {
        TelemetryAdapter::Off
    }
}

impl TelemetryAdapter {
    pub open spec fn spec_slug(self) -> Seq<char> {
        match self {
            TelemetryAdapter::Off => "off"@,
            TelemetryAdapter::Console => "console"@,
            TelemetryAdapter::Recording => "recording"@,
        }
    }

    pub open spec fn from_cli_token(t: Seq<char>) -> Option<TelemetryAdapter> {
        if t == "off"@ || t == "0"@ || t == "false"@ {
            Some(TelemetryAdapter::Off)
        } else if t == "console"@ {
            Some(TelemetryAdapter::Console)
        } else if t == "recording"@ || t == "record"@ {
            Some(TelemetryAdapter::Recording)
        } else {
            None
        }
    }

    pub fn slug(self) -> (s: &'static str)
        ensures
            s@ == self.spec_slug(),
    {
        match self {
            TelemetryAdapter::Off => "off",
            TelemetryAdapter::Console => "console",
            TelemetryAdapter::Recording => "recording",
        }
    }

    /// Parse a command-line token (trimmed, ASCII case-insensitive).
    pub fn parse_cli(raw: &str) -> (r: Option<Self>)
        ensures
            r == Self::from_cli_token(cli_normal_form(raw@)),
    {
        let t = cli_normalize(raw);
        if chars_equal(&t, "off") || chars_equal(&t, "0") || chars_equal(&t, "false") {
            Some(TelemetryAdapter::Off)
        } else if chars_equal(&t, "console") {
            Some(TelemetryAdapter::Console)
        } else if chars_equal(&t, "recording") || chars_equal(&t, "record") {
            Some(TelemetryAdapter::Recording)
        } else {
            None
        }
    }
}

/// Deployment topology (embedded vs remote).
#[derive(Debug, Clone, Copy, PartialEq, Eq, Structural, Hash)]
pub enum Topology {
    Embedded,
    RemoteStub,
}

impl Default for Topology {
    fn default() -> (r: Self)
        ensures
            r == Topology::Embedded,
    {
        Topology::Embedded
    }
}

impl Topology {
    pub open spec fn spec_slug(self) -> Seq<char> {
        match self {
            Topology::Embedded => "embedded"@,
            Topology::RemoteStub => "remote-stub"@,
        }
    }

    pub open spec fn from_cli_token(t: Seq<char>) -> Option<Topology> {
        if t == "embedded"@ {
            Some(Topology::Embedded)
        } else if t == "remote-stub"@ || t == "remote_stub"@ || t == "remote"@ {
            Some(Topology::RemoteStub)
        } else {
            None
        }
    }

    pub fn slug(self) -> (s: &'static str)
        ensures
            s@ == self.spec_slug(),
    {
        match self {
            Topology::Embedded => "embedded",
            Topology::RemoteStub => "remote-stub",
        }
    }

    /// Parse a command-line token (trimmed, ASCII case-insensitive).
    pub fn parse_cli(raw: &str) -> (r: Option<Self>)
        ensures
            r == Self::from_cli_token(cli_normal_form(raw@)),
    {
        let t = cli_normalize(raw);
        if chars_equal(&t, "embedded") {
            Some(Topology::Embedded)
        } else if chars_equal(&t, "remote-stub") || chars_equal(&t, "remote_stub") || chars_equal(
            &t,
            "remote",
        ) {
            Some(Topology::RemoteStub)
        } else {
            None
        }
    }
}

/// One matrix row: storage × telemetry × topology.
#[derive(Debug, Clone, Copy, PartialEq, Eq, Structural, Hash)]
pub struct MatrixSpec {
    pub storage: StorageAdapter,
    pub telemetry: TelemetryAdapter,
    pub topology: Topology,
}

impl Default for MatrixSpec {
    fn default() -> (r: Self)
        ensures
            r == MatrixSpec::spec_ci_mem_embedded(),
    {
        MatrixSpec {
            storage: StorageAdapter::Mem,
            telemetry: TelemetryAdapter::Off,
            topology: Topology::Embedded,
        }
    }
}

impl MatrixSpec {
    pub open spec fn spec_ci_mem_embedded() -> MatrixSpec {
        MatrixSpec {
            storage: StorageAdapter::Mem,
            telemetry: TelemetryAdapter::Off,
            topology: Topology::Embedded,
        }
    }

    /// `storage_telemetry_topology`, each part by its slug.
    pub open spec fn spec_slug(self) -> Seq<char> {
        self.storage.spec_slug() + "_"@ + self.telemetry.spec_slug() + "_"@
            + self.topology.spec_slug()
    }

    pub fn ci_mem_embedded() -> (r: Self)
        ensures
            r == Self::spec_ci_mem_embedded(),
    {
        MatrixSpec {
            storage: StorageAdapter::Mem,
            telemetry: TelemetryAdapter::Off,
            topology: Topology::Embedded,
        }
    }

    pub fn ci_surreal_mem_embedded() -> (r: Self)
        ensures
            r == (MatrixSpec {
                storage: StorageAdapter::SurrealMem,
                telemetry: TelemetryAdapter::Off,
                topology: Topology::Embedded,
            }),
    {
        MatrixSpec {
            storage: StorageAdapter::SurrealMem,
            telemetry: TelemetryAdapter::Off,
            topology: Topology::Embedded,
        }
    }

    pub fn ci_acme_stub_embedded() -> (r: Self)
        ensures
            r == (MatrixSpec {
                storage: StorageAdapter::AcmeStub,
                telemetry: TelemetryAdapter::Off,
                topology: Topology::Embedded,
            }),
    {
        MatrixSpec {
            storage: StorageAdapter::AcmeStub,
            telemetry: TelemetryAdapter::Off,
            topology: Topology::Embedded,
        }
    }

    /// The row's name, also used as its display form.
    pub fn slug(&self) -> (s: String)
        ensures
            s@ == self.spec_slug(),
    {
        let mut s = owned(self.storage.slug());
        s.append("_");
        s.append(self.telemetry.slug());
        s.append("_");
        s.append(self.topology.slug());
        s
    }
}

/// Builder options for wire (network) adapters.
///
/// This build has no wire adapter integrated, so there is nothing to set;
/// every wire adapter falls back to its environment defaults.
#[derive(Debug, Clone, Copy)]
pub struct WireBackendOptions {}

impl WireBackendOptions {
    /// Empty options.
    pub fn new() -> (r: Self) {
        WireBackendOptions {  }
    }
}

/// Whether a wire backend can be configured for `storage`, where
/// `resolves` reports whether the host resolved the adapter's builder.
pub open spec fn spec_wire_backend_configured(
    f: BuildFeatures,
    storage: StorageAdapter,
    resolves: bool,
) -> bool {
    match storage {
        StorageAdapter::Postgres => f.postgres && resolves,
        StorageAdapter::MongoDb => f.mongodb && resolves,
        StorageAdapter::Redis => f.redis && resolves,
        _ => true,
    }
}

/// Whether a wire backend builder can resolve for `storage` in a build with
/// `features`; `resolves` is the host's resolution of the chosen builder.
pub fn wire_backend_configured_in(
    features: &BuildFeatures,
    storage: StorageAdapter,
    resolves: bool,
) -> (b: bool)
    ensures
        b == spec_wire_backend_configured(*features, storage, resolves),
{
    match storage {
        StorageAdapter::Postgres => features.postgres && resolves,
        StorageAdapter::MongoDb => features.mongodb && resolves,
        StorageAdapter::Redis => features.redis && resolves,
        _ => true,
    }
}

/// Whether a wire backend builder can resolve for this storage adapter.
pub fn wire_backend_configured(storage: StorageAdapter, wire: Option<&WireBackendOptions>) -> (b:
    bool)
    ensures
        b == spec_wire_backend_configured(BuildFeatures::spec_current(), storage, false),
        b == !(storage == StorageAdapter::Postgres || storage == StorageAdapter::MongoDb || storage
            == StorageAdapter::Redis),
{
    let f = BuildFeatures::current();
    wire_backend_configured_in(&f, storage, false)
}

/// Whether the value of the RocksDB opt-in variable switches the opt-in on:
/// `1`, or `true` in any ASCII case.
pub open spec fn spec_rocksdb_opt_in(value: Option<Seq<char>>) -> bool {
    match value {
        Some(v) => v == "1"@ || ascii_lower(v) == "true"@,
        None => false,
    }
}

/// Decides the RocksDB opt-in from the variable's value (`None` when unset).
pub fn rocksdb_opt_in(value: Option<&str>) -> (b: bool)
    ensures
        b == spec_rocksdb_opt_in(
            match value {
                Some(v) => Some(v@),
                None => None,
            },
        ),
{
    match value {
        Some(v) => {
            let cs = chars_of(v);
            if chars_equal(&cs, "1") {
                true
            } else {
                let lower = ascii_lowercase_chars(v);
                chars_equal(&lower, "true")
            }
        },
        None => false,
    }
}

/// Whether a matrix row with `storage` can run: `wire_resolves` is the
/// host's resolution of the wire builder, `rocksdb_opted_in` the RocksDB opt-in.
pub open spec fn spec_store_available(
    f: BuildFeatures,
    storage: StorageAdapter,
    wire_resolves: bool,
    rocksdb_opted_in: bool,
) -> bool {
    match storage {
        StorageAdapter::Mem | StorageAdapter::Sqlite | StorageAdapter::IndraDb
        | StorageAdapter::SurrealMem | StorageAdapter::AcmeStub => true,
        StorageAdapter::MongoDb => f.mongodb && spec_wire_backend_configured(
            f,
            storage,
            wire_resolves,
        ),
        StorageAdapter::Redis => f.redis && spec_wire_backend_configured(f, storage, wire_resolves),
        StorageAdapter::Postgres => f.postgres && spec_wire_backend_configured(
            f,
            storage,
            wire_resolves,
        ),
        StorageAdapter::SurrealRocksdb => f.surreal_rocksdb && rocksdb_opted_in,
    }
}

/// Whether this matrix row can run in a build with `features`.
pub fn extended_store_available_in(
    features: &BuildFeatures,
    storage: StorageAdapter,
    wire_resolves: bool,
    rocksdb_opted_in: bool,
) -> (b: bool)
    ensures
        b == spec_store_available(*features, storage, wire_resolves, rocksdb_opted_in),
{
    match storage {
        StorageAdapter::Mem | StorageAdapter::Sqlite | StorageAdapter::IndraDb
        | StorageAdapter::SurrealMem | StorageAdapter::AcmeStub => true,
        StorageAdapter::MongoDb => features.mongodb && wire_backend_configured_in(
            features,
            storage,
            wire_resolves,
        ),
        StorageAdapter::Redis => features.redis && wire_backend_configured_in(
            features,
            storage,
            wire_resolves,
        ),
        StorageAdapter::Postgres => features.postgres && wire_backend_configured_in(
            features,
            storage,
            wire_resolves,
        ),
        StorageAdapter::SurrealRocksdb => features.surreal_rocksdb && rocksdb_opted_in,
    }
}

/// Whether this matrix row can run in the current build, with the RocksDB
/// opt-in and wire builder resolution off (see
/// [`extended_store_available_with_wire`]).
pub fn extended_store_available(storage: StorageAdapter) -> (b: bool)
    ensures
        b == spec_store_available(BuildFeatures::spec_current(), storage, false, false),
        b == (storage == StorageAdapter::Mem || storage == StorageAdapter::Sqlite || storage
            == StorageAdapter::IndraDb || storage == StorageAdapter::SurrealMem || storage
            == StorageAdapter::AcmeStub),
{
    extended_store_available_with_wire(storage, None)
}

/// Whether this matrix row can run with optional wire builder options.
///
/// This reads no environment: the RocksDB opt-in (the value of
/// `VALENCE_BENCH_ROCKSDB`, see [`rocksdb_opt_in`]) and the host's wire
/// builder resolution count as off here. A host that has them passes them
/// to [`extended_store_available_in`].
pub fn extended_store_available_with_wire(
    storage: StorageAdapter,
    wire: Option<&WireBackendOptions>,
) -> (b: bool)
    ensures
        b == spec_store_available(BuildFeatures::spec_current(), storage, false, false),
{
    let f = BuildFeatures::current();
    extended_store_available_in(&f, storage, false, false)
}

/// Why a row with `storage` cannot run (the message when it is skipped).
pub open spec fn spec_skip_message(f: BuildFeatures, storage: StorageAdapter) -> Seq<char> {
    match storage {
        StorageAdapter::Postgres => if !f.postgres {
            "enable valence-testkit/postgres"@
        } else {
            "configure PostgresBackendBuilder.url() or DATABASE_URL via from_env_defaults"@
        },
        StorageAdapter::MongoDb => if !f.mongodb {
            "enable valence-testkit/mongodb"@
        } else {
            "configure MongoBackendBuilder.uri() or VALENCE_MONGODB_URI via from_env_defaults"@
        },
        StorageAdapter::Redis => if !f.redis {
            "enable valence-testkit/redis"@
        } else {
            "configure RedisBackendBuilder.url() or VALENCE_REDIS_URL via from_env_defaults"@
        },
        StorageAdapter::SurrealRocksdb => "set VALENCE_BENCH_ROCKSDB=1 and enable valence-testkit/surreal-rocksdb"@,
        _ => "storage adapter "@ + storage.spec_slug() + " unavailable"@,
    }
}

/// `None` when the row can run, else `Some` of why it is skipped.
pub open spec fn spec_skip_reason(
    f: BuildFeatures,
    storage: StorageAdapter,
    wire_resolves: bool,
    rocksdb_opted_in: bool,
) -> Option<Seq<char>> {
    if spec_store_available(f, storage, wire_resolves, rocksdb_opted_in) {
        None
    } else {
        Some(spec_skip_message(f, storage))
    }
}

/// The view of an optional string.
pub open spec fn opt_view(s: Option<String>) -> Option<Seq<char>> {
    match s {
        Some(m) => Some(m@),
        None => None,
    }
}

/// Skip reason for a row with `storage` in a build with `features`.
pub fn extended_store_skip_reason_in(
    features: &BuildFeatures,
    storage: StorageAdapter,
    wire_resolves: bool,
    rocksdb_opted_in: bool,
) -> (r: Option<String>)
    ensures
        opt_view(r) == spec_skip_reason(*features, storage, wire_resolves, rocksdb_opted_in),
{
    if extended_store_available_in(features, storage, wire_resolves, rocksdb_opted_in) {
        return None;
    }
    match storage {
        StorageAdapter::Postgres => {
            if !features.postgres {
                Some(owned("enable valence-testkit/postgres"))
            } else {
                Some(
                    owned(
                        "configure PostgresBackendBuilder.url() or DATABASE_URL via from_env_defaults",
                    ),
                )
            }
        },
        StorageAdapter::MongoDb => {
            if !features.mongodb {
                Some(owned("enable valence-testkit/mongodb"))
            } else {
                Some(
                    owned(
                        "configure MongoBackendBuilder.uri() or VALENCE_MONGODB_URI via from_env_defaults",
                    ),
                )
            }
        },
        StorageAdapter::Redis => {
            if !features.redis {
                Some(owned("enable valence-testkit/redis"))
            } else {
                Some(
                    owned(
                        "configure RedisBackendBuilder.url() or VALENCE_REDIS_URL via from_env_defaults",
                    ),
                )
            }
        },
        StorageAdapter::SurrealRocksdb => {
            Some(owned("set VALENCE_BENCH_ROCKSDB=1 and enable valence-testkit/surreal-rocksdb"))
        },
        _ => {
            let mut m = owned("storage adapter ");
            m.append(storage.slug());
            m.append(" unavailable");
            Some(m)
        },
    }
}

/// Skip reason for a row with `storage` in the current build.
pub fn extended_store_skip_reason(storage: StorageAdapter) -> (r: Option<String>)
    ensures
        opt_view(r) == spec_skip_reason(BuildFeatures::spec_current(), storage, false, false),
{
    extended_store_skip_reason_with_wire(storage, None)
}

/// Skip reason for a row with `storage` and optional wire builder options.
pub fn extended_store_skip_reason_with_wire(
    storage: StorageAdapter,
    wire: Option<&WireBackendOptions>,
) -> (r: Option<String>)
    ensures
        opt_view(r) == spec_skip_reason(BuildFeatures::spec_current(), storage, false, false),
{
    let f = BuildFeatures::current();
    extended_store_skip_reason_in(&f, storage, false, false)
}

/// Only embedded rows can run; the remote topology is a stub owned by host wiring.
pub fn topology_available(topology: Topology) -> (b: bool)
    ensures
        b == (topology == Topology::Embedded),
{
    match topology {
        Topology::Embedded => true,
        Topology::RemoteStub => false,
    }
}

/// `None` for a topology that can run, else why it is skipped.
pub fn topology_skip_reason(topology: Topology) -> (r: Option<String>)
    ensures
        opt_view(r) == (if topology == Topology::Embedded {
            None
        } else {
            Some("remote topology owned by host wiring — stub only"@)
        }),
{
    if topology_available(topology) {
        return None;
    }
    Some(owned("remote topology owned by host wiring — stub only"))
}


/// Every storage adapter's slug parses back to that adapter.
pub proof fn lemma_storage_slug_parses_back(a: StorageAdapter)
    ensures
        StorageAdapter::from_cli_token(cli_normal_form(a.spec_slug())) == Some(a),
{
    reveal_strlit("mem");
    reveal_strlit("sqlite");
    reveal_strlit("postgres");
    reveal_strlit("postgresql");
    reveal_strlit("mongodb");
    reveal_strlit("mongo");
    reveal_strlit("indradb");
    reveal_strlit("indra");
    reveal_strlit("redis");
    reveal_strlit("surreal-mem");
    reveal_strlit("surreal_mem");
    reveal_strlit("surreal-rocksdb");
    reveal_strlit("surreal_rocksdb");
    reveal_strlit("rocksdb");
    reveal_strlit("acme-stub");
    reveal_strlit("acme_stub");
    reveal_strlit("acme");
    lemma_normal_form_fixed(a.spec_slug());
}

/// Every telemetry adapter's slug parses back to that adapter.
pub proof fn lemma_telemetry_slug_parses_back(a: TelemetryAdapter)
    ensures
        TelemetryAdapter::from_cli_token(cli_normal_form(a.spec_slug())) == Some(a),
{
    reveal_strlit("off");
    reveal_strlit("0");
    reveal_strlit("false");
    reveal_strlit("console");
    reveal_strlit("recording");
    reveal_strlit("record");
    lemma_normal_form_fixed(a.spec_slug());
}

/// Every topology's slug parses back to that topology.
pub proof fn lemma_topology_slug_parses_back(t: Topology)
    ensures
        Topology::from_cli_token(cli_normal_form(t.spec_slug())) == Some(t),
{
    reveal_strlit("embedded");
    reveal_strlit("remote-stub");
    reveal_strlit("remote_stub");
    reveal_strlit("remote");
    lemma_normal_form_fixed(t.spec_slug());
}

/// A row is skipped with a reason exactly when it cannot run.
pub proof fn lemma_skip_reason_iff_unavailable(
    f: BuildFeatures,
    storage: StorageAdapter,
    wire_resolves: bool,
    rocksdb_opted_in: bool,
)
    ensures
        spec_skip_reason(f, storage, wire_resolves, rocksdb_opted_in) is None
            <==> spec_store_available(f, storage, wire_resolves, rocksdb_opted_in),
{
}


/// `s` holds no `_`.
pub open spec fn no_underscore(s: Seq<char>) -> bool {
    forall|i: int| 0 <= i < s.len() ==> s[i] != '_'
}

/// Joining with `_` parts that hold no `_` can be undone.
proof fn lemma_underscore_split(x1: Seq<char>, y1: Seq<char>, x2: Seq<char>, y2: Seq<char>)
    requires
        no_underscore(x1),
        no_underscore(x2),
        x1 + "_"@ + y1 == x2 + "_"@ + y2,
    ensures
        x1 == x2,
        y1 == y2,
{
    reveal_strlit("_");
    let s = x1 + "_"@ + y1;
    let t = x2 + "_"@ + y2;
    assert(s[x1.len() as int] == '_');
    assert(t[x2.len() as int] == '_');
    if x1.len() < x2.len() {
        assert(t[x1.len() as int] == x2[x1.len() as int]);
    }
    if x2.len() < x1.len() {
        assert(s[x2.len() as int] == x1[x2.len() as int]);
    }
    assert(x1 =~= s.take(x1.len() as int));
    assert(x2 =~= t.take(x2.len() as int));
    assert(y1 =~= s.skip(x1.len() as int + 1));
    assert(y2 =~= t.skip(x2.len() as int + 1));
}

proof fn lemma_component_slugs_plain(m: MatrixSpec)
    ensures
        no_underscore(m.storage.spec_slug()),
        no_underscore(m.telemetry.spec_slug()),
        no_underscore(m.topology.spec_slug()),
{
    reveal_strlit("mem");
    reveal_strlit("sqlite");
    reveal_strlit("postgres");
    reveal_strlit("mongodb");
    reveal_strlit("indradb");
    reveal_strlit("redis");
    reveal_strlit("surreal-mem");
    reveal_strlit("surreal-rocksdb");
    reveal_strlit("acme-stub");
    reveal_strlit("off");
    reveal_strlit("console");
    reveal_strlit("recording");
    reveal_strlit("embedded");
    reveal_strlit("remote-stub");
}

/// Two matrix rows with the same slug are the same row: no component slug
/// holds the `_` that joins them, and each component slug names one value.
pub proof fn lemma_matrix_slug_injective(a: MatrixSpec, b: MatrixSpec)
    requires
        a.spec_slug() == b.spec_slug(),
    ensures
        a == b,
{
    lemma_component_slugs_plain(a);
    lemma_component_slugs_plain(b);
    reveal_strlit("_");
    let ra = a.telemetry.spec_slug() + "_"@ + a.topology.spec_slug();
    let rb = b.telemetry.spec_slug() + "_"@ + b.topology.spec_slug();
    assert(a.spec_slug() =~= a.storage.spec_slug() + "_"@ + ra);
    assert(b.spec_slug() =~= b.storage.spec_slug() + "_"@ + rb);
    lemma_underscore_split(a.storage.spec_slug(), ra, b.storage.spec_slug(), rb);
    lemma_underscore_split(
        a.telemetry.spec_slug(),
        a.topology.spec_slug(),
        b.telemetry.spec_slug(),
        b.topology.spec_slug(),
    );
    lemma_storage_slug_parses_back(a.storage);
    lemma_storage_slug_parses_back(b.storage);
    lemma_telemetry_slug_parses_back(a.telemetry);
    lemma_telemetry_slug_parses_back(b.telemetry);
    lemma_topology_slug_parses_back(a.topology);
    lemma_topology_slug_parses_back(b.topology);
}


/// Whether adapter `s` is built into a build with `f`: the in-memory adapter
/// always, every other one when its feature is on.
pub open spec fn adapter_enabled(f: BuildFeatures, s: StorageAdapter) -> bool {
    match s {
        StorageAdapter::Mem => true,
        StorageAdapter::Sqlite => f.sqlite,
        StorageAdapter::MongoDb => f.mongodb,
        StorageAdapter::IndraDb => f.indradb,
        StorageAdapter::Redis => f.redis,
        StorageAdapter::Postgres => f.postgres,
        StorageAdapter::SurrealMem => f.surreal_mem,
        StorageAdapter::SurrealRocksdb => f.surreal_rocksdb,
        StorageAdapter::AcmeStub => f.acme_stub,
    }
}

proof fn lemma_concat_contains(a: Seq<StorageAdapter>, b: Seq<StorageAdapter>, x: StorageAdapter)
    ensures
        (a + b).contains(x) <==> (a.contains(x) || b.contains(x)),
{
    if (a + b).contains(x) {
        let i = choose|i: int| 0 <= i < (a + b).len() && (a + b)[i] == x;
        if i < a.len() {
            assert(a[i] == x);
        } else {
            assert(b[i - a.len()] == x);
        }
    }
    if a.contains(x) {
        let i = choose|i: int| 0 <= i < a.len() && a[i] == x;
        assert((a + b)[i] == x);
    }
    if b.contains(x) {
        let i = choose|i: int| 0 <= i < b.len() && b[i] == x;
        assert((a + b)[a.len() + i] == x);
    }
}

proof fn lemma_gated_contains(on: bool, a: StorageAdapter, x: StorageAdapter)
    ensures
        gated(on, a).contains(x) <==> (on && x == a),
{
    if on && x == a {
        assert(gated(on, a)[0] == x);
    }
}

/// An adapter is listed for a build exactly when it is built in: the
/// in-memory adapter always, each other adapter when its feature is on.
pub proof fn lemma_enabled_adapters_members(f: BuildFeatures, s: StorageAdapter)
    ensures
        enabled_storage_adapters(f).contains(s) <==> adapter_enabled(f, s),
{
    let p0 = seq![StorageAdapter::Mem];
    let p1 = p0 + gated(f.sqlite, StorageAdapter::Sqlite);
    let p2 = p1 + gated(f.mongodb, StorageAdapter::MongoDb);
    let p3 = p2 + gated(f.indradb, StorageAdapter::IndraDb);
    let p4 = p3 + gated(f.redis, StorageAdapter::Redis);
    let p5 = p4 + gated(f.postgres, StorageAdapter::Postgres);
    let p6 = p5 + gated(f.surreal_mem, StorageAdapter::SurrealMem);
    let p7 = p6 + gated(f.surreal_rocksdb, StorageAdapter::SurrealRocksdb);
    let p8 = p7 + gated(f.acme_stub, StorageAdapter::AcmeStub);
    assert(p8 == enabled_storage_adapters(f));
    if s == StorageAdapter::Mem {
        assert(p0[0] == s);
    } else {
        assert(!p0.contains(s));
    }
    lemma_concat_contains(p0, gated(f.sqlite, StorageAdapter::Sqlite), s);
    lemma_gated_contains(f.sqlite, StorageAdapter::Sqlite, s);
    lemma_concat_contains(p1, gated(f.mongodb, StorageAdapter::MongoDb), s);
    lemma_gated_contains(f.mongodb, StorageAdapter::MongoDb, s);
    lemma_concat_contains(p2, gated(f.indradb, StorageAdapter::IndraDb), s);
    lemma_gated_contains(f.indradb, StorageAdapter::IndraDb, s);
    lemma_concat_contains(p3, gated(f.redis, StorageAdapter::Redis), s);
    lemma_gated_contains(f.redis, StorageAdapter::Redis, s);
    lemma_concat_contains(p4, gated(f.postgres, StorageAdapter::Postgres), s);
    lemma_gated_contains(f.postgres, StorageAdapter::Postgres, s);
    lemma_concat_contains(p5, gated(f.surreal_mem, StorageAdapter::SurrealMem), s);
    lemma_gated_contains(f.surreal_mem, StorageAdapter::SurrealMem, s);
    lemma_concat_contains(p6, gated(f.surreal_rocksdb, StorageAdapter::SurrealRocksdb), s);
    lemma_gated_contains(f.surreal_rocksdb, StorageAdapter::SurrealRocksdb, s);
    lemma_concat_contains(p7, gated(f.acme_stub, StorageAdapter::AcmeStub), s);
    lemma_gated_contains(f.acme_stub, StorageAdapter::AcmeStub, s);
}

} // verus!
