//! Shared fixtures for scenarios: the factory actor and the sad-path router key.

use vstd::prelude::*;

use crate::scenario::{key_is, ActorSpec, EngineId, RouterKey};
use crate::text::{chars_equal, chars_of, owned};

verus! {

/// The actor of the factory scenario: the system actor of this kit.
pub fn smoke_actor() -> (a: ActorSpec)
    ensures
        a matches ActorSpec::System { operation } && operation@ == "valence-testkit"@,
{
    ActorSpec::System { operation: owned("valence-testkit") }
}

/// Engine an adapter slug stands for (the in-memory engine when unknown).
pub open spec fn engine_for_storage_slug(s: Seq<char>) -> EngineId {
    if s == "sqlite"@ {
        EngineId::Sqlite
    } else if s == "postgres"@ {
        EngineId::Postgres
    } else if s == "mongodb"@ {
        EngineId::MongoDb
    } else if s == "indradb"@ {
        EngineId::IndraDb
    } else if s == "hybrid"@ {
        EngineId::HybridIndraSql
    } else if s == "redis"@ {
        EngineId::Redis
    } else if s == "surreal-mem"@ || s == "surreal-rocksdb"@ {
        EngineId::SurrealDb
    } else if s == "acme-stub"@ {
        EngineId::AcmeStub
    } else {
        EngineId::InMemory
    }
}

/// Invalid router key for the given storage slug (catalog sad path).
///
/// Uses the storage adapter's own engine so the sad path proves that an
/// unregistered logical name fails under the engine actually being tested.
pub fn invalid_router_key(storage_slug: &str) -> (k: RouterKey)
    ensures
        key_is(k, "nonexistent_logical"@, engine_for_storage_slug(storage_slug@)),
{
    let s = chars_of(storage_slug);
    let engine = if chars_equal(&s, "sqlite") {
        EngineId::Sqlite
    } else if chars_equal(&s, "postgres") {
        EngineId::Postgres
    } else if chars_equal(&s, "mongodb") {
        EngineId::MongoDb
    } else if chars_equal(&s, "indradb") {
        EngineId::IndraDb
    } else if chars_equal(&s, "hybrid") {
        EngineId::HybridIndraSql
    } else if chars_equal(&s, "redis") {
        EngineId::Redis
    } else if chars_equal(&s, "surreal-mem") || chars_equal(&s, "surreal-rocksdb") {
        EngineId::SurrealDb
    } else if chars_equal(&s, "acme-stub") {
        EngineId::AcmeStub
    } else {
        EngineId::InMemory
    };
    RouterKey { logical: owned("nonexistent_logical"), engine }
}

} // verus!
