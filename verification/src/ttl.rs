//! TTL expectations per storage adapter, and the probes that check them:
//! which probe runs for a storage and capability, what a created row's
//! expiry stamp and presence must be, and when polling for expiry stops.

use vstd::prelude::*;

use crate::matrix::StorageAdapter;
use crate::text::{decimal, decimal_string, owned};

verus! {

/// How a backend honours record time-to-live.
#[derive(Debug, Clone, Copy, PartialEq, Eq, Structural)]
pub enum TtlCapability {
    /// The store expires records itself.
    SupportedNative,
    /// Records are stamped with an expiry and swept later.
    Deferred,
    /// No TTL support.
    Unsupported,
}

/// TTL capability each storage adapter is expected to report.
pub open spec fn spec_expected_ttl_capability(storage: StorageAdapter) -> TtlCapability {
    match storage {
        StorageAdapter::Redis | StorageAdapter::MongoDb => TtlCapability::SupportedNative,
        StorageAdapter::IndraDb | StorageAdapter::AcmeStub => TtlCapability::Unsupported,
        StorageAdapter::Mem | StorageAdapter::Sqlite | StorageAdapter::Postgres
        | StorageAdapter::SurrealMem | StorageAdapter::SurrealRocksdb => TtlCapability::Deferred,
    }
}

/// TTL capability each storage adapter is expected to report.
pub fn expected_ttl_capability(storage: StorageAdapter) -> (c: TtlCapability)
    ensures
        c == spec_expected_ttl_capability(storage),
{
    match storage {
        StorageAdapter::Redis | StorageAdapter::MongoDb => TtlCapability::SupportedNative,
        StorageAdapter::IndraDb | StorageAdapter::AcmeStub => TtlCapability::Unsupported,
        StorageAdapter::Mem | StorageAdapter::Sqlite | StorageAdapter::Postgres
        | StorageAdapter::SurrealMem | StorageAdapter::SurrealRocksdb => TtlCapability::Deferred,
    }
}


/// How the native-or-linger probe checks a freshly created TTL row.
#[derive(Debug, Clone, Copy, PartialEq, Eq, Structural)]
pub enum TtlProbe {
    /// Native expiry by the store (Redis): the row is there at once, then
    /// disappears within the polling budget.
    PresentThenPollAbsent,
    /// Native expiry by index (MongoDB): the row is stamped and the TTL
    /// index exists.
    StampedThenMongoIndex,
    /// No engine expiry: after waiting past the TTL the row is still there,
    /// stamped exactly when the capability is deferred.
    Linger { stamped: bool },
}

/// The probe for `storage` with capability `capability`, or why none applies.
pub open spec fn spec_ttl_probe(storage: StorageAdapter, capability: TtlCapability) -> Option<
    TtlProbe,
> {
    match capability {
        TtlCapability::SupportedNative => if storage == StorageAdapter::Redis {
            Some(TtlProbe::PresentThenPollAbsent)
        } else if storage == StorageAdapter::MongoDb {
            Some(TtlProbe::StampedThenMongoIndex)
        } else {
            None
        },
        TtlCapability::Deferred => Some(TtlProbe::Linger { stamped: true }),
        TtlCapability::Unsupported => Some(TtlProbe::Linger { stamped: false }),
    }
}

/// Which probe checks a TTL row on `storage`, whose backend has `capability`:
/// native expiry is probed on Redis and MongoDB only.
pub fn ttl_probe_plan(storage: StorageAdapter, capability: TtlCapability) -> (r: Result<
    TtlProbe,
    String,
>)
    ensures
        spec_ttl_probe(storage, capability) matches Some(p) ==> r == Ok::<TtlProbe, String>(p),
        spec_ttl_probe(storage, capability) is None ==> (r matches Err(m) && m@
            == "ttl-native-expire not applicable to "@ + storage.spec_slug()),
{
    match capability {
        TtlCapability::SupportedNative => match storage {
            StorageAdapter::Redis => Ok(TtlProbe::PresentThenPollAbsent),
            StorageAdapter::MongoDb => Ok(TtlProbe::StampedThenMongoIndex),
            _ => {
                let mut m = owned("ttl-native-expire not applicable to ");
                m.append(storage.slug());
                Err(m)
            },
        },
        TtlCapability::Deferred => Ok(TtlProbe::Linger { stamped: true }),
        TtlCapability::Unsupported => Ok(TtlProbe::Linger { stamped: false }),
    }
}

/// The created row carries the expiry stamp (field `field`) exactly when
/// `probe` expects one; the Redis probe does not look at the stamp.
pub fn ttl_stamp_verdict(probe: TtlProbe, has_expire_field: bool, field: &str) -> (r: Result<
    (),
    String,
>)
    ensures
        probe == TtlProbe::PresentThenPollAbsent ==> r is Ok,
        probe == TtlProbe::StampedThenMongoIndex ==> (r is Ok <==> has_expire_field),
        probe == (TtlProbe::Linger { stamped: true }) ==> (r is Ok <==> has_expire_field),
        probe == (TtlProbe::Linger { stamped: false }) ==> (r is Ok <==> !has_expire_field),
        r matches Err(m) ==> m@ == (match probe {
            TtlProbe::StampedThenMongoIndex => "mongo create missing "@ + field@,
            TtlProbe::Linger { stamped: true } => "deferred create missing "@ + field@,
            _ => "unsupported backend must not stamp expire field"@,
        }),
{
    match probe {
        TtlProbe::PresentThenPollAbsent => Ok(()),
        TtlProbe::StampedThenMongoIndex => {
            if has_expire_field {
                Ok(())
            } else {
                let mut m = owned("mongo create missing ");
                m.append(field);
                Err(m)
            }
        },
        TtlProbe::Linger { stamped } => {
            if stamped {
                if has_expire_field {
                    Ok(())
                } else {
                    let mut m = owned("deferred create missing ");
                    m.append(field);
                    Err(m)
                }
            } else if has_expire_field {
                Err(owned("unsupported backend must not stamp expire field"))
            } else {
                Ok(())
            }
        },
    }
}

/// The row is present when `probe` looks for it: at once after create for
/// the Redis probe, after waiting past the TTL for the lingering ones. The
/// MongoDB probe does not read the row back.
pub fn ttl_presence_verdict(probe: TtlProbe, present: bool) -> (r: Result<(), String>)
    ensures
        probe == TtlProbe::StampedThenMongoIndex ==> r is Ok,
        probe != TtlProbe::StampedThenMongoIndex ==> (r is Ok <==> present),
        r matches Err(m) ==> m@ == (match probe {
            TtlProbe::PresentThenPollAbsent => "redis row missing immediately after create"@,
            TtlProbe::Linger { stamped: true } =>
                "deferred row deleted by engine after TTL — expected linger without sweeper"@,
            _ => "unsupported row unexpectedly missing after wait"@,
        }),
{
    if present {
        return Ok(());
    }
    match probe {
        TtlProbe::StampedThenMongoIndex => Ok(()),
        TtlProbe::PresentThenPollAbsent => Err(owned("redis row missing immediately after create")),
        TtlProbe::Linger { stamped } => {
            if stamped {
                Err(
                    owned(
                        "deferred row deleted by engine after TTL — expected linger without sweeper",
                    ),
                )
            } else {
                Err(owned("unsupported row unexpectedly missing after wait"))
            }
        },
    }
}

/// What polling for an expired row does next.
#[derive(Debug)]
pub enum PollStep {
    /// The row is gone.
    Done,
    /// The row outlived the budget; the step fails with this message.
    Fail(String),
    /// Read again after waiting `wait_ms` milliseconds.
    Retry { wait_ms: u64 },
}

/// Milliseconds between two reads of a row expected to expire.
pub const POLL_INTERVAL_MS: u64 = 200;

/// One round of polling for row `id` to expire, `elapsed_ms` after polling
/// began with a budget of `budget_secs` seconds: done when the row is gone,
/// failed when it is still present at or past the budget, else read again
/// after [`POLL_INTERVAL_MS`].
pub fn poll_absent_step(elapsed_ms: u64, budget_secs: u64, present: bool, id: &str) -> (r:
    PollStep)
    ensures
        !present ==> r is Done,
        present && elapsed_ms >= budget_secs * 1000 ==> (r matches PollStep::Fail(m) && m@
            == "redis/native row "@ + id@ + " still present after "@ + decimal(
            budget_secs as nat,
        ) + "s"@),
        present && elapsed_ms < budget_secs * 1000 ==> r == (PollStep::Retry {
            wait_ms: POLL_INTERVAL_MS,
        }),
{
    if !present {
        return PollStep::Done;
    }
    if (elapsed_ms as u128) >= (budget_secs as u128) * 1000 {
        let mut m = owned("redis/native row ");
        m.append(id);
        m.append(" still present after ");
        let d = decimal_string(budget_secs);
        m.append(d.as_str());
        m.append("s");
        return PollStep::Fail(m);
    }
    PollStep::Retry { wait_ms: POLL_INTERVAL_MS }
}

/// How the create-only probe checks that writes do not refresh the stamp.
#[derive(Debug, Clone, Copy, PartialEq, Eq, Structural)]
pub enum CreateOnlyProbe {
    /// Redis: update the row, then it must still expire on its first clock.
    UpdateThenPollAbsent,
    /// A merge must keep the stamp the create wrote.
    StampSurvivesMerge,
    /// A full update carrying the stamp must keep it.
    StampSurvivesUpdate,
}

/// Which create-only probe runs on `storage`, whose backend does or does not
/// support merges, or why none applies (storage without TTL support).
pub fn create_only_plan(storage: StorageAdapter, supports_merge: bool) -> (r: Result<
    CreateOnlyProbe,
    String,
>)
    ensures
        spec_expected_ttl_capability(storage) == TtlCapability::Unsupported ==> (r matches Err(m)
            && m@ == "ttl-create-only-no-refresh not applicable to Unsupported"@),
        spec_expected_ttl_capability(storage) != TtlCapability::Unsupported ==> r == Ok::<
            CreateOnlyProbe,
            String,
        >(
            if storage == StorageAdapter::Redis {
                CreateOnlyProbe::UpdateThenPollAbsent
            } else if supports_merge {
                CreateOnlyProbe::StampSurvivesMerge
            } else {
                CreateOnlyProbe::StampSurvivesUpdate
            },
        ),
{
    if expected_ttl_capability(storage) == TtlCapability::Unsupported {
        return Err(owned("ttl-create-only-no-refresh not applicable to Unsupported"));
    }
    if storage == StorageAdapter::Redis {
        Ok(CreateOnlyProbe::UpdateThenPollAbsent)
    } else if supports_merge {
        Ok(CreateOnlyProbe::StampSurvivesMerge)
    } else {
        Ok(CreateOnlyProbe::StampSurvivesUpdate)
    }
}

/// The create stamped the row with field `field`.
pub fn create_stamp_verdict(has_expire_field: bool, field: &str) -> (r: Result<(), String>)
    ensures
        r is Ok <==> has_expire_field,
        r matches Err(m) ==> m@ == "missing "@ + field@ + " after create"@,
{
    if has_expire_field {
        return Ok(());
    }
    let mut m = owned("missing ");
    m.append(field);
    m.append(" after create");
    Err(m)
}

/// After the write of `probe`, the stamp is the one the create wrote.
pub fn stamp_kept_verdict(probe: CreateOnlyProbe, kept: bool) -> (r: Result<(), String>)
    ensures
        probe == CreateOnlyProbe::UpdateThenPollAbsent ==> r is Ok,
        probe != CreateOnlyProbe::UpdateThenPollAbsent ==> (r is Ok <==> kept),
        r matches Err(m) ==> m@ == (if probe == CreateOnlyProbe::StampSurvivesMerge {
            "merge refreshed create-only expire stamp"@
        } else {
            "update changed create-only expire stamp"@
        }),
{
    if kept {
        return Ok(());
    }
    match probe {
        CreateOnlyProbe::UpdateThenPollAbsent => Ok(()),
        CreateOnlyProbe::StampSurvivesMerge => Err(owned("merge refreshed create-only expire stamp")),
        CreateOnlyProbe::StampSurvivesUpdate => Err(owned("update changed create-only expire stamp")),
    }
}

} // verus!
