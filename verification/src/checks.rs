//! Verdicts of scenario steps on what a host observed: telemetry counters,
//! validator and environment-key selection, and TTL expectations.

use vstd::prelude::*;

use crate::matrix::StorageAdapter;
use crate::text::{chars_equal, chars_of, decimal, decimal_string, owned};
use crate::ttl::{expected_ttl_capability, spec_expected_ttl_capability, TtlCapability};

verus! {

/// Sum of a list of counter increments.
pub open spec fn delta_sum(deltas: Seq<u64>) -> int
    decreases deltas.len(),
{
    if deltas.len() == 0 {
        0
    } else {
        delta_sum(deltas.drop_last()) + deltas.last()
    }
}

/// Verdict of a telemetry counter assertion: the increments recorded for
/// counter `name` with label `label_key=label_value` must add up to at
/// least `min_count`.
pub fn telemetry_counter_check(
    name: &str,
    label_key: &str,
    label_value: &str,
    deltas: &Vec<u64>,
    min_count: u64,
) -> (r: Result<(), String>)
    requires
        delta_sum(deltas@) <= u64::MAX,
    ensures
        r is Ok <==> delta_sum(deltas@) >= min_count,
        r matches Err(m) ==> m@ == "counter "@ + name@ + " "@ + label_key@ + "="@ + label_value@
            + " total "@ + decimal(delta_sum(deltas@) as nat) + " < "@ + decimal(min_count as nat),
{
    let n = deltas.len();
    let mut total: u64 = 0;
    let mut i: usize = 0;
    while i < n
        invariant
            n == deltas@.len(),
            i <= n,
            delta_sum(deltas@) <= u64::MAX,
            total == delta_sum(deltas@.take(i as int)),
        decreases n - i,
    {
        proof {
            assert(deltas@.take(i + 1).drop_last() =~= deltas@.take(i as int));
            lemma_delta_sum_prefix(deltas@, i + 1);
        }
        total = total + deltas[i];
        i = i + 1;
    }
    assert(deltas@.take(n as int) =~= deltas@);
    if total < min_count {
        let mut m = owned("counter ");
        m.append(name);
        m.append(" ");
        m.append(label_key);
        m.append("=");
        m.append(label_value);
        m.append(" total ");
        let t = decimal_string(total);
        m.append(t.as_str());
        m.append(" < ");
        let c = decimal_string(min_count);
        m.append(c.as_str());
        return Err(m);
    }
    Ok(())
}

proof fn lemma_delta_sum_prefix(s: Seq<u64>, k: int)
    requires
        0 <= k <= s.len(),
    ensures
        delta_sum(s.take(k)) <= delta_sum(s),
    decreases s.len(),
{
    if k < s.len() {
        lemma_delta_sum_prefix(s.drop_last(), k);
        assert(s.drop_last().take(k) =~= s.take(k));
    } else {
        assert(s.take(k) =~= s);
    }
}

/// Validation helpers a scenario can name.
#[derive(Debug, Clone, Copy, PartialEq, Eq, Structural)]
pub enum Validator {
    /// `email`.
    Email,
    /// `non_empty`.
    NonEmpty,
}

/// The validator a scenario names, or why the name is refused.
pub fn select_validator(name: &str) -> (r: Result<Validator, String>)
    ensures
        name@ == "email"@ ==> r == Ok::<Validator, String>(Validator::Email),
        name@ == "non_empty"@ ==> r == Ok::<Validator, String>(Validator::NonEmpty),
        name@ != "email"@ && name@ != "non_empty"@ ==> (r matches Err(m) && m@
            == "unsupported validator: "@ + name@),
{
    proof {
        reveal_strlit("email");
        reveal_strlit("non_empty");
        assert("email"@.len() == 5);
        assert("non_empty"@.len() == 9);
    }
    let cs = chars_of(name);
    if chars_equal(&cs, "email") {
        Ok(Validator::Email)
    } else if chars_equal(&cs, "non_empty") {
        Ok(Validator::NonEmpty)
    } else {
        let mut m = owned("unsupported validator: ");
        m.append(name);
        Err(m)
    }
}

/// The one environment variable an endpoint scenario may set, or why `key` is refused.
pub fn scenario_env_key(key: &str) -> (r: Result<&'static str, String>)
    ensures
        key@ == "VALENCE_ENDPOINT_DEFAULT"@ ==> (r matches Ok(k) && k@
            == "VALENCE_ENDPOINT_DEFAULT"@),
        key@ != "VALENCE_ENDPOINT_DEFAULT"@ ==> (r matches Err(m) && m@
            == "unsupported env key for scenario: "@ + key@),
{
    let cs = chars_of(key);
    if chars_equal(&cs, "VALENCE_ENDPOINT_DEFAULT") {
        Ok("VALENCE_ENDPOINT_DEFAULT")
    } else {
        let mut m = owned("unsupported env key for scenario: ");
        m.append(key);
        Err(m)
    }
}

impl TtlCapability {
    /// Name of the capability, as its debug form prints it.
    pub open spec fn spec_name(self) -> Seq<char> {
        match self {
            TtlCapability::SupportedNative => "SupportedNative"@,
            TtlCapability::Deferred => "Deferred"@,
            TtlCapability::Unsupported => "Unsupported"@,
        }
    }

    /// Name of the capability, as its debug form prints it.
    pub fn name(self) -> (s: &'static str)
        ensures
            s@ == self.spec_name(),
    {
        match self {
            TtlCapability::SupportedNative => "SupportedNative",
            TtlCapability::Deferred => "Deferred",
            TtlCapability::Unsupported => "Unsupported",
        }
    }
}

/// The backend of `storage` reports the TTL capability it is expected to.
pub fn ttl_capability_check(storage: StorageAdapter, actual: TtlCapability) -> (r: Result<
    TtlCapability,
    String,
>)
    ensures
        actual == spec_expected_ttl_capability(storage) ==> r == Ok::<TtlCapability, String>(
            actual,
        ),
        actual != spec_expected_ttl_capability(storage) ==> (r matches Err(m) && m@
            == "ttl capability mismatch for "@ + storage.spec_slug() + ": expected "@
            + spec_expected_ttl_capability(storage).spec_name() + ", got "@ + actual.spec_name()),
{
    let expected = expected_ttl_capability(storage);
    if actual != expected {
        let mut m = owned("ttl capability mismatch for ");
        m.append(storage.slug());
        m.append(": expected ");
        m.append(expected.name());
        m.append(", got ");
        m.append(actual.name());
        return Err(m);
    }
    Ok(actual)
}

/// The deferred sweep-delete scenario only applies to deferred adapters.
pub fn sweep_delete_applicable(storage: StorageAdapter) -> (r: Result<(), String>)
    ensures
        r is Ok <==> spec_expected_ttl_capability(storage) == TtlCapability::Deferred,
        r matches Err(m) ==> m@ == "ttl-deferred-sweep-delete not applicable to "@
            + storage.spec_slug() + " ("@ + spec_expected_ttl_capability(storage).spec_name()
            + ")"@,
{
    let expected = expected_ttl_capability(storage);
    if expected != TtlCapability::Deferred {
        let mut m = owned("ttl-deferred-sweep-delete not applicable to ");
        m.append(storage.slug());
        m.append(" (");
        m.append(expected.name());
        m.append(")");
        return Err(m);
    }
    Ok(())
}

/// The non-native TTL warning is emitted exactly once by two ensures on
/// the probe table: `before` and `after` are the emit counts around them.
pub fn warn_once_check(storage: StorageAdapter, before: u64, after: u64) -> (r: Result<(), String>)
    ensures
        spec_expected_ttl_capability(storage) == TtlCapability::SupportedNative ==> (r matches Err(
            m,
        ) && m@ == "ttl-non-native-warn not applicable to native adapters"@),
        spec_expected_ttl_capability(storage) != TtlCapability::SupportedNative ==> {
            &&& r is Ok <==> after == before + 1
            &&& after <= before ==> (r matches Err(m) && m@ == "expected non-native TTL warn on "@
                + storage.spec_slug() + " ("@ + spec_expected_ttl_capability(storage).spec_name()
                + ")"@)
            &&& after > before + 1 ==> (r matches Err(m) && m@ == "expected warn-once, got "@
                + decimal((after - before) as nat) + " emits"@)
        },
{
    let expected = expected_ttl_capability(storage);
    if expected == TtlCapability::SupportedNative {
        return Err(owned("ttl-non-native-warn not applicable to native adapters"));
    }
    if after <= before {
        let mut m = owned("expected non-native TTL warn on ");
        m.append(storage.slug());
        m.append(" (");
        m.append(expected.name());
        m.append(")");
        return Err(m);
    }
    if after - before != 1 {
        let mut m = owned("expected warn-once, got ");
        let d = decimal_string(after - before);
        m.append(d.as_str());
        m.append(" emits");
        return Err(m);
    }
    Ok(())
}

} // verus!
