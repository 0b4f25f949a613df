//! Verdicts of wiring, CRUD and model steps on what a host observed:
//! counts, presence, written names, and the order of returned names.
//!
//! Assertion steps check only in correctness mode; in benchmark mode they
//! pass whatever was observed.

use vstd::prelude::*;

use crate::runner::RunMode;
use crate::text::{chars_equal, chars_of, decimal, decimal_string, owned};

verus! {

/// `prefix`, then `n` in decimal.
fn count_tail(prefix: &str, n: usize) -> (m: String)
    ensures
        m@ == prefix@ + decimal(n as nat),
{
    let mut m = owned(prefix);
    let d = decimal_string(n as u64);
    m.append(d.as_str());
    m
}

/// `prefix`, then `n` in decimal, then `suffix`.
fn count_message(prefix: &str, n: usize, suffix: &str) -> (m: String)
    ensures
        m@ == prefix@ + decimal(n as nat) + suffix@,
{
    let mut m = owned(prefix);
    let d = decimal_string(n as u64);
    m.append(d.as_str());
    m.append(suffix);
    m
}

/// The router holds at least `min` registrations.
pub fn router_len_verdict(len: usize, min: usize) -> (r: Result<(), String>)
    ensures
        r is Ok <==> len >= min,
        r matches Err(m) ==> m@ == "router len "@ + decimal(len as nat) + " < min "@ + decimal(
            min as nat,
        ),
{
    if len < min {
        let mut m = count_message("router len ", len, " < min ");
        let d = decimal_string(min as u64);
        m.append(d.as_str());
        return Err(m);
    }
    Ok(())
}

/// A key that must not resolve did not resolve (`rendered` is the key as
/// the router spells it).
pub fn resolve_fails_verdict(resolved: bool, rendered: &str) -> (r: Result<(), String>)
    ensures
        r is Ok <==> !resolved,
        r matches Err(m) ==> m@ == "expected router resolve to fail for key "@ + rendered@,
{
    if resolved {
        let mut m = owned("expected router resolve to fail for key ");
        m.append(rendered);
        return Err(m);
    }
    Ok(())
}

/// A record that must be missing was not found.
pub fn get_missing_verdict(found: bool, table: &str, id: &str) -> (r: Result<(), String>)
    ensures
        r is Ok <==> !found,
        r matches Err(m) ==> m@ == "expected missing record "@ + table@ + ":"@ + id@,
{
    if found {
        let mut m = owned("expected missing record ");
        m.append(table);
        m.append(":");
        m.append(id);
        return Err(m);
    }
    Ok(())
}

/// A read-only query on a missing table returned no rows.
pub fn compiled_query_empty_verdict(mode: RunMode, rows: usize) -> (r: Result<(), String>)
    ensures
        r is Ok <==> (mode == RunMode::Benchmark || rows == 0),
        r matches Err(m) ==> m@ == "expected empty query result, got "@ + decimal(rows as nat)
            + " rows"@,
{
    if mode == RunMode::Correctness && rows > 0 {
        return Err(count_message("expected empty query result, got ", rows, " rows"));
    }
    Ok(())
}

/// Query composition: a join carries the where clauses of both sides, and
/// a union produces or-groups or clauses.
pub fn union_join_verdict(joined_where: usize, union_or_groups: usize, union_where: usize) -> (r:
    Result<(), String>)
    ensures
        joined_where < 2 ==> (r matches Err(m) && m@ == "join_with should combine where clauses"@),
        joined_where >= 2 && union_or_groups == 0 && union_where == 0 ==> (r matches Err(m) && m@
            == "union_with should produce or_groups or clauses"@),
        joined_where >= 2 && (union_or_groups > 0 || union_where > 0) ==> r is Ok,
{
    if joined_where < 2 {
        return Err(owned("join_with should combine where clauses"));
    }
    if union_or_groups == 0 && union_where == 0 {
        return Err(owned("union_with should produce or_groups or clauses"));
    }
    Ok(())
}

/// Which edge probe related two nodes.
#[derive(Debug, Clone, Copy, PartialEq, Eq, Structural)]
pub enum EdgeProbe {
    /// The many-to-many relate step.
    M2m,
    /// The graph edge step.
    Graph,
}

/// Relating two nodes left edge targets behind.
pub fn edge_targets_verdict(mode: RunMode, probe: EdgeProbe, targets: usize) -> (r: Result<
    (),
    String,
>)
    ensures
        r is Ok <==> (mode == RunMode::Benchmark || targets > 0),
        r matches Err(m) ==> m@ == (if probe == EdgeProbe::M2m {
            "expected M2M edge targets after relate"@
        } else {
            "expected graph edge targets after relate"@
        }),
{
    if mode == RunMode::Correctness && targets == 0 {
        return Err(
            match probe {
                EdgeProbe::M2m => owned("expected M2M edge targets after relate"),
                EdgeProbe::Graph => owned("expected graph edge targets after relate"),
            },
        );
    }
    Ok(())
}

/// A model created a moment ago can be read back.
pub fn model_get_verdict(mode: RunMode, found: bool) -> (r: Result<(), String>)
    ensures
        r is Ok <==> (mode == RunMode::Benchmark || found),
        r matches Err(m) ==> m@ == "model get returned none after create"@,
{
    if mode == RunMode::Correctness && !found {
        return Err(owned("model get returned none after create"));
    }
    Ok(())
}

/// Which write of a model's name was checked.
#[derive(Debug, Clone, Copy, PartialEq, Eq, Structural)]
pub enum NameWrite {
    /// `update` to `updated-name`.
    Update,
    /// `upsert` to `upserted`.
    Upsert,
}

/// The name a write sets.
pub open spec fn written_name(w: NameWrite) -> Seq<char> {
    match w {
        NameWrite::Update => "updated-name"@,
        NameWrite::Upsert => "upserted"@,
    }
}

/// After an update or upsert the model carries the written name.
pub fn name_write_verdict(mode: RunMode, write: NameWrite, name: &str) -> (r: Result<(), String>)
    ensures
        r is Ok <==> (mode == RunMode::Benchmark || name@ == written_name(write)),
        r matches Err(m) ==> m@ == (if write == NameWrite::Update {
            "update did not apply name"@
        } else {
            "upsert did not apply name"@
        }),
{
    if mode == RunMode::Benchmark {
        return Ok(());
    }
    let cs = chars_of(name);
    let applied = match write {
        NameWrite::Update => crate::text::chars_equal(&cs, "updated-name"),
        NameWrite::Upsert => crate::text::chars_equal(&cs, "upserted"),
    };
    if !applied {
        return Err(
            match write {
                NameWrite::Update => owned("update did not apply name"),
                NameWrite::Upsert => owned("upsert did not apply name"),
            },
        );
    }
    Ok(())
}

/// An equality filter hit exactly one of the seeded rows.
pub fn filter_hit_verdict(mode: RunMode, hits: usize) -> (r: Result<(), String>)
    ensures
        r is Ok <==> (mode == RunMode::Benchmark || hits == 1),
        r matches Err(m) ==> m@ == "expected 1 filter hit, got "@ + decimal(hits as nat),
{
    if mode == RunMode::Correctness && hits != 1 {
        return Err(count_tail("expected 1 filter hit, got ", hits));
    }
    Ok(())
}

/// An equality filter on a name nobody has hit nothing.
pub fn filter_miss_verdict(mode: RunMode, hits: usize) -> (r: Result<(), String>)
    ensures
        r is Ok <==> (mode == RunMode::Benchmark || hits == 0),
        r matches Err(m) ==> m@ == "expected empty filter miss, got "@ + decimal(hits as nat),
{
    if mode == RunMode::Correctness && hits != 0 {
        return Err(count_tail("expected empty filter miss, got ", hits));
    }
    Ok(())
}

/// A page of limit 2 over three seeded rows holds two rows.
pub fn page_size_verdict(mode: RunMode, len: usize) -> (r: Result<(), String>)
    ensures
        r is Ok <==> (mode == RunMode::Benchmark || len == 2),
        r matches Err(m) ==> m@ == "expected page size 2, got "@ + decimal(len as nat),
{
    if mode == RunMode::Correctness && len != 2 {
        return Err(count_tail("expected page size 2, got ", len));
    }
    Ok(())
}

/// A page far past the last row is empty.
pub fn far_offset_verdict(mode: RunMode, len: usize) -> (r: Result<(), String>)
    ensures
        r is Ok <==> (mode == RunMode::Benchmark || len == 0),
        r matches Err(m) ==> m@ == "expected empty far-offset page, got "@ + decimal(len as nat),
{
    if mode == RunMode::Correctness && len != 0 {
        return Err(count_tail("expected empty far-offset page, got ", len));
    }
    Ok(())
}

/// `a` comes no later than `b` in lexicographic order of code points (the
/// order of `str`): `a` is a prefix of `b`, or at the first position where
/// they differ `a` has the smaller char.
pub open spec fn lex_le(a: Seq<char>, b: Seq<char>) -> bool {
    ||| (a.len() <= b.len() && a == b.take(a.len() as int))
    ||| exists|k: int|
        0 <= k < a.len() && k < b.len() && a.take(k) == b.take(k) && (a[k] as u32) < (
        b[k] as u32)
}

/// Whether `a` comes no later than `b` in lexicographic order.
pub fn chars_lex_le(a: &Vec<char>, b: &Vec<char>) -> (r: bool)
    ensures
        r == lex_le(a@, b@),
{
    let n = a.len();
    let m = b.len();
    let mut i: usize = 0;
    while i < n && i < m && a[i] == b[i]
        invariant
            n == a@.len(),
            m == b@.len(),
            i <= n,
            i <= m,
            forall|j: int| 0 <= j < i ==> a@[j] == b@[j],
        decreases n - i,
    {
        i = i + 1;
    }
    if i == n {
        assert(a@ =~= b@.take(n as int));
        return true;
    }
    if i == m {
        assert forall|k: int|
            0 <= k < a@.len() && k < b@.len() && a@.take(k) == b@.take(k) implies !((
        a@[k] as u32) < (b@[k] as u32)) by {
            assert(a@[k] == b@[k]);
        }
        return false;
    }
    let less = (a[i] as u32) < (b[i] as u32);
    proof {
        assert(a@.take(i as int) =~= b@.take(i as int));
        if !less {
            assert(a@[i as int] != b@[i as int]);
            assert(!(a@.len() <= b@.len() && a@ == b@.take(a@.len() as int))) by {
                if a@.len() <= b@.len() && a@ == b@.take(a@.len() as int) {
                    assert(a@[i as int] == b@.take(a@.len() as int)[i as int]);
                }
            }
            assert forall|k: int|
                0 <= k < a@.len() && k < b@.len() && a@.take(k) == b@.take(k) implies !((
            a@[k] as u32) < (b@[k] as u32)) by {
                if k < i {
                    assert(a@[k] == b@[k]);
                } else if k > i {
                    assert(a@.take(k)[i as int] == b@.take(k)[i as int]);
                }
            }
        }
    }
    less
}

/// `names` is in non-decreasing lexicographic order.
pub open spec fn names_sorted(names: Seq<Seq<char>>) -> bool {
    forall|i: int| 0 <= i < names.len() - 1 ==> lex_le(#[trigger] names[i], names[i + 1])
}

/// Why an ascending order-by check failed.
#[derive(Debug, Clone, Copy, PartialEq, Eq, Structural)]
pub enum OrderIssue {
    /// Fewer than two rows came back.
    TooFew,
    /// The names are not in ascending order.
    Unsorted,
}

/// An ascending order-by over the seeded rows returned at least two rows,
/// in non-decreasing order of their names.
pub fn order_by_verdict(mode: RunMode, names: &Vec<String>) -> (r: Result<(), OrderIssue>)
    ensures
        mode == RunMode::Benchmark ==> r is Ok,
        mode == RunMode::Correctness ==> r == (if names@.len() < 2 {
            Err::<(), OrderIssue>(OrderIssue::TooFew)
        } else if !names_sorted(names@.map_values(|s: String| s@)) {
            Err::<(), OrderIssue>(OrderIssue::Unsorted)
        } else {
            Ok::<(), OrderIssue>(())
        }),
{
    if mode == RunMode::Benchmark {
        return Ok(());
    }
    let n = names.len();
    if n < 2 {
        return Err(OrderIssue::TooFew);
    }
    let ghost views = names@.map_values(|s: String| s@);
    let mut i: usize = 0;
    while i + 1 < n
        invariant
            n == names@.len(),
            n >= 2,
            i + 1 <= n,
            mode == RunMode::Correctness,
            views == names@.map_values(|s: String| s@),
            forall|j: int| 0 <= j < i ==> lex_le(#[trigger] views[j], views[j + 1]),
        decreases n - i,
    {
        let x = chars_of(names[i].as_str());
        let y = chars_of(names[i + 1].as_str());
        if !chars_lex_le(&x, &y) {
            assert(!lex_le(views[i as int], views[i + 1]));
            return Err(OrderIssue::Unsorted);
        }
        i = i + 1;
    }
    Ok(())
}

/// The view of an optional string slice.
pub open spec fn opt_str_view(v: Option<&str>) -> Option<Seq<char>> {
    match v {
        Some(s) => Some(s@),
        None => None,
    }
}

/// What `format!("{:?}", v)` writes for an optional string slice whose
/// view is `v` (std's `Debug` of `Option<&str>`).
pub uninterp spec fn option_str_debug(v: Option<Seq<char>>) -> Seq<char>;

/// Calls std's `Debug` formatting of `Option<&str>` (`format!("{:?}", v)`).
/// Trusted: the text it returns is `option_str_debug` of the argument's
/// view, that is, it depends on the argument alone; what that text is (the
/// quoting and escaping std applies) is not stated.
#[verifier::external_body]
fn debug_option_str(v: Option<&str>) -> (r: String)
    ensures
        r@ == option_str_debug(opt_str_view(v)),
{
    format!("{:?}", v)
}

/// `endpoint <logical>: expected <expect>, got <got>`.
pub fn endpoint_mismatch_message(logical: &str, expect: &str, got: &str) -> (m: String)
    ensures
        m@ == "endpoint "@ + logical@ + ": expected "@ + expect@ + ", got "@ + got@,
{
    let mut m = owned("endpoint ");
    m.append(logical);
    m.append(": expected ");
    m.append(expect);
    m.append(", got ");
    m.append(got);
    m
}

/// The endpoint of `logical` resolved to `expect`; the message shows what
/// it resolved to in `Debug` form.
pub fn endpoint_resolve_verdict(logical: &str, expect: &str, resolved: Option<&str>) -> (r:
    Result<(), String>)
    ensures
        r is Ok <==> opt_str_view(resolved) == Some(expect@),
        r matches Err(m) ==> m@ == "endpoint "@ + logical@ + ": expected "@ + expect@ + ", got "@
            + option_str_debug(opt_str_view(resolved)),
{
    let matches = match resolved {
        Some(u) => {
            let cs = chars_of(u);
            chars_equal(&cs, expect)
        },
        None => false,
    };
    if matches {
        return Ok(());
    }
    let got = debug_option_str(resolved);
    Err(endpoint_mismatch_message(logical, expect, got.as_str()))
}

/// `endpoint <logical>: expected unresolved, got <got>`.
pub fn endpoint_unresolved_message(logical: &str, got: &str) -> (m: String)
    ensures
        m@ == "endpoint "@ + logical@ + ": expected unresolved, got "@ + got@,
{
    let mut m = owned("endpoint ");
    m.append(logical);
    m.append(": expected unresolved, got ");
    m.append(got);
    m
}

/// The endpoint of `logical` did not resolve; the message shows what it
/// resolved to in `Debug` form.
pub fn endpoint_unresolved_verdict(logical: &str, resolved: Option<&str>) -> (r: Result<
    (),
    String,
>)
    ensures
        r is Ok <==> resolved is None,
        r matches Err(m) ==> m@ == "endpoint "@ + logical@ + ": expected unresolved, got "@
            + option_str_debug(opt_str_view(resolved)),
{
    if resolved.is_none() {
        return Ok(());
    }
    let got = debug_option_str(resolved);
    Err(endpoint_unresolved_message(logical, got.as_str()))
}

} // verus!
