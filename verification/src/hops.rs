//! Data-driven hop layout descriptors: which storage engines take part in
//! cross-backend hops, every directed pair of them, and representative
//! depth-3 and depth-4 chains.

use vstd::prelude::*;

use crate::matrix::{
    all_storage_adapters_in, enabled_storage_adapters, extended_store_available_with_wire,
    spec_store_available, BuildFeatures, StorageAdapter, WireBackendOptions,
};
use crate::text::owned;

verus! {

/// Directed pair of storage adapters (depth 2).
#[derive(Debug, Clone, Copy, PartialEq, Eq, Structural, Hash)]
pub struct HopPair {
    pub primary: StorageAdapter,
    pub secondary: StorageAdapter,
}

impl HopPair {
    pub open spec fn spec_slug(self) -> Seq<char> {
        self.primary.spec_slug() + "->"@ + self.secondary.spec_slug()
    }

    /// `primary->secondary`.
    pub fn slug(self) -> (s: String)
        ensures
            s@ == self.spec_slug(),
    {
        let mut s = owned(self.primary.slug());
        s.append("->");
        s.append(self.secondary.slug());
        s
    }
}

/// Ordered triple of storage adapters (depth 3).
#[derive(Debug, Clone, Copy, PartialEq, Eq, Structural, Hash)]
pub struct HopTriple {
    pub a: StorageAdapter,
    pub b: StorageAdapter,
    pub c: StorageAdapter,
}

impl HopTriple {
    pub open spec fn spec_slug(self) -> Seq<char> {
        self.a.spec_slug() + "->"@ + self.b.spec_slug() + "->"@ + self.c.spec_slug()
    }

    /// The three engines pairwise distinct.
    pub open spec fn distinct(self) -> bool {
        self.a != self.b && self.b != self.c && self.a != self.c
    }

    /// `a->b->c`.
    pub fn slug(self) -> (s: String)
        ensures
            s@ == self.spec_slug(),
    {
        let mut s = owned(self.a.slug());
        s.append("->");
        s.append(self.b.slug());
        s.append("->");
        s.append(self.c.slug());
        s
    }
}

/// Ordered quad of storage adapters (depth 4).
#[derive(Debug, Clone, Copy, PartialEq, Eq, Structural, Hash)]
pub struct HopQuad {
    pub a: StorageAdapter,
    pub b: StorageAdapter,
    pub c: StorageAdapter,
    pub d: StorageAdapter,
}

impl HopQuad {
    pub open spec fn spec_slug(self) -> Seq<char> {
        self.a.spec_slug() + "->"@ + self.b.spec_slug() + "->"@ + self.c.spec_slug() + "->"@
            + self.d.spec_slug()
    }

    /// The four engines pairwise distinct.
    pub open spec fn distinct(self) -> bool {
        &&& self.a != self.b
        &&& self.a != self.c
        &&& self.a != self.d
        &&& self.b != self.c
        &&& self.b != self.d
        &&& self.c != self.d
    }

    /// `a->b->c->d`.
    pub fn slug(self) -> (s: String)
        ensures
            s@ == self.spec_slug(),
    {
        let mut s = owned(self.a.slug());
        s.append("->");
        s.append(self.b.slug());
        s.append("->");
        s.append(self.c.slug());
        s.append("->");
        s.append(self.d.slug());
        s
    }
}

/// Engines eligible for hop layouts: every adapter but the acme stub.
pub open spec fn is_hop_engine() -> spec_fn(StorageAdapter) -> bool {
    |s: StorageAdapter| s != StorageAdapter::AcmeStub
}

/// Hop engines of a build with features `f`, in matrix order.
pub open spec fn hop_engines(f: BuildFeatures) -> Seq<StorageAdapter> {
    enabled_storage_adapters(f).filter(is_hop_engine())
}

/// One step of a prefix filter.
pub proof fn lemma_filter_take_step<A>(s: Seq<A>, p: spec_fn(A) -> bool, i: int)
    requires
        0 <= i < s.len(),
    ensures
        s.take(i + 1).filter(p) == (if p(s[i]) {
            s.take(i).filter(p).push(s[i])
        } else {
            s.take(i).filter(p)
        }),
{
    reveal(Seq::filter);
    assert(s.take(i + 1).drop_last() =~= s.take(i));
}

/// Storage adapters eligible for cross-backend hop layouts in the current build.
pub fn hop_storage_engines() -> (out: Vec<StorageAdapter>)
    ensures
        out@ == hop_engines(BuildFeatures::spec_current()),
{
    let f = BuildFeatures::current();
    hop_storage_engines_in(&f)
}

/// Storage adapters eligible for cross-backend hop layouts in a build with `features`.
pub fn hop_storage_engines_in(features: &BuildFeatures) -> (out: Vec<StorageAdapter>)
    ensures
        out@ == hop_engines(*features),
{
    let all = all_storage_adapters_in(features);
    let n = all.len();
    let mut out: Vec<StorageAdapter> = Vec::new();
    let mut i: usize = 0;
    while i < n
        invariant
            n == all@.len(),
            i <= n,
            out@ == all@.take(i as int).filter(is_hop_engine()),
        decreases n - i,
    {
        proof {
            lemma_filter_take_step(all@, is_hop_engine(), i as int);
        }
        if all[i] != StorageAdapter::AcmeStub {
            out.push(all[i]);
        }
        i = i + 1;
    }
    assert(all@.take(n as int) =~= all@);
    out
}

/// Pairs `(p, e[j])` for `j < m` with `e[j] != p`, in order.
pub open spec fn pair_row(e: Seq<StorageAdapter>, p: StorageAdapter, m: nat) -> Seq<HopPair>
    decreases m,
{
    if m == 0 {
        Seq::empty()
    } else {
        let r = pair_row(e, p, (m - 1) as nat);
        if e[m - 1] != p {
            r.push(HopPair { primary: p, secondary: e[m - 1] })
        } else {
            r
        }
    }
}

/// The rows of the first `k` primaries, concatenated.
pub open spec fn pairs_upto(e: Seq<StorageAdapter>, k: nat) -> Seq<HopPair>
    decreases k,
{
    if k == 0 {
        Seq::empty()
    } else {
        pairs_upto(e, (k - 1) as nat) + pair_row(e, e[k - 1], e.len())
    }
}

/// All directed pairs of distinct engines of `e`: primaries in the order of
/// `e`, and for each primary its secondaries in the order of `e`.
pub open spec fn directed_pairs_of(e: Seq<StorageAdapter>) -> Seq<HopPair> {
    pairs_upto(e, e.len())
}

/// All directed pairs `E1 != E2` of hop engines of the current build (the
/// full Cartesian product without the diagonal).
pub fn directed_pairs() -> (out: Vec<HopPair>)
    ensures
        out@ == directed_pairs_of(hop_engines(BuildFeatures::spec_current())),
{
    let f = BuildFeatures::current();
    directed_pairs_in(&f)
}

/// All directed pairs `E1 != E2` of hop engines of a build with `features`.
pub fn directed_pairs_in(features: &BuildFeatures) -> (out: Vec<HopPair>)
    ensures
        out@ == directed_pairs_of(hop_engines(*features)),
{
    let engines = hop_storage_engines_in(features);
    let n = engines.len();
    let mut out: Vec<HopPair> = Vec::new();
    let mut i: usize = 0;
    while i < n
        invariant
            n == engines@.len(),
            i <= n,
            out@ == pairs_upto(engines@, i as nat),
        decreases n - i,
    {
        let primary = engines[i];
        let ghost before = out@;
        let mut j: usize = 0;
        while j < n
            invariant
                n == engines@.len(),
                i < n,
                j <= n,
                primary == engines@[i as int],
                out@ == before + pair_row(engines@, primary, j as nat),
            decreases n - j,
        {
            let secondary = engines[j];
            if primary != secondary {
                out.push(HopPair { primary, secondary });
            }
            j = j + 1;
            assert(out@ =~= before + pair_row(engines@, primary, j as nat));
        }
        i = i + 1;
    }
    out
}

proof fn lemma_pair_row_members(e: Seq<StorageAdapter>, p: StorageAdapter, m: nat, x: HopPair)
    requires
        m <= e.len(),
    ensures
        pair_row(e, p, m).contains(x) <==> (x.primary == p && x.secondary != p && exists|j: int|
            0 <= j < m && e[j] == x.secondary),
    decreases m,
{
    if m > 0 {
        lemma_pair_row_members(e, p, (m - 1) as nat, x);
        let r = pair_row(e, p, (m - 1) as nat);
        if e[m - 1] != p {
            let q = HopPair { primary: p, secondary: e[m - 1] };
            assert(r.push(q).contains(x) <==> (r.contains(x) || x == q)) by {
                if r.push(q).contains(x) {
                    let k = choose|k: int| 0 <= k < r.push(q).len() && r.push(q)[k] == x;
                    if k < r.len() {
                        assert(r[k] == x);
                    }
                }
                if r.contains(x) {
                    let k = choose|k: int| 0 <= k < r.len() && r[k] == x;
                    assert(r.push(q)[k] == x);
                }
                if x == q {
                    assert(r.push(q)[r.len() as int] == x);
                }
            }
        }
        if x.primary == p && x.secondary != p && exists|j: int| 0 <= j < m && e[j] == x.secondary {
            let j = choose|j: int| 0 <= j < m && e[j] == x.secondary;
            if j < m - 1 {
                assert(exists|jj: int| 0 <= jj < m - 1 && e[jj] == x.secondary);
            }
        }
    }
}

proof fn lemma_pairs_upto_members(e: Seq<StorageAdapter>, k: nat, x: HopPair)
    requires
        k <= e.len(),
    ensures
        pairs_upto(e, k).contains(x) <==> (x.primary != x.secondary && (exists|i: int|
            0 <= i < k && e[i] == x.primary) && e.contains(x.secondary)),
    decreases k,
{
    if k > 0 {
        lemma_pairs_upto_members(e, (k - 1) as nat, x);
        let a = pairs_upto(e, (k - 1) as nat);
        let b = pair_row(e, e[k - 1], e.len());
        lemma_pair_row_members(e, e[k - 1], e.len(), x);
        assert((a + b).contains(x) <==> (a.contains(x) || b.contains(x))) by {
            if (a + b).contains(x) {
                let t = choose|t: int| 0 <= t < (a + b).len() && (a + b)[t] == x;
                if t < a.len() {
                    assert(a[t] == x);
                } else {
                    assert(b[t - a.len()] == x);
                }
            }
            if a.contains(x) {
                let t = choose|t: int| 0 <= t < a.len() && a[t] == x;
                assert((a + b)[t] == x);
            }
            if b.contains(x) {
                let t = choose|t: int| 0 <= t < b.len() && b[t] == x;
                assert((a + b)[a.len() + t] == x);
            }
        }
        if exists|i: int| 0 <= i < k && e[i] == x.primary {
            let i = choose|i: int| 0 <= i < k && e[i] == x.primary;
            if i < k - 1 {
                assert(exists|ii: int| 0 <= ii < k - 1 && e[ii] == x.primary);
            }
        }
        if e.contains(x.secondary) {
            let j = choose|j: int| 0 <= j < e.len() && e[j] == x.secondary;
            assert(exists|jj: int| 0 <= jj < e.len() && e[jj] == x.secondary);
        }
        if exists|j: int| 0 <= j < e.len() && e[j] == x.secondary {
            let j = choose|j: int| 0 <= j < e.len() && e[j] == x.secondary;
            assert(e.contains(x.secondary));
        }
    }
}

/// A pair is among the directed pairs of `e` exactly when both of its
/// engines are in `e` and they differ.
pub proof fn lemma_directed_pairs_complete(e: Seq<StorageAdapter>, x: HopPair)
    ensures
        directed_pairs_of(e).contains(x) <==> (e.contains(x.primary) && e.contains(x.secondary)
            && x.primary != x.secondary),
{
    lemma_pairs_upto_members(e, e.len(), x);
    if e.contains(x.primary) {
        let i = choose|i: int| 0 <= i < e.len() && e[i] == x.primary;
        assert(exists|ii: int| 0 <= ii < e.len() && e[ii] == x.primary);
    }
}

/// Depth-3 chains considered for the representative set.
pub open spec fn triple_candidates() -> Seq<HopTriple> {
    seq![
        HopTriple { a: StorageAdapter::Mem, b: StorageAdapter::Sqlite, c: StorageAdapter::SurrealMem },
        HopTriple { a: StorageAdapter::Sqlite, b: StorageAdapter::Mem, c: StorageAdapter::IndraDb },
        HopTriple { a: StorageAdapter::SurrealMem, b: StorageAdapter::Sqlite, c: StorageAdapter::Mem },
        HopTriple { a: StorageAdapter::Mem, b: StorageAdapter::IndraDb, c: StorageAdapter::Sqlite },
        HopTriple { a: StorageAdapter::Postgres, b: StorageAdapter::Sqlite, c: StorageAdapter::Mem },
        HopTriple { a: StorageAdapter::MongoDb, b: StorageAdapter::Mem, c: StorageAdapter::Sqlite },
        HopTriple { a: StorageAdapter::Redis, b: StorageAdapter::Mem, c: StorageAdapter::Sqlite },
        HopTriple { a: StorageAdapter::SurrealRocksdb, b: StorageAdapter::Sqlite, c: StorageAdapter::Mem },
        HopTriple { a: StorageAdapter::IndraDb, b: StorageAdapter::SurrealMem, c: StorageAdapter::Sqlite },
        HopTriple { a: StorageAdapter::Sqlite, b: StorageAdapter::Postgres, c: StorageAdapter::Mem },
        HopTriple { a: StorageAdapter::Mem, b: StorageAdapter::MongoDb, c: StorageAdapter::Redis },
        HopTriple { a: StorageAdapter::SurrealMem, b: StorageAdapter::Mem, c: StorageAdapter::Postgres },
    ]
}

pub open spec fn triple_is_distinct() -> spec_fn(HopTriple) -> bool {
    |t: HopTriple| t.distinct()
}

/// Representative depth-3 chains: the candidates whose engines are pairwise
/// distinct, in candidate order.
pub fn hop_triples_representative() -> (out: Vec<HopTriple>)
    ensures
        out@ == triple_candidates().filter(triple_is_distinct()),
{
    let candidates = vec![
        HopTriple { a: StorageAdapter::Mem, b: StorageAdapter::Sqlite, c: StorageAdapter::SurrealMem },
        HopTriple { a: StorageAdapter::Sqlite, b: StorageAdapter::Mem, c: StorageAdapter::IndraDb },
        HopTriple { a: StorageAdapter::SurrealMem, b: StorageAdapter::Sqlite, c: StorageAdapter::Mem },
        HopTriple { a: StorageAdapter::Mem, b: StorageAdapter::IndraDb, c: StorageAdapter::Sqlite },
        HopTriple { a: StorageAdapter::Postgres, b: StorageAdapter::Sqlite, c: StorageAdapter::Mem },
        HopTriple { a: StorageAdapter::MongoDb, b: StorageAdapter::Mem, c: StorageAdapter::Sqlite },
        HopTriple { a: StorageAdapter::Redis, b: StorageAdapter::Mem, c: StorageAdapter::Sqlite },
        HopTriple { a: StorageAdapter::SurrealRocksdb, b: StorageAdapter::Sqlite, c: StorageAdapter::Mem },
        HopTriple { a: StorageAdapter::IndraDb, b: StorageAdapter::SurrealMem, c: StorageAdapter::Sqlite },
        HopTriple { a: StorageAdapter::Sqlite, b: StorageAdapter::Postgres, c: StorageAdapter::Mem },
        HopTriple { a: StorageAdapter::Mem, b: StorageAdapter::MongoDb, c: StorageAdapter::Redis },
        HopTriple { a: StorageAdapter::SurrealMem, b: StorageAdapter::Mem, c: StorageAdapter::Postgres },
    ];
    assert(candidates@ =~= triple_candidates());
    let n = candidates.len();
    let mut out: Vec<HopTriple> = Vec::new();
    let mut i: usize = 0;
    while i < n
        invariant
            n == candidates@.len(),
            candidates@ == triple_candidates(),
            i <= n,
            out@ == candidates@.take(i as int).filter(triple_is_distinct()),
        decreases n - i,
    {
        proof {
            lemma_filter_take_step(candidates@, triple_is_distinct(), i as int);
        }
        let t = candidates[i];
        if t.a != t.b && t.b != t.c && t.a != t.c {
            out.push(t);
        }
        i = i + 1;
    }
    assert(candidates@.take(n as int) =~= candidates@);
    out
}

/// Depth-4 chains considered for the representative set.
pub open spec fn quad_candidates() -> Seq<HopQuad> {
    seq![
        HopQuad { a: StorageAdapter::Mem, b: StorageAdapter::Sqlite, c: StorageAdapter::SurrealMem, d: StorageAdapter::IndraDb },
        HopQuad { a: StorageAdapter::Sqlite, b: StorageAdapter::Mem, c: StorageAdapter::IndraDb, d: StorageAdapter::SurrealMem },
        HopQuad { a: StorageAdapter::SurrealMem, b: StorageAdapter::Sqlite, c: StorageAdapter::Mem, d: StorageAdapter::IndraDb },
        HopQuad { a: StorageAdapter::Mem, b: StorageAdapter::Sqlite, c: StorageAdapter::Postgres, d: StorageAdapter::Redis },
        HopQuad { a: StorageAdapter::Mem, b: StorageAdapter::Sqlite, c: StorageAdapter::MongoDb, d: StorageAdapter::Redis },
        HopQuad { a: StorageAdapter::Postgres, b: StorageAdapter::Sqlite, c: StorageAdapter::Mem, d: StorageAdapter::SurrealMem },
        HopQuad { a: StorageAdapter::Redis, b: StorageAdapter::Mem, c: StorageAdapter::Sqlite, d: StorageAdapter::IndraDb },
        HopQuad { a: StorageAdapter::SurrealRocksdb, b: StorageAdapter::Sqlite, c: StorageAdapter::Mem, d: StorageAdapter::IndraDb },
    ]
}

pub open spec fn quad_is_distinct() -> spec_fn(HopQuad) -> bool {
    |q: HopQuad| q.distinct()
}

/// Representative depth-4 chains: the candidates whose engines are pairwise
/// distinct, in candidate order.
pub fn hop_quads_representative() -> (out: Vec<HopQuad>)
    ensures
        out@ == quad_candidates().filter(quad_is_distinct()),
{
    let candidates = vec![
        HopQuad { a: StorageAdapter::Mem, b: StorageAdapter::Sqlite, c: StorageAdapter::SurrealMem, d: StorageAdapter::IndraDb },
        HopQuad { a: StorageAdapter::Sqlite, b: StorageAdapter::Mem, c: StorageAdapter::IndraDb, d: StorageAdapter::SurrealMem },
        HopQuad { a: StorageAdapter::SurrealMem, b: StorageAdapter::Sqlite, c: StorageAdapter::Mem, d: StorageAdapter::IndraDb },
        HopQuad { a: StorageAdapter::Mem, b: StorageAdapter::Sqlite, c: StorageAdapter::Postgres, d: StorageAdapter::Redis },
        HopQuad { a: StorageAdapter::Mem, b: StorageAdapter::Sqlite, c: StorageAdapter::MongoDb, d: StorageAdapter::Redis },
        HopQuad { a: StorageAdapter::Postgres, b: StorageAdapter::Sqlite, c: StorageAdapter::Mem, d: StorageAdapter::SurrealMem },
        HopQuad { a: StorageAdapter::Redis, b: StorageAdapter::Mem, c: StorageAdapter::Sqlite, d: StorageAdapter::IndraDb },
        HopQuad { a: StorageAdapter::SurrealRocksdb, b: StorageAdapter::Sqlite, c: StorageAdapter::Mem, d: StorageAdapter::IndraDb },
    ];
    assert(candidates@ =~= quad_candidates());
    let n = candidates.len();
    let mut out: Vec<HopQuad> = Vec::new();
    let mut i: usize = 0;
    while i < n
        invariant
            n == candidates@.len(),
            candidates@ == quad_candidates(),
            i <= n,
            out@ == candidates@.take(i as int).filter(quad_is_distinct()),
        decreases n - i,
    {
        proof {
            lemma_filter_take_step(candidates@, quad_is_distinct(), i as int);
        }
        let q = candidates[i];
        let all_distinct = q.a != q.b && q.a != q.c && q.a != q.d && q.b != q.c && q.b != q.d
            && q.c != q.d;
        if all_distinct {
            out.push(q);
        }
        i = i + 1;
    }
    assert(candidates@.take(n as int) =~= candidates@);
    out
}

/// Whether a hop pair can run in the current build: both engines available
/// and neither is the acme stub.
pub fn pair_available(pair: HopPair, wire: Option<&WireBackendOptions>) -> (b: bool)
    ensures
        b == (spec_store_available(BuildFeatures::spec_current(), pair.primary, false, false)
            && spec_store_available(BuildFeatures::spec_current(), pair.secondary, false, false)
            && pair.primary != StorageAdapter::AcmeStub && pair.secondary
            != StorageAdapter::AcmeStub),
{
    extended_store_available_with_wire(pair.primary, wire) && extended_store_available_with_wire(
        pair.secondary,
        wire,
    ) && pair.primary != StorageAdapter::AcmeStub && pair.secondary != StorageAdapter::AcmeStub
}

/// The hop engines of a build are its enabled adapters other than the acme stub.
pub proof fn lemma_hop_engines_members(f: BuildFeatures, s: StorageAdapter)
    ensures
        hop_engines(f).contains(s) <==> (enabled_storage_adapters(f).contains(s) && s
            != StorageAdapter::AcmeStub),
{
    let e = enabled_storage_adapters(f);
    let r = e.filter(is_hop_engine());
    if r.contains(s) {
        let i = choose|i: int| 0 <= i < r.len() && r[i] == s;
        e.lemma_filter_pred(is_hop_engine(), i);
        e.lemma_filter_contains_rev(is_hop_engine(), s);
    }
    if e.contains(s) && s != StorageAdapter::AcmeStub {
        let i = choose|i: int| 0 <= i < e.len() && e[i] == s;
        e.lemma_filter_contains(is_hop_engine(), i);
    }
}

/// Every representative chain uses pairwise distinct engines.
pub proof fn lemma_representatives_distinct(i: int, j: int)
    ensures
        0 <= i < triple_candidates().filter(triple_is_distinct()).len() ==> triple_candidates().filter(
            triple_is_distinct(),
        )[i].distinct(),
        0 <= j < quad_candidates().filter(quad_is_distinct()).len() ==> quad_candidates().filter(
            quad_is_distinct(),
        )[j].distinct(),
{
    if 0 <= i < triple_candidates().filter(triple_is_distinct()).len() {
        triple_candidates().lemma_filter_pred(triple_is_distinct(), i);
    }
    if 0 <= j < quad_candidates().filter(quad_is_distinct()).len() {
        quad_candidates().lemma_filter_pred(quad_is_distinct(), j);
    }
}

} // verus!
