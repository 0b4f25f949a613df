//! OnDelete planning: the secondary engine of cross-engine OnDelete runs,
//! and the order in which the nodes of a deletion DAG are applied.

use vstd::prelude::*;

use crate::matrix::{spec_store_available, BuildFeatures, StorageAdapter};

verus! {

/// Representative secondary engine for cross-engine OnDelete runs when
/// `primary` is the catalog storage (none for the acme stub).
pub open spec fn spec_cross_engine_secondary(primary: StorageAdapter) -> Option<StorageAdapter> {
    match primary {
        StorageAdapter::Mem => Some(StorageAdapter::Sqlite),
        StorageAdapter::Sqlite => Some(StorageAdapter::Mem),
        StorageAdapter::Postgres | StorageAdapter::MongoDb | StorageAdapter::SurrealMem
        | StorageAdapter::SurrealRocksdb | StorageAdapter::IndraDb => Some(StorageAdapter::Sqlite),
        StorageAdapter::Redis => Some(StorageAdapter::Mem),
        StorageAdapter::AcmeStub => None,
    }
}

/// Representative secondary for OnDelete cross-engine when `primary` is the catalog storage.
pub fn on_delete_cross_engine_secondary(primary: StorageAdapter) -> (r: Option<StorageAdapter>)
    ensures
        r == spec_cross_engine_secondary(primary),
{
    match primary {
        StorageAdapter::Mem => Some(StorageAdapter::Sqlite),
        StorageAdapter::Sqlite => Some(StorageAdapter::Mem),
        StorageAdapter::Postgres | StorageAdapter::MongoDb | StorageAdapter::SurrealMem
        | StorageAdapter::SurrealRocksdb | StorageAdapter::IndraDb => Some(StorageAdapter::Sqlite),
        StorageAdapter::Redis => Some(StorageAdapter::Mem),
        StorageAdapter::AcmeStub => None,
    }
}

/// What the apply order of a deletion DAG node depends on: its depth in the
/// DAG and the wave of its action (0, 1 or 2 for actions that are applied).
#[derive(Debug, Clone, Copy, PartialEq, Eq, Structural)]
pub struct DeletionNodeOrder {
    pub depth: usize,
    pub wave: u8,
}

/// A node is applied when its wave is one of the three apply waves.
pub open spec fn is_applied(n: DeletionNodeOrder) -> bool {
    n.wave <= 2
}

/// Node `x` is applied before node `y`: deeper nodes first, then lower
/// waves, then DAG order.
pub open spec fn applied_before(nodes: Seq<DeletionNodeOrder>, x: int, y: int) -> bool {
    ||| nodes[x].depth > nodes[y].depth
    ||| (nodes[x].depth == nodes[y].depth && nodes[x].wave < nodes[y].wave)
    ||| (nodes[x].depth == nodes[y].depth && nodes[x].wave == nodes[y].wave && x < y)
}

/// `order` is the apply order of `nodes`: it lists each applied node once,
/// no other node, and in `applied_before` order.
pub open spec fn is_apply_order(nodes: Seq<DeletionNodeOrder>, order: Seq<usize>) -> bool {
    &&& forall|k: int|
        #![trigger order[k]]
        0 <= k < order.len() ==> order[k] < nodes.len() && is_applied(nodes[order[k] as int])
    &&& forall|j: int|
        #![trigger nodes[j]]
        0 <= j < nodes.len() && is_applied(nodes[j]) ==> exists|k: int|
            0 <= k < order.len() && order[k] == j
    &&& forall|a: int, b: int|
        #![trigger order[a], order[b]]
        0 <= a < b < order.len() ==> applied_before(nodes, order[a] as int, order[b] as int)
}

/// Node `j` comes before the scan position `(d, w, i)`: the position where
/// depth `d`, wave `w` and index `i` are being looked at.
pub open spec fn before_position(nodes: Seq<DeletionNodeOrder>, j: int, d: int, w: int, i: int) -> bool {
    ||| nodes[j].depth > d
    ||| (nodes[j].depth == d && nodes[j].wave < w)
    ||| (nodes[j].depth == d && nodes[j].wave == w && j < i)
}

/// `out` lists exactly the applied nodes before the scan position, in apply order.
pub open spec fn scanned_upto(
    nodes: Seq<DeletionNodeOrder>,
    out: Seq<usize>,
    d: int,
    w: int,
    i: int,
) -> bool {
    &&& forall|k: int|
        #![trigger out[k]]
        0 <= k < out.len() ==> out[k] < nodes.len() && is_applied(nodes[out[k] as int])
            && before_position(nodes, out[k] as int, d, w, i)
    &&& forall|j: int|
        #![trigger nodes[j]]
        0 <= j < nodes.len() && is_applied(nodes[j]) && before_position(nodes, j, d, w, i)
            ==> exists|k: int| 0 <= k < out.len() && out[k] == j
    &&& forall|a: int, b: int|
        #![trigger out[a], out[b]]
        0 <= a < b < out.len() ==> applied_before(nodes, out[a] as int, out[b] as int)
}

/// Order in which the nodes of a deletion DAG are applied: deepest nodes
/// first, within a depth by wave (0, 1, 2), within a wave in DAG order.
/// Nodes whose wave is not an apply wave are left out. The result holds
/// indices into `nodes`.
pub fn ordered_deletion_nodes(nodes: &Vec<DeletionNodeOrder>) -> (order: Vec<usize>)
    ensures
        is_apply_order(nodes@, order@),
{
    let n = nodes.len();
    let mut max_d: usize = 0;
    let mut m: usize = 0;
    while m < n
        invariant
            n == nodes@.len(),
            m <= n,
            forall|j: int| 0 <= j < m ==> nodes@[j].depth <= max_d,
        decreases n - m,
    {
        if nodes[m].depth > max_d {
            max_d = nodes[m].depth;
        }
        m = m + 1;
    }
    let mut out: Vec<usize> = Vec::new();
    let mut d: usize = max_d;
    loop
        invariant_except_break
            n == nodes@.len(),
            d <= max_d,
            forall|j: int| 0 <= j < n ==> nodes@[j].depth <= max_d,
            scanned_upto(nodes@, out@, d as int, 0, 0),
        ensures
            scanned_upto(nodes@, out@, -1, 0, 0),
        decreases d,
    {
        let mut w: u8 = 0;
        while w <= 2
            invariant
                n == nodes@.len(),
                w <= 3,
                scanned_upto(nodes@, out@, d as int, w as int, 0),
            decreases 3 - w,
        {
            let mut i: usize = 0;
            while i < n
                invariant
                    n == nodes@.len(),
                    w <= 2,
                    i <= n,
                    scanned_upto(nodes@, out@, d as int, w as int, i as int),
                decreases n - i,
            {
                let ghost prev = out@;
                if nodes[i].depth == d && nodes[i].wave == w {
                    out.push(i);
                    proof {
                        assert forall|k: int| #![trigger out@[k]] 0 <= k < out@.len() implies out@[k]
                            < nodes@.len() && is_applied(nodes@[out@[k] as int]) && before_position(
                            nodes@,
                            out@[k] as int,
                            d as int,
                            w as int,
                            i + 1,
                        ) by {
                            if k < prev.len() {
                                assert(out@[k] == prev[k]);
                            }
                        }
                        assert forall|j: int|
                            #![trigger nodes@[j]]
                            0 <= j < nodes@.len() && is_applied(nodes@[j]) && before_position(
                                nodes@,
                                j,
                                d as int,
                                w as int,
                                i + 1,
                            ) implies exists|k: int| 0 <= k < out@.len() && out@[k] == j by {
                            if j == i {
                                assert(out@[prev.len() as int] == j);
                            } else {
                                let k = choose|k: int| 0 <= k < prev.len() && prev[k] == j;
                                assert(out@[k] == j);
                            }
                        }
                        assert forall|a: int, b: int|
                            #![trigger out@[a], out@[b]]
                            0 <= a < b < out@.len() implies applied_before(
                            nodes@,
                            out@[a] as int,
                            out@[b] as int,
                        ) by {
                            assert(out@[a] == prev[a]);
                            if b < prev.len() {
                                assert(out@[b] == prev[b]);
                            } else {
                                assert(before_position(nodes@, prev[a] as int, d as int, w as int, i as int));
                            }
                        }
                    }
                } else {
                    proof {
                        assert forall|j: int|
                            #![trigger nodes@[j]]
                            0 <= j < nodes@.len() && is_applied(nodes@[j]) && before_position(
                                nodes@,
                                j,
                                d as int,
                                w as int,
                                i + 1,
                            ) implies exists|k: int| 0 <= k < out@.len() && out@[k] == j by {
                            assert(before_position(nodes@, j, d as int, w as int, i as int));
                        }
                    }
                }
                i = i + 1;
            }
            proof {
                assert forall|j: int|
                    #![trigger nodes@[j]]
                    0 <= j < nodes@.len() && is_applied(nodes@[j]) && before_position(
                        nodes@,
                        j,
                        d as int,
                        w + 1,
                        0,
                    ) implies exists|k: int| 0 <= k < out@.len() && out@[k] == j by {
                    assert(before_position(nodes@, j, d as int, w as int, n as int));
                }
                assert forall|k: int| #![trigger out@[k]] 0 <= k < out@.len() implies out@[k]
                    < nodes@.len() && is_applied(nodes@[out@[k] as int]) && before_position(
                    nodes@,
                    out@[k] as int,
                    d as int,
                    w + 1,
                    0,
                ) by {
                    assert(before_position(nodes@, out@[k] as int, d as int, w as int, n as int));
                }
            }
            w = w + 1;
        }
        proof {
            assert forall|j: int|
                #![trigger nodes@[j]]
                0 <= j < nodes@.len() && is_applied(nodes@[j]) && before_position(
                    nodes@,
                    j,
                    d - 1,
                    0,
                    0,
                ) implies exists|k: int| 0 <= k < out@.len() && out@[k] == j by {
                assert(before_position(nodes@, j, d as int, 3, 0));
            }
            assert forall|k: int| #![trigger out@[k]] 0 <= k < out@.len() implies out@[k]
                < nodes@.len() && is_applied(nodes@[out@[k] as int]) && before_position(
                nodes@,
                out@[k] as int,
                d - 1,
                0,
                0,
            ) by {
                assert(before_position(nodes@, out@[k] as int, d as int, 3, 0));
            }
        }
        if d == 0 {
            break;
        }
        d = d - 1;
    }
    proof {
        assert forall|j: int|
            #![trigger nodes@[j]]
            0 <= j < nodes@.len() && is_applied(nodes@[j]) implies exists|k: int|
                0 <= k < out@.len() && out@[k] == j by {
            assert(before_position(nodes@, j, -1, 0, 0));
        }
    }
    out
}

/// Every adapter but the acme stub has a cross-engine secondary: a different
/// engine, the in-memory or SQLite one, that can run in every build.
pub proof fn lemma_cross_engine_secondary(primary: StorageAdapter, f: BuildFeatures)
    ensures
        spec_cross_engine_secondary(primary) is Some <==> primary != StorageAdapter::AcmeStub,
        spec_cross_engine_secondary(primary) matches Some(s) ==> {
            &&& s != primary
            &&& (s == StorageAdapter::Mem || s == StorageAdapter::Sqlite)
            &&& spec_store_available(f, s, false, false)
        },
{
}

} // verus!
