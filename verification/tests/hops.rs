use valence_testkit::hops::{
    directed_pairs, directed_pairs_in, hop_quads_representative, hop_storage_engines,
    hop_storage_engines_in, hop_triples_representative, pair_available, HopPair, HopQuad,
    HopTriple,
};
use valence_testkit::matrix::{BuildFeatures, StorageAdapter};

fn all_features() -> BuildFeatures {
    BuildFeatures {
        sqlite: true,
        postgres: true,
        mongodb: true,
        indradb: true,
        hybrid: true,
        redis: true,
        surreal_mem: true,
        surreal_rocksdb: true,
        surreal_inventory: true,
        acme_stub: true,
    }
}

#[test]
fn hop_engines_exclude_acme() {
    assert_eq!(hop_storage_engines(), vec![StorageAdapter::Mem]);
    let engines = hop_storage_engines_in(&all_features());
    assert!(!engines.contains(&StorageAdapter::AcmeStub));
    assert_eq!(engines.len(), 8);
}

#[test]
fn directed_pairs_cover_every_ordered_distinct_pair() {
    assert!(directed_pairs().is_empty());
    let f = all_features();
    let engines = hop_storage_engines_in(&f);
    let pairs = directed_pairs_in(&f);
    assert_eq!(pairs.len(), engines.len() * (engines.len() - 1));
    for &a in &engines {
        for &b in &engines {
            let p = HopPair { primary: a, secondary: b };
            assert_eq!(pairs.contains(&p), a != b);
        }
    }
    assert_eq!(pairs[0], HopPair { primary: StorageAdapter::Mem, secondary: StorageAdapter::Sqlite });
}

#[test]
fn representative_chains_are_distinct() {
    let triples = hop_triples_representative();
    assert_eq!(triples.len(), 12);
    assert!(triples.iter().all(|t| t.a != t.b && t.b != t.c && t.a != t.c));
    assert_eq!(
        triples[0],
        HopTriple { a: StorageAdapter::Mem, b: StorageAdapter::Sqlite, c: StorageAdapter::SurrealMem }
    );
    let quads = hop_quads_representative();
    assert_eq!(quads.len(), 8);
    assert_eq!(
        quads[7],
        HopQuad {
            a: StorageAdapter::SurrealRocksdb,
            b: StorageAdapter::Sqlite,
            c: StorageAdapter::Mem,
            d: StorageAdapter::IndraDb
        }
    );
}

#[test]
fn hop_slugs() {
    let p = HopPair { primary: StorageAdapter::Mem, secondary: StorageAdapter::Sqlite };
    assert_eq!(p.slug(), "mem->sqlite");
    let t = HopTriple { a: StorageAdapter::Redis, b: StorageAdapter::Mem, c: StorageAdapter::Sqlite };
    assert_eq!(t.slug(), "redis->mem->sqlite");
    let q = HopQuad {
        a: StorageAdapter::Mem,
        b: StorageAdapter::Sqlite,
        c: StorageAdapter::SurrealMem,
        d: StorageAdapter::IndraDb,
    };
    assert_eq!(q.slug(), "mem->sqlite->surreal-mem->indradb");
}

#[test]
fn pair_availability() {
    let ok = HopPair { primary: StorageAdapter::Mem, secondary: StorageAdapter::Sqlite };
    assert!(pair_available(ok, None));
    let acme = HopPair { primary: StorageAdapter::Mem, secondary: StorageAdapter::AcmeStub };
    assert!(!pair_available(acme, None));
    let wire = HopPair { primary: StorageAdapter::Redis, secondary: StorageAdapter::Mem };
    assert!(!pair_available(wire, None));
}
