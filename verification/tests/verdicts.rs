use valence_testkit::runner::RunMode;
use valence_testkit::verdicts::{
    chars_lex_le, compiled_query_empty_verdict, edge_targets_verdict, far_offset_verdict,
    filter_hit_verdict, filter_miss_verdict, get_missing_verdict, model_get_verdict,
    name_write_verdict, order_by_verdict, page_size_verdict, resolve_fails_verdict,
    router_len_verdict, union_join_verdict, EdgeProbe, NameWrite, OrderIssue,
};

fn chars(s: &str) -> Vec<char> {
    s.chars().collect()
}

fn strings(v: &[&str]) -> Vec<String> {
    v.iter().map(|s| s.to_string()).collect()
}

#[test]
fn router_len_short_names_both_counts() {
    assert_eq!(router_len_verdict(1, 2), Err("router len 1 < min 2".to_string()));
    assert_eq!(router_len_verdict(2, 2), Ok(()));
    assert_eq!(router_len_verdict(12, 3), Ok(()));
}

#[test]
fn resolve_fails_reports_the_key() {
    assert_eq!(resolve_fails_verdict(false, "x@mem"), Ok(()));
    assert_eq!(
        resolve_fails_verdict(true, "nonexistent_logical@mem"),
        Err("expected router resolve to fail for key nonexistent_logical@mem".to_string())
    );
}

#[test]
fn get_missing_names_table_and_id() {
    assert_eq!(get_missing_verdict(false, "t", "1"), Ok(()));
    assert_eq!(
        get_missing_verdict(true, "valence_e2e_missing", "nope"),
        Err("expected missing record valence_e2e_missing:nope".to_string())
    );
}

#[test]
fn compiled_query_empty_only_checked_in_correctness() {
    assert_eq!(compiled_query_empty_verdict(RunMode::Correctness, 0), Ok(()));
    assert_eq!(
        compiled_query_empty_verdict(RunMode::Correctness, 3),
        Err("expected empty query result, got 3 rows".to_string())
    );
    assert_eq!(compiled_query_empty_verdict(RunMode::Benchmark, 3), Ok(()));
}

#[test]
fn union_join_checks_join_first() {
    assert_eq!(
        union_join_verdict(1, 0, 0),
        Err("join_with should combine where clauses".to_string())
    );
    assert_eq!(
        union_join_verdict(2, 0, 0),
        Err("union_with should produce or_groups or clauses".to_string())
    );
    assert_eq!(union_join_verdict(2, 1, 0), Ok(()));
    assert_eq!(union_join_verdict(2, 0, 2), Ok(()));
}

#[test]
fn edge_targets_messages_per_probe() {
    assert_eq!(
        edge_targets_verdict(RunMode::Correctness, EdgeProbe::M2m, 0),
        Err("expected M2M edge targets after relate".to_string())
    );
    assert_eq!(
        edge_targets_verdict(RunMode::Correctness, EdgeProbe::Graph, 0),
        Err("expected graph edge targets after relate".to_string())
    );
    assert_eq!(edge_targets_verdict(RunMode::Correctness, EdgeProbe::Graph, 1), Ok(()));
    assert_eq!(edge_targets_verdict(RunMode::Benchmark, EdgeProbe::M2m, 0), Ok(()));
}

#[test]
fn model_get_and_name_writes() {
    assert_eq!(
        model_get_verdict(RunMode::Correctness, false),
        Err("model get returned none after create".to_string())
    );
    assert_eq!(model_get_verdict(RunMode::Benchmark, false), Ok(()));
    assert_eq!(name_write_verdict(RunMode::Correctness, NameWrite::Update, "updated-name"), Ok(()));
    assert_eq!(
        name_write_verdict(RunMode::Correctness, NameWrite::Update, "upd-upsert"),
        Err("update did not apply name".to_string())
    );
    assert_eq!(name_write_verdict(RunMode::Correctness, NameWrite::Upsert, "upserted"), Ok(()));
    assert_eq!(
        name_write_verdict(RunMode::Correctness, NameWrite::Upsert, "updated-name"),
        Err("upsert did not apply name".to_string())
    );
    assert_eq!(name_write_verdict(RunMode::Benchmark, NameWrite::Upsert, "x"), Ok(()));
}

#[test]
fn count_verdicts_give_exact_messages() {
    assert_eq!(filter_hit_verdict(RunMode::Correctness, 1), Ok(()));
    assert_eq!(
        filter_hit_verdict(RunMode::Correctness, 2),
        Err("expected 1 filter hit, got 2".to_string())
    );
    assert_eq!(
        filter_hit_verdict(RunMode::Correctness, 0),
        Err("expected 1 filter hit, got 0".to_string())
    );
    assert_eq!(
        filter_miss_verdict(RunMode::Correctness, 4),
        Err("expected empty filter miss, got 4".to_string())
    );
    assert_eq!(filter_miss_verdict(RunMode::Correctness, 0), Ok(()));
    assert_eq!(
        page_size_verdict(RunMode::Correctness, 3),
        Err("expected page size 2, got 3".to_string())
    );
    assert_eq!(page_size_verdict(RunMode::Correctness, 2), Ok(()));
    assert_eq!(
        far_offset_verdict(RunMode::Correctness, 10),
        Err("expected empty far-offset page, got 10".to_string())
    );
    assert_eq!(far_offset_verdict(RunMode::Benchmark, 10), Ok(()));
}

#[test]
fn lexicographic_order_of_chars() {
    assert!(chars_lex_le(&chars("alpha"), &chars("zulu")));
    assert!(!chars_lex_le(&chars("zulu"), &chars("alpha")));
    assert!(chars_lex_le(&chars("p0"), &chars("p0")));
    assert!(chars_lex_le(&chars("p"), &chars("p0")));
    assert!(!chars_lex_le(&chars("p0"), &chars("p")));
    assert!(chars_lex_le(&chars(""), &chars("")));
    assert!(chars_lex_le(&chars("Zeta"), &chars("alpha")));
    assert!(chars_lex_le(&chars("z"), &chars("é")));
}

#[test]
fn order_by_verdict_matches_a_sort() {
    let sorted = strings(&["alpha-order", "p0", "zulu-order"]);
    assert_eq!(order_by_verdict(RunMode::Correctness, &sorted), Ok(()));
    let unsorted = strings(&["zulu-order", "alpha-order"]);
    assert_eq!(order_by_verdict(RunMode::Correctness, &unsorted), Err(OrderIssue::Unsorted));
    let one = strings(&["alpha-order"]);
    assert_eq!(order_by_verdict(RunMode::Correctness, &one), Err(OrderIssue::TooFew));
    assert_eq!(order_by_verdict(RunMode::Benchmark, &unsorted), Ok(()));
    let dup = strings(&["a", "a", "b"]);
    assert_eq!(order_by_verdict(RunMode::Correctness, &dup), Ok(()));
    for names in [vec!["b", "a", "c"], vec!["a", "b", "c"], vec!["ab", "a"], vec!["Z", "a"]] {
        let v = strings(&names);
        let mut s = v.clone();
        s.sort();
        let expected = if s == v { Ok(()) } else { Err(OrderIssue::Unsorted) };
        assert_eq!(order_by_verdict(RunMode::Correctness, &v), expected);
    }
}
