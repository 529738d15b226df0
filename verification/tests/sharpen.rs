use curio::commands::sharpen::{
    duplicate_groups, is_oversized, page_order, stale_proposal_sets, word_count,
};

fn strings(v: &[&str]) -> Vec<String> {
    v.iter().map(|s| s.to_string()).collect()
}

#[test]
fn words_and_size() {
    assert_eq!(word_count("  one two\n three\t"), 3);
    assert_eq!(word_count(""), 0);
    assert!(is_oversized(1801));
    assert!(!is_oversized(1800));
}

#[test]
fn pages_listed_by_title() {
    let titles = strings(&["Zeta", "Alpha", "Mid", "Alpha"]);
    let order = page_order(&titles);
    let listed: Vec<&str> = order.iter().map(|&i| titles[i].as_str()).collect();
    assert_eq!(listed, vec!["Alpha", "Alpha", "Mid", "Zeta"]);
    let mut seen = order.clone();
    seen.sort();
    assert_eq!(seen, vec![0, 1, 2, 3]);
}

#[test]
fn duplicates_grouped_in_first_order() {
    let keys = strings(&["b", "a", "b", "c", "a", "b"]);
    let paths = strings(&["p1", "p2", "p3", "p4", "p5", "p6"]);
    let groups = duplicate_groups(&keys, &paths);
    assert_eq!(groups.len(), 2);
    assert_eq!(groups[0].key, "b");
    assert_eq!(groups[0].paths, strings(&["p1", "p3", "p6"]));
    assert_eq!(groups[1].key, "a");
    assert_eq!(groups[1].paths, strings(&["p2", "p5"]));
    assert!(duplicate_groups(&strings(&["x", "y"]), &strings(&["1", "2"])).is_empty());
}

#[test]
fn oldest_proposal_sets_go() {
    let names = strings(&["20240103.json", "20240101.json", "20240102.json"]);
    assert_eq!(stale_proposal_sets(&names, 1), strings(&["20240101.json", "20240102.json"]));
    assert!(stale_proposal_sets(&names, 20).is_empty());
}
