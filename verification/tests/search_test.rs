use tui_torrent::torrent_search::{rank_by_seeders, TorrentSearchEngine, TorrentSearchResult};

fn hit(name: &str, seeders: u32, source: &str) -> TorrentSearchResult {
    TorrentSearchResult {
        name: name.to_string(),
        size: "1.0 GB".to_string(),
        seeders,
        leechers: seeders / 2,
        magnet_link: format!("magnet:?xt=urn:btih:{}", name),
        source: source.to_string(),
    }
}

fn names(results: &[TorrentSearchResult]) -> Vec<String> {
    results.iter().map(|r| r.name.clone()).collect()
}

#[test]
fn new_engine_settings() {
    let engine = TorrentSearchEngine::new();
    assert_eq!(engine.yts_timeout_secs, 10);
    assert_eq!(engine.piratebay_timeout_secs, 25);
    assert_eq!(engine.yts_limit, 20);
    assert_eq!(engine.max_results, 50);
    let default_engine = TorrentSearchEngine::default();
    assert_eq!(default_engine.max_results, 50);
}

#[test]
fn rank_orders_by_seeders_descending() {
    let ranked = rank_by_seeders(vec![hit("a", 3, "YTS"), hit("b", 10, "YTS"), hit("c", 7, "YTS")]);
    assert_eq!(names(&ranked), vec!["b", "c", "a"]);
}

#[test]
fn rank_keeps_ties_in_order() {
    let ranked = rank_by_seeders(vec![
        hit("a", 5, "YTS"),
        hit("b", 9, "YTS"),
        hit("c", 5, "PirateBay"),
        hit("d", 9, "PirateBay"),
        hit("e", 5, "PirateBay"),
    ]);
    assert_eq!(names(&ranked), vec!["b", "d", "a", "c", "e"]);
}

#[test]
fn rank_empty_and_single() {
    assert!(rank_by_seeders(Vec::new()).is_empty());
    let ranked = rank_by_seeders(vec![hit("only", 0, "YTS")]);
    assert_eq!(names(&ranked), vec!["only"]);
}

#[test]
fn rank_results_merges_both_sources() {
    let engine = TorrentSearchEngine::new();
    let results = engine.rank_results(
        Some(vec![hit("y1", 4, "YTS"), hit("y2", 8, "YTS")]),
        Some(vec![hit("p1", 8, "PirateBay"), hit("p2", 1, "PirateBay")]),
    );
    assert_eq!(names(&results), vec!["y2", "p1", "y1", "p2"]);
}

#[test]
fn rank_results_skips_failed_sources() {
    let engine = TorrentSearchEngine::new();
    let results = engine.rank_results(None, Some(vec![hit("p1", 2, "PirateBay")]));
    assert_eq!(names(&results), vec!["p1"]);
    let results = engine.rank_results(Some(vec![hit("y1", 2, "YTS")]), None);
    assert_eq!(names(&results), vec!["y1"]);
    assert!(engine.rank_results(None, None).is_empty());
}

#[test]
fn rank_results_keeps_fifty_best() {
    let engine = TorrentSearchEngine::new();
    let yts: Vec<TorrentSearchResult> = (0..30).map(|i| hit(&format!("y{}", i), i, "YTS")).collect();
    let pb: Vec<TorrentSearchResult> =
        (0..40).map(|i| hit(&format!("p{}", i), 100 + i, "PirateBay")).collect();
    let results = engine.rank_results(Some(yts), Some(pb));
    assert_eq!(results.len(), 50);
    assert_eq!(results[0].name, "p39");
    assert_eq!(results[39].name, "p0");
    assert_eq!(results[40].name, "y29");
    assert_eq!(results[49].name, "y20");
    for w in results.windows(2) {
        assert!(w[0].seeders >= w[1].seeders);
    }
}

#[test]
fn rank_results_respects_engine_limit() {
    let mut engine = TorrentSearchEngine::new();
    engine.max_results = 2;
    let results = engine.rank_results(
        Some(vec![hit("a", 1, "YTS"), hit("b", 3, "YTS"), hit("c", 2, "YTS")]),
        None,
    );
    assert_eq!(names(&results), vec!["b", "c"]);
}

#[test]
fn ranking_is_a_permutation() {
    let input = vec![hit("a", 2, "YTS"), hit("b", 2, "YTS"), hit("c", 9, "YTS"), hit("a", 2, "YTS")];
    let mut before = names(&input);
    let mut after = names(&rank_by_seeders(input));
    before.sort();
    after.sort();
    assert_eq!(before, after);
}

#[test]
fn ranking_is_unique_for_equal_inputs() {
    let make = || vec![hit("a", 2, "YTS"), hit("b", 7, "YTS"), hit("c", 2, "PirateBay")];
    assert_eq!(names(&rank_by_seeders(make())), names(&rank_by_seeders(make())));
}

#[test]
fn kept_results_come_from_sources() {
    let engine = TorrentSearchEngine::new();
    let results = engine.rank_results(Some(vec![hit("y", 1, "YTS")]), Some(vec![hit("p", 2, "PirateBay")]));
    for r in &results {
        assert!(r.name == "y" || r.name == "p");
    }
    assert_eq!(results[0].source, "PirateBay");
    assert_eq!(results[1].source, "YTS");
}
