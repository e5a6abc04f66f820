use bloody_falcon::config::AppConfig;
use bloody_falcon::config::ProviderCfg;
use bloody_falcon::engine::Engine;
use bloody_falcon::engine::ScanStart;

fn small_config(cache_ttl_secs: u64) -> AppConfig {
    AppConfig {
        providers: vec![
            ProviderCfg { name: "A".to_string(), url: "https://a.example/{username}".to_string() },
            ProviderCfg { name: "B".to_string(), url: "https://b.example/{username}".to_string() },
        ],
        timeout_ms: 4000,
        max_concurrent_scans: 2,
        cache_ttl_secs,
    }
}

/// Runs one full scan, probing both providers with the given statuses.
fn run_scan(engine: &mut Engine, username: &str, use_cache: bool, now_ms: u64, statuses: &[u16]) -> (usize, Vec<String>) {
    let mut session = match engine.begin_scan(username, use_cache, now_ms) {
        ScanStart::Fresh(session) => session,
        ScanStart::Cached(_) => panic!("expected a fresh session"),
    };
    let mut probes = 0usize;
    for status in statuses {
        session.start_attempt();
        session.record_response(*status);
        probes += 1;
    }
    assert!(session.is_done());
    assert_eq!(probes, statuses.len());
    let result = engine.finish_scan(username, &session, use_cache, now_ms);
    (result.hits, result.platforms)
}

#[test]
fn second_scan_within_ttl_is_answered_from_the_cache() {
    let mut engine = Engine::new(small_config(900)).unwrap();
    let (hits, platforms) = run_scan(&mut engine, "alice", true, 0, &[200, 404]);
    assert_eq!(hits, 1);

    // Within the TTL the scan is a pure read: no session, no probes.
    match engine.begin_scan("alice", true, 1_000) {
        ScanStart::Cached(result) => {
            assert_eq!(result.hits, hits);
            assert_eq!(result.platforms, platforms);
            assert!(result.emails.is_empty());
        }
        ScanStart::Fresh(_) => panic!("expected the cached result"),
    }
}

#[test]
fn scan_after_ttl_probes_afresh() {
    // TTL of one second: valid at half a second, expired at one and a half.
    let mut engine = Engine::new(small_config(1)).unwrap();
    let (hits, _) = run_scan(&mut engine, "bob", true, 0, &[200, 200]);
    assert_eq!(hits, 2);

    match engine.begin_scan("bob", true, 500) {
        ScanStart::Cached(result) => assert_eq!(result.hits, 2),
        ScanStart::Fresh(_) => panic!("expected the cached result at half a second"),
    }

    match engine.begin_scan("bob", true, 1_500) {
        ScanStart::Fresh(session) => {
            // A fresh round of probes, one per provider.
            assert_eq!(session.current_index(), 0);
            assert!(!session.is_done());
        }
        ScanStart::Cached(_) => panic!("expected a fresh session after the TTL"),
    }
}

#[test]
fn boundary_of_the_ttl_window() {
    let mut engine = Engine::new(small_config(1)).unwrap();
    run_scan(&mut engine, "carol", true, 1_000, &[404, 404]);
    // Strictly within the window.
    assert!(engine.check_cache("carol", 1_999).is_some());
    // Exactly at the TTL the entry is no longer valid.
    assert!(engine.check_cache("carol", 2_000).is_none());
    // A clock reading before the store is not a valid window either.
    assert!(engine.check_cache("carol", 999).is_none());
}

#[test]
fn scan_without_cache_stores_nothing() {
    let mut engine = Engine::new(small_config(900)).unwrap();
    run_scan(&mut engine, "dave", false, 0, &[200, 200]);
    assert!(engine.check_cache("dave", 0).is_none());
}

#[test]
fn scan_without_cache_ignores_a_valid_entry() {
    let mut engine = Engine::new(small_config(900)).unwrap();
    run_scan(&mut engine, "erin", true, 0, &[200, 200]);
    match engine.begin_scan("erin", false, 100) {
        ScanStart::Fresh(_) => {}
        ScanStart::Cached(_) => panic!("a cache-bypassing scan must probe"),
    }
}

#[test]
fn a_later_store_supersedes_the_earlier_one() {
    let mut engine = Engine::new(small_config(900)).unwrap();
    run_scan(&mut engine, "fay", true, 0, &[200, 200]);
    run_scan(&mut engine, "fay", false, 10, &[404, 404]);
    // The second scan bypassed the cache, so the first result still stands.
    assert_eq!(engine.check_cache("fay", 20).unwrap().hits, 2);
    // A cache-using scan overwrites it.
    let mut session = match engine.begin_scan("fay", false, 30) {
        ScanStart::Fresh(session) => session,
        ScanStart::Cached(_) => panic!("expected a fresh session"),
    };
    session.start_attempt();
    session.record_response(404);
    session.start_attempt();
    session.record_response(404);
    engine.finish_scan("fay", &session, true, 30);
    assert_eq!(engine.check_cache("fay", 40).unwrap().hits, 0);
}

#[test]
fn entries_are_kept_per_identifier() {
    let mut engine = Engine::new(small_config(900)).unwrap();
    run_scan(&mut engine, "gus", true, 0, &[200, 200]);
    run_scan(&mut engine, "hal", true, 0, &[404, 404]);
    assert_eq!(engine.check_cache("gus", 100).unwrap().hits, 2);
    assert_eq!(engine.check_cache("hal", 100).unwrap().hits, 0);
    assert!(engine.check_cache("ivy", 100).is_none());
}
