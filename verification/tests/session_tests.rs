use bloody_falcon::config::AppConfig;
use bloody_falcon::config::ProviderCfg;
use bloody_falcon::engine::Engine;
use bloody_falcon::engine::ScanStart;
use bloody_falcon::error::FalconError;
use bloody_falcon::outcome::ProbeOutcome;
use bloody_falcon::session::ScanSession;

fn two_provider_config() -> AppConfig {
    AppConfig {
        providers: vec![
            ProviderCfg { name: "A".to_string(), url: "https://a.example/{username}".to_string() },
            ProviderCfg { name: "B".to_string(), url: "https://b.example/{username}".to_string() },
        ],
        timeout_ms: 4000,
        max_concurrent_scans: 2,
        cache_ttl_secs: 900,
    }
}

fn open_session(engine: &Engine, username: &str, use_cache: bool, now_ms: u64) -> ScanSession {
    match engine.begin_scan(username, use_cache, now_ms) {
        ScanStart::Fresh(session) => session,
        ScanStart::Cached(_) => panic!("expected a fresh session"),
    }
}

#[test]
fn scan_with_one_hit_and_one_miss() {
    let mut engine = Engine::new(two_provider_config()).unwrap();
    let mut session = open_session(&engine, "alice", true, 0);
    assert_eq!(session.current_url(), "https://a.example/alice");
    session.start_attempt();
    session.record_response(200);
    assert_eq!(session.current_url(), "https://b.example/alice");
    session.start_attempt();
    session.record_response(404);
    assert!(session.is_done());
    let result = engine.finish_scan("alice", &session, true, 0);
    assert_eq!(result.hits, 1);
    assert_eq!(result.platforms, vec!["A".to_string()]);
    assert!(result.emails.is_empty());
}

#[test]
fn rate_limited_providers_are_recorded_not_folded_into_miss() {
    let mut engine = Engine::new(two_provider_config()).unwrap();
    let mut session = open_session(&engine, "alice", true, 0);
    session.start_attempt();
    session.record_response(429);
    session.start_attempt();
    session.record_response(429);
    assert!(session.is_done());
    let outcomes = session.outcomes();
    assert!(matches!(outcomes[0], ProbeOutcome::RateLimited));
    assert!(matches!(outcomes[1], ProbeOutcome::RateLimited));
    let result = engine.finish_scan("alice", &session, true, 0);
    assert_eq!(result.hits, 0);
    assert!(result.platforms.is_empty());
}

#[test]
fn third_attempt_success_after_two_failures_with_doubled_delay() {
    let cfg = AppConfig {
        providers: vec![ProviderCfg {
            name: "A".to_string(),
            url: "https://a.example/{username}".to_string(),
        }],
        timeout_ms: 4000,
        max_concurrent_scans: 1,
        cache_ttl_secs: 900,
    };
    let mut engine = Engine::new(cfg).unwrap();
    let mut session = open_session(&engine, "alice", true, 0);

    session.start_attempt();
    session.record_failure(FalconError::Timeout("request timed out".to_string()));
    let first_delay = session.take_delay();
    assert_eq!(first_delay, 200);

    session.start_attempt();
    session.record_failure(FalconError::Network("connection refused".to_string()));
    let second_delay = session.take_delay();
    assert_eq!(second_delay, 400);
    assert_eq!(second_delay, 2 * first_delay);

    session.start_attempt();
    session.record_response(200);
    assert!(session.is_done());

    let result = engine.finish_scan("alice", &session, true, 0);
    assert_eq!(result.hits, 1);
    assert_eq!(result.platforms, vec!["A".to_string()]);
}

#[test]
fn three_failures_surface_the_last_error_and_settle_the_provider() {
    let cfg = AppConfig {
        providers: vec![ProviderCfg {
            name: "A".to_string(),
            url: "https://a.example/{username}".to_string(),
        }],
        timeout_ms: 4000,
        max_concurrent_scans: 1,
        cache_ttl_secs: 900,
    };
    let mut engine = Engine::new(cfg).unwrap();
    let mut session = open_session(&engine, "alice", true, 0);

    session.start_attempt();
    session.record_failure(FalconError::Timeout("first".to_string()));
    assert_eq!(session.take_delay(), 200);
    session.start_attempt();
    session.record_failure(FalconError::Timeout("second".to_string()));
    assert_eq!(session.take_delay(), 400);
    session.start_attempt();
    session.record_failure(FalconError::Network("third".to_string()));

    // The provider settles on the third failure: there is no fourth attempt.
    assert!(session.is_done());
    assert_eq!(session.take_delay(), 0);
    match &session.outcomes()[0] {
        ProbeOutcome::Failed(FalconError::Network(reason)) => assert_eq!(reason, "third"),
        other => panic!("expected the last failure to be recorded, got {:?}", other),
    }

    // Degrades gracefully: a valid zero-hit result, not an error.
    let result = engine.finish_scan("alice", &session, true, 0);
    assert_eq!(result.hits, 0);
    assert!(result.platforms.is_empty());
}

#[test]
fn empty_provider_list_yields_empty_result() {
    let cfg = AppConfig {
        providers: vec![],
        timeout_ms: 4000,
        max_concurrent_scans: 1,
        cache_ttl_secs: 900,
    };
    let mut engine = Engine::new(cfg).unwrap();
    let session = open_session(&engine, "alice", true, 0);
    assert!(session.is_done());
    let result = engine.finish_scan("alice", &session, true, 0);
    assert_eq!(result.hits, 0);
    assert!(result.platforms.is_empty());
    assert!(result.emails.is_empty());
}

#[test]
fn mixed_outcomes_keep_declared_provider_order() {
    let cfg = AppConfig {
        providers: vec![
            ProviderCfg { name: "A".to_string(), url: "https://a.example/{username}".to_string() },
            ProviderCfg { name: "B".to_string(), url: "https://b.example/{username}".to_string() },
            ProviderCfg { name: "C".to_string(), url: "https://c.example/{username}".to_string() },
            ProviderCfg { name: "D".to_string(), url: "https://d.example/{username}".to_string() },
        ],
        timeout_ms: 4000,
        max_concurrent_scans: 2,
        cache_ttl_secs: 900,
    };
    let mut engine = Engine::new(cfg).unwrap();
    let mut session = open_session(&engine, "zoe", true, 0);
    session.start_attempt();
    session.record_response(301);
    session.start_attempt();
    session.record_response(403);
    session.start_attempt();
    session.record_response(200);
    session.start_attempt();
    session.record_response(404);
    assert!(session.is_done());
    let outcomes = session.outcomes();
    assert!(matches!(outcomes[1], ProbeOutcome::Restricted));
    let result = engine.finish_scan("zoe", &session, true, 0);
    assert_eq!(result.hits, 2);
    assert_eq!(result.platforms, vec!["A".to_string(), "C".to_string()]);
}
