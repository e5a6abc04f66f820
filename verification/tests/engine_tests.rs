use bloody_falcon::config::AppConfig;
use bloody_falcon::engine::Engine;
use bloody_falcon::error::FalconError;
use bloody_falcon::limiter::Limiter;

#[test]
fn construction_succeeds_with_default_settings() {
    let engine = Engine::new(AppConfig::default()).unwrap();
    assert_eq!(engine.config().providers.len(), 5);
    assert_eq!(engine.config().max_concurrent_scans, 5);
}

#[test]
fn construction_rejects_a_zero_concurrency_bound() {
    let cfg = AppConfig { max_concurrent_scans: 0, ..AppConfig::default() };
    match Engine::new(cfg) {
        Err(FalconError::Config(_)) => {}
        other => panic!("expected a configuration error, got {:?}", other),
    }
}

#[test]
fn ttl_is_converted_to_milliseconds_and_saturates() {
    let engine = Engine::new(AppConfig { cache_ttl_secs: 900, ..AppConfig::default() }).unwrap();
    assert_eq!(engine.ttl_ms(), 900_000);
    let engine = Engine::new(AppConfig { cache_ttl_secs: u64::MAX, ..AppConfig::default() }).unwrap();
    assert_eq!(engine.ttl_ms(), u64::MAX);
}

#[test]
fn limiter_admits_at_most_its_capacity() {
    let mut gate = Limiter::new(2);
    assert!(gate.try_acquire());
    assert!(gate.try_acquire());
    // Both slots taken: a third probe is refused.
    assert!(!gate.try_acquire());
    gate.release();
    // A freed slot admits again.
    assert!(gate.try_acquire());
    assert_eq!(gate.in_flight, 2);
    assert_eq!(gate.capacity, 2);
}
