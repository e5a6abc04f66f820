use bloody_falcon::config::apply_provider_filter;
use bloody_falcon::config::AppConfig;

#[test]
fn default_config_values() {
    let cfg = AppConfig::default();
    assert_eq!(cfg.providers.len(), 5);
    assert_eq!(cfg.providers[0].name, "GitHub");
    assert_eq!(cfg.providers[0].url, "https://github.com/{username}");
    assert_eq!(cfg.providers[1].name, "Reddit");
    assert_eq!(cfg.providers[1].url, "https://www.reddit.com/user/{username}");
    assert_eq!(cfg.providers[2].name, "Steam");
    assert_eq!(cfg.providers[2].url, "https://steamcommunity.com/id/{username}");
    assert_eq!(cfg.providers[3].name, "Twitter");
    assert_eq!(cfg.providers[3].url, "https://twitter.com/{username}");
    assert_eq!(cfg.providers[4].name, "PSNProfiles");
    assert_eq!(cfg.providers[4].url, "https://psnprofiles.com/{username}");
    assert_eq!(cfg.timeout_ms, 4000);
    assert_eq!(cfg.max_concurrent_scans, 5);
    assert_eq!(cfg.cache_ttl_secs, 900);
}

#[test]
fn filter_without_list_passes_through() {
    let cfg = apply_provider_filter(AppConfig::default(), None);
    assert_eq!(cfg.providers.len(), 5);
    assert_eq!(cfg.timeout_ms, 4000);
}

#[test]
fn filter_is_case_insensitive_and_keeps_declared_order() {
    let names = vec!["steam".to_string(), "GITHUB".to_string()];
    let cfg = apply_provider_filter(AppConfig::default(), Some(&names));
    assert_eq!(cfg.providers.len(), 2);
    assert_eq!(cfg.providers[0].name, "GitHub");
    assert_eq!(cfg.providers[1].name, "Steam");
}

#[test]
fn filter_with_no_match_keeps_all_providers() {
    let names = vec!["NoSuchProvider".to_string()];
    let cfg = apply_provider_filter(AppConfig::default(), Some(&names));
    assert_eq!(cfg.providers.len(), 5);
}

#[test]
fn filter_with_empty_list_keeps_all_providers() {
    let names: Vec<String> = vec![];
    let cfg = apply_provider_filter(AppConfig::default(), Some(&names));
    assert_eq!(cfg.providers.len(), 5);
}

#[test]
fn filter_keeps_scalar_settings() {
    let names = vec!["reddit".to_string()];
    let cfg = apply_provider_filter(AppConfig::default(), Some(&names));
    assert_eq!(cfg.providers.len(), 1);
    assert_eq!(cfg.providers[0].name, "Reddit");
    assert_eq!(cfg.timeout_ms, 4000);
    assert_eq!(cfg.max_concurrent_scans, 5);
    assert_eq!(cfg.cache_ttl_secs, 900);
}
