//! Scanner settings: the provider list and three scalar settings, with the
//! built-in defaults and the case-insensitive provider filter.
//!
//! Loading settings from disk is the surrounding binary's task; the library
//! receives plain values.

use vstd::prelude::*;

use crate::text::eq_ignore_ascii_case;
use crate::text::eq_ignore_case_spec;

verus! {

/// One external endpoint template checked for an identifier's presence.
#[derive(Debug)]
pub struct ProviderCfg {
    /// Display name of the provider.
    pub name: String,
    /// URL template; it carries a placeholder substituted with the identifier.
    pub url: String,
}

/// Mathematical model of a [`ProviderCfg`].
#[verifier::ext_equal]
pub struct ProviderModel {
    pub name: Seq<char>,
    pub url: Seq<char>,
}

impl View for ProviderCfg {
    type V = ProviderModel;

    open spec fn view(&self) -> ProviderModel {
        ProviderModel { name: self.name@, url: self.url@ }
    }
}

impl DeepView for ProviderCfg {
    type V = ProviderModel;

    open spec fn deep_view(&self) -> ProviderModel {
        self@
    }
}

impl Clone for ProviderCfg {
    fn clone(&self) -> (r: Self)
        ensures
            r@ == self@,
    {
        ProviderCfg { name: self.name.clone(), url: self.url.clone() }
    }
}

/// The engine's settings: the providers, in their declared order, and the
/// per-request timeout, probe concurrency bound and cache time-to-live.
#[derive(Debug)]
pub struct AppConfig {
    pub providers: Vec<ProviderCfg>,
    pub timeout_ms: u64,
    pub max_concurrent_scans: usize,
    pub cache_ttl_secs: u64,
}

/// Mathematical model of an [`AppConfig`].
#[verifier::ext_equal]
pub struct ConfigModel {
    pub providers: Seq<ProviderModel>,
    pub timeout_ms: u64,
    pub max_concurrent_scans: usize,
    pub cache_ttl_secs: u64,
}

impl View for AppConfig {
    type V = ConfigModel;

    open spec fn view(&self) -> ConfigModel {
        ConfigModel {
            providers: self.providers.deep_view(),
            timeout_ms: self.timeout_ms,
            max_concurrent_scans: self.max_concurrent_scans,
            cache_ttl_secs: self.cache_ttl_secs,
        }
    }
}

/// Clones a provider list, keeping its model.
pub fn clone_providers(v: &Vec<ProviderCfg>) -> (r: Vec<ProviderCfg>)
    ensures
        r.deep_view() == v.deep_view(),
{
    let mut providers: Vec<ProviderCfg> = Vec::new();
    let n = v.len();
    let mut i: usize = 0;
    while i < n
        invariant
            n == v@.len(),
            i <= n,
            providers@.len() == i,
            forall|j: int| 0 <= j < i ==> providers@[j]@ == v@[j]@,
        decreases n - i,
    {
        providers.push(v[i].clone());
        i += 1;
    }
    proof {
        assert(providers.deep_view() =~= v.deep_view());
    }
    providers
}

impl Clone for AppConfig {
    fn clone(&self) -> (r: Self)
        ensures
            r@ == self@,
    {
        AppConfig {
            providers: clone_providers(&self.providers),
            timeout_ms: self.timeout_ms,
            max_concurrent_scans: self.max_concurrent_scans,
            cache_ttl_secs: self.cache_ttl_secs,
        }
    }
}

/// The five built-in providers, in their declared order.
pub open spec fn default_providers_model() -> Seq<ProviderModel> {
    seq![
        ProviderModel { name: "GitHub"@, url: "https://github.com/{username}"@ },
        ProviderModel { name: "Reddit"@, url: "https://www.reddit.com/user/{username}"@ },
        ProviderModel { name: "Steam"@, url: "https://steamcommunity.com/id/{username}"@ },
        ProviderModel { name: "Twitter"@, url: "https://twitter.com/{username}"@ },
        ProviderModel { name: "PSNProfiles"@, url: "https://psnprofiles.com/{username}"@ },
    ]
}

impl Default for AppConfig {
    /// The built-in settings: five providers, a 4000 ms request timeout,
    /// at most five concurrent probes, and a 900 s cache time-to-live.
    fn default() -> (r: Self)
        ensures
            r@.providers == default_providers_model(),
            r@.timeout_ms == 4000,
            r@.max_concurrent_scans == 5,
            r@.cache_ttl_secs == 900,
    {
        let mut providers: Vec<ProviderCfg> = Vec::new();
        providers.push(ProviderCfg {
            name: "GitHub".to_owned(),
            url: "https://github.com/{username}".to_owned(),
        });
        providers.push(ProviderCfg {
            name: "Reddit".to_owned(),
            url: "https://www.reddit.com/user/{username}".to_owned(),
        });
        providers.push(ProviderCfg {
            name: "Steam".to_owned(),
            url: "https://steamcommunity.com/id/{username}".to_owned(),
        });
        providers.push(ProviderCfg {
            name: "Twitter".to_owned(),
            url: "https://twitter.com/{username}".to_owned(),
        });
        providers.push(ProviderCfg {
            name: "PSNProfiles".to_owned(),
            url: "https://psnprofiles.com/{username}".to_owned(),
        });
        proof {
            assert(providers.deep_view() =~= default_providers_model());
        }
        AppConfig { providers, timeout_ms: 4000, max_concurrent_scans: 5, cache_ttl_secs: 900 }
    }
}

/// A name occurs, up to ASCII case, in the requested list.
pub open spec fn list_has(names: Seq<Seq<char>>, name: Seq<char>) -> bool {
    exists|i: int| 0 <= i < names.len() && eq_ignore_case_spec(names[i], name)
}

/// The providers whose names occur, up to ASCII case, in the requested
/// list, in their declared order.
pub open spec fn filtered_providers(ps: Seq<ProviderModel>, names: Seq<Seq<char>>) -> Seq<
    ProviderModel,
>
    decreases ps.len(),
{
    if ps.len() == 0 {
        Seq::empty()
    } else {
        let rest = filtered_providers(ps.drop_last(), names);
        if list_has(names, ps.last().name) {
            rest.push(ps.last())
        } else {
            rest
        }
    }
}

/// What the provider filter leaves: the matching providers, or all of them
/// when none matches.
pub open spec fn filter_result(ps: Seq<ProviderModel>, names: Seq<Seq<char>>) -> Seq<
    ProviderModel,
> {
    let f = filtered_providers(ps, names);
    if f.len() == 0 {
        ps
    } else {
        f
    }
}

fn list_contains_name(list: &[String], name: &String) -> (r: bool)
    ensures
        r == list_has(list.deep_view(), name@),
{
    let n = list.len();
    let mut i: usize = 0;
    while i < n
        invariant
            n == list@.len(),
            i <= n,
            forall|j: int| 0 <= j < i ==> !eq_ignore_case_spec(list.deep_view()[j], name@),
        decreases n - i,
    {
        let candidate = vstd::slice::slice_index_get(list, i);
        if eq_ignore_ascii_case(candidate.as_str(), name.as_str()) {
            proof {
                assert(eq_ignore_case_spec(list.deep_view()[i as int], name@));
            }
            return true;
        }
        i += 1;
    }
    false
}

/// Restricts the configured providers to those whose names occur, up to
/// ASCII case, in the requested list. With no list the settings pass
/// through untouched; when no provider matches, the full list is kept so a
/// scan still has work to do.
pub fn apply_provider_filter(cfg: AppConfig, names: Option<&[String]>) -> (r: AppConfig)
    ensures
        names is None ==> r@ == cfg@,
        names matches Some(list) ==> r@ == (ConfigModel {
            providers: filter_result(cfg@.providers, list.deep_view()),
            ..cfg@
        }),
{
    if let Some(list) = names {
        let mut filtered: Vec<ProviderCfg> = Vec::new();
        let n = cfg.providers.len();
        let mut i: usize = 0;
        while i < n
            invariant
                n == cfg.providers@.len(),
                i <= n,
                filtered.deep_view() == filtered_providers(
                    cfg.providers.deep_view().take(i as int),
                    list.deep_view(),
                ),
            decreases n - i,
        {
            let p = &cfg.providers[i];
            proof {
                assert(cfg.providers.deep_view().take(i + 1).drop_last() =~= cfg.providers.deep_view().take(i as int));
                assert(cfg.providers.deep_view().take(i + 1).last() == cfg.providers.deep_view()[i as int]);
            }
            if list_contains_name(list, &p.name) {
                filtered.push(p.clone());
            }
            i += 1;
        }
        proof {
            assert(cfg.providers.deep_view().take(n as int) =~= cfg.providers.deep_view());
        }
        if filtered.is_empty() {
            cfg
        } else {
            AppConfig {
                providers: filtered,
                timeout_ms: cfg.timeout_ms,
                max_concurrent_scans: cfg.max_concurrent_scans,
                cache_ttl_secs: cfg.cache_ttl_secs,
            }
        }
    } else {
        cfg
    }
}

} // verus!
