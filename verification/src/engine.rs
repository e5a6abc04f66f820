//! The scan engine: it owns the settings and the result cache, answers a
//! scan from the cache when a valid entry exists, and otherwise opens a
//! probing session whose settled outcomes it aggregates and stores back.

use vstd::prelude::*;

use crate::cache::cache_lookup;
use crate::cache::CacheEntryModel;
use crate::cache::ResultCache;
use crate::config::clone_providers;
use crate::config::AppConfig;
use crate::config::ConfigModel;
use crate::error::FalconError;
use crate::limiter::Limiter;
use crate::session::aggregate_spec;
use crate::session::session_wf;
use crate::session::ScanSession;
use crate::session::SessionModel;

verus! {

/// The aggregate of one scan: how many providers confirmed the identifier,
/// which ones, in the configured provider order, and a reserved, always
/// empty list of discovered addresses.
#[derive(Debug)]
pub struct ReconResult {
    pub hits: usize,
    pub platforms: Vec<String>,
    pub emails: Vec<String>,
}

/// Mathematical model of a [`ReconResult`].
#[verifier::ext_equal]
pub struct ScanResultModel {
    pub hits: int,
    pub platforms: Seq<Seq<char>>,
    pub emails: Seq<Seq<char>>,
}

impl View for ReconResult {
    type V = ScanResultModel;

    open spec fn view(&self) -> ScanResultModel {
        ScanResultModel {
            hits: self.hits as int,
            platforms: self.platforms.deep_view(),
            emails: self.emails.deep_view(),
        }
    }
}

impl Clone for ReconResult {
    fn clone(&self) -> (r: Self)
        ensures
            r@ == self@,
    {
        let r = ReconResult {
            hits: self.hits,
            platforms: clone_strings(&self.platforms),
            emails: clone_strings(&self.emails),
        };
        proof {
            assert(r@ =~~= self@);
        }
        r
    }
}

/// Clones a list of strings, keeping its model.
pub fn clone_strings(v: &Vec<String>) -> (r: Vec<String>)
    ensures
        r.deep_view() == v.deep_view(),
{
    let mut r: Vec<String> = Vec::new();
    let n = v.len();
    let mut i: usize = 0;
    while i < n
        invariant
            n == v@.len(),
            i <= n,
            r@.len() == i,
            forall|j: int| 0 <= j < i ==> r@[j]@ == v@[j]@,
        decreases n - i,
    {
        r.push(v[i].clone());
        i += 1;
    }
    proof {
        assert(r.deep_view() =~= v.deep_view());
    }
    r
}

/// The cache time-to-live in milliseconds that the configured seconds
/// denote, saturating at the largest representable value.
pub open spec fn ttl_ms_spec(ttl_secs: u64) -> u64 {
    if ttl_secs > u64::MAX as int / 1000 {
        u64::MAX
    } else {
        (ttl_secs * 1000) as u64
    }
}

/// A just-opened probing session for this configuration and identifier:
/// nothing probed, nothing owed, nothing in flight, and the limiter's
/// capacity is the configured probe concurrency bound.
pub open spec fn fresh_session(s: SessionModel, cfg: ConfigModel, username: Seq<char>) -> bool {
    &&& s.providers == cfg.providers
    &&& s.username == username
    &&& s.idx == 0
    &&& s.attempt == 0
    &&& s.pending_delay_ms == 0
    &&& !s.in_probe
    &&& s.outcomes == Seq::<crate::outcome::OutcomeModel>::empty()
    &&& s.limiter == (Limiter { capacity: cfg.max_concurrent_scans, in_flight: 0 })
}

/// How a scan opens: answered from the cache at once, with no probing
/// session and hence no network activity, or with a fresh session to run.
pub enum ScanStart {
    Cached(ReconResult),
    Fresh(ScanSession),
}

/// Mathematical model of an [`Engine`].
#[verifier::ext_equal]
pub struct EngineModel {
    pub cfg: ConfigModel,
    pub cache: Map<Seq<char>, CacheEntryModel>,
}

/// The scan engine: the configured providers and settings, and the result
/// cache, owned for the engine's lifetime.
#[derive(Debug)]
pub struct Engine {
    cfg: AppConfig,
    cache: ResultCache,
}

impl View for Engine {
    type V = EngineModel;

    closed spec fn view(&self) -> EngineModel {
        EngineModel { cfg: self.cfg@, cache: self.cache@ }
    }
}

impl Engine {
    /// The engine's invariant: a usable concurrency bound and a coherent
    /// cache.
    pub closed spec fn wf(&self) -> bool {
        self.cache.wf() && self.cfg.max_concurrent_scans >= 1
    }

    /// Builds an engine from settings. The settings are invalid exactly
    /// when the probe concurrency bound is zero; that failure is fatal,
    /// surfaced at construction and never during scanning.
    pub fn new(cfg: AppConfig) -> (r: Result<Engine, FalconError>)
        ensures
            cfg@.max_concurrent_scans >= 1 ==> (r matches Ok(e) && e.wf() && e@.cfg == cfg@ && e@.cache
                == Map::<Seq<char>, CacheEntryModel>::empty()),
            cfg@.max_concurrent_scans == 0 ==> (r matches Err(e) && e@ is Config),
    {
        if cfg.max_concurrent_scans == 0 {
            Err(FalconError::Config("max concurrent probes must be at least 1".to_owned()))
        } else {
            Ok(Engine { cfg, cache: ResultCache::new() })
        }
    }

    /// The configured settings.
    pub fn config(&self) -> (r: &AppConfig)
        ensures
            r@ == self@.cfg,
    {
        &self.cfg
    }

    /// The cache time-to-live in milliseconds.
    pub fn ttl_ms(&self) -> (r: u64)
        ensures
            r == ttl_ms_spec(self@.cfg.cache_ttl_secs),
    {
        if self.cfg.cache_ttl_secs > u64::MAX / 1000 {
            u64::MAX
        } else {
            self.cfg.cache_ttl_secs * 1000
        }
    }

    /// Looks the identifier up in the cache at time `now_ms`: the stored
    /// result while its entry is within the time-to-live, nothing
    /// otherwise.
    pub fn check_cache(&self, username: &str, now_ms: u64) -> (r: Option<ReconResult>)
        requires
            self.wf(),
        ensures
            r matches Some(v) ==> cache_lookup(
                self@.cache,
                username@,
                now_ms,
                ttl_ms_spec(self@.cfg.cache_ttl_secs),
            ) == Some(v@),
            r is None ==> cache_lookup(
                self@.cache,
                username@,
                now_ms,
                ttl_ms_spec(self@.cfg.cache_ttl_secs),
            ) is None,
    {
        let ttl = self.ttl_ms();
        self.cache.get(username, now_ms, ttl)
    }

    /// Stores the identifier's result at time `now_ms`, superseding any
    /// earlier entry.
    pub fn store_cache(&mut self, username: String, value: ReconResult, now_ms: u64)
        requires
            old(self).wf(),
        ensures
            final(self).wf(),
            final(self)@.cfg == old(self)@.cfg,
            final(self)@.cache == old(self)@.cache.insert(
                username@,
                CacheEntryModel { stored_at: now_ms, result: value@ },
            ),
    {
        self.cache.put(username, now_ms, value);
    }

    /// Opens a scan for the identifier at time `now_ms`. When the cache
    /// may be used and holds a valid entry, that result is returned at
    /// once — a pure read, with no probing session and no network
    /// activity. Otherwise a fresh session over the configured providers
    /// is handed out to run.
    pub fn begin_scan(&self, username: &str, use_cache: bool, now_ms: u64) -> (r: ScanStart)
        requires
            self.wf(),
        ensures
            ({
                let looked = cache_lookup(
                    self@.cache,
                    username@,
                    now_ms,
                    ttl_ms_spec(self@.cfg.cache_ttl_secs),
                );
                &&& ((use_cache && looked is Some) ==> (r matches ScanStart::Cached(v) && Some(v@)
                    == looked))
                &&& ((!use_cache || looked is None) ==> (r matches ScanStart::Fresh(s)
                    && session_wf(s@) && fresh_session(s@, self@.cfg, username@)))
            }),
    {
        if use_cache {
            if let Some(v) = self.check_cache(username, now_ms) {
                return ScanStart::Cached(v);
            }
        }
        ScanStart::Fresh(
            ScanSession::new(
                clone_providers(&self.cfg.providers),
                username.to_owned(),
                self.cfg.max_concurrent_scans,
            ),
        )
    }

    /// Closes a scan whose session has settled every provider: the
    /// settled outcomes are aggregated, and, when the cache is in use, the
    /// aggregate is stored for the identifier at time `now_ms`. A scan
    /// that lost every provider to transport failure still closes with a
    /// valid, zero-hit result — never an error.
    pub fn finish_scan(
        &mut self,
        username: &str,
        session: &ScanSession,
        use_cache: bool,
        now_ms: u64,
    ) -> (r: ReconResult)
        requires
            old(self).wf(),
            session_wf(session@),
            session@.idx == session@.providers.len(),
        ensures
            final(self).wf(),
            final(self)@.cfg == old(self)@.cfg,
            r@ == aggregate_spec(session@.providers, session@.outcomes),
            r@.hits == r@.platforms.len(),
            crate::session::is_subsequence(
                r@.platforms,
                crate::session::provider_names(session@.providers),
            ),
            use_cache ==> final(self)@.cache == old(self)@.cache.insert(
                username@,
                CacheEntryModel { stored_at: now_ms, result: r@ },
            ),
            !use_cache ==> final(self)@.cache == old(self)@.cache,
    {
        let result = session.result();
        if use_cache {
            self.store_cache(username.to_owned(), result.clone(), now_ms);
        }
        result
    }
}

} // verus!
