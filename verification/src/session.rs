//! The probing session: the decision core of one scan.
//!
//! A session walks the configured providers in declared order. For each
//! provider it admits one probe at a time through the concurrency limiter,
//! asks the caller to issue the request for the provider's URL, classifies
//! the status the caller reports, and on transport failure retries with
//! exponential backoff — three attempts in all, with delays of 200 ms and
//! 400 ms owed before the second and third. The caller performs the network
//! call and the sleep; every decision in between is made, and proved, here.

use vstd::prelude::*;

use crate::config::ProviderCfg;
use crate::config::ProviderModel;
use crate::engine::ReconResult;
use crate::engine::ScanResultModel;
use crate::error::ErrorModel;
use crate::error::FalconError;
use crate::limiter::Limiter;
use crate::outcome::classify_spec;
use crate::outcome::classify_status;
use crate::outcome::OutcomeModel;
use crate::outcome::ProbeOutcome;
use crate::text::build_url;
use crate::text::subst_spec;

verus! {

/// Mathematical model of a [`ScanSession`].
#[verifier::ext_equal]
pub struct SessionModel {
    /// The providers to walk, in declared order.
    pub providers: Seq<ProviderModel>,
    /// The identifier under scan.
    pub username: Seq<char>,
    /// How many providers have settled.
    pub idx: int,
    /// Failed attempts against the current provider so far.
    pub attempt: int,
    /// The backoff sleep owed before the next attempt; zero when none.
    pub pending_delay_ms: u64,
    /// A probe is in flight: admitted, not yet settled.
    pub in_probe: bool,
    /// One settled outcome per settled provider.
    pub outcomes: Seq<OutcomeModel>,
    /// The admission limiter.
    pub limiter: Limiter,
}

/// The backoff delay owed after the given number of failed attempts:
/// 200 ms after the first failure, doubled to 400 ms after the second.
pub open spec fn backoff_delay_spec(failures: int) -> u64 {
    if failures == 1 {
        200u64
    } else {
        400u64
    }
}

/// The session's invariant.
pub open spec fn session_wf(s: SessionModel) -> bool {
    &&& s.outcomes.len() == s.idx
    &&& 0 <= s.idx <= s.providers.len()
    &&& 0 <= s.attempt <= 2
    &&& s.limiter.inv()
    &&& s.limiter.in_flight == (if s.in_probe {
        1int
    } else {
        0int
    })
    &&& (s.in_probe ==> s.pending_delay_ms == 0)
    &&& (s.pending_delay_ms == 0 || (1 <= s.attempt && s.pending_delay_ms == backoff_delay_spec(
        s.attempt,
    )))
    &&& (s.idx == s.providers.len() ==> !s.in_probe && s.pending_delay_ms == 0 && s.attempt == 0)
}

/// One probe is admitted through the limiter and goes out.
pub open spec fn start_step(pre: SessionModel, post: SessionModel) -> bool {
    post == SessionModel {
        in_probe: true,
        limiter: Limiter { in_flight: (pre.limiter.in_flight + 1) as usize, ..pre.limiter },
        ..pre
    }
}

/// The probe's transport failed: the limiter slot is released at once; within
/// the attempt budget a backoff delay is owed and the attempt repeats;
/// on the third failure the provider settles with the last failure
/// recorded — no fourth attempt exists.
pub open spec fn fail_step(pre: SessionModel, post: SessionModel, err: ErrorModel) -> bool {
    if pre.attempt < 2 {
        post == SessionModel {
            attempt: pre.attempt + 1,
            pending_delay_ms: backoff_delay_spec(pre.attempt + 1),
            in_probe: false,
            limiter: Limiter { in_flight: 0, ..pre.limiter },
            ..pre
        }
    } else {
        post == SessionModel {
            idx: pre.idx + 1,
            attempt: 0,
            pending_delay_ms: 0,
            in_probe: false,
            limiter: Limiter { in_flight: 0, ..pre.limiter },
            outcomes: pre.outcomes.push(OutcomeModel::Failed(err)),
            ..pre
        }
    }
}

/// The probe settled with an HTTP status: the limiter slot is released and
/// the provider settles with the classified outcome.
pub open spec fn response_step(pre: SessionModel, post: SessionModel, status: u16) -> bool {
    post == SessionModel {
        idx: pre.idx + 1,
        attempt: 0,
        pending_delay_ms: 0,
        in_probe: false,
        limiter: Limiter { in_flight: 0, ..pre.limiter },
        outcomes: pre.outcomes.push(classify_spec(status)),
        ..pre
    }
}

/// The owed backoff delay is handed to the caller to sleep, and cleared.
pub open spec fn delay_step(pre: SessionModel, post: SessionModel, d: u64) -> bool {
    d == pre.pending_delay_ms && post == SessionModel { pending_delay_ms: 0, ..pre }
}

/// One scan's probing state machine. The caller issues the network call
/// for [`Self::current_url`] after [`Self::start_attempt`], sleeps
/// whatever [`Self::take_delay`] hands out, and reports each settled
/// transport outcome back.
#[derive(Debug)]
pub struct ScanSession {
    providers: Vec<ProviderCfg>,
    username: String,
    idx: usize,
    attempt: u64,
    pending_delay_ms: u64,
    in_probe: bool,
    outcomes: Vec<ProbeOutcome>,
    limiter: Limiter,
}

impl View for ScanSession {
    type V = SessionModel;

    closed spec fn view(&self) -> SessionModel {
        SessionModel {
            providers: self.providers.deep_view(),
            username: self.username@,
            idx: self.idx as int,
            attempt: self.attempt as int,
            pending_delay_ms: self.pending_delay_ms,
            in_probe: self.in_probe,
            outcomes: self.outcomes.deep_view(),
            limiter: self.limiter,
        }
    }
}

impl ScanSession {
    /// A fresh session over the given providers, with nothing probed yet
    /// and a limiter of the given capacity.
    pub fn new(providers: Vec<ProviderCfg>, username: String, capacity: usize) -> (r: Self)
        requires
            capacity >= 1,
        ensures
            session_wf(r@),
            r@.providers == providers.deep_view(),
            r@.username == username@,
            r@.idx == 0,
            r@.attempt == 0,
            r@.pending_delay_ms == 0,
            !r@.in_probe,
            r@.outcomes == Seq::<OutcomeModel>::empty(),
            r@.limiter == (Limiter { capacity, in_flight: 0 }),
    {
        let r = ScanSession {
            providers,
            username,
            idx: 0,
            attempt: 0,
            pending_delay_ms: 0,
            in_probe: false,
            outcomes: Vec::new(),
            limiter: Limiter::new(capacity),
        };
        proof {
            assert(r@.outcomes =~= Seq::<OutcomeModel>::empty());
        }
        r
    }

    /// All providers have settled.
    pub fn is_done(&self) -> (r: bool)
        ensures
            r == (self@.idx == self@.providers.len()),
    {
        self.idx == self.providers.len()
    }

    /// How many providers have settled.
    pub fn current_index(&self) -> (r: usize)
        ensures
            r == self@.idx,
    {
        self.idx
    }

    /// The settled outcomes so far, one per settled provider, in declared
    /// provider order.
    pub fn outcomes(&self) -> (r: &Vec<ProbeOutcome>)
        ensures
            r.deep_view() == self@.outcomes,
    {
        &self.outcomes
    }

    /// The URL the current provider is probed under: its template with the
    /// identifier substituted.
    pub fn current_url(&self) -> (r: String)
        requires
            self@.idx < self@.providers.len(),
        ensures
            r@ == subst_spec(self@.providers[self@.idx].url, self@.username),
    {
        build_url(self.providers[self.idx].url.as_str(), self.username.as_str())
    }

    /// Hands out the owed backoff delay, clearing it; the caller sleeps
    /// that long before the next attempt.
    pub fn take_delay(&mut self) -> (r: u64)
        requires
            session_wf(old(self)@),
        ensures
            session_wf(final(self)@),
            delay_step(old(self)@, final(self)@, r),
    {
        let ghost pre = self@;
        let d = self.pending_delay_ms;
        self.pending_delay_ms = 0;
        proof {
            assert(self@ =~~= (SessionModel { pending_delay_ms: 0, ..pre }));
        }
        d
    }

    /// Admits the next probe through the limiter. The limiter has a free slot —
    /// a session holds at most one probe in flight — so admission succeeds.
    pub fn start_attempt(&mut self)
        requires
            session_wf(old(self)@),
            old(self)@.idx < old(self)@.providers.len(),
            !old(self)@.in_probe,
            old(self)@.pending_delay_ms == 0,
        ensures
            session_wf(final(self)@),
            start_step(old(self)@, final(self)@),
    {
        let ghost pre = self@;
        let admitted = self.limiter.try_acquire();
        self.in_probe = true;
        proof {
            assert(admitted);
            assert(self@ =~~= (SessionModel {
                in_probe: true,
                limiter: Limiter { in_flight: (pre.limiter.in_flight + 1) as usize, ..pre.limiter },
                ..pre
            }));
        }
    }

    /// The in-flight probe settled with an HTTP status: its limiter slot is
    /// released and the provider settles with the classified outcome.
    pub fn record_response(&mut self, status: u16)
        requires
            session_wf(old(self)@),
            old(self)@.in_probe,
        ensures
            session_wf(final(self)@),
            response_step(old(self)@, final(self)@, status),
    {
        let ghost pre = self@;
        let n = self.providers.len();
        self.limiter.release();
        self.outcomes.push(classify_status(status));
        self.idx = self.idx + 1;
        self.attempt = 0;
        self.pending_delay_ms = 0;
        self.in_probe = false;
        proof {
            assert(self@.outcomes =~= pre.outcomes.push(classify_spec(status)));
            assert(self@ =~~= (SessionModel {
                idx: pre.idx + 1,
                attempt: 0,
                pending_delay_ms: 0,
                in_probe: false,
                limiter: Limiter { in_flight: 0, ..pre.limiter },
                outcomes: pre.outcomes.push(classify_spec(status)),
                ..pre
            }));
        }
    }

    /// The in-flight probe's transport failed: its limiter slot is released
    /// at once. Within the attempt budget, a backoff delay is owed and the
    /// attempt will repeat; on the third failure the provider settles with
    /// this last failure recorded, and no fourth attempt is made.
    pub fn record_failure(&mut self, err: FalconError)
        requires
            session_wf(old(self)@),
            old(self)@.in_probe,
        ensures
            session_wf(final(self)@),
            fail_step(old(self)@, final(self)@, err@),
    {
        let ghost pre = self@;
        let ghost errm = err@;
        let n = self.providers.len();
        self.limiter.release();
        if self.attempt < 2 {
            self.attempt = self.attempt + 1;
            self.pending_delay_ms = if self.attempt == 1 {
                200
            } else {
                400
            };
            self.in_probe = false;
            proof {
                assert(self@ =~~= (SessionModel {
                    attempt: pre.attempt + 1,
                    pending_delay_ms: backoff_delay_spec(pre.attempt + 1),
                    in_probe: false,
                    limiter: Limiter { in_flight: 0, ..pre.limiter },
                    ..pre
                }));
            }
        } else {
            self.outcomes.push(ProbeOutcome::Failed(err));
            self.idx = self.idx + 1;
            self.attempt = 0;
            self.pending_delay_ms = 0;
            self.in_probe = false;
            proof {
                assert(self@.outcomes =~= pre.outcomes.push(OutcomeModel::Failed(errm)));
                assert(self@ =~~= (SessionModel {
                    idx: pre.idx + 1,
                    attempt: 0,
                    pending_delay_ms: 0,
                    in_probe: false,
                    limiter: Limiter { in_flight: 0, ..pre.limiter },
                    outcomes: pre.outcomes.push(OutcomeModel::Failed(errm)),
                    ..pre
                }));
            }
        }
    }

    /// Assembles the aggregate of a settled session: the count and names,
    /// in declared provider order, of the providers that confirmed the
    /// identifier, and the reserved, empty address list.
    pub fn result(&self) -> (r: ReconResult)
        requires
            session_wf(self@),
            self@.idx == self@.providers.len(),
        ensures
            r@ == aggregate_spec(self@.providers, self@.outcomes),
            r@.hits == r@.platforms.len(),
            r@.emails.len() == 0,
            is_subsequence(r@.platforms, provider_names(self@.providers)),
    {
        proof {
            lemma_aggregate_invariant(self@.providers, self@.outcomes);
        }
        let n = self.providers.len();
        let mut hits: usize = 0;
        let mut platforms: Vec<String> = Vec::new();
        let mut i: usize = 0;
        while i < n
            invariant
                session_wf(self@),
                self@.idx == self@.providers.len(),
                n == self.providers@.len(),
                i <= n,
                platforms.deep_view() == hit_names(
                    self@.providers.take(i as int),
                    self@.outcomes.take(i as int),
                ),
                hits == platforms@.len(),
                hits <= i,
            decreases n - i,
        {
            proof {
                assert(self@.providers.take(i + 1).drop_last() =~= self@.providers.take(i as int));
                assert(self@.outcomes.take(i + 1).drop_last() =~= self@.outcomes.take(i as int));
                assert(self@.providers.take(i + 1).last() == self@.providers[i as int]);
                assert(self@.outcomes.take(i + 1).last() == self@.outcomes[i as int]);
            }
            match &self.outcomes[i] {
                ProbeOutcome::Hit => {
                    platforms.push(self.providers[i].name.clone());
                    hits = hits + 1;
                    proof {
                        assert(platforms.deep_view() =~= hit_names(
                            self@.providers.take(i + 1),
                            self@.outcomes.take(i + 1),
                        ));
                    }
                },
                _ => {
                    proof {
                        assert(platforms.deep_view() =~= hit_names(
                            self@.providers.take(i + 1),
                            self@.outcomes.take(i + 1),
                        ));
                    }
                },
            }
            i += 1;
        }
        proof {
            assert(self@.providers.take(n as int) =~= self@.providers);
            assert(self@.outcomes.take(n as int) =~= self@.outcomes);
        }
        let r = ReconResult { hits, platforms, emails: Vec::new() };
        proof {
            assert(r@ =~~= aggregate_spec(self@.providers, self@.outcomes));
        }
        r
    }
}

/// The names, in declared order, of the providers whose outcome confirmed
/// the identifier.
pub open spec fn hit_names(ps: Seq<ProviderModel>, os: Seq<OutcomeModel>) -> Seq<Seq<char>>
    decreases ps.len(),
{
    if ps.len() == 0 || os.len() == 0 {
        Seq::empty()
    } else {
        let rest = hit_names(ps.drop_last(), os.drop_last());
        if os.last() is Hit {
            rest.push(ps.last().name)
        } else {
            rest
        }
    }
}

/// The aggregate a settled session denotes.
pub open spec fn aggregate_spec(ps: Seq<ProviderModel>, os: Seq<OutcomeModel>) -> ScanResultModel {
    ScanResultModel {
        hits: hit_names(ps, os).len() as int,
        platforms: hit_names(ps, os),
        emails: Seq::empty(),
    }
}

/// `xs` is a subsequence of `ys`: its elements occur in `ys` in the same
/// order, not necessarily adjacently.
pub open spec fn is_subsequence(xs: Seq<Seq<char>>, ys: Seq<Seq<char>>) -> bool
    decreases xs.len() + ys.len(),
{
    if xs.len() == 0 {
        true
    } else if ys.len() == 0 {
        false
    } else if xs.last() == ys.last() {
        is_subsequence(xs.drop_last(), ys.drop_last())
    } else {
        is_subsequence(xs, ys.drop_last())
    }
}

/// A subsequence of `ys` is one of `ys` extended by an element.
proof fn lemma_subseq_extend(xs: Seq<Seq<char>>, ys: Seq<Seq<char>>, z: Seq<char>)
    requires
        is_subsequence(xs, ys),
    ensures
        is_subsequence(xs, ys.push(z)),
    decreases xs.len() + ys.len() + 1,
{
    if xs.len() > 0 {
        let t = ys.push(z);
        assert(t.drop_last() =~= ys);
        if xs.last() == z {
            lemma_subseq_drop(xs, ys);
        }
    }
}

/// Dropping the last element of a subsequence keeps it one.
proof fn lemma_subseq_drop(xs: Seq<Seq<char>>, ys: Seq<Seq<char>>)
    requires
        is_subsequence(xs, ys),
        xs.len() > 0,
    ensures
        is_subsequence(xs.drop_last(), ys),
    decreases xs.len() + ys.len(),
{
    if xs.last() == ys.last() {
        lemma_subseq_extend(xs.drop_last(), ys.drop_last(), ys.last());
        assert(ys.drop_last().push(ys.last()) =~= ys);
    } else {
        lemma_subseq_drop(xs, ys.drop_last());
        lemma_subseq_extend(xs.drop_last(), ys.drop_last(), ys.last());
        assert(ys.drop_last().push(ys.last()) =~= ys);
    }
}

/// The configured provider names, in declared order.
pub open spec fn provider_names(ps: Seq<ProviderModel>) -> Seq<Seq<char>> {
    ps.map_values(|p: ProviderModel| p.name)
}

/// Law: for every settled session, the aggregate's hit count equals the
/// number of listed platforms, the address list is empty, and the
/// platforms are a subsequence of the configured provider names in their
/// declared order — never in arrival order.
pub proof fn lemma_aggregate_invariant(ps: Seq<ProviderModel>, os: Seq<OutcomeModel>)
    requires
        os.len() == ps.len(),
    ensures
        aggregate_spec(ps, os).hits == aggregate_spec(ps, os).platforms.len(),
        aggregate_spec(ps, os).emails.len() == 0,
        is_subsequence(aggregate_spec(ps, os).platforms, provider_names(ps)),
    decreases ps.len(),
{
    if ps.len() > 0 {
        lemma_aggregate_invariant(ps.drop_last(), os.drop_last());
        assert(provider_names(ps).drop_last() =~= provider_names(ps.drop_last()));
        assert(provider_names(ps).last() == ps.last().name);
        if os.last() is Hit {
            let rest = hit_names(ps.drop_last(), os.drop_last());
            assert(hit_names(ps, os) == rest.push(ps.last().name));
            assert(rest.push(ps.last().name).drop_last() =~= rest);
        } else {
            lemma_subseq_extend(
                hit_names(ps.drop_last(), os.drop_last()),
                provider_names(ps.drop_last()),
                ps.last().name,
            );
            assert(provider_names(ps.drop_last()).push(ps.last().name) =~= provider_names(ps));
        }
    }
}

/// Law: a probe that fails twice and succeeds on the third attempt
/// settles its provider with the third attempt's classification; exactly
/// two backoff delays are observed on the way, 200 ms then 400 ms — the
/// second double the first.
pub proof fn lemma_retry_third_attempt_succeeds(
    s0: SessionModel,
    s1: SessionModel,
    s2: SessionModel,
    s3: SessionModel,
    s4: SessionModel,
    s5: SessionModel,
    s6: SessionModel,
    s7: SessionModel,
    s8: SessionModel,
    e1: ErrorModel,
    e2: ErrorModel,
    status: u16,
    d1: u64,
    d2: u64,
)
    requires
        s0.attempt == 0,
        start_step(s0, s1),
        fail_step(s1, s2, e1),
        delay_step(s2, s3, d1),
        start_step(s3, s4),
        fail_step(s4, s5, e2),
        delay_step(s5, s6, d2),
        start_step(s6, s7),
        response_step(s7, s8, status),
    ensures
        d1 == 200,
        d2 == 400,
        d2 == 2 * d1,
        s8.outcomes == s0.outcomes.push(classify_spec(status)),
        s8.idx == s0.idx + 1,
        s8.attempt == 0,
{
}

/// Law: a probe that fails on all three attempts settles its provider
/// with the last failure recorded — the first two failures only back off,
/// and after the third the provider is settled, so no fourth attempt
/// exists.
pub proof fn lemma_retry_exhaustion(
    s0: SessionModel,
    s1: SessionModel,
    s2: SessionModel,
    s3: SessionModel,
    s4: SessionModel,
    s5: SessionModel,
    s6: SessionModel,
    s7: SessionModel,
    s8: SessionModel,
    e1: ErrorModel,
    e2: ErrorModel,
    e3: ErrorModel,
    d1: u64,
    d2: u64,
)
    requires
        s0.attempt == 0,
        start_step(s0, s1),
        fail_step(s1, s2, e1),
        delay_step(s2, s3, d1),
        start_step(s3, s4),
        fail_step(s4, s5, e2),
        delay_step(s5, s6, d2),
        start_step(s6, s7),
        fail_step(s7, s8, e3),
    ensures
        d1 == 200,
        d2 == 400,
        s8.outcomes == s0.outcomes.push(OutcomeModel::Failed(e3)),
        s8.idx == s0.idx + 1,
        s8.attempt == 0,
{
}

} // verus!
