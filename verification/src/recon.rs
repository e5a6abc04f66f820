//! The plain presence scan: each platform is checked once, its status is
//! reduced to a boolean presence, and the names that answered are
//! collected in the order the checks were launched. This is the simpler,
//! boolean sibling of the engine's five-state outcome model; the engine's
//! model is the richer of the two.

use vstd::prelude::*;

use crate::engine::clone_strings;
use crate::engine::ScanResultModel;

verus! {

/// Outcome of a username scan across platforms.
#[derive(Debug)]
pub struct ScanOutcome {
    pub hits: usize,
    pub platforms: Vec<String>,
    pub emails: Vec<String>,
}

impl View for ScanOutcome {
    type V = ScanResultModel;

    open spec fn view(&self) -> ScanResultModel {
        ScanResultModel {
            hits: self.hits as int,
            platforms: self.platforms.deep_view(),
            emails: self.emails.deep_view(),
        }
    }
}

impl Clone for ScanOutcome {
    fn clone(&self) -> (r: Self)
        ensures
            r@ == self@,
    {
        let r = ScanOutcome {
            hits: self.hits,
            platforms: clone_strings(&self.platforms),
            emails: clone_strings(&self.emails),
        };
        proof {
            assert(r@ =~~= self@);
        }
        r
    }
}

/// The statuses this scan takes as presence: success, or one of the
/// redirect statuses a profile page answers with.
pub open spec fn presence_spec(status: u16) -> bool {
    status == 200 || status == 301 || status == 302 || status == 303 || status == 307 || status
        == 308
}

/// Reduces a check's HTTP status to a boolean presence.
pub fn is_presence_status(status: u16) -> (r: bool)
    ensures
        r == presence_spec(status),
{
    status == 200 || status == 301 || status == 302 || status == 303 || status == 307 || status
        == 308
}

/// The names whose checks answered with presence, in launch order.
pub open spec fn live_names(checks: Seq<(Seq<char>, bool)>) -> Seq<Seq<char>>
    decreases checks.len(),
{
    if checks.len() == 0 {
        Seq::empty()
    } else {
        let rest = live_names(checks.drop_last());
        if checks.last().1 {
            rest.push(checks.last().0)
        } else {
            rest
        }
    }
}

/// Collects the platforms that answered: the names whose presence check
/// came back true, in launch order, with the hit count equal to their
/// number and the reserved address list empty.
pub fn collect_outcome(checks: Vec<(String, bool)>) -> (r: ScanOutcome)
    ensures
        r@.platforms == live_names(checks.deep_view()),
        r@.hits == r@.platforms.len(),
        r@.emails == Seq::<Seq<char>>::empty(),
{
    let n = checks.len();
    let mut platforms: Vec<String> = Vec::new();
    let mut i: usize = 0;
    while i < n
        invariant
            n == checks@.len(),
            i <= n,
            platforms.deep_view() == live_names(checks.deep_view().take(i as int)),
            platforms@.len() <= i,
        decreases n - i,
    {
        proof {
            assert(checks.deep_view().take(i + 1).drop_last() =~= checks.deep_view().take(i as int));
            assert(checks.deep_view().take(i + 1).last() == checks.deep_view()[i as int]);
        }
        let entry = &checks[i];
        if entry.1 {
            platforms.push(entry.0.clone());
            proof {
                assert(platforms.deep_view() =~= live_names(checks.deep_view().take(i + 1)));
            }
        } else {
            proof {
                assert(platforms.deep_view() =~= live_names(checks.deep_view().take(i + 1)));
            }
        }
        i += 1;
    }
    proof {
        assert(checks.deep_view().take(n as int) =~= checks.deep_view());
    }
    let hits = platforms.len();
    let r = ScanOutcome { hits, platforms, emails: Vec::new() };
    proof {
        assert(r@.platforms =~= live_names(checks.deep_view()));
        assert(r@.emails =~= Seq::<Seq<char>>::empty());
    }
    r
}

} // verus!
