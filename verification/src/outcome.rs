//! Classification of a probe's raw transport outcome.
//!
//! A probe's HTTP status is mapped to a five-state outcome, strictly richer
//! than a boolean: a confirmed presence, a confirmed absence, a rate limit,
//! an authorization denial, or a transport failure that survived the retry
//! budget. Operators can thereby distinguish "confirmed absent" from "could
//! not determine".

use vstd::prelude::*;

use crate::error::ErrorModel;
use crate::error::FalconError;

verus! {

/// The classified result of one probe against one provider.
#[derive(Debug)]
pub enum ProbeOutcome {
    /// Success or redirect-class status: the identifier exists there.
    Hit,
    /// Any other status: the identifier does not exist there.
    Miss,
    /// The provider answered with the rate-limit status.
    RateLimited,
    /// The provider denied authorization.
    Restricted,
    /// Transport failed on every attempt; the last failure is kept.
    Failed(FalconError),
}

/// Mathematical model of a [`ProbeOutcome`].
pub enum OutcomeModel {
    Hit,
    Miss,
    RateLimited,
    Restricted,
    Failed(ErrorModel),
}

impl View for ProbeOutcome {
    type V = OutcomeModel;

    open spec fn view(&self) -> OutcomeModel {
        match self {
            ProbeOutcome::Hit => OutcomeModel::Hit,
            ProbeOutcome::Miss => OutcomeModel::Miss,
            ProbeOutcome::RateLimited => OutcomeModel::RateLimited,
            ProbeOutcome::Restricted => OutcomeModel::Restricted,
            ProbeOutcome::Failed(e) => OutcomeModel::Failed(e@),
        }
    }
}

impl DeepView for ProbeOutcome {
    type V = OutcomeModel;

    open spec fn deep_view(&self) -> OutcomeModel {
        self@
    }
}

impl Clone for ProbeOutcome {
    fn clone(&self) -> (r: Self)
        ensures
            r@ == self@,
    {
        match self {
            ProbeOutcome::Hit => ProbeOutcome::Hit,
            ProbeOutcome::Miss => ProbeOutcome::Miss,
            ProbeOutcome::RateLimited => ProbeOutcome::RateLimited,
            ProbeOutcome::Restricted => ProbeOutcome::Restricted,
            ProbeOutcome::Failed(e) => ProbeOutcome::Failed(e.clone()),
        }
    }
}

/// How an HTTP status is classified: the rate-limit status and the two
/// authorization-denied statuses take precedence; any remaining success or
/// redirect-class status counts as presence; everything else is absence.
pub open spec fn classify_spec(status: u16) -> OutcomeModel {
    if status == 429 {
        OutcomeModel::RateLimited
    } else if status == 401 || status == 403 {
        OutcomeModel::Restricted
    } else if 200 <= status && status < 400 {
        OutcomeModel::Hit
    } else {
        OutcomeModel::Miss
    }
}

/// Classifies the HTTP status of a settled probe.
pub fn classify_status(status: u16) -> (r: ProbeOutcome)
    ensures
        r@ == classify_spec(status),
{
    if status == 429 {
        ProbeOutcome::RateLimited
    } else if status == 401 || status == 403 {
        ProbeOutcome::Restricted
    } else if 200 <= status && status < 400 {
        ProbeOutcome::Hit
    } else {
        ProbeOutcome::Miss
    }
}

} // verus!
