//! Error taxonomy of the scanner.
//!
//! Construction-time failures (bad settings, transport setup) are fatal and
//! surfaced to the caller; per-probe transport failures are recoverable,
//! subject to retry, and ultimately absorbed per provider.

use vstd::prelude::*;

verus! {

/// An error of the scanner, with a plain-text reason.
///
/// `Config` is fatal at engine construction. `Network`, `Timeout`,
/// `Provider` and `Unknown` describe per-request transport failures; they
/// are retried and, after the attempt budget is spent, recorded in the
/// outcome for the affected provider without aborting the scan. `Io`
/// carries a file-system failure from configuration loading.
#[derive(Debug)]
pub enum FalconError {
    Network(String),
    Config(String),
    Timeout(String),
    Provider(String),
    Io(String),
    Unknown(String),
}

/// Mathematical model of a [`FalconError`]: the same variants over
/// character sequences.
pub enum ErrorModel {
    Network(Seq<char>),
    Config(Seq<char>),
    Timeout(Seq<char>),
    Provider(Seq<char>),
    Io(Seq<char>),
    Unknown(Seq<char>),
}

impl View for FalconError {
    type V = ErrorModel;

    open spec fn view(&self) -> ErrorModel {
        match self {
            FalconError::Network(s) => ErrorModel::Network(s@),
            FalconError::Config(s) => ErrorModel::Config(s@),
            FalconError::Timeout(s) => ErrorModel::Timeout(s@),
            FalconError::Provider(s) => ErrorModel::Provider(s@),
            FalconError::Io(s) => ErrorModel::Io(s@),
            FalconError::Unknown(s) => ErrorModel::Unknown(s@),
        }
    }
}

impl Clone for FalconError {
    fn clone(&self) -> (r: Self)
        ensures
            r@ == self@,
    {
        match self {
            FalconError::Network(s) => FalconError::Network(s.clone()),
            FalconError::Config(s) => FalconError::Config(s.clone()),
            FalconError::Timeout(s) => FalconError::Timeout(s.clone()),
            FalconError::Provider(s) => FalconError::Provider(s.clone()),
            FalconError::Io(s) => FalconError::Io(s.clone()),
            FalconError::Unknown(s) => FalconError::Unknown(s.clone()),
        }
    }
}

} // verus!
