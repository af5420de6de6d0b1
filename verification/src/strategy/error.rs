//! Strategy errors.
use vstd::prelude::*;

verus! {

/// Strategy error enum
#[derive(Debug, Clone, PartialEq, Eq)]
pub enum StrategyError {
    /// Strategy not found
    NotFound(String),
    /// No backend available
    NoBackendAvailable,
    /// Unexpected error
    UnexpectedError(String),
}

/// The human-readable text of a strategy error.
pub open spec fn strategy_error_text(e: StrategyError) -> Seq<char> {
    match e {
        StrategyError::NotFound(s) => "strategy not found: "@ + s@,
        StrategyError::NoBackendAvailable => "no backend available"@,
        StrategyError::UnexpectedError(s) => "unexpected error: "@ + s@,
    }
}

impl StrategyError {
    /// Renders the error as its message text.
    pub fn message(&self) -> (r: String)
        ensures
            r@ == strategy_error_text(*self),
    {
        match self {
            StrategyError::NotFound(s) => {
                let r = String::from_str("strategy not found: ");
                r.concat(s.as_str())
            },
            StrategyError::NoBackendAvailable => String::from_str("no backend available"),
            StrategyError::UnexpectedError(s) => {
                let r = String::from_str("unexpected error: ");
                r.concat(s.as_str())
            },
        }
    }
}

} // verus!
