//! The error type of a signing session.
use vstd::prelude::*;
use vstd::string::StringExecFns;

verus! {

/// Why a signing session produced no signature.
#[derive(Debug)]
pub enum SigningError {
    /// The inputs describing the session are malformed (roster size, party index).
    ContextError(String),
    /// Key material failed to parse or to aggregate.
    KeySetupError(String),
    /// The two-round exchange failed: a refused or invalid peer message, or a
    /// failure of the signing library mid-round.
    MpcError(String),
}

impl SigningError {
    /// A one-line description, prefixed by the kind of failure.
    pub fn message(&self) -> (r: String)
        ensures
            r@ == match self {
                SigningError::ContextError(m) => "Context error: "@ + m@,
                SigningError::KeySetupError(m) => "Key retrieval error: "@ + m@,
                SigningError::MpcError(m) => "MPC error: "@ + m@,
            },
    {
        match self {
            SigningError::ContextError(m) => {
                let mut s = String::from_str("Context error: ");
                s.append(m.as_str());
                s
            },
            SigningError::KeySetupError(m) => {
                let mut s = String::from_str("Key retrieval error: ");
                s.append(m.as_str());
                s
            },
            SigningError::MpcError(m) => {
                let mut s = String::from_str("MPC error: ");
                s.append(m.as_str());
                s
            },
        }
    }
}

} // verus!
