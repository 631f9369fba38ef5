//! Two-round n-of-n MuSig2 Schnorr signing: session identifiers, the
//! per-round message store and the signing state machine.
use vstd::prelude::*;

pub mod context;
pub mod crypto;
pub mod rounds;
pub mod signing;
pub mod signing_state_machine;

pub use context::compute_deterministic_hashes;
pub use rounds::{RoundError, RoundStore};
pub use signing::SigningError;
pub use signing_state_machine::{
    Msg, Msg1, Msg2, Phase, SchnorrkelMuSigState, SigningSession, Step,
};
