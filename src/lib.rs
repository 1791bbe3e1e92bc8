//! One-time proof-of-possession registration.
//!
//! An account registers itself by presenting a message and an sr25519
//! signature over it made with the account's own key. Each account can be
//! registered once; the record is never removed.

mod account;
mod contract;
mod laws;
mod signature;

pub use account::AccountId;
pub use contract::{register_result, register_state, Error, MyContract};
pub use signature::{signature_valid, sr25519_accepts, verify_signature, SIGNATURE_LEN};
pub use laws::{
    lemma_at_most_one_success, lemma_failure_has_no_effect,
    lemma_registration_is_terminal, lemma_signature_binding, lemma_unknown_is_unregistered,
    outcome_at, state_after,
};
