//! A ledger-resident value-distribution library ("red envelopes").
//!
//! A creator locks a balance into an envelope record governed by a
//! distribution policy; claimants withdraw shares of it until the envelope
//! is exhausted or expires, after which the creator may reclaim the rest.
//! The state machine (`create`, `claim`, `refund`) is verified here on a
//! plain-value model of the ledger: identities, timestamps and balances are
//! integers, and the host ledger's balance transfers are left to the caller,
//! which moves exactly the amounts these functions return.

pub mod laws;
pub mod service;
pub mod state;
