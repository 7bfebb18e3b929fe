//! The data model: identities, distribution policies, the per-creator
//! counter record and the envelope custody record, with their invariants.

use vstd::prelude::*;

verus! {

/// Ceiling on the total balance a single envelope may lock at creation
/// (an anti-abuse cap, in minor units).
pub const MAX_CREATE_AMOUNT: u64 = 10_000_000_000;

/// A ledger identity (account address), modelled by its numeric value.
/// The low byte plays the role of the address byte that seeds the
/// randomized split.
#[derive(Clone, Copy, PartialEq, Eq, Structural, Debug, Hash)]
pub struct Pubkey {
    pub id: u64,
}

impl Pubkey {
    /// The byte of the address that enters the pseudo-random seed.
    pub open spec fn low_byte(self) -> u64 {
        self.id % 256
    }
}

/// The distribution policy of an envelope, fixed at creation.
#[derive(Clone, Copy, PartialEq, Eq, Structural, Debug)]
pub enum EnvelopeType {
    /// Exactly one eligible claimant, who receives the full locked amount.
    DirectFixed { allowed_address: Pubkey, amount: u64 },
    /// Up to `total_users` distinct claimants, each receiving exactly
    /// `amount_per_user`; the locked total is their product.
    GroupFixed { total_users: u64, amount_per_user: u64 },
    /// Up to `total_users` distinct claimants, each receiving a
    /// pseudo-random share of the remaining pool; the last one receives
    /// exactly what is left.
    GroupRandom { total_users: u64, total_amount: u64 },
}

/// The total balance a policy locks at creation, as an unbounded integer
/// (the `GroupFixed` product may exceed the 64-bit range, which `create`
/// rejects as an overflow).
pub open spec fn total_amount_of(envelope_type: EnvelopeType) -> int {
    match envelope_type {
        EnvelopeType::DirectFixed { amount, .. } => amount as int,
        EnvelopeType::GroupFixed { total_users, amount_per_user } => total_users * amount_per_user,
        EnvelopeType::GroupRandom { total_amount, .. } => total_amount as int,
    }
}

/// Per-creator counter record from which envelope identifiers are issued.
#[derive(Clone, Copy, PartialEq, Eq, Structural, Debug)]
pub struct UserState {
    pub owner: Pubkey,
    /// Monotonically increasing; each value is issued to at most one envelope.
    pub last_envelope_id: u64,
}

/// The envelope custody record.
#[derive(Debug)]
pub struct EnvelopeAccount {
    /// Creator identity; immutable after creation.
    pub owner: Pubkey,
    /// Identifier unique per `(owner, envelope_id)`; immutable.
    pub envelope_id: u64,
    /// Distribution policy; immutable after creation.
    pub envelope_type: EnvelopeType,
    /// Total balance locked at creation; immutable.
    pub amount: u64,
    /// Cumulative balance paid out through claims only.
    pub withdrawn_amount: u64,
    /// Cumulative balance resolved so far; `refund` raises it to `amount`
    /// as a terminal marker.
    pub total_claimed: u64,
    /// Absolute timestamp (seconds) after which claims are rejected and
    /// refund becomes permitted; immutable after creation.
    pub expiry: u64,
    /// Identities that have successfully claimed, in claim order.
    pub claimed_users: Vec<Pubkey>,
}

/// No identity occurs twice in the sequence.
pub open spec fn unique_keys(s: Seq<Pubkey>) -> bool {
    forall|i: int, j: int| 0 <= i < j < s.len() ==> s[i] != s[j]
}

impl EnvelopeAccount {
    /// Basic well-formedness: the record never resolves more than it
    /// locked, claims never pay out more than has been resolved, and no
    /// claimant is recorded twice.
    pub open spec fn wf(self) -> bool {
        &&& self.total_claimed <= self.amount
        &&& self.withdrawn_amount <= self.total_claimed
        &&& unique_keys(self.claimed_users@)
    }

    /// For a `GroupRandom` envelope with open slots, the remaining pool
    /// covers at least one unit per remaining slot. Creation with
    /// `total_amount >= total_users` establishes it and every claim
    /// preserves it; it is what keeps the randomized split well defined
    /// (a positive per-slot cap) until the last slot.
    pub open spec fn random_pool_ok(self) -> bool {
        self.envelope_type matches EnvelopeType::GroupRandom { total_users, .. } ==> {
            self.claimed_users@.len() < total_users ==> self.amount - self.total_claimed
                >= total_users - self.claimed_users@.len()
        }
    }
}

/// The error taxonomy; every failure is a terminal validation or state
/// conflict, surfaced verbatim to the caller.
#[derive(Clone, Copy, PartialEq, Eq, Structural, Debug)]
pub enum CustomError {
    /// Caller does not own the record it references.
    InvalidOwner,
    /// Claimant has already claimed from this envelope.
    AlreadyClaimed,
    /// Claimant is not the one a `DirectFixed` envelope allows.
    NotAllowed,
    /// All slots of a group envelope are taken.
    QuotaFull,
    /// Claim attempted at or after the expiry time.
    Expired,
    /// Refund attempted with nothing left to refund.
    NothingToRefund,
    /// Requested lock exceeds `MAX_CREATE_AMOUNT`.
    ExceedMaxCreate,
    /// Refund attempted before the expiry time.
    NotExpired,
    /// Policy cost computation overflows the 64-bit range.
    MathOverflow,
    /// Defensive guard: a computed payout exceeds the remaining pool.
    InsufficientFunds,
}

} // verus!
