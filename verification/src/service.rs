//! The envelope lifecycle operations: `init_user_state`, `create`, `claim`
//! and `refund`, each with a contract that pins its outcome exactly.
//!
//! Each operation here computes the next record state and the amount the
//! ledger must move; the caller performs the transfer of exactly that
//! amount in the same atomic step as the record update.

use vstd::prelude::*;

use crate::state::CustomError;
use crate::state::EnvelopeAccount;
use crate::state::EnvelopeType;
use crate::state::MAX_CREATE_AMOUNT;
use crate::state::Pubkey;
use crate::state::UserState;
use crate::state::total_amount_of;
use crate::state::unique_keys;

verus! {

/// The failure `create` reports for a given counter record, caller and
/// policy, if any: the checks apply in this order and the first one that
/// fails decides.
pub open spec fn create_err(st: UserState, user: Pubkey, envelope_type: EnvelopeType) -> Option<
    CustomError,
> {
    if st.owner != user {
        Some(CustomError::InvalidOwner)
    } else if envelope_type matches EnvelopeType::GroupFixed { total_users, amount_per_user }
        && total_users * amount_per_user > u64::MAX {
        Some(CustomError::MathOverflow)
    } else if total_amount_of(envelope_type) > MAX_CREATE_AMOUNT {
        Some(CustomError::ExceedMaxCreate)
    } else {
        None
    }
}

/// The pseudo-random seed of the randomized split: the current timestamp
/// multiplied (wrapping) by the low byte of the claimant's address. The
/// seed is publicly derivable and low-entropy: the split is a casual
/// lucky draw, not a cryptographic one, and a party that controls
/// submission timing can bias its own share.
pub open spec fn rand_seed_of(now: u64, claimer: Pubkey) -> u64 {
    vstd::wrapping::u64_specs::wrapping_mul(now, claimer.low_byte())
}

/// The amount a claim pays out once eligibility has been established
/// (for group policies: the quota is not full). For `GroupRandom` with
/// one slot left this is exactly the remaining pool; otherwise it is a
/// seeded share between 1 and the per-slot cap, capped by the pool.
pub open spec fn claim_amount_of(e: EnvelopeAccount, claimer: Pubkey, now: u64) -> int {
    match e.envelope_type {
        EnvelopeType::DirectFixed { amount, .. } => amount as int,
        EnvelopeType::GroupFixed { amount_per_user, .. } => amount_per_user as int,
        EnvelopeType::GroupRandom { total_users, .. } => {
            let remaining_users = total_users - e.claimed_users@.len();
            let remaining_amount = e.amount - e.total_claimed;
            if remaining_users == 1 {
                remaining_amount
            } else {
                let max_per_user = remaining_amount / remaining_users;
                let rand_amount = rand_seed_of(now, claimer) as int % max_per_user + 1;
                if rand_amount <= remaining_amount {
                    rand_amount
                } else {
                    remaining_amount
                }
            }
        },
    }
}

/// The policy-specific eligibility failure of a claim, if any.
pub open spec fn claim_eligibility_err(e: EnvelopeAccount, claimer: Pubkey) -> Option<
    CustomError,
> {
    match e.envelope_type {
        EnvelopeType::DirectFixed { allowed_address, .. } => {
            if allowed_address != claimer {
                Some(CustomError::NotAllowed)
            } else {
                None
            }
        },
        EnvelopeType::GroupFixed { total_users, .. } => {
            if e.claimed_users@.len() >= total_users {
                Some(CustomError::QuotaFull)
            } else {
                None
            }
        },
        EnvelopeType::GroupRandom { total_users, .. } => {
            if e.claimed_users@.len() >= total_users {
                Some(CustomError::QuotaFull)
            } else {
                None
            }
        },
    }
}

/// The exact outcome of a claim on a given record, claimant and time:
/// either the amount paid out or the error, with the checks applied in
/// the order the operation applies them.
pub open spec fn claim_outcome(e: EnvelopeAccount, claimer: Pubkey, now: u64) -> Result<
    u64,
    CustomError,
> {
    if now >= e.expiry {
        Err(CustomError::Expired)
    } else if e.claimed_users@.contains(claimer) {
        Err(CustomError::AlreadyClaimed)
    } else {
        match claim_eligibility_err(e, claimer) {
            Some(e1) => Err(e1),
            None => {
                let a = claim_amount_of(e, claimer, now);
                if a > e.amount - e.total_claimed {
                    Err(CustomError::InsufficientFunds)
                } else {
                    Ok(a as u64)
                }
            },
        }
    }
}

/// How a successful claim changes the record: the payout is added to both
/// running totals, the claimant is appended to the claim history, and
/// every other field is untouched.
pub open spec fn claim_step(
    pre: EnvelopeAccount,
    post: EnvelopeAccount,
    claimer: Pubkey,
    paid: u64,
) -> bool {
    &&& post.owner == pre.owner
    &&& post.envelope_id == pre.envelope_id
    &&& post.envelope_type == pre.envelope_type
    &&& post.amount == pre.amount
    &&& post.expiry == pre.expiry
    &&& post.total_claimed == pre.total_claimed + paid
    &&& post.withdrawn_amount == pre.withdrawn_amount + paid
    &&& post.claimed_users@ == pre.claimed_users@.push(claimer)
}

/// Allocates the counter record for a new creator identity, with the
/// envelope counter at zero.
pub fn init_user_state(user: Pubkey) -> (st: UserState)
    ensures
        st.owner == user,
        st.last_envelope_id == 0,
{
    UserState { owner: user, last_envelope_id: 0 }
}

/// Creates a new envelope: validates ownership of the counter record and
/// the policy's total cost, then returns the fully populated record and
/// advances the counter. The caller must fund the returned record with
/// exactly its `amount` from the creator's balance.
pub fn create(
    user: Pubkey,
    user_state: &mut UserState,
    envelope_type: EnvelopeType,
    expiry_hours: u64,
    now: u64,
) -> (r: Result<EnvelopeAccount, CustomError>)
    requires
        old(user_state).last_envelope_id < u64::MAX,
        now + expiry_hours * 3600 <= u64::MAX,
    ensures
        match r {
            Ok(envelope) => {
                &&& create_err(*old(user_state), user, envelope_type) is None
                &&& envelope.owner == user
                &&& envelope.envelope_id == old(user_state).last_envelope_id + 1
                &&& envelope.envelope_type == envelope_type
                &&& envelope.amount == total_amount_of(envelope_type)
                &&& envelope.total_claimed == 0
                &&& envelope.withdrawn_amount == 0
                &&& envelope.claimed_users@.len() == 0
                &&& envelope.expiry == now + expiry_hours * 3600
                &&& envelope.wf()
                &&& final(user_state).owner == old(user_state).owner
                &&& final(user_state).last_envelope_id == old(user_state).last_envelope_id + 1
            },
            Err(e) => {
                &&& create_err(*old(user_state), user, envelope_type) == Some(e)
                &&& *final(user_state) == *old(user_state)
            },
        },
        final(user_state).last_envelope_id >= old(user_state).last_envelope_id,
{
    if user_state.owner != user {
        return Err(CustomError::InvalidOwner);
    }
    let envelope_id = user_state.last_envelope_id + 1;

    let total_amount: u64 = match envelope_type {
        EnvelopeType::DirectFixed { amount, .. } => amount,
        EnvelopeType::GroupFixed { total_users, amount_per_user } => {
            match total_users.checked_mul(amount_per_user) {
                Some(product) => product,
                None => {
                    return Err(CustomError::MathOverflow);
                },
            }
        },
        EnvelopeType::GroupRandom { total_amount, .. } => total_amount,
    };

    if total_amount > MAX_CREATE_AMOUNT {
        return Err(CustomError::ExceedMaxCreate);
    }

    let envelope = EnvelopeAccount {
        owner: user,
        envelope_id,
        envelope_type,
        amount: total_amount,
        withdrawn_amount: 0,
        total_claimed: 0,
        expiry: now + expiry_hours * 3600,
        claimed_users: Vec::new(),
    };
    user_state.last_envelope_id = envelope_id;
    Ok(envelope)
}

/// Whether the claim history already holds the given identity.
fn history_contains(keys: &Vec<Pubkey>, key: Pubkey) -> (found: bool)
    ensures
        found == keys@.contains(key),
{
    let mut i: usize = 0;
    while i < keys.len()
        invariant
            i <= keys.len(),
            forall|j: int| 0 <= j < i ==> keys@[j] != key,
        decreases keys.len() - i,
    {
        if keys[i] == key {
            return true;
        }
        i = i + 1;
    }
    false
}

/// Appending an identity that is not yet present keeps the history free
/// of duplicates.
pub proof fn lemma_unique_push(s: Seq<Pubkey>, key: Pubkey)
    requires
        unique_keys(s),
        !s.contains(key),
    ensures
        unique_keys(s.push(key)),
{
    assert forall|i: int, j: int|
        0 <= i < j < s.push(key).len() implies s.push(key)[i] != s.push(key)[j] by {
        if j == s.len() {
            if s[i] == key {
                assert(s.contains(key));
            }
        }
    }
}

/// A pool that covers its remaining slots still covers the rest of them
/// after one share of at most `pool / users` leaves it.
proof fn lemma_pool_covers_rest(pool: int, users: int)
    requires
        users >= 2,
        pool >= users,
    ensures
        pool / users >= 1,
        pool - pool / users >= users - 1,
{
    vstd::arithmetic::div_mod::lemma_div_non_zero(pool, users);
    vstd::arithmetic::div_mod::lemma_fundamental_div_mod(pool, users);
    vstd::arithmetic::div_mod::lemma_mod_bound(pool, users);
    let quotient = pool / users;
    vstd::arithmetic::mul::lemma_mul_is_distributive_sub(quotient, users, 1);
    vstd::arithmetic::mul::lemma_mul_inequality(1, quotient, users - 1);
}

/// Bounds of the randomized share. For a `GroupRandom` envelope with an
/// open slot, the payout is strictly positive, never exceeds the
/// remaining pool, and — unless it fills the last slot — leaves the pool
/// still covering one unit per slot that remains open.
pub proof fn lemma_random_share_bounds(e: EnvelopeAccount, claimer: Pubkey, now: u64)
    requires
        e.wf(),
        e.random_pool_ok(),
        e.envelope_type is GroupRandom,
        e.claimed_users@.len() < e.envelope_type->GroupRandom_total_users,
    ensures
        1 <= claim_amount_of(e, claimer, now),
        claim_amount_of(e, claimer, now) <= e.amount - e.total_claimed,
        e.claimed_users@.len() + 1 < e.envelope_type->GroupRandom_total_users ==> claim_amount_of(
            e,
            claimer,
            now,
        ) <= (e.amount - e.total_claimed) / (e.envelope_type->GroupRandom_total_users
            - e.claimed_users@.len()),
        e.claimed_users@.len() + 1 < e.envelope_type->GroupRandom_total_users ==> e.amount
            - e.total_claimed - claim_amount_of(e, claimer, now)
            >= e.envelope_type->GroupRandom_total_users - (e.claimed_users@.len() + 1),
{
    let users = e.envelope_type->GroupRandom_total_users - e.claimed_users@.len();
    let pool = e.amount - e.total_claimed;
    if users >= 2 {
        lemma_pool_covers_rest(pool, users);
        vstd::arithmetic::div_mod::lemma_mod_bound(
            rand_seed_of(now, claimer) as int,
            pool / users,
        );
    }
}

/// Claims a share of an envelope for `claimer` at time `now`. On success
/// the returned amount is what the caller must transfer from the record's
/// custody balance to the claimant, atomically with the record update
/// already applied here.
///
/// The pool condition is only required while the envelope can still be
/// claimed; after expiry (in particular after a refund) the randomized
/// split is never reached.
pub fn claim(envelope: &mut EnvelopeAccount, claimer: Pubkey, now: u64) -> (r: Result<
    u64,
    CustomError,
>)
    requires
        old(envelope).wf(),
        now < old(envelope).expiry ==> old(envelope).random_pool_ok(),
    ensures
        r == claim_outcome(*old(envelope), claimer, now),
        r matches Ok(paid) ==> claim_step(*old(envelope), *final(envelope), claimer, paid),
        r is Err ==> *final(envelope) == *old(envelope),
        final(envelope).wf(),
        old(envelope).random_pool_ok() ==> final(envelope).random_pool_ok(),
        final(envelope).total_claimed >= old(envelope).total_claimed,
{
    if now >= envelope.expiry {
        return Err(CustomError::Expired);
    }

    if history_contains(&envelope.claimed_users, claimer) {
        return Err(CustomError::AlreadyClaimed);
    }

    let claimed_len = envelope.claimed_users.len();

    let claim_amount: u64 = match envelope.envelope_type {
        EnvelopeType::DirectFixed { allowed_address, amount } => {
            if allowed_address != claimer {
                return Err(CustomError::NotAllowed);
            }
            amount
        },
        EnvelopeType::GroupFixed { total_users, amount_per_user } => {
            if claimed_len as u64 >= total_users {
                return Err(CustomError::QuotaFull);
            }
            amount_per_user
        },
        EnvelopeType::GroupRandom { total_users, .. } => {
            if claimed_len as u64 >= total_users {
                return Err(CustomError::QuotaFull);
            }
            let remaining_users = total_users - claimed_len as u64;
            let remaining_amount = envelope.amount - envelope.total_claimed;
            if remaining_users == 1 {
                remaining_amount
            } else {
                proof {
                    lemma_pool_covers_rest(remaining_amount as int, remaining_users as int);
                }
                let max_per_user = remaining_amount / remaining_users;
                let rand_seed = now.wrapping_mul(claimer.id % 256);
                let rand_amount = rand_seed % max_per_user + 1;
                if rand_amount < remaining_amount {
                    rand_amount
                } else {
                    remaining_amount
                }
            }
        },
    };

    // Defensive conservation guard: kept even though the payout derivation
    // above already bounds the amount by the remaining pool.
    if claim_amount > envelope.amount - envelope.total_claimed {
        return Err(CustomError::InsufficientFunds);
    }

    proof {
        lemma_unique_push(envelope.claimed_users@, claimer);
        if envelope.envelope_type is GroupRandom {
            lemma_random_share_bounds(*envelope, claimer, now);
        }
    }

    envelope.total_claimed = envelope.total_claimed + claim_amount;
    envelope.withdrawn_amount = envelope.withdrawn_amount + claim_amount;
    envelope.claimed_users.push(claimer);
    Ok(claim_amount)
}

/// The exact outcome of a refund on a given record, caller and time:
/// either the remainder paid back to the creator or the error, with the
/// checks applied in the order the operation applies them.
pub open spec fn refund_outcome(e: EnvelopeAccount, caller: Pubkey, now: u64) -> Result<
    u64,
    CustomError,
> {
    if now < e.expiry {
        Err(CustomError::NotExpired)
    } else if e.owner != caller {
        Err(CustomError::InvalidOwner)
    } else if e.amount - e.total_claimed == 0 {
        Err(CustomError::NothingToRefund)
    } else {
        Ok((e.amount - e.total_claimed) as u64)
    }
}

/// How a successful refund changes the record: `total_claimed` rises to
/// `amount` as a terminal marker, the refunded remainder is exactly what
/// was still unresolved, and every other field is untouched.
pub open spec fn refund_step(pre: EnvelopeAccount, post: EnvelopeAccount, refunded: u64) -> bool {
    &&& post.owner == pre.owner
    &&& post.envelope_id == pre.envelope_id
    &&& post.envelope_type == pre.envelope_type
    &&& post.amount == pre.amount
    &&& post.expiry == pre.expiry
    &&& post.total_claimed == pre.amount
    &&& post.withdrawn_amount == pre.withdrawn_amount
    &&& post.claimed_users@ == pre.claimed_users@
    &&& refunded == pre.amount - pre.total_claimed
}

/// Refunds the unclaimed remainder of an expired envelope to its creator.
/// On success the returned amount is what the caller must transfer from
/// the record's custody balance back to the creator, atomically with the
/// record update already applied here; the record is marked exhausted, so
/// a second refund fails with `NothingToRefund`.
pub fn refund(envelope: &mut EnvelopeAccount, caller: Pubkey, now: u64) -> (r: Result<
    u64,
    CustomError,
>)
    requires
        old(envelope).wf(),
    ensures
        r == refund_outcome(*old(envelope), caller, now),
        r matches Ok(refunded) ==> refund_step(*old(envelope), *final(envelope), refunded),
        r is Err ==> *final(envelope) == *old(envelope),
        final(envelope).wf(),
        final(envelope).total_claimed >= old(envelope).total_claimed,
{
    if now < envelope.expiry {
        return Err(CustomError::NotExpired);
    }

    if envelope.owner != caller {
        return Err(CustomError::InvalidOwner);
    }

    let remaining = envelope.amount - envelope.total_claimed;
    if remaining == 0 {
        return Err(CustomError::NothingToRefund);
    }

    envelope.total_claimed = envelope.amount;
    Ok(remaining)
}

} // verus!
