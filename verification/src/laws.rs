//! Laws of the envelope lifecycle, stated and proved over the same spec
//! functions that the operations' contracts use: `claim_outcome`,
//! `claim_step`, `refund_outcome` and `refund_step`.

use vstd::prelude::*;

use crate::service::claim_outcome;
use crate::service::claim_step;
use crate::service::lemma_random_share_bounds;
use crate::service::lemma_unique_push;
use crate::service::refund_outcome;
use crate::service::refund_step;
use crate::state::CustomError;
use crate::state::EnvelopeAccount;
use crate::state::Pubkey;

verus! {

/// Conservation across a claim: as long as claims are the only resolved
/// payouts, the cumulative payout (`withdrawn_amount`, the sum of the
/// amounts paid to the identities in `claimed_users`) equals
/// `total_claimed`, and `total_claimed` never exceeds the locked
/// `amount`. The step also keeps every identity in the claim history
/// unique, so the record stays well formed.
pub proof fn lemma_claim_accounting(
    pre: EnvelopeAccount,
    post: EnvelopeAccount,
    claimer: Pubkey,
    now: u64,
    paid: u64,
)
    requires
        pre.wf(),
        pre.random_pool_ok(),
        pre.withdrawn_amount == pre.total_claimed,
        claim_outcome(pre, claimer, now) == Ok::<u64, CustomError>(paid),
        claim_step(pre, post, claimer, paid),
    ensures
        post.withdrawn_amount == post.total_claimed,
        post.total_claimed <= post.amount,
        post.wf(),
        post.random_pool_ok(),
{
    if pre.envelope_type is GroupRandom {
        lemma_random_share_bounds(pre, claimer, now);
    }
    lemma_unique_push(pre.claimed_users@, claimer);
}

/// One successful claim, as recorded in a claim history: who claimed, at
/// what time, and how much the claim paid.
pub struct ClaimEvent {
    pub claimer: Pubkey,
    pub at: u64,
    pub paid: u64,
}

/// An execution of the record: `states` are the successive record states
/// and `history` the successful claims between them, each paying exactly
/// what `claim_outcome` promises and changing the record exactly as
/// `claim_step` describes.
pub open spec fn claims_chain(states: Seq<EnvelopeAccount>, history: Seq<ClaimEvent>) -> bool {
    &&& states.len() == history.len() + 1
    &&& forall|i: int|
        0 <= i < history.len() ==> #[trigger] claim_step(
            states[i],
            states[i + 1],
            history[i].claimer,
            history[i].paid,
        ) && claim_outcome(states[i], history[i].claimer, history[i].at) == Ok::<
            u64,
            CustomError,
        >(history[i].paid)
}

/// The total amount a claim history paid out.
pub open spec fn sum_paid(history: Seq<ClaimEvent>) -> int
    decreases history.len(),
{
    if history.len() == 0 {
        0
    } else {
        sum_paid(history.drop_last()) + history.last().paid
    }
}

/// The claimants of a history, in claim order.
pub open spec fn claimants(history: Seq<ClaimEvent>) -> Seq<Pubkey> {
    history.map_values(|event: ClaimEvent| event.claimer)
}

/// Conservation and monotonicity over every execution: however many
/// claims a well-formed record undergoes, and in whatever order the host
/// serializes them, the amounts they paid sum to exactly the growth of
/// `total_claimed`, the claim history records exactly the payees,
/// `total_claimed` never decreases and never exceeds the locked `amount`,
/// and no payee appears twice.
pub proof fn lemma_conservation(states: Seq<EnvelopeAccount>, history: Seq<ClaimEvent>)
    requires
        states.len() > 0,
        states[0].wf(),
        states[0].random_pool_ok(),
        states[0].withdrawn_amount == states[0].total_claimed,
        claims_chain(states, history),
    ensures
        states.last().wf(),
        states.last().random_pool_ok(),
        states.last().withdrawn_amount == states.last().total_claimed,
        states.last().total_claimed == states[0].total_claimed + sum_paid(history),
        states[0].total_claimed <= states.last().total_claimed <= states.last().amount
            == states[0].amount,
        states.last().claimed_users@ == states[0].claimed_users@ + claimants(history),
    decreases history.len(),
{
    if history.len() == 0 {
        assert(states.last().claimed_users@ =~= states[0].claimed_users@ + claimants(history));
    } else {
        let n = history.len() as int;
        assert(claims_chain(states.drop_last(), history.drop_last())) by {
            assert forall|i: int| 0 <= i < history.drop_last().len() implies #[trigger] claim_step(
                states.drop_last()[i],
                states.drop_last()[i + 1],
                history.drop_last()[i].claimer,
                history.drop_last()[i].paid,
            ) && claim_outcome(
                states.drop_last()[i],
                history.drop_last()[i].claimer,
                history.drop_last()[i].at,
            ) == Ok::<u64, CustomError>(history.drop_last()[i].paid) by {
                assert(claim_step(
                    states[i],
                    states[i + 1],
                    history[i].claimer,
                    history[i].paid,
                ));
            }
        }
        lemma_conservation(states.drop_last(), history.drop_last());
        assert(claim_step(states[n - 1], states[n], history[n - 1].claimer, history[n - 1].paid));
        lemma_claim_accounting(
            states[n - 1],
            states[n],
            history[n - 1].claimer,
            history[n - 1].at,
            history[n - 1].paid,
        );
        assert(states.last().claimed_users@ =~= states[0].claimed_users@ + claimants(history));
    }
}

/// Last slot exact: whichever claimant fills the final slot of a
/// `GroupRandom` envelope receives exactly the pool remaining at the
/// moment of the claim — and that claim is owed success.
pub proof fn lemma_last_slot_exact(e: EnvelopeAccount, claimer: Pubkey, now: u64)
    requires
        e.wf(),
        now < e.expiry,
        !e.claimed_users@.contains(claimer),
        e.envelope_type is GroupRandom,
        e.claimed_users@.len() + 1 == e.envelope_type->GroupRandom_total_users,
    ensures
        claim_outcome(e, claimer, now) == Ok::<u64, CustomError>(
            (e.amount - e.total_claimed) as u64,
        ),
{
}

/// Idempotent refund: once a refund has succeeded, any later refund of
/// the same record by the same caller fails with `NothingToRefund`.
pub proof fn lemma_refund_idempotent(
    pre: EnvelopeAccount,
    post: EnvelopeAccount,
    caller: Pubkey,
    now: u64,
    later: u64,
    refunded: u64,
)
    requires
        pre.wf(),
        refund_outcome(pre, caller, now) == Ok::<u64, CustomError>(refunded),
        refund_step(pre, post, refunded),
        now <= later,
    ensures
        refund_outcome(post, caller, later) == Err::<u64, CustomError>(
            CustomError::NothingToRefund,
        ),
{
}

/// The terminal marker holds: after a successful refund no claim can
/// ever succeed on the record, since the refund implies the deadline has
/// passed and the clock only moves forward.
pub proof fn lemma_no_claim_after_refund(
    pre: EnvelopeAccount,
    post: EnvelopeAccount,
    caller: Pubkey,
    claimer: Pubkey,
    now: u64,
    later: u64,
    refunded: u64,
)
    requires
        refund_outcome(pre, caller, now) == Ok::<u64, CustomError>(refunded),
        refund_step(pre, post, refunded),
        now <= later,
    ensures
        claim_outcome(post, claimer, later) == Err::<u64, CustomError>(CustomError::Expired),
{
}

/// Temporal exclusivity: a claim can only succeed strictly before the
/// expiry time and a refund only at or after it, so the two are never
/// both possible on the same record at the same instant.
pub proof fn lemma_temporal_exclusivity(
    e: EnvelopeAccount,
    claimer: Pubkey,
    caller: Pubkey,
    now: u64,
)
    ensures
        claim_outcome(e, claimer, now) is Ok ==> now < e.expiry,
        refund_outcome(e, caller, now) is Ok ==> now >= e.expiry,
        !(claim_outcome(e, claimer, now) is Ok && refund_outcome(e, caller, now) is Ok),
{
}

} // verus!
