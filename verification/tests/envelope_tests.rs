use sols_multi_type::service::claim;
use sols_multi_type::service::create;
use sols_multi_type::service::init_user_state;
use sols_multi_type::service::refund;
use sols_multi_type::state::CustomError;
use sols_multi_type::state::EnvelopeAccount;
use sols_multi_type::state::EnvelopeType;
use sols_multi_type::state::Pubkey;
use sols_multi_type::state::MAX_CREATE_AMOUNT;

fn key(id: u64) -> Pubkey {
    Pubkey { id }
}

#[test]
fn init_user_state_starts_at_zero() {
    let st = init_user_state(key(7));
    assert_eq!(st.owner, key(7));
    assert_eq!(st.last_envelope_id, 0);
}

#[test]
fn counter_increments_per_create() {
    let creator = key(1);
    let mut st = init_user_state(creator);
    let policy = EnvelopeType::DirectFixed { allowed_address: key(2), amount: 10 };
    let first = create(creator, &mut st, policy, 1, 0).unwrap();
    assert_eq!(first.envelope_id, 1);
    assert_eq!(st.last_envelope_id, 1);
    let second = create(creator, &mut st, policy, 1, 0).unwrap();
    assert_eq!(second.envelope_id, 2);
    assert_eq!(st.last_envelope_id, 2);
}

#[test]
fn create_rejects_foreign_user_state() {
    let mut st = init_user_state(key(1));
    let policy = EnvelopeType::DirectFixed { allowed_address: key(3), amount: 10 };
    let r = create(key(2), &mut st, policy, 1, 0);
    assert_eq!(r.unwrap_err(), CustomError::InvalidOwner);
    assert_eq!(st.last_envelope_id, 0);
}

#[test]
fn create_enforces_ceiling() {
    let creator = key(1);
    let mut st = init_user_state(creator);
    let over = EnvelopeType::DirectFixed { allowed_address: key(2), amount: MAX_CREATE_AMOUNT + 1 };
    assert_eq!(create(creator, &mut st, over, 1, 0).unwrap_err(), CustomError::ExceedMaxCreate);
    assert_eq!(st.last_envelope_id, 0);
    let at_cap = EnvelopeType::GroupRandom { total_users: 2, total_amount: MAX_CREATE_AMOUNT };
    let env = create(creator, &mut st, at_cap, 1, 0).unwrap();
    assert_eq!(env.amount, MAX_CREATE_AMOUNT);
}

#[test]
fn scenario_direct_fixed() {
    let creator = key(10);
    let x = key(11);
    let y = key(12);
    let mut st = init_user_state(creator);
    let policy = EnvelopeType::DirectFixed { allowed_address: x, amount: 5_000_000 };
    let mut env = create(creator, &mut st, policy, 24, 1_000).unwrap();
    assert_eq!(env.amount, 5_000_000);

    let paid = claim(&mut env, x, 2_000).unwrap();
    assert_eq!(paid, 5_000_000);
    assert_eq!(env.total_claimed, 5_000_000);
    assert_eq!(env.withdrawn_amount, 5_000_000);
    assert_eq!(env.claimed_users, vec![x]);

    assert_eq!(claim(&mut env, x, 2_001).unwrap_err(), CustomError::AlreadyClaimed);
    assert_eq!(claim(&mut env, y, 2_002).unwrap_err(), CustomError::NotAllowed);
    assert_eq!(env.total_claimed, 5_000_000);
}

#[test]
fn scenario_group_fixed() {
    let creator = key(20);
    let mut st = init_user_state(creator);
    let policy = EnvelopeType::GroupFixed { total_users: 4, amount_per_user: 1_000 };
    let mut env = create(creator, &mut st, policy, 1, 0).unwrap();
    assert_eq!(env.amount, 4_000);

    for i in 0..4u64 {
        let paid = claim(&mut env, key(100 + i), 10).unwrap();
        assert_eq!(paid, 1_000);
    }
    assert_eq!(env.total_claimed, 4_000);
    assert_eq!(env.withdrawn_amount, 4_000);
    assert_eq!(env.claimed_users.len(), 4);

    assert_eq!(claim(&mut env, key(104), 11).unwrap_err(), CustomError::QuotaFull);
}

#[test]
fn scenario_group_random() {
    let creator = key(30);
    let mut st = init_user_state(creator);
    let policy = EnvelopeType::GroupRandom { total_users: 3, total_amount: 9_000 };
    let mut env = create(creator, &mut st, policy, 1, 0).unwrap();
    assert_eq!(env.amount, 9_000);

    // First two shares stay within [1, remaining_pool / remaining_slots];
    // the final slot receives exactly the remainder.
    let pool_before_1 = env.amount - env.total_claimed;
    let first = claim(&mut env, key(1), 1_000).unwrap();
    assert!(1 <= first && first <= pool_before_1 / 3);

    let pool_before_2 = env.amount - env.total_claimed;
    let second = claim(&mut env, key(2), 1_000).unwrap();
    assert!(1 <= second && second <= pool_before_2 / 2);

    let pool_before_3 = env.amount - env.total_claimed;
    let third = claim(&mut env, key(3), 1_000).unwrap();
    assert_eq!(third, pool_before_3);

    assert_eq!(first + second + third, 9_000);
    assert_eq!(env.total_claimed, 9_000);
    assert_eq!(env.withdrawn_amount, 9_000);
    assert_eq!(env.claimed_users, vec![key(1), key(2), key(3)]);

    // The split is a deterministic function of timestamp and address byte.
    assert_eq!(first, 1_000 % 3_000 + 1);
    assert_eq!(second, 2_000 % 3_999 + 1);
    assert_eq!(third, 9_000 - first - second);

    assert_eq!(claim(&mut env, key(4), 1_001).unwrap_err(), CustomError::QuotaFull);
}

#[test]
fn scenario_expiry_and_refund() {
    let creator = key(40);
    let x = key(41);
    let mut st = init_user_state(creator);
    let policy = EnvelopeType::DirectFixed { allowed_address: x, amount: 777 };
    let mut env = create(creator, &mut st, policy, 1, 0).unwrap();
    assert_eq!(env.expiry, 3_600);

    // A claim exactly at the deadline is already too late.
    assert_eq!(claim(&mut env, x, 3_600).unwrap_err(), CustomError::Expired);
    assert_eq!(claim(&mut env, x, 5_000).unwrap_err(), CustomError::Expired);

    // Refund of the full unclaimed amount succeeds once and only once.
    let refunded = refund(&mut env, creator, 5_000).unwrap();
    assert_eq!(refunded, 777);
    assert_eq!(env.total_claimed, env.amount);
    assert_eq!(refund(&mut env, creator, 6_000).unwrap_err(), CustomError::NothingToRefund);
}

#[test]
fn scenario_create_overflow() {
    let creator = key(50);
    let mut st = init_user_state(creator);
    let policy = EnvelopeType::GroupFixed { total_users: u64::MAX, amount_per_user: 2 };
    let r = create(creator, &mut st, policy, 1, 0);
    assert_eq!(r.unwrap_err(), CustomError::MathOverflow);
    assert_eq!(st.last_envelope_id, 0);
}

#[test]
fn refund_rejected_before_expiry_and_for_strangers() {
    let creator = key(60);
    let mut st = init_user_state(creator);
    let policy = EnvelopeType::GroupFixed { total_users: 2, amount_per_user: 50 };
    let mut env = create(creator, &mut st, policy, 1, 0).unwrap();

    assert_eq!(refund(&mut env, creator, 3_599).unwrap_err(), CustomError::NotExpired);
    assert_eq!(refund(&mut env, key(61), 3_600).unwrap_err(), CustomError::InvalidOwner);
    assert_eq!(refund(&mut env, creator, 3_600).unwrap(), 100);
}

#[test]
fn partial_claim_then_refund_remainder() {
    let creator = key(70);
    let mut st = init_user_state(creator);
    let policy = EnvelopeType::GroupFixed { total_users: 4, amount_per_user: 25 };
    let mut env = create(creator, &mut st, policy, 1, 0).unwrap();

    assert_eq!(claim(&mut env, key(71), 10).unwrap(), 25);
    assert_eq!(claim(&mut env, key(72), 20).unwrap(), 25);
    assert_eq!(refund(&mut env, creator, 3_600).unwrap(), 50);
    assert_eq!(env.total_claimed, 100);
    assert_eq!(env.withdrawn_amount, 50);
    // After the refund the record is exhausted for claimants too.
    assert_eq!(claim(&mut env, key(73), 3_601).unwrap_err(), CustomError::Expired);
}

#[test]
fn claim_insufficient_funds_guard() {
    // A record whose policy promises more than its custody balance holds
    // trips the defensive conservation guard. Such a record cannot come
    // out of create; it is built by hand here.
    let mut env = EnvelopeAccount {
        owner: key(80),
        envelope_id: 1,
        envelope_type: EnvelopeType::DirectFixed { allowed_address: key(81), amount: 100 },
        amount: 50,
        withdrawn_amount: 0,
        total_claimed: 0,
        expiry: 1_000,
        claimed_users: Vec::new(),
    };
    assert_eq!(claim(&mut env, key(81), 10).unwrap_err(), CustomError::InsufficientFunds);
    assert_eq!(env.total_claimed, 0);
}

#[test]
fn group_random_single_slot_gets_everything() {
    let creator = key(90);
    let x = key(91);
    let mut st = init_user_state(creator);
    let policy = EnvelopeType::GroupRandom { total_users: 1, total_amount: 4_242 };
    let mut env = create(creator, &mut st, policy, 1, 0).unwrap();
    assert_eq!(claim(&mut env, x, 9).unwrap(), 4_242);
    assert_eq!(env.total_claimed, 4_242);
}
