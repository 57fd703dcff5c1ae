use agora_court::key::Key;
use agora_court::queue::{ClaimQueue, ClaimQueueEntry, VoterRecord};
use agora_court::settle::{claim, voter_rewards, Claim, ClaimError, Role, Settlement};
use agora_court::state::{Court, Dispute, DisputeConfiguration, DisputeStatus, Leader, Reputation};

fn key(n: u8) -> Key {
    Key::new([n; 32])
}

const REP_MINT: u8 = 200;
const PAY_MINT: u8 = 201;
const PARTY_P: u8 = 1;
const PARTY_Q: u8 = 2;
const PARTY_R: u8 = 3;
const VOTER: u8 = 10;

fn court() -> Court {
    Court { rep_mint: key(REP_MINT), pay_mint: Some(key(PAY_MINT)), bump: 254 }
}

fn dispute(winner: Option<Key>) -> Dispute {
    Dispute {
        status: DisputeStatus::Concluded { winner },
        config: DisputeConfiguration {
            rep_cost: 100,
            pay_cost: 50,
            protocol_rep: 0,
            protocol_pay: 0,
            voter_rep_cost: 10,
        },
        users: vec![Some(key(PARTY_P)), Some(key(PARTY_Q)), Some(key(PARTY_R))],
        submitted_cases: 3,
        votes: 5,
        leader: Leader { user: key(PARTY_P), votes: 5 },
        bump: 253,
    }
}

fn accounts(user: Key) -> Claim {
    Claim {
        user,
        rep_mint: key(REP_MINT),
        pay_mint: Some(key(PAY_MINT)),
        user_rep_ata: true,
        user_pay_ata: true,
        pay_vault: true,
    }
}

fn record(entries: &[(u64, u8)], rep: u64, pay: u64) -> VoterRecord {
    let mut r = VoterRecord::new(7);
    for &(id, backed) in entries {
        r.claim_queue.push(ClaimQueueEntry { dispute_id: id, user_voted_for: key(backed) });
    }
    r.currently_staked_rep = rep;
    r.currently_staked_pay = pay;
    r
}

#[test]
fn winning_party_gets_stake_back() {
    let mut rec = record(&[(4, PARTY_P)], 100, 50);
    let r = claim(&mut rec, &dispute(Some(key(PARTY_P))), &court(), &accounts(key(PARTY_P)), 4);
    assert_eq!(r, Ok(Settlement { role: Role::WinningParty, rep_amount: 100, pay_amount: 50 }));
    assert_eq!(rec.currently_staked_rep, 0);
    assert_eq!(rec.currently_staked_pay, 0);
    assert_eq!(rec.claim_queue.len(), 0);
}

#[test]
fn losing_party_forfeits_and_releases_holds() {
    let mut rec = record(&[(4, PARTY_Q)], 150, 80);
    let r = claim(&mut rec, &dispute(Some(key(PARTY_P))), &court(), &accounts(key(PARTY_Q)), 4);
    assert_eq!(r, Ok(Settlement { role: Role::LosingParty, rep_amount: 0, pay_amount: 0 }));
    assert_eq!(rec.currently_staked_rep, 50);
    assert_eq!(rec.currently_staked_pay, 30);
    assert!(!rec.has_unclaimed_disputes());
}

#[test]
fn winning_voter_shares_the_pool() {
    let mut rec = record(&[(4, PARTY_P)], 100, 100);
    let r = claim(&mut rec, &dispute(Some(key(PARTY_P))), &court(), &accounts(key(VOTER)), 4);
    assert_eq!(r, Ok(Settlement { role: Role::WinningVoter, rep_amount: 50, pay_amount: 20 }));
    assert_eq!(rec.currently_staked_rep, 50);
    assert_eq!(rec.currently_staked_pay, 100 - 10 - 20);
}

#[test]
fn losing_voter_releases_its_stake() {
    let mut rec = record(&[(4, PARTY_Q)], 10, 0);
    let r = claim(&mut rec, &dispute(Some(key(PARTY_P))), &court(), &accounts(key(VOTER)), 4);
    assert_eq!(r, Ok(Settlement { role: Role::LosingVoter, rep_amount: 0, pay_amount: 0 }));
    assert_eq!(rec.currently_staked_rep, 0);
    assert_eq!(rec.currently_staked_pay, 0);
}

#[test]
fn reward_formula_exact_values() {
    assert_eq!(voter_rewards(&dispute(Some(key(PARTY_P)))), Some((50, 20)));
    let mut d = dispute(Some(key(PARTY_P)));
    d.config.protocol_rep = 7;
    d.config.protocol_pay = 3;
    d.leader.votes = 3;
    // (2 * 100 + 7 + 5 * 10) / 3 = 85, (2 * 50 + 3) / 3 = 34
    assert_eq!(voter_rewards(&d), Some((85, 34)));
}

#[test]
fn reward_pool_out_of_range() {
    let mut d = dispute(Some(key(PARTY_P)));
    d.leader.votes = 0;
    assert_eq!(voter_rewards(&d), None);
    let mut d = dispute(Some(key(PARTY_P)));
    d.submitted_cases = 0;
    assert_eq!(voter_rewards(&d), None);
    let mut d = dispute(Some(key(PARTY_P)));
    d.config.rep_cost = u64::MAX;
    assert_eq!(voter_rewards(&d), None);
    let mut rec = record(&[(4, PARTY_P)], 100, 100);
    let r = claim(&mut rec, &d, &court(), &accounts(key(VOTER)), 4);
    assert_eq!(r, Err(ClaimError::RewardOutOfRange));
    assert_eq!(rec.claim_queue.len(), 1);
}

#[test]
fn no_winner_refunds_party_principal() {
    let mut rec = record(&[(4, PARTY_Q)], 100, 50);
    let r = claim(&mut rec, &dispute(None), &court(), &accounts(key(PARTY_Q)), 4);
    assert_eq!(r, Ok(Settlement { role: Role::RefundedParty, rep_amount: 100, pay_amount: 50 }));
    assert_eq!(rec.currently_staked_rep, 0);
    assert_eq!(rec.currently_staked_pay, 0);
}

#[test]
fn no_winner_refunds_voter_principal() {
    let mut rec = record(&[(4, PARTY_Q)], 10, 0);
    let r = claim(&mut rec, &dispute(None), &court(), &accounts(key(VOTER)), 4);
    assert_eq!(r, Ok(Settlement { role: Role::RefundedVoter, rep_amount: 10, pay_amount: 0 }));
    assert_eq!(rec.currently_staked_rep, 0);
}

#[test]
fn claim_succeeds_only_once() {
    let mut rec = record(&[(4, PARTY_P)], 200, 100);
    let d = dispute(Some(key(PARTY_P)));
    assert!(claim(&mut rec, &d, &court(), &accounts(key(VOTER)), 4).is_ok());
    let r = claim(&mut rec, &d, &court(), &accounts(key(VOTER)), 4);
    assert_eq!(r, Err(ClaimError::UserHasNoUnclaimedDisputes));
}

#[test]
fn second_claim_of_same_dispute_hits_next_entry() {
    let mut rec = record(&[(4, PARTY_P), (5, PARTY_P)], 200, 100);
    let d = dispute(Some(key(PARTY_P)));
    assert!(claim(&mut rec, &d, &court(), &accounts(key(VOTER)), 4).is_ok());
    let r = claim(&mut rec, &d, &court(), &accounts(key(VOTER)), 4);
    assert_eq!(r, Err(ClaimError::UserCannotClaimDispute));
}

#[test]
fn claims_follow_queue_order() {
    let mut rec = record(&[(4, PARTY_Q), (5, PARTY_Q)], 20, 0);
    let d = dispute(Some(key(PARTY_P)));
    let r = claim(&mut rec, &d, &court(), &accounts(key(VOTER)), 5);
    assert_eq!(r, Err(ClaimError::UserCannotClaimDispute));
    assert_eq!(rec.claim_queue.len(), 2);
    assert!(claim(&mut rec, &d, &court(), &accounts(key(VOTER)), 4).is_ok());
    assert!(claim(&mut rec, &d, &court(), &accounts(key(VOTER)), 5).is_ok());
    assert_eq!(rec.currently_staked_rep, 0);
    assert!(!rec.has_unclaimed_disputes());
}

#[test]
fn active_dispute_not_claimable() {
    let mut rec = record(&[(4, PARTY_P)], 100, 50);
    let mut d = dispute(Some(key(PARTY_P)));
    d.status = DisputeStatus::Active;
    let r = claim(&mut rec, &d, &court(), &accounts(key(PARTY_P)), 4);
    assert_eq!(r, Err(ClaimError::DisputeNotClaimable));
}

#[test]
fn reputation_mint_mismatch_rejected() {
    let mut rec = record(&[(4, PARTY_P)], 100, 50);
    let mut a = accounts(key(PARTY_P));
    a.rep_mint = key(99);
    let r = claim(&mut rec, &dispute(Some(key(PARTY_P))), &court(), &a, 4);
    assert_eq!(r, Err(ClaimError::ReputationMintMismatch));
}

#[test]
fn payment_mint_mismatch_rejected() {
    let mut rec = record(&[(4, PARTY_P)], 100, 50);
    let mut a = accounts(key(PARTY_P));
    a.pay_mint = Some(key(99));
    let r = claim(&mut rec, &dispute(Some(key(PARTY_P))), &court(), &a, 4);
    assert_eq!(r, Err(ClaimError::ProtocolMintMismatch));
    // a losing voter, who is owed nothing, is refused too
    let mut rec = record(&[(4, PARTY_Q)], 10, 0);
    let mut a = accounts(key(VOTER));
    a.pay_mint = Some(key(99));
    let r = claim(&mut rec, &dispute(Some(key(PARTY_P))), &court(), &a, 4);
    assert_eq!(r, Err(ClaimError::ProtocolMintMismatch));
    assert_eq!(rec.currently_staked_rep, 10);
}

#[test]
fn reputation_account_missing() {
    let mut rec = record(&[(4, PARTY_P)], 100, 50);
    let mut a = accounts(key(PARTY_P));
    a.user_rep_ata = false;
    let r = claim(&mut rec, &dispute(Some(key(PARTY_P))), &court(), &a, 4);
    assert_eq!(r, Err(ClaimError::ReputationAtaMissing));
}

#[test]
fn payment_account_missing() {
    let d = dispute(Some(key(PARTY_P)));
    let mut a = accounts(key(PARTY_P));
    a.user_pay_ata = false;
    let mut rec = record(&[(4, PARTY_P)], 100, 50);
    assert_eq!(claim(&mut rec, &d, &court(), &a, 4), Err(ClaimError::PaymentAtaMissing));
    let mut a = accounts(key(PARTY_P));
    a.pay_vault = false;
    assert_eq!(claim(&mut rec, &d, &court(), &a, 4), Err(ClaimError::PaymentAtaMissing));
    let mut a = accounts(key(PARTY_P));
    a.pay_mint = None;
    assert_eq!(claim(&mut rec, &d, &court(), &a, 4), Err(ClaimError::PaymentAtaMissing));
}

#[test]
fn reputation_only_court_skips_payment() {
    let c = Court { rep_mint: key(REP_MINT), pay_mint: None, bump: 1 };
    let mut a = accounts(key(PARTY_P));
    a.pay_mint = None;
    a.user_pay_ata = false;
    a.pay_vault = false;
    let mut rec = record(&[(4, PARTY_P)], 100, 50);
    let r = claim(&mut rec, &dispute(Some(key(PARTY_P))), &c, &a, 4);
    assert_eq!(r, Ok(Settlement { role: Role::WinningParty, rep_amount: 100, pay_amount: 0 }));
    assert_eq!(rec.currently_staked_pay, 50);
}

#[test]
fn stake_underflow_rejected() {
    let mut rec = record(&[(4, PARTY_P)], 10, 100);
    let r = claim(&mut rec, &dispute(Some(key(PARTY_P))), &court(), &accounts(key(VOTER)), 4);
    assert_eq!(r, Err(ClaimError::StakeUnderflow));
    assert_eq!(rec.currently_staked_rep, 10);
    assert_eq!(rec.claim_queue.len(), 1);
}

#[test]
fn failed_claims_leave_record_unchanged() {
    let mut rec = record(&[(4, PARTY_P), (5, PARTY_Q)], 30, 20);
    let d = dispute(Some(key(PARTY_P)));
    for _ in 0..3 {
        let r = claim(&mut rec, &d, &court(), &accounts(key(VOTER)), 9);
        assert_eq!(r, Err(ClaimError::UserCannotClaimDispute));
        assert_eq!(rec.currently_staked_rep, 30);
        assert_eq!(rec.currently_staked_pay, 20);
        assert_eq!(rec.claim_queue.len(), 2);
    }
}

#[test]
fn empty_queue_has_nothing_to_claim() {
    let mut rec = record(&[], 30, 20);
    assert!(!rec.has_unclaimed_disputes());
    let r = claim(&mut rec, &dispute(None), &court(), &accounts(key(VOTER)), 4);
    assert_eq!(r, Err(ClaimError::UserHasNoUnclaimedDisputes));
}

#[test]
fn conservation_on_a_full_settlement() {
    // three parties, five voters all backing the winner
    let d = dispute(Some(key(PARTY_P)));
    let mut rep_out: u64 = 0;
    let mut pay_out: u64 = 0;
    let mut rec = record(&[(4, PARTY_P)], 100, 50);
    let s = claim(&mut rec, &d, &court(), &accounts(key(PARTY_P)), 4).unwrap();
    rep_out += s.rep_amount;
    pay_out += s.pay_amount;
    for v in 0..5u8 {
        let mut rec = record(&[(4, PARTY_P)], 100, 100);
        let s = claim(&mut rec, &d, &court(), &accounts(key(50 + v)), 4).unwrap();
        rep_out += s.rep_amount;
        pay_out += s.pay_amount;
    }
    let rep_in = 3 * 100 + 5 * 10;
    let pay_in = 3 * 50;
    assert_eq!(rep_out, 350);
    assert!(rep_out <= rep_in);
    assert_eq!(pay_out, 150);
    assert!(pay_out <= pay_in);
}

#[test]
fn queue_is_first_in_first_out() {
    let mut q = ClaimQueue::new();
    assert!(q.is_empty());
    assert!(q.peek().is_none());
    q.push(ClaimQueueEntry { dispute_id: 1, user_voted_for: key(1) });
    q.push(ClaimQueueEntry { dispute_id: 2, user_voted_for: key(2) });
    assert_eq!(q.len(), 2);
    assert_eq!(q.peek().unwrap().dispute_id, 1);
    assert_eq!(q.pop().unwrap().dispute_id, 1);
    assert_eq!(q.pop().unwrap().user_voted_for, key(2));
    assert!(q.pop().is_none());
}

#[test]
fn keys_compare_by_every_byte() {
    let mut b = [5u8; 32];
    assert!(Key::new(b) == key(5));
    b[31] = 6;
    assert!(Key::new(b) != key(5));
    b[31] = 5;
    b[0] = 0;
    assert!(Key::new(b) != key(5));
}

#[test]
fn reputation_static_size() {
    assert_eq!(Reputation::STATIC_SIZE, 12);
}
