use vstd::prelude::*;

use crate::queue::VoterRecordView;
use crate::settle::{
    claim_outcome, pay_pool, pay_transfer, rep_pool, rep_transfer, Claim, ClaimError, Role,
    Settlement,
};
use crate::state::{Court, Dispute, DisputeStatus};

verus! {

/// Reputation staked into a dispute's vault: every submitted party's stake, the
/// protocol's seed and every voter's stake.
pub open spec fn total_rep_staked(d: Dispute) -> int {
    d.submitted_cases * d.config.rep_cost + d.config.protocol_rep + d.votes
        * d.config.voter_rep_cost
}

/// Payment staked into a dispute's vault: every submitted party's stake and the
/// protocol's seed.
pub open spec fn total_pay_staked(d: Dispute) -> int {
    d.submitted_cases * d.config.pay_cost + d.config.protocol_pay
}

/// In a dispute with a winner, the winning party's refund together with the
/// rewards of as many winning voters as the leader has votes never exceeds what
/// was staked; the remainder of the division stays behind.
pub proof fn lemma_conservation_with_winner(d: Dispute, court: Court, winning_voters: nat)
    requires
        d.status matches DisputeStatus::Concluded { winner: Some(_) },
        d.submitted_cases >= 1,
        d.leader.votes >= 1,
        winning_voters <= d.leader.votes,
    ensures
        rep_transfer(d, Role::WinningParty) + winning_voters * rep_transfer(d, Role::WinningVoter)
            <= total_rep_staked(d),
        pay_transfer(d, court, Role::WinningParty) + winning_voters * pay_transfer(
            d,
            court,
            Role::WinningVoter,
        ) <= total_pay_staked(d),
{
    let lv = d.leader.votes as int;
    let k = winning_voters as int;
    let sc = d.submitted_cases as int;
    share_bound(rep_pool(d), lv, k);
    share_bound(pay_pool(d), lv, k);
    assert(sc * d.config.rep_cost == (sc - 1) * d.config.rep_cost + d.config.rep_cost)
        by (nonlinear_arith);
    assert(sc * d.config.pay_cost == (sc - 1) * d.config.pay_cost + d.config.pay_cost)
        by (nonlinear_arith);
}

/// `k` shares of `pool / n`, for `k <= n`, add up to no more than `pool`.
proof fn share_bound(pool: int, n: int, k: int)
    requires
        0 <= pool,
        0 <= k <= n,
        n >= 1,
    ensures
        k * (pool / n) <= pool,
{
    vstd::arithmetic::div_mod::lemma_fundamental_div_mod(pool, n);
    vstd::arithmetic::div_mod::lemma_mod_bound(pool, n);
    vstd::arithmetic::div_mod::lemma_div_pos_is_pos(pool, n);
    let q = pool / n;
    assert(k * q <= n * q) by (nonlinear_arith)
        requires
            k <= n,
            q >= 0,
    ;
}

/// In a dispute without a winner, refunding the principal of at most every
/// submitted party and at most every voter never exceeds what was staked.
pub proof fn lemma_conservation_without_winner(d: Dispute, court: Court, parties: nat, voters: nat)
    requires
        d.status matches DisputeStatus::Concluded { winner: None },
        parties <= d.submitted_cases,
        voters <= d.votes,
    ensures
        parties * rep_transfer(d, Role::RefundedParty) + voters * rep_transfer(
            d,
            Role::RefundedVoter,
        ) <= total_rep_staked(d),
        parties * pay_transfer(d, court, Role::RefundedParty) + voters * pay_transfer(
            d,
            court,
            Role::RefundedVoter,
        ) <= total_pay_staked(d),
{
    let rc = d.config.rep_cost as int;
    let pc = d.config.pay_cost as int;
    let vc = d.config.voter_rep_cost as int;
    let sc = d.submitted_cases as int;
    let v = d.votes as int;
    assert(parties * rc <= sc * rc) by (nonlinear_arith)
        requires
            parties <= sc,
            rc >= 0,
    ;
    assert(voters * vc <= v * vc) by (nonlinear_arith)
        requires
            voters <= v,
            vc >= 0,
    ;
    assert(parties * pc <= sc * pc) by (nonlinear_arith)
        requires
            parties <= sc,
            pc >= 0,
    ;
}

/// A settled entry cannot be claimed again: where the dispute appears once in the
/// voter's queue, a second claim of it fails on the queue, whatever accompanies it.
pub proof fn lemma_claim_at_most_once(
    rec: VoterRecordView,
    d: Dispute,
    court: Court,
    a: Claim,
    dispute_id: u64,
    d2: Dispute,
    court2: Court,
    a2: Claim,
)
    requires
        claim_outcome(rec, d, court, a, dispute_id) is Ok,
        forall|j: int|
            1 <= j < rec.claim_queue.len() ==> #[trigger] rec.claim_queue[j].dispute_id
                != dispute_id,
    ensures
        ({
            let next = claim_outcome(rec, d, court, a, dispute_id)->Ok_0.1;
            let again = claim_outcome(next, d2, court2, a2, dispute_id);
            again == Err::<(Settlement, VoterRecordView), ClaimError>(
                ClaimError::UserHasNoUnclaimedDisputes,
            ) || again == Err::<(Settlement, VoterRecordView), ClaimError>(
                ClaimError::UserCannotClaimDispute,
            )
        }),
{
    let next = claim_outcome(rec, d, court, a, dispute_id)->Ok_0.1;
    if next.claim_queue.len() > 0 {
        assert(next.claim_queue[0] == rec.claim_queue[1]);
    }
}

/// Claims follow the queue: with two different disputes at the front, claiming
/// the second first fails, and once the first is settled the second is at the
/// head, where the queue no longer stops its claim.
pub proof fn lemma_claims_follow_queue_order(
    rec: VoterRecordView,
    d: Dispute,
    court: Court,
    a: Claim,
    d2: Dispute,
    court2: Court,
    a2: Claim,
)
    requires
        rec.claim_queue.len() >= 2,
        rec.claim_queue[0].dispute_id != rec.claim_queue[1].dispute_id,
    ensures
        claim_outcome(rec, d2, court2, a2, rec.claim_queue[1].dispute_id) == Err::<
            (Settlement, VoterRecordView),
            ClaimError,
        >(ClaimError::UserCannotClaimDispute),
        claim_outcome(rec, d, court, a, rec.claim_queue[0].dispute_id) matches Ok((_, next)) ==> {
            let later = claim_outcome(next, d2, court2, a2, rec.claim_queue[1].dispute_id);
            &&& next.claim_queue[0] == rec.claim_queue[1]
            &&& later != Err::<(Settlement, VoterRecordView), ClaimError>(
                ClaimError::UserHasNoUnclaimedDisputes,
            )
            &&& later != Err::<(Settlement, VoterRecordView), ClaimError>(
                ClaimError::UserCannotClaimDispute,
            )
        },
{
}

/// Without a winner every accepted claim refunds principal only: a party gets its
/// stake back, a voter its reputation stake, and no one a reward; the holds go
/// down by exactly what is refunded.
pub proof fn lemma_no_winner_refunds_principal(
    rec: VoterRecordView,
    d: Dispute,
    court: Court,
    a: Claim,
    dispute_id: u64,
)
    requires
        d.status matches DisputeStatus::Concluded { winner: None },
        claim_outcome(rec, d, court, a, dispute_id) is Ok,
    ensures
        ({
            let (s, next) = claim_outcome(rec, d, court, a, dispute_id)->Ok_0;
            &&& s.role == Role::RefundedParty || s.role == Role::RefundedVoter
            &&& s.role == Role::RefundedParty ==> s.rep_amount == d.config.rep_cost
                && s.pay_amount == (if court.pay_mint is Some {
                d.config.pay_cost
            } else {
                0
            })
            &&& s.role == Role::RefundedVoter ==> s.rep_amount == d.config.voter_rep_cost
                && s.pay_amount == 0
            &&& next.currently_staked_rep == rec.currently_staked_rep - s.rep_amount
            &&& next.currently_staked_pay == rec.currently_staked_pay - s.pay_amount
        }),
{
}

/// A payment mint other than the court's is refused: such a claim never settles,
/// and once the queue, the dispute's status and the reputation mint pass, it fails
/// on exactly that.
pub proof fn lemma_pay_mint_mismatch_rejected(
    rec: VoterRecordView,
    d: Dispute,
    court: Court,
    a: Claim,
    dispute_id: u64,
)
    requires
        a.pay_mint is Some,
        a.pay_mint != court.pay_mint,
    ensures
        claim_outcome(rec, d, court, a, dispute_id) is Err,
        rec.claim_queue.len() > 0 && rec.claim_queue[0].dispute_id == dispute_id
            && d.status is Concluded && a.rep_mint == court.rep_mint ==> claim_outcome(
            rec,
            d,
            court,
            a,
            dispute_id,
        ) == Err::<(Settlement, VoterRecordView), ClaimError>(ClaimError::ProtocolMintMismatch),
{
}

} // verus!
