use vstd::prelude::*;

use crate::key::Key;
use crate::queue::{ClaimQueueEntry, VoterRecord, VoterRecordView};
use crate::state::{Court, Dispute, DisputeStatus};

verus! {

/// Why a claim was refused. A refused claim changes nothing.
#[derive(Clone, Copy, Debug, PartialEq, Eq, Structural)]
pub enum ClaimError {
    /// The voter record has no pending settlement.
    UserHasNoUnclaimedDisputes,
    /// The dispute claimed is not the one at the head of the voter's queue.
    UserCannotClaimDispute,
    /// The dispute has not concluded.
    DisputeNotClaimable,
    /// The reputation mint supplied is not the court's.
    ReputationMintMismatch,
    /// The payment mint supplied is not the court's.
    ProtocolMintMismatch,
    /// A reputation transfer is owed but no destination account was supplied.
    ReputationAtaMissing,
    /// A payment transfer is owed but its destination, vault or mint was not supplied.
    PaymentAtaMissing,
    /// The reward pool cannot be computed: no submitted case, no vote for the
    /// winner, or a sum beyond 64 bits.
    RewardOutOfRange,
    /// Releasing the stakes would take a stake counter below zero.
    StakeUnderflow,
}

/// The part the claimant played in a concluded dispute.
#[derive(Clone, Copy, Debug, PartialEq, Eq, Structural)]
pub enum Role {
    /// The prevailing party: its stake comes back.
    WinningParty,
    /// A party that did not prevail: its stake is forfeited.
    LosingParty,
    /// A voter that backed the prevailing party: it shares the reward pool.
    WinningVoter,
    /// A voter that backed another candidate: its stake is forfeited.
    LosingVoter,
    /// A party of a dispute without a winner: its stake comes back.
    RefundedParty,
    /// A voter of a dispute without a winner: its stake comes back.
    RefundedVoter,
}

/// What the claimant presents beside the records: who claims, the token mints it
/// names, and which token accounts it supplied.
#[derive(Clone, Copy, Debug)]
pub struct Claim {
    pub user: Key,
    pub rep_mint: Key,
    pub pay_mint: Option<Key>,
    /// The claimant's reputation token account was supplied.
    pub user_rep_ata: bool,
    /// The claimant's payment token account was supplied.
    pub user_pay_ata: bool,
    /// The dispute's payment vault was supplied.
    pub pay_vault: bool,
}

/// The result of an accepted claim: the claimant's role and the amounts to move
/// from the dispute's vaults to the claimant.
#[derive(Clone, Copy, Debug, PartialEq, Eq, Structural)]
pub struct Settlement {
    pub role: Role,
    pub rep_amount: u64,
    pub pay_amount: u64,
}

pub open spec fn is_party(d: Dispute, user: Key) -> bool {
    d.users@.contains(Some(user))
}

/// The role of `user`, who backed `backed`, in a concluded dispute.
pub open spec fn role_of(d: Dispute, user: Key, backed: Key) -> Role {
    match d.status {
        DisputeStatus::Concluded { winner: Some(w) } => {
            if user == w {
                Role::WinningParty
            } else if is_party(d, user) {
                Role::LosingParty
            } else if backed == w {
                Role::WinningVoter
            } else {
                Role::LosingVoter
            }
        },
        _ => {
            if is_party(d, user) {
                Role::RefundedParty
            } else {
                Role::RefundedVoter
            }
        },
    }
}

/// The reputation pool shared by the winning voters: the stakes of the losing
/// parties, the protocol's seed and every voter's stake.
pub open spec fn rep_pool(d: Dispute) -> int {
    (d.submitted_cases - 1) * d.config.rep_cost + d.config.protocol_rep + d.votes
        * d.config.voter_rep_cost
}

/// The payment pool shared by the winning voters: the losing parties' stakes and
/// the protocol's seed.
pub open spec fn pay_pool(d: Dispute) -> int {
    (d.submitted_cases - 1) * d.config.pay_cost + d.config.protocol_pay
}

/// The reward pools can be divided: a case was submitted, the leader has a vote,
/// and each pool fits in 64 bits.
pub open spec fn pools_in_range(d: Dispute) -> bool {
    &&& d.submitted_cases >= 1
    &&& d.leader.votes >= 1
    &&& rep_pool(d) <= u64::MAX
    &&& pay_pool(d) <= u64::MAX
}

/// Each winning voter's reputation reward; the remainder of the division stays in the vault.
pub open spec fn rep_reward(d: Dispute) -> int {
    rep_pool(d) / (d.leader.votes as int)
}

/// Each winning voter's payment reward; the remainder of the division stays in the vault.
pub open spec fn pay_reward(d: Dispute) -> int {
    pay_pool(d) / (d.leader.votes as int)
}

/// The reputation transferred to a claimant in `role`.
pub open spec fn rep_transfer(d: Dispute, role: Role) -> int {
    match role {
        Role::WinningParty | Role::RefundedParty => d.config.rep_cost as int,
        Role::WinningVoter => rep_reward(d),
        Role::RefundedVoter => d.config.voter_rep_cost as int,
        _ => 0,
    }
}

/// The payment transferred to a claimant in `role`; none where the court has no payment mint.
pub open spec fn pay_transfer(d: Dispute, court: Court, role: Role) -> int {
    if court.pay_mint is None {
        0
    } else {
        match role {
            Role::WinningParty | Role::RefundedParty => d.config.pay_cost as int,
            Role::WinningVoter => pay_reward(d),
            _ => 0,
        }
    }
}

/// The reputation hold released without a transfer.
pub open spec fn rep_hold_release(d: Dispute, role: Role) -> int {
    match role {
        Role::LosingParty => d.config.rep_cost as int,
        Role::LosingVoter => d.config.voter_rep_cost as int,
        _ => 0,
    }
}

/// The payment hold released without a transfer. A winning voter's payment hold
/// goes down by its reputation stake.
pub open spec fn pay_hold_release(d: Dispute, role: Role) -> int {
    match role {
        Role::LosingParty => d.config.pay_cost as int,
        Role::WinningVoter => d.config.voter_rep_cost as int,
        _ => 0,
    }
}

/// The outcome of a claim of `dispute_id` on record `rec`: the settlement and the
/// record after it, or the first check that fails.
pub open spec fn claim_outcome(
    rec: VoterRecordView,
    d: Dispute,
    court: Court,
    a: Claim,
    dispute_id: u64,
) -> Result<(Settlement, VoterRecordView), ClaimError> {
    let q = rec.claim_queue;
    if q.len() == 0 {
        Err(ClaimError::UserHasNoUnclaimedDisputes)
    } else if q[0].dispute_id != dispute_id {
        Err(ClaimError::UserCannotClaimDispute)
    } else if d.status is Active {
        Err(ClaimError::DisputeNotClaimable)
    } else if a.rep_mint != court.rep_mint {
        Err(ClaimError::ReputationMintMismatch)
    } else if a.pay_mint is Some && a.pay_mint != court.pay_mint {
        Err(ClaimError::ProtocolMintMismatch)
    } else {
        let role = role_of(d, a.user, q[0].user_voted_for);
        if role == Role::WinningVoter && !pools_in_range(d) {
            Err(ClaimError::RewardOutOfRange)
        } else {
            let rep = rep_transfer(d, role);
            let pay = pay_transfer(d, court, role);
            if rep > 0 && !a.user_rep_ata {
                Err(ClaimError::ReputationAtaMissing)
            } else if pay > 0 && (!a.user_pay_ata || !a.pay_vault || a.pay_mint is None) {
                Err(ClaimError::PaymentAtaMissing)
            } else {
                let rep_release = rep + rep_hold_release(d, role);
                let pay_release = pay + pay_hold_release(d, role);
                if rep_release > rec.currently_staked_rep || pay_release
                    > rec.currently_staked_pay {
                    Err(ClaimError::StakeUnderflow)
                } else {
                    Ok(
                        (
                            Settlement { role, rep_amount: rep as u64, pay_amount: pay as u64 },
                            VoterRecordView {
                                claim_queue: q.drop_first(),
                                currently_staked_rep: (rec.currently_staked_rep
                                    - rep_release) as u64,
                                currently_staked_pay: (rec.currently_staked_pay
                                    - pay_release) as u64,
                                bump: rec.bump,
                            },
                        ),
                    )
                }
            }
        }
    }
}

fn is_party_exec(d: &Dispute, user: &Key) -> (r: bool)
    ensures
        r == is_party(*d, *user),
{
    let mut i: usize = 0;
    while i < d.users.len()
        invariant
            0 <= i <= d.users@.len(),
            forall|j: int| 0 <= j < i ==> d.users@[j] != Some(*user),
        decreases d.users@.len() - i,
    {
        match d.users[i] {
            Some(k) => {
                if k == *user {
                    assert(d.users@[i as int] == Some(*user));
                    return true;
                }
            },
            None => {},
        }
        i = i + 1;
    }
    false
}

fn resolve_role(d: &Dispute, user: &Key, backed: &Key) -> (r: Role)
    ensures
        r == role_of(*d, *user, *backed),
{
    match d.status {
        DisputeStatus::Concluded { winner: Some(w) } => {
            if *user == w {
                Role::WinningParty
            } else if is_party_exec(d, user) {
                Role::LosingParty
            } else if *backed == w {
                Role::WinningVoter
            } else {
                Role::LosingVoter
            }
        },
        _ => {
            if is_party_exec(d, user) {
                Role::RefundedParty
            } else {
                Role::RefundedVoter
            }
        },
    }
}

/// Each winning voter's reputation and payment reward, or `None` where the pools
/// cannot be divided.
pub fn voter_rewards(d: &Dispute) -> (r: Option<(u64, u64)>)
    ensures
        r is None <==> !pools_in_range(*d),
        r matches Some((rep, pay)) ==> rep == rep_reward(*d) && pay == pay_reward(*d),
{
    if d.submitted_cases == 0 || d.leader.votes == 0 {
        return None;
    }
    let others: u64 = (d.submitted_cases - 1) as u64;
    let rep_pool: u64 = match others.checked_mul(d.config.rep_cost) {
        None => return None,
        Some(x) => match x.checked_add(d.config.protocol_rep) {
            None => return None,
            Some(y) => match d.votes.checked_mul(d.config.voter_rep_cost) {
                None => return None,
                Some(z) => match y.checked_add(z) {
                    None => return None,
                    Some(t) => t,
                },
            },
        },
    };
    let pay_pool: u64 = match others.checked_mul(d.config.pay_cost) {
        None => return None,
        Some(x) => match x.checked_add(d.config.protocol_pay) {
            None => return None,
            Some(t) => t,
        },
    };
    Some((rep_pool / d.leader.votes, pay_pool / d.leader.votes))
}

/// Settles the head of `record`'s claim queue against a concluded dispute.
///
/// Every check is made before anything changes: on an error the record is left as
/// it was. On success the head entry leaves the queue, the stake counters go down
/// by what is transferred and by the holds released, and the result names the
/// amounts to move from the dispute's vaults to the claimant.
pub fn claim(
    record: &mut VoterRecord,
    dispute: &Dispute,
    court: &Court,
    accounts: &Claim,
    dispute_id: u64,
) -> (r: Result<Settlement, ClaimError>)
    ensures
        claim_outcome(old(record)@, *dispute, *court, *accounts, dispute_id) matches Ok((s, next))
            ==> r == Ok::<Settlement, ClaimError>(s) && final(record)@ == next,
        claim_outcome(old(record)@, *dispute, *court, *accounts, dispute_id) matches Err(e)
            ==> r == Err::<Settlement, ClaimError>(e),
        r is Err ==> final(record)@ == old(record)@,
{
    let head = match record.claim_queue.peek() {
        None => return Err(ClaimError::UserHasNoUnclaimedDisputes),
        Some(e) => e,
    };
    if head.dispute_id != dispute_id {
        return Err(ClaimError::UserCannotClaimDispute);
    }
    match dispute.status {
        DisputeStatus::Active => return Err(ClaimError::DisputeNotClaimable),
        _ => {},
    }
    if !(accounts.rep_mint == court.rep_mint) {
        return Err(ClaimError::ReputationMintMismatch);
    }
    match accounts.pay_mint {
        Some(m) => match court.pay_mint {
            Some(c) => {
                if !(m == c) {
                    return Err(ClaimError::ProtocolMintMismatch);
                }
            },
            None => return Err(ClaimError::ProtocolMintMismatch),
        },
        None => {},
    }
    let role = resolve_role(dispute, &accounts.user, &head.user_voted_for);
    let cfg = dispute.config;
    let (rep, full_pay): (u64, u64) = match role {
        Role::WinningParty | Role::RefundedParty => (cfg.rep_cost, cfg.pay_cost),
        Role::WinningVoter => match voter_rewards(dispute) {
            None => return Err(ClaimError::RewardOutOfRange),
            Some(p) => p,
        },
        Role::RefundedVoter => (cfg.voter_rep_cost, 0),
        _ => (0, 0),
    };
    let pay: u64 = match court.pay_mint {
        None => 0,
        Some(_) => full_pay,
    };
    if rep > 0 && !accounts.user_rep_ata {
        return Err(ClaimError::ReputationAtaMissing);
    }
    let pay_mint_given: bool = match accounts.pay_mint {
        None => false,
        Some(_) => true,
    };
    if pay > 0 && (!accounts.user_pay_ata || !accounts.pay_vault || !pay_mint_given) {
        return Err(ClaimError::PaymentAtaMissing);
    }
    let (rep_hold, pay_hold): (u64, u64) = match role {
        Role::LosingParty => (cfg.rep_cost, cfg.pay_cost),
        Role::WinningVoter => (0, cfg.voter_rep_cost),
        Role::LosingVoter => (cfg.voter_rep_cost, 0),
        _ => (0, 0),
    };
    if rep > record.currently_staked_rep || rep_hold > record.currently_staked_rep - rep {
        return Err(ClaimError::StakeUnderflow);
    }
    if pay > record.currently_staked_pay || pay_hold > record.currently_staked_pay - pay {
        return Err(ClaimError::StakeUnderflow);
    }
    let _ = record.claim_queue.pop();
    record.currently_staked_rep = record.currently_staked_rep - rep - rep_hold;
    record.currently_staked_pay = record.currently_staked_pay - pay - pay_hold;
    Ok(Settlement { role, rep_amount: rep, pay_amount: pay })
}

} // verus!
