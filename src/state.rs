use vstd::prelude::*;

use crate::key::Key;

verus! {

/// Where a dispute stands. `Concluded` is terminal: `winner` names the prevailing
/// party, or is `None` when no party prevailed.
#[derive(Clone, Copy, Debug)]
pub enum DisputeStatus {
    Active,
    Concluded { winner: Option<Key> },
}

/// The economic parameters of a dispute, fixed when it is created.
#[derive(Clone, Copy, Debug, PartialEq, Eq, Structural)]
pub struct DisputeConfiguration {
    /// Reputation staked by each party.
    pub rep_cost: u64,
    /// Payment staked by each party.
    pub pay_cost: u64,
    /// Reputation the protocol adds to the reward pool.
    pub protocol_rep: u64,
    /// Payment the protocol adds to the reward pool.
    pub protocol_pay: u64,
    /// Reputation staked by each voter.
    pub voter_rep_cost: u64,
}

/// The candidate with the most votes, and its vote count. Ties are settled by the
/// step that concludes the dispute: settlement takes the recorded winner and leader
/// as given and shares each reward pool among `votes` winning voters.
#[derive(Clone, Copy, Debug)]
pub struct Leader {
    pub user: Key,
    pub votes: u64,
}

/// One arbitration case of a court. Once concluded it is only read.
#[derive(Clone, Debug)]
pub struct Dispute {
    pub status: DisputeStatus,
    pub config: DisputeConfiguration,
    /// The party slots; a slot may be empty.
    pub users: Vec<Option<Key>>,
    /// How many parties staked and submitted a case.
    pub submitted_cases: u8,
    /// Votes cast over all candidates.
    pub votes: u64,
    pub leader: Leader,
    /// Disambiguation byte of the dispute's derived address.
    pub bump: u8,
}

/// The token types of a court: a reputation mint, and a payment mint unless the
/// court runs on reputation alone.
#[derive(Clone, Copy, Debug)]
pub struct Court {
    pub rep_mint: Key,
    pub pay_mint: Option<Key>,
    /// Disambiguation byte of the court's derived address.
    pub bump: u8,
}

/// A voter's reputation score and the keys of the disputes it still has to settle.
#[derive(Clone, Debug)]
pub struct Reputation {
    reputation: u32,
    claim_queue: Vec<Key>,
}

impl Reputation {
    /// Bytes of the record without its queue: an 8-byte discriminator and the score.
    pub const STATIC_SIZE: usize = 12;
}

} // verus!
