use vstd::prelude::*;

use crate::key::Key;

verus! {

/// A pending settlement: the dispute to settle and the candidate the voter backed in it.
#[derive(Clone, Copy, Debug)]
pub struct ClaimQueueEntry {
    pub dispute_id: u64,
    pub user_voted_for: Key,
}

/// A voter's pending settlements, first in first out.
#[derive(Clone, Debug)]
pub struct ClaimQueue {
    entries: Vec<ClaimQueueEntry>,
}

impl View for ClaimQueue {
    type V = Seq<ClaimQueueEntry>;

    closed spec fn view(&self) -> Seq<ClaimQueueEntry> {
        self.entries@
    }
}

impl ClaimQueue {
    pub fn new() -> (r: ClaimQueue)
        ensures
            r@ == Seq::<ClaimQueueEntry>::empty(),
    {
        ClaimQueue { entries: Vec::new() }
    }

    pub fn len(&self) -> (r: usize)
        ensures
            r == self@.len(),
    {
        self.entries.len()
    }

    pub fn is_empty(&self) -> (r: bool)
        ensures
            r == (self@.len() == 0),
    {
        self.entries.len() == 0
    }

    /// Appends an entry behind those already waiting.
    pub fn push(&mut self, entry: ClaimQueueEntry)
        ensures
            final(self)@ == old(self)@.push(entry),
    {
        self.entries.push(entry);
    }

    /// The entry at the head, left in place.
    pub fn peek(&self) -> (r: Option<ClaimQueueEntry>)
        ensures
            self@.len() == 0 ==> r is None,
            self@.len() > 0 ==> r == Some(self@[0]),
    {
        if self.entries.len() == 0 {
            None
        } else {
            Some(self.entries[0])
        }
    }

    /// Removes the entry at the head and returns it.
    pub fn pop(&mut self) -> (r: Option<ClaimQueueEntry>)
        ensures
            old(self)@.len() == 0 ==> r is None && final(self)@ == old(self)@,
            old(self)@.len() > 0 ==> r == Some(old(self)@[0]) && final(self)@ == old(self)@.drop_first(),
    {
        if self.entries.len() == 0 {
            None
        } else {
            let e = self.entries.remove(0);
            proof {
                assert(final(self)@ =~= old(self)@.drop_first());
            }
            Some(e)
        }
    }
}

/// What a voter has at stake in one court: the stakes still held and the
/// disputes still to settle.
#[derive(Clone, Debug)]
pub struct VoterRecord {
    pub claim_queue: ClaimQueue,
    pub currently_staked_rep: u64,
    pub currently_staked_pay: u64,
    /// Disambiguation byte of the record's derived address.
    pub bump: u8,
}

/// The value of a voter record: its queue as a sequence, and its stake counters.
pub struct VoterRecordView {
    pub claim_queue: Seq<ClaimQueueEntry>,
    pub currently_staked_rep: u64,
    pub currently_staked_pay: u64,
    pub bump: u8,
}

impl View for VoterRecord {
    type V = VoterRecordView;

    open spec fn view(&self) -> VoterRecordView {
        VoterRecordView {
            claim_queue: self.claim_queue@,
            currently_staked_rep: self.currently_staked_rep,
            currently_staked_pay: self.currently_staked_pay,
            bump: self.bump,
        }
    }
}

impl VoterRecord {
    /// A record with nothing staked and nothing to settle.
    pub fn new(bump: u8) -> (r: VoterRecord)
        ensures
            r@.claim_queue.len() == 0,
            r@.currently_staked_rep == 0,
            r@.currently_staked_pay == 0,
            r@.bump == bump,
    {
        VoterRecord {
            claim_queue: ClaimQueue::new(),
            currently_staked_rep: 0,
            currently_staked_pay: 0,
            bump,
        }
    }

    pub fn has_unclaimed_disputes(&self) -> (r: bool)
        ensures
            r == (self@.claim_queue.len() > 0),
    {
        !self.claim_queue.is_empty()
    }
}

} // verus!
