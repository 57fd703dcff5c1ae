// Settlement of concluded disputes: the dispute and voter records, the per-voter
// claim queue, and the claim that releases stakes and pays rewards.

pub mod key;
pub mod laws;
pub mod queue;
pub mod settle;
pub mod state;
