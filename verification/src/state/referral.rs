use vstd::prelude::*;

verus! {

/// The registered name of a referrer.
#[derive(Clone, Copy, Debug)]
pub struct ReferrerName {
    pub authority: [u8; 32],
    pub user: [u8; 32],
    pub user_stats: [u8; 32],
    pub name: [u8; 32],
}

} // verus!
