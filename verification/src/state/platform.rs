//! The platform registry: the one configuration record of the system.

use vstd::prelude::*;
use crate::pubkey::Pubkey;

verus! {

/// The platform's configuration. It is created once by an administrator and
/// read by every loan operation.
#[derive(Clone, Copy, Debug, PartialEq, Eq)]
pub struct Platform {
    /// The administrator who created the platform.
    pub authority: Pubkey,
    /// The platform's share of the interest of a repaid loan, in basis points.
    pub fee_bps: u16,
    /// Address marker of the reward-issuance authority.
    pub reward_bump: u8,
    /// Address marker of the treasury.
    pub treasury_bump: u8,
    /// Address marker of the platform record itself.
    pub bump: u8,
}

} // verus!
