//! What each lifecycle operation reports to observers when it succeeds.

use vstd::prelude::*;
use crate::pubkey::Pubkey;

verus! {

/// A lender has funded a loan.
#[derive(Clone, Copy, Debug, PartialEq, Eq)]
pub struct LoanFunded {
    pub lender: Pubkey,
    pub loan_amount: u64,
    pub funded_at: i64,
}

/// A borrower has requested a loan and locked the collateral.
#[derive(Clone, Copy, Debug, PartialEq, Eq)]
pub struct LoanRequested {
    pub borrower: Pubkey,
    pub nft_mint: Pubkey,
    pub loan_amount: u64,
    pub duration: u32,
    /// The low eight bits of the loan's interest rate.
    pub interest_rate: u8,
    /// The time of the request, as an unsigned 64-bit number.
    pub timestamp: u64,
}

/// A borrower has repaid a loan.
#[derive(Clone, Copy, Debug, PartialEq, Eq)]
pub struct LoanRepaid {
    pub loan: Pubkey,
    pub borrower: Pubkey,
    pub lender: Pubkey,
    /// What the lender received.
    pub repaid_amount: u64,
    /// What the platform's treasury received.
    pub fee_for_platform: u64,
    pub timestamp: i64,
}

/// The collateral of a loan has left the escrow.
#[derive(Clone, Copy, Debug, PartialEq, Eq)]
pub struct NFTClaimed {
    pub loan: Pubkey,
    pub borrower: Pubkey,
    pub nft_mint: Pubkey,
    pub timestamp: i64,
}

/// A borrower has withdrawn a loan request that nobody had funded.
#[derive(Clone, Copy, Debug, PartialEq, Eq)]
pub struct LoanCancelled {
    pub borrower: Pubkey,
    pub nft_mint: Pubkey,
    pub platform: Pubkey,
    pub timestamp: i64,
}

impl LoanRequested {
    /// The low eight bits of an interest rate, as a request reports it.
    pub open spec fn rate_field(interest_rate: u16) -> u8 {
        (interest_rate % 256) as u8
    }

    /// A signed time as the unsigned 64-bit number with the same bits: a time
    /// before the epoch is reported 2^64 higher.
    pub open spec fn time_field(now: i64) -> u64 {
        if now >= 0 {
            now as u64
        } else {
            (now + 0x1_0000_0000_0000_0000) as u64
        }
    }

    /// Computes `rate_field`.
    pub fn rate_field_of(interest_rate: u16) -> (low: u8)
        ensures
            low == LoanRequested::rate_field(interest_rate),
    {
        (interest_rate % 256) as u8
    }

    /// Computes `time_field`.
    pub fn time_field_of(now: i64) -> (unsigned: u64)
        ensures
            unsigned == LoanRequested::time_field(now),
    {
        if now >= 0 {
            now as u64
        } else {
            ((now as i128) + 0x1_0000_0000_0000_0000i128) as u64
        }
    }
}

} // verus!
