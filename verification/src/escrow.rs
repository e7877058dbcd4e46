//! The escrow: where the collateral of a loan is held while the loan exists.
//!
//! The escrow of a loan is created when the collateral is locked and
//! destroyed when it is released. In between it holds exactly one unit, and
//! no party's key opens it: a unit leaves only through [`release_to`], on the
//! authority of the loan record that it belongs to.

use vstd::prelude::*;
use crate::accounts::{Account, TokenAccount};
use crate::error::ErrorCode;
use crate::pubkey::Pubkey;
use crate::state::{Loan, LoanStatus};

verus! {

/// The escrow of one loan. It exists exactly while it holds the loan's one
/// collateral unit.
#[derive(Clone, Copy, Debug, PartialEq, Eq)]
pub struct Escrow {
    /// The token of which one unit is held.
    pub mint: Pubkey,
    /// The address of the loan record that the escrow belongs to.
    pub authority: Pubkey,
}

impl Escrow {
    /// Whether this is the escrow of `loan`, the record that lives at
    /// `loan_key`: it holds the loan's collateral, and the record is its
    /// authority.
    pub open spec fn belongs_to(self, loan_key: Pubkey, loan: Loan) -> bool {
        self.mint == loan.nft_mint && self.authority == loan_key
    }

    /// Whether this is the escrow of `loan`, the record that lives at
    /// `loan_key`.
    pub fn is_escrow_of(&self, loan_key: &Pubkey, loan: &Loan) -> (own: bool)
        ensures
            own == self.belongs_to(*loan_key, *loan),
    {
        self.mint == loan.nft_mint && self.authority == *loan_key
    }
}

/// Whether `nft_vault` holds the escrow of `loan`, so that the record at
/// `loan_key` can release the collateral from it.
pub open spec fn holds_escrow_of(nft_vault: Option<Escrow>, loan_key: Pubkey, loan: Loan) -> bool {
    nft_vault is Some && nft_vault.unwrap().belongs_to(loan_key, loan)
}

/// Whether a loan record and an escrow belong together as they rest between
/// two operations: both exist or neither, the record is well formed, and the
/// escrow holds the loan's collateral under the authority of the record.
pub open spec fn custody_consistent(loan_account: Account<Loan>, nft_vault: Option<Escrow>) -> bool {
    match loan_account.data {
        None => nft_vault is None,
        Some(loan) => {
            &&& loan.well_formed()
            &&& loan.status == LoanStatus::Requested || loan.status == LoanStatus::Funded
            &&& nft_vault == Some(Escrow { mint: loan.nft_mint, authority: loan_account.key })
        },
    }
}

/// Why a collateral unit cannot go from `holder` into a new escrow at
/// `nft_vault`, or `None` where it can: an escrow is there already, or the
/// holder has no unit.
pub open spec fn deposit_error(nft_vault: Option<Escrow>, holder: TokenAccount) -> Option<ErrorCode> {
    if nft_vault is Some {
        Some(ErrorCode::AccountAlreadyInitialized)
    } else if holder.amount < 1 {
        Some(ErrorCode::InsufficientBalance)
    } else {
        None
    }
}

/// Why the collateral of `loan` cannot go from its escrow to `holder`, or
/// `None` where it can: the loan's own escrow is not there, or the unit does
/// not fit in the holding.
pub open spec fn release_error(
    nft_vault: Option<Escrow>,
    holder: TokenAccount,
    loan_key: Pubkey,
    loan: Loan,
) -> Option<ErrorCode> {
    if !holds_escrow_of(nft_vault, loan_key, loan) {
        Some(ErrorCode::AccountNotInitialized)
    } else if holder.amount + 1 > u64::MAX {
        Some(ErrorCode::ArithmeticOverflow)
    } else {
        None
    }
}

/// Takes exactly one unit of `mint` out of `holder` and creates the escrow
/// that holds it, under the authority of the loan record at `loan_key`. On
/// rejection nothing changes.
pub fn deposit_from(
    nft_vault: &mut Option<Escrow>,
    holder: &mut TokenAccount,
    mint: Pubkey,
    loan_key: Pubkey,
) -> (r: Result<(), ErrorCode>)
    ensures
        (match deposit_error(*old(nft_vault), *old(holder)) {
            Some(e) => r == Err::<(), ErrorCode>(e) && *final(nft_vault) == *old(nft_vault)
                && *final(holder) == *old(holder),
            None => r is Ok && *final(nft_vault) == Some(Escrow { mint, authority: loan_key })
                && final(holder).amount == old(holder).amount - 1,
        }),
{
    if nft_vault.is_some() {
        return Err(ErrorCode::AccountAlreadyInitialized);
    }
    if holder.amount < 1 {
        return Err(ErrorCode::InsufficientBalance);
    }
    holder.amount = holder.amount - 1;
    *nft_vault = Some(Escrow { mint, authority: loan_key });
    Ok(())
}

/// Hands the collateral unit of `loan` from its escrow to `holder` and
/// destroys the escrow. The loan record at `loan_key` is the authority that
/// releases it: the escrow of another loan stays closed. On rejection nothing
/// changes.
pub fn release_to(
    nft_vault: &mut Option<Escrow>,
    holder: &mut TokenAccount,
    loan_key: &Pubkey,
    loan: &Loan,
) -> (r: Result<(), ErrorCode>)
    ensures
        (match release_error(*old(nft_vault), *old(holder), *loan_key, *loan) {
            Some(e) => r == Err::<(), ErrorCode>(e) && *final(nft_vault) == *old(nft_vault)
                && *final(holder) == *old(holder),
            None => r is Ok && *final(nft_vault) is None && final(holder).amount == old(
                holder,
            ).amount + 1,
        }),
{
    let held = match nft_vault {
        Some(escrow) => escrow.is_escrow_of(loan_key, loan),
        None => false,
    };
    if !held {
        return Err(ErrorCode::AccountNotInitialized);
    }
    let units = match holder.amount.checked_add(1) {
        Some(units) => units,
        None => {
            return Err(ErrorCode::ArithmeticOverflow);
        },
    };
    holder.amount = units;
    *nft_vault = None;
    Ok(())
}

} // verus!
