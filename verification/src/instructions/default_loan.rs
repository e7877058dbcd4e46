//! Default: the lender takes the collateral of a loan that was not repaid in
//! time.
//!
//! The lender's claim opens when the borrower's window closes, not before: at
//! every time exactly one of repayment and default is open to a funded loan.

use vstd::prelude::*;
use crate::accounts::{Account, TokenAccount, Wallet};
use crate::error::ErrorCode;
use crate::escrow::{holds_escrow_of, release_error, release_to, Escrow};
use crate::events::NFTClaimed;
use crate::pubkey::Pubkey;
use crate::state::{Loan, LoanStatus, Platform};

verus! {

/// The accounts of a default. The caller acts as lender.
#[derive(Clone, Copy, Debug, PartialEq, Eq)]
pub struct DefaultLoan {
    pub lender: Wallet,
    pub borrower_nft_mint: Pubkey,
    /// The lender's holding of the collateral token.
    pub lender_nft_ata: TokenAccount,
    pub platform: Account<Platform>,
    pub loan_account: Account<Loan>,
    /// The escrow that holds the collateral while the loan exists.
    pub nft_vault: Option<Escrow>,
}

impl DefaultLoan {
    /// Whether the lender can take the collateral at time `now`: platform and
    /// loan exist, the loan is `Funded` and its repayment window has closed,
    /// the caller is the lender on record, the loan's own escrow is there, and
    /// the unit fits in the lender's holding.
    pub open spec fn can_claim(self, now: i64) -> bool {
        &&& self.platform.data is Some
        &&& self.loan_account.data is Some
        &&& {
            let loan = self.loan_account.data.unwrap();
            &&& loan.status == LoanStatus::Funded
            &&& loan.overdue_at(now)
            &&& loan.lender == Some(self.lender.key)
            &&& holds_escrow_of(self.nft_vault, self.loan_account.key, loan)
            &&& self.lender_nft_ata.amount < u64::MAX
        }
    }

    /// Why the lender cannot take the collateral at time `now`, or `None`
    /// where it can. The conditions are tried in this order.
    pub open spec fn claim_error(self, now: i64) -> Option<ErrorCode> {
        if self.platform.data is None || self.loan_account.data is None {
            Some(ErrorCode::AccountNotInitialized)
        } else {
            let loan = self.loan_account.data.unwrap();
            if loan.status == LoanStatus::Repaid {
                Some(ErrorCode::LoanAlreadyRepaid)
            } else if loan.status == LoanStatus::Defaulted {
                Some(ErrorCode::LoanAlreadyDefaulted)
            } else if loan.status == LoanStatus::Requested || loan.start_time is None {
                Some(ErrorCode::LoanNotStarted)
            } else if !loan.overdue_at(now) {
                Some(ErrorCode::WaitForLoanToComplete)
            } else if loan.lender != Some(self.lender.key) {
                Some(ErrorCode::LenderNotMatched)
            } else {
                release_error(self.nft_vault, self.lender_nft_ata, self.loan_account.key, loan)
            }
        }
    }

    /// The accounts after the default: the collateral unit is with the
    /// lender, and the escrow and the loan record are gone.
    pub open spec fn claimed(self) -> DefaultLoan {
        DefaultLoan {
            lender_nft_ata: TokenAccount { amount: (self.lender_nft_ata.amount + 1) as u64 },
            nft_vault: None,
            loan_account: Account { data: None, ..self.loan_account },
            ..self
        }
    }

    /// What a default at time `now` reports.
    pub open spec fn claim_receipt(self, now: i64) -> NFTClaimed {
        NFTClaimed {
            loan: self.loan_account.key,
            borrower: self.loan_account.data.unwrap().borrower,
            nft_mint: self.borrower_nft_mint,
            timestamp: now,
        }
    }

    /// The lender on record takes the collateral of a loan that is still
    /// `Funded` when its repayment window has closed. The escrow and the loan
    /// record are destroyed with it. On rejection nothing changes.
    pub fn claim_nft(&mut self, now: i64) -> (r: Result<NFTClaimed, ErrorCode>)
        ensures
            (match old(self).claim_error(now) {
                Some(e) => r == Err::<NFTClaimed, ErrorCode>(e) && *final(self) == *old(self),
                None => r == Ok::<NFTClaimed, ErrorCode>(old(self).claim_receipt(now))
                    && *final(self) == old(self).claimed(),
            }),
            r is Ok <==> old(self).can_claim(now),
            r is Ok ==> old(self).loan_account.data.unwrap().status == LoanStatus::Funded && old(
                self,
            ).loan_account.data.unwrap().overdue_at(now),
            r is Ok ==> final(self).loan_account.data is None && final(self).nft_vault is None,
            old(self).loan_account.data is None ==> r == Err::<NFTClaimed, ErrorCode>(
                ErrorCode::AccountNotInitialized,
            ),
    {
        if self.platform.data.is_none() {
            return Err(ErrorCode::AccountNotInitialized);
        }
        let loan = match self.loan_account.data {
            Some(loan) => loan,
            None => {
                return Err(ErrorCode::AccountNotInitialized);
            },
        };
        if loan.status == LoanStatus::Repaid {
            return Err(ErrorCode::LoanAlreadyRepaid);
        }
        if loan.status == LoanStatus::Defaulted {
            return Err(ErrorCode::LoanAlreadyDefaulted);
        }
        if loan.status == LoanStatus::Requested || loan.start_time.is_none() {
            return Err(ErrorCode::LoanNotStarted);
        }
        if !loan.is_overdue_at(now) {
            return Err(ErrorCode::WaitForLoanToComplete);
        }
        if !(loan.lender == Some(self.lender.key)) {
            return Err(ErrorCode::LenderNotMatched);
        }
        match release_to(
            &mut self.nft_vault,
            &mut self.lender_nft_ata,
            &self.loan_account.key,
            &loan,
        ) {
            Ok(()) => {},
            Err(e) => {
                return Err(e);
            },
        }
        self.loan_account.data = None;
        Ok(
            NFTClaimed {
                loan: self.loan_account.key,
                borrower: loan.borrower,
                nft_mint: self.borrower_nft_mint,
                timestamp: now,
            },
        )
    }
}

} // verus!
