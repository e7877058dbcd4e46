//! Funding: a lender hands the principal to the borrower.

use vstd::prelude::*;
use crate::accounts::{transfer, transfer_error, Account, Wallet};
use crate::error::ErrorCode;
use crate::events::LoanFunded;
use crate::pubkey::Pubkey;
use crate::state::{Loan, LoanStatus, Platform};

verus! {

/// The accounts of a funding. The caller acts as lender.
#[derive(Clone, Copy, Debug, PartialEq, Eq)]
pub struct FundBorrower {
    pub lender: Wallet,
    pub borrower: Wallet,
    pub borrower_nft_mint: Pubkey,
    pub loan_account: Account<Loan>,
    pub platform: Account<Platform>,
}

impl FundBorrower {
    /// Whether the funding goes through: platform and loan exist, the loan
    /// has no lender and is `Requested`, the lender holds the whole
    /// principal, and it fits in the borrower's wallet.
    pub open spec fn can_fund(self) -> bool {
        &&& self.platform.data is Some
        &&& self.loan_account.data is Some
        &&& {
            let loan = self.loan_account.data.unwrap();
            &&& loan.lender is None
            &&& loan.status == LoanStatus::Requested
            &&& self.lender.lamports >= loan.loan_amount
            &&& self.borrower.lamports + loan.loan_amount <= u64::MAX
        }
    }

    /// Why the funding is rejected, or `None` where it goes through. The
    /// conditions are tried in this order.
    pub open spec fn funding_error(self) -> Option<ErrorCode> {
        if self.platform.data is None || self.loan_account.data is None {
            Some(ErrorCode::AccountNotInitialized)
        } else {
            let loan = self.loan_account.data.unwrap();
            if loan.lender is Some {
                Some(ErrorCode::LoanFunded)
            } else if loan.status != LoanStatus::Requested {
                Some(ErrorCode::LoanNotActive)
            } else {
                transfer_error(self.lender, self.borrower, loan.loan_amount)
            }
        }
    }

    /// The accounts after a funding at time `now`: the whole principal has
    /// gone from the lender to the borrower, and the loan is `Funded`, with
    /// the caller as lender and `now` as start time.
    pub open spec fn funded(self, now: i64) -> FundBorrower {
        let loan = self.loan_account.data.unwrap();
        FundBorrower {
            lender: self.lender.with_lamports((self.lender.lamports - loan.loan_amount) as u64),
            borrower: self.borrower.with_lamports(
                (self.borrower.lamports + loan.loan_amount) as u64,
            ),
            loan_account: Account {
                data: Some(loan.funded_by(self.lender.key, now)),
                ..self.loan_account
            },
            ..self
        }
    }

    /// What a funding at time `now` reports.
    pub open spec fn funding_receipt(self, now: i64) -> LoanFunded {
        LoanFunded {
            lender: self.lender.key,
            loan_amount: self.loan_account.data.unwrap().loan_amount,
            funded_at: now,
        }
    }

    /// The caller funds the loan: the principal goes to the borrower in full,
    /// and the caller becomes the lender on record, from time `now`. Exactly
    /// one lender is ever accepted. On rejection nothing changes.
    pub fn fund_borrower(&mut self, now: i64) -> (r: Result<LoanFunded, ErrorCode>)
        ensures
            (match old(self).funding_error() {
                Some(e) => r == Err::<LoanFunded, ErrorCode>(e) && *final(self) == *old(self),
                None => r == Ok::<LoanFunded, ErrorCode>(old(self).funding_receipt(now))
                    && *final(self) == old(self).funded(now),
            }),
            r is Ok <==> old(self).can_fund(),
            r is Ok && old(self).loan_account.data.unwrap().well_formed()
                ==> final(self).loan_account.data.unwrap().well_formed(),
            r is Ok ==> old(self).loan_account.data.unwrap().lender is None,
            old(self).loan_account.data is None ==> r == Err::<LoanFunded, ErrorCode>(
                ErrorCode::AccountNotInitialized,
            ),
            old(self).platform.data is Some && old(self).loan_account.data is Some && old(
                self,
            ).loan_account.data.unwrap().lender is Some ==> r == Err::<LoanFunded, ErrorCode>(
                ErrorCode::LoanFunded,
            ) && *final(self) == *old(self),
    {
        if self.platform.data.is_none() {
            return Err(ErrorCode::AccountNotInitialized);
        }
        let loan = match self.loan_account.data {
            Some(loan) => loan,
            None => {
                return Err(ErrorCode::AccountNotInitialized);
            },
        };
        if loan.lender.is_some() {
            return Err(ErrorCode::LoanFunded);
        }
        if loan.status != LoanStatus::Requested {
            return Err(ErrorCode::LoanNotActive);
        }
        match transfer(&mut self.lender, &mut self.borrower, loan.loan_amount) {
            Ok(()) => {},
            Err(e) => {
                return Err(e);
            },
        }
        self.loan_account.data = Some(
            Loan {
                lender: Some(self.lender.key),
                start_time: Some(now),
                status: LoanStatus::Funded,
                ..loan
            },
        );
        Ok(LoanFunded { lender: self.lender.key, loan_amount: loan.loan_amount, funded_at: now })
    }
}

} // verus!
