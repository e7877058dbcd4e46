//! Cancellation: the borrower withdraws a request that nobody has funded.

use vstd::prelude::*;
use crate::accounts::{Account, TokenAccount, Wallet};
use crate::error::ErrorCode;
use crate::escrow::{holds_escrow_of, release_error, release_to, Escrow};
use crate::events::LoanCancelled;
use crate::pubkey::Pubkey;
use crate::state::{Loan, LoanStatus, Platform};

verus! {

/// The accounts of a cancellation. The caller acts as borrower.
#[derive(Clone, Copy, Debug, PartialEq, Eq)]
pub struct BorrowerCancelLoan {
    pub borrower: Wallet,
    pub borrower_nft_mint: Pubkey,
    /// The borrower's holding of the collateral token.
    pub borrower_nft_ata: TokenAccount,
    pub loan_account: Account<Loan>,
    /// The escrow that holds the collateral while the loan exists.
    pub nft_vault: Option<Escrow>,
    pub platform: Account<Platform>,
}

impl BorrowerCancelLoan {
    /// Whether the cancellation goes through: platform and loan exist, the
    /// loan is `Requested`, its own escrow is there, and the unit fits in the
    /// borrower's holding.
    pub open spec fn can_cancel(self) -> bool {
        &&& self.platform.data is Some
        &&& self.loan_account.data is Some
        &&& self.loan_account.data.unwrap().status == LoanStatus::Requested
        &&& holds_escrow_of(self.nft_vault, self.loan_account.key, self.loan_account.data.unwrap())
        &&& self.borrower_nft_ata.amount < u64::MAX
    }

    /// Why the cancellation is rejected, or `None` where it goes through. The
    /// conditions are tried in this order.
    pub open spec fn cancel_error(self) -> Option<ErrorCode> {
        if self.platform.data is None || self.loan_account.data is None {
            Some(ErrorCode::AccountNotInitialized)
        } else if self.loan_account.data.unwrap().status != LoanStatus::Requested {
            Some(ErrorCode::LoanAlreadyFunded)
        } else {
            release_error(
                self.nft_vault,
                self.borrower_nft_ata,
                self.loan_account.key,
                self.loan_account.data.unwrap(),
            )
        }
    }

    /// The accounts after the cancellation: the collateral unit is back with
    /// the borrower, and the escrow and the loan record are gone. No funds
    /// have moved.
    pub open spec fn cancelled(self) -> BorrowerCancelLoan {
        BorrowerCancelLoan {
            borrower_nft_ata: TokenAccount { amount: (self.borrower_nft_ata.amount + 1) as u64 },
            nft_vault: None,
            loan_account: Account { data: None, ..self.loan_account },
            ..self
        }
    }

    /// What a cancellation at time `now` reports.
    pub open spec fn cancel_receipt(self, now: i64) -> LoanCancelled {
        LoanCancelled {
            borrower: self.borrower.key,
            nft_mint: self.borrower_nft_mint,
            platform: self.platform.key,
            timestamp: now,
        }
    }

    /// The borrower withdraws the request and takes the collateral back. This
    /// is open only while the loan is `Requested`. The escrow and the loan
    /// record are destroyed. On rejection nothing changes.
    pub fn cancel_loan(&mut self, now: i64) -> (r: Result<LoanCancelled, ErrorCode>)
        ensures
            (match old(self).cancel_error() {
                Some(e) => r == Err::<LoanCancelled, ErrorCode>(e) && *final(self) == *old(self),
                None => r == Ok::<LoanCancelled, ErrorCode>(old(self).cancel_receipt(now))
                    && *final(self) == old(self).cancelled(),
            }),
            r is Ok <==> old(self).can_cancel(),
            r is Ok ==> old(self).loan_account.data.unwrap().status == LoanStatus::Requested,
            r is Ok ==> final(self).loan_account.data is None && final(self).nft_vault is None,
            r is Ok ==> final(self).borrower == old(self).borrower,
            old(self).loan_account.data is None ==> r == Err::<LoanCancelled, ErrorCode>(
                ErrorCode::AccountNotInitialized,
            ),
            old(self).loan_account.data is Some && old(self).loan_account.data.unwrap().status
                != LoanStatus::Requested ==> r is Err && *final(self) == *old(self),
    {
        if self.platform.data.is_none() {
            return Err(ErrorCode::AccountNotInitialized);
        }
        let loan = match self.loan_account.data {
            Some(loan) => loan,
            None => {
                return Err(ErrorCode::AccountNotInitialized);
            },
        };
        if loan.status != LoanStatus::Requested {
            return Err(ErrorCode::LoanAlreadyFunded);
        }
        match release_to(
            &mut self.nft_vault,
            &mut self.borrower_nft_ata,
            &self.loan_account.key,
            &loan,
        ) {
            Ok(()) => {},
            Err(e) => {
                return Err(e);
            },
        }
        self.loan_account.data = None;
        Ok(
            LoanCancelled {
                borrower: self.borrower.key,
                nft_mint: self.borrower_nft_mint,
                platform: self.platform.key,
                timestamp: now,
            },
        )
    }
}

} // verus!
