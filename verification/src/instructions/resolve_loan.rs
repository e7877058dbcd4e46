//! Repayment: the borrower pays the lender and the platform, and takes the
//! collateral back.

use vstd::prelude::*;
use crate::accounts::{transfer, Account, TokenAccount, Wallet};
use crate::error::ErrorCode;
use crate::escrow::{holds_escrow_of, release_error, release_to, Escrow};
use crate::events::{LoanRepaid, NFTClaimed};
use crate::pubkey::Pubkey;
use crate::settlement::Settlement;
use crate::state::{Loan, LoanStatus, Platform};

verus! {

/// The accounts of a repayment. The caller acts as borrower and names the
/// lender that is to be paid.
#[derive(Clone, Copy, Debug, PartialEq, Eq)]
pub struct ResolveLoan {
    pub borrower: Wallet,
    pub lender: Wallet,
    pub borrower_nft_mint: Pubkey,
    /// The borrower's holding of the collateral token.
    pub borrower_nft_ata: TokenAccount,
    pub platform: Account<Platform>,
    pub loan_account: Account<Loan>,
    /// The escrow that holds the collateral while the loan exists.
    pub nft_vault: Option<Escrow>,
    /// The platform's fee-collection wallet.
    pub treasury_vault: Wallet,
}

impl ResolveLoan {
    /// The settlement of the loan on record at the platform's fee.
    pub open spec fn settlement(self) -> Settlement
        recommends
            self.platform.data is Some,
            self.loan_account.data is Some,
    {
        let loan = self.loan_account.data.unwrap();
        Settlement::of(loan.loan_amount, loan.interest_rate, self.platform.data.unwrap().fee_bps)
    }

    /// Whether the payment goes through at time `now`: platform and loan
    /// exist, the repayment window is open, the loan is neither repaid nor
    /// defaulted, the lender named is the lender on record, the settlement
    /// fits in 64 bits, the borrower holds payout and fee together, and both
    /// fit in the wallets that receive them.
    pub open spec fn can_pay(self, now: i64) -> bool {
        &&& self.platform.data is Some
        &&& self.loan_account.data is Some
        &&& {
            let loan = self.loan_account.data.unwrap();
            let due = self.settlement();
            &&& loan.repayable_at(now)
            &&& loan.status != LoanStatus::Repaid
            &&& loan.status != LoanStatus::Defaulted
            &&& loan.lender == Some(self.lender.key)
            &&& Settlement::representable(
                loan.loan_amount,
                loan.interest_rate,
                self.platform.data.unwrap().fee_bps,
            )
            &&& self.borrower.lamports >= due.total_due()
            &&& self.treasury_vault.lamports + due.fee_for_platform <= u64::MAX
            &&& self.lender.lamports + due.payout_to_lender <= u64::MAX
        }
    }

    /// Why the payment is rejected at time `now`, or `None` where it goes
    /// through. The conditions are tried in this order.
    pub open spec fn payment_error(self, now: i64) -> Option<ErrorCode> {
        if self.platform.data is None || self.loan_account.data is None {
            Some(ErrorCode::AccountNotInitialized)
        } else {
            let loan = self.loan_account.data.unwrap();
            let fee_bps = self.platform.data.unwrap().fee_bps;
            let due = self.settlement();
            if !loan.repayable_at(now) {
                Some(ErrorCode::LoanDefaulted)
            } else if loan.status == LoanStatus::Repaid {
                Some(ErrorCode::LoanRepaided)
            } else if loan.status == LoanStatus::Defaulted {
                Some(ErrorCode::LoanDefaulted)
            } else if loan.lender != Some(self.lender.key) {
                Some(ErrorCode::LenderNotMatched)
            } else if !Settlement::representable(loan.loan_amount, loan.interest_rate, fee_bps) {
                Some(ErrorCode::ArithmeticOverflow)
            } else if self.borrower.lamports < due.total_due() {
                Some(ErrorCode::InsufficientBalance)
            } else if self.treasury_vault.lamports + due.fee_for_platform > u64::MAX
                || self.lender.lamports + due.payout_to_lender > u64::MAX {
                Some(ErrorCode::ArithmeticOverflow)
            } else {
                None
            }
        }
    }

    /// The accounts after the payment: the borrower has paid the fee to the
    /// treasury and the payout to the lender, and the loan is `Repaid`.
    pub open spec fn paid(self) -> ResolveLoan {
        let due = self.settlement();
        ResolveLoan {
            borrower: self.borrower.with_lamports(
                (self.borrower.lamports - due.total_due()) as u64,
            ),
            treasury_vault: self.treasury_vault.with_lamports(
                (self.treasury_vault.lamports + due.fee_for_platform) as u64,
            ),
            lender: self.lender.with_lamports(
                (self.lender.lamports + due.payout_to_lender) as u64,
            ),
            loan_account: Account {
                data: Some(self.loan_account.data.unwrap().with_status(LoanStatus::Repaid)),
                ..self.loan_account
            },
            ..self
        }
    }

    /// What a payment at time `now` reports.
    pub open spec fn payment_receipt(self, now: i64) -> LoanRepaid {
        let due = self.settlement();
        LoanRepaid {
            loan: self.loan_account.key,
            borrower: self.borrower.key,
            lender: self.lender.key,
            repaid_amount: due.payout_to_lender,
            fee_for_platform: due.fee_for_platform,
            timestamp: now,
        }
    }

    /// The borrower pays what the settlement asks for: the platform's fee to
    /// the treasury and the rest to the lender. Both payments are made or
    /// neither. On success the loan is `Repaid`; on rejection nothing changes.
    pub fn transfer_amount(&mut self, now: i64) -> (r: Result<LoanRepaid, ErrorCode>)
        ensures
            (match old(self).payment_error(now) {
                Some(e) => r == Err::<LoanRepaid, ErrorCode>(e) && *final(self) == *old(self),
                None => r == Ok::<LoanRepaid, ErrorCode>(old(self).payment_receipt(now))
                    && *final(self) == old(self).paid(),
            }),
            r is Ok <==> old(self).can_pay(now),
            r is Ok && old(self).loan_account.data.unwrap().well_formed()
                ==> final(self).loan_account.data.unwrap().well_formed(),
            r is Ok ==> old(self).loan_account.data.unwrap().repayable_at(now),
            old(self).loan_account.data is None ==> r == Err::<LoanRepaid, ErrorCode>(
                ErrorCode::AccountNotInitialized,
            ),
            old(self).loan_account.data is Some && old(self).loan_account.data.unwrap().overdue_at(
                now,
            ) ==> r is Err && *final(self) == *old(self),
    {
        let platform = match self.platform.data {
            Some(platform) => platform,
            None => {
                return Err(ErrorCode::AccountNotInitialized);
            },
        };
        let loan = match self.loan_account.data {
            Some(loan) => loan,
            None => {
                return Err(ErrorCode::AccountNotInitialized);
            },
        };
        if !loan.is_repayable_at(now) {
            return Err(ErrorCode::LoanDefaulted);
        }
        if loan.status == LoanStatus::Repaid {
            return Err(ErrorCode::LoanRepaided);
        }
        if loan.status == LoanStatus::Defaulted {
            return Err(ErrorCode::LoanDefaulted);
        }
        if !(loan.lender == Some(self.lender.key)) {
            return Err(ErrorCode::LenderNotMatched);
        }
        let due = match Settlement::compute(loan.loan_amount, loan.interest_rate, platform.fee_bps) {
            Some(due) => due,
            None => {
                return Err(ErrorCode::ArithmeticOverflow);
            },
        };
        let total_due = due.payout_to_lender + due.fee_for_platform;
        if self.borrower.lamports < total_due {
            return Err(ErrorCode::InsufficientBalance);
        }
        let before = *self;
        match transfer(&mut self.borrower, &mut self.treasury_vault, due.fee_for_platform) {
            Ok(()) => {},
            Err(e) => {
                return Err(e);
            },
        }
        match transfer(&mut self.borrower, &mut self.lender, due.payout_to_lender) {
            Ok(()) => {},
            Err(e) => {
                *self = before;
                return Err(e);
            },
        }
        self.loan_account.data = Some(Loan { status: LoanStatus::Repaid, ..loan });
        Ok(
            LoanRepaid {
                loan: self.loan_account.key,
                borrower: self.borrower.key,
                lender: self.lender.key,
                repaid_amount: due.payout_to_lender,
                fee_for_platform: due.fee_for_platform,
                timestamp: now,
            },
        )
    }

    /// Whether the borrower can take the collateral back: platform and loan
    /// exist, the loan is `Repaid`, its own escrow is there, and the unit fits
    /// in the borrower's holding.
    pub open spec fn can_claim(self) -> bool {
        &&& self.platform.data is Some
        &&& self.loan_account.data is Some
        &&& self.loan_account.data.unwrap().status == LoanStatus::Repaid
        &&& holds_escrow_of(self.nft_vault, self.loan_account.key, self.loan_account.data.unwrap())
        &&& self.borrower_nft_ata.amount < u64::MAX
    }

    /// Why the collateral cannot be taken back, or `None` where it can. The
    /// conditions are tried in this order.
    pub open spec fn claim_error(self) -> Option<ErrorCode> {
        if self.platform.data is None || self.loan_account.data is None {
            Some(ErrorCode::AccountNotInitialized)
        } else if self.loan_account.data.unwrap().status != LoanStatus::Repaid {
            Some(ErrorCode::LoanNotRepaided)
        } else {
            release_error(
                self.nft_vault,
                self.borrower_nft_ata,
                self.loan_account.key,
                self.loan_account.data.unwrap(),
            )
        }
    }

    /// The accounts after the claim: the collateral unit is back with the
    /// borrower, and the escrow and the loan record are gone.
    pub open spec fn claimed(self) -> ResolveLoan {
        ResolveLoan {
            borrower_nft_ata: TokenAccount { amount: (self.borrower_nft_ata.amount + 1) as u64 },
            nft_vault: None,
            loan_account: Account { data: None, ..self.loan_account },
            ..self
        }
    }

    /// What a claim at time `now` reports.
    pub open spec fn claim_receipt(self, now: i64) -> NFTClaimed {
        NFTClaimed {
            loan: self.loan_account.key,
            borrower: self.borrower.key,
            nft_mint: self.borrower_nft_mint,
            timestamp: now,
        }
    }

    /// The borrower takes the collateral of a repaid loan out of the escrow.
    /// The escrow and the loan record are destroyed with it. On rejection
    /// nothing changes.
    pub fn claim_nft(&mut self, now: i64) -> (r: Result<NFTClaimed, ErrorCode>)
        ensures
            (match old(self).claim_error() {
                Some(e) => r == Err::<NFTClaimed, ErrorCode>(e) && *final(self) == *old(self),
                None => r == Ok::<NFTClaimed, ErrorCode>(old(self).claim_receipt(now))
                    && *final(self) == old(self).claimed(),
            }),
            r is Ok <==> old(self).can_claim(),
            r is Ok ==> final(self).loan_account.data is None && final(self).nft_vault is None,
            old(self).loan_account.data is None ==> r == Err::<NFTClaimed, ErrorCode>(
                ErrorCode::AccountNotInitialized,
            ),
    {
        if self.platform.data.is_none() {
            return Err(ErrorCode::AccountNotInitialized);
        }
        let loan = match self.loan_account.data {
            Some(loan) => loan,
            None => {
                return Err(ErrorCode::AccountNotInitialized);
            },
        };
        if loan.status != LoanStatus::Repaid {
            return Err(ErrorCode::LoanNotRepaided);
        }
        match release_to(
            &mut self.nft_vault,
            &mut self.borrower_nft_ata,
            &self.loan_account.key,
            &loan,
        ) {
            Ok(()) => {},
            Err(e) => {
                return Err(e);
            },
        }
        self.loan_account.data = None;
        Ok(
            NFTClaimed {
                loan: self.loan_account.key,
                borrower: self.borrower.key,
                nft_mint: self.borrower_nft_mint,
                timestamp: now,
            },
        )
    }

    /// Whether a repayment as a whole goes through at time `now`: the payment
    /// does, and the loan's own escrow is there, and the unit fits in the
    /// borrower's holding.
    pub open spec fn can_resolve(self, now: i64) -> bool {
        &&& self.can_pay(now)
        &&& holds_escrow_of(self.nft_vault, self.loan_account.key, self.loan_account.data.unwrap())
        &&& self.borrower_nft_ata.amount < u64::MAX
    }

    /// Why a repayment as a whole is rejected at time `now`: for the reason
    /// that stops the payment, or else for the one that stops the claim that
    /// follows it.
    pub open spec fn resolve_error(self, now: i64) -> Option<ErrorCode> {
        match self.payment_error(now) {
            Some(e) => Some(e),
            None => self.paid().claim_error(),
        }
    }

    /// The accounts after a whole repayment: paid, then claimed.
    pub open spec fn resolved(self) -> ResolveLoan {
        self.paid().claimed()
    }

    /// The borrower repays the loan at time `now` and takes the collateral
    /// back: the platform's fee goes to the treasury, the principal and the
    /// rest of the interest to the lender, the collateral to the borrower,
    /// and the loan record and its escrow are destroyed. Where any step is
    /// rejected, none has happened.
    pub fn resolve_loan(&mut self, now: i64) -> (r: Result<(LoanRepaid, NFTClaimed), ErrorCode>)
        ensures
            (match old(self).resolve_error(now) {
                Some(e) => r == Err::<(LoanRepaid, NFTClaimed), ErrorCode>(e) && *final(self)
                    == *old(self),
                None => r == Ok::<(LoanRepaid, NFTClaimed), ErrorCode>(
                    (old(self).payment_receipt(now), old(self).paid().claim_receipt(now)),
                ) && *final(self) == old(self).resolved(),
            }),
            r is Ok <==> old(self).can_resolve(now),
            r is Ok ==> old(self).loan_account.data.unwrap().repayable_at(now),
            r is Ok ==> final(self).loan_account.data is None && final(self).nft_vault is None,
            old(self).loan_account.data is None ==> r == Err::<(LoanRepaid, NFTClaimed), ErrorCode>(
                ErrorCode::AccountNotInitialized,
            ),
            old(self).loan_account.data is Some && old(self).loan_account.data.unwrap().overdue_at(
                now,
            ) ==> r is Err && *final(self) == *old(self),
    {
        let before = *self;
        let repaid = match self.transfer_amount(now) {
            Ok(repaid) => repaid,
            Err(e) => {
                return Err(e);
            },
        };
        match self.claim_nft(now) {
            Ok(claimed) => Ok((repaid, claimed)),
            Err(e) => {
                *self = before;
                Err(e)
            },
        }
    }
}

} // verus!
