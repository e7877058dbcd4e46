//! Request: the borrower states the terms and locks the collateral.

use vstd::prelude::*;
use crate::accounts::{Account, TokenAccount, Wallet};
use crate::error::ErrorCode;
use crate::escrow::{custody_consistent, deposit_error, deposit_from, Escrow};
use crate::events::LoanRequested;
use crate::pubkey::Pubkey;
use crate::state::{Loan, LoanStatus, Platform};

verus! {

/// The accounts of a loan request. The caller acts as borrower.
#[derive(Clone, Copy, Debug, PartialEq, Eq)]
pub struct CreateLoan {
    pub borrower: Wallet,
    /// The token that is offered as collateral.
    pub borrower_nft_mint: Pubkey,
    /// The borrower's holding of the collateral token.
    pub borrower_nft_ata: TokenAccount,
    /// The address of the loan record for this collateral on this platform.
    pub loan_account: Account<Loan>,
    /// The escrow of that loan.
    pub nft_vault: Option<Escrow>,
    pub platform: Account<Platform>,
}

/// The address markers of the records that a request creates.
#[derive(Clone, Copy, Debug, PartialEq, Eq, Structural)]
pub struct CreateLoanBumps {
    pub loan_account: u8,
}

impl CreateLoan {
    /// Whether the loan record can be created: the platform exists, no loan
    /// exists on this collateral, and principal and duration are positive.
    pub open spec fn can_create(self, amount: u64, duration: u32) -> bool {
        &&& self.platform.data is Some
        &&& self.loan_account.data is None
        &&& amount > 0
        &&& duration > 0
    }

    /// Why the loan record cannot be created, or `None` where it can. The
    /// conditions are tried in this order.
    pub open spec fn creation_error(self, amount: u64, duration: u32) -> Option<ErrorCode> {
        if self.platform.data is None {
            Some(ErrorCode::AccountNotInitialized)
        } else if self.loan_account.data is Some {
            Some(ErrorCode::AccountAlreadyInitialized)
        } else if amount == 0 {
            Some(ErrorCode::InvalidAmountError)
        } else if duration == 0 {
            Some(ErrorCode::InvalidDurationError)
        } else {
            None
        }
    }

    /// The accounts after the loan record has been created.
    pub open spec fn created(self, amount: u64, duration: u32, interest_rate: u16, bump: u8) -> CreateLoan {
        CreateLoan {
            loan_account: Account {
                data: Some(
                    Loan::requested(
                        self.borrower.key,
                        self.borrower_nft_mint,
                        amount,
                        duration,
                        interest_rate,
                        bump,
                    ),
                ),
                ..self.loan_account
            },
            ..self
        }
    }

    /// Creates the loan record in status `Requested`, with the caller as
    /// borrower and no lender. A zero principal or a zero duration is
    /// rejected, and so is a second loan on the same collateral while the
    /// first exists. On rejection nothing changes.
    pub fn create_loan(
        &mut self,
        amount: u64,
        duration: u32,
        interest_rate: u16,
        bumps: &CreateLoanBumps,
    ) -> (r: Result<(), ErrorCode>)
        ensures
            (match old(self).creation_error(amount, duration) {
                Some(e) => r == Err::<(), ErrorCode>(e) && *final(self) == *old(self),
                None => r is Ok && *final(self) == old(self).created(
                    amount,
                    duration,
                    interest_rate,
                    bumps.loan_account,
                ),
            }),
            r is Ok <==> old(self).can_create(amount, duration),
            r is Ok ==> amount > 0 && duration > 0,
            r is Ok ==> final(self).loan_account.data.unwrap().well_formed(),
            amount == 0 || duration == 0 ==> r is Err,
    {
        if self.platform.data.is_none() {
            return Err(ErrorCode::AccountNotInitialized);
        }
        if self.loan_account.data.is_some() {
            return Err(ErrorCode::AccountAlreadyInitialized);
        }
        if amount == 0 {
            return Err(ErrorCode::InvalidAmountError);
        }
        if duration == 0 {
            return Err(ErrorCode::InvalidDurationError);
        }
        self.loan_account.data = Some(
            Loan {
                borrower: self.borrower.key,
                nft_mint: self.borrower_nft_mint,
                lender: None,
                loan_amount: amount,
                duration,
                status: LoanStatus::Requested,
                interest_rate,
                bump: bumps.loan_account,
                start_time: None,
                time_of_liquidation_or_repayment: None,
            },
        );
        Ok(())
    }

    /// Whether the collateral can be locked: platform and loan exist, the
    /// loan has no escrow yet, and the borrower holds a unit.
    pub open spec fn can_deposit(self) -> bool {
        &&& self.platform.data is Some
        &&& self.loan_account.data is Some
        &&& self.nft_vault is None
        &&& self.borrower_nft_ata.amount >= 1
    }

    /// Why the collateral cannot be locked, or `None` where it can. The
    /// conditions are tried in this order.
    pub open spec fn deposit_error(self) -> Option<ErrorCode> {
        if self.platform.data is None || self.loan_account.data is None {
            Some(ErrorCode::AccountNotInitialized)
        } else {
            deposit_error(self.nft_vault, self.borrower_nft_ata)
        }
    }

    /// The accounts after the collateral has been locked: one unit has left
    /// the borrower's holding, and the loan's escrow exists and holds it.
    pub open spec fn deposited(self) -> CreateLoan {
        CreateLoan {
            borrower_nft_ata: TokenAccount { amount: (self.borrower_nft_ata.amount - 1) as u64 },
            nft_vault: Some(
                Escrow { mint: self.borrower_nft_mint, authority: self.loan_account.key },
            ),
            ..self
        }
    }

    /// What a request at time `now` reports.
    pub open spec fn request_receipt(self, now: i64) -> LoanRequested {
        let loan = self.loan_account.data.unwrap();
        LoanRequested {
            borrower: self.borrower.key,
            nft_mint: self.borrower_nft_mint,
            loan_amount: loan.loan_amount,
            duration: loan.duration,
            interest_rate: LoanRequested::rate_field(loan.interest_rate),
            timestamp: LoanRequested::time_field(now),
        }
    }

    /// Moves exactly one collateral unit from the borrower's holding into the
    /// escrow of the loan, which is created for it. On rejection nothing
    /// changes.
    pub fn transfer_nft_vault(&mut self, now: i64) -> (r: Result<LoanRequested, ErrorCode>)
        ensures
            (match old(self).deposit_error() {
                Some(e) => r == Err::<LoanRequested, ErrorCode>(e) && *final(self) == *old(self),
                None => r == Ok::<LoanRequested, ErrorCode>(old(self).request_receipt(now))
                    && *final(self) == old(self).deposited(),
            }),
            r is Ok <==> old(self).can_deposit(),
    {
        if self.platform.data.is_none() {
            return Err(ErrorCode::AccountNotInitialized);
        }
        let loan = match self.loan_account.data {
            Some(loan) => loan,
            None => {
                return Err(ErrorCode::AccountNotInitialized);
            },
        };
        match deposit_from(
            &mut self.nft_vault,
            &mut self.borrower_nft_ata,
            self.borrower_nft_mint,
            self.loan_account.key,
        ) {
            Ok(()) => {},
            Err(e) => {
                return Err(e);
            },
        }
        Ok(
            LoanRequested {
                borrower: self.borrower.key,
                nft_mint: self.borrower_nft_mint,
                loan_amount: loan.loan_amount,
                duration: loan.duration,
                interest_rate: LoanRequested::rate_field_of(loan.interest_rate),
                timestamp: LoanRequested::time_field_of(now),
            },
        )
    }

    /// Whether a request as a whole goes through: the record can be created,
    /// no escrow is in its way, and the borrower holds a unit.
    pub open spec fn can_request(self, amount: u64, duration: u32) -> bool {
        &&& self.can_create(amount, duration)
        &&& self.nft_vault is None
        &&& self.borrower_nft_ata.amount >= 1
    }

    /// Why a request as a whole is rejected: for the reason that stops the
    /// creation of the record, or else for the one that stops the deposit
    /// that follows it.
    pub open spec fn request_error(
        self,
        amount: u64,
        duration: u32,
        interest_rate: u16,
        bump: u8,
    ) -> Option<ErrorCode> {
        match self.creation_error(amount, duration) {
            Some(e) => Some(e),
            None => self.created(amount, duration, interest_rate, bump).deposit_error(),
        }
    }

    /// The accounts after a whole request: created, then deposited.
    pub open spec fn requested(self, amount: u64, duration: u32, interest_rate: u16, bump: u8) -> CreateLoan {
        self.created(amount, duration, interest_rate, bump).deposited()
    }

    /// The borrower requests a loan of `amount` for `duration` seconds at
    /// `interest_rate` basis points, and locks one unit of the collateral
    /// token in the escrow of the new loan. Where the request is rejected, no
    /// loan record exists afterwards and no collateral has moved.
    pub fn request_loan(
        &mut self,
        amount: u64,
        duration: u32,
        interest_rate: u16,
        bumps: &CreateLoanBumps,
        now: i64,
    ) -> (r: Result<LoanRequested, ErrorCode>)
        ensures
            (match old(self).request_error(amount, duration, interest_rate, bumps.loan_account) {
                Some(e) => r == Err::<LoanRequested, ErrorCode>(e) && *final(self) == *old(self),
                None => r == Ok::<LoanRequested, ErrorCode>(
                    old(self).created(
                        amount,
                        duration,
                        interest_rate,
                        bumps.loan_account,
                    ).request_receipt(now),
                ) && *final(self) == old(self).requested(
                    amount,
                    duration,
                    interest_rate,
                    bumps.loan_account,
                ),
            }),
            r is Ok <==> old(self).can_request(amount, duration),
            r is Ok ==> amount > 0 && duration > 0,
            r is Ok ==> custody_consistent(final(self).loan_account, final(self).nft_vault),
            amount == 0 || duration == 0 ==> r is Err && *final(self) == *old(self),
    {
        let before = *self;
        match self.create_loan(amount, duration, interest_rate, bumps) {
            Ok(()) => {},
            Err(e) => {
                return Err(e);
            },
        }
        match self.transfer_nft_vault(now) {
            Ok(receipt) => Ok(receipt),
            Err(e) => {
                *self = before;
                Err(e)
            },
        }
    }
}

} // verus!
