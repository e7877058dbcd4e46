//! Peer-to-peer lending against a non-fungible token held in escrow.
//!
//! A borrower locks a token as collateral and requests a loan of a fixed
//! term. A lender funds it. The borrower repays principal and interest in
//! time and takes the collateral back, or the lender takes the collateral
//! once the term has passed. While nobody has funded the request, the
//! borrower may withdraw it.
//!
//! Every operation is all or nothing: it is carried out in full, or it is
//! rejected with an [`error::ErrorCode`] and leaves the accounts it was
//! handed as they were.
//!
//! The operations of this module are the entry points on chain: they take
//! the time from the chain's clock. The methods of the account sets in
//! [`instructions`] do the same work at a time that the caller names.

pub mod accounts;
mod clock;
pub mod error;
pub mod escrow;
pub mod events;
pub mod instructions;
pub mod laws;
pub mod pubkey;
pub mod settlement;
pub mod state;

use vstd::prelude::*;
use crate::clock::unix_timestamp;
use crate::error::ErrorCode;
use crate::events::{LoanCancelled, LoanFunded, LoanRepaid, LoanRequested, NFTClaimed};
use crate::instructions::{
    BorrowerCancelLoan,
    CreateLoan,
    CreateLoanBumps,
    DefaultLoan,
    FundBorrower,
    Initialize,
    InitializeBumps,
    ResolveLoan,
};
use crate::state::LoanStatus;

verus! {

/// The administrator creates the platform with its fee, in basis points of
/// the interest of each repaid loan. It can be created once.
pub fn initialize_platform(ctx: &mut Initialize, bumps: &InitializeBumps, fee_bps: u16) -> (r: Result<
    (),
    ErrorCode,
>)
    ensures
        old(ctx).platform.data is Some ==> r == Err::<(), ErrorCode>(
            ErrorCode::AccountAlreadyInitialized,
        ) && *final(ctx) == *old(ctx),
        old(ctx).platform.data is None ==> r is Ok && *final(ctx) == old(ctx).initialized(
            fee_bps,
            *bumps,
        ),
{
    ctx.init(fee_bps, bumps)
}

/// The borrower requests a loan of `amount` for `duration` seconds at
/// `interest_rate` basis points, and locks one unit of the collateral token
/// in the escrow of the new loan.
///
/// The request is stamped with the time of the chain's clock. Where the clock
/// cannot be read, or the request is rejected, no loan record exists
/// afterwards and no collateral has moved.
pub fn request_loan(
    ctx: &mut CreateLoan,
    bumps: &CreateLoanBumps,
    amount: u64,
    duration: u32,
    interest_rate: u16,
) -> (r: Result<LoanRequested, ErrorCode>)
    ensures
        (match old(ctx).request_error(amount, duration, interest_rate, bumps.loan_account) {
            Some(e) => r == Err::<LoanRequested, ErrorCode>(e) && *final(ctx) == *old(ctx),
            None => {
                ||| r == Err::<LoanRequested, ErrorCode>(ErrorCode::ClockUnavailable) && *final(ctx)
                    == *old(ctx)
                ||| *final(ctx) == old(ctx).requested(
                    amount,
                    duration,
                    interest_rate,
                    bumps.loan_account,
                ) && exists|now: i64|
                    r == Ok::<LoanRequested, ErrorCode>(
                        old(ctx).created(
                            amount,
                            duration,
                            interest_rate,
                            bumps.loan_account,
                        ).request_receipt(now),
                    )
            },
        }),
        r is Ok ==> amount > 0 && duration > 0,
        amount == 0 || duration == 0 ==> r is Err && *final(ctx) == *old(ctx),
{
    match unix_timestamp() {
        Some(now) => ctx.request_loan(amount, duration, interest_rate, bumps, now),
        None => {
            let mut untimed = *ctx;
            match untimed.request_loan(amount, duration, interest_rate, bumps, 0) {
                Ok(_) => Err(ErrorCode::ClockUnavailable),
                Err(e) => Err(e),
            }
        },
    }
}

/// The borrower repays the loan and takes the collateral back: the
/// platform's fee goes to the treasury, the principal and the rest of the
/// interest to the lender, the collateral to the borrower, and the loan
/// record and its escrow are destroyed.
///
/// The repayment window is judged by the chain's clock, at the time that the
/// receipts carry. Where the clock cannot be read, or any step is rejected,
/// nothing has happened.
pub fn resolve_loan(ctx: &mut ResolveLoan) -> (r: Result<(LoanRepaid, NFTClaimed), ErrorCode>)
    ensures
        (match r {
            Ok((repaid, claimed)) => {
                let now = repaid.timestamp;
                &&& old(ctx).resolve_error(now) is None
                &&& repaid == old(ctx).payment_receipt(now)
                &&& claimed == old(ctx).paid().claim_receipt(now)
                &&& *final(ctx) == old(ctx).resolved()
                &&& old(ctx).loan_account.data.unwrap().repayable_at(now)
                &&& final(ctx).loan_account.data is None && final(ctx).nft_vault is None
            },
            Err(e) => {
                &&& *final(ctx) == *old(ctx)
                &&& e == ErrorCode::ClockUnavailable || exists|now: i64|
                    old(ctx).resolve_error(now) == Some(e)
            },
        }),
        old(ctx).platform.data is None || old(ctx).loan_account.data is None ==> r == Err::<
            (LoanRepaid, NFTClaimed),
            ErrorCode,
        >(ErrorCode::AccountNotInitialized),
{
    match unix_timestamp() {
        Some(now) => ctx.resolve_loan(now),
        None => {
            if ctx.platform.data.is_none() || ctx.loan_account.data.is_none() {
                assert(ctx.resolve_error(0) == Some(ErrorCode::AccountNotInitialized));
                Err(ErrorCode::AccountNotInitialized)
            } else {
                Err(ErrorCode::ClockUnavailable)
            }
        },
    }
}

/// The lender funds the loan: the principal goes to the borrower in full,
/// and the repayment window opens at the time of the chain's clock, which the
/// receipt carries. Where the clock cannot be read, or the funding is
/// rejected, nothing has happened.
pub fn fund_borrower(ctx: &mut FundBorrower) -> (r: Result<LoanFunded, ErrorCode>)
    ensures
        (match old(ctx).funding_error() {
            Some(e) => r == Err::<LoanFunded, ErrorCode>(e) && *final(ctx) == *old(ctx),
            None => {
                ||| r == Err::<LoanFunded, ErrorCode>(ErrorCode::ClockUnavailable) && *final(ctx)
                    == *old(ctx)
                ||| r is Ok && r == Ok::<LoanFunded, ErrorCode>(
                    old(ctx).funding_receipt(r.unwrap().funded_at),
                ) && *final(ctx) == old(ctx).funded(r.unwrap().funded_at)
            },
        }),
        r is Ok ==> old(ctx).loan_account.data.unwrap().lender is None,
        old(ctx).loan_account.data is None ==> r == Err::<LoanFunded, ErrorCode>(
            ErrorCode::AccountNotInitialized,
        ),
        old(ctx).platform.data is Some && old(ctx).loan_account.data is Some && old(
            ctx,
        ).loan_account.data.unwrap().lender is Some ==> r == Err::<LoanFunded, ErrorCode>(
            ErrorCode::LoanFunded,
        ) && *final(ctx) == *old(ctx),
{
    match unix_timestamp() {
        Some(now) => ctx.fund_borrower(now),
        None => {
            let mut untimed = *ctx;
            match untimed.fund_borrower(0) {
                Ok(_) => Err(ErrorCode::ClockUnavailable),
                Err(e) => Err(e),
            }
        },
    }
}

/// The lender takes the collateral of a loan that was not repaid within its
/// window, and the loan record and its escrow are destroyed.
///
/// The window is judged by the chain's clock, at the time that the receipt
/// carries. Where the clock cannot be read, or the claim is rejected, nothing
/// has happened.
pub fn default_loan(ctx: &mut DefaultLoan) -> (r: Result<NFTClaimed, ErrorCode>)
    ensures
        (match r {
            Ok(claimed) => {
                let now = claimed.timestamp;
                &&& old(ctx).claim_error(now) is None
                &&& claimed == old(ctx).claim_receipt(now)
                &&& *final(ctx) == old(ctx).claimed()
                &&& old(ctx).loan_account.data.unwrap().overdue_at(now)
                &&& final(ctx).loan_account.data is None && final(ctx).nft_vault is None
            },
            Err(e) => {
                &&& *final(ctx) == *old(ctx)
                &&& e == ErrorCode::ClockUnavailable || exists|now: i64|
                    old(ctx).claim_error(now) == Some(e)
            },
        }),
        old(ctx).platform.data is None || old(ctx).loan_account.data is None ==> r == Err::<
            NFTClaimed,
            ErrorCode,
        >(ErrorCode::AccountNotInitialized),
{
    match unix_timestamp() {
        Some(now) => ctx.claim_nft(now),
        None => {
            if ctx.platform.data.is_none() || ctx.loan_account.data.is_none() {
                assert(ctx.claim_error(0) == Some(ErrorCode::AccountNotInitialized));
                Err(ErrorCode::AccountNotInitialized)
            } else {
                Err(ErrorCode::ClockUnavailable)
            }
        },
    }
}

/// The borrower withdraws a request that nobody has funded and takes the
/// collateral back. No funds move. The receipt carries the time of the
/// chain's clock. Where the clock cannot be read, or the cancellation is
/// rejected, nothing has happened.
pub fn cancel_loan(ctx: &mut BorrowerCancelLoan) -> (r: Result<LoanCancelled, ErrorCode>)
    ensures
        (match old(ctx).cancel_error() {
            Some(e) => r == Err::<LoanCancelled, ErrorCode>(e) && *final(ctx) == *old(ctx),
            None => {
                ||| r == Err::<LoanCancelled, ErrorCode>(ErrorCode::ClockUnavailable) && *final(ctx)
                    == *old(ctx)
                ||| r is Ok && r == Ok::<LoanCancelled, ErrorCode>(
                    old(ctx).cancel_receipt(r.unwrap().timestamp),
                ) && *final(ctx) == old(ctx).cancelled()
            },
        }),
        r is Ok ==> old(ctx).loan_account.data.unwrap().status == LoanStatus::Requested,
        r is Ok ==> final(ctx).loan_account.data is None && final(ctx).nft_vault is None,
        r is Ok ==> final(ctx).borrower == old(ctx).borrower,
        old(ctx).loan_account.data is None ==> r == Err::<LoanCancelled, ErrorCode>(
            ErrorCode::AccountNotInitialized,
        ),
        old(ctx).loan_account.data is Some && old(ctx).loan_account.data.unwrap().status
            != LoanStatus::Requested ==> r is Err && *final(ctx) == *old(ctx),
{
    match unix_timestamp() {
        Some(now) => ctx.cancel_loan(now),
        None => {
            let mut untimed = *ctx;
            match untimed.cancel_loan(0) {
                Ok(_) => Err(ErrorCode::ClockUnavailable),
                Err(e) => Err(e),
            }
        },
    }
}

} // verus!
