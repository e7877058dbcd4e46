//! What holds of the loan lifecycle as a whole: laws that relate several
//! operations, proved from the operations' own contracts.

use vstd::prelude::*;
use crate::accounts::Account;
use crate::error::ErrorCode;
use crate::escrow::custody_consistent;
use crate::instructions::{
    BorrowerCancelLoan,
    CreateLoan,
    DefaultLoan,
    FundBorrower,
    ResolveLoan,
};
use crate::state::{Loan, LoanStatus};

verus! {

/// Whether the lender on record at `before`, if there is one, is still the
/// lender on record at `after`, if the record still exists.
pub open spec fn lender_kept(before: Account<Loan>, after: Account<Loan>) -> bool {
    before.data is Some && before.data.unwrap().lender is Some && after.data is Some
        ==> after.data.unwrap().lender == before.data.unwrap().lender
        && after.data.unwrap().start_time == before.data.unwrap().start_time
}

/// The accounts of a cancellation as a request has left them.
pub open spec fn cancellation_after(request: CreateLoan) -> BorrowerCancelLoan {
    BorrowerCancelLoan {
        borrower: request.borrower,
        borrower_nft_mint: request.borrower_nft_mint,
        borrower_nft_ata: request.borrower_nft_ata,
        loan_account: request.loan_account,
        nft_vault: request.nft_vault,
        platform: request.platform,
    }
}

/// An operation goes through exactly where no reason stands against it.
pub proof fn lemma_accepted_exactly_without_error(
    request: CreateLoan,
    fund: FundBorrower,
    resolve: ResolveLoan,
    default: DefaultLoan,
    cancel: BorrowerCancelLoan,
    amount: u64,
    duration: u32,
    interest_rate: u16,
    bump: u8,
    now: i64,
)
    ensures
        request.can_create(amount, duration) <==> request.creation_error(amount, duration) is None,
        request.can_deposit() <==> request.deposit_error() is None,
        request.can_request(amount, duration) <==> request.request_error(
            amount,
            duration,
            interest_rate,
            bump,
        ) is None,
        fund.can_fund() <==> fund.funding_error() is None,
        resolve.can_pay(now) <==> resolve.payment_error(now) is None,
        resolve.can_claim() <==> resolve.claim_error() is None,
        resolve.can_resolve(now) <==> resolve.resolve_error(now) is None,
        default.can_claim(now) <==> default.claim_error(now) is None,
        cancel.can_cancel() <==> cancel.cancel_error() is None,
{
}

/// A request goes through only with a positive principal and a positive
/// duration, and what it leaves behind is a consistent pair of loan record
/// and escrow, the record in status `Requested` with the terms asked for.
pub proof fn lemma_request_creates_valid_loan(
    request: CreateLoan,
    amount: u64,
    duration: u32,
    interest_rate: u16,
    bump: u8,
)
    requires
        request.can_request(amount, duration),
    ensures
        amount > 0,
        duration > 0,
        ({
            let after = request.requested(amount, duration, interest_rate, bump);
            &&& custody_consistent(after.loan_account, after.nft_vault)
            &&& after.loan_account.data == Some(
                Loan::requested(
                    request.borrower.key,
                    request.borrower_nft_mint,
                    amount,
                    duration,
                    interest_rate,
                    bump,
                ),
            )
            &&& after.borrower_nft_ata.amount == request.borrower_nft_ata.amount - 1
            &&& after.borrower == request.borrower
        }),
{
}

/// A request with a zero principal or a zero duration is rejected, whatever
/// else is asked for.
pub proof fn lemma_request_rejects_zero_terms(
    request: CreateLoan,
    amount: u64,
    duration: u32,
    interest_rate: u16,
    bump: u8,
)
    requires
        amount == 0 || duration == 0,
    ensures
        request.creation_error(amount, duration) is Some,
        request.request_error(amount, duration, interest_rate, bump) is Some,
        request.platform.data is Some && request.loan_account.data is None ==> request.request_error(
            amount,
            duration,
            interest_rate,
            bump,
        ) == Some(
            if amount == 0 {
                ErrorCode::InvalidAmountError
            } else {
                ErrorCode::InvalidDurationError
            },
        ),
{
}

/// A loan is funded at most once: once a funding has gone through, every
/// further funding of the same loan is rejected as a conflict, whoever tries
/// it and whenever.
pub proof fn lemma_loan_is_funded_at_most_once(first: FundBorrower, now: i64, second: FundBorrower)
    requires
        first.can_fund(),
        second.loan_account == first.funded(now).loan_account,
        second.platform.data is Some,
    ensures
        second.funding_error() == Some(ErrorCode::LoanFunded),
{
}

/// The lender of a loan, once on record, never changes, and neither does the
/// start time: no operation that leaves the record in place touches them.
pub proof fn lemma_lender_never_changes(
    fund: FundBorrower,
    resolve: ResolveLoan,
    default: DefaultLoan,
    cancel: BorrowerCancelLoan,
    deposit: CreateLoan,
    now: i64,
)
    ensures
        fund.can_fund() ==> lender_kept(fund.loan_account, fund.funded(now).loan_account),
        resolve.can_pay(now) ==> lender_kept(
            resolve.loan_account,
            resolve.paid().loan_account,
        ),
        resolve.can_claim() ==> lender_kept(resolve.loan_account, resolve.claimed().loan_account),
        default.can_claim(now) ==> lender_kept(
            default.loan_account,
            default.claimed().loan_account,
        ),
        cancel.can_cancel() ==> lender_kept(cancel.loan_account, cancel.cancelled().loan_account),
        deposit.can_deposit() ==> lender_kept(
            deposit.loan_account,
            deposit.deposited().loan_account,
        ),
{
}

/// The platform is never changed by a loan operation: every operation leaves
/// the platform record exactly as it found it.
pub proof fn lemma_platform_is_immutable(
    request: CreateLoan,
    fund: FundBorrower,
    resolve: ResolveLoan,
    default: DefaultLoan,
    cancel: BorrowerCancelLoan,
    amount: u64,
    duration: u32,
    interest_rate: u16,
    bump: u8,
    now: i64,
)
    ensures
        request.requested(amount, duration, interest_rate, bump).platform == request.platform,
        fund.funded(now).platform == fund.platform,
        resolve.paid().platform == resolve.platform,
        resolve.resolved().platform == resolve.platform,
        default.claimed().platform == default.platform,
        cancel.cancelled().platform == cancel.platform,
{
}

/// The invariant of a loan record holds of every record that an operation
/// leaves behind: a request creates a well-formed record, and a funding and a
/// payment keep a well-formed record well formed.
pub proof fn lemma_loan_records_stay_well_formed(
    request: CreateLoan,
    fund: FundBorrower,
    resolve: ResolveLoan,
    amount: u64,
    duration: u32,
    interest_rate: u16,
    bump: u8,
    now: i64,
)
    ensures
        request.can_create(amount, duration) ==> request.created(
            amount,
            duration,
            interest_rate,
            bump,
        ).loan_account.data.unwrap().well_formed(),
        fund.can_fund() && fund.loan_account.data.unwrap().well_formed()
            ==> fund.funded(now).loan_account.data.unwrap().well_formed(),
        resolve.can_pay(now) && resolve.loan_account.data.unwrap().well_formed()
            ==> resolve.paid().loan_account.data.unwrap().well_formed(),
{
}

/// A funding turns a well-formed `Requested` loan into a well-formed `Funded`
/// one, moves exactly the principal, and creates no funds.
pub proof fn lemma_funding_moves_the_principal(fund: FundBorrower, now: i64)
    requires
        fund.can_fund(),
        fund.loan_account.data.unwrap().well_formed(),
    ensures
        ({
            let loan = fund.loan_account.data.unwrap();
            let after = fund.funded(now);
            &&& after.loan_account.data.unwrap().well_formed()
            &&& after.loan_account.data.unwrap().status == LoanStatus::Funded
            &&& after.loan_account.data.unwrap().lender == Some(fund.lender.key)
            &&& after.loan_account.data.unwrap().start_time == Some(now)
            &&& after.borrower.lamports == fund.borrower.lamports + loan.loan_amount
            &&& after.lender.lamports == fund.lender.lamports - loan.loan_amount
            &&& after.lender.lamports + after.borrower.lamports == fund.lender.lamports
                + fund.borrower.lamports
        }),
{
}

/// A repayment goes through only inside the repayment window. Once more than
/// `duration` seconds have passed since the funding, it is rejected as
/// defaulted, so that nothing is paid and the collateral stays in escrow.
pub proof fn lemma_repayment_only_in_window(resolve: ResolveLoan, now: i64)
    requires
        resolve.platform.data is Some,
        resolve.loan_account.data is Some,
    ensures
        resolve.can_pay(now) ==> resolve.loan_account.data.unwrap().repayable_at(now),
        resolve.can_resolve(now) ==> resolve.loan_account.data.unwrap().repayable_at(now),
        resolve.loan_account.data.unwrap().overdue_at(now) ==> resolve.payment_error(now) == Some(
            ErrorCode::LoanDefaulted,
        ) && resolve.resolve_error(now) == Some(ErrorCode::LoanDefaulted),
        resolve.loan_account.data.unwrap().start_time is None ==> resolve.resolve_error(now) == Some(
            ErrorCode::LoanDefaulted,
        ),
{
}

/// At no time can a loan be both repaid and defaulted on: where the borrower
/// may still repay, the lender cannot take the collateral, and the other way
/// round.
pub proof fn lemma_repayment_and_default_exclude_each_other(
    resolve: ResolveLoan,
    default: DefaultLoan,
    now: i64,
)
    requires
        resolve.loan_account == default.loan_account,
    ensures
        !(resolve.can_pay(now) && default.can_claim(now)),
{
}

/// A payment hands out exactly what the borrower gives: the treasury gets the
/// fee, the lender the payout, and together that is the principal and the
/// whole interest.
pub proof fn lemma_payment_conserves_funds(resolve: ResolveLoan, now: i64)
    requires
        resolve.can_pay(now),
    ensures
        ({
            let loan = resolve.loan_account.data.unwrap();
            let due = resolve.settlement();
            let after = resolve.paid();
            &&& after.treasury_vault.lamports == resolve.treasury_vault.lamports + due.fee_for_platform
            &&& after.lender.lamports == resolve.lender.lamports + due.payout_to_lender
            &&& after.borrower.lamports == resolve.borrower.lamports - due.fee_for_platform
                - due.payout_to_lender
            &&& due.fee_for_platform + due.payout_to_lender == loan.loan_amount + (loan.loan_amount
                * loan.interest_rate) / 10000
            &&& after.borrower.lamports + after.lender.lamports + after.treasury_vault.lamports
                == resolve.borrower.lamports + resolve.lender.lamports
                + resolve.treasury_vault.lamports
            &&& after.loan_account.data.unwrap().status == LoanStatus::Repaid
            &&& after.nft_vault == resolve.nft_vault
            &&& after.borrower_nft_ata == resolve.borrower_nft_ata
        }),
{
}

/// A cancellation goes through only while the loan is `Requested`. Once a
/// lender has funded the loan, a cancellation is rejected, so that the loan
/// record stays as the funding left it.
pub proof fn lemma_no_cancellation_after_funding(
    fund: FundBorrower,
    now: i64,
    cancel: BorrowerCancelLoan,
)
    requires
        fund.can_fund(),
        cancel.loan_account == fund.funded(now).loan_account,
        cancel.platform.data is Some,
    ensures
        cancel.cancel_error() == Some(ErrorCode::LoanAlreadyFunded),
{
}

/// Every operation that ends a loan destroys the loan record and its escrow.
pub proof fn lemma_ending_a_loan_destroys_record_and_escrow(
    resolve: ResolveLoan,
    default: DefaultLoan,
    cancel: BorrowerCancelLoan,
)
    ensures
        resolve.claimed().loan_account.data is None && resolve.claimed().nft_vault is None,
        resolve.resolved().loan_account.data is None && resolve.resolved().nft_vault is None,
        default.claimed().loan_account.data is None && default.claimed().nft_vault is None,
        cancel.cancelled().loan_account.data is None && cancel.cancelled().nft_vault is None,
        custody_consistent(resolve.resolved().loan_account, resolve.resolved().nft_vault),
        custody_consistent(default.claimed().loan_account, default.claimed().nft_vault),
        custody_consistent(cancel.cancelled().loan_account, cancel.cancelled().nft_vault),
{
}

/// Where no loan record exists at the address, because none was created or
/// because it was destroyed, every operation on the loan is rejected: the
/// record is not found.
pub proof fn lemma_destroyed_loan_is_not_found(
    fund: FundBorrower,
    resolve: ResolveLoan,
    default: DefaultLoan,
    cancel: BorrowerCancelLoan,
    deposit: CreateLoan,
    now: i64,
)
    requires
        fund.loan_account.data is None,
        resolve.loan_account.data is None,
        default.loan_account.data is None,
        cancel.loan_account.data is None,
        deposit.loan_account.data is None,
    ensures
        fund.funding_error() == Some(ErrorCode::AccountNotInitialized),
        resolve.payment_error(now) == Some(ErrorCode::AccountNotInitialized),
        resolve.claim_error() == Some(ErrorCode::AccountNotInitialized),
        resolve.resolve_error(now) == Some(ErrorCode::AccountNotInitialized),
        default.claim_error(now) == Some(ErrorCode::AccountNotInitialized),
        cancel.cancel_error() == Some(ErrorCode::AccountNotInitialized),
        deposit.deposit_error() == Some(ErrorCode::AccountNotInitialized),
{
}

/// A request followed by a cancellation moves nothing on balance: the
/// cancellation goes through, the borrower holds as many collateral units and
/// as many funds as before the request, and neither loan record nor escrow is
/// left.
pub proof fn lemma_request_then_cancel_restores_custody(
    request: CreateLoan,
    amount: u64,
    duration: u32,
    interest_rate: u16,
    bump: u8,
)
    requires
        request.can_request(amount, duration),
    ensures
        ({
            let cancel = cancellation_after(
                request.requested(amount, duration, interest_rate, bump),
            );
            &&& cancel.can_cancel()
            &&& cancel.cancelled().borrower_nft_ata == request.borrower_nft_ata
            &&& cancel.cancelled().borrower == request.borrower
            &&& cancel.cancelled().loan_account == request.loan_account
            &&& cancel.cancelled().nft_vault == request.nft_vault
        }),
{
}

} // verus!
