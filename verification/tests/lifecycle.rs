use credentia::accounts::{Account, TokenAccount, Wallet};
use credentia::escrow::Escrow;
use credentia::error::ErrorCode;
use credentia::events::{LoanCancelled, LoanFunded, LoanRepaid, NFTClaimed};
use credentia::instructions::{
    BorrowerCancelLoan, CreateLoan, CreateLoanBumps, DefaultLoan, FundBorrower, ResolveLoan,
};
use credentia::pubkey::Pubkey;
use credentia::state::{Loan, LoanStatus, Platform};

const BORROWER: u8 = 1;
const LENDER: u8 = 2;
const MINT: u8 = 3;
const LOAN: u8 = 4;
const TREASURY: u8 = 5;
const PLATFORM: u8 = 9;

const START: i64 = 1_700_000_000;
const DAY: u32 = 86_400;

fn key(tag: u8) -> Pubkey {
    Pubkey::new_from_array([tag; 32])
}

fn platform(fee_bps: u16) -> Account<Platform> {
    Account {
        key: key(PLATFORM),
        data: Some(Platform {
            authority: key(8),
            fee_bps,
            reward_bump: 251,
            treasury_bump: 252,
            bump: 253,
        }),
    }
}

fn requested_loan(amount: u64, rate: u16) -> Loan {
    Loan {
        borrower: key(BORROWER),
        lender: None,
        nft_mint: key(MINT),
        loan_amount: amount,
        duration: DAY,
        start_time: None,
        status: LoanStatus::Requested,
        time_of_liquidation_or_repayment: None,
        interest_rate: rate,
        bump: 254,
    }
}

fn funded_loan(amount: u64, rate: u16) -> Loan {
    Loan {
        lender: Some(key(LENDER)),
        start_time: Some(START),
        status: LoanStatus::Funded,
        ..requested_loan(amount, rate)
    }
}

fn escrow() -> Option<Escrow> {
    Some(Escrow { mint: key(MINT), authority: key(LOAN) })
}

fn funding(loan: Option<Loan>, lender_funds: u64, borrower_funds: u64) -> FundBorrower {
    FundBorrower {
        lender: Wallet { key: key(LENDER), lamports: lender_funds },
        borrower: Wallet { key: key(BORROWER), lamports: borrower_funds },
        borrower_nft_mint: key(MINT),
        loan_account: Account { key: key(LOAN), data: loan },
        platform: platform(500),
    }
}

fn repayment(loan: Option<Loan>, borrower_funds: u64) -> ResolveLoan {
    ResolveLoan {
        borrower: Wallet { key: key(BORROWER), lamports: borrower_funds },
        lender: Wallet { key: key(LENDER), lamports: 7 },
        borrower_nft_mint: key(MINT),
        borrower_nft_ata: TokenAccount { amount: 0 },
        platform: platform(500),
        loan_account: Account { key: key(LOAN), data: loan },
        nft_vault: escrow(),
        treasury_vault: Wallet { key: key(TREASURY), lamports: 11 },
    }
}

fn default_of(loan: Option<Loan>) -> DefaultLoan {
    DefaultLoan {
        lender: Wallet { key: key(LENDER), lamports: 7 },
        borrower_nft_mint: key(MINT),
        lender_nft_ata: TokenAccount { amount: 0 },
        platform: platform(500),
        loan_account: Account { key: key(LOAN), data: loan },
        nft_vault: escrow(),
    }
}

fn cancellation(loan: Option<Loan>) -> BorrowerCancelLoan {
    BorrowerCancelLoan {
        borrower: Wallet { key: key(BORROWER), lamports: 50 },
        borrower_nft_mint: key(MINT),
        borrower_nft_ata: TokenAccount { amount: 0 },
        loan_account: Account { key: key(LOAN), data: loan },
        nft_vault: escrow(),
        platform: platform(500),
    }
}

// ---- funding

#[test]
fn funding_moves_the_principal_and_stamps_the_loan() {
    let mut ctx = funding(Some(requested_loan(1_000_000, 1000)), 1_500_000, 20);
    assert_eq!(
        ctx.fund_borrower(START),
        Ok(LoanFunded { lender: key(LENDER), loan_amount: 1_000_000, funded_at: START })
    );
    assert_eq!(ctx.lender, Wallet { key: key(LENDER), lamports: 500_000 });
    assert_eq!(ctx.borrower, Wallet { key: key(BORROWER), lamports: 1_000_020 });
    assert_eq!(ctx.loan_account.data, Some(funded_loan(1_000_000, 1000)));
    assert_eq!(ctx.platform, platform(500));
}

#[test]
fn funding_with_the_exact_balance_empties_the_lender() {
    let mut ctx = funding(Some(requested_loan(1_000_000, 1000)), 1_000_000, 0);
    assert!(ctx.fund_borrower(-5).is_ok());
    assert_eq!(ctx.lender.lamports, 0);
    assert_eq!(ctx.borrower.lamports, 1_000_000);
    assert_eq!(ctx.loan_account.data.unwrap().start_time, Some(-5));
}

#[test]
fn funding_twice_is_a_conflict() {
    let mut ctx = funding(Some(requested_loan(1_000, 1000)), 5_000, 0);
    assert!(ctx.fund_borrower(START).is_ok());
    let after_first = ctx;

    assert_eq!(ctx.fund_borrower(START + 1), Err(ErrorCode::LoanFunded));
    assert_eq!(ctx, after_first);

    // Another lender fares no better, and the lender on record stays.
    let mut other = after_first;
    other.lender = Wallet { key: key(77), lamports: 1_000_000 };
    let before = other;
    assert_eq!(other.fund_borrower(START + 2), Err(ErrorCode::LoanFunded));
    assert_eq!(other, before);
    assert_eq!(other.loan_account.data.unwrap().lender, Some(key(LENDER)));
    assert_eq!(other.loan_account.data.unwrap().start_time, Some(START));
}

#[test]
fn funding_a_loan_that_has_left_requested_is_rejected() {
    for status in [LoanStatus::Funded, LoanStatus::Repaid, LoanStatus::Defaulted] {
        let loan = Loan { status, ..requested_loan(1_000, 1000) };
        let mut ctx = funding(Some(loan), 5_000, 0);
        let before = ctx;
        assert_eq!(ctx.fund_borrower(START), Err(ErrorCode::LoanNotActive));
        assert_eq!(ctx, before);
    }
}

#[test]
fn funding_needs_the_whole_principal() {
    let mut ctx = funding(Some(requested_loan(1_000, 1000)), 999, 0);
    let before = ctx;
    assert_eq!(ctx.fund_borrower(START), Err(ErrorCode::InsufficientBalance));
    assert_eq!(ctx, before);
}

#[test]
fn funding_must_fit_in_the_borrowers_wallet() {
    let mut ctx = funding(Some(requested_loan(1_000, 1000)), 1_000, u64::MAX - 999);
    let before = ctx;
    assert_eq!(ctx.fund_borrower(START), Err(ErrorCode::ArithmeticOverflow));
    assert_eq!(ctx, before);

    let mut ctx = funding(Some(requested_loan(1_000, 1000)), 1_000, u64::MAX - 1_000);
    assert!(ctx.fund_borrower(START).is_ok());
    assert_eq!(ctx.borrower.lamports, u64::MAX);
}

#[test]
fn funding_a_missing_loan_or_platform_is_rejected() {
    let mut ctx = funding(None, 5_000, 0);
    let before = ctx;
    assert_eq!(ctx.fund_borrower(START), Err(ErrorCode::AccountNotInitialized));
    assert_eq!(ctx, before);

    let mut ctx = funding(Some(requested_loan(1_000, 1000)), 5_000, 0);
    ctx.platform.data = None;
    assert_eq!(ctx.fund_borrower(START), Err(ErrorCode::AccountNotInitialized));
}

// ---- repayment

#[test]
fn repayment_splits_interest_between_lender_and_platform() {
    let mut ctx = repayment(Some(funded_loan(1_000_000, 1000)), 1_100_003);
    let outcome = ctx.resolve_loan(START + 3_600);
    assert_eq!(
        outcome,
        Ok((
            LoanRepaid {
                loan: key(LOAN),
                borrower: key(BORROWER),
                lender: key(LENDER),
                repaid_amount: 1_095_000,
                fee_for_platform: 5_000,
                timestamp: START + 3_600,
            },
            NFTClaimed {
                loan: key(LOAN),
                borrower: key(BORROWER),
                nft_mint: key(MINT),
                timestamp: START + 3_600,
            },
        ))
    );
    assert_eq!(ctx.borrower.lamports, 3);
    assert_eq!(ctx.lender.lamports, 7 + 1_095_000);
    assert_eq!(ctx.treasury_vault.lamports, 11 + 5_000);
    assert_eq!(ctx.borrower_nft_ata.amount, 1);
    assert_eq!(ctx.nft_vault, None);
    assert_eq!(ctx.loan_account, Account { key: key(LOAN), data: None });
}

#[test]
fn payment_alone_leaves_the_loan_repaid_and_the_collateral_in_escrow() {
    let mut ctx = repayment(Some(funded_loan(1_000_000, 1000)), 1_100_000);
    let receipt = ctx.transfer_amount(START).unwrap();
    assert_eq!(receipt.repaid_amount, 1_095_000);
    assert_eq!(receipt.fee_for_platform, 5_000);
    assert_eq!(ctx.borrower.lamports, 0);
    assert_eq!(
        ctx.loan_account.data,
        Some(Loan { status: LoanStatus::Repaid, ..funded_loan(1_000_000, 1000) })
    );
    assert_eq!(ctx.nft_vault, escrow());
    assert_eq!(ctx.borrower_nft_ata.amount, 0);

    // Paying again is rejected, the claim goes through.
    let paid = ctx;
    assert_eq!(ctx.transfer_amount(START), Err(ErrorCode::LoanRepaided));
    assert_eq!(ctx, paid);
    assert_eq!(
        ctx.claim_nft(START + 1),
        Ok(NFTClaimed {
            loan: key(LOAN),
            borrower: key(BORROWER),
            nft_mint: key(MINT),
            timestamp: START + 1,
        })
    );
    assert_eq!(ctx.borrower_nft_ata.amount, 1);
    assert_eq!(ctx.nft_vault, None);
    assert_eq!(ctx.loan_account.data, None);
}

#[test]
fn repayment_window_closes_hard_at_the_deadline() {
    let loan = funded_loan(1_000_000, 1000);

    let mut at_deadline = repayment(Some(loan), 2_000_000);
    assert!(at_deadline.resolve_loan(START + DAY as i64).is_ok());

    let mut late = repayment(Some(loan), 2_000_000);
    let before = late;
    assert_eq!(late.resolve_loan(START + DAY as i64 + 1), Err(ErrorCode::LoanDefaulted));
    assert_eq!(late, before);
    assert_eq!(late.nft_vault, escrow());
    assert_eq!(late.borrower_nft_ata.amount, 0);
    assert_eq!(late.transfer_amount(i64::MAX), Err(ErrorCode::LoanDefaulted));
    assert_eq!(late, before);
}

#[test]
fn repayment_before_the_start_time_is_inside_the_window() {
    let mut ctx = repayment(Some(funded_loan(1_000_000, 1000)), 2_000_000);
    assert!(ctx.transfer_amount(START - 10).is_ok());
    let mut ctx = repayment(Some(funded_loan(1_000_000, 1000)), 2_000_000);
    assert!(ctx.transfer_amount(i64::MIN).is_ok());
}

#[test]
fn window_is_measured_without_wrapping() {
    let early = Loan { start_time: Some(i64::MIN), ..funded_loan(1_000, 0) };
    assert!(!early.is_repayable_at(i64::MAX));
    assert!(early.is_overdue_at(i64::MAX));
    assert!(early.is_repayable_at(i64::MIN + DAY as i64));
    assert!(!early.is_repayable_at(i64::MIN + DAY as i64 + 1));

    let late = Loan { start_time: Some(i64::MAX), ..funded_loan(1_000, 0) };
    assert!(late.is_repayable_at(i64::MIN));
    assert!(!late.is_overdue_at(i64::MIN));

    let unfunded = requested_loan(1_000, 0);
    assert!(!unfunded.is_repayable_at(START));
    assert!(!unfunded.is_overdue_at(START));
}

#[test]
fn repayment_of_an_unfunded_loan_is_rejected_as_defaulted() {
    let mut ctx = repayment(Some(requested_loan(1_000, 1000)), 5_000);
    let before = ctx;
    assert_eq!(ctx.resolve_loan(START), Err(ErrorCode::LoanDefaulted));
    assert_eq!(ctx, before);
}

#[test]
fn repayment_of_a_defaulted_loan_is_rejected() {
    let loan = Loan { status: LoanStatus::Defaulted, ..funded_loan(1_000, 1000) };
    let mut ctx = repayment(Some(loan), 5_000);
    let before = ctx;
    assert_eq!(ctx.transfer_amount(START), Err(ErrorCode::LoanDefaulted));
    assert_eq!(ctx, before);
}

#[test]
fn repayment_must_name_the_lender_on_record() {
    let mut ctx = repayment(Some(funded_loan(1_000, 1000)), 5_000);
    ctx.lender.key = key(77);
    let before = ctx;
    assert_eq!(ctx.resolve_loan(START), Err(ErrorCode::LenderNotMatched));
    assert_eq!(ctx, before);
}

#[test]
fn repayment_needs_payout_and_fee_together() {
    let mut ctx = repayment(Some(funded_loan(1_000_000, 1000)), 1_099_999);
    let before = ctx;
    assert_eq!(ctx.resolve_loan(START), Err(ErrorCode::InsufficientBalance));
    assert_eq!(ctx, before);
}

#[test]
fn repayment_that_overflows_is_rejected() {
    let mut ctx = repayment(Some(funded_loan(u64::MAX, 2)), u64::MAX);
    let before = ctx;
    assert_eq!(ctx.resolve_loan(START), Err(ErrorCode::ArithmeticOverflow));
    assert_eq!(ctx, before);
}

#[test]
fn repayment_must_fit_in_the_receiving_wallets() {
    let mut ctx = repayment(Some(funded_loan(1_000_000, 1000)), 1_100_000);
    ctx.treasury_vault.lamports = u64::MAX - 4_999;
    let before = ctx;
    assert_eq!(ctx.transfer_amount(START), Err(ErrorCode::ArithmeticOverflow));
    assert_eq!(ctx, before);

    let mut ctx = repayment(Some(funded_loan(1_000_000, 1000)), 1_100_000);
    ctx.lender.lamports = u64::MAX - 1_094_999;
    let before = ctx;
    assert_eq!(ctx.transfer_amount(START), Err(ErrorCode::ArithmeticOverflow));
    assert_eq!(ctx, before);

    let mut ctx = repayment(Some(funded_loan(1_000_000, 1000)), 1_100_000);
    ctx.treasury_vault.lamports = u64::MAX - 5_000;
    ctx.lender.lamports = u64::MAX - 1_095_000;
    assert!(ctx.transfer_amount(START).is_ok());
    assert_eq!(ctx.treasury_vault.lamports, u64::MAX);
    assert_eq!(ctx.lender.lamports, u64::MAX);
}

#[test]
fn collateral_is_claimed_only_after_payment() {
    let mut ctx = repayment(Some(funded_loan(1_000, 1000)), 5_000);
    let before = ctx;
    assert_eq!(ctx.claim_nft(START), Err(ErrorCode::LoanNotRepaided));
    assert_eq!(ctx, before);

    let mut ctx = repayment(Some(requested_loan(1_000, 1000)), 5_000);
    assert_eq!(ctx.claim_nft(START), Err(ErrorCode::LoanNotRepaided));
}

#[test]
fn failed_claim_undoes_the_payment() {
    let mut ctx = repayment(Some(funded_loan(1_000_000, 1000)), 1_100_000);
    ctx.nft_vault = None;
    let before = ctx;
    assert_eq!(ctx.resolve_loan(START), Err(ErrorCode::AccountNotInitialized));
    assert_eq!(ctx, before);
    assert_eq!(ctx.borrower.lamports, 1_100_000);
    assert_eq!(ctx.loan_account.data.unwrap().status, LoanStatus::Funded);

    let mut ctx = repayment(Some(funded_loan(1_000_000, 1000)), 1_100_000);
    ctx.borrower_nft_ata.amount = u64::MAX;
    let before = ctx;
    assert_eq!(ctx.resolve_loan(START), Err(ErrorCode::ArithmeticOverflow));
    assert_eq!(ctx, before);
}

// ---- default

#[test]
fn lender_takes_the_collateral_after_the_deadline() {
    let mut ctx = default_of(Some(funded_loan(1_000, 1000)));
    let now = START + DAY as i64 + 1;
    assert_eq!(
        ctx.claim_nft(now),
        Ok(NFTClaimed {
            loan: key(LOAN),
            borrower: key(BORROWER),
            nft_mint: key(MINT),
            timestamp: now,
        })
    );
    assert_eq!(ctx.lender_nft_ata.amount, 1);
    assert_eq!(ctx.nft_vault, None);
    assert_eq!(ctx.loan_account, Account { key: key(LOAN), data: None });
    assert_eq!(ctx.lender, Wallet { key: key(LENDER), lamports: 7 });
}

#[test]
fn lender_waits_until_the_window_has_closed() {
    for now in [START - 1, START, START + 1, START + DAY as i64] {
        let mut ctx = default_of(Some(funded_loan(1_000, 1000)));
        let before = ctx;
        assert_eq!(ctx.claim_nft(now), Err(ErrorCode::WaitForLoanToComplete));
        assert_eq!(ctx, before);
    }
}

#[test]
fn default_on_an_unfunded_loan_is_rejected() {
    let mut ctx = default_of(Some(requested_loan(1_000, 1000)));
    let before = ctx;
    assert_eq!(ctx.claim_nft(i64::MAX), Err(ErrorCode::LoanNotStarted));
    assert_eq!(ctx, before);
}

#[test]
fn default_on_a_finished_loan_is_rejected() {
    let repaid = Loan { status: LoanStatus::Repaid, ..funded_loan(1_000, 1000) };
    let mut ctx = default_of(Some(repaid));
    let before = ctx;
    assert_eq!(ctx.claim_nft(i64::MAX), Err(ErrorCode::LoanAlreadyRepaid));
    assert_eq!(ctx, before);

    let defaulted = Loan { status: LoanStatus::Defaulted, ..funded_loan(1_000, 1000) };
    let mut ctx = default_of(Some(defaulted));
    let before = ctx;
    assert_eq!(ctx.claim_nft(i64::MAX), Err(ErrorCode::LoanAlreadyDefaulted));
    assert_eq!(ctx, before);
}

#[test]
fn only_the_lender_on_record_takes_the_collateral() {
    let mut ctx = default_of(Some(funded_loan(1_000, 1000)));
    ctx.lender.key = key(77);
    let before = ctx;
    assert_eq!(ctx.claim_nft(i64::MAX), Err(ErrorCode::LenderNotMatched));
    assert_eq!(ctx, before);
}

#[test]
fn default_needs_the_escrow_and_room_for_the_unit() {
    let mut ctx = default_of(Some(funded_loan(1_000, 1000)));
    ctx.nft_vault = None;
    assert_eq!(ctx.claim_nft(i64::MAX), Err(ErrorCode::AccountNotInitialized));

    let mut ctx = default_of(Some(funded_loan(1_000, 1000)));
    ctx.lender_nft_ata.amount = u64::MAX;
    let before = ctx;
    assert_eq!(ctx.claim_nft(i64::MAX), Err(ErrorCode::ArithmeticOverflow));
    assert_eq!(ctx, before);
}

#[test]
fn repayment_and_default_are_never_open_together() {
    let loan = funded_loan(1_000, 1000);
    for now in [i64::MIN, START - 1, START, START + DAY as i64, START + DAY as i64 + 1, i64::MAX] {
        let repaid = repayment(Some(loan), 5_000).transfer_amount(now).is_ok();
        let defaulted = default_of(Some(loan)).claim_nft(now).is_ok();
        assert!(repaid != defaulted);
    }
}

// ---- cancellation

#[test]
fn cancellation_returns_the_collateral_and_moves_no_funds() {
    let mut ctx = cancellation(Some(requested_loan(1_000, 1000)));
    assert_eq!(
        ctx.cancel_loan(START),
        Ok(LoanCancelled {
            borrower: key(BORROWER),
            nft_mint: key(MINT),
            platform: key(PLATFORM),
            timestamp: START,
        })
    );
    assert_eq!(ctx.borrower_nft_ata.amount, 1);
    assert_eq!(ctx.nft_vault, None);
    assert_eq!(ctx.loan_account, Account { key: key(LOAN), data: None });
    assert_eq!(ctx.borrower, Wallet { key: key(BORROWER), lamports: 50 });
}

#[test]
fn cancellation_after_funding_is_rejected() {
    for status in [LoanStatus::Funded, LoanStatus::Repaid, LoanStatus::Defaulted] {
        let loan = Loan { status, ..funded_loan(1_000, 1000) };
        let mut ctx = cancellation(Some(loan));
        let before = ctx;
        assert_eq!(ctx.cancel_loan(START), Err(ErrorCode::LoanAlreadyFunded));
        assert_eq!(ctx, before);
        assert_eq!(ctx.loan_account.data, Some(loan));
    }
}

#[test]
fn cancellation_needs_the_escrow_and_room_for_the_unit() {
    let mut ctx = cancellation(Some(requested_loan(1_000, 1000)));
    ctx.nft_vault = None;
    let before = ctx;
    assert_eq!(ctx.cancel_loan(START), Err(ErrorCode::AccountNotInitialized));
    assert_eq!(ctx, before);

    let mut ctx = cancellation(Some(requested_loan(1_000, 1000)));
    ctx.borrower_nft_ata.amount = u64::MAX;
    let before = ctx;
    assert_eq!(ctx.cancel_loan(START), Err(ErrorCode::ArithmeticOverflow));
    assert_eq!(ctx, before);
}

// ---- whole lifecycles

fn request_context(units: u64) -> CreateLoan {
    CreateLoan {
        borrower: Wallet { key: key(BORROWER), lamports: 50 },
        borrower_nft_mint: key(MINT),
        borrower_nft_ata: TokenAccount { amount: units },
        loan_account: Account { key: key(LOAN), data: None },
        nft_vault: None,
        platform: platform(500),
    }
}

#[test]
fn request_then_cancel_is_a_round_trip() {
    for units in [1u64, 2, 1_000, u64::MAX] {
        let mut request = request_context(units);
        let bumps = CreateLoanBumps { loan_account: 254 };
        assert!(request.request_loan(1_000, DAY, 1000, &bumps, START).is_ok());
        assert_eq!(request.borrower_nft_ata.amount, units - 1);

        let mut cancel = BorrowerCancelLoan {
            borrower: request.borrower,
            borrower_nft_mint: request.borrower_nft_mint,
            borrower_nft_ata: request.borrower_nft_ata,
            loan_account: request.loan_account,
            nft_vault: request.nft_vault,
            platform: request.platform,
        };
        assert!(cancel.cancel_loan(START + 5).is_ok());
        assert_eq!(cancel.borrower_nft_ata.amount, units);
        assert_eq!(cancel.borrower.lamports, 50);
        assert_eq!(cancel.loan_account.data, None);
        assert_eq!(cancel.nft_vault, None);
    }
}

#[test]
fn request_fund_repay_returns_the_collateral_to_the_borrower() {
    let mut request = request_context(1);
    let bumps = CreateLoanBumps { loan_account: 254 };
    assert!(request.request_loan(1_000_000, DAY, 1000, &bumps, START - 100).is_ok());

    let mut fund = FundBorrower {
        lender: Wallet { key: key(LENDER), lamports: 3_000_000 },
        borrower: Wallet { key: key(BORROWER), lamports: 200_000 },
        borrower_nft_mint: key(MINT),
        loan_account: request.loan_account,
        platform: request.platform,
    };
    assert!(fund.fund_borrower(START).is_ok());

    // Once funded, the request cannot be withdrawn.
    let mut cancel = cancellation(fund.loan_account.data);
    assert_eq!(cancel.cancel_loan(START + 1), Err(ErrorCode::LoanAlreadyFunded));

    let mut resolve = ResolveLoan {
        borrower: fund.borrower,
        lender: fund.lender,
        borrower_nft_mint: key(MINT),
        borrower_nft_ata: request.borrower_nft_ata,
        platform: fund.platform,
        loan_account: fund.loan_account,
        nft_vault: request.nft_vault,
        treasury_vault: Wallet { key: key(TREASURY), lamports: 0 },
    };
    assert!(resolve.resolve_loan(START + DAY as i64).is_ok());
    assert_eq!(resolve.borrower_nft_ata.amount, 1);
    assert_eq!(resolve.borrower.lamports, 200_000 + 1_000_000 - 1_100_000);
    assert_eq!(resolve.lender.lamports, 3_000_000 - 1_000_000 + 1_095_000);
    assert_eq!(resolve.treasury_vault.lamports, 5_000);
    assert_eq!(
        resolve.borrower.lamports + resolve.lender.lamports + resolve.treasury_vault.lamports,
        3_200_000
    );
}

#[test]
fn nothing_works_on_a_loan_that_is_gone() {
    let mut resolve = repayment(Some(funded_loan(1_000_000, 1000)), 1_100_000);
    assert!(resolve.resolve_loan(START).is_ok());
    assert_eq!(resolve.resolve_loan(START), Err(ErrorCode::AccountNotInitialized));
    assert_eq!(resolve.transfer_amount(START), Err(ErrorCode::AccountNotInitialized));
    assert_eq!(resolve.claim_nft(START), Err(ErrorCode::AccountNotInitialized));

    let gone = resolve.loan_account;
    assert_eq!(gone.data, None);

    let mut fund = funding(None, 5_000_000, 0);
    fund.loan_account = gone;
    assert_eq!(fund.fund_borrower(START), Err(ErrorCode::AccountNotInitialized));

    let mut default = default_of(None);
    default.loan_account = gone;
    default.nft_vault = resolve.nft_vault;
    assert_eq!(default.claim_nft(i64::MAX), Err(ErrorCode::AccountNotInitialized));

    let mut cancel = cancellation(None);
    cancel.loan_account = gone;
    cancel.nft_vault = resolve.nft_vault;
    assert_eq!(cancel.cancel_loan(START), Err(ErrorCode::AccountNotInitialized));

    let mut defaulted = default_of(Some(funded_loan(1_000, 1000)));
    assert!(defaulted.claim_nft(i64::MAX).is_ok());
    assert_eq!(defaulted.claim_nft(i64::MAX), Err(ErrorCode::AccountNotInitialized));

    let mut cancelled = cancellation(Some(requested_loan(1_000, 1000)));
    assert!(cancelled.cancel_loan(START).is_ok());
    assert_eq!(cancelled.cancel_loan(START), Err(ErrorCode::AccountNotInitialized));
}

#[test]
fn collateral_can_be_offered_again_once_the_loan_is_gone() {
    let mut request = request_context(1);
    let bumps = CreateLoanBumps { loan_account: 254 };
    assert!(request.request_loan(1_000, DAY, 1000, &bumps, START).is_ok());
    let mut cancel = BorrowerCancelLoan {
        borrower: request.borrower,
        borrower_nft_mint: request.borrower_nft_mint,
        borrower_nft_ata: request.borrower_nft_ata,
        loan_account: request.loan_account,
        nft_vault: request.nft_vault,
        platform: request.platform,
    };
    assert!(cancel.cancel_loan(START).is_ok());

    request.borrower_nft_ata = cancel.borrower_nft_ata;
    request.loan_account = cancel.loan_account;
    request.nft_vault = cancel.nft_vault;
    assert!(request.request_loan(2_000, DAY, 500, &bumps, START + 10).is_ok());
    assert_eq!(request.loan_account.data.unwrap().loan_amount, 2_000);
}
