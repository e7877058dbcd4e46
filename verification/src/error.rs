//! The reasons for which a lifecycle operation is rejected.

use vstd::prelude::*;

verus! {

/// Why an operation was rejected. A rejected operation changes nothing.
#[derive(Clone, Copy, Debug, PartialEq, Eq, Structural)]
pub enum ErrorCode {
    /// The requested principal is zero.
    InvalidAmountError,
    /// The requested duration is zero.
    InvalidDurationError,
    /// The loan already has a lender.
    LoanFunded,
    /// The loan is no longer waiting for a lender.
    LoanNotActive,
    /// The paying party holds less than it has to hand over.
    InsufficientBalance,
    /// The repayment window has closed, or the loan was never funded.
    LoanDefaulted,
    /// The loan has been repaid already.
    LoanRepaided,
    /// The collateral is claimed back before the loan has been repaid.
    LoanNotRepaided,
    /// The lender that was named is not the lender on record.
    LenderNotMatched,
    /// The collateral is claimed by the lender although the loan has been repaid.
    LoanAlreadyRepaid,
    /// The collateral is claimed by the lender before the repayment window has closed.
    WaitForLoanToComplete,
    /// The collateral is claimed by the lender a second time.
    LoanAlreadyDefaulted,
    /// The collateral is claimed by the lender although the loan was never funded.
    LoanNotStarted,
    /// The loan is cancelled although a lender is attached to it.
    LoanAlreadyFunded,
    /// A record that the operation works on does not exist at its address.
    AccountNotInitialized,
    /// A record that the operation creates exists already at its address.
    AccountAlreadyInitialized,
    /// An amount does not fit in 64 bits.
    ArithmeticOverflow,
    /// The current time cannot be read.
    ClockUnavailable,
}

impl ErrorCode {
    /// The text that goes with each reason.
    pub open spec fn text(self) -> Seq<char> {
        match self {
            ErrorCode::InvalidAmountError => "Invalild Loan Amount"@,
            ErrorCode::InvalidDurationError => "Invalid Duration"@,
            ErrorCode::LoanFunded => "Loan Funded"@,
            ErrorCode::LoanNotActive => "Loan either Completed"@,
            ErrorCode::InsufficientBalance => "Insuficient Balance"@,
            ErrorCode::LoanDefaulted => "Loan Defaulted"@,
            ErrorCode::LoanRepaided => "Loan Already Repaid"@,
            ErrorCode::LoanNotRepaided => "Loan Not Paid yet"@,
            ErrorCode::LenderNotMatched => "Lender not matched"@,
            ErrorCode::LoanAlreadyRepaid => "Loan already repaid"@,
            ErrorCode::WaitForLoanToComplete => "Wait for loan to complete"@,
            ErrorCode::LoanAlreadyDefaulted => "Loan already defaulted"@,
            ErrorCode::LoanNotStarted => "Loan not started yet"@,
            ErrorCode::LoanAlreadyFunded => "Loan already funded"@,
            ErrorCode::AccountNotInitialized => "Account not initialized"@,
            ErrorCode::AccountAlreadyInitialized => "Account already initialized"@,
            ErrorCode::ArithmeticOverflow => "Arithmetic overflow"@,
            ErrorCode::ClockUnavailable => "Clock unavailable"@,
        }
    }

    /// The text that goes with this reason.
    pub fn message(&self) -> (msg: &'static str)
        ensures
            msg@ == self.text(),
    {
        match self {
            ErrorCode::InvalidAmountError => "Invalild Loan Amount",
            ErrorCode::InvalidDurationError => "Invalid Duration",
            ErrorCode::LoanFunded => "Loan Funded",
            ErrorCode::LoanNotActive => "Loan either Completed",
            ErrorCode::InsufficientBalance => "Insuficient Balance",
            ErrorCode::LoanDefaulted => "Loan Defaulted",
            ErrorCode::LoanRepaided => "Loan Already Repaid",
            ErrorCode::LoanNotRepaided => "Loan Not Paid yet",
            ErrorCode::LenderNotMatched => "Lender not matched",
            ErrorCode::LoanAlreadyRepaid => "Loan already repaid",
            ErrorCode::WaitForLoanToComplete => "Wait for loan to complete",
            ErrorCode::LoanAlreadyDefaulted => "Loan already defaulted",
            ErrorCode::LoanNotStarted => "Loan not started yet",
            ErrorCode::LoanAlreadyFunded => "Loan already funded",
            ErrorCode::AccountNotInitialized => "Account not initialized",
            ErrorCode::AccountAlreadyInitialized => "Account already initialized",
            ErrorCode::ArithmeticOverflow => "Arithmetic overflow",
            ErrorCode::ClockUnavailable => "Clock unavailable",
        }
    }
}

} // verus!
