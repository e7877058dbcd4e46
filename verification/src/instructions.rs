//! The lifecycle operations, each on the accounts it is handed.
//!
//! An account set names each party by its role in the operation and holds
//! what the operation reads and changes: keys, funds, token holdings, the
//! records and the escrow. An operation checks the accounts against the loan
//! record where its rules say so. That the accounts it is handed are those of
//! the parties otherwise is for the one who assembles them.
//!
//! Each operation comes with three spec functions: whether it goes through
//! (`can_..`), why it is rejected (`.._error`), and what it leaves behind.

pub mod borrower_cancel_loan;
pub mod create_loan;
pub mod default_loan;
pub mod fund_borrower;
pub mod initialize_platform;
pub mod resolve_loan;

pub use borrower_cancel_loan::BorrowerCancelLoan;
pub use create_loan::CreateLoan;
pub use create_loan::CreateLoanBumps;
pub use default_loan::DefaultLoan;
pub use fund_borrower::FundBorrower;
pub use initialize_platform::Initialize;
pub use initialize_platform::InitializeBumps;
pub use resolve_loan::ResolveLoan;
