//! The records that the lending platform keeps.

pub mod loan;
pub mod platform;

pub use loan::Loan;
pub use loan::LoanStatus;
pub use platform::Platform;
