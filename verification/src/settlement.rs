//! What a borrower owes at repayment, and how it is split between the lender
//! and the platform.

use vstd::prelude::*;

verus! {

/// The number of basis points that make up the whole: 10000 bps are 100%.
pub const BASIS_POINTS: u64 = 10000;

/// The interest on `loan_amount` at `interest_rate_bps`, rounded down.
pub open spec fn interest_on(loan_amount: nat, interest_rate_bps: nat) -> nat {
    (loan_amount * interest_rate_bps) / 10000
}

/// The platform's share of `interest` at `platform_fee_bps`, rounded down.
pub open spec fn platform_share(interest: nat, platform_fee_bps: nat) -> nat {
    (interest * platform_fee_bps) / 10000
}

/// The amounts that change hands when a loan is repaid.
#[derive(Clone, Copy, Debug, PartialEq, Eq, Structural)]
pub struct Settlement {
    /// The interest that the borrower pays on top of the principal.
    pub interest: u64,
    /// The part of the interest that goes to the platform's treasury.
    pub fee_for_platform: u64,
    /// What the lender receives: the principal and the rest of the interest.
    pub payout_to_lender: u64,
}

impl Settlement {
    /// Whether every step of the settlement of these terms fits in 64 bits:
    /// the two products, the sum of principal and interest, and the fee taken
    /// off that sum.
    pub open spec fn representable(
        loan_amount: u64,
        interest_rate_bps: u16,
        platform_fee_bps: u16,
    ) -> bool {
        let interest = interest_on(loan_amount as nat, interest_rate_bps as nat);
        let fee = platform_share(interest, platform_fee_bps as nat);
        &&& loan_amount * interest_rate_bps <= u64::MAX
        &&& interest * platform_fee_bps <= u64::MAX
        &&& loan_amount + interest <= u64::MAX
        &&& fee <= loan_amount + interest
    }

    /// The settlement of these terms: the fee is carved out of the interest,
    /// and the lender gets the principal and the rest of the interest. It is
    /// meaningful where the terms are `representable`.
    pub open spec fn of(loan_amount: u64, interest_rate_bps: u16, platform_fee_bps: u16) -> Settlement {
        let interest = interest_on(loan_amount as nat, interest_rate_bps as nat);
        let fee = platform_share(interest, platform_fee_bps as nat);
        Settlement {
            interest: interest as u64,
            fee_for_platform: fee as u64,
            payout_to_lender: (loan_amount + interest - fee) as u64,
        }
    }

    /// What the borrower has to hold to repay: the lender's payout and the
    /// platform's fee together.
    pub open spec fn total_due(self) -> int {
        self.payout_to_lender + self.fee_for_platform
    }

    /// Computes the settlement of a loan of `loan_amount` at
    /// `interest_rate_bps`, of which the platform takes `platform_fee_bps` of
    /// the interest. Gives `None` exactly when a step does not fit in 64 bits.
    pub fn compute(loan_amount: u64, interest_rate_bps: u16, platform_fee_bps: u16) -> (settlement:
        Option<Settlement>)
        ensures
            settlement == (if Settlement::representable(
                loan_amount,
                interest_rate_bps,
                platform_fee_bps,
            ) {
                Some(Settlement::of(loan_amount, interest_rate_bps, platform_fee_bps))
            } else {
                None
            }),
    {
        let interest = match loan_amount.checked_mul(interest_rate_bps as u64) {
            Some(product) => product / BASIS_POINTS,
            None => {
                return None;
            },
        };
        let fee_for_platform = match interest.checked_mul(platform_fee_bps as u64) {
            Some(product) => product / BASIS_POINTS,
            None => {
                return None;
            },
        };
        let owed = match loan_amount.checked_add(interest) {
            Some(sum) => sum,
            None => {
                return None;
            },
        };
        match owed.checked_sub(fee_for_platform) {
            Some(payout_to_lender) => Some(Settlement { interest, fee_for_platform, payout_to_lender }),
            None => None,
        }
    }
}

/// The settlement identity: lender and platform together receive the principal
/// and the whole interest, no more and no less.
pub proof fn lemma_settlement_identity(
    loan_amount: u64,
    interest_rate_bps: u16,
    platform_fee_bps: u16,
)
    requires
        Settlement::representable(loan_amount, interest_rate_bps, platform_fee_bps),
    ensures
        ({
            let s = Settlement::of(loan_amount, interest_rate_bps, platform_fee_bps);
            &&& s.interest == (loan_amount * interest_rate_bps) / 10000
            &&& s.fee_for_platform == (s.interest * platform_fee_bps) / 10000
            &&& s.payout_to_lender + s.fee_for_platform == loan_amount + (loan_amount
                * interest_rate_bps) / 10000
        }),
{
}

/// The principal always reaches the lender in full: while the platform takes
/// no more than the whole interest, the fee stays within the interest and the
/// payout is at least the principal.
pub proof fn lemma_principal_returned_in_full(
    loan_amount: u64,
    interest_rate_bps: u16,
    platform_fee_bps: u16,
)
    requires
        Settlement::representable(loan_amount, interest_rate_bps, platform_fee_bps),
        platform_fee_bps <= 10000,
    ensures
        ({
            let s = Settlement::of(loan_amount, interest_rate_bps, platform_fee_bps);
            &&& s.fee_for_platform <= s.interest
            &&& s.payout_to_lender >= loan_amount
        }),
{
    let interest = interest_on(loan_amount as nat, interest_rate_bps as nat);
    let fee_bps = platform_fee_bps as nat;
    assert(interest * fee_bps <= interest * 10000) by (nonlinear_arith)
        requires
            fee_bps <= 10000,
    ;
    assert((interest * 10000) / 10000 == interest) by (nonlinear_arith);
    assert((interest * fee_bps) / 10000 <= (interest * 10000) / 10000) by (nonlinear_arith)
        requires
            interest * fee_bps <= interest * 10000,
    ;
}

/// With a fee of at most 100% of the interest, a settlement is representable
/// as soon as the product of principal and rate and the sum of principal and
/// interest fit in 64 bits.
pub proof fn lemma_representable_with_bounded_fee(
    loan_amount: u64,
    interest_rate_bps: u16,
    platform_fee_bps: u16,
)
    requires
        platform_fee_bps <= 10000,
        loan_amount * interest_rate_bps <= u64::MAX,
        loan_amount + interest_on(loan_amount as nat, interest_rate_bps as nat) <= u64::MAX,
    ensures
        Settlement::representable(loan_amount, interest_rate_bps, platform_fee_bps),
{
    let product = (loan_amount * interest_rate_bps) as nat;
    let interest = interest_on(loan_amount as nat, interest_rate_bps as nat);
    let fee_bps = platform_fee_bps as nat;
    assert(interest == product / 10000);
    assert(interest * 10000 <= product) by (nonlinear_arith)
        requires
            interest == product / 10000,
    ;
    assert(interest * fee_bps <= interest * 10000) by (nonlinear_arith)
        requires
            fee_bps <= 10000,
    ;
    assert((interest * 10000) / 10000 == interest) by (nonlinear_arith);
    assert((interest * fee_bps) / 10000 <= (interest * 10000) / 10000) by (nonlinear_arith)
        requires
            interest * fee_bps <= interest * 10000,
    ;
}

} // verus!
