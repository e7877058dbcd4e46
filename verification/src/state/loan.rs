//! The loan record: parties, terms and status of one loan.

use vstd::prelude::*;
use crate::pubkey::Pubkey;

verus! {

/// Where a loan stands in its life.
///
/// `Requested` and `Funded` are the states in which a loan rests. `Repaid` and
/// `Defaulted` are reached only inside the operation that also destroys the
/// record.
#[derive(Clone, Copy, Debug, PartialEq, Eq, Structural)]
pub enum LoanStatus {
    Requested,
    Funded,
    Repaid,
    Defaulted,
}

/// One loan: who borrows and who lends, against which collateral, on which
/// terms, and how far it has come.
#[derive(Clone, Copy, Debug, PartialEq, Eq)]
pub struct Loan {
    pub borrower: Pubkey,
    /// Absent until the loan is funded; never changed once set.
    pub lender: Option<Pubkey>,
    /// The token that is held in escrow for this loan.
    pub nft_mint: Pubkey,
    /// The principal.
    pub loan_amount: u64,
    /// The length of the repayment window, in seconds.
    pub duration: u32,
    /// The time at which the loan was funded; absent until then.
    pub start_time: Option<i64>,
    pub status: LoanStatus,
    /// Room for the time at which the loan ended. No operation sets it.
    pub time_of_liquidation_or_repayment: Option<u32>,
    /// The interest over the whole duration, in basis points of the principal.
    pub interest_rate: u16,
    /// Address marker of the loan record.
    pub bump: u8,
}

impl Loan {
    /// The invariant of a loan record: the terms are positive, a lender is on
    /// record exactly when the loan has left `Requested`, and the start time
    /// is on record exactly when a lender is.
    pub open spec fn well_formed(self) -> bool {
        &&& self.loan_amount > 0
        &&& self.duration > 0
        &&& (self.lender is Some <==> self.status != LoanStatus::Requested)
        &&& (self.start_time is Some <==> self.lender is Some)
    }

    /// The loan as it is created by a request: no lender, no start time.
    pub open spec fn requested(
        borrower: Pubkey,
        nft_mint: Pubkey,
        loan_amount: u64,
        duration: u32,
        interest_rate: u16,
        bump: u8,
    ) -> Loan {
        Loan {
            borrower,
            lender: None,
            nft_mint,
            loan_amount,
            duration,
            start_time: None,
            status: LoanStatus::Requested,
            time_of_liquidation_or_repayment: None,
            interest_rate,
            bump,
        }
    }

    /// The seed material of the loan record for `nft_mint` on `platform`: the
    /// word "loan", the two identities and the record's address marker. The
    /// record's address is derived from it, so that one collateral has at
    /// most one loan on one platform, and the record proves its authority over
    /// the escrow with it.
    pub open spec fn seeds(nft_mint: Pubkey, platform: Pubkey, bump: u8) -> Seq<Seq<u8>> {
        seq![seq![0x6c, 0x6f, 0x61, 0x6e], nft_mint.bytes@, platform.bytes@, seq![bump]]
    }

    /// The seed material of this loan record on `platform`.
    pub fn signer_seeds(&self, platform: &Pubkey) -> (seeds: Vec<Vec<u8>>)
        ensures
            seeds.deep_view() == Loan::seeds(self.nft_mint, *platform, self.bump),
    {
        let mut word: Vec<u8> = Vec::with_capacity(4);
        word.push(0x6c);
        word.push(0x6f);
        word.push(0x61);
        word.push(0x6e);
        let mut marker: Vec<u8> = Vec::with_capacity(1);
        marker.push(self.bump);
        let mut seeds: Vec<Vec<u8>> = Vec::with_capacity(4);
        seeds.push(word);
        seeds.push(self.nft_mint.to_vec());
        seeds.push(platform.to_vec());
        seeds.push(marker);
        proof {
            let expected = Loan::seeds(self.nft_mint, *platform, self.bump);
            assert(seeds@[0]@ =~= expected[0]);
            assert(seeds@[1]@ =~= expected[1]);
            assert(seeds@[2]@ =~= expected[2]);
            assert(seeds@[3]@ =~= expected[3]);
            assert(seeds.deep_view() =~~= expected);
        }
        seeds
    }

    /// The loan after `lender` has funded it at time `now`.
    pub open spec fn funded_by(self, lender: Pubkey, now: i64) -> Loan {
        Loan { lender: Some(lender), start_time: Some(now), status: LoanStatus::Funded, ..self }
    }

    /// The loan with another status and everything else as it was.
    pub open spec fn with_status(self, status: LoanStatus) -> Loan {
        Loan { status, ..self }
    }

    /// Whether the repayment window is open at time `now`: the loan has been
    /// funded, and no more than `duration` seconds have passed since. The
    /// window closes hard at the deadline.
    pub open spec fn repayable_at(self, now: i64) -> bool {
        self.start_time matches Some(start) && now - start <= self.duration
    }

    /// Whether the repayment window has closed at time `now`: the loan has
    /// been funded, and more than `duration` seconds have passed since.
    pub open spec fn overdue_at(self, now: i64) -> bool {
        self.start_time matches Some(start) && now - start > self.duration
    }

    /// Whether the repayment window is open at `now`.
    pub fn is_repayable_at(&self, now: i64) -> (open: bool)
        ensures
            open == self.repayable_at(now),
    {
        match self.start_time {
            Some(start) => (now as i128) - (start as i128) <= (self.duration as i128),
            None => false,
        }
    }

    /// Whether the repayment window has closed at `now`.
    pub fn is_overdue_at(&self, now: i64) -> (closed: bool)
        ensures
            closed == self.overdue_at(now),
    {
        match self.start_time {
            Some(start) => (now as i128) - (start as i128) > (self.duration as i128),
            None => false,
        }
    }
}

} // verus!
