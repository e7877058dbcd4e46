//! The accounts that a lifecycle operation is handed: wallets, token
//! holdings and the addresses at which records live.

use vstd::prelude::*;
use crate::error::ErrorCode;
use crate::pubkey::Pubkey;

verus! {

/// A wallet: an identity and the funds it holds.
#[derive(Clone, Copy, Debug, PartialEq, Eq)]
pub struct Wallet {
    pub key: Pubkey,
    pub lamports: u64,
}

impl Wallet {
    /// The same wallet holding `lamports`.
    pub open spec fn with_lamports(self, lamports: u64) -> Wallet {
        Wallet { lamports, ..self }
    }
}

/// Why `lamports` cannot go from `from` to `to`, or `None` where they can:
/// the payer holds less, or the receiver cannot hold as much.
pub open spec fn transfer_error(from: Wallet, to: Wallet, lamports: u64) -> Option<ErrorCode> {
    if from.lamports < lamports {
        Some(ErrorCode::InsufficientBalance)
    } else if to.lamports + lamports > u64::MAX {
        Some(ErrorCode::ArithmeticOverflow)
    } else {
        None
    }
}

/// Moves `lamports` from one wallet to another, in full or not at all.
pub fn transfer(from: &mut Wallet, to: &mut Wallet, lamports: u64) -> (r: Result<(), ErrorCode>)
    ensures
        (match transfer_error(*old(from), *old(to), lamports) {
            Some(e) => r == Err::<(), ErrorCode>(e) && *final(from) == *old(from) && *final(to)
                == *old(to),
            None => r is Ok && *final(from) == old(from).with_lamports(
                (old(from).lamports - lamports) as u64,
            ) && *final(to) == old(to).with_lamports((old(to).lamports + lamports) as u64),
        }),
{
    if from.lamports < lamports {
        return Err(ErrorCode::InsufficientBalance);
    }
    let received = match to.lamports.checked_add(lamports) {
        Some(received) => received,
        None => {
            return Err(ErrorCode::ArithmeticOverflow);
        },
    };
    from.lamports = from.lamports - lamports;
    to.lamports = received;
    Ok(())
}

/// A party's holding of the collateral token.
#[derive(Clone, Copy, Debug, PartialEq, Eq, Structural)]
pub struct TokenAccount {
    /// How many units the party holds.
    pub amount: u64,
}

/// An address at which a record may live. `data` is `None` while no record
/// exists there: before it is created and after it is destroyed.
#[derive(Debug, PartialEq, Eq)]
pub struct Account<T> {
    pub key: Pubkey,
    pub data: Option<T>,
}

impl<T: Copy> Clone for Account<T> {
    fn clone(&self) -> (copy: Account<T>)
        ensures
            copy == *self,
    {
        *self
    }
}

impl<T: Copy> Copy for Account<T> {

}

} // verus!
