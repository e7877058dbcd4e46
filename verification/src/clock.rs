//! The time of the chain.

use vstd::prelude::*;
use anchor_lang::prelude::Clock;
use anchor_lang::solana_program::sysvar::Sysvar;

verus! {

/// Reads the chain's current time, in seconds since the Unix epoch.
///
/// This calls `Clock::get` of `anchor_lang` and hands out its
/// `unix_timestamp`, or `None` where the clock cannot be read, as is the case
/// off chain. Nothing is claimed of the time that is read.
#[verifier::external_body]
pub(crate) fn unix_timestamp() -> (now: Option<i64>) {
    match Clock::get() {
        Ok(clock) => Some(clock.unix_timestamp),
        Err(_) => None,
    }
}

} // verus!
