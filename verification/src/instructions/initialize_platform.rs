//! Creation of the platform registry.

use vstd::prelude::*;
use crate::accounts::{Account, Wallet};
use crate::error::ErrorCode;
use crate::state::Platform;

verus! {

/// The accounts of the platform's creation. The caller acts as administrator.
#[derive(Clone, Copy, Debug, PartialEq, Eq)]
pub struct Initialize {
    pub admin: Wallet,
    pub platform: Account<Platform>,
}

/// The address markers of the records that belong to the platform.
#[derive(Clone, Copy, Debug, PartialEq, Eq, Structural)]
pub struct InitializeBumps {
    pub platform: u8,
    pub treasury_vault: u8,
    pub reward_mint: u8,
}

impl Initialize {
    /// The accounts after the platform has been created with `fee_bps`.
    pub open spec fn initialized(self, fee_bps: u16, bumps: InitializeBumps) -> Initialize {
        Initialize {
            platform: Account {
                data: Some(
                    Platform {
                        authority: self.admin.key,
                        fee_bps,
                        reward_bump: bumps.reward_mint,
                        treasury_bump: bumps.treasury_vault,
                        bump: bumps.platform,
                    },
                ),
                ..self.platform
            },
            ..self
        }
    }

    /// Creates the platform with the caller as its authority. The platform is
    /// created once: where it exists already, the call is rejected and the
    /// platform stays as it is.
    pub fn init(&mut self, fee_bps: u16, bumps: &InitializeBumps) -> (r: Result<(), ErrorCode>)
        ensures
            old(self).platform.data is Some ==> r == Err::<(), ErrorCode>(
                ErrorCode::AccountAlreadyInitialized,
            ) && *final(self) == *old(self),
            old(self).platform.data is None ==> r is Ok && *final(self) == old(self).initialized(
                fee_bps,
                *bumps,
            ),
    {
        if self.platform.data.is_some() {
            return Err(ErrorCode::AccountAlreadyInitialized);
        }
        self.platform.data = Some(
            Platform {
                authority: self.admin.key,
                fee_bps,
                reward_bump: bumps.reward_mint,
                treasury_bump: bumps.treasury_vault,
                bump: bumps.platform,
            },
        );
        Ok(())
    }
}

} // verus!
