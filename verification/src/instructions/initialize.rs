use vstd::prelude::*;

use crate::constants::{DEFAULT_MAX_CONFIDENCE_BPS, DEFAULT_MAX_STALENESS_SECONDS};
use crate::state::{Address, GlobalState, Treasury};

verus! {

/// What initializing the protocol reads.
#[derive(Debug, Clone, Copy, PartialEq, Eq)]
pub struct Initialize {
    pub admin: Address,
    /// Address of the new treasury account.
    pub treasury: Address,
    pub global_state_bump: u8,
    pub treasury_bump: u8,
}

/// The protocol's initial configuration and treasury: the caller becomes
/// admin and treasury authority, the oracle limits take their defaults and
/// no fees are collected yet.
pub fn handler(accounts: &Initialize) -> (r: (GlobalState, Treasury))
    ensures
        r.0 == (GlobalState {
            admin: accounts.admin,
            treasury: accounts.treasury,
            max_staleness_seconds: DEFAULT_MAX_STALENESS_SECONDS,
            max_confidence_bps: DEFAULT_MAX_CONFIDENCE_BPS,
            bump: accounts.global_state_bump,
        }),
        r.1 == (Treasury { authority: accounts.admin, collected_fees: 0, bump: accounts.treasury_bump }),
{
    let global_state = GlobalState {
        admin: accounts.admin,
        treasury: accounts.treasury,
        max_staleness_seconds: DEFAULT_MAX_STALENESS_SECONDS,
        max_confidence_bps: DEFAULT_MAX_CONFIDENCE_BPS,
        bump: accounts.global_state_bump,
    };
    let treasury = Treasury { authority: accounts.admin, collected_fees: 0, bump: accounts.treasury_bump };
    (global_state, treasury)
}

} // verus!
