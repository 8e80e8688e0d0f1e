use vstd::prelude::*;

use crate::error::PerpsError;
use crate::state::{Address, GlobalState, Market};

verus! {

/// What pausing a market reads and writes.
#[derive(Debug, Clone, Copy, PartialEq, Eq)]
pub struct PauseMarket {
    pub global_state: GlobalState,
    pub admin: Address,
    pub market: Market,
}

/// Pauses (`paused`) or resumes trading in the market; only the protocol's
/// admin may, and a refused call changes nothing.
pub fn handler(accounts: &mut PauseMarket, paused: bool) -> (r: Result<(), PerpsError>)
    ensures
        old(accounts).admin@ != old(accounts).global_state.admin@ ==> {
            &&& r == Err::<(), PerpsError>(PerpsError::Unauthorized)
            &&& *final(accounts) == *old(accounts)
        },
        old(accounts).admin@ == old(accounts).global_state.admin@ ==> {
            &&& r == Ok::<(), PerpsError>(())
            &&& *final(accounts) == (PauseMarket { market: Market { paused, ..old(accounts).market }, ..*old(accounts) })
        },
{
    if !accounts.admin.key_eq(&accounts.global_state.admin) {
        return Err(PerpsError::Unauthorized);
    }
    accounts.market.paused = paused;
    Ok(())
}

} // verus!
