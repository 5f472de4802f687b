//! Who may write: the admin, and nobody else.

use vstd::prelude::*;

use crate::error::ContractError;
use crate::state::Config;

verus! {

/// What [`authorize`] answers for a caller under an admin address.
pub open spec fn authorized(caller: Seq<char>, admin: Seq<char>) -> Result<(), ContractError> {
    if caller == admin {
        Ok(())
    } else {
        Err(ContractError::Unauthorized)
    }
}

/// Lets the caller through exactly when it is the admin of `config`.
pub fn authorize(caller: &String, config: &Config) -> (r: Result<(), ContractError>)
    ensures
        r == authorized(caller@, config.admin_address@),
{
    if *caller == config.admin_address {
        Ok(())
    } else {
        Err(ContractError::Unauthorized)
    }
}

} // verus!
