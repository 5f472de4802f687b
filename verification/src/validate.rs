//! The extension slot of a query. It is reserved: a query that fills it is
//! turned down rather than answered as if the slot were empty.

use vstd::prelude::*;

use crate::error::ContractError;

verus! {

/// The extension slot is empty: the parameters are absent, or they are present
/// and hold no byte.
pub open spec fn extension_empty(params: Option<Vec<u8>>) -> bool {
    match params {
        Some(bytes) => bytes@.len() == 0,
        None => true,
    }
}

/// What [`validate_extension_params`] answers for an extension slot.
pub open spec fn validated(params: Option<Vec<u8>>) -> Result<(), ContractError> {
    if extension_empty(params) {
        Ok(())
    } else {
        Err(ContractError::InvalidRequest)
    }
}

/// Accepts a query exactly when its extension slot is empty: parameters that
/// hold at least one byte are turned down, whatever the bytes are.
pub fn validate_extension_params(params: &Option<Vec<u8>>) -> (r: Result<(), ContractError>)
    ensures
        r == validated(*params),
{
    match params {
        Some(bytes) => {
            if bytes.len() == 0 {
                Ok(())
            } else {
                Err(ContractError::InvalidRequest)
            }
        },
        None => Ok(()),
    }
}

} // verus!
