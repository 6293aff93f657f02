//! The trigger authority gate: one configured identity may ask for payments.

use vstd::prelude::*;
use crate::error::ErrorCode;
use crate::identity::Identity;

verus! {

/// The answer to `authority` when `trigger_authority` is the one configured.
pub open spec fn gate_answer(authority: Identity, trigger_authority: Identity) -> Result<
    (),
    ErrorCode,
> {
    if authority == trigger_authority {
        Ok(())
    } else {
        Err(ErrorCode::Unauthorized)
    }
}

/// Lets the configured trigger authority through and nobody else.
pub fn check_owner(authority: &Identity, trigger_authority: &Identity) -> (r: Result<
    (),
    ErrorCode,
>)
    ensures
        r == gate_answer(*authority, *trigger_authority),
{
    if authority.same(trigger_authority) {
        Ok(())
    } else {
        Err(ErrorCode::Unauthorized)
    }
}

} // verus!
