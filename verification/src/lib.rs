//! Delegated, interval-gated recurring payments.
//!
//! A user lets a controller spend from a token account, registers bundles
//! (an amount and a minimum interval each), and a single trigger authority
//! asks for a bundle's payment. The operations here decide whether a payment
//! may run and how the records change; moving the tokens is left to the
//! caller. A payment therefore takes two steps: `trigger` decides and hands
//! out the transfer to make, `complete_trigger` records how the transfer went.

use vstd::prelude::*;
use crate::accounts::AddBundle;
use crate::accounts::InitializeController;
use crate::accounts::TransferOrder;
use crate::accounts::TransferOutcome;
use crate::accounts::Trigger;
use crate::error::ErrorCode;
use crate::gate::check_owner;
use crate::identity::Identity;
use crate::state::Bundle;
use crate::state::UserBundlSubscriptionController;

pub mod accounts;
pub mod error;
pub mod gate;
pub mod guarantees;
pub mod identity;
pub mod state;

verus! {

/// Sets up the user's controller, or leaves the one that the user has as it is.
///
/// The funding account must name the controller as its delegate, with an
/// allowance of at least its balance. On failure nothing changes.
pub fn initialize_controller(ctx: &mut InitializeController) -> (r: Result<Identity, ErrorCode>)
    ensures
        r == old(ctx).verdict(),
        *final(ctx) == old(ctx).outcome(),
{
    if !ctx.from_token_account.is_delegated_to(&ctx.controller_key) {
        return Err(ErrorCode::InvalidDelegate);
    }
    if ctx.from_token_account.delegated_amount < ctx.from_token_account.amount {
        return Err(ErrorCode::LowAllowance);
    }
    match &ctx.controller {
        Some(existing) => {
            if !existing.user.same(&ctx.authority) {
                return Err(ErrorCode::NotOwner);
            }
        },
        None => {
            ctx.controller = Some(
                UserBundlSubscriptionController {
                    user: ctx.authority,
                    bundle_counter: 0,
                    user_token_account: ctx.from_token_account.key,
                    bump: ctx.bump,
                },
            );
        },
    }
    Ok(ctx.controller_key)
}

/// Adds a bundle under the caller's controller. The bundle takes the
/// controller's counter as its number, and the counter goes up by one.
/// On failure nothing changes.
pub fn add_bundle(ctx: &mut AddBundle, amount_per_interval: u64, interval: u64) -> (r: Result<
    u64,
    ErrorCode,
>)
    ensures
        r == old(ctx).verdict(amount_per_interval, interval),
        *final(ctx) == old(ctx).outcome(amount_per_interval, interval),
{
    if !ctx.controller.user.same(&ctx.authority) {
        return Err(ErrorCode::NotOwner);
    }
    if amount_per_interval == 0 {
        return Err(ErrorCode::InvalidAmount);
    }
    if interval == 0 {
        return Err(ErrorCode::InvalidInterval);
    }
    let bundle_identifier: u64 = ctx.controller.bundle_counter;
    if bundle_identifier == u64::MAX {
        return Err(ErrorCode::TooManyBundles);
    }
    ctx.bundle = Bundle { bundle_identifier, interval, amount_per_interval, last_paid: 0 };
    ctx.controller.bundle_counter = bundle_identifier + 1;
    Ok(bundle_identifier)
}

/// Decides whether the bundle's payment may run at time `now`, and if so
/// hands out the transfer to make. Changes nothing.
pub fn trigger(
    ctx: &Trigger,
    trigger_authority: &Identity,
    bundle_identifier: u64,
    now: i64,
) -> (r: Result<TransferOrder, ErrorCode>)
    ensures
        r == ctx.decision(*trigger_authority, bundle_identifier, now),
{
    if check_owner(&ctx.authority, trigger_authority).is_err() {
        return Err(ErrorCode::Unauthorized);
    }
    if ctx.bundle.bundle_identifier != bundle_identifier {
        return Err(ErrorCode::NotFound);
    }
    match ctx.check_payable(now) {
        Err(e) => Err(e),
        Ok(_) => Ok(ctx.order_at(now)),
    }
}

/// Records how the transfer of `order` went. The call passes the checks of
/// `trigger` again, at the order's time, and the order must be the one that
/// `trigger` hands out at that time. Where that holds and the transfer went
/// through, the bundle's `last_paid` becomes the order's time; in every other
/// case nothing changes.
pub fn complete_trigger(
    ctx: &mut Trigger,
    trigger_authority: &Identity,
    bundle_identifier: u64,
    order: &TransferOrder,
    transfer: TransferOutcome,
) -> (r: Result<i64, ErrorCode>)
    ensures
        r == old(ctx).completion(*trigger_authority, bundle_identifier, *order, transfer),
        *final(ctx) == old(ctx).settled(*trigger_authority, bundle_identifier, *order, transfer),
{
    match self::trigger(ctx, trigger_authority, bundle_identifier, order.paid_at) {
        Err(e) => Err(e),
        Ok(expected) => {
            if !order.matches(&expected) {
                return Err(ErrorCode::OrderMismatch);
            }
            match transfer {
                TransferOutcome::Completed => {
                    ctx.bundle.last_paid = order.paid_at;
                    Ok(order.paid_at)
                },
                TransferOutcome::Failed => Err(ErrorCode::TransferFailed),
            }
        },
    }
}

} // verus!
