//! What holds of the operations taken together, proved from their contracts.

use vstd::prelude::*;
use crate::accounts::AddBundle;
use crate::accounts::InitializeController;
use crate::accounts::TransferOrder;
use crate::accounts::TransferOutcome;
use crate::accounts::Trigger;
use crate::error::ErrorCode;
use crate::identity::Identity;
use crate::state::Bundle;
use crate::state::UserBundlSubscriptionController;

verus! {

/// `pre` with one more bundle counted.
pub open spec fn counted_up(
    pre: UserBundlSubscriptionController,
) -> UserBundlSubscriptionController {
    UserBundlSubscriptionController { bundle_counter: (pre.bundle_counter + 1) as u64, ..pre }
}

/// One operation took a controller from `pre` to `post`: either it left the
/// controller as it was, or it added a bundle.
pub open spec fn controller_step(
    pre: UserBundlSubscriptionController,
    post: UserBundlSubscriptionController,
) -> bool {
    post == pre || (pre.bundle_counter < u64::MAX && post == counted_up(pre))
}

/// The states of one controller in the order in which operations left them.
pub open spec fn controller_history(h: Seq<UserBundlSubscriptionController>) -> bool {
    forall|i: int| 0 <= i < h.len() - 1 ==> controller_step(#[trigger] h[i], h[i + 1])
}

/// The bundles of one controller: each has a number below the counter, and
/// no two have the same number.
pub open spec fn numbered_apart(bundles: Seq<Bundle>, counter: u64) -> bool {
    &&& forall|i: int|
        0 <= i < bundles.len() ==> (#[trigger] bundles[i]).bundle_identifier < counter
    &&& forall|i: int, j: int|
        0 <= i < j < bundles.len() ==> (#[trigger] bundles[i]).bundle_identifier != (
        #[trigger] bundles[j]).bundle_identifier
}

/// The records after a whole payment attempt: the decision of `trigger` and,
/// where it let a transfer through, the completion with the ledger's answer.
pub open spec fn after_attempt(
    ctx: Trigger,
    trigger_authority: Identity,
    bundle_identifier: u64,
    now: i64,
    transfer: TransferOutcome,
) -> Trigger {
    match ctx.decision(trigger_authority, bundle_identifier, now) {
        Ok(order) => ctx.settled(trigger_authority, bundle_identifier, order, transfer),
        Err(_) => ctx,
    }
}

/// `add_bundle` succeeds exactly for the controller's owner, with a positive
/// amount and interval, while a number is left. It then gives the bundle the
/// counter's value, stores amount and interval as they were given, and raises
/// the counter by exactly one. A failed call leaves every record as it was.
pub proof fn add_bundle_counts_up_by_one(ctx: AddBundle, amount_per_interval: u64, interval: u64)
    ensures
        ctx.verdict(amount_per_interval, interval) is Ok <==> {
            &&& ctx.controller.user == ctx.authority
            &&& amount_per_interval > 0
            &&& interval > 0
            &&& ctx.controller.bundle_counter < u64::MAX
        },
        ctx.verdict(amount_per_interval, interval) is Ok ==> {
            let post = ctx.outcome(amount_per_interval, interval);
            &&& ctx.verdict(amount_per_interval, interval) == Ok::<u64, ErrorCode>(
                ctx.controller.bundle_counter,
            )
            &&& post.controller.bundle_counter == ctx.controller.bundle_counter + 1
            &&& post.controller == counted_up(ctx.controller)
            &&& post.bundle.bundle_identifier == ctx.controller.bundle_counter
            &&& post.bundle.amount_per_interval == amount_per_interval
            &&& post.bundle.interval == interval
            &&& post.bundle.last_paid == 0
            &&& post.bundle.well_formed()
        },
        ctx.verdict(amount_per_interval, interval) is Err ==> ctx.outcome(
            amount_per_interval,
            interval,
        ) == ctx,
        controller_step(ctx.controller, ctx.outcome(amount_per_interval, interval).controller),
{
}

/// A new bundle's number is one that no bundle of the controller has, and
/// afterwards all numbers are still apart and below the counter.
pub proof fn new_bundle_number_is_fresh(
    bundles: Seq<Bundle>,
    ctx: AddBundle,
    amount_per_interval: u64,
    interval: u64,
)
    requires
        numbered_apart(bundles, ctx.controller.bundle_counter),
        ctx.verdict(amount_per_interval, interval) is Ok,
    ensures
        forall|i: int|
            0 <= i < bundles.len() ==> (#[trigger] bundles[i]).bundle_identifier != ctx.outcome(
                amount_per_interval,
                interval,
            ).bundle.bundle_identifier,
        numbered_apart(
            bundles.push(ctx.outcome(amount_per_interval, interval).bundle),
            ctx.outcome(amount_per_interval, interval).controller.bundle_counter,
        ),
{
    let post = ctx.outcome(amount_per_interval, interval);
    let all = bundles.push(post.bundle);
    assert forall|i: int| 0 <= i < all.len() implies (#[trigger] all[i]).bundle_identifier
        < post.controller.bundle_counter by {
        if i < bundles.len() {
            assert(all[i] == bundles[i]);
        }
    }
    assert forall|i: int, j: int| 0 <= i < j < all.len() implies (#[trigger] all[i]).bundle_identifier
        != (#[trigger] all[j]).bundle_identifier by {
        assert(all[i] == bundles[i]);
        if j < bundles.len() {
            assert(all[j] == bundles[j]);
        }
    }
}

/// `initialize_controller` never touches a controller that exists, a new
/// controller starts at 0, and a payment attempt, or a completion on its own,
/// never touches the controller at all.
pub proof fn other_operations_keep_the_counter(
    init: InitializeController,
    ctx: Trigger,
    trigger_authority: Identity,
    bundle_identifier: u64,
    now: i64,
    order: TransferOrder,
    transfer: TransferOutcome,
)
    ensures
        init.controller is Some ==> init.outcome().controller == init.controller,
        init.controller is None && init.outcome().controller is Some
            ==> init.outcome().controller->0.bundle_counter == 0,
        after_attempt(ctx, trigger_authority, bundle_identifier, now, transfer).controller
            == ctx.controller,
        ctx.settled(trigger_authority, bundle_identifier, order, transfer).controller
            == ctx.controller,
{
}

/// Over any run of operations a controller's counter never goes down.
pub proof fn counter_never_decreases(h: Seq<UserBundlSubscriptionController>, i: int, j: int)
    requires
        controller_history(h),
        0 <= i <= j < h.len(),
    ensures
        h[i].bundle_counter <= h[j].bundle_counter,
    decreases j - i,
{
    if i < j {
        counter_never_decreases(h, i, j - 1);
        assert(controller_step(h[j - 1], h[j - 1 + 1]));
    }
}

/// No bundle number is given out twice: of two additions under one controller
/// the later one hands out the greater number.
pub proof fn bundle_numbers_are_never_reused(
    h: Seq<UserBundlSubscriptionController>,
    i: int,
    j: int,
)
    requires
        controller_history(h),
        0 <= i < j < h.len() - 1,
        h[i + 1] != h[i],
        h[j + 1] != h[j],
    ensures
        h[i].bundle_counter < h[j].bundle_counter,
{
    assert(controller_step(h[i], h[i + 1]));
    counter_never_decreases(h, i + 1, j);
}

/// `initialize_controller` succeeds exactly when the funding account names
/// the controller as its delegate, the allowance covers the balance, and the
/// controller at hand, if there is one, is the requester's. Where there was
/// none, it creates one for the requester, at counter 0, with the funding
/// account's key.
pub proof fn initialize_creates_where_none_exists(ctx: InitializeController)
    ensures
        ctx.verdict() is Ok <==> {
            &&& ctx.from_token_account.delegate == Some(ctx.controller_key)
            &&& ctx.from_token_account.delegated_amount >= ctx.from_token_account.amount
            &&& (ctx.controller is Some ==> ctx.controller->0.user == ctx.authority)
        },
        ctx.verdict() == Err::<Identity, ErrorCode>(ErrorCode::InvalidDelegate)
            <==> ctx.from_token_account.delegate != Some(ctx.controller_key),
        ctx.verdict() == Err::<Identity, ErrorCode>(ErrorCode::LowAllowance) <==> {
            &&& ctx.from_token_account.delegate == Some(ctx.controller_key)
            &&& ctx.from_token_account.delegated_amount < ctx.from_token_account.amount
        },
        ctx.verdict() is Ok ==> ctx.verdict() == Ok::<Identity, ErrorCode>(ctx.controller_key),
        ctx.verdict() is Ok && ctx.controller is None ==> ctx.outcome().controller == Some(
            UserBundlSubscriptionController {
                user: ctx.authority,
                bundle_counter: 0,
                user_token_account: ctx.from_token_account.key,
                bump: ctx.bump,
            },
        ),
        ctx.verdict() is Err ==> ctx.outcome() == ctx,
{
}

/// A controller that `initialize_controller` has written for a requester
/// whose identity is not all zero reads as existing when it is read back from
/// where it is stored, so that setting up again finds it and leaves its counter.
pub proof fn written_controller_reads_back(ctx: InitializeController)
    requires
        ctx.verdict() is Ok,
        ctx.controller is None,
        !ctx.authority.unset(),
    ensures
        ctx.outcome().controller is Some,
        ctx.outcome().controller->0.read() == ctx.outcome().controller,
{
    let written = ctx.outcome().controller->0;
    assert(written.user == ctx.authority);
}

/// `trigger` lets a transfer through only for the trigger authority, for the
/// bundle that was asked for, out of the controller's funding account, when
/// the bundle is due and the account covers its amount. The transfer then
/// moves exactly that amount in the controller's name, and its completion is
/// accepted.
pub proof fn transfer_only_when_due_and_funded(
    ctx: Trigger,
    trigger_authority: Identity,
    bundle_identifier: u64,
    now: i64,
)
    ensures
        ctx.decision(trigger_authority, bundle_identifier, now) is Ok <==> {
            &&& ctx.authority == trigger_authority
            &&& ctx.bundle.bundle_identifier == bundle_identifier
            &&& ctx.user_token_account.key == ctx.controller.user_token_account
            &&& ctx.bundle.due(now as int)
            &&& ctx.user_token_account.amount >= ctx.bundle.amount_per_interval
        },
        ctx.decision(trigger_authority, bundle_identifier, now) matches Ok(order) ==> {
            &&& order.amount == ctx.bundle.amount_per_interval
            &&& order.from == ctx.controller.user_token_account
            &&& order.from == ctx.user_token_account.key
            &&& order.to == ctx.to_token_account
            &&& order.delegate == ctx.controller_key
            &&& order.paid_at == now
            &&& ctx.completion(
                trigger_authority,
                bundle_identifier,
                order,
                TransferOutcome::Completed,
            ) == Ok::<i64, ErrorCode>(now)
            &&& ctx.completion(
                trigger_authority,
                bundle_identifier,
                order,
                TransferOutcome::Failed,
            ) == Err::<i64, ErrorCode>(ErrorCode::TransferFailed)
        },
{
}

/// With another token account than the controller's funding account no
/// transfer is let through and no payment is recorded.
pub proof fn funds_leave_only_the_funding_account(
    ctx: Trigger,
    trigger_authority: Identity,
    bundle_identifier: u64,
    now: i64,
    order: TransferOrder,
    transfer: TransferOutcome,
)
    requires
        ctx.user_token_account.key != ctx.controller.user_token_account,
    ensures
        ctx.decision(trigger_authority, bundle_identifier, now) is Err,
        ctx.authority == trigger_authority && ctx.bundle.bundle_identifier == bundle_identifier
            ==> ctx.decision(trigger_authority, bundle_identifier, now) == Err::<
            TransferOrder,
            ErrorCode,
        >(ErrorCode::WrongFundingAccount),
        ctx.completion(trigger_authority, bundle_identifier, order, transfer) is Err,
        ctx.settled(trigger_authority, bundle_identifier, order, transfer) == ctx,
{
}

/// `complete_trigger` records a payment only where `trigger`, asked at the
/// order's time, hands out this very order, and only when the transfer went
/// through. It then moves `last_paid` and nothing else.
pub proof fn completion_needs_the_order_of_trigger(
    ctx: Trigger,
    trigger_authority: Identity,
    bundle_identifier: u64,
    order: TransferOrder,
    transfer: TransferOutcome,
)
    ensures
        ctx.completion(trigger_authority, bundle_identifier, order, transfer) is Ok <==> {
            &&& ctx.decision(trigger_authority, bundle_identifier, order.paid_at) == Ok::<
                TransferOrder,
                ErrorCode,
            >(order)
            &&& transfer == TransferOutcome::Completed
        },
        ctx.decision(trigger_authority, bundle_identifier, order.paid_at) matches Err(e)
            ==> ctx.completion(trigger_authority, bundle_identifier, order, transfer) == Err::<
            i64,
            ErrorCode,
        >(e),
        ctx.completion(trigger_authority, bundle_identifier, order, transfer) is Ok
            ==> ctx.settled(trigger_authority, bundle_identifier, order, transfer) == (Trigger {
            bundle: ctx.bundle.paid_at(order.paid_at),
            ..ctx
        }),
        ctx.completion(trigger_authority, bundle_identifier, order, transfer) is Err
            ==> ctx.settled(trigger_authority, bundle_identifier, order, transfer) == ctx,
        ctx.bundle.well_formed() ==> ctx.settled(
            trigger_authority,
            bundle_identifier,
            order,
            transfer,
        ).bundle.well_formed(),
{
}

/// Inside the window that a payment opened, nothing is paid: `trigger` tells
/// the trigger authority `IntervalNotPassed` and lets no transfer through,
/// and `complete_trigger` turns down every order, whoever made it.
///
/// The payment's time must not be 0, the value kept for "never paid".
pub proof fn no_second_payment_in_window(
    ctx: Trigger,
    trigger_authority: Identity,
    now: i64,
    order: TransferOrder,
    transfer: TransferOutcome,
)
    requires
        ctx.bundle.last_paid != 0,
        ctx.bundle.in_window(now as int),
        order.paid_at == now,
    ensures
        ctx.decision(trigger_authority, ctx.bundle.bundle_identifier, now) is Err,
        ctx.authority == trigger_authority && ctx.user_token_account.key
            == ctx.controller.user_token_account ==> ctx.decision(
            trigger_authority,
            ctx.bundle.bundle_identifier,
            now,
        ) == Err::<TransferOrder, ErrorCode>(ErrorCode::IntervalNotPassed),
        after_attempt(ctx, trigger_authority, ctx.bundle.bundle_identifier, now, transfer) == ctx,
        ctx.completion(
            trigger_authority,
            ctx.bundle.bundle_identifier,
            order,
            transfer,
        ) is Err,
        ctx.settled(trigger_authority, ctx.bundle.bundle_identifier, order, transfer) == ctx,
{
}

/// After a payment at a time `first` other than 0, every attempt at a time
/// from `first` up to, and not including, `first + interval` is turned down,
/// and so is every order for such a time.
pub proof fn one_payment_per_window(
    ctx: Trigger,
    trigger_authority: Identity,
    bundle_identifier: u64,
    first: i64,
    second: i64,
    order: TransferOrder,
    transfer: TransferOutcome,
)
    requires
        first != 0,
        ctx.decision(trigger_authority, bundle_identifier, first) is Ok,
        first <= second < first + ctx.bundle.interval,
        order.paid_at == second,
    ensures
        ({
            let paid = after_attempt(
                ctx,
                trigger_authority,
                bundle_identifier,
                first,
                TransferOutcome::Completed,
            );
            &&& paid.bundle.last_paid == first
            &&& paid.decision(trigger_authority, bundle_identifier, second) == Err::<
                TransferOrder,
                ErrorCode,
            >(ErrorCode::IntervalNotPassed)
            &&& after_attempt(paid, trigger_authority, bundle_identifier, second, transfer) == paid
            &&& paid.completion(trigger_authority, bundle_identifier, order, transfer) is Err
            &&& paid.settled(trigger_authority, bundle_identifier, order, transfer) == paid
        }),
{
}

/// A payment attempt changes nothing but the bundle's `last_paid`, and that
/// only where `trigger` let the transfer through and the transfer went through.
pub proof fn last_paid_moves_only_with_the_transfer(
    ctx: Trigger,
    trigger_authority: Identity,
    bundle_identifier: u64,
    now: i64,
    transfer: TransferOutcome,
)
    ensures
        ({
            let post = after_attempt(ctx, trigger_authority, bundle_identifier, now, transfer);
            let paid = ctx.decision(trigger_authority, bundle_identifier, now) is Ok && transfer
                == TransferOutcome::Completed;
            &&& paid ==> post == Trigger { bundle: ctx.bundle.paid_at(now), ..ctx }
            &&& !paid ==> post == ctx
        }),
{
}

/// Setting a controller up a second time succeeds again and changes nothing.
pub proof fn initialize_is_idempotent(ctx: InitializeController)
    requires
        ctx.verdict() is Ok,
    ensures
        ctx.outcome().verdict() == ctx.verdict(),
        ctx.outcome().outcome() == ctx.outcome(),
        ctx.outcome().controller is Some,
{
}

/// Whoever is not the trigger authority is told `Unauthorized`, whatever the
/// records hold, by `trigger` and by `complete_trigger` alike, and nothing changes.
pub proof fn only_the_authority_triggers(
    ctx: Trigger,
    trigger_authority: Identity,
    bundle_identifier: u64,
    now: i64,
    order: TransferOrder,
    transfer: TransferOutcome,
)
    requires
        ctx.authority != trigger_authority,
    ensures
        ctx.decision(trigger_authority, bundle_identifier, now) == Err::<TransferOrder, ErrorCode>(
            ErrorCode::Unauthorized,
        ),
        after_attempt(ctx, trigger_authority, bundle_identifier, now, transfer) == ctx,
        ctx.completion(trigger_authority, bundle_identifier, order, transfer) == Err::<
            i64,
            ErrorCode,
        >(ErrorCode::Unauthorized),
        ctx.settled(trigger_authority, bundle_identifier, order, transfer) == ctx,
{
}

} // verus!
