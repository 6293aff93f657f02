use bundl::accounts::AddBundle;
use bundl::accounts::InitializeController;
use bundl::accounts::TransferOutcome;
use bundl::accounts::Trigger;
use bundl::error::ErrorCode;
use bundl::identity::Identity;
use bundl::state::Bundle;
use bundl::state::TokenAccount;
use bundl::state::UserBundlSubscriptionController;

const DAY: u64 = 86400;
const T0: i64 = 1_700_000_000;

fn id(n: u8) -> Identity {
    Identity::new([n; 32])
}

fn funding(amount: u64, allowance: u64, delegate: Option<Identity>) -> TokenAccount {
    TokenAccount { key: id(3), amount, delegate, delegated_amount: allowance }
}

fn blank_bundle() -> Bundle {
    Bundle { bundle_identifier: 0, interval: 0, amount_per_interval: 0, last_paid: 0 }
}

fn set_up(amount: u64, allowance: u64) -> UserBundlSubscriptionController {
    let mut ctx = InitializeController {
        controller_key: id(2),
        controller: None,
        bump: 254,
        authority: id(1),
        from_token_account: funding(amount, allowance, Some(id(2))),
    };
    assert_eq!(bundl::initialize_controller(&mut ctx), Ok(id(2)));
    ctx.controller.unwrap()
}

fn payment(controller: UserBundlSubscriptionController, bundle: Bundle, balance: u64) -> Trigger {
    Trigger {
        controller_key: id(2),
        controller,
        bundle,
        user_token_account: funding(balance, 100, Some(id(2))),
        to_token_account: id(4),
        authority: id(9),
    }
}

#[test]
fn pays_once_per_interval() {
    let controller = set_up(100, 100);
    assert_eq!(controller.bundle_counter, 0);
    let mut add = AddBundle { controller, bundle: blank_bundle(), authority: id(1) };
    assert_eq!(bundl::add_bundle(&mut add, 10, DAY), Ok(0));
    assert_eq!(add.bundle.bundle_identifier, 0);
    assert_eq!(add.bundle.last_paid, 0);

    let mut ctx = payment(add.controller, add.bundle, 100);
    let order = bundl::trigger(&ctx, &id(9), 0, T0).unwrap();
    assert_eq!(order.amount, 10);
    assert_eq!(order.from, id(3));
    assert_eq!(order.to, id(4));
    assert_eq!(order.delegate, id(2));
    assert_eq!(order.user, id(1));
    assert_eq!(order.bump, 254);
    assert_eq!(order.paid_at, T0);
    assert_eq!(bundl::complete_trigger(&mut ctx, &id(9), 0, &order, TransferOutcome::Completed), Ok(T0));
    assert_eq!(ctx.bundle.last_paid, T0);

    assert_eq!(bundl::trigger(&ctx, &id(9), 0, T0 + 1), Err(ErrorCode::IntervalNotPassed));
    assert_eq!(ctx.bundle.last_paid, T0);
    assert_eq!(bundl::trigger(&ctx, &id(9), 0, T0 + 86399), Err(ErrorCode::IntervalNotPassed));

    let again = bundl::trigger(&ctx, &id(9), 0, T0 + 86400).unwrap();
    assert_eq!(again.paid_at, T0 + 86400);
    assert_eq!(
        bundl::complete_trigger(&mut ctx, &id(9), 0, &again, TransferOutcome::Completed),
        Ok(T0 + 86400)
    );
    assert_eq!(ctx.bundle.last_paid, T0 + 86400);
}

#[test]
fn low_balance_stops_the_payment() {
    let controller = set_up(100, 100);
    let mut add = AddBundle { controller, bundle: blank_bundle(), authority: id(1) };
    assert_eq!(bundl::add_bundle(&mut add, 10, DAY), Ok(0));
    let ctx = payment(add.controller, add.bundle, 5);
    let before = ctx;
    assert_eq!(bundl::trigger(&ctx, &id(9), 0, T0), Err(ErrorCode::InsufficientFunds));
    assert_eq!(ctx, before);
    assert_eq!(ctx.bundle.last_paid, 0);
}

#[test]
fn balance_equal_to_the_amount_is_enough() {
    let controller = set_up(100, 100);
    let mut add = AddBundle { controller, bundle: blank_bundle(), authority: id(1) };
    assert_eq!(bundl::add_bundle(&mut add, 10, DAY), Ok(0));
    assert!(bundl::trigger(&payment(add.controller, add.bundle, 10), &id(9), 0, T0).is_ok());
    assert_eq!(
        bundl::trigger(&payment(add.controller, add.bundle, 9), &id(9), 0, T0),
        Err(ErrorCode::InsufficientFunds)
    );
}

#[test]
fn wrong_delegate_is_refused() {
    let mut ctx = InitializeController {
        controller_key: id(2),
        controller: None,
        bump: 254,
        authority: id(1),
        from_token_account: funding(100, 100, Some(id(7))),
    };
    assert_eq!(bundl::initialize_controller(&mut ctx), Err(ErrorCode::InvalidDelegate));
    assert_eq!(ctx.controller, None);

    ctx.from_token_account.delegate = None;
    assert_eq!(bundl::initialize_controller(&mut ctx), Err(ErrorCode::InvalidDelegate));
    assert_eq!(ctx.controller, None);
}

#[test]
fn second_bundle_gets_the_next_number() {
    let controller = set_up(100, 100);
    let mut first = AddBundle { controller, bundle: blank_bundle(), authority: id(1) };
    assert_eq!(bundl::add_bundle(&mut first, 10, DAY), Ok(0));
    let mut second =
        AddBundle { controller: first.controller, bundle: blank_bundle(), authority: id(1) };
    assert_eq!(bundl::add_bundle(&mut second, 25, 3600), Ok(1));
    assert_eq!(second.bundle.bundle_identifier, 1);
    assert_eq!(second.bundle.amount_per_interval, 25);
    assert_eq!(second.bundle.interval, 3600u64);
    assert_eq!(second.controller.bundle_counter, 2);
    assert_eq!(first.bundle.bundle_identifier, 0);
    assert_eq!(first.bundle.amount_per_interval, 10);
    assert_eq!(first.bundle.interval, 86400);
}
