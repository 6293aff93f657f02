//! What each operation works on: the records that a call is about, already
//! looked up, and for each operation its answer and the records it leaves.

use vstd::prelude::*;
use crate::error::ErrorCode;
use crate::gate::gate_answer;
use crate::identity::Identity;
use crate::state::Bundle;
use crate::state::TokenAccount;
use crate::state::UserBundlSubscriptionController;

verus! {

/// What `initialize_controller` works on.
#[derive(Clone, Copy, Debug, PartialEq, Eq)]
pub struct InitializeController {
    /// The identity under which the user's controller is stored.
    pub controller_key: Identity,
    /// The controller stored for the user, if there is one already.
    pub controller: Option<UserBundlSubscriptionController>,
    /// Stored in a new controller, for signing in its name later.
    pub bump: u8,
    /// The user who asks.
    pub authority: Identity,
    /// The token account that the controller is to draw from.
    pub from_token_account: TokenAccount,
}

/// What `add_bundle` works on.
#[derive(Clone, Copy, Debug, PartialEq, Eq)]
pub struct AddBundle {
    pub controller: UserBundlSubscriptionController,
    /// The record that the new bundle is written to.
    pub bundle: Bundle,
    /// The user who asks.
    pub authority: Identity,
}

/// What `trigger` works on.
#[derive(Clone, Copy, Debug, PartialEq, Eq)]
pub struct Trigger {
    /// The identity under which the controller is stored: the delegate of the funding account.
    pub controller_key: Identity,
    pub controller: UserBundlSubscriptionController,
    pub bundle: Bundle,
    /// The token account to pay from, as the ledger shows it now. A payment
    /// runs only if it is the controller's funding account.
    pub user_token_account: TokenAccount,
    /// The recipient's token account.
    pub to_token_account: Identity,
    /// The caller.
    pub authority: Identity,
}

/// A transfer that `trigger` has let through and the caller is to make.
#[derive(Clone, Copy, Debug, PartialEq, Eq)]
pub struct TransferOrder {
    pub from: Identity,
    pub to: Identity,
    pub amount: u64,
    /// The controller, which moves the tokens as the account's delegate.
    pub delegate: Identity,
    /// The controller's owner and bump, from which its signature is derived.
    pub user: Identity,
    pub bump: u8,
    /// The time of the call, which becomes the bundle's `last_paid`.
    pub paid_at: i64,
}

/// How the ledger answered a transfer: all of it went through, or none.
#[derive(Clone, Copy, Debug, PartialEq, Eq, Structural)]
pub enum TransferOutcome {
    Completed,
    Failed,
}

impl InitializeController {
    /// The answer of `initialize_controller`.
    pub open spec fn verdict(self) -> Result<Identity, ErrorCode> {
        if !self.from_token_account.delegated_to(self.controller_key) {
            Err(ErrorCode::InvalidDelegate)
        } else if !self.from_token_account.allowance_covers_balance() {
            Err(ErrorCode::LowAllowance)
        } else if self.controller is Some && self.controller->0.user != self.authority {
            Err(ErrorCode::NotOwner)
        } else {
            Ok(self.controller_key)
        }
    }

    /// The controller that is created where the user has none.
    pub open spec fn new_controller(self) -> UserBundlSubscriptionController {
        UserBundlSubscriptionController {
            user: self.authority,
            bundle_counter: 0,
            user_token_account: self.from_token_account.key,
            bump: self.bump,
        }
    }

    /// The records after `initialize_controller`.
    pub open spec fn outcome(self) -> InitializeController {
        if self.verdict() is Ok && self.controller is None {
            InitializeController { controller: Some(self.new_controller()), ..self }
        } else {
            self
        }
    }
}

impl AddBundle {
    /// The answer of `add_bundle`: the new bundle's number. The checks come in
    /// this order, and the first that fails decides.
    pub open spec fn verdict(self, amount_per_interval: u64, interval: u64) -> Result<
        u64,
        ErrorCode,
    > {
        if self.controller.user != self.authority {
            Err(ErrorCode::NotOwner)
        } else if amount_per_interval == 0 {
            Err(ErrorCode::InvalidAmount)
        } else if interval == 0 {
            Err(ErrorCode::InvalidInterval)
        } else if self.controller.bundle_counter == u64::MAX {
            Err(ErrorCode::TooManyBundles)
        } else {
            Ok(self.controller.bundle_counter)
        }
    }

    /// The bundle that is created.
    pub open spec fn new_bundle(self, amount_per_interval: u64, interval: u64) -> Bundle {
        Bundle {
            bundle_identifier: self.controller.bundle_counter,
            interval,
            amount_per_interval,
            last_paid: 0,
        }
    }

    /// The records after `add_bundle`.
    pub open spec fn outcome(self, amount_per_interval: u64, interval: u64) -> AddBundle {
        if self.verdict(amount_per_interval, interval) is Ok {
            AddBundle {
                controller: UserBundlSubscriptionController {
                    bundle_counter: (self.controller.bundle_counter + 1) as u64,
                    ..self.controller
                },
                bundle: self.new_bundle(amount_per_interval, interval),
                ..self
            }
        } else {
            self
        }
    }
}

impl TransferOrder {
    /// Whether two orders say the same in every field.
    pub fn matches(&self, other: &TransferOrder) -> (r: bool)
        ensures
            r == (*self == *other),
    {
        self.from.same(&other.from) && self.to.same(&other.to) && self.amount == other.amount
            && self.delegate.same(&other.delegate) && self.user.same(&other.user) && self.bump
            == other.bump && self.paid_at == other.paid_at
    }
}

impl Trigger {
    /// The transfer that a payment at time `now` asks for: the bundle's
    /// amount, out of the controller's funding account, in the controller's name.
    pub open spec fn order(self, now: i64) -> TransferOrder {
        TransferOrder {
            from: self.controller.user_token_account,
            to: self.to_token_account,
            amount: self.bundle.amount_per_interval,
            delegate: self.controller_key,
            user: self.controller.user,
            bump: self.controller.bump,
            paid_at: now,
        }
    }

    /// Whether the bundle may be paid at time `now`, whoever asks: the token
    /// account at hand is the controller's funding account, the bundle is
    /// due, and the account covers its amount. The first check that fails decides.
    pub open spec fn payable(self, now: i64) -> Result<(), ErrorCode> {
        if self.user_token_account.key != self.controller.user_token_account {
            Err(ErrorCode::WrongFundingAccount)
        } else if !self.bundle.due(now as int) {
            Err(ErrorCode::IntervalNotPassed)
        } else if !self.user_token_account.covers(self.bundle.amount_per_interval) {
            Err(ErrorCode::InsufficientFunds)
        } else {
            Ok(())
        }
    }

    /// The answer of `trigger`. The checks come in this order, and the first
    /// that fails decides.
    pub open spec fn decision(
        self,
        trigger_authority: Identity,
        bundle_identifier: u64,
        now: i64,
    ) -> Result<TransferOrder, ErrorCode> {
        if gate_answer(self.authority, trigger_authority) is Err {
            Err(ErrorCode::Unauthorized)
        } else if self.bundle.bundle_identifier != bundle_identifier {
            Err(ErrorCode::NotFound)
        } else {
            match self.payable(now) {
                Err(e) => Err(e),
                Ok(_) => Ok(self.order(now)),
            }
        }
    }

    /// The answer of `complete_trigger`: the bundle's new `last_paid`. The
    /// checks of `trigger` come first, at the order's time; then the order
    /// must be the one that `trigger` hands out at that time.
    pub open spec fn completion(
        self,
        trigger_authority: Identity,
        bundle_identifier: u64,
        order: TransferOrder,
        transfer: TransferOutcome,
    ) -> Result<i64, ErrorCode> {
        match self.decision(trigger_authority, bundle_identifier, order.paid_at) {
            Err(e) => Err(e),
            Ok(expected) => if order != expected {
                Err(ErrorCode::OrderMismatch)
            } else {
                match transfer {
                    TransferOutcome::Completed => Ok(order.paid_at),
                    TransferOutcome::Failed => Err(ErrorCode::TransferFailed),
                }
            },
        }
    }

    /// The records after `complete_trigger`.
    pub open spec fn settled(
        self,
        trigger_authority: Identity,
        bundle_identifier: u64,
        order: TransferOrder,
        transfer: TransferOutcome,
    ) -> Trigger {
        if self.completion(trigger_authority, bundle_identifier, order, transfer) is Ok {
            Trigger { bundle: self.bundle.paid_at(order.paid_at), ..self }
        } else {
            self
        }
    }

    /// The transfer that a payment at time `now` asks for.
    pub fn order_at(&self, now: i64) -> (order: TransferOrder)
        ensures
            order == self.order(now),
    {
        TransferOrder {
            from: self.controller.user_token_account,
            to: self.to_token_account,
            amount: self.bundle.amount_per_interval,
            delegate: self.controller_key,
            user: self.controller.user,
            bump: self.controller.bump,
            paid_at: now,
        }
    }

    /// Whether the bundle may be paid at time `now`, whoever asks.
    pub fn check_payable(&self, now: i64) -> (r: Result<(), ErrorCode>)
        ensures
            r == self.payable(now),
    {
        if !self.user_token_account.key.same(&self.controller.user_token_account) {
            return Err(ErrorCode::WrongFundingAccount);
        }
        if !self.bundle.is_due(now) {
            return Err(ErrorCode::IntervalNotPassed);
        }
        if self.user_token_account.amount < self.bundle.amount_per_interval {
            return Err(ErrorCode::InsufficientFunds);
        }
        Ok(())
    }
}

} // verus!
