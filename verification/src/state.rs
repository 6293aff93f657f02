//! The records that the operations read and change.

use vstd::prelude::*;
use crate::identity::Identity;

verus! {

/// One user's controller: who owns it, the next unused bundle number, and the
/// token account that all of its bundles draw from.
#[derive(Clone, Copy, Debug, PartialEq, Eq)]
pub struct UserBundlSubscriptionController {
    pub user: Identity,
    pub bundle_counter: u64,
    pub user_token_account: Identity,
    pub bump: u8,
}

/// One recurring payment under a controller.
///
/// `last_paid == 0` is reserved: it means that the bundle was never paid.
#[derive(Clone, Copy, Debug, PartialEq, Eq)]
pub struct Bundle {
    pub bundle_identifier: u64,
    pub interval: u64,
    pub amount_per_interval: u64,
    pub last_paid: i64,
}

/// What the token ledger says of one account at the time of a call.
#[derive(Clone, Copy, Debug, PartialEq, Eq)]
pub struct TokenAccount {
    pub key: Identity,
    pub amount: u64,
    pub delegate: Option<Identity>,
    pub delegated_amount: u64,
}

impl UserBundlSubscriptionController {
    /// How a stored record reads: a record whose owner is unset was never
    /// written, so no controller exists there.
    pub open spec fn read(self) -> Option<UserBundlSubscriptionController> {
        if self.user.unset() {
            None
        } else {
            Some(self)
        }
    }

    /// The controller that a stored record holds, if it holds one.
    pub fn existing(stored: UserBundlSubscriptionController) -> (r: Option<
        UserBundlSubscriptionController,
    >)
        ensures
            r == stored.read(),
    {
        if stored.user.is_unset() {
            None
        } else {
            Some(stored)
        }
    }
}

impl Bundle {
    /// A bundle pays a positive amount and waits a positive time between payments.
    pub open spec fn well_formed(self) -> bool {
        self.amount_per_interval > 0 && self.interval > 0
    }

    /// Whether a payment may run at time `now`: never paid, or a full interval
    /// has passed since the last payment.
    pub open spec fn due(self, now: int) -> bool {
        self.last_paid == 0 || now - self.last_paid >= self.interval
    }

    /// Whether `now` lies in the window that the last payment opened.
    pub open spec fn in_window(self, now: int) -> bool {
        self.last_paid <= now < self.last_paid + self.interval
    }

    /// The bundle after a payment at time `now`.
    pub open spec fn paid_at(self, now: i64) -> Bundle {
        Bundle { last_paid: now, ..self }
    }

    pub fn is_due(&self, now: i64) -> (r: bool)
        ensures
            r == self.due(now as int),
    {
        self.last_paid == 0 || (now as i128) - (self.last_paid as i128) >= (self.interval as i128)
    }
}

impl TokenAccount {
    /// Whether the account's delegate is `who`.
    pub open spec fn delegated_to(self, who: Identity) -> bool {
        self.delegate == Some(who)
    }

    /// Whether the delegate may spend all that the account holds.
    pub open spec fn allowance_covers_balance(self) -> bool {
        self.delegated_amount >= self.amount
    }

    /// Whether the account holds at least `amount`.
    pub open spec fn covers(self, amount: u64) -> bool {
        self.amount >= amount
    }

    pub fn is_delegated_to(&self, who: &Identity) -> (r: bool)
        ensures
            r == self.delegated_to(*who),
    {
        match &self.delegate {
            Some(d) => d.same(who),
            None => false,
        }
    }
}

} // verus!
