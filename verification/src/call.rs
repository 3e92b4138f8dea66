//! What passes between the runtime and the contract on one invocation: the
//! call as the runtime describes it, and the payments and mints that the
//! contract asks the runtime to carry out.

use crate::account::AccountId;
use crate::amount::Amount;
use vstd::prelude::*;
use vstd::std_specs::cmp::PartialEqSpecImpl;

verus! {

/// An invocation as the contracts' rules see it.
pub struct Invocation {
    /// The account that makes the call.
    pub caller: AccountId,
    /// The account that owns the contract at the time of the call.
    pub owner: AccountId,
    /// The payment attached to the call.
    pub payment: nat,
}

/// What the runtime tells the contract about the invocation in progress.
#[derive(Debug)]
pub struct CallContext {
    /// The account that makes the call.
    pub caller: AccountId,
    /// The account that owns the contract at the time of the call.
    pub owner: AccountId,
    /// The payment attached to the call.
    pub payment: Amount,
}

impl View for CallContext {
    type V = Invocation;

    open spec fn view(&self) -> Invocation {
        Invocation { caller: self.caller, owner: self.owner, payment: self.payment@ }
    }
}

impl Clone for CallContext {
    fn clone(&self) -> (copy: CallContext)
        ensures
            copy@ == self@,
    {
        CallContext { caller: self.caller, owner: self.owner, payment: self.payment.clone() }
    }
}

impl CallContext {
    /// The call that `caller` makes with `payment` attached, to a contract
    /// that `owner` owns.
    pub fn new(caller: AccountId, owner: AccountId, payment: Amount) -> (ctx: CallContext)
        ensures
            ctx@ == (Invocation { caller, owner, payment: payment@ }),
    {
        CallContext { caller, owner, payment }
    }

    /// Whether the owner of the contract makes the call.
    pub fn caller_is_owner(&self) -> (is_owner: bool)
        ensures
            is_owner == (self.caller == self.owner),
    {
        self.caller == self.owner
    }
}

/// A payment as the contracts' rules see it.
pub struct Payout {
    /// The account that is paid.
    pub to: AccountId,
    /// How much it is paid.
    pub amount: nat,
}

/// A payment out of the contract that the runtime is to carry out.
#[derive(Debug)]
pub struct Transfer {
    /// The account that is paid.
    pub to: AccountId,
    /// How much it is paid.
    pub amount: Amount,
}

impl View for Transfer {
    type V = Payout;

    open spec fn view(&self) -> Payout {
        Payout { to: self.to, amount: self.amount@ }
    }
}

impl Clone for Transfer {
    fn clone(&self) -> (copy: Transfer)
        ensures
            copy@ == self@,
    {
        Transfer { to: self.to, amount: self.amount.clone() }
    }
}

impl PartialEq for Transfer {
    /// Whether the two transfers pay the same account the same amount.
    fn eq(&self, other: &Transfer) -> (same: bool) {
        self.to == other.to && self.amount == other.amount
    }
}

impl Eq for Transfer {

}

impl PartialEqSpecImpl for Transfer {
    open spec fn obeys_eq_spec() -> bool {
        true
    }

    open spec fn eq_spec(&self, other: &Transfer) -> bool {
        self@ == other@
    }
}

/// The two kinds of registration, by the fee that was paid.
#[derive(Clone, Copy, Debug, PartialEq, Eq, Structural)]
pub enum Tier {
    /// The normal fee was paid.
    Normal,
    /// The VIP fee was paid.
    Vip,
}

impl Tier {
    /// The words that a ticket of this tier is tagged with.
    pub fn label(&self) -> (text: &'static str)
        ensures
            text@ == match *self {
                Tier::Normal => "Normal Ticket"@,
                Tier::Vip => "VIP Ticket"@,
            },
    {
        match self {
            Tier::Normal => "Normal Ticket",
            Tier::Vip => "VIP Ticket",
        }
    }
}

} // verus!
