//! The rules of registration, stated on the contract's state as a
//! mathematical value: which payment enters the caller in which list, who may
//! change a fee, and what an invocation leaves behind.

use crate::account::{enter, AccountId};
use crate::call::{Invocation, Payout, Tier};
use crate::errors::ContractError;
use vstd::prelude::*;

verus! {

/// The state that the registration contract keeps between invocations.
pub struct RegistrationLedger {
    /// The fee of a normal registration.
    pub normal_fee: nat,
    /// The fee of a VIP registration.
    pub vip_fee: nat,
    /// The accounts registered at the normal fee, first come first.
    pub participants: Seq<AccountId>,
    /// The accounts registered at the VIP fee, first come first.
    pub vip_participants: Seq<AccountId>,
}

/// What a successful registration leaves behind.
pub struct Registration {
    /// The state after the registration.
    pub ledger: RegistrationLedger,
    /// The payment that is forwarded to the owner.
    pub payout: Payout,
}

impl RegistrationLedger {
    /// The state of a contract that was never initialized: both fees zero,
    /// nobody registered.
    pub open spec fn blank() -> RegistrationLedger {
        RegistrationLedger {
            normal_fee: 0,
            vip_fee: 0,
            participants: Seq::empty(),
            vip_participants: Seq::empty(),
        }
    }

    /// In every state that the contract reaches, nobody is in a list twice.
    pub open spec fn well_formed(self) -> bool {
        self.participants.no_duplicates() && self.vip_participants.no_duplicates()
    }

    /// The state after initialization: the two fees are stored as given.
    pub open spec fn initialize(self, normal_fee: nat, vip_fee: nat) -> RegistrationLedger {
        RegistrationLedger { normal_fee, vip_fee, ..self }
    }

    /// The tier that `payment` buys: normal if it is exactly the normal fee,
    /// else VIP if it is exactly the VIP fee, else none. Where the two fees
    /// are equal the tier is normal.
    pub open spec fn tier_for(self, payment: nat) -> Option<Tier> {
        if payment == self.normal_fee {
            Some(Tier::Normal)
        } else if payment == self.vip_fee {
            Some(Tier::Vip)
        } else {
            None
        }
    }

    /// The state with `account` entered in the list of `tier`.
    pub open spec fn enrolled(self, tier: Tier, account: AccountId) -> RegistrationLedger {
        match tier {
            Tier::Normal => RegistrationLedger {
                participants: enter(self.participants, account),
                ..self
            },
            Tier::Vip => RegistrationLedger {
                vip_participants: enter(self.vip_participants, account),
                ..self
            },
        }
    }

    /// The outcome of `update_normal_fee(new_fee)`: the owner's call stores
    /// the fee, whatever it is; any other call is refused.
    pub open spec fn update_normal_fee(self, call: Invocation, new_fee: nat) -> Result<
        RegistrationLedger,
        ContractError,
    > {
        if call.caller == call.owner {
            Ok(RegistrationLedger { normal_fee: new_fee, ..self })
        } else {
            Err(ContractError::Unauthorized)
        }
    }

    /// The outcome of `update_vip_fee(new_fee)`: the owner's call stores the
    /// fee, whatever it is; any other call is refused.
    pub open spec fn update_vip_fee(self, call: Invocation, new_fee: nat) -> Result<
        RegistrationLedger,
        ContractError,
    > {
        if call.caller == call.owner {
            Ok(RegistrationLedger { vip_fee: new_fee, ..self })
        } else {
            Err(ContractError::Unauthorized)
        }
    }

    /// The outcome of `register()`: a payment that buys a tier enters the
    /// caller in that tier's list and is forwarded whole to the owner, whether
    /// or not the caller was in the list before; any other payment is refused.
    pub open spec fn register(self, call: Invocation) -> Result<Registration, ContractError> {
        match self.tier_for(call.payment) {
            Some(tier) => Ok(
                Registration {
                    ledger: self.enrolled(tier, call.caller),
                    payout: Payout { to: call.owner, amount: call.payment },
                },
            ),
            None => Err(ContractError::InvalidPaymentAmount),
        }
    }
}

} // verus!
