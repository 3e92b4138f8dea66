//! The registration contract: a fee schedule, two lists of participants, and
//! the endpoints that read and change them.

use crate::account::{enter_all, AccountId, ParticipantSet};
use crate::amount::Amount;
use crate::call::{CallContext, Tier, Transfer};
use crate::errors::ContractError;
use crate::ledger::{Registration, RegistrationLedger};
use vstd::prelude::*;

verus! {

/// The registration contract's storage. Callers pay the normal or the VIP fee
/// to be entered in the list of that tier; the owner sets the fees.
#[derive(Debug)]
pub struct MyNeversea2025 {
    registration_fee: Amount,
    registration_fee_vip: Amount,
    participants: ParticipantSet,
    vip_participants: ParticipantSet,
}

impl View for MyNeversea2025 {
    type V = RegistrationLedger;

    closed spec fn view(&self) -> RegistrationLedger {
        RegistrationLedger {
            normal_fee: self.registration_fee@,
            vip_fee: self.registration_fee_vip@,
            participants: self.participants@,
            vip_participants: self.vip_participants@,
        }
    }
}

impl Clone for MyNeversea2025 {
    fn clone(&self) -> (copy: MyNeversea2025)
        ensures
            copy@ == self@,
    {
        MyNeversea2025 {
            registration_fee: self.registration_fee.clone(),
            registration_fee_vip: self.registration_fee_vip.clone(),
            participants: self.participants.clone(),
            vip_participants: self.vip_participants.clone(),
        }
    }
}

impl MyNeversea2025 {
    /// The storage of a contract before it is initialized.
    pub fn new() -> (contract: MyNeversea2025)
        ensures
            contract@ == RegistrationLedger::blank(),
    {
        MyNeversea2025 {
            registration_fee: Amount::zero(),
            registration_fee_vip: Amount::zero(),
            participants: ParticipantSet::new(),
            vip_participants: ParticipantSet::new(),
        }
    }

    /// The contract with the storage that was read back: the two fees, and
    /// the two lists of participants with each account once, where it first
    /// stands.
    pub fn restore(
        registration_fee: Amount,
        registration_fee_vip: Amount,
        participants: &Vec<AccountId>,
        vip_participants: &Vec<AccountId>,
    ) -> (contract: MyNeversea2025)
        ensures
            contract@ == (RegistrationLedger {
                normal_fee: registration_fee@,
                vip_fee: registration_fee_vip@,
                participants: enter_all(participants@),
                vip_participants: enter_all(vip_participants@),
            }),
    {
        MyNeversea2025 {
            registration_fee,
            registration_fee_vip,
            participants: ParticipantSet::from_vec(participants),
            vip_participants: ParticipantSet::from_vec(vip_participants),
        }
    }

    /// Initializes the contract: stores the two fees as they are given. The
    /// runtime calls this once, when the contract is created.
    pub fn init(&mut self, registration_fee: Amount, vip_registration_fee: Amount)
        ensures
            final(self)@ == old(self)@.initialize(registration_fee@, vip_registration_fee@),
    {
        self.registration_fee = registration_fee;
        self.registration_fee_vip = vip_registration_fee;
    }

    /// The fee of a normal registration.
    pub fn registration_fee(&self) -> (fee: Amount)
        ensures
            fee@ == self@.normal_fee,
    {
        self.registration_fee.clone()
    }

    /// The fee of a VIP registration.
    pub fn registration_fee_vip(&self) -> (fee: Amount)
        ensures
            fee@ == self@.vip_fee,
    {
        self.registration_fee_vip.clone()
    }

    /// The accounts registered at the normal fee, first come first, each once.
    pub fn participants(&self) -> (list: Vec<AccountId>)
        ensures
            list@ == self@.participants,
            list@.no_duplicates(),
    {
        self.participants.to_vec()
    }

    /// The accounts registered at the VIP fee, first come first, each once.
    pub fn vip_participants(&self) -> (list: Vec<AccountId>)
        ensures
            list@ == self@.vip_participants,
            list@.no_duplicates(),
    {
        self.vip_participants.to_vec()
    }

    /// Sets the fee of a normal registration. Only the owner may: another
    /// caller is refused with `Unauthorized` and the fee stays. Any fee is
    /// accepted, zero and one above the VIP fee too. The payment is not
    /// looked at.
    pub fn update_normal_registration_fee(
        &mut self,
        ctx: &CallContext,
        new_registration_fee: Amount,
    ) -> (result: Result<(), ContractError>)
        ensures
            match result {
                Ok(()) => old(self)@.update_normal_fee(ctx@, new_registration_fee@) == Ok::<
                    RegistrationLedger,
                    ContractError,
                >(final(self)@),
                Err(error) => old(self)@.update_normal_fee(ctx@, new_registration_fee@) == Err::<
                    RegistrationLedger,
                    ContractError,
                >(error) && final(self)@ == old(self)@,
            },
    {
        if !ctx.caller_is_owner() {
            return Err(ContractError::Unauthorized);
        }
        self.registration_fee = new_registration_fee;
        Ok(())
    }

    /// Sets the fee of a VIP registration. Only the owner may: another caller
    /// is refused with `Unauthorized` and the fee stays. Any fee is accepted,
    /// zero and one below the normal fee too. The payment is not looked at.
    pub fn update_vip_registration_fee(
        &mut self,
        ctx: &CallContext,
        new_registration_fee: Amount,
    ) -> (result: Result<(), ContractError>)
        ensures
            match result {
                Ok(()) => old(self)@.update_vip_fee(ctx@, new_registration_fee@) == Ok::<
                    RegistrationLedger,
                    ContractError,
                >(final(self)@),
                Err(error) => old(self)@.update_vip_fee(ctx@, new_registration_fee@) == Err::<
                    RegistrationLedger,
                    ContractError,
                >(error) && final(self)@ == old(self)@,
            },
    {
        if !ctx.caller_is_owner() {
            return Err(ContractError::Unauthorized);
        }
        self.registration_fee_vip = new_registration_fee;
        Ok(())
    }

    /// Runs when the contract's code is replaced: the storage stays as it is.
    pub fn upgrade(&mut self)
        ensures
            final(self)@ == old(self)@,
    {
    }

    /// The tier that `payment` buys under the fees as they stand, if any.
    pub fn tier_for(&self, payment: &Amount) -> (tier: Option<Tier>)
        ensures
            tier == self@.tier_for(payment@),
    {
        if *payment == self.registration_fee {
            Some(Tier::Normal)
        } else if *payment == self.registration_fee_vip {
            Some(Tier::Vip)
        } else {
            None
        }
    }

    /// Enters `account` in the list of `tier`.
    pub(crate) fn enroll(&mut self, tier: Tier, account: AccountId)
        ensures
            final(self)@ == old(self)@.enrolled(tier, account),
    {
        match tier {
            Tier::Normal => {
                self.participants.insert(account);
            },
            Tier::Vip => {
                self.vip_participants.insert(account);
            },
        }
    }

    /// Registers the caller. The payment must be exactly the normal fee or
    /// exactly the VIP fee, else the call is refused with
    /// `InvalidPaymentAmount` and nothing changes. The caller is entered in
    /// the list of the tier paid for, and the whole payment is to be
    /// transferred to the owner: on every successful call, also when the
    /// caller was registered before.
    pub fn register(&mut self, ctx: &CallContext) -> (result: Result<Transfer, ContractError>)
        ensures
            match result {
                Ok(transfer) => old(self)@.register(ctx@) == Ok::<Registration, ContractError>(
                    Registration { ledger: final(self)@, payout: transfer@ },
                ),
                Err(error) => old(self)@.register(ctx@) == Err::<Registration, ContractError>(error)
                    && final(self)@ == old(self)@,
            },
    {
        match self.tier_for(&ctx.payment) {
            Some(tier) => {
                self.enroll(tier, ctx.caller);
                Ok(Transfer { to: ctx.owner, amount: ctx.payment.clone() })
            },
            None => Err(ContractError::InvalidPaymentAmount),
        }
    }
}

} // verus!
