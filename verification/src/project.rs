//! The ticketed registration contract: the registration contract with a
//! ticket token, of which one is minted for every registration.

use crate::account::AccountId;
use crate::amount::Amount;
use crate::call::{CallContext, Tier, Transfer};
use crate::contract::MyNeversea2025;
use crate::errors::ContractError;
use crate::tickets::{Minting, TicketLedger, TicketRegistration};
use vstd::prelude::*;
use vstd::std_specs::cmp::PartialEqSpecImpl;

verus! {

/// An order to the runtime's token service to mint ticket tokens.
#[derive(Debug)]
pub struct MintRequest {
    /// The identifier of the token to mint.
    pub token_id: String,
    /// How many to mint.
    pub quantity: u64,
    /// The account that receives them.
    pub recipient: AccountId,
    /// The tier that the ticket is tagged with; `Tier::label` gives the words.
    pub tier: Tier,
}

impl View for MintRequest {
    type V = Minting;

    open spec fn view(&self) -> Minting {
        Minting {
            token_id: self.token_id@,
            quantity: self.quantity as nat,
            recipient: self.recipient,
            tier: self.tier,
        }
    }
}

impl Clone for MintRequest {
    fn clone(&self) -> (copy: MintRequest)
        ensures
            copy@ == self@,
    {
        MintRequest {
            token_id: self.token_id.clone(),
            quantity: self.quantity,
            recipient: self.recipient,
            tier: self.tier,
        }
    }
}

impl PartialEq for MintRequest {
    /// Whether the two orders mint the same tickets for the same account.
    fn eq(&self, other: &MintRequest) -> (same: bool) {
        self.token_id == other.token_id && self.quantity == other.quantity && self.recipient
            == other.recipient && self.tier == other.tier
    }
}

impl Eq for MintRequest {

}

impl PartialEqSpecImpl for MintRequest {
    open spec fn obeys_eq_spec() -> bool {
        true
    }

    open spec fn eq_spec(&self, other: &MintRequest) -> bool {
        self@ == other@
    }
}

/// What the runtime is to carry out for a successful ticketed registration,
/// all of it or nothing.
#[derive(Debug)]
pub struct TicketOrder {
    /// The payment to forward to the owner.
    pub transfer: Transfer,
    /// The ticket to mint for the caller.
    pub mint: MintRequest,
}

impl Clone for TicketOrder {
    fn clone(&self) -> (copy: TicketOrder)
        ensures
            copy.transfer@ == self.transfer@,
            copy.mint@ == self.mint@,
    {
        TicketOrder { transfer: self.transfer.clone(), mint: self.mint.clone() }
    }
}

impl PartialEq for TicketOrder {
    /// Whether the two orders hold the same transfer and the same mint.
    fn eq(&self, other: &TicketOrder) -> (same: bool) {
        self.transfer == other.transfer && self.mint == other.mint
    }
}

impl Eq for TicketOrder {

}

impl PartialEqSpecImpl for TicketOrder {
    open spec fn obeys_eq_spec() -> bool {
        true
    }

    open spec fn eq_spec(&self, other: &TicketOrder) -> bool {
        self.transfer@ == other.transfer@ && self.mint@ == other.mint@
    }
}

impl TicketOrder {
    /// The result that the caller of `register` receives once the runtime has
    /// carried the order out: `sequence_number` is what the token service
    /// answered to the mint, and it is handed on as it is.
    pub fn complete(self, sequence_number: u64) -> (result: u64)
        ensures
            result == sequence_number,
    {
        sequence_number
    }
}

/// The ticketed registration contract's storage.
#[derive(Debug)]
pub struct Project {
    registration: MyNeversea2025,
    nft_token_id: String,
    normal_ticket_number: Amount,
    vip_ticket_number: Amount,
    resale_ticket_fee: Amount,
    resale_normal_ticket_number: Amount,
    resale_vip_ticket_number: Amount,
}

impl View for Project {
    type V = TicketLedger;

    closed spec fn view(&self) -> TicketLedger {
        TicketLedger {
            ledger: self.registration@,
            ticket_token_id: self.nft_token_id@,
            normal_ticket_number: self.normal_ticket_number@,
            vip_ticket_number: self.vip_ticket_number@,
            resale_ticket_fee: self.resale_ticket_fee@,
            resale_normal_ticket_number: self.resale_normal_ticket_number@,
            resale_vip_ticket_number: self.resale_vip_ticket_number@,
        }
    }
}

impl Clone for Project {
    fn clone(&self) -> (copy: Project)
        ensures
            copy@ == self@,
    {
        Project {
            registration: self.registration.clone(),
            nft_token_id: self.nft_token_id.clone(),
            normal_ticket_number: self.normal_ticket_number.clone(),
            vip_ticket_number: self.vip_ticket_number.clone(),
            resale_ticket_fee: self.resale_ticket_fee.clone(),
            resale_normal_ticket_number: self.resale_normal_ticket_number.clone(),
            resale_vip_ticket_number: self.resale_vip_ticket_number.clone(),
        }
    }
}

impl Project {
    /// The storage of a contract before it is initialized.
    pub fn new() -> (contract: Project)
        ensures
            contract@ == TicketLedger::blank(),
    {
        Project {
            registration: MyNeversea2025::new(),
            nft_token_id: String::new(),
            normal_ticket_number: Amount::zero(),
            vip_ticket_number: Amount::zero(),
            resale_ticket_fee: Amount::zero(),
            resale_normal_ticket_number: Amount::zero(),
            resale_vip_ticket_number: Amount::zero(),
        }
    }

    /// The contract with the storage that was read back.
    pub fn restore(
        registration: MyNeversea2025,
        nft_token_id: String,
        normal_ticket_number: Amount,
        vip_ticket_number: Amount,
        resale_ticket_fee: Amount,
        resale_normal_ticket_number: Amount,
        resale_vip_ticket_number: Amount,
    ) -> (contract: Project)
        ensures
            contract@ == (TicketLedger {
                ledger: registration@,
                ticket_token_id: nft_token_id@,
                normal_ticket_number: normal_ticket_number@,
                vip_ticket_number: vip_ticket_number@,
                resale_ticket_fee: resale_ticket_fee@,
                resale_normal_ticket_number: resale_normal_ticket_number@,
                resale_vip_ticket_number: resale_vip_ticket_number@,
            }),
    {
        Project {
            registration,
            nft_token_id,
            normal_ticket_number,
            vip_ticket_number,
            resale_ticket_fee,
            resale_normal_ticket_number,
            resale_vip_ticket_number,
        }
    }

    /// Initializes the contract with its fixed ticket token, fees and ticket
    /// numbers. The runtime calls this once, when the contract is created.
    pub fn init(&mut self)
        ensures
            final(self)@ == old(self)@.initialize(),
    {
        self.nft_token_id = "EVENT-TICKET".to_owned();
        self.registration.init(Amount::from_u32(100), Amount::from_u32(300));
        self.normal_ticket_number = Amount::from_u32(20);
        self.vip_ticket_number = Amount::from_u32(10);
        self.resale_ticket_fee = Amount::from_u32(10);
        self.resale_normal_ticket_number = Amount::from_u32(0);
        self.resale_vip_ticket_number = Amount::from_u32(0);
    }

    /// The identifier of the ticket token; empty until it is configured.
    pub fn nft_token_id(&self) -> (token_id: String)
        ensures
            token_id@ == self@.ticket_token_id,
    {
        self.nft_token_id.clone()
    }

    /// The fee of a normal registration.
    pub fn registration_fee(&self) -> (fee: Amount)
        ensures
            fee@ == self@.ledger.normal_fee,
    {
        self.registration.registration_fee()
    }

    /// The fee of a VIP registration.
    pub fn registration_fee_vip(&self) -> (fee: Amount)
        ensures
            fee@ == self@.ledger.vip_fee,
    {
        self.registration.registration_fee_vip()
    }

    /// The number of normal tickets on offer.
    pub fn normal_ticket_number(&self) -> (number: Amount)
        ensures
            number@ == self@.normal_ticket_number,
    {
        self.normal_ticket_number.clone()
    }

    /// The number of VIP tickets on offer.
    pub fn vip_ticket_number(&self) -> (number: Amount)
        ensures
            number@ == self@.vip_ticket_number,
    {
        self.vip_ticket_number.clone()
    }

    /// The fee for reselling a ticket.
    pub fn resale_ticket_fee(&self) -> (fee: Amount)
        ensures
            fee@ == self@.resale_ticket_fee,
    {
        self.resale_ticket_fee.clone()
    }

    /// The number of normal tickets up for resale.
    pub fn resale_normal_ticket_number(&self) -> (number: Amount)
        ensures
            number@ == self@.resale_normal_ticket_number,
    {
        self.resale_normal_ticket_number.clone()
    }

    /// The number of VIP tickets up for resale.
    pub fn resale_vip_ticket_number(&self) -> (number: Amount)
        ensures
            number@ == self@.resale_vip_ticket_number,
    {
        self.resale_vip_ticket_number.clone()
    }

    /// The accounts registered at the normal fee, first come first, each once.
    pub fn participants(&self) -> (list: Vec<AccountId>)
        ensures
            list@ == self@.ledger.participants,
            list@.no_duplicates(),
    {
        self.registration.participants()
    }

    /// The accounts registered at the VIP fee, first come first, each once.
    pub fn vip_participants(&self) -> (list: Vec<AccountId>)
        ensures
            list@ == self@.ledger.vip_participants,
            list@.no_duplicates(),
    {
        self.registration.vip_participants()
    }

    /// The price of a normal ticket: the fee of a normal registration.
    pub fn see_normal_ticket_price(&self) -> (price: Amount)
        ensures
            price@ == self@.ledger.normal_fee,
    {
        self.registration.registration_fee()
    }

    /// The price of a VIP ticket: the fee of a VIP registration.
    pub fn see_vip_ticket_price(&self) -> (price: Amount)
        ensures
            price@ == self@.ledger.vip_fee,
    {
        self.registration.registration_fee_vip()
    }

    /// Answers with the fee of a VIP registration, as `see_vip_ticket_price`
    /// does. The number of VIP tickets is read with `vip_ticket_number`.
    pub fn see_vip_ticket_number(&self) -> (answer: Amount)
        ensures
            answer@ == self@.ledger.vip_fee,
    {
        self.registration.registration_fee_vip()
    }

    /// Registers the caller and orders a ticket. A payment that is neither
    /// fee is refused with `InvalidPaymentAmount`; one that is, while no
    /// ticket token is configured, with `TokenNotConfigured`; a refused call
    /// changes nothing. On success the caller is entered in the list of the
    /// tier paid for, and the order holds the transfer of the whole payment
    /// to the owner and the mint of one ticket of that tier for the caller.
    pub fn register(&mut self, ctx: &CallContext) -> (result: Result<TicketOrder, ContractError>)
        ensures
            match result {
                Ok(order) => old(self)@.register(ctx@) == Ok::<TicketRegistration, ContractError>(
                    TicketRegistration {
                        ledger: final(self)@,
                        payout: order.transfer@,
                        mint: order.mint@,
                    },
                ),
                Err(error) => old(self)@.register(ctx@) == Err::<TicketRegistration, ContractError>(
                    error,
                ) && final(self)@ == old(self)@,
            },
    {
        let tier = match self.registration.tier_for(&ctx.payment) {
            Some(tier) => tier,
            None => {
                return Err(ContractError::InvalidPaymentAmount);
            },
        };
        if self.nft_token_id.as_str().is_empty() {
            return Err(ContractError::TokenNotConfigured);
        }
        self.registration.enroll(tier, ctx.caller);
        Ok(
            TicketOrder {
                transfer: Transfer { to: ctx.owner, amount: ctx.payment.clone() },
                mint: MintRequest {
                    token_id: self.nft_token_id.clone(),
                    quantity: 1,
                    recipient: ctx.caller,
                    tier,
                },
            },
        )
    }

    /// Runs when the contract's code is replaced: the storage stays as it is.
    pub fn upgrade(&mut self)
        ensures
            final(self)@ == old(self)@,
    {
    }
}

} // verus!
