//! The rules of the ticketed registration, stated on the contract's state as
//! a mathematical value: a registration that also orders a ticket token for
//! the caller.

use crate::account::AccountId;
use crate::call::{Invocation, Payout, Tier};
use crate::errors::ContractError;
use crate::ledger::RegistrationLedger;
use vstd::prelude::*;

verus! {

/// The state that the ticketed registration contract keeps between
/// invocations.
pub struct TicketLedger {
    /// The fees and the participants.
    pub ledger: RegistrationLedger,
    /// The identifier of the ticket token; empty until it is configured.
    pub ticket_token_id: Seq<char>,
    /// The number of normal tickets on offer.
    pub normal_ticket_number: nat,
    /// The number of VIP tickets on offer.
    pub vip_ticket_number: nat,
    /// The fee for reselling a ticket.
    pub resale_ticket_fee: nat,
    /// The number of normal tickets up for resale.
    pub resale_normal_ticket_number: nat,
    /// The number of VIP tickets up for resale.
    pub resale_vip_ticket_number: nat,
}

/// An order to mint ticket tokens, as the rules see it.
pub struct Minting {
    /// The identifier of the token to mint.
    pub token_id: Seq<char>,
    /// How many to mint.
    pub quantity: nat,
    /// The account that receives them.
    pub recipient: AccountId,
    /// The tier that the ticket is tagged with.
    pub tier: Tier,
}

/// What a successful ticketed registration leaves behind.
pub struct TicketRegistration {
    /// The state after the registration.
    pub ledger: TicketLedger,
    /// The payment that is forwarded to the owner.
    pub payout: Payout,
    /// The ticket that is minted for the caller.
    pub mint: Minting,
}

impl TicketLedger {
    /// The state of a contract that was never initialized: every number
    /// zero, nobody registered, no ticket token.
    pub open spec fn blank() -> TicketLedger {
        TicketLedger {
            ledger: RegistrationLedger::blank(),
            ticket_token_id: Seq::empty(),
            normal_ticket_number: 0,
            vip_ticket_number: 0,
            resale_ticket_fee: 0,
            resale_normal_ticket_number: 0,
            resale_vip_ticket_number: 0,
        }
    }

    /// The state after initialization: the ticket token is `EVENT-TICKET`, a
    /// normal registration costs 100 and a VIP one 300, there are 20 normal
    /// and 10 VIP tickets, a resale costs 10 and no ticket is up for resale.
    /// The participants stay as they are.
    pub open spec fn initialize(self) -> TicketLedger {
        TicketLedger {
            ledger: self.ledger.initialize(100, 300),
            ticket_token_id: "EVENT-TICKET"@,
            normal_ticket_number: 20,
            vip_ticket_number: 10,
            resale_ticket_fee: 10,
            resale_normal_ticket_number: 0,
            resale_vip_ticket_number: 0,
        }
    }

    /// The outcome of `register()`. A payment that buys no tier is refused
    /// with `InvalidPaymentAmount`; else, where no ticket token is
    /// configured, the call is refused with `TokenNotConfigured`; else the
    /// caller is entered in the list of the tier, the payment is forwarded
    /// whole to the owner, and one ticket tagged with the tier is minted for
    /// the caller. The ticket counters are not touched.
    pub open spec fn register(self, call: Invocation) -> Result<TicketRegistration, ContractError> {
        match self.ledger.tier_for(call.payment) {
            None => Err(ContractError::InvalidPaymentAmount),
            Some(tier) => if self.ticket_token_id.len() == 0 {
                Err(ContractError::TokenNotConfigured)
            } else {
                Ok(
                    TicketRegistration {
                        ledger: TicketLedger {
                            ledger: self.ledger.enrolled(tier, call.caller),
                            ..self
                        },
                        payout: Payout { to: call.owner, amount: call.payment },
                        mint: Minting {
                            token_id: self.ticket_token_id,
                            quantity: 1,
                            recipient: call.caller,
                            tier,
                        },
                    },
                )
            },
        }
    }
}

} // verus!
