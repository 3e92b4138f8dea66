//! What holds of the registration rules in every state and for every call.

use crate::account::{enter, AccountId};
use crate::call::{Invocation, Payout, Tier};
use crate::errors::ContractError;
use crate::ledger::{Registration, RegistrationLedger};
use crate::tickets::{Minting, TicketLedger, TicketRegistration};
use vstd::prelude::*;

verus! {

/// Where the two fees differ, a payment of the normal fee enters the caller
/// in the normal list and leaves the VIP list as it was, and a payment of the
/// VIP fee enters the caller in the VIP list and leaves the normal list as it
/// was.
pub proof fn law_fee_selects_list(ledger: RegistrationLedger, call: Invocation)
    requires
        ledger.normal_fee != ledger.vip_fee,
    ensures
        call.payment == ledger.normal_fee ==> {
            &&& ledger.register(call) matches Ok(done)
            &&& done.ledger.participants == enter(ledger.participants, call.caller)
            &&& done.ledger.participants.contains(call.caller)
            &&& done.ledger.vip_participants == ledger.vip_participants
        },
        call.payment == ledger.vip_fee ==> {
            &&& ledger.register(call) matches Ok(done)
            &&& done.ledger.vip_participants == enter(ledger.vip_participants, call.caller)
            &&& done.ledger.vip_participants.contains(call.caller)
            &&& done.ledger.participants == ledger.participants
        },
{
    lemma_enter_contains(ledger.participants, call.caller);
    lemma_enter_contains(ledger.vip_participants, call.caller);
}

/// A payment that is neither fee is refused with `InvalidPaymentAmount`: the
/// outcome holds no new state and no payment.
pub proof fn law_other_payment_refused(ledger: RegistrationLedger, call: Invocation)
    requires
        call.payment != ledger.normal_fee,
        call.payment != ledger.vip_fee,
    ensures
        ledger.register(call) == Err::<Registration, ContractError>(
            ContractError::InvalidPaymentAmount,
        ),
{
}

/// A payment is accepted exactly when it is one of the two fees, and every
/// accepted payment is forwarded whole to the owner.
pub proof fn law_accepted_payment_is_forwarded(ledger: RegistrationLedger, call: Invocation)
    ensures
        ledger.register(call) is Ok <==> (call.payment == ledger.normal_fee || call.payment
            == ledger.vip_fee),
        ledger.register(call) matches Ok(done) ==> done.payout == (Payout {
            to: call.owner,
            amount: call.payment,
        }),
{
}

/// Registering a second time from the same account with the same accepted
/// payment leaves both lists as the first registration left them, and so
/// their sizes; yet each of the two calls forwards the payment to the owner.
pub proof fn law_repeated_registration(ledger: RegistrationLedger, call: Invocation)
    requires
        call.payment == ledger.normal_fee || call.payment == ledger.vip_fee,
    ensures
        ({
            &&& ledger.register(call) matches Ok(first)
            &&& first.ledger.register(call) matches Ok(second)
            &&& second.ledger == first.ledger
            &&& second.ledger.participants.len() == first.ledger.participants.len()
            &&& second.ledger.vip_participants.len() == first.ledger.vip_participants.len()
            &&& first.payout == (Payout { to: call.owner, amount: call.payment })
            &&& second.payout == (Payout { to: call.owner, amount: call.payment })
        }),
{
    lemma_enter_contains(ledger.participants, call.caller);
    lemma_enter_contains(ledger.vip_participants, call.caller);
}

/// A fee update succeeds exactly when the owner calls. The owner's call
/// stores the new fee and touches nothing else; any other call fails with
/// `Unauthorized`, and a failed call yields no new state.
pub proof fn law_only_owner_updates_fees(ledger: RegistrationLedger, call: Invocation, new_fee: nat)
    ensures
        ledger.update_normal_fee(call, new_fee) is Ok <==> call.caller == call.owner,
        ledger.update_vip_fee(call, new_fee) is Ok <==> call.caller == call.owner,
        call.caller == call.owner ==> {
            &&& ledger.update_normal_fee(call, new_fee) == Ok::<RegistrationLedger, ContractError>(
                RegistrationLedger { normal_fee: new_fee, ..ledger },
            )
            &&& ledger.update_vip_fee(call, new_fee) == Ok::<RegistrationLedger, ContractError>(
                RegistrationLedger { vip_fee: new_fee, ..ledger },
            )
        },
        call.caller != call.owner ==> {
            &&& ledger.update_normal_fee(call, new_fee) == Err::<RegistrationLedger, ContractError>(
                ContractError::Unauthorized,
            )
            &&& ledger.update_vip_fee(call, new_fee) == Err::<RegistrationLedger, ContractError>(
                ContractError::Unauthorized,
            )
        },
{
}

/// After the normal fee was updated to `new_fee`, a registration that pays
/// `new_fee` succeeds as a normal one, whatever the VIP fee is: also where
/// `new_fee` equals it.
pub proof fn law_updated_normal_fee_registers_normal(
    ledger: RegistrationLedger,
    update: Invocation,
    new_fee: nat,
    call: Invocation,
)
    requires
        update.caller == update.owner,
        call.payment == new_fee,
    ensures
        ({
            &&& ledger.update_normal_fee(update, new_fee) matches Ok(updated)
            &&& updated.vip_fee == ledger.vip_fee
            &&& updated.tier_for(call.payment) == Some(Tier::Normal)
            &&& updated.register(call) matches Ok(done)
            &&& done.ledger == updated.enrolled(Tier::Normal, call.caller)
            &&& done.ledger.participants.contains(call.caller)
            &&& done.ledger.vip_participants == ledger.vip_participants
        }),
{
    lemma_enter_contains(ledger.participants, call.caller);
}

/// Initialization, fee updates and registrations keep every list free of
/// duplicates, as the lists of a contract that was never initialized are.
pub proof fn law_nobody_is_listed_twice(
    ledger: RegistrationLedger,
    call: Invocation,
    normal_fee: nat,
    vip_fee: nat,
)
    requires
        ledger.well_formed(),
    ensures
        RegistrationLedger::blank().well_formed(),
        ledger.initialize(normal_fee, vip_fee).well_formed(),
        ledger.update_normal_fee(call, normal_fee) matches Ok(after) ==> after.well_formed(),
        ledger.update_vip_fee(call, vip_fee) matches Ok(after) ==> after.well_formed(),
        ledger.register(call) matches Ok(done) ==> done.ledger.well_formed(),
{
    lemma_enter_distinct(ledger.participants, call.caller);
    lemma_enter_distinct(ledger.vip_participants, call.caller);
}

/// No operation takes an account out of a list or moves it: after a
/// registration each list begins with what it held before, and
/// initialization and fee updates leave both lists as they are.
pub proof fn law_lists_only_grow(
    ledger: RegistrationLedger,
    call: Invocation,
    normal_fee: nat,
    vip_fee: nat,
)
    ensures
        ledger.initialize(normal_fee, vip_fee).participants == ledger.participants,
        ledger.initialize(normal_fee, vip_fee).vip_participants == ledger.vip_participants,
        ledger.update_normal_fee(call, normal_fee) matches Ok(after) ==> after.participants
            == ledger.participants && after.vip_participants == ledger.vip_participants,
        ledger.update_vip_fee(call, vip_fee) matches Ok(after) ==> after.participants
            == ledger.participants && after.vip_participants == ledger.vip_participants,
        ledger.register(call) matches Ok(done) ==> ledger.participants.is_prefix_of(
            done.ledger.participants,
        ) && ledger.vip_participants.is_prefix_of(done.ledger.vip_participants),
{
}

/// An initialized ticketed contract has its ticket token configured, so its
/// registrations are never refused with `TokenNotConfigured`.
pub proof fn law_initialized_token_is_configured(ledger: TicketLedger, call: Invocation)
    ensures
        ledger.initialize().ticket_token_id.len() > 0,
        ledger.initialize().register(call) != Err::<TicketRegistration, ContractError>(
            ContractError::TokenNotConfigured,
        ),
{
    reveal_strlit("EVENT-TICKET");
}

/// A ticketed registration is refused for its payment exactly when the plain
/// registration is, and otherwise for a missing ticket token. When it
/// succeeds, fees, lists and payout are those of the plain registration, the
/// ticket numbers and the token stay as they are, and one ticket of the tier
/// paid for is minted for the caller.
pub proof fn law_ticketed_registration_extends_plain(ledger: TicketLedger, call: Invocation)
    ensures
        ledger.register(call) == Err::<TicketRegistration, ContractError>(
            ContractError::InvalidPaymentAmount,
        ) <==> ledger.ledger.register(call) is Err,
        ledger.register(call) == Err::<TicketRegistration, ContractError>(
            ContractError::TokenNotConfigured,
        ) <==> ledger.ledger.register(call) is Ok && ledger.ticket_token_id.len() == 0,
        ledger.register(call) is Ok <==> ledger.ledger.register(call) is Ok
            && ledger.ticket_token_id.len() > 0,
        ledger.register(call) matches Ok(done) ==> {
            &&& ledger.ledger.register(call) matches Ok(plain)
            &&& ledger.ledger.tier_for(call.payment) matches Some(tier)
            &&& done.ledger == (TicketLedger { ledger: plain.ledger, ..ledger })
            &&& done.payout == plain.payout
            &&& done.mint == (Minting {
                token_id: ledger.ticket_token_id,
                quantity: 1,
                recipient: call.caller,
                tier,
            })
        },
{
}

/// An account that was entered is a member, and entering a member changes
/// nothing.
pub proof fn lemma_enter_contains(list: Seq<AccountId>, account: AccountId)
    ensures
        enter(list, account).contains(account),
        enter(enter(list, account), account) == enter(list, account),
        forall|other: AccountId| list.contains(other) ==> enter(list, account).contains(other),
{
    if !list.contains(account) {
        assert(list.push(account).last() == account);
        assert forall|other: AccountId| list.contains(other) implies list.push(account).contains(
            other,
        ) by {
            let at = choose|at: int| 0 <= at < list.len() && list[at] == other;
            assert(list.push(account)[at] == other);
        }
    }
}

/// Entering an account in a list without duplicates leaves it without.
pub proof fn lemma_enter_distinct(list: Seq<AccountId>, account: AccountId)
    requires
        list.no_duplicates(),
    ensures
        enter(list, account).no_duplicates(),
{
}

} // verus!
