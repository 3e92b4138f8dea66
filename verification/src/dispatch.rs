//! The registration contract's operations as values: a command names one
//! operation with its arguments, and executing it gives the operation's reply.

use crate::account::AccountId;
use crate::amount::Amount;
use crate::call::{CallContext, Invocation, Payout, Transfer};
use crate::contract::MyNeversea2025;
use crate::errors::ContractError;
use crate::ledger::RegistrationLedger;
use vstd::prelude::*;
use vstd::std_specs::cmp::PartialEqSpecImpl;

verus! {

/// An operation of the registration contract, as the rules see it.
pub enum Operation {
    /// `initialize(normal_fee, vip_fee)`.
    Initialize { normal_fee: nat, vip_fee: nat },
    /// `get_normal_fee()`.
    GetNormalFee,
    /// `get_vip_fee()`.
    GetVipFee,
    /// `get_participants()`.
    GetParticipants,
    /// `get_vip_participants()`.
    GetVipParticipants,
    /// `update_normal_fee(new_fee)`, for the owner only.
    UpdateNormalFee { new_fee: nat },
    /// `update_vip_fee(new_fee)`, for the owner only.
    UpdateVipFee { new_fee: nat },
    /// `register()`, with the payment attached to the call.
    Register,
}

/// What an operation answers, as the rules see it.
pub enum Answer {
    /// Nothing beyond success.
    Done,
    /// A fee.
    Fee(nat),
    /// A list of participants, first come first.
    Participants(Seq<AccountId>),
    /// The registration succeeded; the payment is forwarded to the owner.
    Registered(Payout),
}

/// What executing an operation leaves behind.
pub struct Outcome {
    /// The state after the operation.
    pub ledger: RegistrationLedger,
    /// The operation's answer.
    pub answer: Answer,
}

/// The outcome of `operation` on `ledger` when it is invoked by `call`: that
/// of the operation it names. A getter leaves the state as it is.
pub open spec fn execute(ledger: RegistrationLedger, call: Invocation, operation: Operation)
    -> Result<Outcome, ContractError> {
    match operation {
        Operation::Initialize { normal_fee, vip_fee } => Ok(
            Outcome { ledger: ledger.initialize(normal_fee, vip_fee), answer: Answer::Done },
        ),
        Operation::GetNormalFee => Ok(Outcome { ledger, answer: Answer::Fee(ledger.normal_fee) }),
        Operation::GetVipFee => Ok(Outcome { ledger, answer: Answer::Fee(ledger.vip_fee) }),
        Operation::GetParticipants => Ok(
            Outcome { ledger, answer: Answer::Participants(ledger.participants) },
        ),
        Operation::GetVipParticipants => Ok(
            Outcome { ledger, answer: Answer::Participants(ledger.vip_participants) },
        ),
        Operation::UpdateNormalFee { new_fee } => match ledger.update_normal_fee(call, new_fee) {
            Ok(after) => Ok(Outcome { ledger: after, answer: Answer::Done }),
            Err(error) => Err(error),
        },
        Operation::UpdateVipFee { new_fee } => match ledger.update_vip_fee(call, new_fee) {
            Ok(after) => Ok(Outcome { ledger: after, answer: Answer::Done }),
            Err(error) => Err(error),
        },
        Operation::Register => match ledger.register(call) {
            Ok(done) => Ok(Outcome { ledger: done.ledger, answer: Answer::Registered(done.payout) }),
            Err(error) => Err(error),
        },
    }
}

/// An operation of the registration contract with its arguments.
#[derive(Debug)]
pub enum Command {
    /// `initialize(normal_fee, vip_fee)`.
    Initialize { normal_fee: Amount, vip_fee: Amount },
    /// `get_normal_fee()`.
    GetNormalFee,
    /// `get_vip_fee()`.
    GetVipFee,
    /// `get_participants()`.
    GetParticipants,
    /// `get_vip_participants()`.
    GetVipParticipants,
    /// `update_normal_fee(new_fee)`, for the owner only.
    UpdateNormalFee { new_fee: Amount },
    /// `update_vip_fee(new_fee)`, for the owner only.
    UpdateVipFee { new_fee: Amount },
    /// `register()`, with the payment attached to the call.
    Register,
}

impl View for Command {
    type V = Operation;

    open spec fn view(&self) -> Operation {
        match *self {
            Command::Initialize { normal_fee, vip_fee } => Operation::Initialize {
                normal_fee: normal_fee@,
                vip_fee: vip_fee@,
            },
            Command::GetNormalFee => Operation::GetNormalFee,
            Command::GetVipFee => Operation::GetVipFee,
            Command::GetParticipants => Operation::GetParticipants,
            Command::GetVipParticipants => Operation::GetVipParticipants,
            Command::UpdateNormalFee { new_fee } => Operation::UpdateNormalFee { new_fee: new_fee@ },
            Command::UpdateVipFee { new_fee } => Operation::UpdateVipFee { new_fee: new_fee@ },
            Command::Register => Operation::Register,
        }
    }
}

impl Clone for Command {
    fn clone(&self) -> (copy: Command)
        ensures
            copy@ == self@,
    {
        match self {
            Command::Initialize { normal_fee, vip_fee } => Command::Initialize {
                normal_fee: normal_fee.clone(),
                vip_fee: vip_fee.clone(),
            },
            Command::GetNormalFee => Command::GetNormalFee,
            Command::GetVipFee => Command::GetVipFee,
            Command::GetParticipants => Command::GetParticipants,
            Command::GetVipParticipants => Command::GetVipParticipants,
            Command::UpdateNormalFee { new_fee } => Command::UpdateNormalFee {
                new_fee: new_fee.clone(),
            },
            Command::UpdateVipFee { new_fee } => Command::UpdateVipFee { new_fee: new_fee.clone() },
            Command::Register => Command::Register,
        }
    }
}

/// What an operation answers.
#[derive(Debug)]
pub enum Reply {
    /// Nothing beyond success.
    Done,
    /// A fee.
    Fee(Amount),
    /// A list of participants, first come first.
    Participants(Vec<AccountId>),
    /// The registration succeeded; the runtime is to carry out the transfer.
    Registered(Transfer),
}

impl View for Reply {
    type V = Answer;

    open spec fn view(&self) -> Answer {
        match *self {
            Reply::Done => Answer::Done,
            Reply::Fee(fee) => Answer::Fee(fee@),
            Reply::Participants(list) => Answer::Participants(list@),
            Reply::Registered(transfer) => Answer::Registered(transfer@),
        }
    }
}

impl Clone for Reply {
    fn clone(&self) -> (copy: Reply)
        ensures
            copy@ == self@,
    {
        match self {
            Reply::Done => Reply::Done,
            Reply::Fee(fee) => Reply::Fee(fee.clone()),
            Reply::Participants(list) => {
                let copy = list.clone();
                assert(copy@ =~= list@);
                Reply::Participants(copy)
            },
            Reply::Registered(transfer) => Reply::Registered(transfer.clone()),
        }
    }
}

/// Whether the two lists hold the same accounts in the same order.
fn same_accounts(left: &Vec<AccountId>, right: &Vec<AccountId>) -> (same: bool)
    ensures
        same == (left@ == right@),
{
    if left.len() != right.len() {
        return false;
    }
    let mut at: usize = 0;
    while at < left.len()
        invariant
            at <= left.len(),
            left.len() == right.len(),
            forall|i: int| 0 <= i < at ==> left@[i] == right@[i],
        decreases left.len() - at,
    {
        if left[at] != right[at] {
            return false;
        }
        at += 1;
    }
    assert(left@ =~= right@);
    true
}

impl PartialEq for Reply {
    /// Whether the two replies say the same.
    fn eq(&self, other: &Reply) -> (same: bool) {
        match (self, other) {
            (Reply::Done, Reply::Done) => true,
            (Reply::Fee(left), Reply::Fee(right)) => *left == *right,
            (Reply::Participants(left), Reply::Participants(right)) => same_accounts(left, right),
            (Reply::Registered(left), Reply::Registered(right)) => *left == *right,
            _ => false,
        }
    }
}

impl Eq for Reply {

}

impl PartialEqSpecImpl for Reply {
    open spec fn obeys_eq_spec() -> bool {
        true
    }

    open spec fn eq_spec(&self, other: &Reply) -> bool {
        self@ == other@
    }
}

impl MyNeversea2025 {
    /// Executes `command` as invoked by `ctx`: the operation that it names,
    /// with that operation's reply or its error. A refused command changes
    /// nothing.
    pub fn execute(&mut self, ctx: &CallContext, command: Command) -> (result: Result<
        Reply,
        ContractError,
    >)
        ensures
            match result {
                Ok(reply) => execute(old(self)@, ctx@, command@) == Ok::<Outcome, ContractError>(
                    Outcome { ledger: final(self)@, answer: reply@ },
                ),
                Err(error) => execute(old(self)@, ctx@, command@) == Err::<Outcome, ContractError>(
                    error,
                ) && final(self)@ == old(self)@,
            },
    {
        match command {
            Command::Initialize { normal_fee, vip_fee } => {
                self.init(normal_fee, vip_fee);
                Ok(Reply::Done)
            },
            Command::GetNormalFee => Ok(Reply::Fee(self.registration_fee())),
            Command::GetVipFee => Ok(Reply::Fee(self.registration_fee_vip())),
            Command::GetParticipants => Ok(Reply::Participants(self.participants())),
            Command::GetVipParticipants => Ok(Reply::Participants(self.vip_participants())),
            Command::UpdateNormalFee { new_fee } => {
                match self.update_normal_registration_fee(ctx, new_fee) {
                    Ok(()) => Ok(Reply::Done),
                    Err(error) => Err(error),
                }
            },
            Command::UpdateVipFee { new_fee } => {
                match self.update_vip_registration_fee(ctx, new_fee) {
                    Ok(()) => Ok(Reply::Done),
                    Err(error) => Err(error),
                }
            },
            Command::Register => {
                match self.register(ctx) {
                    Ok(transfer) => Ok(Reply::Registered(transfer)),
                    Err(error) => Err(error),
                }
            },
        }
    }
}

} // verus!
