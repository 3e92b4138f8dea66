//! What a deployment driver remembers between runs: where the contract that
//! it deployed lives.

use crate::account::AccountId;
use vstd::prelude::*;
use vstd::std_specs::cmp::PartialEqSpecImpl;

verus! {

/// The driver's record of the deployed contract.
#[derive(Debug)]
pub struct State {
    contract_address: Option<AccountId>,
}

impl Clone for State {
    fn clone(&self) -> (copy: State)
        ensures
            copy.address() == self.address(),
    {
        State { contract_address: self.contract_address }
    }
}

impl PartialEq for State {
    /// Whether the two records know the same contract, or both none.
    fn eq(&self, other: &State) -> (same: bool) {
        match (self.contract_address, other.contract_address) {
            (Some(left), Some(right)) => left == right,
            (None, None) => true,
            _ => false,
        }
    }
}

impl Eq for State {

}

impl PartialEqSpecImpl for State {
    open spec fn obeys_eq_spec() -> bool {
        true
    }

    open spec fn eq_spec(&self, other: &State) -> bool {
        self.address() == other.address()
    }
}

impl Default for State {
    /// The record of a driver that has deployed nothing yet.
    fn default() -> (state: State)
        ensures
            state.address() == None::<AccountId>,
    {
        State { contract_address: None }
    }
}

impl State {
    /// The address of the deployed contract, if one is known.
    pub closed spec fn address(&self) -> Option<AccountId> {
        self.contract_address
    }

    /// The record to start a run with: the one that an earlier run stored,
    /// or, where none is stored, a record without an address.
    pub fn load_state(stored: Option<State>) -> (state: State)
        ensures
            state.address() == match stored {
                Some(record) => record.address(),
                None => None,
            },
    {
        match stored {
            Some(record) => record,
            None => State::default(),
        }
    }

    /// Sets the contract address.
    pub fn set_address(&mut self, address: AccountId)
        ensures
            final(self).address() == Some(address),
    {
        self.contract_address = Some(address);
    }

    /// The contract address, if one is known.
    pub fn contract_address(&self) -> (address: Option<AccountId>)
        ensures
            address == self.address(),
    {
        self.contract_address
    }

    /// Returns the contract address. There must be one: deploy first.
    pub fn current_address(&self) -> (address: &AccountId)
        requires
            self.address() is Some,
        ensures
            self.address() == Some(*address),
    {
        self.contract_address.as_ref().unwrap()
    }
}

} // verus!
