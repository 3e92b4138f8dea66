//! Accounts, and the lists that participants are entered in.

use vstd::prelude::*;
use vstd::std_specs::cmp::PartialEqSpecImpl;

verus! {

/// The text that writes the 32-byte address `address` in bech32 with the
/// human-readable part `erd`.
pub uninterp spec fn bech32_text(address: Seq<u8>) -> Seq<char>;

/// Calls `bech32::encode` of `multiversx-sc-scenario` on the address made of
/// `bytes`. That function encodes the 32 bytes with the `bech32` crate under
/// the prefix `erd`; the text depends on the bytes alone, and a payload of 32
/// bytes is within the length that the encoding accepts.
#[verifier::external_body]
fn bech32_encode(bytes: &[u8; 32]) -> (text: String)
    ensures
        text@ == bech32_text(bytes@),
{
    multiversx_sc_scenario::bech32::encode(&multiversx_sc::types::Address::new(*bytes))
}

/// The identifier of an account: its 32-byte address.
#[derive(Clone, Copy, Debug)]
pub struct AccountId {
    pub bytes: [u8; 32],
}

impl AccountId {
    /// The account with the address `bytes`.
    pub fn new(bytes: [u8; 32]) -> (account: AccountId)
        ensures
            account.bytes == bytes,
    {
        AccountId { bytes }
    }

    /// The address as users read it: bech32 text that starts with `erd1`.
    pub fn to_bech32(&self) -> (text: String)
        ensures
            text@ == bech32_text(self.bytes@),
    {
        bech32_encode(&self.bytes)
    }
}

impl PartialEq for AccountId {
    /// Whether the two addresses are the same, byte for byte.
    fn eq(&self, other: &AccountId) -> (same: bool) {
        let mut at: usize = 0;
        while at < 32
            invariant
                at <= 32,
                forall|i: int| 0 <= i < at ==> self.bytes[i] == other.bytes[i],
            decreases 32 - at,
        {
            if self.bytes[at] != other.bytes[at] {
                return false;
            }
            at += 1;
        }
        assert(self.bytes =~= other.bytes);
        true
    }
}

impl Eq for AccountId {

}

impl PartialEqSpecImpl for AccountId {
    open spec fn obeys_eq_spec() -> bool {
        true
    }

    open spec fn eq_spec(&self, other: &AccountId) -> bool {
        *self == *other
    }
}

/// `list` with `account` entered: put last if it is new, else `list` as it is.
pub open spec fn enter(list: Seq<AccountId>, account: AccountId) -> Seq<AccountId> {
    if list.contains(account) {
        list
    } else {
        list.push(account)
    }
}

/// The list that entering `accounts` one after the other leaves: each account
/// once, where it first stands.
pub open spec fn enter_all(accounts: Seq<AccountId>) -> Seq<AccountId>
    decreases accounts.len(),
{
    if accounts.len() == 0 {
        Seq::empty()
    } else {
        enter(enter_all(accounts.drop_last()), accounts.last())
    }
}

/// Entering accounts that are all different leaves exactly them, in their
/// order.
pub proof fn lemma_enter_all_distinct(accounts: Seq<AccountId>)
    requires
        accounts.no_duplicates(),
    ensures
        enter_all(accounts) == accounts,
    decreases accounts.len(),
{
    if accounts.len() > 0 {
        let before = accounts.drop_last();
        lemma_enter_all_distinct(before);
        assert(!before.contains(accounts.last()));
        assert(before.push(accounts.last()) =~= accounts);
    }
}

/// The accounts entered so far, each once, in the order in which they came.
/// Nothing is ever taken out.
#[derive(Debug)]
pub struct ParticipantSet {
    members: Vec<AccountId>,
}

impl View for ParticipantSet {
    type V = Seq<AccountId>;

    /// The members, first entered first.
    closed spec fn view(&self) -> Seq<AccountId> {
        self.members@
    }
}

impl ParticipantSet {
    #[verifier::type_invariant]
    spec fn distinct(self) -> bool {
        self.members@.no_duplicates()
    }

    /// A set without members.
    pub fn new() -> (set: ParticipantSet)
        ensures
            set@ == Seq::<AccountId>::empty(),
    {
        ParticipantSet { members: Vec::new() }
    }

    /// The set that entering `accounts` one after the other gives. An account
    /// that stands in `accounts` more than once is entered once.
    pub fn from_vec(accounts: &Vec<AccountId>) -> (set: ParticipantSet)
        ensures
            set@ == enter_all(accounts@),
            accounts@.no_duplicates() ==> set@ == accounts@,
    {
        let mut set = ParticipantSet::new();
        let mut at: usize = 0;
        while at < accounts.len()
            invariant
                at <= accounts.len(),
                set@ == enter_all(accounts@.subrange(0, at as int)),
            decreases accounts.len() - at,
        {
            assert(accounts@.subrange(0, at + 1).drop_last() =~= accounts@.subrange(0, at as int));
            set.insert(accounts[at]);
            at += 1;
        }
        assert(accounts@.subrange(0, at as int) =~= accounts@);
        proof {
            if accounts@.no_duplicates() {
                lemma_enter_all_distinct(accounts@);
            }
        }
        set
    }

    /// The number of members.
    pub fn len(&self) -> (count: usize)
        ensures
            count == self@.len(),
    {
        self.members.len()
    }

    /// Whether `account` is a member.
    pub fn contains(&self, account: &AccountId) -> (found: bool)
        ensures
            found == self@.contains(*account),
    {
        let mut at: usize = 0;
        while at < self.members.len()
            invariant
                at <= self.members.len(),
                forall|i: int| 0 <= i < at ==> self.members@[i] != *account,
            decreases self.members.len() - at,
        {
            if self.members[at] == *account {
                return true;
            }
            at += 1;
        }
        false
    }

    /// Enters `account` and says whether it was new. A member is not entered
    /// a second time.
    pub fn insert(&mut self, account: AccountId) -> (added: bool)
        ensures
            final(self)@ == enter(old(self)@, account),
            added == !old(self)@.contains(account),
    {
        proof {
            use_type_invariant(&*self);
        }
        if self.contains(&account) {
            false
        } else {
            let mut members: Vec<AccountId> = Vec::new();
            core::mem::swap(&mut self.members, &mut members);
            members.push(account);
            core::mem::swap(&mut self.members, &mut members);
            true
        }
    }

    /// The members, first entered first; none of them twice.
    pub fn to_vec(&self) -> (list: Vec<AccountId>)
        ensures
            list@ == self@,
            list@.no_duplicates(),
    {
        proof {
            use_type_invariant(self);
        }
        let mut list: Vec<AccountId> = Vec::new();
        let mut at: usize = 0;
        while at < self.members.len()
            invariant
                at <= self.members.len(),
                list@ == self.members@.subrange(0, at as int),
            decreases self.members.len() - at,
        {
            list.push(self.members[at]);
            at += 1;
        }
        assert(list@ =~= self.members@);
        list
    }
}

impl Clone for ParticipantSet {
    fn clone(&self) -> (copy: ParticipantSet)
        ensures
            copy@ == self@,
    {
        ParticipantSet { members: self.to_vec() }
    }
}

} // verus!
