//! The ownership registry: every token has at most one owner, an owner can
//! approve one spender per token, and each account's token count is kept in
//! step with what it owns.

use std::collections::HashMap;
use vstd::prelude::*;
use crate::account::AccountId;
use crate::account_map::AccountMap;
use crate::error::Error;
use crate::event::{Approval, Event, EventLog, EventView, Transfer};
use crate::rules;

pub use crate::event::{Approved, TokenId};

verus! {

broadcast use vstd::std_specs::hash::group_hash_axioms;

/// The state of an ownership registry, as plain values.
pub struct PatientView {
    /// The name of the token collection.
    pub name: Seq<char>,
    /// The symbol of the token collection.
    pub symbol: Seq<char>,
    /// The owner of each token that exists.
    pub owners: Map<TokenId, AccountId>,
    /// The spender approved for a token, where there is one.
    pub approvals: Map<TokenId, AccountId>,
    /// The locator attached to a token, where there is one.
    pub uris: Map<TokenId, Seq<char>>,
    /// The events recorded so far, oldest first.
    pub events: Seq<EventView>,
    /// Whether only the owner of a token may attach a locator to it.
    pub owner_sets_uri: bool,
}

impl PatientView {
    /// A registry in which no token exists yet and anyone may attach a
    /// locator.
    pub open spec fn fresh(name: Seq<char>, symbol: Seq<char>) -> PatientView {
        PatientView {
            name,
            symbol,
            owners: Map::empty(),
            approvals: Map::empty(),
            uris: Map::empty(),
            events: Seq::empty(),
            owner_sets_uri: false,
        }
    }

    /// The owner of `id`, if the token exists.
    pub open spec fn owner_of(self, id: TokenId) -> Option<AccountId> {
        if self.owners.contains_key(id) {
            Some(self.owners[id])
        } else {
            None
        }
    }

    /// The spender approved for `id`, if there is one.
    pub open spec fn get_approved(self, id: TokenId) -> Option<AccountId> {
        if self.approvals.contains_key(id) {
            Some(self.approvals[id])
        } else {
            None
        }
    }

    /// The locator attached to `id`, if there is one.
    pub open spec fn token_uri(self, id: TokenId) -> Option<Seq<char>> {
        if self.uris.contains_key(id) {
            Some(self.uris[id])
        } else {
            None
        }
    }

    /// The tokens that `account` owns.
    pub open spec fn owned_by(self, account: AccountId) -> Set<TokenId> {
        Set::new(|id: TokenId| self.owners.contains_key(id) && self.owners[id] == account)
    }

    /// The number of tokens that `account` owns.
    pub open spec fn balance_of(self, account: AccountId) -> nat {
        self.owned_by(account).len()
    }

    /// What holds of every registry: finitely many tokens exist, none of
    /// them is owned by the reserved identifier, only existing tokens have
    /// an approved spender, which is never the reserved identifier, and no
    /// account owns more tokens than a count can hold.
    pub open spec fn valid(self) -> bool {
        &&& self.owners.dom().finite()
        &&& forall|id: TokenId| #[trigger]
            self.owners.contains_key(id) ==> !self.owners[id].is_zero()
        &&& forall|id: TokenId| #[trigger]
            self.approvals.contains_key(id) ==> self.owners.contains_key(id)
                && !self.approvals[id].is_zero()
        &&& forall|account: AccountId| #[trigger] self.balance_of(account) <= u32::MAX
    }

    /// The outcome of `caller` minting `id`.
    pub open spec fn mint_result(self, caller: AccountId, id: TokenId) -> Result<(), Error> {
        if self.owners.contains_key(id) {
            Err(Error::TokenExists)
        } else if caller.is_zero() {
            Err(Error::NotAllowed)
        } else if self.balance_of(caller) >= u32::MAX {
            Err(Error::CannotFetchValue)
        } else {
            Ok(())
        }
    }

    /// The registry after `caller` called for `id` to be minted: with the
    /// token owned by the caller and one creation event more where the call
    /// succeeds, unchanged where it fails.
    pub open spec fn after_mint(self, caller: AccountId, id: TokenId) -> PatientView {
        if self.mint_result(caller, id) is Ok {
            PatientView {
                owners: self.owners.insert(id, caller),
                events: self.events.push(
                    EventView::Transfer(Transfer { from: None, to: Some(caller), token_id: id }),
                ),
                ..self
            }
        } else {
            self
        }
    }

    /// The outcome of `caller` moving `id` from `from` to `to`.
    pub open spec fn transfer_result(
        self,
        caller: AccountId,
        from: AccountId,
        to: AccountId,
        id: TokenId,
    ) -> Result<(), Error> {
        if !self.owners.contains_key(id) {
            Err(Error::TokenNotFound)
        } else if !rules::may_transfer(caller, self.owners[id], self.get_approved(id), from, to) {
            Err(Error::NotAllowed)
        } else if from != to && self.balance_of(to) >= u32::MAX {
            Err(Error::CannotFetchValue)
        } else {
            Ok(())
        }
    }

    /// The registry after `caller` called for `id` to be moved from `from`
    /// to `to`: with the token owned by `to`, no spender approved for it and
    /// one transfer event more where the call succeeds, unchanged where it
    /// fails.
    pub open spec fn after_transfer(
        self,
        caller: AccountId,
        from: AccountId,
        to: AccountId,
        id: TokenId,
    ) -> PatientView {
        if self.transfer_result(caller, from, to, id) is Ok {
            PatientView {
                owners: self.owners.insert(id, to),
                approvals: self.approvals.remove(id),
                events: self.events.push(
                    EventView::Transfer(Transfer { from: Some(from), to: Some(to), token_id: id }),
                ),
                ..self
            }
        } else {
            self
        }
    }

    /// The outcome of `caller` approving `spender` for `id`.
    pub open spec fn approve_result(
        self,
        caller: AccountId,
        spender: AccountId,
        id: TokenId,
    ) -> Result<(), Error> {
        rules::approve_outcome(caller, self.owner_of(id), self.get_approved(id), spender)
    }

    /// The registry after `caller` called for `spender` to be approved for
    /// `id`: with the approval and one approval event more where the call
    /// succeeds, unchanged where it fails.
    pub open spec fn after_approve(
        self,
        caller: AccountId,
        spender: AccountId,
        id: TokenId,
    ) -> PatientView {
        if self.approve_result(caller, spender, id) is Ok {
            PatientView {
                approvals: self.approvals.insert(id, spender),
                events: self.events.push(
                    EventView::Approval(Approval { owner: caller, spender, token_id: id }),
                ),
                ..self
            }
        } else {
            self
        }
    }

    /// The outcome of `caller` attaching a locator to `id`.
    pub open spec fn set_token_uri_result(
        self,
        caller: AccountId,
        id: TokenId,
    ) -> Result<(), Error> {
        rules::set_uri_outcome(self.owner_sets_uri, caller, self.owner_of(id))
    }

    /// The registry after `caller` called for `uri` to be attached to `id`:
    /// with the locator in place of any earlier one where the call succeeds,
    /// unchanged where it fails. No event is recorded either way.
    pub open spec fn after_set_token_uri(
        self,
        caller: AccountId,
        id: TokenId,
        uri: Seq<char>,
    ) -> PatientView {
        if self.set_token_uri_result(caller, id) is Ok {
            PatientView { uris: self.uris.insert(id, uri), ..self }
        } else {
            self
        }
    }
}

/// How the tokens that each account owns change when `id` is given to `to`:
/// `to` gains it unless it owned it already, the owner so far loses it, and
/// every other account keeps what it owned.
pub proof fn lemma_owned_after_insert(s: PatientView, t: PatientView, id: TokenId, to: AccountId)
    requires
        s.owners.dom().finite(),
        t.owners == s.owners.insert(id, to),
    ensures
        t.owners.dom().finite(),
        t.balance_of(to) == s.balance_of(to) + (if s.owner_of(id) == Some(to) {
            0int
        } else {
            1int
        }),
        forall|a: AccountId|
            a != to ==> #[trigger] t.balance_of(a) == s.balance_of(a) - (if s.owner_of(id) == Some(
                a,
            ) {
                1int
            } else {
                0int
            }),
{
    assert(s.owned_by(to).subset_of(s.owners.dom()));
    vstd::set_lib::lemma_len_subset(s.owned_by(to), s.owners.dom());
    assert(t.owned_by(to) =~= s.owned_by(to).insert(id));
    assert forall|a: AccountId| a != to implies #[trigger] t.balance_of(a) == s.balance_of(a) - (
    if s.owner_of(id) == Some(a) {
        1int
    } else {
        0int
    }) by {
        assert(s.owned_by(a).subset_of(s.owners.dom()));
        vstd::set_lib::lemma_len_subset(s.owned_by(a), s.owners.dom());
        assert(t.owned_by(a) =~= s.owned_by(a).remove(id));
    }
}

/// How the tokens that each account owns change when `id` ceases to exist:
/// its owner loses it, and every other account keeps what it owned.
pub proof fn lemma_owned_after_remove(s: PatientView, t: PatientView, id: TokenId)
    requires
        s.owners.dom().finite(),
        t.owners == s.owners.remove(id),
    ensures
        t.owners.dom().finite(),
        forall|a: AccountId| #[trigger]
            t.balance_of(a) == s.balance_of(a) - (if s.owner_of(id) == Some(a) {
                1int
            } else {
                0int
            }),
{
    assert forall|a: AccountId| #[trigger]
        t.balance_of(a) == s.balance_of(a) - (if s.owner_of(id) == Some(a) {
            1int
        } else {
            0int
        }) by {
        assert(s.owned_by(a).subset_of(s.owners.dom()));
        vstd::set_lib::lemma_len_subset(s.owned_by(a), s.owners.dom());
        assert(t.owned_by(a) =~= s.owned_by(a).remove(id));
    }
}

/// An ownership registry.
pub struct Patient {
    token_name: String,
    token_symbol: String,
    token_resource_locator: HashMap<TokenId, String>,
    token_owner: HashMap<TokenId, AccountId>,
    token_approvals: HashMap<TokenId, AccountId>,
    owned_tokens_count: AccountMap<u32>,
    events: EventLog,
    owner_sets_uri: bool,
}

impl View for Patient {
    type V = PatientView;

    closed spec fn view(&self) -> PatientView {
        PatientView {
            name: self.token_name@,
            symbol: self.token_symbol@,
            owners: self.token_owner@,
            approvals: self.token_approvals@,
            uris: self.token_resource_locator@.map_values(|uri: String| uri@),
            events: self.events@,
            owner_sets_uri: self.owner_sets_uri,
        }
    }
}

impl Patient {
    /// The token count kept for `account`, zero where none is kept.
    spec fn stored_count(&self, account: AccountId) -> nat {
        if self.owned_tokens_count@.contains_key(account) {
            self.owned_tokens_count@[account] as nat
        } else {
            0
        }
    }

    /// The token count kept for every account is the number of tokens that
    /// it owns.
    pub closed spec fn counts_in_step(&self) -> bool {
        &&& self.owned_tokens_count.wf()
        &&& forall|account: AccountId| #[trigger]
            self.stored_count(account) == self@.balance_of(account)
    }

    /// The registry is sound: its token counts are in step with its owners,
    /// and its state is valid.
    pub open spec fn wf(&self) -> bool {
        &&& self.counts_in_step()
        &&& self@.valid()
    }

    /// A registry under the given name and symbol, in which no token exists
    /// yet, no event is recorded and anyone may attach a locator to a token.
    pub fn new(token_name: String, token_symbol: String) -> (patient: Patient)
        ensures
            patient.wf(),
            patient@ == PatientView::fresh(token_name@, token_symbol@),
    {
        let patient = Patient {
            token_name,
            token_symbol,
            token_resource_locator: HashMap::new(),
            token_owner: HashMap::new(),
            token_approvals: HashMap::new(),
            owned_tokens_count: AccountMap::new(),
            events: EventLog::new(),
            owner_sets_uri: false,
        };
        proof {
            assert(patient@.uris =~= Map::<TokenId, Seq<char>>::empty());
            assert forall|account: AccountId| #[trigger]
                patient@.balance_of(account) == 0 by {
                assert(patient@.owned_by(account) =~= Set::<TokenId>::empty());
            }
        }
        patient
    }

    /// The same registry, in which only its owner may attach a locator to a
    /// token if `required` is set, and anyone may if it is not.
    pub fn require_owner_for_uri(self, required: bool) -> (patient: Patient)
        requires
            self.wf(),
        ensures
            patient.wf(),
            patient@ == (PatientView { owner_sets_uri: required, ..self@ }),
    {
        let ghost before = self;
        let mut patient = self;
        patient.owner_sets_uri = required;
        proof {
            assert forall|account: AccountId|
                patient.stored_count(account) == #[trigger] patient@.balance_of(account)
                && patient@.balance_of(account) <= u32::MAX by {
                assert(before.stored_count(account) == before@.balance_of(account));
            }
        }
        patient
    }

    /// Whether only the owner of a token may attach a locator to it.
    pub fn requires_owner_for_uri(&self) -> (required: bool)
        ensures
            required == self@.owner_sets_uri,
    {
        self.owner_sets_uri
    }

    /// The number of tokens that `owner` owns.
    pub fn balance_of(&self, owner: AccountId) -> (balance: u32)
        requires
            self.wf(),
        ensures
            balance == self@.balance_of(owner),
    {
        self.balance_of_or_zero(&owner)
    }

    /// The owner of `token_id`, or `None` where the token does not exist.
    pub fn owner_of(&self, token_id: TokenId) -> (owner: Option<AccountId>)
        ensures
            owner == self@.owner_of(token_id),
    {
        match self.token_owner.get(&token_id) {
            Some(owner) => Some(*owner),
            None => None,
        }
    }

    /// The spender approved for `token_id`, or `None` where there is none.
    pub fn get_approved(&self, token_id: TokenId) -> (spender: Option<AccountId>)
        ensures
            spender == self@.get_approved(token_id),
    {
        match self.token_approvals.get(&token_id) {
            Some(spender) => Some(*spender),
            None => None,
        }
    }

    /// The token count kept for `of`, zero where none is kept.
    fn balance_of_or_zero(&self, of: &AccountId) -> (balance: u32)
        requires
            self.wf(),
        ensures
            balance == self@.balance_of(*of),
    {
        assert(self.stored_count(*of) == self@.balance_of(*of));
        match self.owned_tokens_count.get(of) {
            Some(count) => *count,
            None => 0,
        }
    }

    /// Whether the token exists, that is, has an owner.
    fn token_exists(&self, id: TokenId) -> (b: bool)
        ensures
            b == self@.owners.contains_key(id),
    {
        self.token_owner.contains_key(&id)
    }

    /// The name of the token collection.
    pub fn name(&self) -> (name: String)
        ensures
            name@ == self@.name,
    {
        self.token_name.clone()
    }

    /// The symbol of the token collection.
    pub fn symbol(&self) -> (symbol: String)
        ensures
            symbol@ == self@.symbol,
    {
        self.token_symbol.clone()
    }

    /// The locator attached to `id`, or `None` where there is none.
    pub fn token_uri(&self, id: TokenId) -> (uri: Option<String>)
        ensures
            match uri {
                Some(uri) => self@.token_uri(id) == Some(uri@),
                None => self@.token_uri(id) is None,
            },
    {
        match self.token_resource_locator.get(&id) {
            Some(uri) => Some(uri.clone()),
            None => None,
        }
    }

    /// A registry that differs from a sound one in neither its owners nor
    /// its token counts has its counts in step too, and every balance as
    /// before.
    proof fn lemma_same_tokens(before: Patient, after: Patient)
        requires
            before.counts_in_step(),
            after.token_owner@ == before.token_owner@,
            after.owned_tokens_count == before.owned_tokens_count,
        ensures
            after.counts_in_step(),
            forall|account: AccountId| #[trigger]
                after@.balance_of(account) == before@.balance_of(account),
    {
        assert forall|account: AccountId|
            after.stored_count(account) == #[trigger] after@.balance_of(account)
            && after@.balance_of(account) == before@.balance_of(account) by {
            assert(before.stored_count(account) == before@.balance_of(account));
        }
    }

    /// Gives the token `id`, which must not exist yet, to `to`, and raises
    /// the token count of `to` by one. Records no event.
    fn add_token_to(&mut self, to: &AccountId, id: TokenId) -> (r: Result<(), Error>)
        requires
            old(self).wf(),
        ensures
            final(self).wf(),
            r == old(self)@.mint_result(*to, id),
            r is Ok ==> final(self)@ == (PatientView {
                owners: old(self)@.owners.insert(id, *to),
                ..old(self)@
            }),
            r is Err ==> final(self)@ == old(self)@,
    {
        let ghost before = *self;
        let owner = self.owner_of(id);
        let balance = self.balance_of_or_zero(to);
        let count = match rules::check_mint(owner, to, balance) {
            Ok(count) => count,
            Err(e) => {
                return Err(e);
            },
        };
        self.owned_tokens_count.insert(*to, count);
        self.token_owner.insert(id, *to);
        proof {
            lemma_owned_after_insert(before@, self@, id, *to);
            assert forall|account: AccountId|
                self.stored_count(account) == #[trigger] self@.balance_of(account)
                && self@.balance_of(account) <= u32::MAX by {
                assert(before.stored_count(account) == before@.balance_of(account));
            }
        }
        Ok(())
    }

    /// Takes the token `id` away from its owner `from`, so that it ceases
    /// to exist, and lowers the token count of `from` by one. The token must
    /// have no approved spender. Records no event.
    fn remove_token_from(&mut self, from: &AccountId, id: TokenId)
        requires
            old(self).wf(),
            old(self)@.owner_of(id) == Some(*from),
            !old(self)@.approvals.contains_key(id),
        ensures
            final(self).wf(),
            final(self)@ == (PatientView {
                owners: old(self)@.owners.remove(id),
                ..old(self)@
            }),
            final(self)@.balance_of(*from) == old(self)@.balance_of(*from) - 1,
    {
        let ghost before = *self;
        let balance = self.balance_of_or_zero(from);
        proof {
            assert(before@.owned_by(*from).contains(id));
            assert(before@.owned_by(*from).subset_of(before@.owners.dom()));
            vstd::set_lib::lemma_len_subset(before@.owned_by(*from), before@.owners.dom());
            assert(before@.owned_by(*from).len() != 0) by {
                if before@.owned_by(*from).len() == 0 {
                    before@.owned_by(*from).lemma_len0_is_empty();
                }
            }
        }
        let count = balance - 1;
        self.owned_tokens_count.insert(*from, count);
        self.token_owner.remove(&id);
        proof {
            lemma_owned_after_remove(before@, self@, id);
            assert forall|account: AccountId|
                self.stored_count(account) == #[trigger] self@.balance_of(account)
                && self@.balance_of(account) <= u32::MAX by {
                assert(before.stored_count(account) == before@.balance_of(account));
            }
        }
    }

    /// Moves the token `id` from `from` to `to` on behalf of `caller`.
    fn transfer_token_from(
        &mut self,
        caller: &AccountId,
        from: &AccountId,
        to: &AccountId,
        id: TokenId,
    ) -> (r: Result<(), Error>)
        requires
            old(self).wf(),
        ensures
            final(self).wf(),
            r == old(self)@.transfer_result(*caller, *from, *to, id),
            final(self)@ == old(self)@.after_transfer(*caller, *from, *to, id),
    {
        let ghost before = *self;
        if !self.token_exists(id) {
            return Err(Error::TokenNotFound);
        }
        let owner = self.owner_of(id);
        let approved = self.get_approved(id);
        let from_balance = self.balance_of_or_zero(from);
        let to_balance = self.balance_of_or_zero(to);
        proof {
            if owner == Some(*from) {
                assert(before@.owned_by(*from).contains(id));
                assert(before@.owned_by(*from).subset_of(before@.owners.dom()));
                vstd::set_lib::lemma_len_subset(before@.owned_by(*from), before@.owners.dom());
                if before@.owned_by(*from).len() == 0 {
                    before@.owned_by(*from).lemma_len0_is_empty();
                }
            }
        }
        match rules::check_transfer(caller, owner, approved, from, to, from_balance, to_balance) {
            Ok(_) => {},
            Err(e) => {
                return Err(e);
            },
        }
        self.token_approvals.remove(&id);
        let ghost cleared = *self;
        proof {
            Self::lemma_same_tokens(before, cleared);
        }
        self.remove_token_from(from, id);
        proof {
            lemma_owned_after_remove(cleared@, self@, id);
            assert(self@.balance_of(*to) < u32::MAX) by {
                assert(cleared@.balance_of(*to) == before@.balance_of(*to));
            }
        }
        let added = self.add_token_to(to, id);
        assert(added is Ok);
        let ghost moved = *self;
        self.events.record(
            Event::Transfer(Transfer { from: Some(*from), to: Some(*to), token_id: id }),
        );
        proof {
            Self::lemma_same_tokens(moved, *self);
            assert(self@.owners =~= before@.owners.insert(id, *to));
        }
        Ok(())
    }

    /// Records `address` as the one account that may move `token_id` on
    /// behalf of its owner `caller`.
    fn approve_for(&mut self, caller: &AccountId, address: &AccountId, token_id: TokenId) -> (r:
        Result<(), Error>)
        requires
            old(self).wf(),
        ensures
            final(self).wf(),
            r == old(self)@.approve_result(*caller, *address, token_id),
            final(self)@ == old(self)@.after_approve(*caller, *address, token_id),
    {
        let ghost before = *self;
        let owner = self.owner_of(token_id);
        let approved = self.get_approved(token_id);
        match rules::check_approve(caller, owner, approved, address) {
            Ok(()) => {},
            Err(e) => {
                return Err(e);
            },
        }
        self.token_approvals.insert(token_id, *address);
        self.events.record(
            Event::Approval(Approval { owner: *caller, spender: *address, token_id }),
        );
        proof {
            Self::lemma_same_tokens(before, *self);
        }
        Ok(())
    }

    /// Creates the token `id` and gives it to `caller`.
    ///
    /// Fails with `TokenExists` where the token has an owner already, with
    /// `NotAllowed` where the caller is the reserved identifier, and with
    /// `CannotFetchValue` where the caller's token count cannot be raised.
    /// On success one creation event is recorded; on failure nothing
    /// changes.
    pub fn mint(&mut self, caller: AccountId, id: TokenId) -> (r: Result<(), Error>)
        requires
            old(self).wf(),
        ensures
            final(self).wf(),
            r == old(self)@.mint_result(caller, id),
            final(self)@ == old(self)@.after_mint(caller, id),
    {
        match self.add_token_to(&caller, id) {
            Ok(()) => {},
            Err(e) => {
                return Err(e);
            },
        }
        let ghost added = *self;
        self.events.record(
            Event::Transfer(Transfer { from: None, to: Some(caller), token_id: id }),
        );
        proof {
            Self::lemma_same_tokens(added, *self);
        }
        Ok(())
    }

    /// Moves the token `id` from `caller` to `to`.
    ///
    /// Fails with `TokenNotFound` where the token does not exist, with
    /// `NotAllowed` where the caller does not own it or `to` is the reserved
    /// identifier, and with `CannotFetchValue` where the token count of `to`
    /// cannot be raised. On success the approval for the token is cleared
    /// and one transfer event is recorded; on failure nothing changes.
    pub fn transfer(&mut self, caller: AccountId, to: AccountId, id: TokenId) -> (r:
        Result<(), Error>)
        requires
            old(self).wf(),
        ensures
            final(self).wf(),
            r == old(self)@.transfer_result(caller, caller, to, id),
            final(self)@ == old(self)@.after_transfer(caller, caller, to, id),
    {
        self.transfer_token_from(&caller, &caller, &to, id)
    }

    /// Moves the token `id` from `from` to `to` on behalf of `caller`.
    ///
    /// Fails with `TokenNotFound` where the token does not exist; with
    /// `NotAllowed` where the caller is neither `from` nor the spender
    /// approved for the token, where `from` does not own the token, or where
    /// `to` is the reserved identifier; and with `CannotFetchValue` where the
    /// token count of `to` cannot be raised. On success the approval for the
    /// token is cleared and one transfer event is recorded; on failure
    /// nothing changes.
    pub fn transfer_from(
        &mut self,
        caller: AccountId,
        from: AccountId,
        to: AccountId,
        id: TokenId,
    ) -> (r: Result<(), Error>)
        requires
            old(self).wf(),
        ensures
            final(self).wf(),
            r == old(self)@.transfer_result(caller, from, to, id),
            final(self)@ == old(self)@.after_transfer(caller, from, to, id),
    {
        self.transfer_token_from(&caller, &from, &to, id)
    }

    /// Approves `address` as the one spender of `token_id`.
    ///
    /// Fails with `NotAllowed` where the caller does not own the token, where
    /// `address` is the reserved identifier, or where a spender is approved
    /// for the token already. On success one approval event is recorded; on
    /// failure nothing changes.
    pub fn approve(&mut self, caller: AccountId, address: AccountId, token_id: TokenId) -> (r:
        Result<(), Error>)
        requires
            old(self).wf(),
        ensures
            final(self).wf(),
            r == old(self)@.approve_result(caller, address, token_id),
            final(self)@ == old(self)@.after_approve(caller, address, token_id),
    {
        self.approve_for(&caller, &address, token_id)
    }

    /// Attaches the locator `uri` to `id`, in place of any earlier one.
    ///
    /// Where the registry lets only owners attach locators, fails with
    /// `NotAllowed` unless the caller owns the token; otherwise succeeds for
    /// every caller and every `id`. Records no event; on failure nothing
    /// changes.
    pub fn set_token_uri(&mut self, caller: AccountId, id: TokenId, uri: String) -> (r:
        Result<(), Error>)
        requires
            old(self).wf(),
        ensures
            final(self).wf(),
            r == old(self)@.set_token_uri_result(caller, id),
            final(self)@ == old(self)@.after_set_token_uri(caller, id, uri@),
    {
        let ghost before = *self;
        let owner = self.owner_of(id);
        match rules::check_set_uri(self.owner_sets_uri, &caller, owner) {
            Ok(()) => {},
            Err(e) => {
                return Err(e);
            },
        }
        self.token_resource_locator.insert(id, uri);
        proof {
            Self::lemma_same_tokens(before, *self);
            assert(self@.uris =~= before@.uris.insert(id, uri@));
            assert(self@.approvals == before@.approvals);
            assert(self@.owners == before@.owners);
        }
        Ok(())
    }

    /// The events recorded so far, oldest first.
    pub fn events(&self) -> (log: &EventLog)
        ensures
            log@ == self@.events,
    {
        &self.events
    }
}

impl Default for Patient {
    /// A registry without a name and a symbol, in which no token exists yet.
    fn default() -> (patient: Patient)
        ensures
            patient.wf(),
            patient@ == PatientView::fresh(Seq::empty(), Seq::empty()),
    {
        Patient::new(String::new(), String::new())
    }
}

/// The ownership registry, under the name of the token collection that it
/// was first made for.
pub type HealthDot = Patient;

} // verus!
