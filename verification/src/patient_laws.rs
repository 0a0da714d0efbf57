//! What holds of the ownership registry across calls.

use vstd::prelude::*;
use crate::account::AccountId;
use crate::error::Error;
use crate::event::{EventView, TokenId, Transfer};
use crate::patient::{lemma_owned_after_insert, PatientView};

verus! {

/// One call of an entry point that can change the registry.
pub enum Call {
    Mint { caller: AccountId, id: TokenId },
    Transfer { caller: AccountId, to: AccountId, id: TokenId },
    TransferFrom { caller: AccountId, from: AccountId, to: AccountId, id: TokenId },
    Approve { caller: AccountId, spender: AccountId, id: TokenId },
    SetTokenUri { caller: AccountId, id: TokenId, uri: Seq<char> },
}

impl PatientView {
    /// The registry after `call`.
    pub open spec fn after(self, call: Call) -> PatientView {
        match call {
            Call::Mint { caller, id } => self.after_mint(caller, id),
            Call::Transfer { caller, to, id } => self.after_transfer(caller, caller, to, id),
            Call::TransferFrom { caller, from, to, id } => self.after_transfer(
                caller,
                from,
                to,
                id,
            ),
            Call::Approve { caller, spender, id } => self.after_approve(caller, spender, id),
            Call::SetTokenUri { caller, id, uri } => self.after_set_token_uri(caller, id, uri),
        }
    }

    /// The registry after `calls`, made one after the other.
    pub open spec fn after_all(self, calls: Seq<Call>) -> PatientView
        decreases calls.len(),
    {
        if calls.len() == 0 {
            self
        } else {
            self.after_all(calls.drop_last()).after(calls.last())
        }
    }
}

/// In a fresh registry no token has an owner or an approved spender, every
/// balance is zero and no event is recorded; and the registry is valid.
pub proof fn law_fresh(name: Seq<char>, symbol: Seq<char>)
    ensures
        PatientView::fresh(name, symbol).valid(),
        forall|id: TokenId| #[trigger] PatientView::fresh(name, symbol).owner_of(id) is None,
        forall|id: TokenId| #[trigger] PatientView::fresh(name, symbol).get_approved(id) is None,
        forall|account: AccountId| #[trigger]
            PatientView::fresh(name, symbol).balance_of(account) == 0,
        PatientView::fresh(name, symbol).events.len() == 0,
{
    let s = PatientView::fresh(name, symbol);
    assert forall|account: AccountId| #[trigger] s.balance_of(account) == 0 by {
        assert(s.owned_by(account) =~= Set::<TokenId>::empty());
    }
}

/// A call that fails changes nothing; a call that succeeds records exactly
/// one event, except for attaching a locator, which records none.
pub proof fn law_failure_changes_nothing(s: PatientView, call: Call)
    ensures
        match call {
            Call::Mint { caller, id } => s.mint_result(caller, id) is Err ==> s.after(call) == s,
            Call::Transfer { caller, to, id } => s.transfer_result(caller, caller, to, id) is Err
                ==> s.after(call) == s,
            Call::TransferFrom { caller, from, to, id } => s.transfer_result(caller, from, to, id)
                is Err ==> s.after(call) == s,
            Call::Approve { caller, spender, id } => s.approve_result(caller, spender, id) is Err
                ==> s.after(call) == s,
            Call::SetTokenUri { caller, id, uri } => s.set_token_uri_result(caller, id) is Err
                ==> s.after(call) == s,
        },
        s.after(call).events == s.events || (s.after(call).events.len() == s.events.len() + 1
            && s.after(call).events.drop_last() == s.events),
{
    let t = s.after(call);
    if t.events != s.events {
        assert(t.events.drop_last() =~= s.events);
    }
}

/// Every call leaves a valid registry valid.
pub proof fn law_valid_is_kept(s: PatientView, call: Call)
    requires
        s.valid(),
    ensures
        s.after(call).valid(),
{
    let t = s.after(call);
    match call {
        Call::Mint { caller, id } => {
            if s.mint_result(caller, id) is Ok {
                lemma_owned_after_insert(s, t, id, caller);
                assert forall|account: AccountId| #[trigger]
                    t.balance_of(account) <= u32::MAX by {
                    assert(s.balance_of(account) <= u32::MAX);
                }
            }
        },
        Call::Transfer { caller, to, id } => {
            lemma_transfer_keeps_valid(s, caller, caller, to, id);
        },
        Call::TransferFrom { caller, from, to, id } => {
            lemma_transfer_keeps_valid(s, caller, from, to, id);
        },
        Call::Approve { caller, spender, id } => {
            if s.approve_result(caller, spender, id) is Ok {
                assert forall|account: AccountId| #[trigger]
                    t.balance_of(account) <= u32::MAX by {
                    assert(s.balance_of(account) <= u32::MAX);
                }
            }
        },
        Call::SetTokenUri { caller, id, uri } => {
            if s.set_token_uri_result(caller, id) is Ok {
                assert forall|account: AccountId| #[trigger]
                    t.balance_of(account) <= u32::MAX by {
                    assert(s.balance_of(account) <= u32::MAX);
                }
            }
        },
    }
}

proof fn lemma_transfer_keeps_valid(
    s: PatientView,
    caller: AccountId,
    from: AccountId,
    to: AccountId,
    id: TokenId,
)
    requires
        s.valid(),
    ensures
        s.after_transfer(caller, from, to, id).valid(),
{
    let t = s.after_transfer(caller, from, to, id);
    if s.transfer_result(caller, from, to, id) is Ok {
        lemma_owned_after_insert(s, t, id, to);
        assert forall|account: AccountId| #[trigger] t.balance_of(account) <= u32::MAX by {
            assert(s.balance_of(account) <= u32::MAX);
        }
    }
}

impl Call {
    /// Whether this call, made on the registry `s`, mints `id`: it is a mint
    /// of `id`, and it succeeds.
    pub open spec fn mints(self, s: PatientView, id: TokenId) -> bool {
        self matches Call::Mint { caller, id: minted } && minted == id && s.mint_result(
            caller,
            id,
        ) is Ok
    }
}

/// A token has an owner or an approved spender only after a call that minted
/// it: if a valid registry knows no owner of `id`, and none of `calls` mints
/// `id` on the registry that it finds, then after all of them `id` still has
/// no owner and no approved spender.
pub proof fn law_unminted_token_has_no_owner(s: PatientView, calls: Seq<Call>, id: TokenId)
    requires
        s.valid(),
        s.owner_of(id) is None,
        forall|i: int|
            0 <= i < calls.len() ==> !(#[trigger] calls[i]).mints(s.after_all(calls.take(i)), id),
    ensures
        s.after_all(calls).valid(),
        s.after_all(calls).owner_of(id) is None,
        s.after_all(calls).get_approved(id) is None,
    decreases calls.len(),
{
    if calls.len() > 0 {
        let earlier = calls.drop_last();
        let before = s.after_all(earlier);
        assert forall|i: int| 0 <= i < earlier.len() implies !(#[trigger] earlier[i]).mints(
            s.after_all(earlier.take(i)),
            id,
        ) by {
            assert(earlier[i] == calls[i]);
            assert(earlier.take(i) =~= calls.take(i));
        }
        law_unminted_token_has_no_owner(s, earlier, id);
        law_valid_is_kept(before, calls.last());
        assert(calls.take(calls.len() - 1) =~= earlier);
        assert(!calls[calls.len() - 1].mints(before, id));
    }
}

/// After `caller` minted `id`, the caller owns the token, holds exactly one
/// token more than before, every other account holds what it held, and
/// exactly one event was recorded: the creation of `id` for `caller`.
pub proof fn law_mint(s: PatientView, caller: AccountId, id: TokenId)
    requires
        s.valid(),
        s.mint_result(caller, id) is Ok,
    ensures
        s.after_mint(caller, id).owner_of(id) == Some(caller),
        s.after_mint(caller, id).balance_of(caller) == s.balance_of(caller) + 1,
        forall|other: AccountId|
            other != caller ==> #[trigger] s.after_mint(caller, id).balance_of(other)
                == s.balance_of(other),
        forall|other: TokenId|
            other != id ==> #[trigger] s.after_mint(caller, id).owner_of(other) == s.owner_of(
                other,
            ),
        s.after_mint(caller, id).events == s.events.push(
            EventView::Transfer(Transfer { from: None, to: Some(caller), token_id: id }),
        ),
        s.after_mint(caller, id).approvals == s.approvals,
{
    lemma_owned_after_insert(s, s.after_mint(caller, id), id, caller);
}

/// Once a mint of `id` has succeeded, or has failed because the token
/// existed, every further mint of `id` fails with `TokenExists`, whoever
/// calls, and leaves the registry as the first call left it.
pub proof fn law_mint_twice(s: PatientView, first: AccountId, second: AccountId, id: TokenId)
    requires
        s.mint_result(first, id) is Ok || s.mint_result(first, id) == Err::<(), Error>(
            Error::TokenExists,
        ),
    ensures
        s.after_mint(first, id).mint_result(second, id) == Err::<(), Error>(Error::TokenExists),
        s.after_mint(first, id).after_mint(second, id) == s.after_mint(first, id),
{
}

/// A caller that neither owns a token nor is approved for it cannot move
/// it: whatever account it names as the source, the call fails, with
/// `NotAllowed` where the token exists and with `TokenNotFound` where it does
/// not, and changes nothing.
pub proof fn law_transfer_needs_owner_or_spender(
    s: PatientView,
    caller: AccountId,
    from: AccountId,
    to: AccountId,
    id: TokenId,
)
    requires
        s.owner_of(id) != Some(caller),
        s.get_approved(id) != Some(caller),
    ensures
        s.transfer_result(caller, from, to, id) == (if s.owner_of(id) is Some {
            Err::<(), Error>(Error::NotAllowed)
        } else {
            Err::<(), Error>(Error::TokenNotFound)
        }),
        s.after_transfer(caller, from, to, id) == s,
{
}

/// A token cannot be moved to the reserved identifier: the call fails and
/// changes nothing.
pub proof fn law_transfer_to_zero(
    s: PatientView,
    caller: AccountId,
    from: AccountId,
    to: AccountId,
    id: TokenId,
)
    requires
        to.is_zero(),
    ensures
        s.transfer_result(caller, from, to, id) == (if s.owner_of(id) is Some {
            Err::<(), Error>(Error::NotAllowed)
        } else {
            Err::<(), Error>(Error::TokenNotFound)
        }),
        s.after_transfer(caller, from, to, id) == s,
{
}

/// After a token was moved from `from` to another account `to`, `to` owns
/// it, no spender is approved for it, `from` holds one token less and `to`
/// one token more than before, every other account holds what it held, and
/// exactly one event was recorded: the transfer.
pub proof fn law_transfer(
    s: PatientView,
    caller: AccountId,
    from: AccountId,
    to: AccountId,
    id: TokenId,
)
    requires
        s.valid(),
        s.transfer_result(caller, from, to, id) is Ok,
        from != to,
    ensures
        s.owner_of(id) == Some(from),
        s.after_transfer(caller, from, to, id).owner_of(id) == Some(to),
        s.after_transfer(caller, from, to, id).get_approved(id) is None,
        s.after_transfer(caller, from, to, id).balance_of(from) == s.balance_of(from) - 1,
        s.after_transfer(caller, from, to, id).balance_of(to) == s.balance_of(to) + 1,
        forall|other: AccountId|
            other != from && other != to ==> #[trigger] s.after_transfer(
                caller,
                from,
                to,
                id,
            ).balance_of(other) == s.balance_of(other),
        s.after_transfer(caller, from, to, id).events == s.events.push(
            EventView::Transfer(Transfer { from: Some(from), to: Some(to), token_id: id }),
        ),
{
    lemma_owned_after_insert(s, s.after_transfer(caller, from, to, id), id, to);
}

/// Moving a token from an account to itself leaves every owner and every
/// balance as it was; the approval for the token is cleared all the same.
pub proof fn law_transfer_to_self(s: PatientView, caller: AccountId, from: AccountId, id: TokenId)
    requires
        s.valid(),
        s.transfer_result(caller, from, from, id) is Ok,
    ensures
        s.after_transfer(caller, from, from, id).owners == s.owners,
        s.after_transfer(caller, from, from, id).get_approved(id) is None,
        forall|account: AccountId| #[trigger]
            s.after_transfer(caller, from, from, id).balance_of(account) == s.balance_of(account),
{
    let t = s.after_transfer(caller, from, from, id);
    assert(t.owners =~= s.owners);
}

/// A locator that was attached to a token is the one that the token then
/// has.
pub proof fn law_token_uri_round_trip(
    s: PatientView,
    caller: AccountId,
    id: TokenId,
    uri: Seq<char>,
)
    requires
        s.set_token_uri_result(caller, id) is Ok,
    ensures
        s.after_set_token_uri(caller, id, uri).token_uri(id) == Some(uri),
{
}

/// Where a registry lets anyone attach locators, attaching one succeeds for
/// every caller and every token, minted or not.
pub proof fn law_open_uri_policy(s: PatientView, caller: AccountId, id: TokenId)
    requires
        !s.owner_sets_uri,
    ensures
        s.set_token_uri_result(caller, id) is Ok,
{
}

} // verus!
