//! The marketplace: a price per token, and purchases that hand a token to
//! the buyer once the owner was paid.
//!
//! Paying is the host's work. A purchase therefore goes in two steps: the
//! marketplace names the payment that is due, and, told whether the host has
//! made it, completes or refuses the purchase.

use std::collections::HashMap;
use vstd::prelude::*;
use crate::account::AccountId;
use crate::event::{Balance, Event, EventLog, EventView, Purchase, TokenId};
use crate::rules;

verus! {

broadcast use vstd::std_specs::hash::group_hash_axioms;

/// The state of a marketplace, as plain values.
pub struct MarketView {
    /// The owner of a token, where one is recorded.
    pub owners: Map<TokenId, AccountId>,
    /// The price of a token, where one is set.
    pub prices: Map<TokenId, Balance>,
    /// The events recorded so far, oldest first.
    pub events: Seq<EventView>,
}

impl MarketView {
    /// A marketplace that knows no owner and no price.
    pub open spec fn fresh() -> MarketView {
        MarketView { owners: Map::empty(), prices: Map::empty(), events: Seq::empty() }
    }

    /// The owner recorded for `id`, if there is one.
    pub open spec fn owner_of(self, id: TokenId) -> Option<AccountId> {
        if self.owners.contains_key(id) {
            Some(self.owners[id])
        } else {
            None
        }
    }

    /// The price set for `id`, if there is one.
    pub open spec fn price_of(self, id: TokenId) -> Option<Balance> {
        if self.prices.contains_key(id) {
            Some(self.prices[id])
        } else {
            None
        }
    }

    /// The marketplace after `caller` called for the price of `id` to be
    /// set: with the new price where the caller may set it, unchanged where
    /// it may not.
    pub open spec fn after_set_price(
        self,
        caller: AccountId,
        id: TokenId,
        price: Balance,
    ) -> MarketView {
        if rules::may_set_price(self.owner_of(id), caller) {
            MarketView { prices: self.prices.insert(id, price), ..self }
        } else {
            self
        }
    }

    /// The payment that a buyer of `id` owes: the price, to the owner.
    pub open spec fn payment_due(self, id: TokenId) -> Result<(AccountId, Balance), ()> {
        rules::purchase_outcome(self.price_of(id), self.owner_of(id))
    }

    /// The outcome of a purchase of `id`, where `paid` says whether the
    /// host has made the payment that was due.
    pub open spec fn buy_result(self, id: TokenId, paid: bool) -> Result<(), ()> {
        if self.payment_due(id) is Ok && paid {
            Ok(())
        } else {
            Err(())
        }
    }

    /// The marketplace after `caller` called for `id` to be bought: with the
    /// caller as the owner and one purchase event more where the purchase
    /// succeeds, unchanged where it fails.
    pub open spec fn after_buy(self, caller: AccountId, id: TokenId, paid: bool) -> MarketView {
        if self.buy_result(id, paid) is Ok {
            MarketView {
                owners: self.owners.insert(id, caller),
                events: self.events.push(
                    EventView::Purchase(Purchase { buyer: caller, id, price: self.prices[id] }),
                ),
                ..self
            }
        } else {
            self
        }
    }
}

/// A marketplace.
pub struct NftMarketplace {
    owners: HashMap<TokenId, AccountId>,
    prices: HashMap<TokenId, Balance>,
    events: EventLog,
}

impl View for NftMarketplace {
    type V = MarketView;

    closed spec fn view(&self) -> MarketView {
        MarketView { owners: self.owners@, prices: self.prices@, events: self.events@ }
    }
}

impl NftMarketplace {
    /// A marketplace that knows no owner and no price and has recorded no
    /// event.
    pub fn new() -> (market: NftMarketplace)
        ensures
            market@ == MarketView::fresh(),
    {
        NftMarketplace { owners: HashMap::new(), prices: HashMap::new(), events: EventLog::new() }
    }

    /// The owner recorded for `id`, or `None` where there is none.
    pub fn owner_of(&self, id: TokenId) -> (owner: Option<AccountId>)
        ensures
            owner == self@.owner_of(id),
    {
        match self.owners.get(&id) {
            Some(owner) => Some(*owner),
            None => None,
        }
    }

    /// The price set for `id`, or `None` where there is none.
    pub fn price_of(&self, id: TokenId) -> (price: Option<Balance>)
        ensures
            price == self@.price_of(id),
    {
        match self.prices.get(&id) {
            Some(price) => Some(*price),
            None => None,
        }
    }

    /// The number of tokens for which an owner is recorded.
    pub fn owner_count(&self) -> (n: usize)
        ensures
            n == self@.owners.len(),
    {
        self.owners.len()
    }

    /// The number of tokens for which a price is set.
    pub fn price_count(&self) -> (n: usize)
        ensures
            n == self@.prices.len(),
    {
        self.prices.len()
    }

    /// The events recorded so far, oldest first.
    pub fn events(&self) -> (log: &EventLog)
        ensures
            log@ == self@.events,
    {
        &self.events
    }

    /// Sets the price of `id` to `price`, in place of any earlier one, where
    /// `caller` is the recorded owner of the token or the token has no
    /// recorded owner; changes nothing otherwise. Records no event.
    pub fn set_price(&mut self, caller: AccountId, id: TokenId, price: Balance)
        ensures
            final(self)@ == old(self)@.after_set_price(caller, id, price),
    {
        let owner = self.owner_of(id);
        if rules::check_set_price(owner, &caller) {
            self.prices.insert(id, price);
        }
    }

    /// The payment that a buyer of `id` owes: the account of the owner and
    /// the price. Fails where the token has no price or no recorded owner.
    pub fn payment_due(&self, id: TokenId) -> (r: Result<(AccountId, Balance), ()>)
        ensures
            r == self@.payment_due(id),
    {
        rules::check_purchase(self.price_of(id), self.owner_of(id))
    }

    /// Completes the purchase of `id` by `caller`, where `paid` says whether
    /// the host has made the payment that was due.
    ///
    /// Fails where the token has no price or no recorded owner, and where
    /// the payment was not made. On success the caller is the recorded
    /// owner and one purchase event with the price is recorded; on failure
    /// nothing changes.
    pub fn buy(&mut self, caller: AccountId, id: TokenId, paid: bool) -> (r: Result<(), ()>)
        ensures
            r == old(self)@.buy_result(id, paid),
            final(self)@ == old(self)@.after_buy(caller, id, paid),
    {
        let price = match self.payment_due(id) {
            Ok((_, price)) => price,
            Err(()) => {
                return Err(());
            },
        };
        if !paid {
            return Err(());
        }
        self.owners.insert(id, caller);
        self.events.record(Event::Purchase(Purchase { buyer: caller, id, price }));
        Ok(())
    }
}

/// A purchase records an owner only for a token that had one: where no
/// owner is recorded for `id`, no purchase of `id` succeeds, and neither
/// setting a price nor a purchase of any token records one.
pub proof fn law_purchase_needs_owner(
    s: MarketView,
    caller: AccountId,
    id: TokenId,
    other: TokenId,
    price: Balance,
    paid: bool,
)
    requires
        s.owner_of(id) is None,
    ensures
        s.buy_result(id, paid) is Err,
        s.after_buy(caller, id, paid) == s,
        s.after_buy(caller, other, paid).owner_of(id) is None,
        s.after_set_price(caller, other, price).owner_of(id) is None,
{
}

/// A successful purchase makes the buyer the owner, leaves every price and
/// every other owner as they were, and records exactly one event: the
/// purchase at the price that was set.
pub proof fn law_purchase(s: MarketView, caller: AccountId, id: TokenId)
    requires
        s.buy_result(id, true) is Ok,
    ensures
        s.after_buy(caller, id, true).owner_of(id) == Some(caller),
        s.after_buy(caller, id, true).prices == s.prices,
        forall|other: TokenId|
            other != id ==> #[trigger] s.after_buy(caller, id, true).owner_of(other) == s.owner_of(
                other,
            ),
        s.payment_due(id) == Ok::<(AccountId, Balance), ()>((s.owners[id], s.prices[id])),
        s.after_buy(caller, id, true).events == s.events.push(
            EventView::Purchase(Purchase { buyer: caller, id, price: s.prices[id] }),
        ),
{
}

/// While no owner is recorded for a token, anyone sets its price; once one
/// is recorded, only the owner does.
pub proof fn law_set_price(s: MarketView, caller: AccountId, id: TokenId, price: Balance)
    ensures
        s.owner_of(id) is None || s.owner_of(id) == Some(caller) ==> s.after_set_price(
            caller,
            id,
            price,
        ).price_of(id) == Some(price),
        s.owner_of(id) is Some && s.owner_of(id) != Some(caller) ==> s.after_set_price(
            caller,
            id,
            price,
        ) == s,
        s.after_set_price(caller, id, price).owners == s.owners,
        s.after_set_price(caller, id, price).events == s.events,
{
}

/// One call of an entry point that can change the marketplace.
pub enum MarketCall {
    SetPrice { caller: AccountId, id: TokenId, price: Balance },
    Buy { caller: AccountId, id: TokenId, paid: bool },
}

impl MarketView {
    /// The marketplace after `call`.
    pub open spec fn after(self, call: MarketCall) -> MarketView {
        match call {
            MarketCall::SetPrice { caller, id, price } => self.after_set_price(caller, id, price),
            MarketCall::Buy { caller, id, paid } => self.after_buy(caller, id, paid),
        }
    }

    /// The marketplace after `calls`, made one after the other.
    pub open spec fn after_all(self, calls: Seq<MarketCall>) -> MarketView
        decreases calls.len(),
    {
        if calls.len() == 0 {
            self
        } else {
            self.after_all(calls.drop_last()).after(calls.last())
        }
    }
}

/// No entry point records the first owner of a token: a marketplace that
/// started without owners has none after any calls, so that none of its
/// purchases has succeeded and no event is recorded.
pub proof fn law_no_first_owner(calls: Seq<MarketCall>, id: TokenId)
    ensures
        MarketView::fresh().after_all(calls).owner_of(id) is None,
        MarketView::fresh().after_all(calls).events.len() == 0,
    decreases calls.len(),
{
    if calls.len() > 0 {
        law_no_first_owner(calls.drop_last(), id);
        match calls.last() {
            MarketCall::SetPrice { .. } => {},
            MarketCall::Buy { id: bought, .. } => {
                law_no_first_owner(calls.drop_last(), bought);
            },
        }
    }
}

} // verus!
