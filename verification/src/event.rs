//! The events that successful state transitions record, and the log that
//! keeps them.

use vstd::prelude::*;
use crate::account::AccountId;
use crate::record::{Biodata, ClinicalNotes, RecordView};

verus! {

/// The key of a token.
pub type TokenId = u32;

/// Whether an operator is enabled.
pub type Approved = bool;

/// The key of a patient record.
pub type HealthId = u32;

/// An amount of the host's currency.
pub type Balance = u128;

/// The ownership of a token changed. `from` is `None` when the token was
/// created.
#[derive(Clone, Copy, Debug, PartialEq, Eq)]
pub struct Transfer {
    pub from: Option<AccountId>,
    pub to: Option<AccountId>,
    pub token_id: TokenId,
}

/// The owner of a token approved a spender for it.
#[derive(Clone, Copy, Debug, PartialEq, Eq)]
pub struct Approval {
    pub owner: AccountId,
    pub spender: AccountId,
    pub token_id: TokenId,
}

/// An operator was enabled or disabled for all tokens of an owner.
#[derive(Clone, Copy, Debug, PartialEq, Eq)]
pub struct ApprovalForAll {
    pub owner: AccountId,
    pub operator: AccountId,
    pub approved: Approved,
}

/// A patient record was created under a new identifier.
#[derive(Clone, Copy, Debug, PartialEq, Eq)]
pub struct NewPatient {
    pub id: HealthId,
    pub identifier: Option<AccountId>,
}

/// The biodata of a patient was replaced.
#[derive(Clone, Debug, PartialEq, Eq)]
pub struct BiodataUpdate {
    pub identifier: Option<AccountId>,
    pub message: Option<Biodata>,
}

/// The clinical notes of a patient were replaced.
#[derive(Clone, Debug, PartialEq, Eq)]
pub struct ClinicalNotesUpdate {
    pub identifier: Option<AccountId>,
    pub message: Option<ClinicalNotes>,
}

/// A token changed hands against a price.
#[derive(Clone, Copy, Debug, PartialEq, Eq)]
pub struct Purchase {
    pub buyer: AccountId,
    pub id: TokenId,
    pub price: Balance,
}

/// The closed set of events.
#[derive(Clone, Debug, PartialEq, Eq)]
pub enum Event {
    Transfer(Transfer),
    Approval(Approval),
    ApprovalForAll(ApprovalForAll),
    NewPatient(NewPatient),
    BiodataUpdate(BiodataUpdate),
    ClinicalNotesUpdate(ClinicalNotesUpdate),
    Purchase(Purchase),
}

/// What an event says, as plain values.
pub enum EventView {
    Transfer(Transfer),
    Approval(Approval),
    ApprovalForAll(ApprovalForAll),
    NewPatient(NewPatient),
    BiodataUpdate { identifier: Option<AccountId>, message: Option<RecordView> },
    ClinicalNotesUpdate { identifier: Option<AccountId>, message: Option<RecordView> },
    Purchase(Purchase),
}

impl View for BiodataUpdate {
    type V = EventView;

    open spec fn view(&self) -> EventView {
        EventView::BiodataUpdate {
            identifier: self.identifier,
            message: match self.message {
                Some(b) => Some(b@),
                None => None,
            },
        }
    }
}

impl View for ClinicalNotesUpdate {
    type V = EventView;

    open spec fn view(&self) -> EventView {
        EventView::ClinicalNotesUpdate {
            identifier: self.identifier,
            message: match self.message {
                Some(n) => Some(n@),
                None => None,
            },
        }
    }
}

impl View for Event {
    type V = EventView;

    open spec fn view(&self) -> EventView {
        match *self {
            Event::Transfer(e) => EventView::Transfer(e),
            Event::Approval(e) => EventView::Approval(e),
            Event::ApprovalForAll(e) => EventView::ApprovalForAll(e),
            Event::NewPatient(e) => EventView::NewPatient(e),
            Event::BiodataUpdate(e) => e@,
            Event::ClinicalNotesUpdate(e) => e@,
            Event::Purchase(e) => EventView::Purchase(e),
        }
    }
}

/// An append-only log of events, in the order in which they were recorded.
pub struct EventLog {
    entries: Vec<Event>,
}

impl View for EventLog {
    type V = Seq<EventView>;

    closed spec fn view(&self) -> Seq<EventView> {
        self.entries@.map_values(|e: Event| e@)
    }
}

impl EventLog {
    /// A log that holds no event.
    pub fn new() -> (log: EventLog)
        ensures
            log@ == Seq::<EventView>::empty(),
    {
        let log = EventLog { entries: Vec::new() };
        assert(log@ =~= Seq::<EventView>::empty());
        log
    }

    /// Appends `event`; the events recorded before stay as they are.
    pub fn record(&mut self, event: Event)
        ensures
            final(self)@ == old(self)@.push(event@),
    {
        self.entries.push(event);
        assert(self@ =~= old(self)@.push(event@));
    }

    /// The number of events recorded so far.
    pub fn len(&self) -> (n: usize)
        ensures
            n == self@.len(),
    {
        self.entries.len()
    }

    /// Whether no event was recorded so far.
    pub fn is_empty(&self) -> (b: bool)
        ensures
            b == (self@.len() == 0),
    {
        self.entries.len() == 0
    }

    /// The event recorded at position `index`, counted from zero, if there
    /// is one.
    pub fn get(&self, index: usize) -> (r: Option<&Event>)
        ensures
            match r {
                Some(e) => index < self@.len() && e@ == self@[index as int],
                None => index >= self@.len(),
            },
    {
        if index < self.entries.len() {
            Some(&self.entries[index])
        } else {
            None
        }
    }
}

} // verus!
