//! The patient record store and the payloads that it keeps.

use std::collections::HashMap;
use vstd::prelude::*;
use crate::account::AccountId;
use crate::account_map::AccountMap;
use crate::epr_laws::{law_create_patient, law_update_keeps_identifiers};
use crate::error::Error;
use crate::event::{BiodataUpdate, ClinicalNotesUpdate, Event, EventLog, EventView, NewPatient};
use crate::rules;

pub use crate::event::HealthId;

verus! {

/// What a stored record holds, as plain values.
pub struct RecordView {
    pub name: Seq<char>,
    pub details: Seq<char>,
    pub finalized: bool,
    pub vector: Seq<u8>,
}

/// The biodata of one patient: a name, an opaque reference to the details, a
/// flag and a byte payload. The flag is kept and handed back as it was given;
/// no operation reads it.
#[derive(Clone, Debug, Default, PartialEq, Eq)]
pub struct Biodata {
    pub name: String,
    pub details: String,
    pub finalized: bool,
    pub vector: Vec<u8>,
}

/// The clinical notes of one patient, of the same shape as [`Biodata`].
#[derive(Clone, Debug, Default, PartialEq, Eq)]
pub struct ClinicalNotes {
    pub name: String,
    pub details: String,
    pub finalized: bool,
    pub vector: Vec<u8>,
}

impl View for Biodata {
    type V = RecordView;

    open spec fn view(&self) -> RecordView {
        RecordView {
            name: self.name@,
            details: self.details@,
            finalized: self.finalized,
            vector: self.vector@,
        }
    }
}

impl View for ClinicalNotes {
    type V = RecordView;

    open spec fn view(&self) -> RecordView {
        RecordView {
            name: self.name@,
            details: self.details@,
            finalized: self.finalized,
            vector: self.vector@,
        }
    }
}

impl Biodata {
    /// A copy that holds the same values.
    pub fn duplicate(&self) -> (r: Biodata)
        ensures
            r@ == self@,
    {
        Biodata {
            name: self.name.clone(),
            details: self.details.clone(),
            finalized: self.finalized,
            vector: self.vector.clone(),
        }
    }
}

impl ClinicalNotes {
    /// A copy that holds the same values.
    pub fn duplicate(&self) -> (r: ClinicalNotes)
        ensures
            r@ == self@,
    {
        ClinicalNotes {
            name: self.name.clone(),
            details: self.details.clone(),
            finalized: self.finalized,
            vector: self.vector.clone(),
        }
    }
}


/// The state of a patient record store, as plain values.
pub struct RecordsView {
    /// The identifier given out last; zero where none was given out yet.
    pub current_id: HealthId,
    /// The account that each identifier given out so far stands for.
    pub record_count: Map<HealthId, AccountId>,
    /// The biodata kept for an account, where there is one.
    pub patient_biodata: Map<AccountId, RecordView>,
    /// The clinical notes kept for an account, where there are any.
    pub patient_notes: Map<AccountId, RecordView>,
    /// The events recorded so far, oldest first.
    pub events: Seq<EventView>,
}

impl RecordsView {
    /// A store that has given out no identifier and keeps no record.
    pub open spec fn fresh() -> RecordsView {
        RecordsView {
            current_id: 0,
            record_count: Map::empty(),
            patient_biodata: Map::empty(),
            patient_notes: Map::empty(),
            events: Seq::empty(),
        }
    }

    /// Whether the event at position `i` of the log, if it tells of a new
    /// patient, tells of an identifier that the store has given out, and of
    /// the account that it stands for.
    pub open spec fn event_is_backed(self, i: int) -> bool {
        self.events[i] matches EventView::NewPatient(e) ==> e.identifier is Some
            && self.identifier_of(e.id) == e.identifier
    }

    /// What holds of every store: the identifiers given out so far are
    /// exactly those from one up to the one given out last, and no event
    /// tells of a patient that the store does not keep.
    pub open spec fn valid(self) -> bool {
        &&& forall|id: HealthId| #[trigger]
            self.record_count.contains_key(id) <==> 0 < id <= self.current_id
        &&& forall|i: int| 0 <= i < self.events.len() ==> #[trigger] self.event_is_backed(i)
    }

    /// The account that `id` stands for, if `id` was given out.
    pub open spec fn identifier_of(self, id: HealthId) -> Option<AccountId> {
        if self.record_count.contains_key(id) {
            Some(self.record_count[id])
        } else {
            None
        }
    }

    /// The biodata kept for `identifier`, if there is one.
    pub open spec fn biodata_of(self, identifier: AccountId) -> Option<RecordView> {
        if self.patient_biodata.contains_key(identifier) {
            Some(self.patient_biodata[identifier])
        } else {
            None
        }
    }

    /// The clinical notes kept for `identifier`, if there are any.
    pub open spec fn notes_of(self, identifier: AccountId) -> Option<RecordView> {
        if self.patient_notes.contains_key(identifier) {
            Some(self.patient_notes[identifier])
        } else {
            None
        }
    }

    /// The outcome of creating a patient: it fails only where the
    /// identifiers are used up.
    pub open spec fn create_result(self) -> Result<(), Error> {
        match rules::next_id_outcome(self.current_id) {
            Ok(_) => Ok(()),
            Err(e) => Err(e),
        }
    }

    /// The store after a patient was created for `identifier`: with the
    /// next identifier given out to it and one creation event more where
    /// the call succeeds, unchanged where it fails.
    pub open spec fn after_create(self, identifier: AccountId) -> RecordsView {
        if self.create_result() is Ok {
            let id = (self.current_id + 1) as HealthId;
            RecordsView {
                current_id: id,
                record_count: self.record_count.insert(id, identifier),
                events: self.events.push(
                    EventView::NewPatient(NewPatient { id, identifier: Some(identifier) }),
                ),
                ..self
            }
        } else {
            self
        }
    }

    /// The store after the biodata of `identifier` was replaced by
    /// `biodata`, with one update event more that carries the new biodata.
    pub open spec fn after_update_biodata(
        self,
        identifier: AccountId,
        biodata: RecordView,
    ) -> RecordsView {
        RecordsView {
            patient_biodata: self.patient_biodata.insert(identifier, biodata),
            events: self.events.push(
                EventView::BiodataUpdate { identifier: Some(identifier), message: Some(biodata) },
            ),
            ..self
        }
    }

    /// The store after the clinical notes of `identifier` were replaced
    /// by `notes`, with one update event more that carries the new notes.
    pub open spec fn after_update_clinical_notes(
        self,
        identifier: AccountId,
        notes: RecordView,
    ) -> RecordsView {
        RecordsView {
            patient_notes: self.patient_notes.insert(identifier, notes),
            events: self.events.push(
                EventView::ClinicalNotesUpdate {
                    identifier: Some(identifier),
                    message: Some(notes),
                },
            ),
            ..self
        }
    }
}

/// A patient record store: it gives out identifiers in increasing order and
/// keeps, per account, one biodata record and one record of clinical notes.
/// It asks nobody for a permission.
pub struct EPR {
    current_id: HealthId,
    record_count: HashMap<HealthId, AccountId>,
    patient_biodata: AccountMap<Biodata>,
    patient_notes: AccountMap<ClinicalNotes>,
    events: EventLog,
}

impl View for EPR {
    type V = RecordsView;

    closed spec fn view(&self) -> RecordsView {
        RecordsView {
            current_id: self.current_id,
            record_count: self.record_count@,
            patient_biodata: self.patient_biodata@.map_values(|b: Biodata| b@),
            patient_notes: self.patient_notes@.map_values(|n: ClinicalNotes| n@),
            events: self.events@,
        }
    }
}

impl EPR {
    /// The maps that hold the records are sound.
    pub closed spec fn maps_sound(&self) -> bool {
        &&& self.patient_biodata.wf()
        &&& self.patient_notes.wf()
    }

    /// The store is sound: its maps are, and its state is valid.
    pub open spec fn wf(&self) -> bool {
        &&& self.maps_sound()
        &&& self@.valid()
    }

    /// A store that has given out no identifier, keeps no record and has
    /// recorded no event.
    pub fn new() -> (epr: EPR)
        ensures
            epr.wf(),
            epr@ == RecordsView::fresh(),
    {
        let epr = EPR {
            current_id: 0,
            record_count: HashMap::new(),
            patient_biodata: AccountMap::new(),
            patient_notes: AccountMap::new(),
            events: EventLog::new(),
        };
        proof {
            assert(epr@.patient_biodata =~= Map::<AccountId, RecordView>::empty());
            assert(epr@.patient_notes =~= Map::<AccountId, RecordView>::empty());
        }
        epr
    }

    /// The identifier given out last; zero where none was given out yet.
    pub fn current_id(&self) -> (id: HealthId)
        ensures
            id == self@.current_id,
    {
        self.current_id
    }

    /// The account that `id` stands for, or `None` where `id` was not given
    /// out.
    pub fn identifier_of(&self, id: HealthId) -> (identifier: Option<AccountId>)
        ensures
            identifier == self@.identifier_of(id),
    {
        match self.record_count.get(&id) {
            Some(identifier) => Some(*identifier),
            None => None,
        }
    }

    /// The events recorded so far, oldest first.
    pub fn events(&self) -> (log: &EventLog)
        ensures
            log@ == self@.events,
    {
        &self.events
    }

    /// Gives out the next identifier to `identifier`.
    ///
    /// Fails with `CannotFetchValue` where the identifiers are used up. On
    /// success the identifier is the one after the one given out last, and
    /// one creation event is recorded after the record was written; on
    /// failure nothing changes.
    pub fn create_patient(&mut self, identifier: AccountId) -> (r: Result<(), Error>)
        requires
            old(self).wf(),
        ensures
            final(self).wf(),
            r == old(self)@.create_result(),
            final(self)@ == old(self)@.after_create(identifier),
    {
        let ghost before = *self;
        let count = match rules::next_id(self.current_id) {
            Ok(count) => count,
            Err(e) => {
                return Err(e);
            },
        };
        self.current_id = count;
        self.record_count.insert(count, identifier);
        self.events.record(
            Event::NewPatient(NewPatient { id: count, identifier: Some(identifier) }),
        );
        proof {
            assert(self@ == before@.after_create(identifier));
            law_create_patient(before@, identifier);
        }
        Ok(())
    }

    /// Replaces the biodata of `identifier` by `biodata` as a whole, and
    /// records one update event that carries the new biodata. Always
    /// succeeds.
    pub fn update_biodata(&mut self, identifier: AccountId, biodata: Biodata) -> (r:
        Result<(), Error>)
        requires
            old(self).wf(),
        ensures
            final(self).wf(),
            r == Ok::<(), Error>(()),
            final(self)@ == old(self)@.after_update_biodata(identifier, biodata@),
    {
        let ghost before = *self;
        let kept = biodata.duplicate();
        self.patient_biodata.insert(identifier, kept);
        self.events.record(
            Event::BiodataUpdate(
                BiodataUpdate { identifier: Some(identifier), message: Some(biodata) },
            ),
        );
        proof {
            assert(self@.patient_biodata =~= before@.patient_biodata.insert(identifier, biodata@));
            assert(self@ == before@.after_update_biodata(identifier, biodata@));
            law_update_keeps_identifiers(before@, identifier, biodata@);
        }
        Ok(())
    }

    /// Replaces the clinical notes of `identifier` by `notes` as a whole,
    /// and records one update event that carries the new notes. Always
    /// succeeds.
    pub fn update_clinical_notes(&mut self, identifier: AccountId, notes: ClinicalNotes) -> (r:
        Result<(), Error>)
        requires
            old(self).wf(),
        ensures
            final(self).wf(),
            r == Ok::<(), Error>(()),
            final(self)@ == old(self)@.after_update_clinical_notes(identifier, notes@),
    {
        let ghost before = *self;
        let kept = notes.duplicate();
        self.patient_notes.insert(identifier, kept);
        self.events.record(
            Event::ClinicalNotesUpdate(
                ClinicalNotesUpdate { identifier: Some(identifier), message: Some(notes) },
            ),
        );
        proof {
            assert(self@.patient_notes =~= before@.patient_notes.insert(identifier, notes@));
            assert(self@ == before@.after_update_clinical_notes(identifier, notes@));
            law_update_keeps_identifiers(before@, identifier, notes@);
        }
        Ok(())
    }

    /// The biodata kept for `identifier`, or `None` where there is none.
    pub fn get_biodata(&self, identifier: AccountId) -> (biodata: Option<Biodata>)
        requires
            self.wf(),
        ensures
            match biodata {
                Some(b) => self@.biodata_of(identifier) == Some(b@),
                None => self@.biodata_of(identifier) is None,
            },
    {
        match self.patient_biodata.get(&identifier) {
            Some(b) => Some(b.duplicate()),
            None => None,
        }
    }

    /// The clinical notes kept for `identifier`, or `None` where there are
    /// none.
    pub fn get_clinical_notes(&self, identifier: AccountId) -> (notes: Option<ClinicalNotes>)
        requires
            self.wf(),
        ensures
            match notes {
                Some(n) => self@.notes_of(identifier) == Some(n@),
                None => self@.notes_of(identifier) is None,
            },
    {
        match self.patient_notes.get(&identifier) {
            Some(n) => Some(n.duplicate()),
            None => None,
        }
    }
}

impl Default for EPR {
    /// A store that has given out no identifier and keeps no record.
    fn default() -> (epr: EPR)
        ensures
            epr.wf(),
            epr@ == RecordsView::fresh(),
    {
        EPR::new()
    }
}

} // verus!
