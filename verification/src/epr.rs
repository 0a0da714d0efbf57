//! The permission-gated patient record registry: a record store behind an
//! access control layer, with an ownership registry at its side in which it
//! mints one token per patient.

use vstd::prelude::*;
use crate::account::AccountId;
use crate::account_map::AccountMap;
use crate::error::Error;
use crate::event::EventLog;
use crate::patient::{Patient, PatientView};
use crate::record::{Biodata, ClinicalNotes, RecordView, RecordsView, EPR};
use crate::rules;

pub use crate::event::HealthId;

verus! {

/// What an account may do with the records.
#[derive(Clone, Copy, Debug, Default, PartialEq, Eq, Structural)]
pub struct Permission {
    pub can_access: bool,
}

/// The kind of registry that stands at the side of the record store.
#[derive(Clone, Copy, Debug, PartialEq, Eq, Structural)]
pub enum Which {
    Patient,
}

/// The state of a permission-gated record registry, as plain values.
pub struct EprView {
    /// The record store behind the access control layer.
    pub records: RecordsView,
    /// The permission kept for an account, where there is one.
    pub permissions: Map<AccountId, Permission>,
    /// The ownership registry in which a token is minted per patient.
    pub patient: PatientView,
    /// The account under which this registry calls the ownership registry.
    pub account: AccountId,
    /// The one account that may grant and withdraw permissions; `None`
    /// where any account may.
    pub admin: Option<AccountId>,
}

impl EprView {
    /// A registry under `account` that keeps no record and no permission,
    /// lets any account grant permissions, and mints in `patient`.
    pub open spec fn fresh(account: AccountId, patient: PatientView) -> EprView {
        EprView {
            records: RecordsView::fresh(),
            permissions: Map::empty(),
            patient,
            account,
            admin: None,
        }
    }

    /// What holds of every registry: its record store and its ownership
    /// registry are valid.
    pub open spec fn valid(self) -> bool {
        &&& self.records.valid()
        &&& self.patient.valid()
    }

    /// The permission kept for `subject`, if there is one.
    pub open spec fn permission_of(self, subject: AccountId) -> Option<Permission> {
        if self.permissions.contains_key(subject) {
            Some(self.permissions[subject])
        } else {
            None
        }
    }

    /// Whether `subject` may read and write records: its permission is kept
    /// and grants access. An account without a kept permission may not.
    pub open spec fn check_permission(self, subject: AccountId) -> bool {
        rules::access_outcome(self.permission_of(subject)) is Ok
    }

    /// The outcome of `caller` setting a permission.
    pub open spec fn grant_result(self, caller: AccountId) -> Result<(), Error> {
        rules::grant_outcome(self.admin, caller)
    }

    /// The registry after `caller` called for the permission of `user` to
    /// be set: with the permission in place of any earlier one where the
    /// call succeeds, unchanged where it fails.
    pub open spec fn after_grant(
        self,
        caller: AccountId,
        user: AccountId,
        can_access: bool,
    ) -> EprView {
        if self.grant_result(caller) is Ok {
            EprView {
                permissions: self.permissions.insert(user, Permission { can_access }),
                ..self
            }
        } else {
            self
        }
    }

    /// The token that stands for the next patient.
    pub open spec fn next_token(self) -> HealthId {
        (self.records.current_id + 1) as HealthId
    }

    /// The outcome of `requester` creating a patient: denied without
    /// access; failed where the identifiers are used up; else what minting
    /// the next patient's token gives.
    pub open spec fn create_result(self, requester: AccountId) -> Result<(), Error> {
        if !self.check_permission(requester) {
            Err(Error::PermissionDenied)
        } else if self.records.create_result() is Err {
            self.records.create_result()
        } else {
            self.patient.mint_result(self.account, self.next_token())
        }
    }

    /// The registry after `requester` called for a patient to be created
    /// for `identifier`: with the next identifier given out and its token
    /// minted where the call succeeds, unchanged where it fails.
    pub open spec fn after_create(self, requester: AccountId, identifier: AccountId) -> EprView {
        if self.create_result(requester) is Ok {
            EprView {
                records: self.records.after_create(identifier),
                patient: self.patient.after_mint(self.account, self.next_token()),
                ..self
            }
        } else {
            self
        }
    }

    /// The outcome of `requester` replacing a record: denied without
    /// access.
    pub open spec fn update_result(self, requester: AccountId) -> Result<(), Error> {
        rules::access_outcome(self.permission_of(requester))
    }

    /// The registry after `requester` called for the biodata of
    /// `identifier` to be replaced: with the new biodata where the call
    /// succeeds, unchanged where it fails.
    pub open spec fn after_update_biodata(
        self,
        requester: AccountId,
        identifier: AccountId,
        biodata: RecordView,
    ) -> EprView {
        if self.update_result(requester) is Ok {
            EprView { records: self.records.after_update_biodata(identifier, biodata), ..self }
        } else {
            self
        }
    }

    /// The registry after `requester` called for the clinical notes of
    /// `identifier` to be replaced: with the new notes where the call
    /// succeeds, unchanged where it fails.
    pub open spec fn after_update_clinical_notes(
        self,
        requester: AccountId,
        identifier: AccountId,
        notes: RecordView,
    ) -> EprView {
        if self.update_result(requester) is Ok {
            EprView { records: self.records.after_update_clinical_notes(identifier, notes), ..self }
        } else {
            self
        }
    }

    /// What `requester` gets when it asks for the biodata of `identifier`:
    /// the record where the requester has access and the record exists,
    /// nothing otherwise.
    pub open spec fn get_biodata(
        self,
        requester: AccountId,
        identifier: AccountId,
    ) -> Option<RecordView> {
        if self.check_permission(requester) {
            self.records.biodata_of(identifier)
        } else {
            None
        }
    }

    /// What `requester` gets when it asks for the clinical notes of
    /// `identifier`: the record where the requester has access and the
    /// record exists, nothing otherwise.
    pub open spec fn get_clinical_notes(
        self,
        requester: AccountId,
        identifier: AccountId,
    ) -> Option<RecordView> {
        if self.check_permission(requester) {
            self.records.notes_of(identifier)
        } else {
            None
        }
    }
}

/// A permission-gated patient record registry.
pub struct Epr {
    records: EPR,
    permissions: AccountMap<Permission>,
    patient: Patient,
    which: Which,
    account: AccountId,
    admin: Option<AccountId>,
}

impl View for Epr {
    type V = EprView;

    closed spec fn view(&self) -> EprView {
        EprView {
            records: self.records@,
            permissions: self.permissions@,
            patient: self.patient@,
            account: self.account,
            admin: self.admin,
        }
    }
}

impl Epr {
    /// The parts of the registry are sound.
    pub closed spec fn parts_sound(&self) -> bool {
        &&& self.records.wf()
        &&& self.permissions.wf()
        &&& self.patient.wf()
    }

    /// The registry is sound: its parts are, and its state is valid.
    pub open spec fn wf(&self) -> bool {
        &&& self.parts_sound()
        &&& self@.valid()
    }

    /// A registry under `account` that keeps no record and no permission,
    /// lets any account grant permissions, and mints one token per patient
    /// in `patient`.
    pub fn new(account: AccountId, patient: Patient) -> (epr: Epr)
        requires
            patient.wf(),
        ensures
            epr.wf(),
            epr@ == EprView::fresh(account, patient@),
    {
        Epr {
            records: EPR::new(),
            permissions: AccountMap::new(),
            patient,
            which: Which::Patient,
            account,
            admin: None,
        }
    }

    /// The same registry, in which `admin` alone may grant and withdraw
    /// permissions.
    pub fn require_admin_for_permission_grant(self, admin: AccountId) -> (epr: Epr)
        requires
            self.wf(),
        ensures
            epr.wf(),
            epr@ == (EprView { admin: Some(admin), ..self@ }),
    {
        let mut epr = self;
        epr.admin = Some(admin);
        epr
    }

    /// The one account that may grant and withdraw permissions; `None`
    /// where any account may.
    pub fn admin(&self) -> (admin: Option<AccountId>)
        ensures
            admin == self@.admin,
    {
        self.admin
    }

    /// The account under which this registry calls the ownership registry.
    pub fn account(&self) -> (account: AccountId)
        ensures
            account == self@.account,
    {
        self.account
    }

    /// The kind of registry that stands at the side of the record store.
    pub fn which(&self) -> (which: Which)
        ensures
            which == Which::Patient,
    {
        self.which
    }

    /// The ownership registry in which a token is minted per patient.
    pub fn patient(&self) -> (patient: &Patient)
        requires
            self.wf(),
        ensures
            patient.wf(),
            patient@ == self@.patient,
    {
        &self.patient
    }

    /// The identifier given out last; zero where none was given out yet.
    pub fn current_id(&self) -> (id: HealthId)
        ensures
            id == self@.records.current_id,
    {
        self.records.current_id()
    }

    /// The account that `id` stands for, or `None` where `id` was not given
    /// out.
    pub fn identifier_of(&self, id: HealthId) -> (identifier: Option<AccountId>)
        ensures
            identifier == self@.records.identifier_of(id),
    {
        self.records.identifier_of(id)
    }

    /// The events that the record store recorded so far, oldest first.
    pub fn events(&self) -> (log: &EventLog)
        ensures
            log@ == self@.records.events,
    {
        self.records.events()
    }

    /// The name of the token collection of the ownership registry.
    pub fn get(&self) -> (name: String)
        ensures
            name@ == self@.patient.name,
    {
        self.patient.name()
    }

    /// The permission kept for `subject`, if there is one.
    fn permission_of(&self, subject: &AccountId) -> (permission: Option<Permission>)
        requires
            self.wf(),
        ensures
            permission == self@.permission_of(*subject),
    {
        match self.permissions.get(subject) {
            Some(permission) => Some(*permission),
            None => None,
        }
    }

    /// Whether `subject` may read and write records.
    pub fn check_permission(&self, subject: AccountId) -> (allowed: bool)
        requires
            self.wf(),
        ensures
            allowed == self@.check_permission(subject),
    {
        rules::check_access(self.permission_of(&subject)).is_ok()
    }

    /// Sets the permission of `user`, in place of any earlier one.
    ///
    /// Where an administrator is named, fails with `PermissionDenied`
    /// unless the caller is that administrator; otherwise succeeds for
    /// every caller. Records no event; on failure nothing changes.
    pub fn add_user_with_permissions(
        &mut self,
        caller: AccountId,
        user: AccountId,
        can_access: bool,
    ) -> (r: Result<(), Error>)
        requires
            old(self).wf(),
        ensures
            final(self).wf(),
            r == old(self)@.grant_result(caller),
            final(self)@ == old(self)@.after_grant(caller, user, can_access),
    {
        match rules::check_grant(self.admin, &caller) {
            Ok(()) => {},
            Err(e) => {
                return Err(e);
            },
        }
        let new_permission = Permission { can_access };
        self.permissions.insert(user, new_permission);
        Ok(())
    }

    /// Creates a patient for `identifier`: gives out the next identifier to
    /// it and mints the token of that number in the ownership registry,
    /// under this registry's own account.
    ///
    /// Fails with `PermissionDenied` where `requester` has no access, with
    /// `CannotFetchValue` where the identifiers are used up, and with what
    /// the mint reports where the mint fails. On success one creation event
    /// is recorded after the record was written; on failure nothing
    /// changes, in neither registry.
    pub fn create_patient(&mut self, requester: AccountId, identifier: AccountId) -> (r:
        Result<(), Error>)
        requires
            old(self).wf(),
        ensures
            final(self).wf(),
            r == old(self)@.create_result(requester),
            final(self)@ == old(self)@.after_create(requester, identifier),
    {
        match rules::check_access(self.permission_of(&requester)) {
            Ok(()) => {},
            Err(e) => {
                return Err(e);
            },
        }
        let count = match rules::next_id(self.records.current_id()) {
            Ok(count) => count,
            Err(e) => {
                return Err(e);
            },
        };
        match self.patient.mint(self.account, count) {
            Ok(()) => {},
            Err(e) => {
                return Err(e);
            },
        }
        let created = self.records.create_patient(identifier);
        assert(created is Ok);
        Ok(())
    }

    /// Replaces the biodata of `identifier` by `biodata` as a whole.
    ///
    /// Fails with `PermissionDenied` where `requester` has no access. On
    /// success one update event that carries the new biodata is recorded; on
    /// failure nothing changes.
    pub fn update_biodata(
        &mut self,
        requester: AccountId,
        identifier: AccountId,
        biodata: Biodata,
    ) -> (r: Result<(), Error>)
        requires
            old(self).wf(),
        ensures
            final(self).wf(),
            r == old(self)@.update_result(requester),
            final(self)@ == old(self)@.after_update_biodata(requester, identifier, biodata@),
    {
        match rules::check_access(self.permission_of(&requester)) {
            Ok(()) => {},
            Err(e) => {
                return Err(e);
            },
        }
        self.records.update_biodata(identifier, biodata)
    }

    /// Replaces the clinical notes of `identifier` by `notes` as a whole.
    ///
    /// Fails with `PermissionDenied` where `requester` has no access. On
    /// success one update event that carries the new notes is recorded; on
    /// failure nothing changes.
    pub fn update_clinical_notes(
        &mut self,
        requester: AccountId,
        identifier: AccountId,
        notes: ClinicalNotes,
    ) -> (r: Result<(), Error>)
        requires
            old(self).wf(),
        ensures
            final(self).wf(),
            r == old(self)@.update_result(requester),
            final(self)@ == old(self)@.after_update_clinical_notes(requester, identifier, notes@),
    {
        match rules::check_access(self.permission_of(&requester)) {
            Ok(()) => {},
            Err(e) => {
                return Err(e);
            },
        }
        self.records.update_clinical_notes(identifier, notes)
    }

    /// The biodata kept for `identifier`, where `requester` has access and
    /// the record exists; `None` otherwise, so that a requester without
    /// access learns nothing, not even whether a record exists.
    pub fn get_biodata(&self, requester: AccountId, identifier: AccountId) -> (biodata:
        Option<Biodata>)
        requires
            self.wf(),
        ensures
            match biodata {
                Some(b) => self@.get_biodata(requester, identifier) == Some(b@),
                None => self@.get_biodata(requester, identifier) is None,
            },
    {
        if self.check_permission(requester) {
            self.records.get_biodata(identifier)
        } else {
            None
        }
    }

    /// The clinical notes kept for `identifier`, where `requester` has
    /// access and the record exists; `None` otherwise.
    pub fn get_clinical_notes(&self, requester: AccountId, identifier: AccountId) -> (notes:
        Option<ClinicalNotes>)
        requires
            self.wf(),
        ensures
            match notes {
                Some(n) => self@.get_clinical_notes(requester, identifier) == Some(n@),
                None => self@.get_clinical_notes(requester, identifier) is None,
            },
    {
        if self.check_permission(requester) {
            self.records.get_clinical_notes(identifier)
        } else {
            None
        }
    }
}

} // verus!
