//! What holds of the patient record store and of the permission-gated
//! registry across calls.

use vstd::prelude::*;
use crate::account::AccountId;
use crate::epr::{EprView, Permission};
use crate::error::Error;
use crate::event::{EventView, HealthId, NewPatient};
use crate::patient_laws::{law_valid_is_kept, Call};
use crate::record::{RecordView, RecordsView};

verus! {

impl RecordsView {
    /// The store after one patient was created for each account of `who`,
    /// one after the other.
    pub open spec fn after_creates(self, who: Seq<AccountId>) -> RecordsView
        decreases who.len(),
    {
        if who.len() == 0 {
            self
        } else {
            self.after_creates(who.drop_last()).after_create(who.last())
        }
    }
}

/// A fresh store is valid and has given out no identifier.
pub proof fn law_fresh_store()
    ensures
        RecordsView::fresh().valid(),
        RecordsView::fresh().current_id == 0,
        forall|id: HealthId| #[trigger] RecordsView::fresh().identifier_of(id) is None,
{
}

/// Creating a patient gives out the identifier after the one given out
/// last, to the account named, keeps every identifier given out before, and
/// records exactly one event; and it leaves a valid store valid.
pub proof fn law_create_patient(s: RecordsView, identifier: AccountId)
    requires
        s.valid(),
        s.create_result() is Ok,
    ensures
        s.after_create(identifier).valid(),
        s.after_create(identifier).current_id == s.current_id + 1,
        s.identifier_of((s.current_id + 1) as HealthId) is None,
        s.after_create(identifier).identifier_of((s.current_id + 1) as HealthId) == Some(
            identifier,
        ),
        forall|id: HealthId|
            id != s.current_id + 1 ==> #[trigger] s.after_create(identifier).identifier_of(id)
                == s.identifier_of(id),
        s.after_create(identifier).events == s.events.push(
            EventView::NewPatient(
                NewPatient { id: (s.current_id + 1) as HealthId, identifier: Some(identifier) },
            ),
        ),
{
    let t = s.after_create(identifier);
    assert forall|id: HealthId| #[trigger]
        t.record_count.contains_key(id) <==> 0 < id <= t.current_id by {
        assert(s.record_count.contains_key(id) <==> 0 < id <= s.current_id);
    }
    assert(!s.record_count.contains_key((s.current_id + 1) as HealthId));
    assert forall|i: int| 0 <= i < t.events.len() implies #[trigger] t.event_is_backed(i) by {
        if i < s.events.len() {
            assert(s.event_is_backed(i));
            assert(t.events[i] == s.events[i]);
            if let EventView::NewPatient(e) = s.events[i] {
                assert(s.record_count.contains_key(e.id));
            }
        }
    }
}

/// Replacing a record leaves the identifiers as they are and a valid store
/// valid.
pub proof fn law_update_keeps_identifiers(
    s: RecordsView,
    identifier: AccountId,
    record: RecordView,
)
    requires
        s.valid(),
    ensures
        s.after_update_biodata(identifier, record).valid(),
        s.after_update_clinical_notes(identifier, record).valid(),
        s.after_update_biodata(identifier, record).current_id == s.current_id,
        s.after_update_clinical_notes(identifier, record).current_id == s.current_id,
        s.after_update_biodata(identifier, record).record_count == s.record_count,
        s.after_update_clinical_notes(identifier, record).record_count == s.record_count,
        s.after_update_biodata(identifier, record).biodata_of(identifier) == Some(record),
        s.after_update_clinical_notes(identifier, record).notes_of(identifier) == Some(record),
{
    let t = s.after_update_biodata(identifier, record);
    assert forall|id: HealthId| #[trigger]
        t.record_count.contains_key(id) <==> 0 < id <= t.current_id by {
        assert(s.record_count.contains_key(id) <==> 0 < id <= s.current_id);
    }
    assert forall|i: int| 0 <= i < t.events.len() implies #[trigger] t.event_is_backed(i) by {
        if i < s.events.len() {
            assert(s.event_is_backed(i));
            assert(t.events[i] == s.events[i]);
        }
    }
    let u = s.after_update_clinical_notes(identifier, record);
    assert forall|id: HealthId| #[trigger]
        u.record_count.contains_key(id) <==> 0 < id <= u.current_id by {
        assert(s.record_count.contains_key(id) <==> 0 < id <= s.current_id);
    }
    assert forall|i: int| 0 <= i < u.events.len() implies #[trigger] u.event_is_backed(i) by {
        if i < s.events.len() {
            assert(s.event_is_backed(i));
            assert(u.events[i] == s.events[i]);
        }
    }
}

/// Patients created one after the other get identifiers that rise by one
/// each: while identifiers are left, every call succeeds, the call at
/// position `k` gives out the identifier `k + 1` places after the one that
/// the store had given out last, and after all calls the counter stands as
/// many places further as there were calls. Identifiers given out before
/// stay with their accounts.
pub proof fn law_create_patient_sequence(s: RecordsView, who: Seq<AccountId>)
    requires
        s.valid(),
        s.current_id + who.len() <= u32::MAX,
    ensures
        s.after_creates(who).valid(),
        s.after_creates(who).current_id == s.current_id + who.len(),
        s.after_creates(who).events.len() == s.events.len() + who.len(),
        forall|k: int|
            0 <= k < who.len() ==> {
                &&& (#[trigger] s.after_creates(who.take(k))).create_result() is Ok
                &&& s.after_creates(who.take(k)).current_id == s.current_id + k
            },
        forall|k: int|
            0 <= k < who.len() ==> s.after_creates(who).identifier_of(
                (s.current_id + k + 1) as HealthId,
            ) == Some(#[trigger] who[k]),
        forall|id: HealthId|
            id <= s.current_id ==> #[trigger] s.after_creates(who).identifier_of(id)
                == s.identifier_of(id),
    decreases who.len(),
{
    if who.len() > 0 {
        let earlier = who.drop_last();
        let before = s.after_creates(earlier);
        law_create_patient_sequence(s, earlier);
        law_create_patient(before, who.last());
        let after = s.after_creates(who);
        assert forall|k: int| 0 <= k < who.len() implies {
            &&& (#[trigger] s.after_creates(who.take(k))).create_result() is Ok
            &&& s.after_creates(who.take(k)).current_id == s.current_id + k
        } by {
            if k < earlier.len() {
                assert(earlier.take(k) =~= who.take(k));
            } else {
                assert(who.take(k) =~= earlier);
            }
        }
        assert forall|k: int| 0 <= k < who.len() implies after.identifier_of(
            (s.current_id + k + 1) as HealthId,
        ) == Some(#[trigger] who[k]) by {
            if k < earlier.len() {
                assert(earlier[k] == who[k]);
                assert(before.identifier_of((s.current_id + k + 1) as HealthId) == Some(
                    earlier[k],
                ));
            }
        }
        assert forall|id: HealthId| id <= s.current_id implies #[trigger] after.identifier_of(id)
            == s.identifier_of(id) by {
            assert(before.identifier_of(id) == s.identifier_of(id));
        }
    } else {
        assert(who.take(0) =~= who);
    }
}

/// Starting from a fresh store, as many patients created as `who` names
/// leave the counter at exactly that number, and the call at position `k`
/// gave out the identifier `k + 1`.
pub proof fn law_counter_counts_patients(who: Seq<AccountId>)
    requires
        who.len() <= u32::MAX,
    ensures
        RecordsView::fresh().after_creates(who).current_id == who.len(),
        forall|k: int|
            0 <= k < who.len() ==> RecordsView::fresh().after_creates(who).identifier_of(
                (k + 1) as HealthId,
            ) == Some(#[trigger] who[k]),
{
    law_create_patient_sequence(RecordsView::fresh(), who);
}

/// An account whose permission is not kept, or is kept and grants no
/// access, has no access.
pub proof fn law_access_needs_permission(s: EprView, subject: AccountId)
    ensures
        s.check_permission(subject) <==> s.permission_of(subject) == Some(
            Permission { can_access: true },
        ),
        !s.permissions.contains_key(subject) ==> !s.check_permission(subject),
{
}

/// A requester without access gets no record, whether one exists or not,
/// and cannot create a patient or replace a record: those calls fail with
/// `PermissionDenied` and change nothing.
pub proof fn law_no_access_no_records(
    s: EprView,
    requester: AccountId,
    identifier: AccountId,
    record: RecordView,
)
    requires
        !s.check_permission(requester),
    ensures
        s.get_biodata(requester, identifier) is None,
        s.get_clinical_notes(requester, identifier) is None,
        s.create_result(requester) == Err::<(), Error>(Error::PermissionDenied),
        s.update_result(requester) == Err::<(), Error>(Error::PermissionDenied),
        s.after_create(requester, identifier) == s,
        s.after_update_biodata(requester, identifier, record) == s,
        s.after_update_clinical_notes(requester, identifier, record) == s,
{
}

/// A requester with access gets exactly what the record store keeps.
pub proof fn law_access_gives_records(s: EprView, requester: AccountId, identifier: AccountId)
    requires
        s.check_permission(requester),
    ensures
        s.get_biodata(requester, identifier) == s.records.biodata_of(identifier),
        s.get_clinical_notes(requester, identifier) == s.records.notes_of(identifier),
{
}

/// A permission that was set is the one that the account then has, and
/// every other account keeps its permission.
pub proof fn law_grant(s: EprView, caller: AccountId, user: AccountId, can_access: bool)
    requires
        s.grant_result(caller) is Ok,
    ensures
        s.after_grant(caller, user, can_access).check_permission(user) == can_access,
        forall|other: AccountId|
            other != user ==> #[trigger] s.after_grant(caller, user, can_access).permission_of(
                other,
            ) == s.permission_of(other),
        s.after_grant(caller, user, can_access).records == s.records,
        s.after_grant(caller, user, can_access).patient == s.patient,
{
}

/// A patient created by a requester with access gets the identifier after
/// the one given out last, and the token of that number is minted for the
/// registry's own account; the registry stays valid.
pub proof fn law_guarded_create_patient(s: EprView, requester: AccountId, identifier: AccountId)
    requires
        s.valid(),
        s.create_result(requester) is Ok,
    ensures
        s.after_create(requester, identifier).valid(),
        s.after_create(requester, identifier).records.current_id == s.records.current_id + 1,
        s.after_create(requester, identifier).records.identifier_of(s.next_token()) == Some(
            identifier,
        ),
        s.after_create(requester, identifier).patient.owner_of(s.next_token()) == Some(s.account),
        s.after_create(requester, identifier).permissions == s.permissions,
{
    law_create_patient(s.records, identifier);
    law_valid_is_kept(s.patient, Call::Mint { caller: s.account, id: s.next_token() });
}

/// Every call on the guarded registry leaves a valid registry valid.
pub proof fn law_guard_keeps_valid(
    s: EprView,
    caller: AccountId,
    identifier: AccountId,
    record: RecordView,
    can_access: bool,
)
    requires
        s.valid(),
    ensures
        s.after_grant(caller, identifier, can_access).valid(),
        s.after_create(caller, identifier).valid(),
        s.after_update_biodata(caller, identifier, record).valid(),
        s.after_update_clinical_notes(caller, identifier, record).valid(),
{
    if s.create_result(caller) is Ok {
        law_guarded_create_patient(s, caller, identifier);
    }
    law_update_keeps_identifiers(s.records, identifier, record);
}

} // verus!
