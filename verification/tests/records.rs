use healthdot::{
    AccountId, Biodata, BiodataUpdate, ClinicalNotes, ClinicalNotesUpdate, Epr, Error, Event,
    NewPatient, Patient, Permission, Transfer, Which, EPR,
};

fn account(byte: u8) -> AccountId {
    AccountId::from([byte; 32])
}

fn john_biodata() -> Biodata {
    Biodata {
        name: "John Doe".to_string(),
        details: "biodata_hash".to_string(),
        finalized: true,
        vector: vec![1, 2, 3, 4, 5],
    }
}

fn john_notes() -> ClinicalNotes {
    ClinicalNotes {
        name: "John Doe".to_string(),
        details: "notes_hash".to_string(),
        finalized: true,
        vector: vec![6, 7, 8, 9, 10],
    }
}

fn guarded() -> Epr {
    Epr::new(
        account(0xEE),
        Patient::new(String::from("HealthDOT"), String::from("HDOT")),
    )
}

#[test]
fn create_patient_works() {
    let mut epr = EPR::new();
    let patient = AccountId::from([0x01; 32]);
    assert_eq!(epr.create_patient(patient), Ok(()));
    // We assert that a patient record is created with the provided AccountId
    // and the patient's id is stored in the contract.
    assert_eq!(epr.identifier_of(1), Some(patient));
}

#[test]
fn create_patient_increments_current_id() {
    let mut epr = EPR::new();
    let patient = AccountId::from([0x01; 32]);
    epr.create_patient(patient).unwrap();
    assert_eq!(epr.current_id(), 1);
}

#[test]
fn update_and_retrieve_biodata_works() {
    let mut epr = EPR::new();
    let patient = AccountId::from([0x01; 32]);
    epr.create_patient(patient).unwrap();
    let new_biodata = Biodata {
        name: "John Doe".to_string(),
        details: "biodata_hash".to_string(),
        finalized: true,
        vector: vec![1, 2, 3, 4, 5],
    };
    assert_eq!(epr.update_biodata(patient, new_biodata), Ok(()));
    assert_eq!(epr.get_biodata(patient), Some(john_biodata()));
}

#[test]
fn update_and_retrieve_clinical_notes_works() {
    let mut epr = EPR::new();
    let patient = AccountId::from([0x01; 32]);
    epr.create_patient(patient).unwrap();
    let new_notes = ClinicalNotes {
        name: "John Doe".to_string(),
        details: "notes_hash".to_string(),
        finalized: true,
        vector: vec![6, 7, 8, 9, 10],
    };
    assert_eq!(epr.update_clinical_notes(patient, new_notes), Ok(()));
    assert_eq!(epr.get_clinical_notes(patient), Some(john_notes()));
}

#[test]
fn fresh_store_is_empty() {
    let epr = EPR::new();
    assert_eq!(epr.current_id(), 0);
    assert_eq!(epr.identifier_of(0), None);
    assert_eq!(epr.identifier_of(1), None);
    assert_eq!(epr.get_biodata(account(1)), None);
    assert_eq!(epr.get_clinical_notes(account(1)), None);
    assert!(epr.events().is_empty());
}

#[test]
fn identifiers_rise_by_one() {
    let mut epr = EPR::new();
    for n in 1..=25u32 {
        let who = account(n as u8);
        assert_eq!(epr.identifier_of(n), None);
        assert_eq!(epr.create_patient(who), Ok(()));
        assert_eq!(epr.current_id(), n);
        assert_eq!(epr.identifier_of(n), Some(who));
        assert_eq!(
            epr.events().get((n - 1) as usize),
            Some(&Event::NewPatient(NewPatient {
                id: n,
                identifier: Some(who)
            }))
        );
    }
    assert_eq!(epr.current_id(), 25);
    assert_eq!(epr.events().len(), 25);
    for n in 1..=25u32 {
        assert_eq!(epr.identifier_of(n), Some(account(n as u8)));
    }
    assert_eq!(epr.identifier_of(0), None);
    assert_eq!(epr.identifier_of(26), None);
}

#[test]
fn same_account_gets_a_new_identifier_each_time() {
    let mut epr = EPR::new();
    assert_eq!(epr.create_patient(account(1)), Ok(()));
    assert_eq!(epr.create_patient(account(1)), Ok(()));
    assert_eq!(epr.current_id(), 2);
    assert_eq!(epr.identifier_of(1), Some(account(1)));
    assert_eq!(epr.identifier_of(2), Some(account(1)));
}

#[test]
fn update_replaces_the_whole_record() {
    let mut epr = EPR::new();
    let who = account(1);
    assert_eq!(epr.update_biodata(who, john_biodata()), Ok(()));
    let second = Biodata {
        name: String::new(),
        details: "other".to_string(),
        finalized: false,
        vector: Vec::new(),
    };
    assert_eq!(epr.update_biodata(who, second.clone()), Ok(()));
    assert_eq!(epr.get_biodata(who), Some(second.clone()));
    assert_eq!(epr.get_biodata(account(2)), None);
    assert_eq!(epr.get_clinical_notes(who), None);
    // A record needs no identifier, and a finalized one can be replaced.
    assert_eq!(epr.current_id(), 0);
    assert_eq!(epr.events().len(), 2);
    assert_eq!(
        epr.events().get(0),
        Some(&Event::BiodataUpdate(BiodataUpdate {
            identifier: Some(who),
            message: Some(john_biodata())
        }))
    );
    assert_eq!(
        epr.events().get(1),
        Some(&Event::BiodataUpdate(BiodataUpdate {
            identifier: Some(who),
            message: Some(second)
        }))
    );
}

#[test]
fn notes_and_biodata_are_kept_apart() {
    let mut epr = EPR::new();
    let who = account(1);
    assert_eq!(epr.update_clinical_notes(who, john_notes()), Ok(()));
    assert_eq!(epr.get_biodata(who), None);
    assert_eq!(epr.get_clinical_notes(who), Some(john_notes()));
    assert_eq!(
        epr.events().get(0),
        Some(&Event::ClinicalNotesUpdate(ClinicalNotesUpdate {
            identifier: Some(who),
            message: Some(john_notes())
        }))
    );
    assert_eq!(john_biodata().duplicate(), john_biodata());
    assert_eq!(john_notes().duplicate(), john_notes());
}

#[test]
fn fresh_guard_grants_nothing() {
    let epr = guarded();
    assert_eq!(epr.current_id(), 0);
    assert_eq!(epr.account(), account(0xEE));
    assert_eq!(epr.admin(), None);
    assert_eq!(epr.which(), Which::Patient);
    assert_eq!(epr.get(), "HealthDOT");
    assert!(!epr.check_permission(account(1)));
    assert!(!epr.check_permission(account(0xEE)));
    assert!(epr.events().is_empty());
    assert!(epr.patient().events().is_empty());
    assert_eq!(Permission::default(), Permission { can_access: false });
}

#[test]
fn requester_without_access_gets_nothing() {
    let mut epr = guarded();
    let doctor = account(1);
    let stranger = account(2);
    let denied = account(3);
    let who = account(9);
    assert_eq!(epr.add_user_with_permissions(doctor, doctor, true), Ok(()));
    assert_eq!(epr.add_user_with_permissions(doctor, denied, false), Ok(()));
    assert_eq!(epr.update_biodata(doctor, who, john_biodata()), Ok(()));
    assert_eq!(epr.update_clinical_notes(doctor, who, john_notes()), Ok(()));
    // The records exist.
    assert_eq!(epr.get_biodata(doctor, who), Some(john_biodata()));
    assert_eq!(epr.get_clinical_notes(doctor, who), Some(john_notes()));
    // No permission entry.
    assert_eq!(epr.get_biodata(stranger, who), None);
    assert_eq!(epr.get_clinical_notes(stranger, who), None);
    // An entry that grants nothing.
    assert_eq!(epr.get_biodata(denied, who), None);
    assert_eq!(epr.get_clinical_notes(denied, who), None);
    // The patient itself has no access either.
    assert_eq!(epr.get_biodata(who, who), None);
    // With access, a missing record is missing.
    assert_eq!(epr.get_biodata(doctor, doctor), None);
}

#[test]
fn writes_without_access_are_denied() {
    let mut epr = guarded();
    let doctor = account(1);
    let denied = account(3);
    let who = account(9);
    assert_eq!(epr.add_user_with_permissions(doctor, doctor, true), Ok(()));
    assert_eq!(epr.add_user_with_permissions(doctor, denied, false), Ok(()));
    for requester in [denied, account(4)] {
        assert_eq!(
            epr.create_patient(requester, who),
            Err(Error::PermissionDenied)
        );
        assert_eq!(
            epr.update_biodata(requester, who, john_biodata()),
            Err(Error::PermissionDenied)
        );
        assert_eq!(
            epr.update_clinical_notes(requester, who, john_notes()),
            Err(Error::PermissionDenied)
        );
    }
    assert_eq!(epr.current_id(), 0);
    assert_eq!(epr.identifier_of(1), None);
    assert_eq!(epr.get_biodata(doctor, who), None);
    assert_eq!(epr.get_clinical_notes(doctor, who), None);
    assert!(epr.events().is_empty());
    assert!(epr.patient().events().is_empty());
    assert_eq!(epr.patient().owner_of(1), None);
}

#[test]
fn permission_can_be_withdrawn() {
    let mut epr = guarded();
    let doctor = account(1);
    assert_eq!(epr.add_user_with_permissions(doctor, doctor, true), Ok(()));
    assert!(epr.check_permission(doctor));
    assert_eq!(epr.add_user_with_permissions(account(5), doctor, false), Ok(()));
    assert!(!epr.check_permission(doctor));
    assert_eq!(
        epr.update_biodata(doctor, doctor, john_biodata()),
        Err(Error::PermissionDenied)
    );
}

#[test]
fn only_the_administrator_grants() {
    let admin = account(0xAD);
    let doctor = account(1);
    let mut epr = guarded().require_admin_for_permission_grant(admin);
    assert_eq!(epr.admin(), Some(admin));
    assert_eq!(
        epr.add_user_with_permissions(doctor, doctor, true),
        Err(Error::PermissionDenied)
    );
    assert!(!epr.check_permission(doctor));
    assert_eq!(epr.add_user_with_permissions(admin, doctor, true), Ok(()));
    assert!(epr.check_permission(doctor));
    // Granting to others does not give the administrator access.
    assert!(!epr.check_permission(admin));
}

#[test]
fn guarded_create_patient_mints_a_token() {
    let mut epr = guarded();
    let doctor = account(1);
    assert_eq!(epr.add_user_with_permissions(doctor, doctor, true), Ok(()));
    for n in 1..=3u32 {
        let who = account(10 + n as u8);
        assert_eq!(epr.create_patient(doctor, who), Ok(()));
        assert_eq!(epr.current_id(), n);
        assert_eq!(epr.identifier_of(n), Some(who));
        assert_eq!(epr.patient().owner_of(n), Some(account(0xEE)));
        assert_eq!(epr.patient().balance_of(account(0xEE)), n);
    }
    assert_eq!(epr.events().len(), 3);
    assert_eq!(
        epr.events().get(2),
        Some(&Event::NewPatient(NewPatient {
            id: 3,
            identifier: Some(account(13))
        }))
    );
    assert_eq!(epr.patient().events().len(), 3);
    assert_eq!(
        epr.patient().events().get(0),
        Some(&Event::Transfer(Transfer {
            from: None,
            to: Some(account(0xEE)),
            token_id: 1
        }))
    );
}

#[test]
fn failed_mint_aborts_create_patient() {
    let doctor = account(1);
    // The token of the first patient exists already.
    let mut taken = Patient::new(String::from("HealthDOT"), String::from("HDOT"));
    assert_eq!(taken.mint(account(7), 1), Ok(()));
    let mut epr = Epr::new(account(0xEE), taken);
    assert_eq!(epr.add_user_with_permissions(doctor, doctor, true), Ok(()));
    assert_eq!(epr.create_patient(doctor, account(9)), Err(Error::TokenExists));
    assert_eq!(epr.current_id(), 0);
    assert_eq!(epr.identifier_of(1), None);
    assert!(epr.events().is_empty());
    assert_eq!(epr.patient().owner_of(1), Some(account(7)));
    assert_eq!(epr.patient().events().len(), 1);
    // A registry without an account of its own cannot mint.
    let mut nobody = Epr::new(
        AccountId::zero(),
        Patient::new(String::from("HealthDOT"), String::from("HDOT")),
    );
    assert_eq!(nobody.add_user_with_permissions(doctor, doctor, true), Ok(()));
    assert_eq!(nobody.create_patient(doctor, account(9)), Err(Error::NotAllowed));
    assert_eq!(nobody.current_id(), 0);
    assert!(nobody.events().is_empty());
    assert!(nobody.patient().events().is_empty());
}
