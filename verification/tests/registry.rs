use healthdot::{AccountId, Error, Event, HealthDot, Patient, Transfer};
use ink::env::test::default_accounts;
use ink::env::DefaultEnvironment;

/// The account that the host's test setting calls from.
fn alice() -> AccountId {
    let accounts = default_accounts::<DefaultEnvironment>();
    let bytes: &[u8; 32] = accounts.alice.as_ref();
    AccountId::from(*bytes)
}

fn bob() -> AccountId {
    let accounts = default_accounts::<DefaultEnvironment>();
    let bytes: &[u8; 32] = accounts.bob.as_ref();
    AccountId::from(*bytes)
}

fn new_patient() -> Patient {
    Patient::new(String::from("HealthDot"), String::from("HDOT"))
}

#[test]
fn lib_mint_works() {
    let mut patient = new_patient();
    // Token 1 does not exists.
    assert_eq!(patient.owner_of(1), None);
    // Alice does not owns tokens.
    assert_eq!(patient.balance_of(alice()), 0);
    // Create token Id 1.
    assert_eq!(patient.mint(alice(), 1), Ok(()));
    // Alice owns 1 token.
    assert_eq!(patient.balance_of(alice()), 1);
}

#[test]
fn lib_mint_existing_should_fail() {
    let mut patient = new_patient();
    // Create token Id 1.
    assert_eq!(patient.mint(alice(), 1), Ok(()));
    // The first Transfer event takes place
    assert_eq!(1, patient.events().len());
    // Alice owns 1 token.
    assert_eq!(patient.balance_of(alice()), 1);
    // Alice owns token Id 1.
    assert_eq!(patient.owner_of(1), Some(alice()));
    // Cannot create  token Id if it exists.
    assert_eq!(patient.mint(alice(), 1), Err(Error::TokenExists));
}

#[test]
fn lib_transfer_works() {
    let mut patient = new_patient();
    // Create token Id 1 for Alice
    assert_eq!(patient.mint(alice(), 1), Ok(()));
    // Alice owns token 1
    assert_eq!(patient.balance_of(alice()), 1);
    // Bob does not owns any token
    assert_eq!(patient.balance_of(bob()), 0);
    // The first Transfer event takes place
    assert_eq!(1, patient.events().len());
    // Alice transfers token 1 to Bob
    assert_eq!(patient.transfer(alice(), bob(), 1), Ok(()));
    // The second Transfer event takes place
    assert_eq!(2, patient.events().len());
    // Bob owns token 1
    assert_eq!(patient.balance_of(bob()), 1);
}

#[test]
fn lib_invalid_transfer_should_fail() {
    let mut patient = new_patient();
    // Transfer token fails if it does not exists.
    assert_eq!(patient.transfer(alice(), bob(), 2), Err(Error::TokenNotFound));
    // Token Id 2 does not exists.
    assert_eq!(patient.owner_of(2), None);
    // Create token Id 2.
    assert_eq!(patient.mint(alice(), 2), Ok(()));
    // Alice owns 1 token.
    assert_eq!(patient.balance_of(alice()), 1);
    // Token Id 2 is owned by Alice.
    assert_eq!(patient.owner_of(2), Some(alice()));
}

#[test]
fn patient_mint_works() {
    let mut patient = new_patient();
    assert_eq!(patient.owner_of(1), None);
    assert_eq!(patient.balance_of(alice()), 0);
    assert_eq!(patient.mint(alice(), 1), Ok(()));
    assert_eq!(patient.balance_of(alice()), 1);
}

#[test]
fn patient_mint_existing_should_fail() {
    let mut patient = new_patient();
    assert_eq!(patient.mint(alice(), 1), Ok(()));
    assert_eq!(1, patient.events().len());
    assert_eq!(patient.balance_of(alice()), 1);
    assert_eq!(patient.owner_of(1), Some(alice()));
    assert_eq!(patient.mint(alice(), 1), Err(Error::TokenExists));
}

#[test]
fn patient_transfer_works() {
    let mut patient = new_patient();
    assert_eq!(patient.mint(alice(), 1), Ok(()));
    assert_eq!(patient.balance_of(alice()), 1);
    assert_eq!(patient.balance_of(bob()), 0);
    assert_eq!(1, patient.events().len());
    assert_eq!(patient.transfer(alice(), bob(), 1), Ok(()));
    assert_eq!(2, patient.events().len());
    assert_eq!(patient.balance_of(bob()), 1);
}

#[test]
fn patient_invalid_transfer_should_fail() {
    let mut patient = new_patient();
    assert_eq!(patient.transfer(alice(), bob(), 2), Err(Error::TokenNotFound));
    assert_eq!(patient.owner_of(2), None);
    assert_eq!(patient.mint(alice(), 2), Ok(()));
    assert_eq!(patient.balance_of(alice()), 1);
    assert_eq!(patient.owner_of(2), Some(alice()));
}

#[test]
fn host_accounts_keep_their_bytes() {
    assert_eq!(alice(), AccountId::from([0x01; 32]));
    assert_eq!(bob(), AccountId::from([0x02; 32]));
    assert_ne!(alice(), bob());
    assert!(!alice().is_zero());
    let host = ink::primitives::AccountId::from([0x00; 32]);
    let bytes: &[u8; 32] = host.as_ref();
    assert!(AccountId::from(*bytes).is_zero());
}

#[test]
fn fresh_registry_knows_no_token() {
    let patient = new_patient();
    for id in [0u32, 1, 2, 77, u32::MAX] {
        assert_eq!(patient.owner_of(id), None);
        assert_eq!(patient.get_approved(id), None);
        assert_eq!(patient.token_uri(id), None);
    }
    assert_eq!(patient.balance_of(alice()), 0);
    assert_eq!(patient.balance_of(AccountId::zero()), 0);
    assert!(patient.events().is_empty());
    assert_eq!(patient.events().get(0), None);
    assert!(!patient.requires_owner_for_uri());
}

#[test]
fn name_and_symbol_are_kept() {
    let patient = new_patient();
    assert_eq!(patient.name(), "HealthDot");
    assert_eq!(patient.symbol(), "HDOT");
    let other: HealthDot = HealthDot::new(String::new(), String::from("X"));
    assert_eq!(other.name(), "");
    assert_eq!(other.symbol(), "X");
}

#[test]
fn unminted_token_stays_unowned() {
    let mut patient = new_patient();
    assert_eq!(patient.mint(alice(), 1), Ok(()));
    assert_eq!(patient.approve(alice(), bob(), 1), Ok(()));
    assert_eq!(patient.transfer_from(bob(), alice(), bob(), 1), Ok(()));
    assert_eq!(patient.set_token_uri(bob(), 5, String::from("ipfs://y")), Ok(()));
    assert_eq!(patient.mint(AccountId::zero(), 5), Err(Error::NotAllowed));
    assert_eq!(patient.owner_of(5), None);
    assert_eq!(patient.get_approved(5), None);
    assert_eq!(patient.owner_of(2), None);
    assert_eq!(patient.get_approved(2), None);
}

#[test]
fn mint_records_one_creation_event() {
    let mut patient = new_patient();
    assert_eq!(patient.mint(bob(), 9), Ok(()));
    assert_eq!(patient.owner_of(9), Some(bob()));
    assert_eq!(patient.balance_of(bob()), 1);
    assert_eq!(patient.balance_of(alice()), 0);
    assert_eq!(patient.events().len(), 1);
    assert_eq!(
        patient.events().get(0),
        Some(&Event::Transfer(Transfer {
            from: None,
            to: Some(bob()),
            token_id: 9
        }))
    );
    assert_eq!(patient.events().get(1), None);
}

#[test]
fn second_mint_leaves_state_as_it_was() {
    let mut patient = new_patient();
    assert_eq!(patient.mint(alice(), 1), Ok(()));
    assert_eq!(patient.mint(bob(), 1), Err(Error::TokenExists));
    assert_eq!(patient.owner_of(1), Some(alice()));
    assert_eq!(patient.balance_of(alice()), 1);
    assert_eq!(patient.balance_of(bob()), 0);
    assert_eq!(patient.events().len(), 1);
}

#[test]
fn mint_by_zero_identity_is_not_allowed() {
    let mut patient = new_patient();
    assert_eq!(patient.mint(AccountId::zero(), 1), Err(Error::NotAllowed));
    assert_eq!(
        patient.mint(AccountId::from([0u8; 32]), 1),
        Err(Error::NotAllowed)
    );
    assert_eq!(patient.owner_of(1), None);
    assert_eq!(patient.balance_of(AccountId::zero()), 0);
    assert!(patient.events().is_empty());
}

#[test]
fn existing_token_comes_before_zero_identity() {
    let mut patient = new_patient();
    assert_eq!(patient.mint(alice(), 1), Ok(()));
    assert_eq!(patient.mint(AccountId::zero(), 1), Err(Error::TokenExists));
}

#[test]
fn transfer_by_stranger_is_not_allowed() {
    let mut patient = new_patient();
    let carol = AccountId::from([0x03; 32]);
    assert_eq!(patient.mint(alice(), 1), Ok(()));
    assert_eq!(patient.mint(bob(), 2), Ok(()));
    // Bob owns a token, but not this one.
    assert_eq!(patient.transfer(bob(), carol, 1), Err(Error::NotAllowed));
    // Carol owns nothing.
    assert_eq!(patient.transfer(carol, carol, 1), Err(Error::NotAllowed));
    assert_eq!(
        patient.transfer_from(carol, alice(), carol, 1),
        Err(Error::NotAllowed)
    );
    // The caller may name itself as the source only if it owns the token.
    assert_eq!(
        patient.transfer_from(bob(), bob(), carol, 1),
        Err(Error::NotAllowed)
    );
    assert_eq!(patient.owner_of(1), Some(alice()));
    assert_eq!(patient.owner_of(2), Some(bob()));
    assert_eq!(patient.balance_of(alice()), 1);
    assert_eq!(patient.balance_of(bob()), 1);
    assert_eq!(patient.balance_of(carol), 0);
    assert_eq!(patient.events().len(), 2);
}

#[test]
fn transfer_to_zero_identity_is_rejected() {
    let mut patient = new_patient();
    assert_eq!(patient.mint(alice(), 1), Ok(()));
    assert_eq!(patient.approve(alice(), bob(), 1), Ok(()));
    assert_eq!(
        patient.transfer(alice(), AccountId::zero(), 1),
        Err(Error::NotAllowed)
    );
    assert_eq!(
        patient.transfer_from(bob(), alice(), AccountId::zero(), 1),
        Err(Error::NotAllowed)
    );
    assert_eq!(
        patient.transfer(alice(), AccountId::zero(), 4),
        Err(Error::TokenNotFound)
    );
    assert_eq!(patient.owner_of(1), Some(alice()));
    assert_eq!(patient.get_approved(1), Some(bob()));
    assert_eq!(patient.balance_of(alice()), 1);
    assert_eq!(patient.balance_of(AccountId::zero()), 0);
    assert_eq!(patient.events().len(), 2);
}

#[test]
fn transfer_moves_token_and_clears_approval() {
    let mut patient = new_patient();
    let carol = AccountId::from([0x03; 32]);
    assert_eq!(patient.mint(alice(), 1), Ok(()));
    assert_eq!(patient.mint(alice(), 2), Ok(()));
    assert_eq!(patient.approve(alice(), carol, 1), Ok(()));
    assert_eq!(patient.get_approved(1), Some(carol));
    assert_eq!(patient.transfer(alice(), bob(), 1), Ok(()));
    assert_eq!(patient.owner_of(1), Some(bob()));
    assert_eq!(patient.owner_of(2), Some(alice()));
    assert_eq!(patient.get_approved(1), None);
    assert_eq!(patient.balance_of(alice()), 1);
    assert_eq!(patient.balance_of(bob()), 1);
    assert_eq!(patient.balance_of(carol), 0);
    assert_eq!(patient.events().len(), 4);
    assert_eq!(
        patient.events().get(3),
        Some(&Event::Transfer(Transfer {
            from: Some(alice()),
            to: Some(bob()),
            token_id: 1
        }))
    );
    // The spender lost its right with the transfer.
    assert_eq!(
        patient.transfer_from(carol, bob(), carol, 1),
        Err(Error::NotAllowed)
    );
}

#[test]
fn approved_spender_moves_token_for_owner() {
    let mut patient = new_patient();
    let carol = AccountId::from([0x03; 32]);
    assert_eq!(patient.mint(alice(), 7), Ok(()));
    assert_eq!(patient.approve(alice(), bob(), 7), Ok(()));
    // The spender has to name the owner as the source.
    assert_eq!(patient.transfer(bob(), carol, 7), Err(Error::NotAllowed));
    assert_eq!(
        patient.transfer_from(bob(), carol, carol, 7),
        Err(Error::NotAllowed)
    );
    assert_eq!(patient.transfer_from(bob(), alice(), carol, 7), Ok(()));
    assert_eq!(patient.owner_of(7), Some(carol));
    assert_eq!(patient.get_approved(7), None);
    assert_eq!(patient.balance_of(alice()), 0);
    assert_eq!(patient.balance_of(bob()), 0);
    assert_eq!(patient.balance_of(carol), 1);
}

#[test]
fn transfer_to_self_keeps_balance() {
    let mut patient = new_patient();
    assert_eq!(patient.mint(alice(), 1), Ok(()));
    assert_eq!(patient.approve(alice(), bob(), 1), Ok(()));
    assert_eq!(patient.transfer(alice(), alice(), 1), Ok(()));
    assert_eq!(patient.owner_of(1), Some(alice()));
    assert_eq!(patient.balance_of(alice()), 1);
    assert_eq!(patient.get_approved(1), None);
    assert_eq!(patient.events().len(), 3);
}

#[test]
fn approve_is_single_shot() {
    let mut patient = new_patient();
    let carol = AccountId::from([0x03; 32]);
    // No token, no approval.
    assert_eq!(patient.approve(alice(), bob(), 1), Err(Error::NotAllowed));
    assert_eq!(patient.mint(alice(), 1), Ok(()));
    // Only the owner approves.
    assert_eq!(patient.approve(bob(), carol, 1), Err(Error::NotAllowed));
    // Not the zero identity.
    assert_eq!(
        patient.approve(alice(), AccountId::zero(), 1),
        Err(Error::NotAllowed)
    );
    assert_eq!(patient.get_approved(1), None);
    assert_eq!(patient.events().len(), 1);
    assert_eq!(patient.approve(alice(), bob(), 1), Ok(()));
    assert_eq!(patient.get_approved(1), Some(bob()));
    assert_eq!(patient.events().len(), 2);
    assert_eq!(
        patient.events().get(1),
        Some(&Event::Approval(healthdot::Approval {
            owner: alice(),
            spender: bob(),
            token_id: 1
        }))
    );
    // A pending approval blocks the next one, even for the same spender.
    assert_eq!(patient.approve(alice(), carol, 1), Err(Error::NotAllowed));
    assert_eq!(patient.approve(alice(), bob(), 1), Err(Error::NotAllowed));
    assert_eq!(patient.get_approved(1), Some(bob()));
    assert_eq!(patient.events().len(), 2);
    // A transfer clears it, and the new owner can approve again.
    assert_eq!(patient.transfer(alice(), carol, 1), Ok(()));
    assert_eq!(patient.approve(carol, alice(), 1), Ok(()));
    assert_eq!(patient.get_approved(1), Some(alice()));
}

#[test]
fn token_uri_round_trip() {
    let mut patient = new_patient();
    assert_eq!(patient.token_uri(1), None);
    assert_eq!(
        patient.set_token_uri(alice(), 1, String::from("ipfs://x")),
        Ok(())
    );
    assert_eq!(patient.token_uri(1), Some(String::from("ipfs://x")));
    assert_eq!(patient.token_uri(2), None);
    // A later locator replaces the earlier one, whoever sets it.
    assert_eq!(
        patient.set_token_uri(bob(), 1, String::from("ipfs://z")),
        Ok(())
    );
    assert_eq!(patient.token_uri(1), Some(String::from("ipfs://z")));
    // Attaching a locator is no event and makes no token.
    assert!(patient.events().is_empty());
    assert_eq!(patient.owner_of(1), None);
}

#[test]
fn owner_only_uri_policy() {
    let mut patient = new_patient().require_owner_for_uri(true);
    assert!(patient.requires_owner_for_uri());
    assert_eq!(
        patient.set_token_uri(alice(), 1, String::from("ipfs://x")),
        Err(Error::NotAllowed)
    );
    assert_eq!(patient.token_uri(1), None);
    assert_eq!(patient.mint(alice(), 1), Ok(()));
    assert_eq!(
        patient.set_token_uri(bob(), 1, String::from("ipfs://b")),
        Err(Error::NotAllowed)
    );
    assert_eq!(patient.token_uri(1), None);
    assert_eq!(
        patient.set_token_uri(alice(), 1, String::from("ipfs://x")),
        Ok(())
    );
    assert_eq!(patient.token_uri(1), Some(String::from("ipfs://x")));
    let open = patient.require_owner_for_uri(false);
    assert!(!open.requires_owner_for_uri());
    assert_eq!(open.token_uri(1), Some(String::from("ipfs://x")));
    assert_eq!(open.owner_of(1), Some(alice()));
}

#[test]
fn health_dot_scenario() {
    let mut patient = Patient::new(String::from("HealthDot"), String::from("HDOT"));
    assert_eq!(patient.mint(alice(), 1), Ok(()));
    assert_eq!(patient.balance_of(alice()), 1);
    assert_eq!(patient.owner_of(1), Some(alice()));
    assert_eq!(patient.transfer(alice(), bob(), 1), Ok(()));
    assert_eq!(patient.owner_of(1), Some(bob()));
    assert_eq!(patient.balance_of(alice()), 0);
    assert_eq!(patient.balance_of(bob()), 1);
    assert_eq!(patient.events().len(), 2);
    assert_eq!(
        patient.events().get(0),
        Some(&Event::Transfer(Transfer {
            from: None,
            to: Some(alice()),
            token_id: 1
        }))
    );
    assert_eq!(
        patient.events().get(1),
        Some(&Event::Transfer(Transfer {
            from: Some(alice()),
            to: Some(bob()),
            token_id: 1
        }))
    );
}

#[test]
fn balances_follow_many_tokens() {
    let mut patient = new_patient();
    for id in 0..40u32 {
        let who = if id % 3 == 0 { alice() } else { bob() };
        assert_eq!(patient.mint(who, id), Ok(()));
    }
    assert_eq!(patient.balance_of(alice()), 14);
    assert_eq!(patient.balance_of(bob()), 26);
    for id in 0..40u32 {
        if id % 3 == 0 {
            assert_eq!(patient.transfer(alice(), bob(), id), Ok(()));
        }
    }
    assert_eq!(patient.balance_of(alice()), 0);
    assert_eq!(patient.balance_of(bob()), 40);
    assert_eq!(patient.transfer(alice(), bob(), 0), Err(Error::NotAllowed));
    assert_eq!(patient.events().len(), 54);
}
