use healthdot::{AccountId, NftMarketplace};

fn account(byte: u8) -> AccountId {
    AccountId::from([byte; 32])
}

#[test]
fn new_works() {
    let contract = NftMarketplace::new();
    assert_eq!(contract.owner_count(), 0);
    assert_eq!(contract.price_count(), 0);
}

#[test]
fn set_price_works() {
    let mut contract = NftMarketplace::new();
    contract.set_price(account(1), 1, 10);
    assert_eq!(contract.price_of(1), Some(10));
}

#[test]
fn anyone_prices_a_token_without_owner() {
    let mut contract = NftMarketplace::new();
    contract.set_price(account(1), 1, 10);
    contract.set_price(account(2), 1, 12);
    contract.set_price(AccountId::zero(), 2, 0);
    assert_eq!(contract.price_of(1), Some(12));
    assert_eq!(contract.price_of(2), Some(0));
    assert_eq!(contract.price_of(3), None);
    assert_eq!(contract.price_count(), 2);
    assert_eq!(contract.owner_count(), 0);
    assert_eq!(contract.owner_of(1), None);
    assert!(contract.events().is_empty());
}

#[test]
fn purchase_needs_a_price_and_an_owner() {
    let mut contract = NftMarketplace::new();
    // No price.
    assert_eq!(contract.payment_due(1), Err(()));
    assert_eq!(contract.buy(account(1), 1, true), Err(()));
    // A price, but no owner to pay.
    contract.set_price(account(1), 1, 10);
    assert_eq!(contract.payment_due(1), Err(()));
    assert_eq!(contract.buy(account(1), 1, true), Err(()));
    assert_eq!(contract.buy(account(1), 1, false), Err(()));
    assert_eq!(contract.owner_of(1), None);
    assert_eq!(contract.owner_count(), 0);
    assert_eq!(contract.price_of(1), Some(10));
    assert!(contract.events().is_empty());
}
