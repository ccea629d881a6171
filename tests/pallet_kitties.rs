use kitties::{Balances, Entropy, Error, Event, Pallet};

const KITTY_PRICE: u128 = 5000;

fn entropy() -> Entropy {
    Entropy { seed: [7u8; 32], block_number: 1, extrinsic_index: None }
}

fn new_test_ext() -> (Pallet, Balances) {
    let mut funds = Balances::new();
    funds.set_balance(1, 10000000);
    funds.set_balance(2, 10000000);
    funds.set_balance(3, 10000000);
    (Pallet::new(KITTY_PRICE), funds)
}

#[test]
fn it_works_for_create() {
    let (mut pallet, _funds) = new_test_ext();
    let kitty_id = 0;
    let account_id = 1;

    assert_eq!(pallet.next_kitty_id(), kitty_id);
    assert!(pallet.create(account_id, &entropy()).is_ok());

    assert_eq!(pallet.next_kitty_id(), kitty_id + 1);
    assert_eq!(pallet.kitties(kitty_id).is_some(), true);

    assert_eq!(pallet.kitty_owner(kitty_id).unwrap(), account_id);
    assert_eq!(pallet.kitty_parents(kitty_id), None);

    pallet.set_next_kitty_id(u32::MAX);
    let events_before = pallet.events().len();
    assert_eq!(pallet.create(account_id, &entropy()), Err(Error::InvalidKittyId));
    assert_eq!(pallet.next_kitty_id(), u32::MAX);
    assert_eq!(pallet.events().len(), events_before);
}

#[test]
fn it_works_for_kitty_created_event() {
    let (mut pallet, _funds) = new_test_ext();
    let kitty_id = 0;
    let account_id = 1;

    assert!(pallet.create(account_id, &entropy()).is_ok());
    let kitty = pallet.kitties(kitty_id).unwrap();

    assert!(pallet.events().contains(&Event::KittyCreated { who: account_id, kitty_id, kitty }));
}

#[test]
fn it_works_for_breed() {
    let (mut pallet, _funds) = new_test_ext();
    let kitty_id = 0;
    let account_id = 1;

    assert_eq!(pallet.breed(account_id, kitty_id, kitty_id, &entropy()), Err(Error::SameKittyId));
    assert_eq!(pallet.next_kitty_id(), 0);

    assert_eq!(pallet.breed(account_id, kitty_id, kitty_id + 1, &entropy()), Err(Error::InvalidKittyId));
    assert_eq!(pallet.next_kitty_id(), 0);

    assert!(pallet.create(account_id, &entropy()).is_ok());
    assert!(pallet.create(account_id, &entropy()).is_ok());

    assert_eq!(pallet.next_kitty_id(), kitty_id + 2);

    assert!(pallet.breed(account_id, kitty_id, kitty_id + 1, &entropy()).is_ok());

    let breed_kitty_id = 2;
    assert_eq!(pallet.next_kitty_id(), breed_kitty_id + 1);
    assert_eq!(pallet.kitties(breed_kitty_id).is_some(), true);
    assert_eq!(pallet.kitty_owner(breed_kitty_id).unwrap(), account_id);
    assert_eq!(pallet.kitty_parents(breed_kitty_id).unwrap(), (kitty_id, kitty_id + 1));
}

#[test]
fn it_works_for_kitty_breed_event() {
    let (mut pallet, _funds) = new_test_ext();
    let kitty_id = 0;
    let account_id = 1;

    assert!(pallet.create(account_id, &entropy()).is_ok());
    assert!(pallet.create(account_id, &entropy()).is_ok());
    let kitty_1 = pallet.kitties(kitty_id).unwrap();
    let kitty_2 = pallet.kitties(kitty_id + 1).unwrap();

    assert!(pallet.events().contains(&Event::KittyCreated { who: account_id, kitty_id, kitty: kitty_1 }));
    assert!(pallet.events().contains(&Event::KittyCreated {
        who: account_id,
        kitty_id: kitty_id + 1,
        kitty: kitty_2
    }));

    assert!(pallet.breed(account_id, kitty_id, kitty_id + 1, &entropy()).is_ok());
    let breed_kitty = pallet.kitties(kitty_id + 2).unwrap();
    assert!(pallet.events().contains(&Event::KittyBreed {
        who: account_id,
        kitty_id: kitty_id + 2,
        kitty: breed_kitty
    }));
}

#[test]
fn it_works_for_transfer() {
    let (mut pallet, _funds) = new_test_ext();
    let kitty_id: u32 = 0;
    let account_id: u64 = 1;
    let to_account_id: u64 = 2;

    assert!(pallet.create(account_id, &entropy()).is_ok());
    assert_eq!(pallet.kitty_owner(kitty_id).unwrap(), account_id);

    assert_eq!(pallet.transfer(account_id, to_account_id, kitty_id + 1), Err(Error::InvalidKittyId));

    assert_eq!(pallet.transfer(to_account_id, to_account_id, kitty_id), Err(Error::NotOwner));
    assert_eq!(pallet.kitty_owner(kitty_id).unwrap(), account_id);

    assert!(pallet.transfer(account_id, to_account_id, kitty_id).is_ok());
    assert_eq!(pallet.kitty_owner(kitty_id).unwrap(), to_account_id);

    assert!(pallet.transfer(to_account_id, account_id, kitty_id).is_ok());
    assert_eq!(pallet.kitty_owner(kitty_id).unwrap(), account_id);
}

#[test]
fn it_works_for_kitty_transferred_event() {
    let (mut pallet, _funds) = new_test_ext();
    let kitty_id: u32 = 0;
    let account_id: u64 = 1;
    let to_account_id: u64 = 2;

    assert!(pallet.create(account_id, &entropy()).is_ok());
    let kitty = pallet.kitties(kitty_id).unwrap();
    assert!(pallet.events().contains(&Event::KittyCreated { who: account_id, kitty_id, kitty }));

    assert!(pallet.transfer(account_id, to_account_id, kitty_id).is_ok());
    assert!(pallet.events().contains(&Event::KittyTransferred {
        from: account_id,
        to: to_account_id,
        kitty_id
    }));

    assert!(pallet.transfer(to_account_id, account_id, kitty_id).is_ok());
    assert!(pallet.events().contains(&Event::KittyTransferred {
        from: to_account_id,
        to: account_id,
        kitty_id
    }));
}

#[test]
fn it_works_for_sale() {
    let (mut pallet, _funds) = new_test_ext();
    let kitty_id: u32 = 0;
    let account_id: u64 = 1;

    assert!(pallet.create(account_id, &entropy()).is_ok());
    assert_eq!(pallet.kitty_owner(kitty_id).unwrap(), account_id);

    assert!(pallet.sale(account_id, kitty_id).is_ok());
    assert_eq!(pallet.kitty_on_sale(kitty_id).is_some(), true);

    assert_eq!(pallet.sale(account_id, kitty_id + 1), Err(Error::InvalidKittyId));

    assert_eq!(pallet.sale(2u64, kitty_id), Err(Error::NotOwner));

    assert_eq!(pallet.sale(account_id, kitty_id), Err(Error::AlreadyOnSale));
}

#[test]
fn it_works_for_kitty_sale_event() {
    let (mut pallet, _funds) = new_test_ext();
    let kitty_id: u32 = 0;
    let account_id: u64 = 1;

    assert!(pallet.create(account_id, &entropy()).is_ok());
    assert_eq!(pallet.kitty_owner(kitty_id).unwrap(), account_id);

    assert!(pallet.sale(account_id, kitty_id).is_ok());
    assert_eq!(pallet.kitty_on_sale(kitty_id).is_some(), true);

    assert!(pallet.events().contains(&Event::KittyOnSale { who: account_id, kitty_id }));
}

#[test]
fn it_works_for_buy() {
    let (mut pallet, mut funds) = new_test_ext();
    let kitty_id: u32 = 0;
    let sale_account_id: u64 = 1;
    let buy_account_id: u64 = 2;

    assert!(pallet.create(sale_account_id, &entropy()).is_ok());
    assert_eq!(pallet.kitty_owner(kitty_id).unwrap(), sale_account_id);

    assert_eq!(pallet.buy(buy_account_id, kitty_id, &mut funds), Err(Error::NotOnSale));

    assert!(pallet.sale(sale_account_id, kitty_id).is_ok());
    assert_eq!(pallet.kitty_on_sale(kitty_id).is_some(), true);

    assert_eq!(pallet.sale(buy_account_id, kitty_id + 1), Err(Error::InvalidKittyId));

    assert!(pallet.buy(buy_account_id, kitty_id, &mut funds).is_ok());
    assert_eq!(pallet.kitty_owner(kitty_id).unwrap(), buy_account_id);

    assert_eq!(pallet.buy(buy_account_id, kitty_id, &mut funds), Err(Error::NotOnSale));
    assert!(pallet.sale(buy_account_id, kitty_id).is_ok());
    assert_eq!(pallet.buy(buy_account_id, kitty_id, &mut funds), Err(Error::AlreadyOwned));
}

#[test]
fn it_works_for_buy_event() {
    let (mut pallet, mut funds) = new_test_ext();
    let kitty_id: u32 = 0;
    let sale_account_id: u64 = 1;
    let buy_account_id: u64 = 2;

    assert!(pallet.create(sale_account_id, &entropy()).is_ok());
    assert_eq!(pallet.kitty_owner(kitty_id).unwrap(), sale_account_id);

    assert!(pallet.sale(sale_account_id, kitty_id).is_ok());
    assert_eq!(pallet.kitty_on_sale(kitty_id).is_some(), true);

    assert!(pallet.buy(buy_account_id, kitty_id, &mut funds).is_ok());
    assert_eq!(pallet.kitty_owner(kitty_id).unwrap(), buy_account_id);

    assert!(pallet.events().contains(&Event::KittyBought { who: buy_account_id, kitty_id }));
}
