use pallet_nft::{
    check_owner, plan_burn, plan_create, plan_list, plan_transfer, Config, Error, Event, Nft,
    Offer,
};

#[derive(Clone, Debug, PartialEq, Eq)]
struct Host;

impl Config for Host {
    type AccountId = u64;
    type Balance = u128;
}

fn record(owner: u64) -> Nft<u64, Vec<u8>> {
    Nft { name: vec![b'n'], description: vec![b'd', b'e'], img_url: vec![b'u'], owner }
}

#[test]
fn check_owner_tells_the_three_cases_apart() {
    assert_eq!(check_owner::<Host>(None, 1), Err(Error::NftNotExist));
    assert_eq!(check_owner::<Host>(Some(&record(2)), 1), Err(Error::NotTheOwner));
    assert_eq!(check_owner::<Host>(Some(&record(1)), 1), Ok(()));
}

#[test]
fn plan_create_starts_at_zero() {
    let m = plan_create::<Host>(None, 9, vec![1], vec![2, 3], vec![]);
    assert_eq!(m.id, 0);
    assert_eq!(m.counter, 1);
    assert_eq!(m.record, Nft { name: vec![1], description: vec![2, 3], img_url: vec![], owner: 9 });
    assert_eq!(
        m.event,
        Event::NewNftMinted {
            id: 0,
            name: vec![1],
            description: vec![2, 3],
            img_url: vec![],
            owner: 9,
        }
    );
}

#[test]
fn plan_create_continues_from_the_counter() {
    let m = plan_create::<Host>(Some(41), 9, vec![], vec![], vec![]);
    assert_eq!(m.id, 41);
    assert_eq!(m.counter, 42);
    let last = plan_create::<Host>(Some(u128::MAX - 1), 9, vec![], vec![], vec![]);
    assert_eq!(last.id, u128::MAX - 1);
    assert_eq!(last.counter, u128::MAX);
}

#[test]
fn plan_list_gives_offer_and_event() {
    let r = plan_list::<Host>(Some(&record(1)), false, 1, 5, 100);
    assert_eq!(
        r,
        Ok((Offer { owner: 1, price: 100 }, Event::ListNft { id: 5, owner: 1, value: 100 }))
    );
}

#[test]
fn plan_list_refusals_come_in_order() {
    assert_eq!(plan_list::<Host>(None, true, 1, 5, 100), Err(Error::NftNotExist));
    assert_eq!(plan_list::<Host>(None, false, 1, 5, 100), Err(Error::NftNotExist));
    assert_eq!(plan_list::<Host>(Some(&record(2)), true, 1, 5, 100), Err(Error::NotTheOwner));
    assert_eq!(plan_list::<Host>(Some(&record(2)), false, 1, 5, 100), Err(Error::NotTheOwner));
    assert_eq!(
        plan_list::<Host>(Some(&record(1)), true, 1, 5, 100),
        Err(Error::AlreadyListedForSale)
    );
}

#[test]
fn plan_transfer_changes_the_owner_only() {
    let r = plan_transfer::<Host>(Some(&record(1)), 1, 7, 2);
    assert_eq!(r, Ok((record(2), Event::Transfer { id: 7, from: 1, to: 2 })));
}

#[test]
fn plan_transfer_refusals() {
    assert_eq!(plan_transfer::<Host>(None, 1, 7, 2), Err(Error::NftNotExist));
    assert_eq!(plan_transfer::<Host>(Some(&record(3)), 1, 7, 2), Err(Error::NotTheOwner));
}

#[test]
fn plan_burn_announces_or_refuses() {
    assert_eq!(plan_burn::<Host>(Some(&record(1)), 1, 7), Ok(Event::Burned { owner: 1, id: 7 }));
    assert_eq!(plan_burn::<Host>(None, 1, 7), Err(Error::NftNotExist));
    assert_eq!(plan_burn::<Host>(Some(&record(2)), 1, 7), Err(Error::NotTheOwner));
}

#[test]
fn accounts_may_be_references() {
    struct Lent;
    impl Config for Lent {
        type AccountId = &'static str;
        type Balance = u64;
    }
    let nft = Nft { name: vec![], description: vec![], img_url: vec![], owner: "alice" };
    assert_eq!(check_owner::<Lent>(Some(&nft), "alice"), Ok(()));
    assert_eq!(check_owner::<Lent>(Some(&nft), "bob"), Err(Error::NotTheOwner));
}
