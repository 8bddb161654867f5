use pallet_nft::{Config, Error, Event, Nft, Offer, Pallet};

#[derive(Clone, Debug, PartialEq, Eq)]
struct Host;

impl Config for Host {
    type AccountId = u64;
    type Balance = u128;
}

const A: u64 = 1;
const B: u64 = 2;
const C: u64 = 3;

fn bytes(s: &str) -> Vec<u8> {
    s.as_bytes().to_vec()
}

fn mint(p: &mut Pallet<Host>, who: u64) -> Result<Event<Host>, Error> {
    assert!(p.next_id() < u128::MAX);
    p.create_nft(who, bytes("n"), bytes("d"), bytes("u"))
}

#[test]
fn fresh_registry_is_empty() {
    let p = Pallet::<Host>::new();
    assert_eq!(p.nft_id(), None);
    assert_eq!(p.next_id(), 0);
    assert_eq!(p.nfts(0), None);
    assert_eq!(p.marketplace(0), None);
}

#[test]
fn mint_transfer_burn_scenario() {
    let mut p = Pallet::<Host>::new();
    let minted = mint(&mut p, A);
    assert_eq!(
        minted,
        Ok(Event::NewNftMinted {
            id: 0,
            name: bytes("n"),
            description: bytes("d"),
            img_url: bytes("u"),
            owner: A,
        })
    );
    assert_eq!(p.transfer_nft(A, 0, B), Ok(Event::Transfer { id: 0, from: A, to: B }));
    assert_eq!(p.nfts(0).map(|n| n.owner), Some(B));
    assert_eq!(p.transfer_nft(A, 0, C), Err(Error::NotTheOwner));
    assert_eq!(p.nfts(0).map(|n| n.owner), Some(B));
    assert_eq!(p.burn_nft(B, 0), Ok(Event::Burned { owner: B, id: 0 }));
    assert_eq!(p.nfts(0), None);
    assert_eq!(p.burn_nft(B, 0), Err(Error::NftNotExist));
}

#[test]
fn same_owner_gets_sequential_ids() {
    let mut p = Pallet::<Host>::new();
    let first = mint(&mut p, A);
    let second = mint(&mut p, A);
    assert!(matches!(first, Ok(Event::NewNftMinted { id: 0, owner: A, .. })));
    assert!(matches!(second, Ok(Event::NewNftMinted { id: 1, owner: A, .. })));
    assert_eq!(p.nft_id(), Some(2));
    assert!(p.nfts(0).is_some());
    assert!(p.nfts(1).is_some());
    assert_eq!(p.nfts(2), None);
}

#[test]
fn list_records_offer_and_second_listing_is_refused() {
    let mut p = Pallet::<Host>::new();
    mint(&mut p, A).unwrap();
    assert_eq!(p.marketplace(0), None);
    assert_eq!(p.list_nft(A, 0, 100), Ok(Event::ListNft { id: 0, owner: A, value: 100 }));
    assert_eq!(p.marketplace(0), Some(Offer { owner: A, price: 100 }));
    assert_eq!(p.list_nft(A, 0, 200), Err(Error::AlreadyListedForSale));
    assert_eq!(p.marketplace(0), Some(Offer { owner: A, price: 100 }));
}

#[test]
fn list_on_missing_id_is_not_found_for_any_caller() {
    let mut p = Pallet::<Host>::new();
    assert_eq!(p.list_nft(A, 0, 1), Err(Error::NftNotExist));
    mint(&mut p, A).unwrap();
    assert_eq!(p.list_nft(A, 1, 1), Err(Error::NftNotExist));
    assert_eq!(p.list_nft(B, 7, 1), Err(Error::NftNotExist));
    assert_eq!(p.marketplace(1), None);
    assert_eq!(p.marketplace(7), None);
}

#[test]
fn list_by_stranger_is_not_owner() {
    let mut p = Pallet::<Host>::new();
    mint(&mut p, A).unwrap();
    assert_eq!(p.list_nft(B, 0, 5), Err(Error::NotTheOwner));
    assert_eq!(p.marketplace(0), None);
}

#[test]
fn not_owner_is_reported_before_already_listed() {
    let mut p = Pallet::<Host>::new();
    mint(&mut p, A).unwrap();
    p.list_nft(A, 0, 5).unwrap();
    assert_eq!(p.list_nft(B, 0, 6), Err(Error::NotTheOwner));
}

#[test]
fn transfer_keeps_the_other_fields() {
    let mut p = Pallet::<Host>::new();
    p.create_nft(A, bytes("name"), bytes("about"), bytes("http://x/1.png")).unwrap();
    p.transfer_nft(A, 0, B).unwrap();
    assert_eq!(
        p.nfts(0),
        Some(&Nft {
            name: bytes("name"),
            description: bytes("about"),
            img_url: bytes("http://x/1.png"),
            owner: B,
        })
    );
}

#[test]
fn transfer_of_missing_id_is_not_found() {
    let mut p = Pallet::<Host>::new();
    assert_eq!(p.transfer_nft(A, 0, B), Err(Error::NftNotExist));
    assert_eq!(p.nfts(0), None);
}

#[test]
fn transfer_leaves_other_assets_alone() {
    let mut p = Pallet::<Host>::new();
    mint(&mut p, A).unwrap();
    mint(&mut p, C).unwrap();
    p.transfer_nft(A, 0, B).unwrap();
    assert_eq!(p.nfts(1).map(|n| n.owner), Some(C));
    assert_eq!(p.nft_id(), Some(2));
}

#[test]
fn transfer_keeps_a_stale_offer() {
    let mut p = Pallet::<Host>::new();
    mint(&mut p, A).unwrap();
    p.list_nft(A, 0, 100).unwrap();
    p.transfer_nft(A, 0, B).unwrap();
    assert_eq!(p.marketplace(0), Some(Offer { owner: A, price: 100 }));
    assert_eq!(p.list_nft(B, 0, 50), Err(Error::AlreadyListedForSale));
}

#[test]
fn burn_by_stranger_is_not_owner() {
    let mut p = Pallet::<Host>::new();
    mint(&mut p, A).unwrap();
    assert_eq!(p.burn_nft(B, 0), Err(Error::NotTheOwner));
    assert!(p.nfts(0).is_some());
}

#[test]
fn burn_of_missing_id_is_not_found() {
    let mut p = Pallet::<Host>::new();
    assert_eq!(p.burn_nft(A, 3), Err(Error::NftNotExist));
}

#[test]
fn burn_keeps_the_offer() {
    let mut p = Pallet::<Host>::new();
    mint(&mut p, A).unwrap();
    p.list_nft(A, 0, 9).unwrap();
    p.burn_nft(A, 0).unwrap();
    assert_eq!(p.nfts(0), None);
    assert_eq!(p.marketplace(0), Some(Offer { owner: A, price: 9 }));
}

#[test]
fn burned_ids_are_not_reused() {
    let mut p = Pallet::<Host>::new();
    mint(&mut p, A).unwrap();
    p.burn_nft(A, 0).unwrap();
    let next = mint(&mut p, B);
    assert!(matches!(next, Ok(Event::NewNftMinted { id: 1, owner: B, .. })));
    assert_eq!(p.nfts(0), None);
    assert_eq!(p.nfts(1).map(|n| n.owner), Some(B));
    p.burn_nft(B, 1).unwrap();
    let third = mint(&mut p, A);
    assert!(matches!(third, Ok(Event::NewNftMinted { id: 2, .. })));
    assert_eq!(p.next_id(), 3);
}

#[test]
fn record_exists_iff_minted_and_not_burned() {
    let mut p = Pallet::<Host>::new();
    for _ in 0..5 {
        mint(&mut p, A).unwrap();
    }
    p.burn_nft(A, 1).unwrap();
    p.burn_nft(A, 3).unwrap();
    assert_eq!(p.burn_nft(A, 3), Err(Error::NftNotExist));
    let alive: Vec<bool> = (0..7).map(|k| p.nfts(k).is_some()).collect();
    assert_eq!(alive, vec![true, false, true, false, true, false, false]);
}

#[test]
fn failed_calls_change_nothing() {
    let mut p = Pallet::<Host>::new();
    mint(&mut p, A).unwrap();
    let before = p.nfts(0).cloned();
    assert!(p.transfer_nft(B, 0, C).is_err());
    assert!(p.burn_nft(C, 0).is_err());
    assert!(p.list_nft(B, 0, 1).is_err());
    assert_eq!(p.nfts(0).cloned(), before);
    assert_eq!(p.marketplace(0), None);
    assert_eq!(p.nft_id(), Some(1));
}
