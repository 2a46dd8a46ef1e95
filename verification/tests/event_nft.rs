use nft_registry::auth::Auth;
use nft_registry::error::Error;
use nft_registry::event::Event;
use nft_registry::event_nft::{ArtisticNFT, ArtisticNFTContract, EventInfo};
use nft_registry::principal::Principal;

fn who(n: u128) -> Principal {
    Principal::account(0, n)
}

fn everyone(ps: &[Principal]) -> Auth {
    let mut auth = Auth::none();
    for p in ps {
        auth.add(*p);
    }
    auth
}

#[test]
fn test_artistic_nft_basic() {
    let mut contract = ArtisticNFTContract::new();
    let admin = who(100);
    let organizer = who(200);
    let participant = who(1);
    let auth = everyone(&[admin, organizer, participant]);

    contract.initialize(&auth, admin).unwrap();

    let event_id = contract.create_event(&auth, organizer, String::from("event123")).unwrap();
    contract.enable_minting(&auth, event_id, organizer).unwrap();
    let participants = vec![participant];

    let nft_ids = contract.batch_mint(&auth, event_id, &participants, organizer).unwrap();

    let owner = contract.owner_of(nft_ids[0]).unwrap();
    assert_eq!(owner, participant);

    let nft: ArtisticNFT = contract.get_nft(nft_ids[0]).unwrap();
    assert_eq!(nft.owner, participant);
    assert_eq!(nft.event_id, event_id);
}

#[test]
fn test_batch_mint() {
    let mut contract = ArtisticNFTContract::new();
    let admin = who(100);
    let organizer = who(200);
    let participant1 = who(1);
    let participant2 = who(2);
    let auth = everyone(&[admin, organizer, participant1, participant2]);

    contract.initialize(&auth, admin).unwrap();

    let event_id = contract.create_event(&auth, organizer, String::from("event123")).unwrap();
    contract.enable_minting(&auth, event_id, organizer).unwrap();
    let participants = vec![participant1, participant2];
    let nft_ids = contract.batch_mint(&auth, event_id, &participants, organizer).unwrap();

    let total_supply = contract.total_supply();
    assert_eq!(total_supply, 2);

    let owner1 = contract.owner_of(nft_ids[0]).unwrap();
    let owner2 = contract.owner_of(nft_ids[1]).unwrap();
    assert_eq!(owner1, participant1);
    assert_eq!(owner2, participant2);

    let nft1: ArtisticNFT = contract.get_nft(nft_ids[0]).unwrap();
    let nft2: ArtisticNFT = contract.get_nft(nft_ids[1]).unwrap();

    assert_eq!(nft1.event_id, event_id);
    assert_eq!(nft2.event_id, event_id);
}

#[test]
fn test_transfer_nft() {
    let mut contract = ArtisticNFTContract::new();
    let admin = who(100);
    let organizer = who(200);
    let participant = who(1);
    let recipient = who(2);
    let auth = everyone(&[admin, organizer, participant, recipient]);

    contract.initialize(&auth, admin).unwrap();

    let event_id = contract.create_event(&auth, organizer, String::from("event123")).unwrap();
    contract.enable_minting(&auth, event_id, organizer).unwrap();
    let participants = vec![participant];
    let nft_ids = contract.batch_mint(&auth, event_id, &participants, organizer).unwrap();
    let nft_id = nft_ids[0];

    contract.transfer(&auth, participant, recipient, nft_id).unwrap();

    let new_owner = contract.owner_of(nft_id).unwrap();
    assert_eq!(new_owner, recipient);

    let nft: ArtisticNFT = contract.get_nft(nft_id).unwrap();
    assert_eq!(nft.owner, recipient);

    let participant_balance = contract.balance(participant);
    let recipient_balance = contract.balance(recipient);
    assert_eq!(participant_balance, 0);
    assert_eq!(recipient_balance, 1);
}

#[test]
fn event_scenario_from_creation_to_supply() {
    let mut contract = ArtisticNFTContract::new();
    let admin = who(100);
    let organizer = who(200);
    let a = who(1);
    let b = who(2);
    let auth = everyone(&[admin, organizer]);
    contract.initialize(&auth, admin).unwrap();
    let event_id = contract.create_event(&auth, organizer, String::from("url")).unwrap();
    contract.enable_minting(&auth, event_id, organizer).unwrap();
    let ids = contract.batch_mint(&auth, event_id, &vec![a, b], organizer).unwrap();
    assert_eq!(ids, vec![0, 1]);
    assert_eq!(contract.owner_of(0), Ok(a));
    assert_eq!(contract.owner_of(1), Ok(b));
    assert_eq!(contract.total_supply(), 2);
}

#[test]
fn closed_event_mints_for_nobody() {
    let mut contract = ArtisticNFTContract::new();
    let admin = who(100);
    let organizer = who(200);
    let auth = everyone(&[admin, organizer]);
    contract.initialize(&auth, admin).unwrap();
    let event_id = contract.create_event(&auth, organizer, String::from("url")).unwrap();
    for n in [0usize, 1, 2, 5, 40] {
        let participants: Vec<Principal> = (0..n).map(|k| who(k as u128)).collect();
        assert_eq!(
            contract.batch_mint(&auth, event_id, &participants, organizer),
            Err(Error::MintingDisabled)
        );
        assert_eq!(
            contract.batch_mint(&Auth::none(), event_id, &participants, who(9)),
            Err(Error::MintingDisabled)
        );
        assert_eq!(contract.total_supply(), 0);
        assert_eq!(contract.owner_of(0), Err(Error::NotFound));
    }
    assert!(contract.events().is_empty());
    // once opened, the next call starts from the unchanged counter
    contract.enable_minting(&auth, event_id, organizer).unwrap();
    assert_eq!(contract.batch_mint(&auth, event_id, &vec![who(1)], organizer), Ok(vec![0]));
}

#[test]
fn batch_mint_checks_in_order() {
    let mut contract = ArtisticNFTContract::new();
    let admin = who(100);
    let organizer = who(200);
    let auth = everyone(&[admin, organizer, who(7)]);
    contract.initialize(&auth, admin).unwrap();
    let event_id = contract.create_event(&auth, organizer, String::from("url")).unwrap();
    let people = vec![who(1), who(2)];
    assert_eq!(
        contract.batch_mint(&auth, event_id + 1, &people, organizer),
        Err(Error::NotFound)
    );
    contract.enable_minting(&auth, event_id, organizer).unwrap();
    assert_eq!(contract.batch_mint(&auth, event_id, &people, who(7)), Err(Error::NotAuthorized));
    assert_eq!(
        contract.batch_mint(&Auth::of(admin), event_id, &people, organizer),
        Err(Error::NotAuthorized)
    );
    assert_eq!(contract.total_supply(), 0);
    assert_eq!(contract.batch_mint(&auth, event_id, &vec![], organizer), Ok(vec![]));
    assert_eq!(contract.total_supply(), 0);
    assert_eq!(contract.batch_mint(&auth, event_id, &people, organizer), Ok(vec![0, 1]));
    assert_eq!(contract.batch_mint(&auth, event_id, &people, organizer), Ok(vec![2, 3]));
    assert_eq!(contract.total_supply(), 4);
    assert_eq!(contract.balance(who(1)), 2);
    assert_eq!(contract.balance(who(2)), 2);
    assert_eq!(
        contract.events().clone(),
        vec![
            Event::Mint { to: who(1), id: 0 },
            Event::Mint { to: who(2), id: 1 },
            Event::Mint { to: who(1), id: 2 },
            Event::Mint { to: who(2), id: 3 },
        ]
    );
}

#[test]
fn events_are_numbered_and_open_one_way() {
    let mut contract = ArtisticNFTContract::new();
    let admin = who(100);
    let o1 = who(200);
    let o2 = who(201);
    let auth = everyone(&[admin, o1, o2]);
    assert_eq!(contract.create_event(&auth, o1, String::from("early")), Err(Error::NotFound));
    contract.initialize(&auth, admin).unwrap();
    assert_eq!(contract.create_event(&Auth::none(), o1, String::from("x")), Err(Error::NotAuthorized));
    assert_eq!(contract.create_event(&auth, o1, String::from("first")), Ok(0));
    assert_eq!(contract.create_event(&auth, o2, String::from("second")), Ok(1));
    assert_eq!(
        contract.get_event_info(1),
        Ok(EventInfo {
            id: 1,
            organizer: o2,
            metadata_uri: String::from("second"),
            minting_enabled: false,
        })
    );
    assert_eq!(contract.get_event_info(2), Err(Error::NotFound));
    assert_eq!(contract.enable_minting(&auth, 2, o1), Err(Error::NotFound));
    assert_eq!(contract.enable_minting(&auth, 1, o1), Err(Error::NotAuthorized));
    assert_eq!(contract.enable_minting(&Auth::of(o1), 1, o2), Err(Error::NotAuthorized));
    assert!(!contract.get_event_info(1).unwrap().minting_enabled);
    assert_eq!(contract.enable_minting(&auth, 1, o2), Ok(()));
    assert!(contract.get_event_info(1).unwrap().minting_enabled);
    assert_eq!(contract.enable_minting(&auth, 1, o2), Ok(()));
    assert!(contract.get_event_info(1).unwrap().minting_enabled);
    assert!(!contract.get_event_info(0).unwrap().minting_enabled);
    assert_eq!(contract.get_event_info(0).unwrap().metadata_uri, String::from("first"));
}

#[test]
fn event_registry_initializes_once() {
    let mut contract = ArtisticNFTContract::new();
    assert_eq!(contract.admin(), None);
    assert_eq!(contract.initialize(&Auth::none(), who(100)), Err(Error::NotAuthorized));
    assert_eq!(contract.initialize(&Auth::of(who(100)), who(100)), Ok(()));
    assert_eq!(contract.initialize(&Auth::of(who(101)), who(101)), Err(Error::AlreadyInitialized));
    assert_eq!(contract.admin(), Some(who(100)));
    assert_eq!(contract.total_supply(), 0);
}

#[test]
fn event_token_transfer_checks_in_order() {
    let mut contract = ArtisticNFTContract::new();
    let admin = who(100);
    let organizer = who(200);
    let auth = everyone(&[admin, organizer, who(1), who(2)]);
    contract.initialize(&auth, admin).unwrap();
    let e = contract.create_event(&auth, organizer, String::from("url")).unwrap();
    contract.enable_minting(&auth, e, organizer).unwrap();
    contract.batch_mint(&auth, e, &vec![who(1)], organizer).unwrap();
    assert_eq!(contract.transfer(&auth, who(1), who(2), 1), Err(Error::NotFound));
    assert_eq!(contract.transfer(&Auth::none(), who(1), who(2), 0), Err(Error::NotAuthorized));
    assert_eq!(contract.transfer(&auth, who(2), who(1), 0), Err(Error::NotOwner));
    assert_eq!(contract.owner_of(0), Ok(who(1)));
    assert_eq!(contract.transfer(&auth, who(1), who(2), 0), Ok(()));
    assert_eq!(contract.get_nft(0), Ok(ArtisticNFT { owner: who(2), event_id: e }));
    assert_eq!(contract.get_nft(1), Err(Error::NotFound));
    assert_eq!(contract.token_by_index(0), Ok(0));
    assert_eq!(contract.token_by_index(1), Err(Error::IndexOutOfRange));
    let log = contract.take_events();
    assert_eq!(
        log,
        vec![
            Event::Mint { to: who(1), id: 0 },
            Event::Transfer { from: who(1), to: who(2), id: 0 },
        ]
    );
    assert!(contract.events().is_empty());
}

#[test]
fn restore_rebuilds_the_event_registry() {
    let admin = who(100);
    let organizer = who(200);
    let events = vec![
        EventInfo {
            id: 0,
            organizer,
            metadata_uri: String::from("first"),
            minting_enabled: true,
        },
        EventInfo {
            id: 1,
            organizer,
            metadata_uri: String::from("second"),
            minting_enabled: false,
        },
    ];
    let tokens = vec![
        ArtisticNFT { owner: who(1), event_id: 0 },
        ArtisticNFT { owner: who(2), event_id: 0 },
    ];
    let mut contract = ArtisticNFTContract::restore(Some(admin), tokens, events).unwrap();
    assert_eq!(contract.admin(), Some(admin));
    assert_eq!(contract.total_supply(), 2);
    assert_eq!(contract.owner_of(1), Ok(who(2)));
    assert_eq!(contract.get_event_info(1).unwrap().metadata_uri, String::from("second"));
    assert!(contract.events().is_empty());
    let auth = everyone(&[organizer]);
    assert_eq!(
        contract.batch_mint(&auth, 1, &vec![who(3)], organizer),
        Err(Error::MintingDisabled)
    );
    assert_eq!(contract.batch_mint(&auth, 0, &vec![who(3), who(1)], organizer), Ok(vec![2, 3]));
    assert_eq!(contract.balance(who(1)), 2);
    assert_eq!(contract.create_event(&auth, organizer, String::from("third")), Ok(2));
}

#[test]
fn restore_refuses_a_damaged_event_registry() {
    let organizer = who(200);
    let event = |id: u32| EventInfo {
        id,
        organizer,
        metadata_uri: String::from("e"),
        minting_enabled: true,
    };
    let token = |event_id: u32| ArtisticNFT { owner: who(1), event_id };
    // something stored without an administrator
    assert!(ArtisticNFTContract::restore(None, vec![], vec![event(0)]).is_none());
    // an event under the wrong identifier
    assert!(ArtisticNFTContract::restore(Some(who(100)), vec![], vec![event(1)]).is_none());
    assert!(ArtisticNFTContract::restore(Some(who(100)), vec![], vec![event(0), event(0)]).is_none());
    // a token of an event that is not stored
    assert!(ArtisticNFTContract::restore(Some(who(100)), vec![token(1)], vec![event(0)]).is_none());
    assert!(ArtisticNFTContract::restore(Some(who(100)), vec![token(0)], vec![]).is_none());
    assert!(ArtisticNFTContract::restore(Some(who(100)), vec![token(0)], vec![event(0)]).is_some());
    assert!(ArtisticNFTContract::restore(None, vec![], vec![]).is_some());
}

#[test]
fn batch_mint_counts_each_naming_of_a_participant() {
    let mut contract = ArtisticNFTContract::new();
    let admin = who(100);
    let organizer = who(200);
    let auth = everyone(&[admin, organizer]);
    contract.initialize(&auth, admin).unwrap();
    let e = contract.create_event(&auth, organizer, String::from("url")).unwrap();
    contract.enable_minting(&auth, e, organizer).unwrap();
    let people = vec![who(1), who(2), who(1), who(1)];
    assert_eq!(contract.batch_mint(&auth, e, &people, organizer), Ok(vec![0, 1, 2, 3]));
    assert_eq!(contract.balance(who(1)), 3);
    assert_eq!(contract.balance(who(2)), 1);
    assert_eq!(contract.balance(who(3)), 0);
    assert_eq!(contract.total_supply(), 4);
}
