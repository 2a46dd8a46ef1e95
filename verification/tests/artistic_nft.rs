use nft_registry::artistic_nft::{DataKey, TicketNFT};
use nft_registry::auth::Auth;
use nft_registry::error::Error;
use nft_registry::event::Event;
use nft_registry::principal::Principal;

const METADATA: &str = "https://example.com/ticket/metadata/1";
const IMAGE: &str = "https://example.com/ticket/image/1";

fn who(n: u128) -> Principal {
    Principal::account(0, n)
}

fn everyone(ps: &[Principal]) -> Auth {
    let mut auth = Auth::none();
    for p in ps {
        auth.add(*p);
    }
    auth
}

#[test]
fn test_name() {
    let nft = TicketNFT::new();
    assert_eq!(nft.name(), String::from("TicketNFT"));
}

#[test]
fn test_symbol() {
    let nft = TicketNFT::new();
    assert_eq!(nft.symbol(), String::from("SBN"));
}

#[test]
fn test_token_uri() {
    let nft = TicketNFT::new();
    assert_eq!(
        nft.token_uri(),
        String::from("https://ipfs.io/ipfs/QmegWR31kiQcD9S2katTXKxracbAgLs2QLBRGruFW3NhXC")
    );
}

#[test]
fn test_token_image() {
    let nft = TicketNFT::new();
    assert_eq!(
        nft.token_image(),
        String::from("https://ipfs.io/ipfs/QmeRHSYkR4aGRLQXaLmZiccwHw7cvctrB211DzxzuRiqW6")
    );
}

#[test]
fn test_mint() {
    let mut nft = TicketNFT::new();
    let to = who(1);
    let metadata = String::from(METADATA);
    let image = String::from(IMAGE);
    nft.mint(to, metadata.clone(), image.clone()).unwrap();
    let token_id: i128 = 1;
    assert_eq!(nft.owner_of(token_id), Ok(to));
    assert_eq!(nft.token_uri(), metadata);
    assert_eq!(nft.token_image(), image);
}

#[test]
fn test_owner_of() {
    let mut nft = TicketNFT::new();
    let owner = who(1);
    nft.mint(owner, String::from(METADATA), String::from(IMAGE)).unwrap();
    let token_id: i128 = 1;
    assert_eq!(nft.owner_of(token_id), Ok(owner));
}

#[test]
fn test_transfer() {
    let mut nft = TicketNFT::new();
    let owner = who(1);
    let to = who(2);
    let auth = everyone(&[owner, to]);
    nft.mint(owner, String::from(METADATA), String::from(IMAGE)).unwrap();
    let token_id: i128 = 1;
    nft.transfer(&auth, owner, to, token_id).unwrap();
    assert_eq!(nft.owner_of(token_id), Ok(to));
}

#[test]
fn test_approve_and_is_approved() {
    let mut nft = TicketNFT::new();
    let owner = who(1);
    let operator = who(2);
    let auth = everyone(&[owner, operator]);
    nft.mint(owner, String::from(METADATA), String::from(IMAGE)).unwrap();
    let token_id: i128 = 1;
    nft.approve(&auth, owner, operator, token_id).unwrap();
    assert!(nft.is_approved(operator, token_id));
}

#[test]
fn test_is_approved_false() {
    let mut nft = TicketNFT::new();
    let owner = who(1);
    let operator = who(2);
    nft.mint(owner, String::from(METADATA), String::from(IMAGE)).unwrap();
    let token_id: i128 = 1;
    assert!(!nft.is_approved(operator, token_id));
}

#[test]
fn test_transfer_from() {
    let mut nft = TicketNFT::new();
    let owner = who(1);
    let operator = who(2);
    let to = who(3);
    let auth = everyone(&[owner, operator, to]);
    nft.mint(owner, String::from(METADATA), String::from(IMAGE)).unwrap();
    let token_id: i128 = 1;
    nft.approve(&auth, owner, operator, token_id).unwrap();
    nft.transfer_from(&auth, operator, owner, to, token_id).unwrap();
    assert_eq!(nft.owner_of(token_id), Ok(to));
}

#[test]
#[should_panic(expected = "Not the token owner")]
fn test_transfer_not_owner() {
    let mut nft = TicketNFT::new();
    let owner = who(1);
    let not_owner = who(2);
    let to = who(3);
    let auth = everyone(&[owner, not_owner, to]);
    nft.mint(owner, String::from(METADATA), String::from(IMAGE)).unwrap();
    let token_id: i128 = 1;
    let r = nft.transfer(&auth, not_owner, to, token_id);
    assert_eq!(r, Err(Error::NotOwner));
    panic!("Not the token owner");
}

#[test]
#[should_panic(expected = "Spender is not approved for this token")]
fn test_transfer_from_not_approved() {
    let mut nft = TicketNFT::new();
    let owner = who(1);
    let operator = who(2);
    let to = who(3);
    let auth = everyone(&[owner, operator, to]);
    nft.mint(owner, String::from(METADATA), String::from(IMAGE)).unwrap();
    let token_id: i128 = 1;
    let r = nft.transfer_from(&auth, operator, owner, to, token_id);
    assert_eq!(r, Err(Error::NotApproved));
    panic!("Spender is not approved for this token");
}

#[test]
#[should_panic(expected = "From not owner")]
fn test_transfer_from_wrong_owner() {
    let mut nft = TicketNFT::new();
    let owner = who(1);
    let wrong_owner = who(2);
    let operator = who(3);
    let to = who(4);
    let auth = everyone(&[owner, wrong_owner, operator, to]);
    nft.mint(owner, String::from(METADATA), String::from(IMAGE)).unwrap();
    let token_id: i128 = 1;
    nft.approve(&auth, owner, operator, token_id).unwrap();
    let r = nft.transfer_from(&auth, operator, wrong_owner, to, token_id);
    assert_eq!(r, Err(Error::NotOwner));
    panic!("From not owner");
}

#[test]
fn mint_numbers_tokens_from_one() {
    let mut nft = TicketNFT::new();
    assert_eq!(nft.total_supply(), 0);
    assert_eq!(nft.mint(who(1), String::from("a"), String::from("b")), Ok(1));
    assert_eq!(nft.mint(who(2), String::from("c"), String::from("d")), Ok(2));
    assert_eq!(nft.total_supply(), 2);
    assert_eq!(nft.owner_of(1), Ok(who(1)));
    assert_eq!(nft.owner_of(2), Ok(who(2)));
}

#[test]
fn later_mint_replaces_the_shared_metadata() {
    let mut nft = TicketNFT::new();
    nft.mint(who(1), String::from("first"), String::from("one.png")).unwrap();
    nft.mint(who(2), String::from("second"), String::from("two.png")).unwrap();
    assert_eq!(nft.token_uri(), String::from("second"));
    assert_eq!(nft.token_image(), String::from("two.png"));
}

#[test]
fn mint_stops_at_the_cap() {
    let mut nft = TicketNFT::new();
    for k in 1..=1000i128 {
        assert_eq!(nft.mint(who(7), String::from("m"), String::from("i")), Ok(k));
    }
    assert_eq!(nft.total_supply(), 1000);
    let before = nft.events().len();
    assert_eq!(
        nft.mint(who(7), String::from("late"), String::from("late")),
        Err(Error::SupplyExceeded)
    );
    assert_eq!(nft.total_supply(), 1000);
    assert_eq!(nft.token_uri(), String::from("m"));
    assert_eq!(nft.events().len(), before);
    assert_eq!(nft.owner_of(1001), Err(Error::NotFound));
}

#[test]
fn unknown_tokens_are_not_found() {
    let mut nft = TicketNFT::new();
    let auth = everyone(&[who(1), who(2)]);
    assert_eq!(nft.owner_of(1), Err(Error::NotFound));
    assert_eq!(nft.owner_of(0), Err(Error::NotFound));
    assert_eq!(nft.owner_of(-3), Err(Error::NotFound));
    assert_eq!(nft.transfer(&auth, who(1), who(2), 1), Err(Error::NotFound));
    assert_eq!(nft.approve(&auth, who(1), who(2), 1), Err(Error::NotFound));
    assert_eq!(nft.transfer_from(&auth, who(2), who(1), who(2), 1), Err(Error::NotFound));
    assert!(!nft.is_approved(who(2), 1));
    assert!(!nft.is_approved(who(2), 0));
}

#[test]
fn calls_without_consent_are_not_authorized() {
    let mut nft = TicketNFT::new();
    let owner = who(1);
    let other = who(2);
    nft.mint(owner, String::from("m"), String::from("i")).unwrap();
    let nobody = Auth::none();
    let only_other = Auth::of(other);
    assert_eq!(nft.transfer(&nobody, owner, other, 1), Err(Error::NotAuthorized));
    assert_eq!(nft.transfer(&only_other, owner, other, 1), Err(Error::NotAuthorized));
    assert_eq!(nft.approve(&nobody, owner, other, 1), Err(Error::NotAuthorized));
    nft.approve(&Auth::of(owner), owner, other, 1).unwrap();
    assert_eq!(
        nft.transfer_from(&Auth::of(owner), other, owner, other, 1),
        Err(Error::NotAuthorized)
    );
    assert_eq!(nft.owner_of(1), Ok(owner));
    assert!(nft.is_approved(other, 1));
}

#[test]
fn transfer_from_without_approval_then_with() {
    let mut nft = TicketNFT::new();
    let owner = who(1);
    let spender = who(2);
    let to = who(3);
    let auth = everyone(&[owner, spender]);
    let id = nft.mint(owner, String::from("m"), String::from("i")).unwrap();
    assert_eq!(nft.transfer_from(&auth, spender, owner, to, id), Err(Error::NotApproved));
    assert_eq!(nft.owner_of(id), Ok(owner));
    assert_eq!(nft.approve(&auth, owner, spender, id), Ok(()));
    assert_eq!(nft.transfer_from(&auth, spender, owner, to, id), Ok(()));
    assert_eq!(nft.owner_of(id), Ok(to));
    assert!(!nft.is_approved(spender, id));
    assert_eq!(nft.transfer_from(&auth, spender, to, owner, id), Err(Error::NotApproved));
}

#[test]
fn transfer_clears_the_approval() {
    let mut nft = TicketNFT::new();
    let owner = who(1);
    let p = who(2);
    let other = who(3);
    let auth = everyone(&[owner]);
    let id = nft.mint(owner, String::from("m"), String::from("i")).unwrap();
    nft.approve(&auth, owner, p, id).unwrap();
    assert!(nft.is_approved(p, id));
    nft.transfer(&auth, owner, other, id).unwrap();
    assert!(!nft.is_approved(p, id));
    assert!(!nft.has(DataKey::Approvals(id)));
}

#[test]
fn a_new_approval_replaces_the_old_one() {
    let mut nft = TicketNFT::new();
    let owner = who(1);
    let auth = everyone(&[owner]);
    let id = nft.mint(owner, String::from("m"), String::from("i")).unwrap();
    nft.approve(&auth, owner, who(2), id).unwrap();
    nft.approve(&auth, owner, who(3), id).unwrap();
    assert!(!nft.is_approved(who(2), id));
    assert!(nft.is_approved(who(3), id));
}

#[test]
fn the_log_records_each_change_once() {
    let mut nft = TicketNFT::new();
    let owner = who(1);
    let p = who(2);
    let to = who(3);
    let auth = everyone(&[owner, p]);
    let id = nft.mint(owner, String::from("m"), String::from("i")).unwrap();
    nft.approve(&auth, owner, p, id).unwrap();
    nft.approve(&auth, owner, p, id).unwrap();
    nft.transfer_from(&auth, p, owner, to, id).unwrap();
    assert_eq!(nft.transfer(&auth, owner, p, id), Err(Error::NotOwner));
    assert_eq!(
        nft.events().clone(),
        vec![
            Event::Mint { to: owner, id: 1 },
            Event::Approval { owner, approved: p, id: 1 },
            Event::Transfer { from: owner, to, id: 1 },
        ]
    );
    let taken = nft.take_events();
    assert_eq!(taken.len(), 3);
    assert!(nft.events().is_empty());
    assert_eq!(nft.owner_of(id), Ok(to));
    assert_eq!(nft.total_supply(), 1);
}

#[test]
fn layout_slots_follow_the_state() {
    let mut nft = TicketNFT::new();
    assert!(!nft.has(DataKey::TokenCount));
    assert!(!nft.has(DataKey::Metadata));
    assert!(!nft.has(DataKey::Image));
    assert!(!nft.has(DataKey::Owner(1)));
    let owner = who(1);
    let id = nft.mint(owner, String::from("m"), String::from("i")).unwrap();
    assert!(nft.has(DataKey::TokenCount));
    assert!(nft.has(DataKey::Metadata));
    assert!(nft.has(DataKey::Image));
    assert!(nft.has(DataKey::Owner(id)));
    assert!(!nft.has(DataKey::Owner(id + 1)));
    assert!(!nft.has(DataKey::Owner(0)));
    assert!(!nft.has(DataKey::Approvals(id)));
    nft.approve(&Auth::of(owner), owner, who(2), id).unwrap();
    assert!(nft.has(DataKey::Approvals(id)));
}

#[test]
fn auth_records_exactly_who_consented() {
    let mut auth = Auth::none();
    assert!(!auth.has(who(1)));
    auth.add(who(1));
    assert!(auth.has(who(1)));
    assert!(!auth.has(who(2)));
    assert!(!auth.has(Principal::contract(0, 1)));
    let single = Auth::of(Principal::contract(5, 6));
    assert!(single.has(Principal::contract(5, 6)));
    assert!(!single.has(Principal::account(5, 6)));
    assert!(!single.has(Principal::contract(6, 5)));
}

#[test]
fn restore_rebuilds_the_collection() {
    let owners = vec![who(1), who(2), who(1)];
    let approvals = vec![None, Some(who(9)), None];
    let nft = TicketNFT::restore(owners, approvals, Some(String::from("meta")), None).unwrap();
    assert_eq!(nft.total_supply(), 3);
    assert_eq!(nft.owner_of(1), Ok(who(1)));
    assert_eq!(nft.owner_of(2), Ok(who(2)));
    assert_eq!(nft.owner_of(3), Ok(who(1)));
    assert_eq!(nft.owner_of(4), Err(Error::NotFound));
    assert_eq!(nft.get_approved(1), None);
    assert_eq!(nft.get_approved(2), Some(who(9)));
    assert!(nft.is_approved(who(9), 2));
    assert_eq!(nft.token_uri(), String::from("meta"));
    assert_eq!(
        nft.token_image(),
        String::from("https://ipfs.io/ipfs/QmeRHSYkR4aGRLQXaLmZiccwHw7cvctrB211DzxzuRiqW6")
    );
    assert!(nft.has(DataKey::Metadata));
    assert!(!nft.has(DataKey::Image));
    assert!(nft.events().is_empty());
}

#[test]
fn restore_refuses_a_damaged_layout() {
    assert!(TicketNFT::restore(vec![who(1)], vec![], None, None).is_none());
    assert!(TicketNFT::restore(vec![], vec![None], None, None).is_none());
    assert!(TicketNFT::restore(vec![who(1); 1001], vec![None; 1001], None, None).is_none());
    assert!(TicketNFT::restore(vec![who(1); 1000], vec![None; 1000], None, None).is_some());
    let empty = TicketNFT::restore(vec![], vec![], None, None).unwrap();
    assert_eq!(empty.total_supply(), 0);
    assert!(!empty.has(DataKey::TokenCount));
}

#[test]
fn restored_collection_goes_on_where_it_stopped() {
    let mut first = TicketNFT::new();
    let owner = who(1);
    let auth = Auth::of(owner);
    first.mint(owner, String::from("m"), String::from("i")).unwrap();
    first.mint(who(2), String::from("n"), String::from("j")).unwrap();
    first.approve(&auth, owner, who(3), 1).unwrap();
    let owners = vec![first.owner_of(1).unwrap(), first.owner_of(2).unwrap()];
    let approvals = vec![first.get_approved(1), first.get_approved(2)];
    let mut second =
        TicketNFT::restore(owners, approvals, Some(first.token_uri()), Some(first.token_image()))
            .unwrap();
    assert_eq!(second.transfer_from(&Auth::of(who(3)), who(3), owner, who(4), 1), Ok(()));
    assert_eq!(second.owner_of(1), Ok(who(4)));
    assert_eq!(second.mint(who(5), String::from("o"), String::from("k")), Ok(3));
    assert_eq!(second.token_uri(), String::from("o"));
}
