use nft_mint_activity::identity::Identity;
use nft_mint_activity::ledger::{
    supported_interfaces, InitArgs, InterfaceId, LogoResult, MintResult, Notification, State,
    NOTIFY_METHOD,
};
use nft_mint_activity::metadata::{MetadataPart, MetadataPurpose, MetadataVal};
use nft_mint_activity::model::Error;

fn id(bytes: &[u8]) -> Identity {
    Identity::from_bytes(bytes.to_vec())
}

fn args(custodians: Option<Vec<Identity>>, white_list: Vec<Identity>) -> InitArgs {
    InitArgs {
        custodians,
        logo: None,
        name: String::from("Collection"),
        symbol: String::from("COL"),
        white_list,
        begin_date: String::from("2022-01-01 00:00:00"),
        end_date: String::from("2022-12-31 23:59:59"),
        total_limit: String::from("100"),
    }
}

fn registry(custodian: &[u8]) -> State {
    State::try_init(args(Some(vec![id(custodian)]), vec![]), id(&[0xff])).unwrap()
}

fn minted(state: &mut State, to: &[u8]) -> MintResult {
    state.mint(id(to), vec![], vec![]).unwrap()
}

#[test]
fn new_registry_is_empty() {
    let state = State::try_init(args(None, vec![]), id(&[1])).unwrap();
    assert_eq!(state.total_supply(), 0);
    assert_eq!(state.txid(), 0);
    assert_eq!(state.name(), "Collection");
    assert_eq!(state.symbol(), "COL");
    assert_eq!(state.total_limit(), "100");
    assert_eq!(state.logo(), None);
    assert_eq!(state.balance_of(&id(&[1])), 0);
    assert_eq!(state.owner_of(0), Err(Error::InvalidTokenId));
}

#[test]
fn caller_is_custodian_where_none_are_given() {
    let state = State::try_init(args(None, vec![]), id(&[1])).unwrap();
    assert!(state.is_custodian(&id(&[1])));
    assert!(!state.is_custodian(&id(&[2])));
}

#[test]
fn given_custodians_replace_the_caller() {
    let state =
        State::try_init(args(Some(vec![id(&[2]), id(&[3]), id(&[2])]), vec![]), id(&[1])).unwrap();
    assert!(!state.is_custodian(&id(&[1])));
    assert!(state.is_custodian(&id(&[2])));
    assert!(state.is_custodian(&id(&[3])));
}

#[test]
fn init_refuses_a_date_it_cannot_read() {
    let mut bad_begin = args(None, vec![]);
    bad_begin.begin_date = String::from("2022-01-01");
    assert!(State::try_init(bad_begin, id(&[1])).is_none());
    let mut bad_end = args(None, vec![]);
    bad_end.end_date = String::from("31/12/2022 23:59:59");
    assert!(State::try_init(bad_end, id(&[1])).is_none());
}

#[test]
fn init_reads_the_window_as_utc_milliseconds() {
    let state = State::init(args(None, vec![]), id(&[1]));
    assert_eq!(state.window().begin, 1_640_995_200_000);
    assert_eq!(state.window().end, 1_672_531_199_000);
    assert_eq!(state.nft_mint_date(), "2022-01-01 00:00:00,2022-12-31 23:59:59");
}

#[test]
fn mint_gives_the_next_id_to_the_recipient() {
    let mut state = registry(&[1]);
    let first = minted(&mut state, &[7]);
    assert_eq!(first, MintResult { token_id: 0, id: 0 });
    assert_eq!(state.owner_of(0).unwrap(), id(&[7]));
    assert_eq!(state.total_supply(), 1);
    let second = minted(&mut state, &[8]);
    assert_eq!(second, MintResult { token_id: 1, id: 1 });
    assert_eq!(state.owner_of(1).unwrap(), id(&[8]));
    assert_eq!(state.owner_of(0).unwrap(), id(&[7]));
    assert_eq!(state.total_supply(), 2);
}

#[test]
fn mint_is_open_to_anyone() {
    let mut state = registry(&[1]);
    let part = MetadataPart::new(MetadataPurpose::Preview, vec![1, 2, 3]);
    let result = state.mint(id(&[9]), vec![part], vec![4, 5]).unwrap();
    assert_eq!(result.token_id, 0);
    let token = state.token(0).unwrap();
    assert_eq!(token.id(), 0);
    assert_eq!(token.content(), &vec![4, 5]);
    assert_eq!(token.approved(), None);
    assert_eq!(token.metadata().len(), 1);
    assert_eq!(token.metadata()[0].purpose(), MetadataPurpose::Preview);
    assert_eq!(token.metadata()[0].data(), &vec![1, 2, 3]);
}

#[test]
fn mint_records_the_digest_of_the_content() {
    let mut state = registry(&[1]);
    state.mint(id(&[7]), vec![], b"abc".to_vec()).unwrap();
    state.mint(id(&[7]), vec![], vec![]).unwrap();
    let abc: Vec<u8> = vec![
        0xba, 0x78, 0x16, 0xbf, 0x8f, 0x01, 0xcf, 0xea, 0x41, 0x41, 0x40, 0xde, 0x5d, 0xae, 0x22,
        0x23, 0xb0, 0x03, 0x61, 0xa3, 0x96, 0x17, 0x7a, 0x9c, 0xb4, 0x10, 0xff, 0x61, 0xf2, 0x00,
        0x15, 0xad,
    ];
    let empty: Vec<u8> = vec![
        0xe3, 0xb0, 0xc4, 0x42, 0x98, 0xfc, 0x1c, 0x14, 0x9a, 0xfb, 0xf4, 0xc8, 0x99, 0x6f, 0xb9,
        0x24, 0x27, 0xae, 0x41, 0xe4, 0x64, 0x9b, 0x93, 0x4c, 0xa4, 0x95, 0x99, 0x1b, 0x78, 0x52,
        0xb8, 0x55,
    ];
    assert_eq!(state.content_hash(0), Ok(&abc));
    assert_eq!(state.content_hash(1), Ok(&empty));
    assert_eq!(state.content_hash(2), Err(Error::InvalidTokenId));
}

#[test]
fn index_entries_outlast_transfers_and_burns() {
    let mut state = registry(&[1]);
    state.mint(id(&[7]), vec![], b"abc".to_vec()).unwrap();
    let before = state.content_hash(0).unwrap().clone();
    state.transfer_from(&id(&[7]), &id(&[7]), id(&[8]), 0).unwrap();
    state.burn(&id(&[8]), 0).unwrap();
    state.mint(id(&[7]), vec![], b"other".to_vec()).unwrap();
    assert_eq!(state.content_hash(0).unwrap(), &before);
}

#[test]
fn mint_with_digest_records_what_it_is_given() {
    let mut state = registry(&[1]);
    let result = state.mint_with_digest(id(&[7]), vec![], vec![1], vec![0xaa; 32]);
    assert_eq!(result, MintResult { token_id: 0, id: 0 });
    assert_eq!(state.content_hash(0), Ok(&vec![0xaa; 32]));
}

#[test]
fn owner_transfers_its_token() {
    let mut state = registry(&[1]);
    minted(&mut state, &[7]);
    assert_eq!(state.transfer_from(&id(&[7]), &id(&[7]), id(&[8]), 0), Ok(1));
    assert_eq!(state.owner_of(0).unwrap(), id(&[8]));
    assert_eq!(state.balance_of(&id(&[7])), 0);
    assert_eq!(state.balance_of(&id(&[8])), 1);
}

#[test]
fn transfer_of_an_unknown_token_is_refused() {
    let mut state = registry(&[1]);
    minted(&mut state, &[7]);
    assert_eq!(state.transfer_from(&id(&[7]), &id(&[7]), id(&[8]), 1), Err(Error::InvalidTokenId));
    assert_eq!(
        state.transfer_from(&id(&[7]), &id(&[7]), id(&[8]), u64::MAX),
        Err(Error::InvalidTokenId)
    );
    assert_eq!(state.txid(), 1);
}

#[test]
fn stranger_may_not_transfer() {
    let mut state = registry(&[1]);
    minted(&mut state, &[7]);
    assert_eq!(state.transfer_from(&id(&[9]), &id(&[7]), id(&[9]), 0), Err(Error::Unauthorized));
    assert_eq!(state.owner_of(0).unwrap(), id(&[7]));
    assert_eq!(state.txid(), 1);
}

#[test]
fn authorization_is_looked_at_before_ownership() {
    let mut state = registry(&[1]);
    minted(&mut state, &[7]);
    // A stranger naming the wrong owner is unauthorized, not mismatched.
    assert_eq!(state.transfer_from(&id(&[9]), &id(&[8]), id(&[9]), 0), Err(Error::Unauthorized));
    // A custodian naming the wrong owner is authorized, and then mismatched.
    assert_eq!(
        state.transfer_from(&id(&[1]), &id(&[8]), id(&[9]), 0),
        Err(Error::OwnershipMismatch)
    );
    // So is the owner itself.
    assert_eq!(
        state.transfer_from(&id(&[7]), &id(&[8]), id(&[9]), 0),
        Err(Error::OwnershipMismatch)
    );
    assert_eq!(state.owner_of(0).unwrap(), id(&[7]));
    assert_eq!(state.txid(), 1);
}

#[test]
fn custodian_transfers_for_the_owner() {
    let mut state = registry(&[1]);
    minted(&mut state, &[7]);
    assert_eq!(state.transfer_from(&id(&[1]), &id(&[7]), id(&[8]), 0), Ok(1));
    assert_eq!(state.owner_of(0).unwrap(), id(&[8]));
}

#[test]
fn operator_transfers_for_the_owner() {
    let mut state = registry(&[1]);
    minted(&mut state, &[7]);
    assert!(!state.is_approved_for_all(&id(&[7]), &id(&[5])));
    assert_eq!(state.set_approval_for_all(&id(&[7]), id(&[5]), true), Ok(1));
    assert!(state.is_approved_for_all(&id(&[7]), &id(&[5])));
    assert!(!state.is_approved_for_all(&id(&[5]), &id(&[7])));
    assert_eq!(state.transfer_from(&id(&[5]), &id(&[7]), id(&[8]), 0), Ok(2));
    assert_eq!(state.owner_of(0).unwrap(), id(&[8]));
}

#[test]
fn operator_of_another_owner_may_not_transfer() {
    let mut state = registry(&[1]);
    minted(&mut state, &[7]);
    state.set_approval_for_all(&id(&[6]), id(&[5]), true).unwrap();
    assert_eq!(state.transfer_from(&id(&[5]), &id(&[7]), id(&[8]), 0), Err(Error::Unauthorized));
    // Naming the owner that did grant passes authorization and fails on ownership.
    assert_eq!(
        state.transfer_from(&id(&[5]), &id(&[6]), id(&[8]), 0),
        Err(Error::OwnershipMismatch)
    );
}

#[test]
fn approval_can_be_taken_back() {
    let mut state = registry(&[1]);
    minted(&mut state, &[7]);
    state.set_approval_for_all(&id(&[7]), id(&[5]), true).unwrap();
    state.set_approval_for_all(&id(&[7]), id(&[6]), true).unwrap();
    assert_eq!(state.set_approval_for_all(&id(&[7]), id(&[5]), false), Ok(3));
    assert!(!state.is_approved_for_all(&id(&[7]), &id(&[5])));
    assert!(state.is_approved_for_all(&id(&[7]), &id(&[6])));
    assert_eq!(state.transfer_from(&id(&[5]), &id(&[7]), id(&[8]), 0), Err(Error::Unauthorized));
}

#[test]
fn approving_oneself_changes_no_grant_but_takes_a_txid() {
    let mut state = registry(&[1]);
    assert_eq!(state.set_approval_for_all(&id(&[7]), id(&[7]), true), Ok(0));
    assert!(!state.is_approved_for_all(&id(&[7]), &id(&[7])));
    assert_eq!(state.set_approval_for_all(&id(&[7]), id(&[7]), false), Ok(1));
    assert_eq!(state.txid(), 2);
}

#[test]
fn sentinel_with_false_takes_back_all_grants_of_the_caller() {
    let mut state = registry(&[1]);
    state.set_approval_for_all(&id(&[7]), id(&[5]), true).unwrap();
    state.set_approval_for_all(&id(&[7]), id(&[6]), true).unwrap();
    state.set_approval_for_all(&id(&[8]), id(&[5]), true).unwrap();
    assert_eq!(state.set_approval_for_all(&id(&[7]), Identity::sentinel(), false), Ok(3));
    assert!(!state.is_approved_for_all(&id(&[7]), &id(&[5])));
    assert!(!state.is_approved_for_all(&id(&[7]), &id(&[6])));
    assert!(state.is_approved_for_all(&id(&[8]), &id(&[5])));
}

#[test]
fn sentinel_with_true_grants_no_one() {
    let mut state = registry(&[1]);
    minted(&mut state, &[7]);
    state.set_approval_for_all(&id(&[7]), id(&[5]), true).unwrap();
    assert_eq!(state.set_approval_for_all(&id(&[7]), Identity::sentinel(), true), Ok(2));
    assert!(!state.is_approved_for_all(&id(&[7]), &Identity::sentinel()));
    assert!(!state.is_approved_for_all(&id(&[7]), &id(&[9])));
    assert!(state.is_approved_for_all(&id(&[7]), &id(&[5])));
    assert_eq!(state.transfer_from(&id(&[9]), &id(&[7]), id(&[9]), 0), Err(Error::Unauthorized));
    assert_eq!(state.owner_of(0).unwrap(), id(&[7]));
}

#[test]
fn safe_transfer_refuses_the_sentinel() {
    let mut state = registry(&[1]);
    minted(&mut state, &[7]);
    assert_eq!(
        state.safe_transfer_from(&id(&[7]), &id(&[7]), Identity::sentinel(), 0),
        Err(Error::ZeroAddress)
    );
    // The target is looked at before the id and before the caller.
    assert_eq!(
        state.safe_transfer_from(&id(&[9]), &id(&[7]), Identity::sentinel(), 5),
        Err(Error::ZeroAddress)
    );
    assert_eq!(state.owner_of(0).unwrap(), id(&[7]));
    assert_eq!(state.txid(), 1);
    assert_eq!(state.safe_transfer_from(&id(&[7]), &id(&[7]), id(&[8]), 0), Ok(1));
    assert_eq!(state.owner_of(0).unwrap(), id(&[8]));
}

#[test]
fn plain_transfer_may_go_to_the_sentinel() {
    let mut state = registry(&[1]);
    minted(&mut state, &[7]);
    assert_eq!(state.transfer_from(&id(&[7]), &id(&[7]), Identity::sentinel(), 0), Ok(1));
    assert!(state.owner_of(0).unwrap().is_sentinel());
}

#[test]
fn approved_delegate_transfers_once() {
    let mut state = registry(&[1]);
    minted(&mut state, &[7]);
    assert_eq!(state.approve(&id(&[7]), id(&[5]), 0), Ok(1));
    assert_eq!(state.token(0).unwrap().approved(), Some(&id(&[5])));
    assert_eq!(state.transfer_from(&id(&[5]), &id(&[7]), id(&[8]), 0), Ok(2));
    assert_eq!(state.owner_of(0).unwrap(), id(&[8]));
    assert_eq!(state.token(0).unwrap().approved(), None);
    assert_eq!(state.transfer_from(&id(&[5]), &id(&[8]), id(&[5]), 0), Err(Error::Unauthorized));
}

#[test]
fn approve_is_refused_for_strangers_and_unknown_tokens() {
    let mut state = registry(&[1]);
    minted(&mut state, &[7]);
    assert_eq!(state.approve(&id(&[9]), id(&[9]), 0), Err(Error::Unauthorized));
    assert_eq!(state.approve(&id(&[7]), id(&[5]), 3), Err(Error::InvalidTokenId));
    assert_eq!(state.token(0).unwrap().approved(), None);
    assert_eq!(state.txid(), 1);
}

#[test]
fn approve_asks_for_the_operators_of_the_delegate() {
    let mut state = registry(&[1]);
    minted(&mut state, &[7]);
    // 9 is an operator of 5, not of the owner 7: it may approve 5, and no one else.
    state.set_approval_for_all(&id(&[5]), id(&[9]), true).unwrap();
    assert_eq!(state.approve(&id(&[9]), id(&[6]), 0), Err(Error::Unauthorized));
    assert_eq!(state.approve(&id(&[9]), id(&[5]), 0), Ok(2));
    assert_eq!(state.token(0).unwrap().approved(), Some(&id(&[5])));
}

#[test]
fn approved_delegate_may_approve_another() {
    let mut state = registry(&[1]);
    minted(&mut state, &[7]);
    state.approve(&id(&[7]), id(&[5]), 0).unwrap();
    assert_eq!(state.approve(&id(&[5]), id(&[6]), 0), Ok(2));
    assert_eq!(state.token(0).unwrap().approved(), Some(&id(&[6])));
}

#[test]
fn get_approved_falls_back_to_the_caller() {
    let mut state = registry(&[1]);
    minted(&mut state, &[7]);
    assert_eq!(state._get_approved(id(&[3]), 0), Ok(id(&[3])));
    state.approve(&id(&[7]), id(&[5]), 0).unwrap();
    assert_eq!(state._get_approved(id(&[3]), 0), Ok(id(&[5])));
    assert_eq!(state._get_approved(id(&[3]), 1), Err(Error::InvalidTokenId));
}

#[test]
fn only_the_owner_burns() {
    let mut state = registry(&[1]);
    minted(&mut state, &[7]);
    state.approve(&id(&[7]), id(&[5]), 0).unwrap();
    state.set_approval_for_all(&id(&[7]), id(&[6]), true).unwrap();
    assert_eq!(state.burn(&id(&[5]), 0), Err(Error::Unauthorized));
    assert_eq!(state.burn(&id(&[6]), 0), Err(Error::Unauthorized));
    assert_eq!(state.burn(&id(&[1]), 0), Err(Error::Unauthorized));
    assert_eq!(state.burn(&id(&[7]), 1), Err(Error::InvalidTokenId));
    assert_eq!(state.owner_of(0).unwrap(), id(&[7]));
    assert_eq!(state.txid(), 3);
    assert_eq!(state.burn(&id(&[7]), 0), Ok(3));
    assert!(state.owner_of(0).unwrap().is_sentinel());
    assert_eq!(state.total_supply(), 1);
    assert_eq!(state.balance_of(&id(&[7])), 0);
    assert_eq!(state.balance_of(&Identity::sentinel()), 1);
}

#[test]
fn burn_leaves_the_approved_delegate() {
    let mut state = registry(&[1]);
    minted(&mut state, &[7]);
    state.approve(&id(&[7]), id(&[5]), 0).unwrap();
    state.burn(&id(&[7]), 0).unwrap();
    assert_eq!(state.token(0).unwrap().approved(), Some(&id(&[5])));
    // The stale delegate still passes authorization.
    assert_eq!(state.approve(&id(&[5]), id(&[6]), 0), Ok(3));
}

#[test]
fn burned_token_cannot_be_burned_by_its_former_owner() {
    let mut state = registry(&[1]);
    minted(&mut state, &[7]);
    state.burn(&id(&[7]), 0).unwrap();
    assert_eq!(state.burn(&id(&[7]), 0), Err(Error::Unauthorized));
}

#[test]
fn txids_count_up_and_refused_calls_take_none() {
    let mut state = registry(&[1]);
    assert_eq!(minted(&mut state, &[7]).id, 0);
    assert_eq!(state.transfer_from(&id(&[9]), &id(&[7]), id(&[9]), 0), Err(Error::Unauthorized));
    assert_eq!(state.approve(&id(&[7]), id(&[5]), 0), Ok(1));
    assert_eq!(state.burn(&id(&[5]), 0), Err(Error::Unauthorized));
    assert_eq!(state.approve(&id(&[7]), id(&[5]), 9), Err(Error::InvalidTokenId));
    assert_eq!(state.set_approval_for_all(&id(&[7]), id(&[6]), true), Ok(2));
    assert_eq!(state.transfer_from(&id(&[5]), &id(&[7]), id(&[8]), 0), Ok(3));
    assert_eq!(
        state.safe_transfer_from(&id(&[8]), &id(&[8]), Identity::sentinel(), 0),
        Err(Error::ZeroAddress)
    );
    assert_eq!(state.burn(&id(&[8]), 0), Ok(4));
    assert_eq!(minted(&mut state, &[7]).id, 5);
    assert_eq!(state.next_txid(), 6);
    assert_eq!(state.txid(), 7);
}

#[test]
fn never_burned_token_is_not_owned_by_the_sentinel() {
    let mut state = registry(&[1]);
    minted(&mut state, &[7]);
    minted(&mut state, &[8]);
    state.approve(&id(&[7]), id(&[5]), 0).unwrap();
    state.transfer_from(&id(&[5]), &id(&[7]), id(&[6]), 0).unwrap();
    state.set_approval_for_all(&id(&[6]), Identity::sentinel(), false).unwrap();
    state.burn(&id(&[8]), 1).unwrap();
    assert!(!state.owner_of(0).unwrap().is_sentinel());
    assert!(state.owner_of(1).unwrap().is_sentinel());
}

#[test]
fn balance_counts_the_tokens_of_an_owner() {
    let mut state = registry(&[1]);
    minted(&mut state, &[7]);
    minted(&mut state, &[8]);
    minted(&mut state, &[7]);
    assert_eq!(state.balance_of(&id(&[7])), 2);
    assert_eq!(state.balance_of(&id(&[8])), 1);
    assert_eq!(state.balance_of(&id(&[9])), 0);
}

#[test]
fn metadata_of_a_token() {
    let mut state = registry(&[1]);
    let mut part = MetadataPart::new(MetadataPurpose::Rendered, vec![9]);
    part.insert(String::from("size"), MetadataVal::Nat64Content(12));
    state.mint(id(&[7]), vec![part], vec![]).unwrap();
    let metadata = state.get_metadata(0).unwrap();
    assert_eq!(metadata.len(), 1);
    assert_eq!(metadata[0].get("size"), Some(&MetadataVal::Nat64Content(12)));
    assert_eq!(metadata[0].get("other"), None);
    assert!(matches!(state.get_metadata(1), Err(Error::InvalidTokenId)));
}

#[test]
fn metadata_for_a_user_comes_by_rising_id() {
    let mut state = registry(&[1]);
    state.mint(id(&[7]), vec![MetadataPart::new(MetadataPurpose::Preview, vec![0])], vec![]).unwrap();
    state.mint(id(&[8]), vec![], vec![]).unwrap();
    state.mint(id(&[7]), vec![MetadataPart::new(MetadataPurpose::Rendered, vec![2])], vec![]).unwrap();
    let found = state.get_metadata_for_user(&id(&[7]));
    assert_eq!(found.len(), 2);
    assert_eq!(found[0].token_id, 0);
    assert_eq!(found[0].metadata_desc[0].data(), &vec![0]);
    assert_eq!(found[1].token_id, 2);
    assert_eq!(found[1].metadata_desc[0].data(), &vec![2]);
    assert_eq!(state.get_metadata_for_user(&id(&[9])).len(), 0);
}

#[test]
fn transfer_with_notification_says_what_to_send() {
    let mut state = registry(&[1]);
    minted(&mut state, &[7]);
    let (txid, note) =
        state.transfer_from_notify(&id(&[1]), &id(&[7]), id(&[8]), 0, vec![1, 2]).unwrap();
    assert_eq!(txid, 1);
    assert_eq!(
        note,
        Notification {
            recipient: id(&[8]),
            caller: id(&[1]),
            from: id(&[7]),
            token_id: 0,
            data: vec![1, 2],
        }
    );
    assert_eq!(state.owner_of(0).unwrap(), id(&[8]));
    assert_eq!(NOTIFY_METHOD, "onDIP721Received");
}

#[test]
fn refused_transfer_sends_nothing() {
    let mut state = registry(&[1]);
    minted(&mut state, &[7]);
    assert_eq!(
        state.transfer_from_notify(&id(&[9]), &id(&[7]), id(&[8]), 0, vec![]),
        Err(Error::Unauthorized)
    );
    assert_eq!(
        state.safe_transfer_from_notify(&id(&[7]), &id(&[7]), Identity::sentinel(), 0, vec![]),
        Err(Error::ZeroAddress)
    );
    assert_eq!(state.owner_of(0).unwrap(), id(&[7]));
    let (txid, note) =
        state.safe_transfer_from_notify(&id(&[7]), &id(&[7]), id(&[8]), 0, vec![3]).unwrap();
    assert_eq!(txid, 1);
    assert_eq!(note.recipient, id(&[8]));
    assert_eq!(note.data, vec![3]);
}

#[test]
fn custodian_sets_name_symbol_and_logo() {
    let mut state = registry(&[1]);
    assert_eq!(state.set_name(&id(&[1]), String::from("New")), Ok(()));
    assert_eq!(state.set_symbol(&id(&[1]), String::from("NEW")), Ok(()));
    let logo = LogoResult { logo_type: String::from("image/png"), data: String::from("AAAA") };
    assert_eq!(state.set_logo(&id(&[1]), Some(logo)), Ok(()));
    assert_eq!(state.name(), "New");
    assert_eq!(state.symbol(), "NEW");
    assert_eq!(state.logo().unwrap().logo_type, "image/png");
    assert_eq!(state.logo().unwrap().data, "AAAA");
    assert_eq!(state.set_logo(&id(&[1]), None), Ok(()));
    assert_eq!(state.logo(), None);
    // None of these takes a transaction id.
    assert_eq!(state.txid(), 0);
}

#[test]
fn others_set_nothing() {
    let mut state = registry(&[1]);
    assert_eq!(state.set_name(&id(&[2]), String::from("New")), Err(Error::Unauthorized));
    assert_eq!(state.set_symbol(&id(&[2]), String::from("NEW")), Err(Error::Unauthorized));
    assert_eq!(state.set_logo(&id(&[2]), None), Err(Error::Unauthorized));
    assert_eq!(state.name(), "Collection");
    assert_eq!(state.symbol(), "COL");
}

#[test]
fn only_custodians_make_custodians() {
    let mut state = registry(&[1]);
    assert_eq!(state.set_custodian(&id(&[2]), id(&[2]), true), Err(Error::Unauthorized));
    assert!(!state.is_custodian(&id(&[2])));
    assert_eq!(state.set_custodian(&id(&[1]), id(&[2]), true), Ok(()));
    assert!(state.is_custodian(&id(&[2])));
    assert_eq!(state.set_custodian(&id(&[2]), id(&[1]), false), Ok(()));
    assert!(!state.is_custodian(&id(&[1])));
    assert_eq!(state.set_custodian(&id(&[1]), id(&[1]), true), Err(Error::Unauthorized));
    // Removing an identity that is no custodian changes nothing.
    assert_eq!(state.set_custodian(&id(&[2]), id(&[9]), false), Ok(()));
    assert!(state.is_custodian(&id(&[2])));
}

#[test]
fn served_interfaces() {
    assert_eq!(
        supported_interfaces(),
        vec![
            InterfaceId::TransferNotification,
            InterfaceId::Approval,
            InterfaceId::Burn,
            InterfaceId::Mint,
        ]
    );
}

#[test]
fn approve_then_delegate_transfers() {
    // A mints token 0 to X; X approves Y; Y moves the token from X to Z.
    let (a, x, y, z) = (id(&[0xa]), id(&[0x10]), id(&[0x11]), id(&[0x12]));
    let mut state = State::try_init(args(Some(vec![a.clone()]), vec![]), a).unwrap();
    assert_eq!(state.mint(x.clone(), vec![], vec![]).unwrap().token_id, 0);
    assert!(state.approve(&x, y.clone(), 0).is_ok());
    assert!(state.transfer_from(&y, &x, z.clone(), 0).is_ok());
    assert_eq!(state.owner_of(0).unwrap(), z);
    assert_eq!(state.token(0).unwrap().approved(), None);
}

#[test]
fn who_may_act_on_a_token() {
    let mut state = registry(&[1]);
    minted(&mut state, &[7]);
    state.approve(&id(&[7]), id(&[5]), 0).unwrap();
    state.set_approval_for_all(&id(&[7]), id(&[6]), true).unwrap();
    // The owner, the approved delegate, an operator of the subject, a custodian.
    assert_eq!(state.is_authorized(&id(&[7]), &id(&[9]), 0), Ok(true));
    assert_eq!(state.is_authorized(&id(&[5]), &id(&[9]), 0), Ok(true));
    assert_eq!(state.is_authorized(&id(&[6]), &id(&[7]), 0), Ok(true));
    assert_eq!(state.is_authorized(&id(&[1]), &id(&[9]), 0), Ok(true));
    // An operator of the owner is none of another subject.
    assert_eq!(state.is_authorized(&id(&[6]), &id(&[9]), 0), Ok(false));
    assert_eq!(state.is_authorized(&id(&[9]), &id(&[7]), 0), Ok(false));
    assert_eq!(state.is_authorized(&id(&[7]), &id(&[7]), 1), Err(Error::InvalidTokenId));
}
