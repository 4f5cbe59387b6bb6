use nft_mint_activity::hash_index::ContentHashIndex;
use nft_mint_activity::identity::{clone_identities, Identity, IdentitySet};
use nft_mint_activity::ledger::{InitArgs, LogoResult, Nft, StableState, State};
use nft_mint_activity::metadata::{MetadataPart, MetadataPurpose, MetadataVal};
use nft_mint_activity::model::Error;
use nft_mint_activity::operators::{Grant, Operators};

fn ident(bytes: &[u8]) -> Identity {
    Identity::from_bytes(bytes.to_vec())
}

#[test]
fn identities_are_their_bytes() {
    assert_eq!(ident(&[1, 2]).as_bytes(), &vec![1, 2]);
    assert!(ident(&[1, 2]).same(&ident(&[1, 2])));
    assert!(!ident(&[1, 2]).same(&ident(&[1, 3])));
    assert!(!ident(&[1, 2]).same(&ident(&[1])));
    assert!(!ident(&[1]).same(&ident(&[1, 2])));
    assert_eq!(ident(&[1, 2]).clone(), ident(&[1, 2]));
}

#[test]
fn sentinel_has_no_bytes() {
    assert!(Identity::sentinel().is_sentinel());
    assert!(ident(&[]).is_sentinel());
    assert!(!ident(&[0]).is_sentinel());
    assert!(Identity::sentinel().same(&ident(&[])));
}

#[test]
fn identity_set_lists_nothing_twice() {
    let mut set = IdentitySet::new();
    assert!(set.insert(ident(&[1])));
    assert!(set.insert(ident(&[2])));
    assert!(!set.insert(ident(&[1])));
    assert_eq!(set.len(), 2);
    assert!(set.contains(&ident(&[1])));
    assert!(!set.contains(&ident(&[3])));
    assert!(set.remove(&ident(&[1])));
    assert!(!set.remove(&ident(&[1])));
    assert!(!set.contains(&ident(&[1])));
    assert!(set.contains(&ident(&[2])));
    assert_eq!(set.get(0), &ident(&[2]));
    set.clear();
    assert_eq!(set.len(), 0);
    assert!(!set.contains(&ident(&[2])));
}

#[test]
fn identity_set_of_a_list() {
    let set = IdentitySet::from_vec(&vec![ident(&[1]), ident(&[2]), ident(&[1])]);
    assert_eq!(set.len(), 2);
    assert_eq!(set.to_vec(), vec![ident(&[1]), ident(&[2])]);
    assert_eq!(clone_identities(&vec![ident(&[1]), ident(&[1])]), vec![ident(&[1]), ident(&[1])]);
}

#[test]
fn operators_are_pairs() {
    let mut table = Operators::new();
    table.grant(ident(&[1]), ident(&[2]));
    table.grant(ident(&[1]), ident(&[3]));
    table.grant(ident(&[1]), ident(&[2]));
    table.grant(ident(&[4]), ident(&[2]));
    assert_eq!(table.len(), 3);
    assert!(table.contains(&ident(&[1]), &ident(&[2])));
    assert!(!table.contains(&ident(&[2]), &ident(&[1])));
    table.revoke(&ident(&[1]), &ident(&[2]));
    assert!(!table.contains(&ident(&[1]), &ident(&[2])));
    assert!(table.contains(&ident(&[1]), &ident(&[3])));
    table.revoke(&ident(&[1]), &ident(&[9]));
    assert_eq!(table.len(), 2);
    table.grant(ident(&[1]), ident(&[5]));
    table.revoke_all(&ident(&[1]));
    assert_eq!(table.len(), 1);
    assert_eq!(table.get(0), &Grant::new(ident(&[4]), ident(&[2])));
    assert_eq!(table.get(0).owner(), &ident(&[4]));
    assert_eq!(table.get(0).operator(), &ident(&[2]));
}

#[test]
fn operators_of_a_list() {
    let list = vec![
        Grant::new(ident(&[1]), ident(&[2])),
        Grant::new(ident(&[1]), ident(&[2])),
        Grant::new(ident(&[3]), ident(&[2])),
    ];
    let table = Operators::from_vec(&list);
    assert_eq!(table.len(), 2);
    assert_eq!(
        table.to_vec(),
        vec![Grant::new(ident(&[1]), ident(&[2])), Grant::new(ident(&[3]), ident(&[2]))]
    );
}

#[test]
fn metadata_table_keeps_one_value_for_a_key() {
    let mut part = MetadataPart::new(MetadataPurpose::Preview, vec![7]);
    assert_eq!(part.len(), 0);
    part.insert(String::from("a"), MetadataVal::Nat8Content(1));
    part.insert(String::from("b"), MetadataVal::TextContent(String::from("x")));
    part.insert(String::from("a"), MetadataVal::Nat16Content(2));
    assert_eq!(part.len(), 2);
    assert_eq!(part.get("a"), Some(&MetadataVal::Nat16Content(2)));
    assert_eq!(part.get("b"), Some(&MetadataVal::TextContent(String::from("x"))));
    assert_eq!(part.get("c"), None);
    assert_eq!(part.entry(0), (&String::from("a"), &MetadataVal::Nat16Content(2)));
    assert_eq!(part.entry(1).0, "b");
    assert_eq!(part.purpose(), MetadataPurpose::Preview);
    assert_eq!(part.data(), &vec![7]);
}

#[test]
fn metadata_values_copy() {
    let values = vec![
        MetadataVal::TextContent(String::from("t")),
        MetadataVal::BlobContent(vec![1]),
        MetadataVal::NatContent(u128::MAX),
        MetadataVal::Nat8Content(8),
        MetadataVal::Nat16Content(16),
        MetadataVal::Nat32Content(32),
        MetadataVal::Nat64Content(64),
    ];
    for value in &values {
        assert_eq!(&value.clone(), value);
    }
}

#[test]
fn hash_index_only_grows() {
    let mut index = ContentHashIndex::new();
    assert_eq!(index.len(), 0);
    assert_eq!(index.get(0), None);
    index.record(vec![1; 32]);
    index.record(vec![2; 32]);
    assert_eq!(index.len(), 2);
    assert_eq!(index.get(0), Some(&vec![1; 32]));
    assert_eq!(index.get(1), Some(&vec![2; 32]));
    assert_eq!(index.get(2), None);
    assert_eq!(index.into_digests(), vec![vec![1; 32], vec![2; 32]]);
    let again = ContentHashIndex::from_digests(vec![vec![3; 32]]);
    assert_eq!(again.get(0), Some(&vec![3; 32]));
}

fn busy_registry() -> State {
    let args = InitArgs {
        custodians: Some(vec![ident(&[1])]),
        logo: Some(LogoResult { logo_type: String::from("image/png"), data: String::from("AA") }),
        name: String::from("Collection"),
        symbol: String::from("COL"),
        white_list: vec![ident(&[0xb]), ident(&[0xc])],
        begin_date: String::from("2022-01-01 00:00:00"),
        end_date: String::from("2022-12-31 23:59:59"),
        total_limit: String::from("100"),
    };
    let mut state = State::try_init(args, ident(&[1])).unwrap();
    let mut part = MetadataPart::new(MetadataPurpose::Rendered, vec![9]);
    part.insert(String::from("k"), MetadataVal::Nat32Content(5));
    state.mint(ident(&[7]), vec![part], b"abc".to_vec()).unwrap();
    state.mint(ident(&[8]), vec![], vec![]).unwrap();
    state.approve(&ident(&[7]), ident(&[5]), 0).unwrap();
    state.set_approval_for_all(&ident(&[8]), ident(&[6]), true).unwrap();
    state.burn(&ident(&[8]), 1).unwrap();
    state
}

#[test]
fn snapshot_then_restore_gives_the_same_registry() {
    let before = busy_registry();
    let hash0 = before.content_hash(0).unwrap().clone();
    let hash1 = before.content_hash(1).unwrap().clone();
    let mut state = State::restore(before.snapshot()).unwrap();
    assert_eq!(state.total_supply(), 2);
    assert_eq!(state.txid(), 5);
    assert_eq!(state.owner_of(0).unwrap(), ident(&[7]));
    assert!(state.owner_of(1).unwrap().is_sentinel());
    assert_eq!(state.token(0).unwrap().approved(), Some(&ident(&[5])));
    assert_eq!(state.token(0).unwrap().content(), &b"abc".to_vec());
    assert_eq!(state.get_metadata(0).unwrap()[0].get("k"), Some(&MetadataVal::Nat32Content(5)));
    assert!(state.is_approved_for_all(&ident(&[8]), &ident(&[6])));
    assert!(state.is_custodian(&ident(&[1])));
    assert_eq!(state.white_list(), Ok(vec![ident(&[0xb]), ident(&[0xc])]));
    assert_eq!(state.name(), "Collection");
    assert_eq!(state.symbol(), "COL");
    assert_eq!(state.total_limit(), "100");
    assert_eq!(state.logo().unwrap().data, "AA");
    assert_eq!(state.nft_mint_date(), "2022-01-01 00:00:00,2022-12-31 23:59:59");
    assert_eq!(state.window().begin, 1_640_995_200_000);
    assert_eq!(state.window().end, 1_672_531_199_000);
    assert_eq!(state.content_hash(0).unwrap(), &hash0);
    assert_eq!(state.content_hash(1).unwrap(), &hash1);
    // The restored registry goes on where the other stopped.
    assert_eq!(state.transfer_from(&ident(&[5]), &ident(&[7]), ident(&[9]), 0), Ok(5));
    assert_eq!(state.burn(&ident(&[7]), 0), Err(Error::Unauthorized));
}

#[test]
fn snapshot_holds_plain_lists() {
    let stable = busy_registry().snapshot();
    assert_eq!(stable.nfts.len(), 2);
    assert_eq!(stable.nfts[0].owner(), &ident(&[7]));
    assert_eq!(stable.nfts[1].id(), 1);
    assert_eq!(stable.custodians, vec![ident(&[1])]);
    assert_eq!(stable.operators, vec![Grant::new(ident(&[8]), ident(&[6]))]);
    assert_eq!(stable.txid, 5);
    assert_eq!(stable.hashes.len(), 2);
    assert_eq!(stable.begin_date, "2022-01-01 00:00:00");
}

fn stable_with(nfts: Vec<Nft>, hashes: Vec<Vec<u8>>, begin_date: &str) -> StableState {
    StableState {
        nfts,
        custodians: vec![ident(&[1]), ident(&[1])],
        operators: vec![],
        logo: None,
        name: String::new(),
        symbol: String::new(),
        txid: 9,
        white_list: vec![],
        begin_date: String::from(begin_date),
        end_date: String::from("2022-12-31 23:59:59"),
        total_limit: String::new(),
        hashes,
    }
}

#[test]
fn restore_accepts_what_is_sound() {
    let nfts = vec![
        Nft::new(ident(&[7]), None, 0, vec![], vec![]),
        Nft::new(ident(&[8]), Some(ident(&[5])), 1, vec![], vec![1]),
    ];
    let state =
        State::restore(stable_with(nfts, vec![vec![0; 32], vec![1; 32]], "2022-01-01 00:00:00"))
            .unwrap();
    assert_eq!(state.total_supply(), 2);
    assert_eq!(state.txid(), 9);
    assert_eq!(state.owner_of(1).unwrap(), ident(&[8]));
    assert_eq!(state.token(1).unwrap().approved(), Some(&ident(&[5])));
    assert!(state.is_custodian(&ident(&[1])));
    assert_eq!(state.content_hash(1), Ok(&vec![1; 32]));
}

#[test]
fn restore_refuses_ids_that_are_not_the_places() {
    let nfts = vec![
        Nft::new(ident(&[7]), None, 0, vec![], vec![]),
        Nft::new(ident(&[8]), None, 2, vec![], vec![]),
    ];
    assert!(State::restore(stable_with(nfts, vec![vec![0; 32], vec![1; 32]], "2022-01-01 00:00:00"))
        .is_none());
}

#[test]
fn restore_refuses_a_token_without_its_digest() {
    let nfts = vec![Nft::new(ident(&[7]), None, 0, vec![], vec![])];
    assert!(State::restore(stable_with(nfts, vec![], "2022-01-01 00:00:00")).is_none());
    assert!(State::restore(stable_with(vec![], vec![vec![0; 32]], "2022-01-01 00:00:00")).is_none());
}

#[test]
fn restore_refuses_a_date_it_cannot_read() {
    assert!(State::restore(stable_with(vec![], vec![], "yesterday")).is_none());
}
