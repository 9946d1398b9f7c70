use nft_registry::address::{Address, Grantee};
use nft_registry::approval::{grant_all, grant_token};
use nft_registry::error::{ContractError, Denial};
use nft_registry::expiration::{BlockInfo, Expiration};
use nft_registry::handle::{handle, init, make_owner_private, HandleMsg, InitMsg};
use nft_registry::listing::{
    identify, owner_count, permit_queries, query, query_num_owner_tokens, query_tokens, tokens_page,
};
use nft_registry::mint::{list_nft, List};
use nft_registry::msg::Env;
use nft_registry::query::{
    check_view_supply, gen_cw721_approvals, get_owner_of_resp, get_querier, process_cw721_owner_of,
    query_all_nft_info, query_all_tokens, query_code_hash, query_config, query_contract_creator,
    query_contract_info, query_is_transferable, query_nft_info, query_num_tokens, query_owner_of,
    query_private_meta, query_token_prep, stored_block,
};
use nft_registry::query_msg::{Cw721Approval, QueryAnswer, QueryMsg, QueryWithPermit, ViewerInfo};
use nft_registry::send::transfer_nft;
use nft_registry::state::{Config, Entry, Ledger, ReceiveRegistration, StoredTx, StoredTxAction};
use nft_registry::token::{Metadata, PermissionType};
use nft_registry::viewing_key::set_key;

fn addr(s: &str) -> Address {
    Address::new(s.as_bytes().to_vec())
}

fn who(s: &str) -> Grantee {
    Grantee::Address(addr(s))
}

fn env(sender: &str, height: u64) -> Env {
    Env {
        block: BlockInfo { height, time: height * 5 },
        sender: addr(sender),
        contract_address: addr("registry"),
    }
}

fn start() -> (Ledger, Config) {
    init(
        &env("admin", 1),
        InitMsg { name: "registry".to_string(), admin: None, config: None, entropy: "e".to_string() },
    )
}

fn item(id: &str) -> List {
    List { token_id: Some(id.to_string()), transferable: None, public_metadata: None, private_metadata: None }
}

fn list(ledger: &mut Ledger, cfg: &mut Config, owner: &str, ids: &[&str]) {
    let lists: Vec<List> = ids.iter().map(|id| item(id)).collect();
    handle(ledger, &env(owner, 2), cfg, HandleMsg::ListNft { token_lists: lists }).unwrap();
}

fn ids(answer: QueryAnswer) -> Vec<String> {
    match answer {
        QueryAnswer::TokenList { tokens } => tokens,
        other => panic!("unexpected: {:?}", other),
    }
}

fn count(answer: QueryAnswer) -> u32 {
    match answer {
        QueryAnswer::NumTokens { count } => count,
        other => panic!("unexpected: {:?}", other),
    }
}

fn strs(v: &[&str]) -> Vec<String> {
    v.iter().map(|s| s.to_string()).collect()
}

fn viewer(address: &str, key: &str) -> Option<ViewerInfo> {
    Some(ViewerInfo { address: addr(address), viewing_key: key.to_string() })
}

#[test]
fn owner_of_shows_public_ownership_and_hides_private() {
    // list token "abc" to alice; ask for its owner as nobody, ownership public by default
    let (mut ledger, mut cfg) = start();
    assert!(cfg.owner_is_public);
    list(&mut ledger, &mut cfg, "alice", &["abc"]);
    match query_owner_of(&ledger, &cfg, "abc", &None, None, &None).unwrap() {
        QueryAnswer::OwnerOf { owner, approvals } => {
            assert_eq!(owner.bytes, b"alice".to_vec());
            assert!(approvals.is_empty());
        }
        other => panic!("unexpected: {:?}", other),
    }
    // alice makes her ownership private: the same question is denied
    make_owner_private(&mut ledger, &env("alice", 3), &cfg, 1).unwrap();
    let err = query_owner_of(&ledger, &cfg, "abc", &None, None, &None).unwrap_err();
    match &err {
        ContractError::AuthorizationDenied(Denial::OwnerHidden { token_id }) => assert_eq!(token_id, "abc"),
        other => panic!("unexpected: {:?}", other),
    }
    assert_eq!(err.message(""), "You are not authorized to view the owner of token abc");
    // alice herself still sees it
    set_key(&mut ledger, &env("alice", 3), &cfg, 1, "key".to_string()).unwrap();
    assert!(query_owner_of(&ledger, &cfg, "abc", &viewer("alice", "key"), None, &None).is_ok());
    let err = query_owner_of(&ledger, &cfg, "abc", &viewer("alice", "wrong"), None, &None).unwrap_err();
    assert!(matches!(err, ContractError::WrongViewingKey));
}

#[test]
fn owner_of_lists_approvals_for_the_owner_only() {
    let (mut ledger, mut cfg) = start();
    list(&mut ledger, &mut cfg, "alice", &["abc"]);
    let alice = addr("alice");
    grant_token(&mut ledger, &cfg, &alice, "abc", who("bob"), PermissionType::Transfer, Expiration::AtHeight(1)).unwrap();
    grant_token(&mut ledger, &cfg, &alice, "abc", who("carol"), PermissionType::Transfer, Expiration::Never).unwrap();
    grant_token(&mut ledger, &cfg, &alice, "abc", who("dave"), PermissionType::ViewOwner, Expiration::Never).unwrap();
    grant_token(&mut ledger, &cfg, &alice, "abc", Grantee::Public, PermissionType::Transfer, Expiration::Never).unwrap();
    grant_all(&mut ledger, &alice, who("erin"), PermissionType::Transfer, Expiration::AtTime(u64::MAX));
    let from_alice = Some(addr("alice"));
    let (owner, approvals, idx) = process_cw721_owner_of(&ledger, &cfg, "abc", &None, None, &from_alice).unwrap();
    assert_eq!(owner.unwrap().bytes, b"alice".to_vec());
    assert_eq!(idx, 1);
    let spenders: Vec<Vec<u8>> = approvals.iter().map(|a| a.spender.bytes.clone()).collect();
    assert_eq!(spenders, vec![b"carol".to_vec(), b"erin".to_vec()]);
    assert_eq!(approvals[0].expires, Expiration::Never);
    assert_eq!(approvals[1].expires, Expiration::AtTime(u64::MAX));
    let (_, approvals, _) = process_cw721_owner_of(&ledger, &cfg, "abc", &None, Some(true), &from_alice).unwrap();
    let spenders: Vec<Vec<u8>> = approvals.iter().map(|a| a.spender.bytes.clone()).collect();
    assert_eq!(spenders, vec![b"bob".to_vec(), b"carol".to_vec(), b"erin".to_vec()]);
    // someone else sees the owner and no approvals
    let from_dave = Some(addr("dave"));
    let (owner, approvals, _) = process_cw721_owner_of(&ledger, &cfg, "abc", &None, Some(true), &from_dave).unwrap();
    assert!(owner.is_some());
    assert!(approvals.is_empty());
    let block = stored_block(&ledger);
    let token = ledger.infos.get(&1).unwrap().value.permissions.len();
    assert_eq!(token, 4);
    let (owner, spenders, operators) =
        get_owner_of_resp(&ledger, &block, &ledger.infos.get(&1).unwrap().value, Some(&alice), false);
    assert_eq!(owner.bytes, b"alice".to_vec());
    assert_eq!(spenders.len(), 1);
    assert_eq!(operators.len(), 1);
    let mut out: Vec<Cw721Approval> = vec![];
    gen_cw721_approvals(&block, &ledger.infos.get(&1).unwrap().value.permissions, &mut out, PermissionType::ViewOwner, false);
    assert_eq!(out.len(), 1);
    assert_eq!(out[0].spender.bytes, b"dave".to_vec());
}

#[test]
fn tokens_are_paged_in_inventory_order() {
    let (mut ledger, mut cfg) = start();
    list(&mut ledger, &mut cfg, "alice", &["a", "b", "c", "d", "e"]);
    list(&mut ledger, &mut cfg, "bob", &["x"]);
    let alice = addr("alice");
    let me = Some(addr("alice"));
    let all = ids(tokens_page(&ledger, &cfg, &alice, &me, &None, None).unwrap());
    assert_eq!(all, strs(&["a", "b", "c", "d", "e"]));
    let first = ids(tokens_page(&ledger, &cfg, &alice, &me, &None, Some(2)).unwrap());
    assert_eq!(first, strs(&["a", "b"]));
    let second = ids(tokens_page(&ledger, &cfg, &alice, &me, &Some("b".to_string()), Some(2)).unwrap());
    assert_eq!(second, strs(&["c", "d"]));
    let third = ids(tokens_page(&ledger, &cfg, &alice, &me, &Some("d".to_string()), Some(2)).unwrap());
    assert_eq!(third, strs(&["e"]));
    let done = ids(tokens_page(&ledger, &cfg, &alice, &me, &Some("e".to_string()), Some(2)).unwrap());
    assert!(done.is_empty());
    let both = ids(tokens_page(&ledger, &cfg, &alice, &me, &None, Some(4)).unwrap());
    assert_eq!(both, [first, second].concat());
    assert!(ids(tokens_page(&ledger, &cfg, &alice, &me, &None, Some(0)).unwrap()).is_empty());
}

#[test]
fn paging_follows_the_inventory_after_transfers() {
    let (mut ledger, mut cfg) = start();
    list(&mut ledger, &mut cfg, "alice", &["a", "b", "c"]);
    transfer_nft(&mut ledger, &env("alice", 3), &mut cfg, 0, addr("bob"), "a".to_string(), None).unwrap();
    transfer_nft(&mut ledger, &env("bob", 4), &mut cfg, 0, addr("alice"), "a".to_string(), None).unwrap();
    let alice = addr("alice");
    let me = Some(addr("alice"));
    assert_eq!(ids(tokens_page(&ledger, &cfg, &alice, &me, &None, None).unwrap()), strs(&["b", "c", "a"]));
    assert_eq!(ids(tokens_page(&ledger, &cfg, &alice, &me, &Some("c".to_string()), Some(5)).unwrap()), strs(&["a"]));
}

#[test]
fn paging_fails_where_start_is_not_in_the_inventory() {
    let (mut ledger, mut cfg) = start();
    list(&mut ledger, &mut cfg, "alice", &["a"]);
    list(&mut ledger, &mut cfg, "bob", &["x"]);
    let alice = addr("alice");
    let me = Some(addr("alice"));
    let err = tokens_page(&ledger, &cfg, &alice, &me, &Some("x".to_string()), None).unwrap_err();
    assert!(matches!(err, ContractError::NotInInventory { .. }));
    let err = tokens_page(&ledger, &cfg, &alice, &me, &Some("zzz".to_string()), None).unwrap_err();
    assert!(matches!(err, ContractError::NotFound { .. }));
    cfg.token_supply_is_public = false;
    let err = tokens_page(&ledger, &cfg, &alice, &me, &Some("zzz".to_string()), None).unwrap_err();
    assert_eq!(err.message(""), "Token ID: zzz is not in the specified inventory");
    // someone who may not see alice's tokens learns nothing from the failure
    cfg.owner_is_public = false;
    let err = tokens_page(&ledger, &cfg, &alice, &Some(addr("carol")), &Some("zzz".to_string()), None).unwrap_err();
    assert_eq!(err.message(""), "You are not authorized to perform this action on token zzz");
    let err = tokens_page(&ledger, &cfg, &alice, &Some(addr("carol")), &Some("a".to_string()), None).unwrap_err();
    assert_eq!(err.message(""), "You are not authorized to perform this action on token a");
}

#[test]
fn paging_reports_a_token_index_without_a_token() {
    let (mut ledger, mut cfg) = start();
    cfg.owner_is_public = false;
    list(&mut ledger, &mut cfg, "alice", &["a"]);
    ledger.map2idx.put(Entry { key: "ghost".to_string(), value: 40 });
    let err = tokens_page(&ledger, &cfg, &addr("alice"), &Some(addr("bob")), &Some("ghost".to_string()), None)
        .unwrap_err();
    assert!(matches!(err, ContractError::InvariantViolation(_)));
    assert_eq!(err.message(""), "Token info storage is corrupt");
}

#[test]
fn tokens_show_only_what_the_querier_may_see() {
    let (mut ledger, mut cfg) = start();
    cfg.owner_is_public = false;
    list(&mut ledger, &mut cfg, "alice", &["a", "b", "c", "d"]);
    let alice = addr("alice");
    grant_token(&mut ledger, &cfg, &alice, "b", who("bob"), PermissionType::ViewOwner, Expiration::Never).unwrap();
    grant_token(&mut ledger, &cfg, &alice, "d", who("bob"), PermissionType::ViewOwner, Expiration::AtHeight(100)).unwrap();
    grant_token(&mut ledger, &cfg, &alice, "c", Grantee::Public, PermissionType::ViewOwner, Expiration::Never).unwrap();
    grant_token(&mut ledger, &cfg, &alice, "a", who("bob"), PermissionType::Transfer, Expiration::Never).unwrap();
    let bob = Some(addr("bob"));
    assert_eq!(ids(tokens_page(&ledger, &cfg, &alice, &bob, &None, None).unwrap()), strs(&["b", "c", "d"]));
    assert_eq!(ids(tokens_page(&ledger, &cfg, &alice, &bob, &None, Some(2)).unwrap()), strs(&["b", "c"]));
    assert_eq!(ids(tokens_page(&ledger, &cfg, &alice, &bob, &Some("c".to_string()), Some(2)).unwrap()), strs(&["d"]));
    assert_eq!(ids(tokens_page(&ledger, &cfg, &alice, &None, &None, None).unwrap()), strs(&["c"]));
    assert_eq!(count(owner_count(&ledger, &cfg, &alice, &bob)), 3);
    assert_eq!(count(owner_count(&ledger, &cfg, &alice, &None)), 1);
    assert_eq!(count(owner_count(&ledger, &cfg, &alice, &Some(addr("alice")))), 4);
    // in a later block one of bob's grants has expired
    handle(&mut ledger, &env("zed", 100), &mut cfg, HandleMsg::MakeOwnershipPrivate { padding: None })
        .unwrap();
    assert_eq!(ids(tokens_page(&ledger, &cfg, &alice, &bob, &None, None).unwrap()), strs(&["b", "c"]));
    assert_eq!(count(owner_count(&ledger, &cfg, &alice, &bob)), 2);
    // a grant on all tokens shows everything
    grant_all(&mut ledger, &alice, who("bob"), PermissionType::ViewOwner, Expiration::Never);
    assert_eq!(ids(tokens_page(&ledger, &cfg, &alice, &bob, &None, None).unwrap()), strs(&["a", "b", "c", "d"]));
    assert_eq!(count(owner_count(&ledger, &cfg, &alice, &bob)), 4);
    // public ownership shows everything to everyone
    cfg.owner_is_public = true;
    assert_eq!(ids(tokens_page(&ledger, &cfg, &alice, &None, &None, None).unwrap()).len(), 4);
    assert_eq!(count(owner_count(&ledger, &cfg, &alice, &None)), 4);
    assert_eq!(count(owner_count(&ledger, &cfg, &addr("nobody"), &None)), 0);
}

#[test]
fn querier_is_the_viewer_or_the_owner_whose_key_matches() {
    let (mut ledger, cfg) = start();
    set_key(&mut ledger, &env("alice", 2), &cfg, 1, "alice-key".to_string()).unwrap();
    set_key(&mut ledger, &env("bob", 2), &cfg, 1, "bob-key".to_string()).unwrap();
    let alice = addr("alice");
    let got = identify(&ledger, &alice, &Some(addr("bob")), &Some("bob-key".to_string()), &None).unwrap();
    assert_eq!(got.unwrap().bytes, b"bob".to_vec());
    let got = identify(&ledger, &alice, &Some(addr("bob")), &Some("alice-key".to_string()), &None).unwrap();
    assert_eq!(got.unwrap().bytes, b"alice".to_vec());
    let got = identify(&ledger, &alice, &None, &Some("alice-key".to_string()), &None).unwrap();
    assert_eq!(got.unwrap().bytes, b"alice".to_vec());
    let err = identify(&ledger, &alice, &Some(addr("bob")), &Some("nobody's".to_string()), &None).unwrap_err();
    assert!(matches!(err, ContractError::WrongViewingKey));
    assert!(identify(&ledger, &alice, &Some(addr("bob")), &None, &None).unwrap().is_none());
    let got = identify(&ledger, &alice, &Some(addr("bob")), &Some("x".to_string()), &Some(addr("carol"))).unwrap();
    assert_eq!(got.unwrap().bytes, b"carol".to_vec());
    let got = get_querier(&ledger, &viewer("bob", "bob-key"), &None).unwrap();
    assert_eq!(got.unwrap().bytes, b"bob".to_vec());
    assert!(get_querier(&ledger, &viewer("bob", "alice-key"), &None).is_err());
    assert!(get_querier(&ledger, &None, &None).unwrap().is_none());
    let got = get_querier(&ledger, &viewer("bob", "bad"), &Some(addr("carol"))).unwrap();
    assert_eq!(got.unwrap().bytes, b"carol".to_vec());
}

#[test]
fn tokens_of_owner_through_the_dispatch() {
    let (mut ledger, mut cfg) = start();
    cfg.owner_is_public = false;
    list(&mut ledger, &mut cfg, "alice", &["a", "b"]);
    handle(&mut ledger, &env("alice", 3), &mut cfg, HandleMsg::SetViewingKey { key: "k".to_string(), padding: None })
        .unwrap();
    let msg = QueryMsg::Tokens {
        owner: addr("alice"),
        viewer: None,
        viewing_key: Some("k".to_string()),
        start_after: None,
        limit: None,
    };
    assert_eq!(ids(query(&ledger, &cfg, msg).unwrap()), strs(&["a", "b"]));
    let msg = QueryMsg::Tokens { owner: addr("alice"), viewer: None, viewing_key: None, start_after: None, limit: None };
    assert!(ids(query(&ledger, &cfg, msg).unwrap()).is_empty());
    let msg = QueryMsg::NumTokensOfOwner { owner: addr("alice"), viewer: None, viewing_key: Some("k".to_string()) };
    assert_eq!(count(query(&ledger, &cfg, msg).unwrap()), 2);
    let msg = QueryMsg::NumTokensOfOwner { owner: addr("alice"), viewer: None, viewing_key: Some("bad".to_string()) };
    assert!(matches!(query(&ledger, &cfg, msg).unwrap_err(), ContractError::WrongViewingKey));
    assert_eq!(
        ids(query_tokens(&ledger, &cfg, &addr("alice"), &None, &None, &None, Some(1), &Some(addr("alice"))).unwrap()),
        strs(&["a"])
    );
    assert_eq!(count(query_num_owner_tokens(&ledger, &cfg, &addr("alice"), &None, &None, &Some(addr("bob"))).unwrap()), 0);
    let q = QueryWithPermit::Tokens { owner: addr("alice"), start_after: Some("a".to_string()), limit: None };
    assert_eq!(ids(permit_queries(&ledger, &cfg, addr("alice"), q).unwrap()), strs(&["b"]));
    let q = QueryWithPermit::NumTokensOfOwner { owner: addr("alice") };
    assert_eq!(count(permit_queries(&ledger, &cfg, addr("alice"), q).unwrap()), 2);
    let q = QueryWithPermit::OwnerOf { token_id: "a".to_string(), include_expired: None };
    assert!(permit_queries(&ledger, &cfg, addr("bob"), q).is_err());
    let q = QueryWithPermit::OwnerOf { token_id: "a".to_string(), include_expired: None };
    assert!(permit_queries(&ledger, &cfg, addr("alice"), q).is_ok());
}

#[test]
fn questions_do_not_look_at_the_status() {
    let (mut ledger, mut cfg) = start();
    list(&mut ledger, &mut cfg, "alice", &["a"]);
    cfg.status = 2;
    assert_eq!(count(query(&ledger, &cfg, QueryMsg::NumTokens { viewer: None }).unwrap()), 1);
    assert!(query(&ledger, &cfg, QueryMsg::OwnerOf { token_id: "a".to_string(), viewer: None, include_expired: None }).is_ok());
    assert!(query(&ledger, &cfg, QueryMsg::ContractInfo {}).is_ok());
}

#[test]
fn token_supply_is_for_minters_when_private() {
    let (mut ledger, mut cfg) = start();
    list(&mut ledger, &mut cfg, "alice", &["a", "b", "c"]);
    assert_eq!(count(query_num_tokens(&ledger, &cfg, &None, &None).unwrap()), 3);
    cfg.token_supply_is_public = false;
    let err = query_num_tokens(&ledger, &cfg, &None, &None).unwrap_err();
    assert!(matches!(err, ContractError::AuthorizationDenied(Denial::SupplyPrivate)));
    assert_eq!(err.message(""), "The token supply of this contract is private");
    assert!(check_view_supply(&ledger, &cfg, &None, &Some(addr("alice"))).is_err());
    ledger.minters.put(addr("minter"));
    assert!(check_view_supply(&ledger, &cfg, &None, &Some(addr("minter"))).is_ok());
    assert_eq!(count(query_num_tokens(&ledger, &cfg, &None, &Some(addr("minter"))).unwrap()), 3);
    set_key(&mut ledger, &env("minter", 4), &cfg, 1, "mk".to_string()).unwrap();
    assert!(query_all_tokens(&ledger, &cfg, &viewer("minter", "mk"), &None, None, &None).is_ok());
    assert!(matches!(
        query_all_tokens(&ledger, &cfg, &viewer("minter", "no"), &None, None, &None).unwrap_err(),
        ContractError::WrongViewingKey
    ));
}

#[test]
fn all_tokens_are_paged_by_index() {
    let (mut ledger, mut cfg) = start();
    list(&mut ledger, &mut cfg, "alice", &["a", "b"]);
    list(&mut ledger, &mut cfg, "bob", &["c", "d", "e"]);
    assert_eq!(ids(query_all_tokens(&ledger, &cfg, &None, &None, None, &None).unwrap()), strs(&["a", "b", "c", "d", "e"]));
    assert_eq!(ids(query_all_tokens(&ledger, &cfg, &None, &None, Some(2), &None).unwrap()), strs(&["a", "b"]));
    assert_eq!(
        ids(query_all_tokens(&ledger, &cfg, &None, &Some("b".to_string()), Some(2), &None).unwrap()),
        strs(&["c", "d"])
    );
    assert_eq!(ids(query_all_tokens(&ledger, &cfg, &None, &Some("e".to_string()), Some(2), &None).unwrap()), strs(&[]));
    assert_eq!(ids(query_all_tokens(&ledger, &cfg, &None, &None, Some(0), &None).unwrap()), strs(&[]));
    let err = query_all_tokens(&ledger, &cfg, &None, &Some("nope".to_string()), None, &None).unwrap_err();
    assert_eq!(err.message(""), "Token ID: nope not found");
    ledger.map2idx.put(Entry { key: "last".to_string(), value: u32::MAX });
    let err = query_all_tokens(&ledger, &cfg, &None, &Some("last".to_string()), None, &None).unwrap_err();
    assert_eq!(err.message(""), "This token was the last one the contract could mint");
}

#[test]
fn public_metadata_is_for_everyone() {
    let (mut ledger, mut cfg) = start();
    let with_meta = List {
        token_id: Some("m".to_string()),
        transferable: None,
        public_metadata: Some(Metadata { token_uri: Some("uri".to_string()), extension: None }),
        private_metadata: Some(Metadata { token_uri: None, extension: Some("ext".to_string()) }),
    };
    list_nft(&mut ledger, &env("alice", 2), &mut cfg, 0, vec![with_meta, item("plain")]).unwrap();
    match query_nft_info(&ledger, &cfg, "m").unwrap() {
        QueryAnswer::NftInfo { token_uri, extension } => {
            assert_eq!(token_uri, Some("uri".to_string()));
            assert!(extension.is_none());
        }
        other => panic!("unexpected: {:?}", other),
    }
    assert!(matches!(
        query_nft_info(&ledger, &cfg, "plain").unwrap(),
        QueryAnswer::NftInfo { token_uri: None, extension: None }
    ));
    assert!(matches!(query_nft_info(&ledger, &cfg, "nope").unwrap_err(), ContractError::NotFound { .. }));
    cfg.token_supply_is_public = false;
    assert!(matches!(
        query_nft_info(&ledger, &cfg, "nope").unwrap(),
        QueryAnswer::NftInfo { token_uri: None, extension: None }
    ));
    match query_all_nft_info(&ledger, &cfg, "m", &None, None, &None).unwrap() {
        QueryAnswer::AllNftInfo { access, info } => {
            assert_eq!(access.owner.unwrap().bytes, b"alice".to_vec());
            assert!(access.approvals.is_empty());
            assert_eq!(info.unwrap().token_uri, Some("uri".to_string()));
        }
        other => panic!("unexpected: {:?}", other),
    }
    match query_all_nft_info(&ledger, &cfg, "plain", &None, None, &None).unwrap() {
        QueryAnswer::AllNftInfo { info, .. } => assert!(info.is_none()),
        other => panic!("unexpected: {:?}", other),
    }
}

#[test]
fn private_metadata_needs_permission_and_an_unsealed_token() {
    let (mut ledger, mut cfg) = start();
    let with_meta = List {
        token_id: Some("m".to_string()),
        transferable: None,
        public_metadata: None,
        private_metadata: Some(Metadata { token_uri: None, extension: Some("ext".to_string()) }),
    };
    list_nft(&mut ledger, &env("alice", 2), &mut cfg, 0, vec![with_meta]).unwrap();
    let err = query_private_meta(&ledger, &cfg, "m", &None, &None).unwrap_err();
    assert_eq!(err.message(""), "You are not authorized to perform this action on token m");
    match query_private_meta(&ledger, &cfg, "m", &None, &Some(addr("alice"))).unwrap() {
        QueryAnswer::PrivateMetadata { token_uri, extension } => {
            assert!(token_uri.is_none());
            assert_eq!(extension, Some("ext".to_string()));
        }
        other => panic!("unexpected: {:?}", other),
    }
    grant_token(&mut ledger, &cfg, &addr("alice"), "m", who("bob"), PermissionType::ViewMetadata, Expiration::Never).unwrap();
    assert!(query_private_meta(&ledger, &cfg, "m", &None, &Some(addr("bob"))).is_ok());
    cfg.sealed_metadata_is_enabled = true;
    list_nft(&mut ledger, &env("alice", 2), &mut cfg, 0, vec![item("sealed")]).unwrap();
    let err = query_private_meta(&ledger, &cfg, "sealed", &None, &Some(addr("alice"))).unwrap_err();
    assert!(matches!(err, ContractError::SealedMetadata));
    assert_eq!(err.message(""), "Sealed metadata must be unwrapped by calling Reveal before it can be viewed");
}

#[test]
fn transferable_is_reported_and_guessed_for_hidden_tokens() {
    let (mut ledger, mut cfg) = start();
    let fixed = List { token_id: Some("f".to_string()), transferable: Some(false), public_metadata: None, private_metadata: None };
    list_nft(&mut ledger, &env("alice", 2), &mut cfg, 0, vec![fixed, item("t")]).unwrap();
    assert!(matches!(
        query_is_transferable(&ledger, &cfg, "f").unwrap(),
        QueryAnswer::IsTransferable { token_is_transferable: false }
    ));
    assert!(matches!(
        query_is_transferable(&ledger, &cfg, "t").unwrap(),
        QueryAnswer::IsTransferable { token_is_transferable: true }
    ));
    assert!(matches!(query_is_transferable(&ledger, &cfg, "nope").unwrap_err(), ContractError::NotFound { .. }));
    cfg.token_supply_is_public = false;
    assert!(matches!(
        query_is_transferable(&ledger, &cfg, "nope").unwrap(),
        QueryAnswer::IsTransferable { token_is_transferable: true }
    ));
    ledger.map2idx.put(Entry { key: "ghost".to_string(), value: 77 });
    assert!(matches!(
        query_is_transferable(&ledger, &cfg, "ghost").unwrap_err(),
        ContractError::InvariantViolation(_)
    ));
}

#[test]
fn contract_facts() {
    let (mut ledger, cfg) = start();
    assert!(matches!(query_contract_info(&cfg), QueryAnswer::ContractInfo { name } if name == "registry"));
    assert!(matches!(
        query_config(&cfg),
        QueryAnswer::ContractConfig { token_supply_is_public: true, owner_is_public: true }
    ));
    match query_contract_creator(&ledger) {
        QueryAnswer::ContractCreator { creator } => assert_eq!(creator.unwrap().bytes, b"admin".to_vec()),
        other => panic!("unexpected: {:?}", other),
    }
    assert!(matches!(
        query_code_hash(&ledger, &addr("market")),
        QueryAnswer::RegisteredCodeHash { code_hash: None, also_implements_batch_receive_nft: false }
    ));
    ledger.receivers.put(Entry {
        key: addr("market"),
        value: ReceiveRegistration { code_hash: "abc".to_string(), impl_batch: true },
    });
    match query(&ledger, &cfg, QueryMsg::RegisteredCodeHash { contract: addr("market") }).unwrap() {
        QueryAnswer::RegisteredCodeHash { code_hash, also_implements_batch_receive_nft } => {
            assert_eq!(code_hash, Some("abc".to_string()));
            assert!(also_implements_batch_receive_nft);
        }
        other => panic!("unexpected: {:?}", other),
    }
}

#[test]
fn token_prep_uses_the_block_of_the_last_request() {
    let (mut ledger, mut cfg) = start();
    list(&mut ledger, &mut cfg, "alice", &["a"]);
    let prep = query_token_prep(&ledger, &cfg, "a", &None, &Some(addr("zed"))).unwrap();
    assert_eq!(prep.block, BlockInfo { height: 2, time: 10 });
    assert_eq!(prep.idx, 1);
    assert_eq!(prep.viewer_raw.unwrap().bytes, b"zed".to_vec());
    assert_eq!(prep.err_msg, "You are not authorized to perform this action on token a");
    assert!(prep.owner_is_public);
    assert_eq!(prep.token.owner.bytes, b"alice".to_vec());
    assert_eq!(stored_block(&Ledger::new()), BlockInfo { height: 1, time: 1 });
}

#[test]
fn stored_tx_takes_readable_addresses() {
    let tx = StoredTx {
        tx_id: 4,
        block_height: 10,
        block_time: 50,
        token_id: "a".to_string(),
        action: StoredTxAction::Transfer { from: addr("f"), sender: Some(addr("s")), recipient: addr("r") },
        memo: Some("m".to_string()),
    };
    let shown = tx.into_humanized("from-name".to_string(), "sender-name".to_string(), "recipient-name".to_string());
    assert_eq!(shown.tx_id, 4);
    assert_eq!(shown.block_height, 10);
    assert_eq!(shown.block_time, 50);
    assert_eq!(shown.token_id, "a");
    assert_eq!(shown.memo, Some("m".to_string()));
    match shown.action {
        nft_registry::query_msg::TxAction::Transfer { from, sender, recipient } => {
            assert_eq!(from, "from-name");
            assert_eq!(sender, Some("sender-name".to_string()));
            assert_eq!(recipient, "recipient-name");
        }
    }
    let tx = StoredTx {
        tx_id: 5,
        block_height: 10,
        block_time: 50,
        token_id: "a".to_string(),
        action: StoredTxAction::Transfer { from: addr("f"), sender: None, recipient: addr("r") },
        memo: None,
    };
    match tx.into_humanized("f".to_string(), "ignored".to_string(), "r".to_string()).action {
        nft_registry::query_msg::TxAction::Transfer { sender, .. } => assert!(sender.is_none()),
    }
}
