use nft_registry::address::{Address, Grantee};
use nft_registry::approval::{
    grant_all, grant_permission, grant_token, revoke_all, revoke_permission, revoke_token,
};
use nft_registry::contract::{get_token, get_token_if_permitted};
use nft_registry::error::{ContractError, Denial};
use nft_registry::expiration::{BlockInfo, Expiration};
use nft_registry::mint::{list_nft, List};
use nft_registry::msg::{AccessLevel, AuctionStatus, ContractStatus, Env, InitConfig};
use nft_registry::permission::{check_perm_core, check_permission, scan_grants};
use nft_registry::state::{Config, Entry, Ledger};
use nft_registry::table::Table;
use nft_registry::token::{
    query_grant, GrantStatus, Permission, PermissionType, PermissionTypeInfo, Token,
};

fn addr(s: &str) -> Address {
    Address::new(s.as_bytes().to_vec())
}

fn who(s: &str) -> Grantee {
    Grantee::Address(addr(s))
}

fn at(height: u64) -> BlockInfo {
    BlockInfo { height, time: 1000 + height }
}

fn config() -> Config {
    Config {
        name: "registry".to_string(),
        admin: addr("admin"),
        token_cnt: 0,
        tx_cnt: 0,
        status: 0,
        mint_cnt: 0,
        token_supply_is_public: true,
        owner_is_public: false,
        prng_seed: vec![],
        entropy: String::new(),
        viewing_key: String::new(),
        sealed_metadata_is_enabled: false,
        unwrap_to_private: false,
        minter_may_update_metadata: false,
        owner_may_update_metadata: false,
        burn_is_enabled: false,
    }
}

fn listed(owner: &str, ids: &[&str]) -> (Ledger, Config) {
    let mut ledger = Ledger::new();
    let mut cfg = config();
    let lists: Vec<List> = ids
        .iter()
        .map(|id| List {
            token_id: Some(id.to_string()),
            transferable: None,
            public_metadata: None,
            private_metadata: None,
        })
        .collect();
    let env = Env { block: at(1), sender: addr(owner), contract_address: addr("registry") };
    list_nft(&mut ledger, &env, &mut cfg, 0, lists).unwrap();
    (ledger, cfg)
}

fn check(
    ledger: &Ledger,
    height: u64,
    token_id: &str,
    sender: Option<&str>,
    kind: PermissionType,
) -> Result<(), ContractError> {
    let (token, _) = get_token(ledger, token_id, None).unwrap();
    let sender = sender.map(addr);
    let mut cache: Table<Address> = Table::new();
    check_perm_core(ledger, &at(height), &token, token_id, sender.as_ref(), kind, &mut cache, "no access")
}

#[test]
fn permission_type_slots() {
    assert_eq!(PermissionType::ViewOwner.to_usize(), 0);
    assert_eq!(PermissionType::ViewMetadata.to_usize(), 1);
    assert_eq!(PermissionType::Transfer.to_usize(), 2);
    assert_eq!(PermissionType::ViewOwner.num_types(), 3);
    let info = PermissionTypeInfo::new();
    assert_eq!(info.view_owner_idx, 0);
    assert_eq!(info.view_meta_idx, 1);
    assert_eq!(info.transfer_idx, 2);
    assert_eq!(info.num_types, 3);
}

#[test]
fn contract_status_levels() {
    assert_eq!(ContractStatus::Normal.to_u8(), 0);
    assert_eq!(ContractStatus::StopTransactions.to_u8(), 1);
    assert_eq!(ContractStatus::StopAll.to_u8(), 2);
}

#[test]
fn plain_enums_compare() {
    assert_ne!(AccessLevel::ApproveToken, AccessLevel::All);
    assert_ne!(AccessLevel::RevokeToken, AccessLevel::NoAccess);
    assert_ne!(AuctionStatus::NotUpForAuction, AuctionStatus::AuctionInProgress);
    assert_eq!(AuctionStatus::AuctionClosed, AuctionStatus::AuctionClosed);
    let init = InitConfig::default();
    assert_eq!(init.public_token_supply, Some(true));
    assert_eq!(init.public_owner, Some(true));
}

#[test]
fn expiration_by_height_time_and_never() {
    let block = BlockInfo { height: 100, time: 5000 };
    assert!(!Expiration::Never.is_expired(&block));
    assert!(!Expiration::AtHeight(101).is_expired(&block));
    assert!(Expiration::AtHeight(100).is_expired(&block));
    assert!(Expiration::AtHeight(99).is_expired(&block));
    assert!(!Expiration::AtTime(5001).is_expired(&block));
    assert!(Expiration::AtTime(5000).is_expired(&block));
    assert!(Expiration::AtTime(0).is_expired(&block));
    assert_eq!(Expiration::default(), Expiration::Never);
}

#[test]
fn owner_always_passes() {
    let (ledger, _) = listed("alice", &["abc"]);
    assert!(check(&ledger, 5, "abc", Some("alice"), PermissionType::Transfer).is_ok());
    assert!(check(&ledger, 5, "abc", Some("alice"), PermissionType::ViewMetadata).is_ok());
}

#[test]
fn never_granted_is_denied_with_callers_text() {
    let (ledger, _) = listed("alice", &["abc"]);
    let err = check(&ledger, 5, "abc", Some("bob"), PermissionType::Transfer).unwrap_err();
    match &err {
        ContractError::AuthorizationDenied(Denial::NotAuthorized { message }) => {
            assert_eq!(message, "no access")
        }
        other => panic!("unexpected: {:?}", other),
    }
    let err = check(&ledger, 5, "abc", None, PermissionType::ViewOwner).unwrap_err();
    assert_eq!(err.message(""), "no access");
}

#[test]
fn token_grant_allows_before_expiration_and_denies_after() {
    let (mut ledger, cfg) = listed("alice", &["abc"]);
    grant_token(&mut ledger, &cfg, &addr("alice"), "abc", who("bob"), PermissionType::Transfer, Expiration::AtHeight(50))
        .unwrap();
    assert!(check(&ledger, 49, "abc", Some("bob"), PermissionType::Transfer).is_ok());
    let expired = check(&ledger, 50, "abc", Some("bob"), PermissionType::Transfer).unwrap_err();
    match &expired {
        ContractError::AuthorizationDenied(Denial::TokenAccessExpired { token_id }) => {
            assert_eq!(token_id, "abc")
        }
        other => panic!("unexpected: {:?}", other),
    }
    assert_eq!(expired.message(""), "Access to token abc has expired");
    let never = check(&ledger, 50, "abc", Some("carol"), PermissionType::Transfer).unwrap_err();
    assert_ne!(expired.message(""), never.message(""));
    // the grant is for one permission type only
    assert!(check(&ledger, 49, "abc", Some("bob"), PermissionType::ViewOwner).is_err());
}

#[test]
fn grant_by_time_expires_by_time() {
    let (mut ledger, cfg) = listed("alice", &["abc"]);
    grant_token(&mut ledger, &cfg, &addr("alice"), "abc", who("bob"), PermissionType::ViewMetadata, Expiration::AtTime(1010))
        .unwrap();
    assert!(check(&ledger, 9, "abc", Some("bob"), PermissionType::ViewMetadata).is_ok());
    assert!(check(&ledger, 10, "abc", Some("bob"), PermissionType::ViewMetadata).is_err());
}

#[test]
fn public_grant_and_requester_grant_are_independent() {
    let (mut ledger, cfg) = listed("alice", &["abc"]);
    grant_token(&mut ledger, &cfg, &addr("alice"), "abc", who("bob"), PermissionType::ViewOwner, Expiration::AtHeight(10))
        .unwrap();
    grant_token(&mut ledger, &cfg, &addr("alice"), "abc", Grantee::Public, PermissionType::ViewOwner, Expiration::AtHeight(20))
        .unwrap();
    // bob's own grant has expired, the public one is live
    assert!(check(&ledger, 15, "abc", Some("bob"), PermissionType::ViewOwner).is_ok());
    assert!(check(&ledger, 15, "abc", None, PermissionType::ViewOwner).is_ok());
    assert!(check(&ledger, 15, "abc", Some("carol"), PermissionType::ViewOwner).is_ok());
    // both expired: bob is told that his access expired, an anonymous requester is not
    let bob = check(&ledger, 25, "abc", Some("bob"), PermissionType::ViewOwner).unwrap_err();
    assert_eq!(bob.message(""), "Access to token abc has expired");
    let anonymous = check(&ledger, 25, "abc", None, PermissionType::ViewOwner).unwrap_err();
    assert_eq!(anonymous.message(""), "no access");
    let carol = check(&ledger, 25, "abc", Some("carol"), PermissionType::ViewOwner).unwrap_err();
    assert_eq!(carol.message(""), "no access");
}

#[test]
fn expired_public_grant_does_not_hide_live_requester_grant() {
    let (mut ledger, cfg) = listed("alice", &["abc"]);
    grant_token(&mut ledger, &cfg, &addr("alice"), "abc", Grantee::Public, PermissionType::ViewOwner, Expiration::AtHeight(10))
        .unwrap();
    grant_token(&mut ledger, &cfg, &addr("alice"), "abc", who("carol"), PermissionType::ViewOwner, Expiration::Never)
        .unwrap();
    grant_token(&mut ledger, &cfg, &addr("alice"), "abc", who("bob"), PermissionType::ViewOwner, Expiration::AtHeight(20))
        .unwrap();
    assert!(check(&ledger, 15, "abc", Some("bob"), PermissionType::ViewOwner).is_ok());
    assert!(check(&ledger, 15, "abc", Some("carol"), PermissionType::ViewOwner).is_ok());
    assert!(check(&ledger, 15, "abc", Some("dave"), PermissionType::ViewOwner).is_err());
}

#[test]
fn all_grant_covers_tokens_listed_before_and_after_it() {
    let (mut ledger, mut cfg) = listed("alice", &["early"]);
    grant_all(&mut ledger, &addr("alice"), who("bob"), PermissionType::Transfer, Expiration::AtHeight(100));
    let env = Env { block: at(2), sender: addr("alice"), contract_address: addr("registry") };
    let late = List { token_id: Some("late".to_string()), transferable: None, public_metadata: None, private_metadata: None };
    list_nft(&mut ledger, &env, &mut cfg, 0, vec![late]).unwrap();
    assert!(check(&ledger, 99, "early", Some("bob"), PermissionType::Transfer).is_ok());
    assert!(check(&ledger, 99, "late", Some("bob"), PermissionType::Transfer).is_ok());
    assert!(check(&ledger, 99, "late", Some("bob"), PermissionType::ViewOwner).is_err());
    let err = check(&ledger, 100, "late", Some("bob"), PermissionType::Transfer).unwrap_err();
    match &err {
        ContractError::AuthorizationDenied(Denial::AllAccessExpired { owner }) => {
            assert_eq!(owner.bytes, b"alice".to_vec())
        }
        other => panic!("unexpected: {:?}", other),
    }
    assert_eq!(err.message("alice"), "Access to all tokens of alice has expired");
}

#[test]
fn all_grant_to_everyone_covers_anonymous_requests() {
    let (mut ledger, _) = listed("alice", &["abc"]);
    grant_all(&mut ledger, &addr("alice"), Grantee::Public, PermissionType::ViewMetadata, Expiration::Never);
    assert!(check(&ledger, 9, "abc", None, PermissionType::ViewMetadata).is_ok());
    assert!(check(&ledger, 9, "abc", Some("zed"), PermissionType::ViewMetadata).is_ok());
    assert!(check(&ledger, 9, "abc", None, PermissionType::Transfer).is_err());
}

#[test]
fn all_grant_of_one_owner_does_not_reach_tokens_of_another() {
    let (mut ledger, mut cfg) = listed("alice", &["abc"]);
    let env = Env { block: at(2), sender: addr("carol"), contract_address: addr("registry") };
    let other = List { token_id: Some("xyz".to_string()), transferable: None, public_metadata: None, private_metadata: None };
    list_nft(&mut ledger, &env, &mut cfg, 0, vec![other]).unwrap();
    grant_all(&mut ledger, &addr("alice"), who("bob"), PermissionType::Transfer, Expiration::Never);
    assert!(check(&ledger, 9, "abc", Some("bob"), PermissionType::Transfer).is_ok());
    assert!(check(&ledger, 9, "xyz", Some("bob"), PermissionType::Transfer).is_err());
}

#[test]
fn live_all_grant_beats_expired_token_grants() {
    let (mut ledger, cfg) = listed("alice", &["abc"]);
    grant_token(&mut ledger, &cfg, &addr("alice"), "abc", who("bob"), PermissionType::Transfer, Expiration::AtHeight(5))
        .unwrap();
    grant_token(&mut ledger, &cfg, &addr("alice"), "abc", Grantee::Public, PermissionType::Transfer, Expiration::AtHeight(5))
        .unwrap();
    grant_all(&mut ledger, &addr("alice"), who("bob"), PermissionType::Transfer, Expiration::Never);
    assert!(check(&ledger, 9, "abc", Some("bob"), PermissionType::Transfer).is_ok());
}

#[test]
fn cache_is_filled_by_all_grant_and_then_used() {
    let (mut ledger, _) = listed("alice", &["abc", "def"]);
    grant_all(&mut ledger, &addr("alice"), who("bob"), PermissionType::Transfer, Expiration::Never);
    let (token, _) = get_token(&ledger, "abc", None).unwrap();
    let bob = addr("bob");
    let mut cache: Table<Address> = Table::new();
    check_perm_core(&ledger, &at(3), &token, "abc", Some(&bob), PermissionType::Transfer, &mut cache, "no").unwrap();
    assert_eq!(cache.len(), 1);
    assert_eq!(cache.entry(0).bytes, b"alice".to_vec());
    // with the owner in the cache nothing else is looked at
    revoke_all(&mut ledger, &addr("alice"), &who("bob"), PermissionType::Transfer);
    let (other, _) = get_token(&ledger, "def", None).unwrap();
    check_perm_core(&ledger, &at(3), &other, "def", Some(&bob), PermissionType::Transfer, &mut cache, "no").unwrap();
    assert_eq!(cache.len(), 1);
    let mut fresh: Table<Address> = Table::new();
    assert!(check_perm_core(&ledger, &at(3), &other, "def", Some(&bob), PermissionType::Transfer, &mut fresh, "no")
        .is_err());
    assert_eq!(fresh.len(), 0);
}

#[test]
fn token_grant_does_not_fill_the_cache() {
    let (mut ledger, cfg) = listed("alice", &["abc"]);
    grant_token(&mut ledger, &cfg, &addr("alice"), "abc", who("bob"), PermissionType::Transfer, Expiration::Never).unwrap();
    let (token, _) = get_token(&ledger, "abc", None).unwrap();
    let bob = addr("bob");
    let mut cache: Table<Address> = Table::new();
    check_perm_core(&ledger, &at(3), &token, "abc", Some(&bob), PermissionType::Transfer, &mut cache, "no").unwrap();
    assert_eq!(cache.len(), 0);
}

#[test]
fn view_owner_passes_at_once_where_ownership_is_public() {
    let (mut ledger, _) = listed("alice", &["abc"]);
    let (token, _) = get_token(&ledger, "abc", None).unwrap();
    let mut cache: Table<Address> = Table::new();
    // the contract default decides where the owner has no setting
    assert!(check_permission(&ledger, &at(3), &token, "abc", None, PermissionType::ViewOwner, &mut cache, "no", true).is_ok());
    assert!(check_permission(&ledger, &at(3), &token, "abc", None, PermissionType::ViewOwner, &mut cache, "no", false).is_err());
    // the default is for the owner only
    assert!(check_permission(&ledger, &at(3), &token, "abc", None, PermissionType::Transfer, &mut cache, "no", true).is_err());
    // the owner's own setting wins over the default
    ledger.owner_priv.put(Entry { key: addr("alice"), value: false });
    assert!(check_permission(&ledger, &at(3), &token, "abc", None, PermissionType::ViewOwner, &mut cache, "no", true).is_err());
    ledger.owner_priv.put(Entry { key: addr("alice"), value: true });
    assert!(check_permission(&ledger, &at(3), &token, "abc", None, PermissionType::ViewOwner, &mut cache, "no", false).is_ok());
}

#[test]
fn get_token_if_permitted_hides_missing_tokens_when_supply_is_private() {
    let (ledger, mut cfg) = listed("alice", &["abc"]);
    let bob = addr("bob");
    let mut cache: Table<Address> = Table::new();
    let err = get_token_if_permitted(&ledger, &at(3), "nope", Some(&bob), PermissionType::Transfer, &mut cache, &cfg)
        .unwrap_err();
    assert!(matches!(err, ContractError::NotFound { .. }));
    cfg.token_supply_is_public = false;
    let missing = get_token_if_permitted(&ledger, &at(3), "abc", Some(&bob), PermissionType::Transfer, &mut cache, &cfg)
        .unwrap_err();
    let hidden = get_token_if_permitted(&ledger, &at(3), "abd", Some(&bob), PermissionType::Transfer, &mut cache, &cfg)
        .unwrap_err();
    assert_eq!(missing.message(""), "You are not authorized to perform this action on token abc");
    assert_eq!(hidden.message(""), "You are not authorized to perform this action on token abd");
    let alice = addr("alice");
    let (token, idx) =
        get_token_if_permitted(&ledger, &at(3), "abc", Some(&alice), PermissionType::Transfer, &mut cache, &cfg).unwrap();
    assert_eq!(idx, 1);
    assert_eq!(token.owner.bytes, b"alice".to_vec());
}

#[test]
fn grant_status_of_a_list() {
    let mut perms: Table<Permission> = Table::new();
    grant_permission(&mut perms, who("bob"), PermissionType::ViewOwner, Expiration::AtHeight(10));
    grant_permission(&mut perms, who("bob"), PermissionType::Transfer, Expiration::Never);
    grant_permission(&mut perms, Grantee::Public, PermissionType::ViewMetadata, Expiration::AtTime(7));
    // one entry per grantee
    assert_eq!(perms.len(), 2);
    assert_eq!(perms.entry(0).expirations, [Some(Expiration::AtHeight(10)), None, Some(Expiration::Never)]);
    assert_eq!(perms.entry(1).expirations, [None, Some(Expiration::AtTime(7)), None]);
    let block = BlockInfo { height: 10, time: 6 };
    assert_eq!(query_grant(&perms, &who("bob"), PermissionType::ViewOwner, &block), GrantStatus::Expired);
    assert_eq!(query_grant(&perms, &who("bob"), PermissionType::ViewMetadata, &block), GrantStatus::NotGranted);
    assert_eq!(query_grant(&perms, &who("bob"), PermissionType::Transfer, &block), GrantStatus::Allowed);
    assert_eq!(query_grant(&perms, &Grantee::Public, PermissionType::ViewMetadata, &block), GrantStatus::Allowed);
    assert_eq!(query_grant(&perms, &who("carol"), PermissionType::Transfer, &block), GrantStatus::NotGranted);
    let bob = addr("bob");
    let scan = scan_grants(&perms, Some(&bob), PermissionType::ViewOwner, &block);
    assert!(!scan.live);
    assert!(scan.lapsed);
    let scan = scan_grants(&perms, Some(&bob), PermissionType::ViewMetadata, &block);
    assert!(scan.live);
    let scan = scan_grants(&perms, None, PermissionType::ViewOwner, &block);
    assert!(!scan.live);
    assert!(!scan.lapsed);
    // revoking the last grant of a grantee removes the entry
    revoke_permission(&mut perms, &who("bob"), PermissionType::ViewOwner);
    assert_eq!(perms.len(), 2);
    revoke_permission(&mut perms, &who("bob"), PermissionType::Transfer);
    assert_eq!(perms.len(), 1);
    revoke_permission(&mut perms, &who("nobody"), PermissionType::Transfer);
    assert_eq!(perms.len(), 1);
    // a grant that is made again replaces the expiration
    grant_permission(&mut perms, Grantee::Public, PermissionType::ViewMetadata, Expiration::Never);
    assert_eq!(perms.entry(0).expirations, [None, Some(Expiration::Never), None]);
}

#[test]
fn only_the_owner_grants_and_revokes() {
    let (mut ledger, cfg) = listed("alice", &["abc"]);
    let err = grant_token(&mut ledger, &cfg, &addr("bob"), "abc", who("bob"), PermissionType::Transfer, Expiration::Never)
        .unwrap_err();
    assert_eq!(err.message(""), "You are not authorized to perform this action on token abc");
    let err = grant_token(&mut ledger, &cfg, &addr("alice"), "nope", who("bob"), PermissionType::Transfer, Expiration::Never)
        .unwrap_err();
    assert!(matches!(err, ContractError::NotFound { .. }));
    assert!(revoke_token(&mut ledger, &cfg, &addr("bob"), "abc", &who("bob"), PermissionType::Transfer).is_err());
    assert_eq!(get_token(&ledger, "abc", None).unwrap().0.permissions.len(), 0);
    assert_eq!(ledger.auth_lists.len(), 0);
}

#[test]
fn token_grants_are_mirrored_in_the_auth_lists() {
    let (mut ledger, cfg) = listed("alice", &["abc", "def"]);
    let alice = addr("alice");
    grant_token(&mut ledger, &cfg, &alice, "abc", who("bob"), PermissionType::Transfer, Expiration::Never).unwrap();
    grant_token(&mut ledger, &cfg, &alice, "def", who("bob"), PermissionType::Transfer, Expiration::Never).unwrap();
    grant_token(&mut ledger, &cfg, &alice, "def", who("bob"), PermissionType::Transfer, Expiration::AtHeight(9)).unwrap();
    grant_token(&mut ledger, &cfg, &alice, "def", Grantee::Public, PermissionType::ViewOwner, Expiration::Never).unwrap();
    {
        let lists = &ledger.auth_lists.get(&alice).unwrap().value;
        assert_eq!(lists.len(), 2);
        assert_eq!(lists.get(&who("bob")).unwrap().tokens, [vec![], vec![], vec![1, 2]]);
        assert_eq!(lists.get(&Grantee::Public).unwrap().tokens, [vec![2], vec![], vec![]]);
    }
    let (def, _) = get_token(&ledger, "def", None).unwrap();
    assert_eq!(def.permissions.len(), 2);
    assert_eq!(def.permissions.get(&who("bob")).unwrap().expirations[2], Some(Expiration::AtHeight(9)));
    revoke_token(&mut ledger, &cfg, &alice, "abc", &who("bob"), PermissionType::Transfer).unwrap();
    assert_eq!(get_token(&ledger, "abc", None).unwrap().0.permissions.len(), 0);
    {
        let lists = &ledger.auth_lists.get(&alice).unwrap().value;
        assert_eq!(lists.get(&who("bob")).unwrap().tokens, [vec![], vec![], vec![2]]);
    }
    revoke_token(&mut ledger, &cfg, &alice, "def", &who("bob"), PermissionType::Transfer).unwrap();
    revoke_token(&mut ledger, &cfg, &alice, "def", &Grantee::Public, PermissionType::ViewOwner).unwrap();
    assert!(ledger.auth_lists.get(&alice).is_none());
    assert_eq!(get_token(&ledger, "def", None).unwrap().0.permissions.len(), 0);
}

#[test]
fn all_grants_are_kept_per_owner() {
    let mut ledger = Ledger::new();
    let alice = addr("alice");
    grant_all(&mut ledger, &alice, who("bob"), PermissionType::Transfer, Expiration::AtHeight(7));
    grant_all(&mut ledger, &alice, who("bob"), PermissionType::ViewOwner, Expiration::Never);
    grant_all(&mut ledger, &addr("carol"), who("bob"), PermissionType::Transfer, Expiration::Never);
    assert_eq!(ledger.all_permissions.len(), 2);
    let list = &ledger.all_permissions.get(&alice).unwrap().value;
    assert_eq!(list.len(), 1);
    assert_eq!(list.entry(0).expirations, [Some(Expiration::Never), None, Some(Expiration::AtHeight(7))]);
    revoke_all(&mut ledger, &alice, &who("bob"), PermissionType::Transfer);
    revoke_all(&mut ledger, &alice, &who("bob"), PermissionType::ViewOwner);
    assert!(ledger.all_permissions.get(&alice).is_none());
    assert_eq!(ledger.all_permissions.len(), 1);
}

#[test]
fn tokens_hold_one_entry_per_grantee() {
    let mut token = Token::new(addr("alice"), true, true);
    grant_permission(&mut token.permissions, who("bob"), PermissionType::Transfer, Expiration::Never);
    grant_permission(&mut token.permissions, who("bob"), PermissionType::ViewOwner, Expiration::Never);
    grant_permission(&mut token.permissions, who("bob"), PermissionType::Transfer, Expiration::AtHeight(3));
    assert_eq!(token.permissions.len(), 1);
}
