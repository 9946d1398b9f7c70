use nft_registry::address::Address;
use nft_registry::error::{ContractError, Counter};
use nft_registry::expiration::BlockInfo;
use nft_registry::handle::{
    change_admin, handle, init, make_owner_private, register_receive_nft, set_contract_status,
    HandleMsg, InitMsg,
};
use nft_registry::mint::{decimal, enforce_metadata_field_exclusion, list_nft, mint, set_metadata_impl, List};
use nft_registry::msg::{ContractStatus, Env, HandleAnswer, InitConfig, ResponseStatus};
use nft_registry::state::{Config, Ledger};
use nft_registry::table::Value;
use nft_registry::token::{Metadata, Token};
use nft_registry::viewing_key::{check_key, create_key, derive_key, hashes_match, set_key, VIEWING_KEY_SIZE};

fn addr(s: &str) -> Address {
    Address::new(s.as_bytes().to_vec())
}

fn env(sender: &str, height: u64) -> Env {
    Env {
        block: BlockInfo { height, time: height * 5 },
        sender: addr(sender),
        contract_address: addr("registry"),
    }
}

fn start() -> (Ledger, Config) {
    init(
        &env("admin", 1),
        InitMsg { name: "registry".to_string(), admin: None, config: None, entropy: "secret entropy".to_string() },
    )
}

fn item(id: Option<&str>) -> List {
    List { token_id: id.map(|s| s.to_string()), transferable: None, public_metadata: None, private_metadata: None }
}

fn tokens_of(ledger: &Ledger, owner: &str) -> Vec<u32> {
    match ledger.inventories.get(&addr(owner)) {
        Some(inv) => (0..inv.count()).map(|i| inv.at(i)).collect(),
        None => vec![],
    }
}

#[test]
fn init_derives_seed_and_viewing_key() {
    let (ledger, cfg) = start();
    assert_eq!(cfg.name, "registry");
    assert_eq!(cfg.admin.bytes, b"admin".to_vec());
    assert_eq!(cfg.token_cnt, 0);
    assert_eq!(cfg.tx_cnt, 0);
    assert_eq!(cfg.mint_cnt, 0);
    assert_eq!(cfg.status, 0);
    assert!(cfg.token_supply_is_public);
    assert!(cfg.owner_is_public);
    // the SHA-256 digest of the base64 text "c2VjcmV0IGVudHJvcHk="
    assert_eq!(
        cfg.prng_seed,
        vec![
            138, 17, 15, 20, 80, 196, 100, 229, 134, 90, 4, 65, 49, 238, 145, 159, 180, 234, 164, 192, 200,
            143, 14, 51, 165, 107, 87, 210, 201, 231, 93, 154
        ]
    );
    assert_eq!(cfg.viewing_key, "ihEPFFDEZOWGWgRBMe6Rn7TqpMDIjw4zpWtX0snnXZo=");
    assert_eq!(cfg.entropy, "");
    assert!(!cfg.sealed_metadata_is_enabled);
    assert!(!cfg.burn_is_enabled);
    assert_eq!(ledger.creator.as_ref().unwrap().bytes, b"admin".to_vec());
    assert_eq!(ledger.my_address.as_ref().unwrap().bytes, b"registry".to_vec());
    assert_eq!(ledger.block, Some(BlockInfo { height: 1, time: 5 }));
    assert_eq!(ledger.infos.len(), 0);
}

#[test]
fn init_with_empty_entropy_and_named_admin() {
    let (_, cfg) = init(
        &env("creator", 1),
        InitMsg {
            name: "n".to_string(),
            admin: Some(addr("boss")),
            config: Some(InitConfig { public_token_supply: Some(false), public_owner: None }),
            entropy: String::new(),
        },
    );
    assert_eq!(cfg.admin.bytes, b"boss".to_vec());
    assert!(!cfg.token_supply_is_public);
    assert!(cfg.owner_is_public);
    assert_eq!(cfg.viewing_key, "47DEQpj8HBSa+/TImW+5JCeuQeRkm5NMpJWZG3hSuFU=");
    assert_eq!(cfg.prng_seed.len(), 32);
}

#[test]
fn stop_transactions_stops_transfers_but_not_administration() {
    let (mut ledger, mut cfg) = start();
    handle(&mut ledger, &env("alice", 2), &mut cfg, HandleMsg::ListNft { token_lists: vec![item(Some("abc"))] })
        .unwrap();
    let r = handle(
        &mut ledger,
        &env("admin", 3),
        &mut cfg,
        HandleMsg::SetContractStatus { level: ContractStatus::StopTransactions, padding: None })
    .unwrap();
    assert!(matches!(r.data, Some(HandleAnswer::SetContractStatus { status: ResponseStatus::Success })));
    assert_eq!(cfg.status, 1);
    let transfer = HandleMsg::TransferNft { recipient: addr("bob"), token_id: "abc".to_string(), memo: None, padding: None };
    let err = handle(&mut ledger, &env("alice", 4), &mut cfg, transfer).unwrap_err();
    assert!(matches!(err, ContractError::StatusGateClosed));
    let send = HandleMsg::SendNft {
        contract: addr("bob"),
        receiver_info: None,
        token_id: "abc".to_string(),
        msg: None,
        memo: None,
        padding: None,
    };
    let err = handle(&mut ledger, &env("alice", 4), &mut cfg, send).unwrap_err();
    assert!(matches!(err, ContractError::StatusGateClosed));
    let err = handle(&mut ledger, &env("alice", 4), &mut cfg, HandleMsg::ListNft { token_lists: vec![item(None)] })
        .unwrap_err();
    assert!(matches!(err, ContractError::StatusGateClosed));
    assert_eq!(tokens_of(&ledger, "alice"), vec![1]);
    // a failed request leaves the block of the last successful one
    assert_eq!(ledger.block, Some(BlockInfo { height: 3, time: 15 }));
    let register = HandleMsg::RegisterReceiveNft {
        code_hash: "h".to_string(),
        also_implements_batch_receive_nft: Some(true),
        padding: None,
    };
    handle(&mut ledger, &env("market", 5), &mut cfg, register).unwrap();
    let reg = &ledger.receivers.get(&addr("market")).unwrap().value;
    assert_eq!(reg.code_hash, "h");
    assert!(reg.impl_batch);
    assert_eq!(ledger.block, Some(BlockInfo { height: 5, time: 25 }));
    handle(&mut ledger, &env("alice", 6), &mut cfg, HandleMsg::MakeOwnershipPrivate { padding: None })
        .unwrap();
    handle(&mut ledger, &env("alice", 6), &mut cfg, HandleMsg::SetViewingKey { key: "k".to_string(), padding: None })
        .unwrap();
    handle(
        &mut ledger,
        &env("admin", 7),
        &mut cfg,
        HandleMsg::SetContractStatus { level: ContractStatus::Normal, padding: None })
    .unwrap();
    let transfer = HandleMsg::TransferNft { recipient: addr("bob"), token_id: "abc".to_string(), memo: None, padding: None };
    handle(&mut ledger, &env("alice", 8), &mut cfg, transfer).unwrap();
    assert_eq!(tokens_of(&ledger, "bob"), vec![1]);
}

#[test]
fn stop_all_stops_everything_but_the_status_itself() {
    let (mut ledger, mut cfg) = start();
    set_contract_status(&env("admin", 2), &mut cfg, ContractStatus::StopAll).unwrap();
    assert_eq!(cfg.status, 2);
    let register = HandleMsg::RegisterReceiveNft { code_hash: "h".to_string(), also_implements_batch_receive_nft: None, padding: None };
    assert!(matches!(
        handle(&mut ledger, &env("market", 3), &mut cfg, register).unwrap_err(),
        ContractError::StatusGateClosed
    ));
    let change = HandleMsg::ChangeAdmin { address: addr("x"), padding: None };
    assert!(matches!(
        handle(&mut ledger, &env("admin", 3), &mut cfg, change).unwrap_err(),
        ContractError::StatusGateClosed
    ));
    set_contract_status(&env("admin", 4), &mut cfg, ContractStatus::Normal).unwrap();
    assert_eq!(cfg.status, 0);
}

#[test]
fn only_the_admin_sets_the_status_and_changes_the_admin() {
    let (_, mut cfg) = start();
    let err = set_contract_status(&env("alice", 2), &mut cfg, ContractStatus::StopAll).unwrap_err();
    assert!(matches!(err, ContractError::AdminRequired));
    assert_eq!(err.message(""), "This is an admin command and can only be run from the admin address");
    assert_eq!(cfg.status, 0);
    let err = change_admin(&env("alice", 2), &mut cfg, 1, &addr("alice")).unwrap_err();
    assert!(matches!(err, ContractError::AdminRequired));
    let r = change_admin(&env("admin", 2), &mut cfg, 1, &addr("alice")).unwrap();
    assert!(matches!(r.data, Some(HandleAnswer::ChangeAdmin { status: ResponseStatus::Success })));
    assert_eq!(cfg.admin.bytes, b"alice".to_vec());
    assert!(set_contract_status(&env("admin", 3), &mut cfg, ContractStatus::StopAll).is_err());
    assert!(set_contract_status(&env("alice", 3), &mut cfg, ContractStatus::StopTransactions).is_ok());
    assert_eq!(cfg.status, 1);
}

#[test]
fn register_receive_nft_defaults_to_no_batches() {
    let (mut ledger, cfg) = start();
    let r = register_receive_nft(&mut ledger, &env("market", 2), &cfg, 1, "code".to_string(), None).unwrap();
    assert!(matches!(r.data, Some(HandleAnswer::RegisterReceiveNft { status: ResponseStatus::Success })));
    let reg = &ledger.receivers.get(&addr("market")).unwrap().value;
    assert_eq!(reg.code_hash, "code");
    assert!(!reg.impl_batch);
}

#[test]
fn make_owner_private_only_matters_where_ownership_is_public() {
    let (mut ledger, mut cfg) = start();
    make_owner_private(&mut ledger, &env("alice", 2), &cfg, 1).unwrap();
    assert_eq!(ledger.owner_priv.get(&addr("alice")).unwrap().value, false);
    cfg.owner_is_public = false;
    make_owner_private(&mut ledger, &env("bob", 2), &cfg, 1).unwrap();
    assert!(ledger.owner_priv.get(&addr("bob")).is_none());
}

#[test]
fn viewing_key_is_stored_as_its_hash() {
    let (mut ledger, cfg) = start();
    assert!(check_key(&ledger, &addr("alice"), "my key").is_err());
    let r = set_key(&mut ledger, &env("alice", 2), &cfg, 1, "my key".to_string()).unwrap();
    match r.data {
        Some(HandleAnswer::ViewingKey { key }) => assert_eq!(key, "my key"),
        other => panic!("unexpected: {:?}", other),
    }
    assert_eq!(
        ledger.view_keys.get(&addr("alice")).unwrap().value,
        vec![
            160, 225, 45, 96, 30, 16, 21, 79, 229, 116, 63, 214, 210, 186, 55, 73, 35, 101, 7, 123, 72, 95, 6,
            193, 49, 239, 73, 84, 32, 0, 82, 83
        ]
    );
    assert!(check_key(&ledger, &addr("alice"), "my key").is_ok());
    let err = check_key(&ledger, &addr("alice"), "my kex").unwrap_err();
    assert!(matches!(err, ContractError::WrongViewingKey));
    assert_eq!(err.message(""), "Wrong viewing key for this address or viewing key not set");
    assert!(check_key(&ledger, &addr("bob"), "my key").is_err());
    create_key(&mut ledger, &env("alice", 3), &cfg, 1, "e").unwrap();
    assert!(check_key(&ledger, &addr("alice"), "my key").is_err());
    assert!(check_key(&ledger, &addr("alice"), "api_key_hjWX3uHkjhw4DF9gxCsWvV6unTPlC/dvjDmJK3fgJQk=").is_ok());
}

#[test]
fn created_viewing_key_is_derived_from_seed_block_sender_and_entropy() {
    let (mut ledger, mut cfg) = start();
    let r = handle(
        &mut ledger,
        &env("alice", 2),
        &mut cfg,
        HandleMsg::CreateViewingKey { entropy: "e".to_string(), padding: None },
    )
    .unwrap();
    match r.data {
        Some(HandleAnswer::ViewingKey { key }) => {
            assert_eq!(key, "api_key_Nu4vpSbAyPsMecy8twopQrKJfLjKGk/6SS8DyICfStg=")
        }
        other => panic!("unexpected: {:?}", other),
    }
    assert!(check_key(&ledger, &addr("alice"), "api_key_Nu4vpSbAyPsMecy8twopQrKJfLjKGk/6SS8DyICfStg=").is_ok());
    assert!(check_key(&ledger, &addr("alice"), "api_key_").is_err());
    // another block gives another key
    assert_eq!(
        derive_key(&cfg.prng_seed, &env("alice", 3), "e"),
        "api_key_hjWX3uHkjhw4DF9gxCsWvV6unTPlC/dvjDmJK3fgJQk="
    );
    let nobody = Env { block: BlockInfo { height: 0, time: 0 }, sender: addr(""), contract_address: addr("") };
    assert_eq!(derive_key(&vec![], &nobody, ""), "api_key_N0cI//dxndWXnsh11WzSKG9tPPfsMXo7JWMqqyjsN7s=");
}

#[test]
fn hashes_match_treats_a_missing_hash_as_zeros() {
    assert_eq!(VIEWING_KEY_SIZE, 32);
    assert!(hashes_match(None, &vec![0u8; 32]));
    assert!(!hashes_match(None, &vec![0u8; 31]));
    let mut almost = vec![0u8; 32];
    almost[31] = 1;
    assert!(!hashes_match(None, &almost));
    assert!(hashes_match(Some(&almost), &almost));
    assert!(!hashes_match(Some(&almost), &vec![0u8; 32]));
}

#[test]
fn decimal_writes_numbers() {
    assert_eq!(decimal(0), "0");
    assert_eq!(decimal(7), "7");
    assert_eq!(decimal(10), "10");
    assert_eq!(decimal(1234567890), "1234567890");
    assert_eq!(decimal(4294967295), "4294967295");
}

#[test]
fn listing_assigns_indices_and_sequential_ids() {
    let (mut ledger, mut cfg) = start();
    let r = list_nft(&mut ledger, &env("alice", 2), &mut cfg, 0, vec![item(None), item(Some("abc")), item(None)]).unwrap();
    assert!(matches!(r.data, Some(HandleAnswer::ListNft { status: ResponseStatus::Success })));
    assert_eq!(cfg.token_cnt, 3);
    // the id of a token without one is the token count before it is listed
    assert_eq!(ledger.map2id.get(&1).unwrap().value, "0");
    assert_eq!(ledger.map2id.get(&2).unwrap().value, "abc");
    assert_eq!(ledger.map2id.get(&3).unwrap().value, "2");
    assert_eq!(ledger.map2idx.get(&"2".to_string()).unwrap().value, 3);
    assert_eq!(tokens_of(&ledger, "alice"), vec![1, 2, 3]);
    let token: &Token = &ledger.infos.get(&2).unwrap().value;
    assert_eq!(token.owner.bytes, b"alice".to_vec());
    assert!(token.transferable);
    assert!(token.unwrapped);
    assert_eq!(token.permissions.len(), 0);
}

#[test]
fn listing_a_used_id_fails_and_changes_nothing() {
    let (mut ledger, mut cfg) = start();
    list_nft(&mut ledger, &env("alice", 2), &mut cfg, 0, vec![item(Some("abc"))]).unwrap();
    let err = list_nft(&mut ledger, &env("bob", 3), &mut cfg, 0, vec![item(Some("new")), item(Some("abc"))]).unwrap_err();
    match &err {
        ContractError::DuplicateID { token_id } => assert_eq!(token_id, "abc"),
        other => panic!("unexpected: {:?}", other),
    }
    assert_eq!(err.message(""), "Token ID abc is already in use");
    assert_eq!(cfg.token_cnt, 1);
    assert!(ledger.map2idx.get(&"new".to_string()).is_none());
    assert_eq!(tokens_of(&ledger, "bob"), Vec::<u32>::new());
    // an id that the counter would give is taken as well
    list_nft(&mut ledger, &env("bob", 3), &mut cfg, 0, vec![item(Some("2"))]).unwrap();
    let err = list_nft(&mut ledger, &env("bob", 3), &mut cfg, 0, vec![item(None)]).unwrap_err();
    assert!(matches!(err, ContractError::DuplicateID { .. }));
}

#[test]
fn listing_stops_at_the_token_limit() {
    let (mut ledger, mut cfg) = start();
    cfg.token_cnt = u32::MAX;
    let err = mint(&mut ledger, &mut cfg, &addr("alice"), &item(Some("last"))).unwrap_err();
    assert!(matches!(err, ContractError::CounterOverflow(Counter::Tokens)));
    assert_eq!(err.message(""), "Attempting to mint more tokens than the implementation limit");
    cfg.token_cnt = u32::MAX - 1;
    assert_eq!(mint(&mut ledger, &mut cfg, &addr("alice"), &item(None)).unwrap(), u32::MAX);
    assert_eq!(ledger.map2id.get(&u32::MAX).unwrap().value, "4294967294");
    assert_eq!(cfg.token_cnt, u32::MAX);
    assert_eq!(tokens_of(&ledger, "alice"), vec![u32::MAX]);
}

#[test]
fn metadata_holds_a_uri_or_an_extension() {
    let both = Metadata { token_uri: Some("u".to_string()), extension: Some("e".to_string()) };
    let uri = Metadata { token_uri: Some("u".to_string()), extension: None };
    let neither = Metadata { token_uri: None, extension: None };
    let err = enforce_metadata_field_exclusion(&both).unwrap_err();
    assert!(matches!(err, ContractError::MetadataConflict));
    assert_eq!(err.message(""), "Metadata can not have BOTH token_uri AND extension");
    assert!(enforce_metadata_field_exclusion(&uri).is_ok());
    assert!(enforce_metadata_field_exclusion(&neither).is_ok());
    let (mut ledger, mut cfg) = start();
    let bad = List { token_id: Some("x".to_string()), transferable: None, public_metadata: None, private_metadata: Some(both) };
    assert!(matches!(mint(&mut ledger, &mut cfg, &addr("alice"), &bad).unwrap_err(), ContractError::MetadataConflict));
    assert_eq!(cfg.token_cnt, 0);
    assert_eq!(ledger.map2idx.len(), 0);
    let good = List {
        token_id: Some("x".to_string()),
        transferable: Some(false),
        public_metadata: Some(uri),
        private_metadata: Some(Metadata { token_uri: None, extension: Some("secret".to_string()) }),
    };
    mint(&mut ledger, &mut cfg, &addr("alice"), &good).unwrap();
    assert_eq!(ledger.pub_meta.get(&1).unwrap().value.token_uri, Some("u".to_string()));
    assert_eq!(ledger.priv_meta.get(&1).unwrap().value.extension, Some("secret".to_string()));
    assert!(!ledger.infos.get(&1).unwrap().value.transferable);
}

#[test]
fn sealed_metadata_cannot_be_set() {
    let (mut ledger, mut cfg) = start();
    cfg.sealed_metadata_is_enabled = true;
    mint(&mut ledger, &mut cfg, &addr("alice"), &item(Some("x"))).unwrap();
    let token = ledger.infos.get(&1).unwrap().value.copy();
    assert!(!token.unwrapped);
    let meta = Metadata { token_uri: Some("u".to_string()), extension: None };
    let err = set_metadata_impl(&mut ledger, &token, 1, true, &meta).unwrap_err();
    assert!(matches!(err, ContractError::SealedMetadataFixed));
    assert_eq!(err.message(""), "The private metadata of a sealed token can not be modified");
    set_metadata_impl(&mut ledger, &token, 1, false, &meta).unwrap();
    assert_eq!(ledger.pub_meta.get(&1).unwrap().value.token_uri, Some("u".to_string()));
    assert!(ledger.priv_meta.get(&1).is_none());
    let both = Metadata { token_uri: Some("u".to_string()), extension: Some("e".to_string()) };
    assert!(matches!(set_metadata_impl(&mut ledger, &token, 1, false, &both).unwrap_err(), ContractError::MetadataConflict));
}
