use nft_registry::address::{Address, Grantee};
use nft_registry::approval::{grant_all, grant_token};
use nft_registry::contract::{
    check_status, get_token, transfer_impl, update_owner_inventory, InventoryUpdate,
};
use nft_registry::error::{ContractError, Counter};
use nft_registry::expiration::{BlockInfo, Expiration};
use nft_registry::inventory::Inventory;
use nft_registry::mint::{list_nft, List};
use nft_registry::msg::{ContractStatus, Env, HandleAnswer, ReceiverInfo, ResponseStatus, Send, Transfer};
use nft_registry::receiver::Snip721ReceiveMsg;
use nft_registry::send::{send_list, send_nft, transfer_nft};
use nft_registry::state::{store_transfer, Config, Entry, Ledger, ReceiveRegistration, StoredTxAction};
use nft_registry::table::Table;
use nft_registry::token::{PermissionType, Token};

fn addr(s: &str) -> Address {
    Address::new(s.as_bytes().to_vec())
}

fn config() -> Config {
    Config {
        name: "registry".to_string(),
        admin: addr("admin"),
        token_cnt: 0,
        tx_cnt: 0,
        status: ContractStatus::Normal.to_u8(),
        mint_cnt: 0,
        token_supply_is_public: true,
        owner_is_public: true,
        prng_seed: vec![],
        entropy: String::new(),
        viewing_key: String::new(),
        sealed_metadata_is_enabled: false,
        unwrap_to_private: false,
        minter_may_update_metadata: false,
        owner_may_update_metadata: false,
        burn_is_enabled: false,
    }
}

fn env(sender: &str, height: u64) -> Env {
    Env {
        block: BlockInfo { height, time: height * 5 },
        sender: addr(sender),
        contract_address: addr("registry"),
    }
}

fn item(id: &str) -> List {
    List {
        token_id: Some(id.to_string()),
        transferable: None,
        public_metadata: None,
        private_metadata: None,
    }
}

fn listed(owner: &str, ids: &[&str]) -> (Ledger, Config) {
    let mut ledger = Ledger::new();
    let mut cfg = config();
    let lists: Vec<List> = ids.iter().map(|id| item(id)).collect();
    list_nft(&mut ledger, &env(owner, 1), &mut cfg, 0, lists).unwrap();
    (ledger, cfg)
}

fn tokens_of(ledger: &Ledger, owner: &str) -> Vec<u32> {
    match ledger.inventories.get(&addr(owner)) {
        Some(inv) => (0..inv.count()).map(|i| inv.at(i)).collect(),
        None => vec![],
    }
}

#[test]
fn transfer_moves_token_and_second_transfer_fails() {
    let (mut ledger, mut cfg) = listed("alice", &["abc"]);
    let r = transfer_nft(&mut ledger, &env("alice", 10), &mut cfg, 0, addr("carol"), "abc".to_string(), None)
        .unwrap();
    assert!(r.messages.is_empty());
    assert!(matches!(r.data, Some(HandleAnswer::TransferNft { status: ResponseStatus::Success })));
    let (token, idx) = get_token(&ledger, "abc", None).unwrap();
    assert_eq!(idx, 1);
    assert_eq!(token.owner.bytes, b"carol".to_vec());
    assert_eq!(token.permissions.len(), 0);
    assert_eq!(tokens_of(&ledger, "alice"), Vec::<u32>::new());
    assert_eq!(tokens_of(&ledger, "carol"), vec![1]);
    assert_eq!(cfg.tx_cnt, 1);
    // the new owner asks for the same transfer again
    let again =
        transfer_nft(&mut ledger, &env("carol", 11), &mut cfg, 0, addr("carol"), "abc".to_string(), None);
    match again {
        Err(ContractError::AlreadyOwnedByRecipient { token_id }) => assert_eq!(token_id, "abc"),
        other => panic!("unexpected: {:?}", other.map(|_| ())),
    }
    assert_eq!(cfg.tx_cnt, 1);
    assert_eq!(tokens_of(&ledger, "carol"), vec![1]);
}

#[test]
fn second_transfer_by_previous_owner_is_denied() {
    let (mut ledger, mut cfg) = listed("alice", &["abc"]);
    transfer_nft(&mut ledger, &env("alice", 10), &mut cfg, 0, addr("carol"), "abc".to_string(), None)
        .unwrap();
    let again =
        transfer_nft(&mut ledger, &env("alice", 11), &mut cfg, 0, addr("carol"), "abc".to_string(), None);
    let err = again.unwrap_err();
    assert!(matches!(err, ContractError::AuthorizationDenied(_)));
    assert_eq!(err.message(""), "You are not authorized to perform this action on token abc");
}

#[test]
fn transfer_counts_change_by_exactly_one() {
    let (mut ledger, mut cfg) = listed("alice", &["a", "b", "c"]);
    list_nft(&mut ledger, &env("carol", 2), &mut cfg, 0, vec![item("x")]).unwrap();
    assert_eq!(tokens_of(&ledger, "alice"), vec![1, 2, 3]);
    assert_eq!(tokens_of(&ledger, "carol"), vec![4]);
    grant_token(
        &mut ledger,
        &cfg,
        &addr("alice"),
        "b",
        Grantee::Address(addr("bob")),
        PermissionType::ViewOwner,
        Expiration::Never,
    )
    .unwrap();
    assert_eq!(get_token(&ledger, "b", None).unwrap().0.permissions.len(), 1);
    transfer_nft(&mut ledger, &env("alice", 10), &mut cfg, 0, addr("carol"), "b".to_string(), None).unwrap();
    assert_eq!(tokens_of(&ledger, "alice"), vec![1, 3]);
    assert_eq!(tokens_of(&ledger, "carol"), vec![4, 2]);
    let (token, _) = get_token(&ledger, "b", None).unwrap();
    assert_eq!(token.permissions.len(), 0);
    assert_eq!(token.owner.bytes, b"carol".to_vec());
    assert!(token.transferable);
}

#[test]
fn transfer_of_unknown_token_fails_with_not_found_when_supply_is_public() {
    let (mut ledger, mut cfg) = listed("alice", &["abc"]);
    let err = transfer_nft(&mut ledger, &env("alice", 10), &mut cfg, 0, addr("carol"), "nope".to_string(), None)
        .unwrap_err();
    match &err {
        ContractError::NotFound { token_id } => assert_eq!(token_id, "nope"),
        other => panic!("unexpected: {:?}", other),
    }
    assert_eq!(err.message(""), "Token ID: nope not found");
}

#[test]
fn unknown_token_and_denied_token_read_the_same_when_supply_is_private() {
    let (mut ledger, mut cfg) = listed("alice", &["abc"]);
    cfg.token_supply_is_public = false;
    let missing = transfer_nft(&mut ledger, &env("bob", 10), &mut cfg, 0, addr("carol"), "nope".to_string(), None)
        .unwrap_err();
    let denied = transfer_nft(&mut ledger, &env("bob", 10), &mut cfg, 0, addr("carol"), "abc".to_string(), None)
        .unwrap_err();
    assert!(matches!(missing, ContractError::AuthorizationDenied(_)));
    assert!(matches!(denied, ContractError::AuthorizationDenied(_)));
    assert_eq!(missing.message(""), "You are not authorized to perform this action on token nope");
    assert_eq!(denied.message(""), "You are not authorized to perform this action on token abc");
    let other = transfer_nft(&mut ledger, &env("bob", 10), &mut cfg, 0, addr("carol"), "abc".to_string(), None)
        .unwrap_err();
    assert_eq!(denied.message(""), other.message(""));
}

#[test]
fn non_transferable_token_stays() {
    let mut ledger = Ledger::new();
    let mut cfg = config();
    let fixed = List {
        token_id: Some("fixed".to_string()),
        transferable: Some(false),
        public_metadata: None,
        private_metadata: None,
    };
    list_nft(&mut ledger, &env("alice", 1), &mut cfg, 0, vec![fixed]).unwrap();
    let err = transfer_nft(&mut ledger, &env("alice", 2), &mut cfg, 0, addr("bob"), "fixed".to_string(), None)
        .unwrap_err();
    match &err {
        ContractError::NonTransferable { token_id } => assert_eq!(token_id, "fixed"),
        other => panic!("unexpected: {:?}", other),
    }
    assert_eq!(err.message(""), "Token ID: fixed is non-transferable");
    assert_eq!(tokens_of(&ledger, "alice"), vec![1]);
    assert_eq!(cfg.tx_cnt, 0);
}

#[test]
fn transfer_to_current_owner_is_rejected() {
    let (mut ledger, mut cfg) = listed("alice", &["abc"]);
    let err = transfer_nft(&mut ledger, &env("alice", 2), &mut cfg, 0, addr("alice"), "abc".to_string(), None)
        .unwrap_err();
    assert_eq!(
        err.message(""),
        "Attempting to transfer token ID: abc to the address that already owns it"
    );
    assert_eq!(ledger.txs.len(), 0);
}

#[test]
fn transfer_fails_when_transaction_counter_is_full() {
    let (mut ledger, mut cfg) = listed("alice", &["abc"]);
    cfg.tx_cnt = u64::MAX;
    let err = transfer_nft(&mut ledger, &env("alice", 2), &mut cfg, 0, addr("bob"), "abc".to_string(), None)
        .unwrap_err();
    assert!(matches!(err, ContractError::CounterOverflow(Counter::Transactions)));
    assert_eq!(tokens_of(&ledger, "alice"), vec![1]);
    assert_eq!(cfg.tx_cnt, u64::MAX);
}

#[test]
fn transfer_records_transaction_without_sender_when_owner_sends() {
    let (mut ledger, mut cfg) = listed("alice", &["abc"]);
    cfg.tx_cnt = 7;
    transfer_nft(
        &mut ledger,
        &env("alice", 10),
        &mut cfg,
        0,
        addr("carol"),
        "abc".to_string(),
        Some("gift".to_string()),
    )
    .unwrap();
    assert_eq!(cfg.tx_cnt, 8);
    let tx = ledger.txs.get(&7).unwrap();
    assert_eq!(tx.tx_id, 7);
    assert_eq!(tx.block_height, 10);
    assert_eq!(tx.block_time, 50);
    assert_eq!(tx.token_id, "abc");
    assert_eq!(tx.memo, Some("gift".to_string()));
    match &tx.action {
        StoredTxAction::Transfer { from, sender, recipient } => {
            assert_eq!(from.bytes, b"alice".to_vec());
            assert!(sender.is_none());
            assert_eq!(recipient.bytes, b"carol".to_vec());
        }
    }
    assert_eq!(ledger.tx_ids.get(&addr("alice")).unwrap().value.ids, vec![7]);
    assert_eq!(ledger.tx_ids.get(&addr("carol")).unwrap().value.ids, vec![7]);
    assert_eq!(ledger.tx_ids.len(), 2);
}

#[test]
fn transfer_by_operator_records_sender_once_for_each_party() {
    let (mut ledger, mut cfg) = listed("alice", &["abc", "def"]);
    grant_all(&mut ledger, &addr("alice"), Grantee::Address(addr("bob")), PermissionType::Transfer, Expiration::Never);
    // bob sends one token to carol and one to himself
    transfer_nft(&mut ledger, &env("bob", 10), &mut cfg, 0, addr("carol"), "abc".to_string(), None).unwrap();
    transfer_nft(&mut ledger, &env("bob", 11), &mut cfg, 0, addr("bob"), "def".to_string(), None).unwrap();
    match &ledger.txs.get(&0).unwrap().action {
        StoredTxAction::Transfer { from, sender, recipient } => {
            assert_eq!(from.bytes, b"alice".to_vec());
            assert_eq!(sender.as_ref().unwrap().bytes, b"bob".to_vec());
            assert_eq!(recipient.bytes, b"carol".to_vec());
        }
    }
    assert_eq!(ledger.tx_ids.get(&addr("alice")).unwrap().value.ids, vec![0, 1]);
    assert_eq!(ledger.tx_ids.get(&addr("carol")).unwrap().value.ids, vec![0]);
    // the sender who is also the recipient is logged once
    assert_eq!(ledger.tx_ids.get(&addr("bob")).unwrap().value.ids, vec![0, 1]);
}

#[test]
fn store_transfer_appends_and_counts() {
    let mut ledger = Ledger::new();
    let mut cfg = config();
    cfg.tx_cnt = 3;
    store_transfer(
        &mut ledger,
        &mut cfg,
        &BlockInfo { height: 4, time: 9 },
        "t".to_string(),
        addr("a"),
        Some(addr("s")),
        addr("r"),
        None,
    )
    .unwrap();
    assert_eq!(cfg.tx_cnt, 4);
    assert_eq!(ledger.txs.len(), 1);
    assert_eq!(ledger.tx_ids.get(&addr("a")).unwrap().value.ids, vec![3]);
    assert_eq!(ledger.tx_ids.get(&addr("r")).unwrap().value.ids, vec![3]);
    assert_eq!(ledger.tx_ids.get(&addr("s")).unwrap().value.ids, vec![3]);
    cfg.tx_cnt = u64::MAX;
    let err = store_transfer(
        &mut ledger,
        &mut cfg,
        &BlockInfo { height: 4, time: 9 },
        "t".to_string(),
        addr("a"),
        None,
        addr("r"),
        None,
    )
    .unwrap_err();
    assert_eq!(err.message(""), "Attempting to record more transactions than the implementation limit");
    assert_eq!(ledger.txs.len(), 1);
}

#[test]
fn store_transfer_logs_each_participant_once() {
    let block = BlockInfo { height: 4, time: 9 };
    // the sender is the previous owner
    let mut ledger = Ledger::new();
    let mut cfg = config();
    store_transfer(&mut ledger, &mut cfg, &block, "t".to_string(), addr("a"), Some(addr("a")), addr("r"), None)
        .unwrap();
    assert_eq!(ledger.tx_ids.get(&addr("a")).unwrap().value.ids, vec![0]);
    assert_eq!(ledger.tx_ids.get(&addr("r")).unwrap().value.ids, vec![0]);
    assert_eq!(ledger.tx_ids.len(), 2);
    // the sender is the recipient
    store_transfer(&mut ledger, &mut cfg, &block, "t".to_string(), addr("a"), Some(addr("r")), addr("r"), None)
        .unwrap();
    assert_eq!(ledger.tx_ids.get(&addr("a")).unwrap().value.ids, vec![0, 1]);
    assert_eq!(ledger.tx_ids.get(&addr("r")).unwrap().value.ids, vec![0, 1]);
    // the previous owner is the recipient
    store_transfer(&mut ledger, &mut cfg, &block, "t".to_string(), addr("a"), Some(addr("s")), addr("a"), None)
        .unwrap();
    assert_eq!(ledger.tx_ids.get(&addr("a")).unwrap().value.ids, vec![0, 1, 2]);
    assert_eq!(ledger.tx_ids.get(&addr("s")).unwrap().value.ids, vec![2]);
    // all three are one address
    store_transfer(&mut ledger, &mut cfg, &block, "t".to_string(), addr("a"), Some(addr("a")), addr("a"), None)
        .unwrap();
    assert_eq!(ledger.tx_ids.get(&addr("a")).unwrap().value.ids, vec![0, 1, 2, 3]);
    assert_eq!(ledger.tx_ids.get(&addr("r")).unwrap().value.ids, vec![0, 1]);
    assert_eq!(ledger.tx_ids.len(), 3);
    assert_eq!(ledger.txs.len(), 4);
    assert_eq!(cfg.tx_cnt, 4);
}

#[test]
fn status_gate_compares_priority_with_status() {
    assert!(check_status(0, 0).is_ok());
    assert!(check_status(1, 1).is_ok());
    assert!(check_status(0, 1).is_ok());
    assert!(check_status(2, 1).is_err());
    let err = check_status(1, 0).unwrap_err();
    assert!(matches!(err, ContractError::StatusGateClosed));
    assert_eq!(err.message(""), "The contract admin has temporarily disabled this action");
}

#[test]
fn transfer_is_stopped_by_status() {
    let (mut ledger, mut cfg) = listed("alice", &["abc"]);
    cfg.status = ContractStatus::StopTransactions.to_u8();
    let err = transfer_nft(
        &mut ledger,
        &env("alice", 2),
        &mut cfg,
        ContractStatus::Normal.to_u8(),
        addr("bob"),
        "abc".to_string(),
        None,
    )
    .unwrap_err();
    assert!(matches!(err, ContractError::StatusGateClosed));
    let err = send_nft(
        &mut ledger,
        &env("alice", 2),
        &mut cfg,
        ContractStatus::Normal.to_u8(),
        addr("bob"),
        None,
        "abc".to_string(),
        None,
        None,
    )
    .unwrap_err();
    assert!(matches!(err, ContractError::StatusGateClosed));
    assert_eq!(tokens_of(&ledger, "alice"), vec![1]);
}

#[test]
fn operator_transfer_prunes_auth_lists() {
    // alice grants bob an "all tokens" Transfer permission expiring at block 100
    let (mut ledger, mut cfg) = listed("alice", &["abc", "def"]);
    grant_all(
        &mut ledger,
        &addr("alice"),
        Grantee::Address(addr("bob")),
        PermissionType::Transfer,
        Expiration::AtHeight(100),
    );
    // and lets bob see the owner of both tokens, token by token
    for id in ["abc", "def"] {
        grant_token(
            &mut ledger,
            &cfg,
            &addr("alice"),
            id,
            Grantee::Address(addr("bob")),
            PermissionType::ViewOwner,
            Expiration::Never,
        )
        .unwrap();
    }
    let lists = &ledger.auth_lists.get(&addr("alice")).unwrap().value;
    assert_eq!(lists.len(), 1);
    assert_eq!(lists.entry(0).tokens[0], vec![1, 2]);
    // at block 99 bob transfers "abc" from alice to carol
    transfer_nft(&mut ledger, &env("bob", 99), &mut cfg, 0, addr("carol"), "abc".to_string(), None).unwrap();
    assert_eq!(get_token(&ledger, "abc", None).unwrap().0.owner.bytes, b"carol".to_vec());
    let lists = &ledger.auth_lists.get(&addr("alice")).unwrap().value;
    assert_eq!(lists.len(), 1);
    assert_eq!(lists.entry(0).tokens[0], vec![2]);
    assert!(lists.entry(0).tokens[1].is_empty());
    assert!(lists.entry(0).tokens[2].is_empty());
    // the grant on all tokens does not follow the token to carol
    let err = transfer_nft(&mut ledger, &env("bob", 99), &mut cfg, 0, addr("dave"), "abc".to_string(), None)
        .unwrap_err();
    assert!(matches!(err, ContractError::AuthorizationDenied(_)));
    // the last authorised token leaves: the list goes altogether
    transfer_nft(&mut ledger, &env("bob", 99), &mut cfg, 0, addr("carol"), "def".to_string(), None).unwrap();
    assert!(ledger.auth_lists.get(&addr("alice")).is_none());
    assert_eq!(ledger.auth_lists.len(), 0);
}

#[test]
fn operator_transfer_fails_once_grant_has_expired() {
    let (mut ledger, mut cfg) = listed("alice", &["abc"]);
    grant_all(
        &mut ledger,
        &addr("alice"),
        Grantee::Address(addr("bob")),
        PermissionType::Transfer,
        Expiration::AtHeight(100),
    );
    let err = transfer_nft(&mut ledger, &env("bob", 100), &mut cfg, 0, addr("carol"), "abc".to_string(), None)
        .unwrap_err();
    assert_eq!(err.message("alice-name"), "Access to all tokens of alice-name has expired");
    assert_eq!(tokens_of(&ledger, "alice"), vec![1]);
}

#[test]
fn batch_transfer_is_all_or_nothing() {
    let (mut ledger, mut cfg) = listed("alice", &["a", "b"]);
    let transfers = vec![Transfer {
        recipient: addr("bob"),
        token_ids: vec!["a".to_string(), "missing".to_string()],
        memo: None,
    }];
    let err = send_list(&mut ledger, &env("alice", 3), &mut cfg, &addr("alice"), Some(transfers), None)
        .unwrap_err();
    assert!(matches!(err, ContractError::NotFound { .. }));
    assert_eq!(tokens_of(&ledger, "alice"), vec![1, 2]);
    assert_eq!(get_token(&ledger, "a", None).unwrap().0.owner.bytes, b"alice".to_vec());
    assert_eq!(cfg.tx_cnt, 0);
    assert_eq!(ledger.txs.len(), 0);
    let transfers = vec![
        Transfer { recipient: addr("bob"), token_ids: vec!["a".to_string()], memo: None },
        Transfer { recipient: addr("carol"), token_ids: vec!["b".to_string()], memo: None },
    ];
    let messages =
        send_list(&mut ledger, &env("alice", 3), &mut cfg, &addr("alice"), Some(transfers), None).unwrap();
    assert!(messages.is_empty());
    assert_eq!(tokens_of(&ledger, "alice"), Vec::<u32>::new());
    assert_eq!(tokens_of(&ledger, "bob"), vec![1]);
    assert_eq!(tokens_of(&ledger, "carol"), vec![2]);
    assert_eq!(cfg.tx_cnt, 2);
}

#[test]
fn token_can_pass_through_and_back_in_one_batch() {
    let (mut ledger, mut cfg) = listed("alice", &["a"]);
    grant_all(&mut ledger, &addr("bob"), Grantee::Address(addr("alice")), PermissionType::Transfer, Expiration::Never);
    let transfers = vec![
        Transfer { recipient: addr("bob"), token_ids: vec!["a".to_string()], memo: None },
        Transfer { recipient: addr("alice"), token_ids: vec!["a".to_string()], memo: None },
    ];
    send_list(&mut ledger, &env("alice", 3), &mut cfg, &addr("alice"), Some(transfers), None).unwrap();
    assert_eq!(tokens_of(&ledger, "alice"), vec![1]);
    assert_eq!(tokens_of(&ledger, "bob"), Vec::<u32>::new());
    assert_eq!(get_token(&ledger, "a", None).unwrap().0.owner.bytes, b"alice".to_vec());
    assert_eq!(cfg.tx_cnt, 2);
}

#[test]
fn send_notifies_receiver_per_token_without_batch_support() {
    let (mut ledger, mut cfg) = listed("alice", &["a", "b"]);
    ledger.receivers.put(Entry {
        key: addr("market"),
        value: ReceiveRegistration { code_hash: "hash-1".to_string(), impl_batch: false },
    });
    let sends = vec![Send {
        contract: addr("market"),
        receiver_info: None,
        token_ids: vec!["a".to_string(), "b".to_string()],
        msg: Some(vec![1, 2, 3]),
        memo: None,
    }];
    let messages = send_list(&mut ledger, &env("alice", 3), &mut cfg, &addr("alice"), None, Some(sends)).unwrap();
    assert_eq!(messages.len(), 2);
    for (callback, id) in messages.iter().zip(["a", "b"]) {
        assert_eq!(callback.callback_code_hash, "hash-1");
        assert_eq!(callback.contract_addr.bytes, b"market".to_vec());
        match &callback.msg {
            Snip721ReceiveMsg::ReceiveNft { sender, token_id, msg } => {
                assert_eq!(sender.bytes, b"alice".to_vec());
                assert_eq!(token_id, id);
                assert_eq!(msg, &Some(vec![1, 2, 3]));
            }
            other => panic!("unexpected: {:?}", other),
        }
    }
    assert_eq!(tokens_of(&ledger, "market"), vec![1, 2]);
}

#[test]
fn send_notifies_receiver_once_per_owner_with_batch_support() {
    let (mut ledger, mut cfg) = listed("alice", &["a", "b"]);
    list_nft(&mut ledger, &env("carol", 2), &mut cfg, 0, vec![item("c")]).unwrap();
    grant_all(&mut ledger, &addr("alice"), Grantee::Address(addr("bob")), PermissionType::Transfer, Expiration::Never);
    grant_all(&mut ledger, &addr("carol"), Grantee::Address(addr("bob")), PermissionType::Transfer, Expiration::Never);
    let sends = vec![Send {
        contract: addr("market"),
        receiver_info: Some(ReceiverInfo {
            recipient_code_hash: "supplied".to_string(),
            also_implements_batch_receive_nft: Some(true),
        }),
        token_ids: vec!["a".to_string(), "c".to_string(), "b".to_string()],
        msg: None,
        memo: None,
    }];
    let messages = send_list(&mut ledger, &env("bob", 3), &mut cfg, &addr("bob"), None, Some(sends)).unwrap();
    assert_eq!(messages.len(), 2);
    match &messages[0].msg {
        Snip721ReceiveMsg::BatchReceiveNft { sender, from, token_ids, msg } => {
            assert_eq!(sender.bytes, b"bob".to_vec());
            assert_eq!(from.bytes, b"alice".to_vec());
            assert_eq!(token_ids, &vec!["a".to_string(), "b".to_string()]);
            assert!(msg.is_none());
        }
        other => panic!("unexpected: {:?}", other),
    }
    match &messages[1].msg {
        Snip721ReceiveMsg::BatchReceiveNft { from, token_ids, .. } => {
            assert_eq!(from.bytes, b"carol".to_vec());
            assert_eq!(token_ids, &vec!["c".to_string()]);
        }
        other => panic!("unexpected: {:?}", other),
    }
    assert_eq!(messages[0].callback_code_hash, "supplied");
}

#[test]
fn send_to_unregistered_contract_uses_empty_code_hash() {
    let (mut ledger, mut cfg) = listed("alice", &["a"]);
    let r = send_nft(&mut ledger, &env("alice", 3), &mut cfg, 0, addr("market"), None, "a".to_string(), None, None)
        .unwrap();
    assert!(matches!(r.data, Some(HandleAnswer::SendNft { status: ResponseStatus::Success })));
    assert_eq!(r.messages.len(), 1);
    assert_eq!(r.messages[0].callback_code_hash, "");
    assert!(matches!(r.messages[0].msg, Snip721ReceiveMsg::ReceiveNft { .. }));
}

#[test]
fn transfer_impl_keeps_inventories_in_the_updates() {
    let (mut ledger, mut cfg) = listed("alice", &["a"]);
    let mut oper_for: Table<Address> = Table::new();
    let mut updates: Table<InventoryUpdate> = Table::new();
    let previous = transfer_impl(
        &mut ledger,
        &BlockInfo { height: 5, time: 5 },
        &mut cfg,
        &addr("alice"),
        "a".to_string(),
        addr("bob"),
        &mut oper_for,
        &mut updates,
        None,
    )
    .unwrap();
    assert_eq!(previous.bytes, b"alice".to_vec());
    assert_eq!(updates.len(), 2);
    assert_eq!(updates.entry(0).inventory.owner().bytes, b"bob".to_vec());
    assert!(updates.entry(0).inventory.contains(1));
    assert!(updates.entry(0).remove.is_empty());
    assert_eq!(updates.entry(1).inventory.owner().bytes, b"alice".to_vec());
    assert!(!updates.entry(1).inventory.contains(1));
    assert!(updates.entry(1).remove.contains(&1));
    assert_eq!(updates.entry(1).remove.len(), 1);
    // the ledger's inventories change when the updates are written
    assert_eq!(tokens_of(&ledger, "alice"), vec![1]);
    update_owner_inventory(&mut ledger, &updates);
    assert_eq!(tokens_of(&ledger, "alice"), Vec::<u32>::new());
    assert_eq!(tokens_of(&ledger, "bob"), vec![1]);
}

#[test]
fn hand_built_ledger_transfers_like_a_listed_one() {
    let mut ledger = Ledger::new();
    ledger.map2idx.put(Entry { key: "abc".to_string(), value: 9 });
    ledger.map2id.put(Entry { key: 9, value: "abc".to_string() });
    ledger.infos.put(Entry { key: 9, value: Token::new(addr("alice"), true, true) });
    let mut inv = Inventory::new(addr("alice"));
    inv.insert(9);
    ledger.inventories.put(inv);
    let mut cfg = config();
    transfer_nft(&mut ledger, &env("alice", 10), &mut cfg, 0, addr("carol"), "abc".to_string(), None).unwrap();
    assert_eq!(tokens_of(&ledger, "carol"), vec![9]);
    ledger.keyed();
}

#[test]
fn token_without_info_is_an_invariant_violation() {
    let mut ledger = Ledger::new();
    ledger.map2idx.put(Entry { key: "ghost".to_string(), value: 3 });
    let err = get_token(&ledger, "ghost", None).unwrap_err();
    assert!(matches!(err, ContractError::InvariantViolation(_)));
    assert_eq!(err.message(""), "Unable to find token info for ghost");
}
