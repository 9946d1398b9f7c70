//! The stored state of the registry: its configuration, its sub-stores, and the
//! log of transactions.

use vstd::prelude::*;
use crate::address::{copy_opt_address, copy_opt_string, opt_addr_view, opt_str_view, Address};
use crate::error::{ContractError, Counter, ErrorView};
use crate::expiration::BlockInfo;
use crate::inventory::{Inventory, InventoryView};
use crate::table::{keys_distinct, lemma_stored, lookup, stored, Key, Record, Table, Value};
use crate::token::{
    AuthList, AuthListView, Metadata, MetadataView, Permission, PermissionView, Token, TokenView,
};

verus! {

/// Token contract config
#[derive(Debug)]
pub struct Config {
    /// name of token contract
    pub name: String,
    /// admin address
    pub admin: Address,
    /// token count
    pub token_cnt: u32,
    /// transaction count
    pub tx_cnt: u64,
    /// contract status
    pub status: u8,
    /// count of mint ops
    pub mint_cnt: u32,
    /// are token IDs/count public
    pub token_supply_is_public: bool,
    /// is ownership public
    pub owner_is_public: bool,
    /// prng seed
    pub prng_seed: Vec<u8>,
    /// combined entropy strings supplied with the tokens
    pub entropy: String,
    /// viewing key used with the contract
    pub viewing_key: String,
    /// is sealed metadata enabled
    pub sealed_metadata_is_enabled: bool,
    /// should Reveal unwrap to private metadata
    pub unwrap_to_private: bool,
    /// is a minter permitted to update a token's metadata
    pub minter_may_update_metadata: bool,
    /// is the token's owner permitted to update the token's metadata
    pub owner_may_update_metadata: bool,
    /// is burn enabled
    pub burn_is_enabled: bool,
}

/// The view of a [`Config`].
pub struct ConfigView {
    pub name: Seq<char>,
    pub admin: Seq<u8>,
    pub token_cnt: u32,
    pub tx_cnt: u64,
    pub status: u8,
    pub mint_cnt: u32,
    pub token_supply_is_public: bool,
    pub owner_is_public: bool,
    pub prng_seed: Seq<u8>,
    pub entropy: Seq<char>,
    pub viewing_key: Seq<char>,
    pub sealed_metadata_is_enabled: bool,
    pub unwrap_to_private: bool,
    pub minter_may_update_metadata: bool,
    pub owner_may_update_metadata: bool,
    pub burn_is_enabled: bool,
}

impl View for Config {
    type V = ConfigView;

    open spec fn view(&self) -> ConfigView {
        ConfigView {
            name: self.name@,
            admin: self.admin@,
            token_cnt: self.token_cnt,
            tx_cnt: self.tx_cnt,
            status: self.status,
            mint_cnt: self.mint_cnt,
            token_supply_is_public: self.token_supply_is_public,
            owner_is_public: self.owner_is_public,
            prng_seed: self.prng_seed@,
            entropy: self.entropy@,
            viewing_key: self.viewing_key@,
            sealed_metadata_is_enabled: self.sealed_metadata_is_enabled,
            unwrap_to_private: self.unwrap_to_private,
            minter_may_update_metadata: self.minter_may_update_metadata,
            owner_may_update_metadata: self.owner_may_update_metadata,
            burn_is_enabled: self.burn_is_enabled,
        }
    }
}

impl Value for Config {
    fn copy(&self) -> (c: Config) {
        let prng_seed = self.prng_seed.clone();
        assert(prng_seed@ =~= self.prng_seed@);
        Config {
            name: self.name.clone(),
            admin: self.admin.copy(),
            token_cnt: self.token_cnt,
            tx_cnt: self.tx_cnt,
            status: self.status,
            mint_cnt: self.mint_cnt,
            token_supply_is_public: self.token_supply_is_public,
            owner_is_public: self.owner_is_public,
            prng_seed,
            entropy: self.entropy.clone(),
            viewing_key: self.viewing_key.clone(),
            sealed_metadata_is_enabled: self.sealed_metadata_is_enabled,
            unwrap_to_private: self.unwrap_to_private,
            minter_may_update_metadata: self.minter_may_update_metadata,
            owner_may_update_metadata: self.owner_may_update_metadata,
            burn_is_enabled: self.burn_is_enabled,
        }
    }
}

/// a contract's code hash and whether they implement BatchReceiveNft
#[derive(Debug)]
pub struct ReceiveRegistration {
    /// code hash of the contract
    pub code_hash: String,
    /// true if the contract implements BatchReceiveNft
    pub impl_batch: bool,
}

/// The view of a [`ReceiveRegistration`].
pub struct ReceiveRegistrationView {
    pub code_hash: Seq<char>,
    pub impl_batch: bool,
}

impl View for ReceiveRegistration {
    type V = ReceiveRegistrationView;

    open spec fn view(&self) -> ReceiveRegistrationView {
        ReceiveRegistrationView { code_hash: self.code_hash@, impl_batch: self.impl_batch }
    }
}

impl Value for ReceiveRegistration {
    fn copy(&self) -> (r: ReceiveRegistration) {
        ReceiveRegistration { code_hash: self.code_hash.clone(), impl_batch: self.impl_batch }
    }
}

/// tx type and specifics
#[derive(Debug)]
pub enum StoredTxAction {
    /// transferred token ownership
    Transfer {
        /// previous owner
        from: Address,
        /// optional sender if not owner
        sender: Option<Address>,
        /// new owner
        recipient: Address,
    },
}

/// The view of a [`StoredTxAction`].
pub enum TxActionView {
    Transfer { from: Seq<u8>, sender: Option<Seq<u8>>, recipient: Seq<u8> },
}

impl View for StoredTxAction {
    type V = TxActionView;

    open spec fn view(&self) -> TxActionView {
        match self {
            StoredTxAction::Transfer { from, sender, recipient } => TxActionView::Transfer {
                from: from@,
                sender: opt_addr_view(*sender),
                recipient: recipient@,
            },
        }
    }
}

/// tx in storage
#[derive(Debug)]
pub struct StoredTx {
    /// tx id
    pub tx_id: u64,
    /// the block containing this tx
    pub block_height: u64,
    /// the time (in seconds since 01/01/1970) of the block containing this tx
    pub block_time: u64,
    /// token id
    pub token_id: String,
    /// tx type and specifics
    pub action: StoredTxAction,
    /// optional memo
    pub memo: Option<String>,
}

/// The view of a [`StoredTx`].
pub struct StoredTxView {
    pub tx_id: u64,
    pub block_height: u64,
    pub block_time: u64,
    pub token_id: Seq<char>,
    pub action: TxActionView,
    pub memo: Option<Seq<char>>,
}

impl View for StoredTx {
    type V = StoredTxView;

    open spec fn view(&self) -> StoredTxView {
        StoredTxView {
            tx_id: self.tx_id,
            block_height: self.block_height,
            block_time: self.block_time,
            token_id: self.token_id@,
            action: self.action@,
            memo: opt_str_view(self.memo),
        }
    }
}

impl Value for StoredTx {
    fn copy(&self) -> (t: StoredTx) {
        let action = match &self.action {
            StoredTxAction::Transfer { from, sender, recipient } => StoredTxAction::Transfer {
                from: from.copy(),
                sender: copy_opt_address(sender),
                recipient: recipient.copy(),
            },
        };
        StoredTx {
            tx_id: self.tx_id,
            block_height: self.block_height,
            block_time: self.block_time,
            token_id: self.token_id.clone(),
            action,
            memo: copy_opt_string(&self.memo),
        }
    }
}

impl Record for StoredTx {
    type Key = u64;

    open spec fn key_of(v: StoredTxView) -> u64 {
        v.tx_id
    }

    fn key(&self) -> (k: &u64) {
        &self.tx_id
    }
}

/// A value stored under a key.
#[derive(Debug)]
pub struct Entry<K: Key, V: Value> {
    pub key: K,
    pub value: V,
}

/// The view of an [`Entry`].
pub struct EntryView<K, V> {
    pub key: K,
    pub value: V,
}

impl<K: Key, V: Value> View for Entry<K, V> {
    type V = EntryView<K::V, V::V>;

    open spec fn view(&self) -> EntryView<K::V, V::V> {
        EntryView { key: self.key@, value: self.value@ }
    }
}

impl<K: Key, V: Value> Value for Entry<K, V> {
    fn copy(&self) -> (e: Self) {
        Entry { key: self.key.copy(), value: self.value.copy() }
    }
}

impl<K: Key, V: Value> Record for Entry<K, V> {
    type Key = K;

    open spec fn key_of(v: EntryView<K::V, V::V>) -> K::V {
        v.key
    }

    fn key(&self) -> (k: &K) {
        &self.key
    }
}

/// The value that `s` holds under `k`, if it holds one.
pub open spec fn value_at<K: Key, V: Value>(s: Seq<EntryView<K::V, V::V>>, k: K::V) -> Option<
    V::V,
> {
    match lookup::<Entry<K, V>>(s, k) {
        Some(e) => Some(e.value),
        None => None,
    }
}

impl Value for Vec<u8> {
    fn copy(&self) -> (v: Vec<u8>) {
        let v = self.clone();
        assert(v@ =~= self@);
        v
    }
}

/// The transaction ids logged for one address, oldest first.
#[derive(Debug)]
pub struct TxLog {
    pub ids: Vec<u64>,
}

impl View for TxLog {
    type V = Seq<u64>;

    open spec fn view(&self) -> Seq<u64> {
        self.ids@
    }
}

impl Value for TxLog {
    fn copy(&self) -> (l: TxLog) {
        let ids = self.ids.clone();
        assert(ids@ =~= self.ids@);
        TxLog { ids }
    }
}

/// The sub-stores of the registry. Each is a table under the key named in its
/// description; a key that a table does not hold was never stored.
#[derive(Debug)]
pub struct Ledger {
    /// token index by token id
    pub map2idx: Table<Entry<String, u32>>,
    /// token id by token index
    pub map2id: Table<Entry<u32, String>>,
    /// token by token index
    pub infos: Table<Entry<u32, Token>>,
    /// inventory by owner
    pub inventories: Table<Inventory>,
    /// the grants that an owner made on all of the owner's tokens, by owner
    pub all_permissions: Table<Entry<Address, Table<Permission>>>,
    /// the tokens on which an owner made grants to single addresses, by owner
    pub auth_lists: Table<Entry<Address, Table<AuthList>>>,
    /// whether an owner's ownership is public, by owner
    pub owner_priv: Table<Entry<Address, bool>>,
    /// the receiver registration of a contract, by contract address
    pub receivers: Table<Entry<Address, ReceiveRegistration>>,
    /// transactions by id
    pub txs: Table<StoredTx>,
    /// ids of the transactions that an address took part in, by address
    pub tx_ids: Table<Entry<Address, TxLog>>,
    /// public metadata by token index
    pub pub_meta: Table<Entry<u32, Metadata>>,
    /// private metadata by token index
    pub priv_meta: Table<Entry<u32, Metadata>>,
    /// the addresses that may see the token supply while it is private
    pub minters: Table<Address>,
    /// the hash of an address' viewing key, by address
    pub view_keys: Table<Entry<Address, Vec<u8>>>,
    /// the block of the last request that changed the state
    pub block: Option<BlockInfo>,
    /// the address that instantiated the registry
    pub creator: Option<Address>,
    /// the address of the registry itself
    pub my_address: Option<Address>,
}

/// The view of a [`Ledger`].
pub struct LedgerView {
    pub map2idx: Seq<EntryView<Seq<char>, u32>>,
    pub map2id: Seq<EntryView<u32, Seq<char>>>,
    pub infos: Seq<EntryView<u32, TokenView>>,
    pub inventories: Seq<InventoryView>,
    pub all_permissions: Seq<EntryView<Seq<u8>, Seq<PermissionView>>>,
    pub auth_lists: Seq<EntryView<Seq<u8>, Seq<AuthListView>>>,
    pub owner_priv: Seq<EntryView<Seq<u8>, bool>>,
    pub receivers: Seq<EntryView<Seq<u8>, ReceiveRegistrationView>>,
    pub txs: Seq<StoredTxView>,
    pub tx_ids: Seq<EntryView<Seq<u8>, Seq<u64>>>,
    pub pub_meta: Seq<EntryView<u32, MetadataView>>,
    pub priv_meta: Seq<EntryView<u32, MetadataView>>,
    pub minters: Seq<Seq<u8>>,
    pub view_keys: Seq<EntryView<Seq<u8>, Seq<u8>>>,
    pub block: Option<BlockInfo>,
    pub creator: Option<Seq<u8>>,
    pub my_address: Option<Seq<u8>>,
}

impl View for Ledger {
    type V = LedgerView;

    open spec fn view(&self) -> LedgerView {
        LedgerView {
            map2idx: self.map2idx@,
            map2id: self.map2id@,
            infos: self.infos@,
            inventories: self.inventories@,
            all_permissions: self.all_permissions@,
            auth_lists: self.auth_lists@,
            owner_priv: self.owner_priv@,
            receivers: self.receivers@,
            txs: self.txs@,
            tx_ids: self.tx_ids@,
            pub_meta: self.pub_meta@,
            priv_meta: self.priv_meta@,
            minters: self.minters@,
            view_keys: self.view_keys@,
            block: self.block,
            creator: opt_addr_view(self.creator),
            my_address: opt_addr_view(self.my_address),
        }
    }
}

impl LedgerView {
    /// The ledger in which nothing is stored.
    pub open spec fn empty() -> LedgerView {
        LedgerView {
            map2idx: Seq::empty(),
            map2id: Seq::empty(),
            infos: Seq::empty(),
            inventories: Seq::empty(),
            all_permissions: Seq::empty(),
            auth_lists: Seq::empty(),
            owner_priv: Seq::empty(),
            receivers: Seq::empty(),
            txs: Seq::empty(),
            tx_ids: Seq::empty(),
            pub_meta: Seq::empty(),
            priv_meta: Seq::empty(),
            minters: Seq::empty(),
            view_keys: Seq::empty(),
            block: None,
            creator: None,
            my_address: None,
        }
    }

    /// No sub-store holds a key twice. This holds of the view of every [`Ledger`].
    pub open spec fn keyed(self) -> bool {
        &&& keys_distinct::<Entry<String, u32>>(self.map2idx)
        &&& keys_distinct::<Entry<u32, String>>(self.map2id)
        &&& keys_distinct::<Entry<u32, Token>>(self.infos)
        &&& keys_distinct::<Inventory>(self.inventories)
        &&& keys_distinct::<Entry<Address, Table<Permission>>>(self.all_permissions)
        &&& keys_distinct::<Entry<Address, Table<AuthList>>>(self.auth_lists)
        &&& keys_distinct::<Entry<Address, bool>>(self.owner_priv)
        &&& keys_distinct::<Entry<Address, ReceiveRegistration>>(self.receivers)
        &&& keys_distinct::<StoredTx>(self.txs)
        &&& keys_distinct::<Entry<Address, TxLog>>(self.tx_ids)
        &&& keys_distinct::<Entry<u32, Metadata>>(self.pub_meta)
        &&& keys_distinct::<Entry<u32, Metadata>>(self.priv_meta)
        &&& keys_distinct::<Address>(self.minters)
        &&& keys_distinct::<Entry<Address, Vec<u8>>>(self.view_keys)
    }

    /// The ledger is consistent with a count of `token_cnt` tokens: no sub-store
    /// holds a key twice; every token is in the inventory of its owner, and every
    /// inventory holds tokens of its owner only, each once; every token has an
    /// index up to the count and an id that leads back to its index.
    pub open spec fn consistent(self, token_cnt: u32) -> bool {
        &&& self.keyed()
        &&& forall|owner: Seq<u8>| (#[trigger] self.inventory_of(owner)).tokens.no_duplicates()
        &&& forall|idx: u32|
            (#[trigger] self.token_at(idx)) is Some ==> self.inventory_of(
                self.token_at(idx)->0.owner,
            ).tokens.contains(idx)
        &&& forall|owner: Seq<u8>, idx: u32|
            #[trigger] self.inventory_of(owner).tokens.contains(idx) ==> self.token_at(idx)
                is Some && self.token_at(idx)->0.owner == owner
        &&& forall|idx: u32|
            (#[trigger] self.token_at(idx)) is Some ==> idx <= token_cnt && self.id_of(idx)
                is Some && self.index_of(self.id_of(idx)->0) == Some(idx)
    }

    /// The index of the token with id `token_id`.
    pub open spec fn index_of(self, token_id: Seq<char>) -> Option<u32> {
        value_at::<String, u32>(self.map2idx, token_id)
    }

    /// The id of the token with index `idx`.
    pub open spec fn id_of(self, idx: u32) -> Option<Seq<char>> {
        value_at::<u32, String>(self.map2id, idx)
    }

    /// The token with index `idx`.
    pub open spec fn token_at(self, idx: u32) -> Option<TokenView> {
        value_at::<u32, Token>(self.infos, idx)
    }

    /// The inventory of `owner`: the stored one, or the empty one where none is
    /// stored.
    pub open spec fn inventory_of(self, owner: Seq<u8>) -> InventoryView {
        match lookup::<Inventory>(self.inventories, owner) {
            Some(inv) => inv,
            None => InventoryView { owner, tokens: Seq::empty() },
        }
    }

    /// The grants that `owner` made on all of the owner's tokens.
    pub open spec fn all_grants_of(self, owner: Seq<u8>) -> Seq<PermissionView> {
        match value_at::<Address, Table<Permission>>(self.all_permissions, owner) {
            Some(list) => list,
            None => Seq::empty(),
        }
    }

    /// The lists of tokens on which `owner` made grants to single addresses.
    pub open spec fn auth_lists_of(self, owner: Seq<u8>) -> Seq<AuthListView> {
        match value_at::<Address, Table<AuthList>>(self.auth_lists, owner) {
            Some(list) => list,
            None => Seq::empty(),
        }
    }

    /// Whether the ownership of `owner`'s tokens is public: the owner's own
    /// setting, or the contract's default where the owner has none.
    pub open spec fn ownership_is_public(self, owner: Seq<u8>, default: bool) -> bool {
        match value_at::<Address, bool>(self.owner_priv, owner) {
            Some(public) => public,
            None => default,
        }
    }

    /// The transaction ids logged for `address`.
    pub open spec fn tx_log_of(self, address: Seq<u8>) -> Seq<u64> {
        match value_at::<Address, TxLog>(self.tx_ids, address) {
            Some(log) => log,
            None => Seq::empty(),
        }
    }
}

impl Value for Ledger {
    fn copy(&self) -> (l: Ledger) {
        Ledger {
            map2idx: self.map2idx.copy(),
            map2id: self.map2id.copy(),
            infos: self.infos.copy(),
            inventories: self.inventories.copy(),
            all_permissions: self.all_permissions.copy(),
            auth_lists: self.auth_lists.copy(),
            owner_priv: self.owner_priv.copy(),
            receivers: self.receivers.copy(),
            txs: self.txs.copy(),
            tx_ids: self.tx_ids.copy(),
            pub_meta: self.pub_meta.copy(),
            priv_meta: self.priv_meta.copy(),
            minters: self.minters.copy(),
            view_keys: self.view_keys.copy(),
            block: self.block,
            creator: copy_opt_address(&self.creator),
            my_address: copy_opt_address(&self.my_address),
        }
    }
}

impl Ledger {
    /// The ledger in which nothing is stored.
    pub fn new() -> (l: Ledger)
        ensures
            l@ == LedgerView::empty(),
    {
        Ledger {
            map2idx: Table::new(),
            map2id: Table::new(),
            infos: Table::new(),
            inventories: Table::new(),
            all_permissions: Table::new(),
            auth_lists: Table::new(),
            owner_priv: Table::new(),
            receivers: Table::new(),
            txs: Table::new(),
            tx_ids: Table::new(),
            pub_meta: Table::new(),
            priv_meta: Table::new(),
            minters: Table::new(),
            view_keys: Table::new(),
            block: None,
            creator: None,
            my_address: None,
        }
    }

    /// States that no sub-store holds a key twice.
    pub fn keyed(&self)
        ensures
            self@.keyed(),
    {
        let _ = self.map2idx.len();
        let _ = self.map2id.len();
        let _ = self.infos.len();
        let _ = self.inventories.len();
        let _ = self.all_permissions.len();
        let _ = self.auth_lists.len();
        let _ = self.owner_priv.len();
        let _ = self.receivers.len();
        let _ = self.txs.len();
        let _ = self.tx_ids.len();
        let _ = self.pub_meta.len();
        let _ = self.priv_meta.len();
        let _ = self.minters.len();
        let _ = self.view_keys.len();
    }
}

/// The log of `address` in `tx_ids`, with `tx_id` appended.
pub open spec fn logged(
    tx_ids: Seq<EntryView<Seq<u8>, Seq<u64>>>,
    address: Seq<u8>,
    tx_id: u64,
) -> Seq<EntryView<Seq<u8>, Seq<u64>>> {
    let log = match value_at::<Address, TxLog>(tx_ids, address) {
        Some(l) => l,
        None => Seq::empty(),
    };
    stored::<Entry<Address, TxLog>>(tx_ids, EntryView { key: address, value: log.push(tx_id) })
}

/// Appends `tx_id` to the log of `address`.
///
/// # Arguments
///
/// * `ledger` - a mutable reference to the ledger this item should go to
/// * `tx_id` - the tx id to store
/// * `address` - a reference to the address for which to store this tx id
pub fn append_tx_for_addr(ledger: &mut Ledger, tx_id: u64, address: &Address)
    ensures
        final(ledger)@ == (LedgerView {
            tx_ids: logged(old(ledger)@.tx_ids, address@, tx_id),
            ..old(ledger)@
        }),
{
    let mut log = match ledger.tx_ids.get(address) {
        Some(e) => e.value.copy(),
        None => TxLog { ids: Vec::new() },
    };
    log.ids.push(tx_id);
    ledger.tx_ids.put(Entry { key: address.copy(), value: log });
}

/// The ledger and the configuration after the transfer of `token_id` from `from`
/// to `recipient` was recorded under the id `config.tx_cnt`: the transaction is
/// stored, its id is logged once for each distinct address among the previous
/// owner, the recipient and the sender, and the count of transactions goes up by
/// one.
pub open spec fn store_transfer_spec(
    l: LedgerView,
    config: ConfigView,
    block: BlockInfo,
    token_id: Seq<char>,
    from: Seq<u8>,
    sender: Option<Seq<u8>>,
    recipient: Seq<u8>,
    memo: Option<Seq<char>>,
) -> (LedgerView, ConfigView) {
    let tx = StoredTxView {
        tx_id: config.tx_cnt,
        block_height: block.height,
        block_time: block.time,
        token_id,
        action: TxActionView::Transfer { from, sender, recipient },
        memo,
    };
    let ids = logged(l.tx_ids, from, config.tx_cnt);
    let ids = if recipient != from {
        logged(ids, recipient, config.tx_cnt)
    } else {
        ids
    };
    let ids = match sender {
        Some(s) => if s != from && s != recipient {
            logged(ids, s, config.tx_cnt)
        } else {
            ids
        },
        None => ids,
    };
    (
        LedgerView { txs: stored::<StoredTx>(l.txs, tx), tx_ids: ids, ..l },
        ConfigView { tx_cnt: (config.tx_cnt + 1) as u64, ..config },
    )
}

/// Records a transfer: stores the transaction under the current count of
/// transactions and appends its id, once, to the log of each of the previous
/// owner, the recipient and the sender. Fails, and changes nothing, where the
/// count of transactions is at capacity.
///
/// # Arguments
///
/// * `ledger` - a mutable reference to the ledger this item should go to
/// * `config` - a mutable reference to the contract Config
/// * `block` - a reference to the current BlockInfo
/// * `token_id` - token id being transferred
/// * `from` - the previous owner's address
/// * `sender` - optional address that sent the token
/// * `recipient` - the recipient's address
/// * `memo` - optional memo for the tx
pub fn store_transfer(
    ledger: &mut Ledger,
    config: &mut Config,
    block: &BlockInfo,
    token_id: String,
    from: Address,
    sender: Option<Address>,
    recipient: Address,
    memo: Option<String>,
) -> (r: Result<(), ContractError>)
    ensures
        match r {
            Ok(()) => old(config).tx_cnt < u64::MAX && (final(ledger)@, final(config)@)
                == store_transfer_spec(
                old(ledger)@,
                old(config)@,
                *block,
                token_id@,
                from@,
                opt_addr_view(sender),
                recipient@,
                opt_str_view(memo),
            ),
            Err(e) => old(config).tx_cnt == u64::MAX && e@ == ErrorView::CounterOverflow(
                Counter::Transactions,
            ) && final(ledger)@ == old(ledger)@ && final(config)@ == old(config)@,
        },
        r is Ok ==> forall|who: Seq<u8>|
            #![trigger final(ledger)@.tx_log_of(who)]
            final(ledger)@.tx_log_of(who) == if who == from@ || who == recipient@
                || opt_addr_view(sender) == Some(who) {
                old(ledger)@.tx_log_of(who).push(old(config).tx_cnt)
            } else {
                old(ledger)@.tx_log_of(who)
            },
{
    if config.tx_cnt == u64::MAX {
        return Err(ContractError::CounterOverflow(Counter::Transactions));
    }
    let _ = ledger.tx_ids.len();
    proof {
        law_transfer_logged_once(
            ledger@,
            config@,
            *block,
            token_id@,
            from@,
            opt_addr_view(sender),
            recipient@,
            opt_str_view(memo),
        );
    }
    let tx_id = config.tx_cnt;
    append_tx_for_addr(ledger, tx_id, &from);
    if !recipient.same(&from) {
        append_tx_for_addr(ledger, tx_id, &recipient);
    }
    match &sender {
        Some(sndr) => {
            if !sndr.same(&from) && !sndr.same(&recipient) {
                append_tx_for_addr(ledger, tx_id, sndr);
            }
        },
        None => {},
    }
    let action = StoredTxAction::Transfer { from, sender, recipient };
    let tx = StoredTx {
        tx_id,
        block_height: block.height,
        block_time: block.time,
        token_id,
        action,
        memo,
    };
    ledger.txs.put(tx);
    config.tx_cnt = tx_id + 1;
    Ok(())
}

/// What logging an id changes: the log of the address ends in the id, and every
/// other log is as it was.
pub proof fn lemma_logged(tx_ids: Seq<EntryView<Seq<u8>, Seq<u64>>>, address: Seq<u8>, tx_id: u64)
    requires
        keys_distinct::<Entry<Address, TxLog>>(tx_ids),
    ensures
        keys_distinct::<Entry<Address, TxLog>>(logged(tx_ids, address, tx_id)),
        value_at::<Address, TxLog>(logged(tx_ids, address, tx_id), address) == Some(
            match value_at::<Address, TxLog>(tx_ids, address) {
                Some(l) => l,
                None => Seq::empty(),
            }.push(tx_id),
        ),
        forall|o: Seq<u8>|
            o != address ==> #[trigger] value_at::<Address, TxLog>(
                logged(tx_ids, address, tx_id),
                o,
            ) == value_at::<Address, TxLog>(tx_ids, o),
{
    let log = match value_at::<Address, TxLog>(tx_ids, address) {
        Some(l) => l,
        None => Seq::empty(),
    };
    let entry = EntryView { key: address, value: log.push(tx_id) };
    lemma_stored::<Entry<Address, TxLog>>(tx_ids, entry);
    assert forall|o: Seq<u8>| o != address implies #[trigger] value_at::<Address, TxLog>(
        logged(tx_ids, address, tx_id),
        o,
    ) == value_at::<Address, TxLog>(tx_ids, o) by {
        assert(lookup::<Entry<Address, TxLog>>(logged(tx_ids, address, tx_id), o) == lookup::<
            Entry<Address, TxLog>,
        >(tx_ids, o));
    }
}

/// A transfer is logged once for each participant: after a transfer was
/// recorded under an id, the log of each of the previous owner, the recipient and
/// the sender is its log from before followed by that id, once, whether or not
/// some of the three are the same address; the log of every other address is as
/// it was.
pub proof fn law_transfer_logged_once(
    l: LedgerView,
    config: ConfigView,
    block: BlockInfo,
    token_id: Seq<char>,
    from: Seq<u8>,
    sender: Option<Seq<u8>>,
    recipient: Seq<u8>,
    memo: Option<Seq<char>>,
)
    requires
        keys_distinct::<Entry<Address, TxLog>>(l.tx_ids),
    ensures
        ({
            let post = store_transfer_spec(
                l,
                config,
                block,
                token_id,
                from,
                sender,
                recipient,
                memo,
            ).0;
            &&& keys_distinct::<Entry<Address, TxLog>>(post.tx_ids)
            &&& forall|who: Seq<u8>|
                #![trigger post.tx_log_of(who)]
                who == from || who == recipient || sender == Some(who) ==> post.tx_log_of(who)
                    == l.tx_log_of(who).push(config.tx_cnt)
            &&& forall|who: Seq<u8>|
                #![trigger post.tx_log_of(who)]
                who != from && who != recipient && sender != Some(who) ==> post.tx_log_of(who)
                    == l.tx_log_of(who)
        }),
{
    let n = config.tx_cnt;
    let a = logged(l.tx_ids, from, n);
    lemma_logged(l.tx_ids, from, n);
    let b = if recipient != from {
        logged(a, recipient, n)
    } else {
        a
    };
    if recipient != from {
        lemma_logged(a, recipient, n);
    }
    match sender {
        Some(s) => {
            if s != from && s != recipient {
                lemma_logged(b, s, n);
            }
        },
        None => {},
    }
}

} // verus!
