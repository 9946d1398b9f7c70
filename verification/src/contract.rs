//! The operations of the registry: the status gate, the lookup of tokens, and the
//! transfer of ownership.

use vstd::prelude::*;
use std::collections::HashSet;
use crate::address::{opt_str_view, Address};
use crate::error::{unauthorized_message, unauthorized_text, ContractError, Counter, Denial,
    DenialView, ErrorView, Violation, ViolationView};
use crate::expiration::BlockInfo;
use crate::inventory::{Inventory, InventoryView};
use crate::permission::{check_permission, check_permission_spec, requester_view};
use crate::state::{store_transfer, store_transfer_spec, value_at, Config, ConfigView, Entry,
    EntryView, Ledger, LedgerView};
use crate::table::{erased, lookup, stored, Key, Record, Table, Value};
use crate::token::{AuthList, AuthListView, PermissionType, Token, TokenView};

verus! {

/// Returns an error where the priority level of the action is below the current
/// contract status level.
///
/// # Arguments
///
/// * `contract_status` - u8 representation of the current contract status
/// * `priority` - u8 representing the highest status level this action may execute at
pub fn check_status(contract_status: u8, priority: u8) -> (r: Result<(), ContractError>)
    ensures
        match r {
            Ok(()) => priority >= contract_status,
            Err(e) => priority < contract_status && e@ == ErrorView::StatusGateClosed,
        },
{
    if priority < contract_status {
        return Err(ContractError::StatusGateClosed);
    }
    Ok(())
}

/// The token with the id `token_id` and its index. An id that is not known is
/// reported under `deny_msg` where one is given, so that a missing token cannot
/// be told from one that the requester may not touch.
pub open spec fn get_token_spec(
    l: LedgerView,
    token_id: Seq<char>,
    deny_msg: Option<Seq<char>>,
) -> Result<(TokenView, u32), ErrorView> {
    match l.index_of(token_id) {
        None => Err(
            match deny_msg {
                Some(message) => ErrorView::AuthorizationDenied(
                    DenialView::NotAuthorized { message },
                ),
                None => ErrorView::NotFound { token_id },
            },
        ),
        Some(idx) => match l.token_at(idx) {
            None => Err(
                ErrorView::InvariantViolation(ViolationView::TokenInfoMissing { token_id }),
            ),
            Some(token) => Ok((token, idx)),
        },
    }
}

/// The view of an optional string slice.
pub open spec fn opt_text_view(s: Option<&str>) -> Option<Seq<char>> {
    match s {
        Some(x) => Some(x@),
        None => None,
    }
}

/// Returns the specified token and its identifier index
///
/// # Arguments
///
/// * `ledger` - a reference to the ledger
/// * `token_id` - token id string slice
/// * `deny_msg` - optional error message to use if don't want to reveal that a token
///                  does not exist
pub fn get_token(ledger: &Ledger, token_id: &str, deny_msg: Option<&str>) -> (r: Result<
    (Token, u32),
    ContractError,
>)
    ensures
        match r {
            Ok((token, idx)) => get_token_spec(ledger@, token_id@, opt_text_view(deny_msg)) == Ok::<
                (TokenView, u32),
                ErrorView,
            >((token@, idx)),
            Err(e) => get_token_spec(ledger@, token_id@, opt_text_view(deny_msg)) == Err::<
                (TokenView, u32),
                ErrorView,
            >(e@),
        },
{
    let id = token_id.to_owned();
    let idx = match ledger.map2idx.get(&id) {
        Some(entry) => entry.value,
        None => {
            return Err(
                match deny_msg {
                    Some(message) => ContractError::AuthorizationDenied(
                        Denial::NotAuthorized { message: message.to_owned() },
                    ),
                    None => ContractError::NotFound { token_id: id },
                },
            );
        },
    };
    match ledger.infos.get(&idx) {
        Some(entry) => Ok((entry.value.copy(), idx)),
        None => Err(
            ContractError::InvariantViolation(Violation::TokenInfoMissing { token_id: id }),
        ),
    }
}

/// The token with the id `token_id` and its index where `requester` holds the
/// permission `perm_type` on it, and the cache after the check. Where the token
/// supply is private, an unknown id fails as a known one that the requester may
/// not touch does.
pub open spec fn get_token_if_permitted_spec(
    l: LedgerView,
    block: BlockInfo,
    token_id: Seq<char>,
    requester: Option<Seq<u8>>,
    perm_type: PermissionType,
    oper_for: Seq<Seq<u8>>,
    config: ConfigView,
) -> (Result<(TokenView, u32), ErrorView>, Seq<Seq<u8>>) {
    let deny_msg = unauthorized_text(token_id);
    let opt_err = if config.token_supply_is_public {
        None
    } else {
        Some(deny_msg)
    };
    match get_token_spec(l, token_id, opt_err) {
        Err(e) => (Err(e), oper_for),
        Ok((token, idx)) => {
            let checked = check_permission_spec(
                l,
                block,
                token,
                token_id,
                requester,
                perm_type,
                oper_for,
                deny_msg,
                config.owner_is_public,
            );
            match checked.0 {
                Err(e) => (Err(e), checked.1),
                Ok(()) => (Ok((token, idx)), checked.1),
            }
        },
    }
}

/// Returns the token information if the sender has authorization
///
/// # Arguments
///
/// * `ledger` - a reference to the ledger
/// * `block` - a reference to the current BlockInfo
/// * `token_id` - token ID String slice
/// * `sender` - a optional reference to the address trying to get access to the token
/// * `perm_type` - PermissionType we are checking
/// * `oper_for` - a mutable reference to a list of owners that gave the sender "all" permission
/// * `config` - a reference to the Config
pub fn get_token_if_permitted(
    ledger: &Ledger,
    block: &BlockInfo,
    token_id: &str,
    sender: Option<&Address>,
    perm_type: PermissionType,
    oper_for: &mut Table<Address>,
    config: &Config,
) -> (r: Result<(Token, u32), ContractError>)
    ensures
        ({
            let model = get_token_if_permitted_spec(
                ledger@,
                *block,
                token_id@,
                requester_view(sender),
                perm_type,
                old(oper_for)@,
                config@,
            );
            &&& final(oper_for)@ == model.1
            &&& match r {
                Ok((token, idx)) => model.0 == Ok::<(TokenView, u32), ErrorView>((token@, idx)),
                Err(e) => model.0 == Err::<(TokenView, u32), ErrorView>(e@),
            }
        }),
{
    let deny_msg = unauthorized_message(token_id);
    // if token supply is private, don't leak that the token id does not exist
    // instead just say they are not authorized for that token
    let opt_err = if config.token_supply_is_public {
        None
    } else {
        Some(deny_msg.as_str())
    };
    let (token, idx) = match get_token(ledger, token_id, opt_err) {
        Ok(found) => found,
        Err(e) => {
            return Err(e);
        },
    };
    match check_permission(
        ledger,
        block,
        &token,
        token_id,
        sender,
        perm_type,
        oper_for,
        deny_msg.as_str(),
        config.owner_is_public,
    ) {
        Ok(()) => Ok((token, idx)),
        Err(e) => Err(e),
    }
}

/// an owner's inventory and the tokens they lost in this tx
#[derive(Debug)]
pub struct InventoryUpdate {
    /// owner's inventory
    pub inventory: Inventory,
    /// the list of lost tokens
    pub remove: HashSet<u32>,
}

/// The view of an [`InventoryUpdate`].
pub struct InventoryUpdateView {
    pub inventory: InventoryView,
    pub remove: Set<u32>,
}

impl View for InventoryUpdate {
    type V = InventoryUpdateView;

    open spec fn view(&self) -> InventoryUpdateView {
        InventoryUpdateView { inventory: self.inventory@, remove: self.remove@ }
    }
}

impl Record for InventoryUpdate {
    type Key = Address;

    open spec fn key_of(v: InventoryUpdateView) -> Seq<u8> {
        v.inventory.owner
    }

    fn key(&self) -> (k: &Address) {
        self.inventory.owner()
    }
}

/// The update of `owner` in `updates`; where there is none yet, the owner's
/// inventory as the ledger holds it, with nothing lost.
pub open spec fn loaded(
    updates: Seq<InventoryUpdateView>,
    l: LedgerView,
    owner: Seq<u8>,
) -> InventoryUpdateView {
    match lookup::<InventoryUpdate>(updates, owner) {
        Some(u) => u,
        None => InventoryUpdateView { inventory: l.inventory_of(owner), remove: Set::empty() },
    }
}

/// `updates` after `owner` gained the token `idx`: the update of the owner comes
/// last.
pub open spec fn gained(
    updates: Seq<InventoryUpdateView>,
    l: LedgerView,
    owner: Seq<u8>,
    idx: u32,
) -> Seq<InventoryUpdateView> {
    let u = loaded(updates, l, owner);
    stored::<InventoryUpdate>(
        erased::<InventoryUpdate>(updates, owner),
        InventoryUpdateView { inventory: u.inventory.inserted(idx), remove: u.remove },
    )
}

/// `updates` after `owner` lost the token `idx`: the update of the owner comes
/// last.
pub open spec fn lost(
    updates: Seq<InventoryUpdateView>,
    l: LedgerView,
    owner: Seq<u8>,
    idx: u32,
) -> Seq<InventoryUpdateView> {
    let u = loaded(updates, l, owner);
    stored::<InventoryUpdate>(
        erased::<InventoryUpdate>(updates, owner),
        InventoryUpdateView { inventory: u.inventory.removed(idx), remove: u.remove.insert(idx) },
    )
}

/// Takes the update of `owner` out of `updates`, or makes it from the ledger.
fn take_update(updates: &mut Table<InventoryUpdate>, ledger: &Ledger, owner: &Address) -> (u:
    InventoryUpdate)
    ensures
        u@ == loaded(old(updates)@, ledger@, owner@),
        final(updates)@ == erased::<InventoryUpdate>(old(updates)@, owner@),
{
    match updates.remove(owner) {
        Some(u) => u,
        None => InventoryUpdate {
            inventory: Inventory::new_or_load(ledger, owner),
            remove: HashSet::new(),
        },
    }
}

/// What a request works on while it moves tokens: the ledger, the configuration,
/// the owners for whom the sender is known to hold a grant on all tokens, and the
/// inventories that the request has changed so far.
pub struct TransferState {
    pub ledger: LedgerView,
    pub config: ConfigView,
    pub oper_for: Seq<Seq<u8>>,
    pub inv_updates: Seq<InventoryUpdateView>,
}

/// The transfer of the token `token_id` to `recipient` at the request of
/// `sender`: the previous owner and the state after it, or the failure.
///
/// The transfer fails, in this order, where the token is not found or the sender
/// lacks the permission to transfer it, where the token is not transferable,
/// where the recipient owns it already, and where the count of transactions is at
/// capacity. A failure changes nothing but the cache of the permission check.
/// A transfer that succeeds gives the token to the recipient, drops every grant
/// on it, moves it between the two inventories and records the transaction.
pub open spec fn transfer_impl_spec(
    s: TransferState,
    block: BlockInfo,
    sender: Seq<u8>,
    token_id: Seq<char>,
    recipient: Seq<u8>,
    memo: Option<Seq<char>>,
) -> (Result<Seq<u8>, ErrorView>, TransferState) {
    let permitted = get_token_if_permitted_spec(
        s.ledger,
        block,
        token_id,
        Some(sender),
        PermissionType::Transfer,
        s.oper_for,
        s.config,
    );
    let checked = TransferState { oper_for: permitted.1, ..s };
    match permitted.0 {
        Err(e) => (Err(e), checked),
        Ok((token, idx)) => if !token.transferable {
            (Err(ErrorView::NonTransferable { token_id }), checked)
        } else if token.owner == recipient {
            (Err(ErrorView::AlreadyOwnedByRecipient { token_id }), checked)
        } else if s.config.tx_cnt == u64::MAX {
            (Err(ErrorView::CounterOverflow(Counter::Transactions)), checked)
        } else {
            let moved = TokenView { owner: recipient, permissions: Seq::empty(), ..token };
            let infos = stored::<Entry<u32, Token>>(
                s.ledger.infos,
                EntryView { key: idx, value: moved },
            );
            let updates = lost(
                gained(s.inv_updates, s.ledger, recipient, idx),
                s.ledger,
                token.owner,
                idx,
            );
            let sndr = if token.owner == sender {
                None
            } else {
                Some(sender)
            };
            let recorded = store_transfer_spec(
                LedgerView { infos, ..s.ledger },
                s.config,
                block,
                token_id,
                token.owner,
                sndr,
                recipient,
                memo,
            );
            (
                Ok(token.owner),
                TransferState {
                    ledger: recorded.0,
                    config: recorded.1,
                    oper_for: permitted.1,
                    inv_updates: updates,
                },
            )
        },
    }
}

/// Transfers a token, clears the token's permissions, and returns the previous owner's address
///
/// # Arguments
///
/// * `ledger` - a mutable reference to the ledger
/// * `block` - a reference to the current BlockInfo
/// * `config` - a mutable reference to the Config
/// * `sender` - a reference to the message sender address
/// * `token_id` - token id String of token being transferred
/// * `recipient` - the recipient's address
/// * `oper_for` - a mutable reference to a list of owners that gave the sender "all" permission
/// * `inv_updates` - a mutable reference to the list of token inventories to update
/// * `memo` - optional memo for the transfer tx
pub fn transfer_impl(
    ledger: &mut Ledger,
    block: &BlockInfo,
    config: &mut Config,
    sender: &Address,
    token_id: String,
    recipient: Address,
    oper_for: &mut Table<Address>,
    inv_updates: &mut Table<InventoryUpdate>,
    memo: Option<String>,
) -> (r: Result<Address, ContractError>)
    ensures
        ({
            let model = transfer_impl_spec(
                TransferState {
                    ledger: old(ledger)@,
                    config: old(config)@,
                    oper_for: old(oper_for)@,
                    inv_updates: old(inv_updates)@,
                },
                *block,
                sender@,
                token_id@,
                recipient@,
                opt_str_view(memo),
            );
            &&& model.1 == (TransferState {
                ledger: final(ledger)@,
                config: final(config)@,
                oper_for: final(oper_for)@,
                inv_updates: final(inv_updates)@,
            })
            &&& match r {
                Ok(previous) => model.0 == Ok::<Seq<u8>, ErrorView>(previous@),
                Err(e) => model.0 == Err::<Seq<u8>, ErrorView>(e@),
            }
        }),
{
    let (token, idx) = match get_token_if_permitted(
        ledger,
        block,
        token_id.as_str(),
        Some(sender),
        PermissionType::Transfer,
        oper_for,
        config,
    ) {
        Ok(found) => found,
        Err(e) => {
            return Err(e);
        },
    };
    if !token.transferable {
        return Err(ContractError::NonTransferable { token_id });
    }
    let old_owner = token.owner;
    // throw error if ownership would not change
    if old_owner.same(&recipient) {
        return Err(ContractError::AlreadyOwnedByRecipient { token_id });
    }
    if config.tx_cnt == u64::MAX {
        return Err(ContractError::CounterOverflow(Counter::Transactions));
    }
    let moved = Token {
        owner: recipient.copy(),
        permissions: Table::new(),
        unwrapped: token.unwrapped,
        transferable: token.transferable,
    };
    // log the inventory changes
    let mut gain = take_update(inv_updates, ledger, &recipient);
    gain.inventory.insert(idx);
    inv_updates.put(gain);
    let mut loss = take_update(inv_updates, ledger, &old_owner);
    loss.inventory.remove(idx);
    loss.remove.insert(idx);
    inv_updates.put(loss);
    // save updated token info
    ledger.infos.put(Entry { key: idx, value: moved });
    let sndr = if old_owner.same(sender) {
        None
    } else {
        Some(sender.copy())
    };
    // store the tx
    match store_transfer(ledger, config, block, token_id, old_owner.copy(), sndr, recipient, memo) {
        Ok(()) => Ok(old_owner),
        Err(e) => Err(e),
    }
}

/// `tokens` without the indices that `remove` holds; the others keep their order.
pub open spec fn without(tokens: Seq<u32>, remove: Set<u32>) -> Seq<u32>
    decreases tokens.len(),
{
    if tokens.len() == 0 {
        Seq::empty()
    } else if remove.contains(tokens.last()) {
        without(tokens.drop_last(), remove)
    } else {
        without(tokens.drop_last(), remove).push(tokens.last())
    }
}

/// Copies `tokens` without the indices that `remove` holds.
pub fn retain_absent(tokens: &Vec<u32>, remove: &HashSet<u32>) -> (r: Vec<u32>)
    ensures
        r@ == without(tokens@, remove@),
{
    let mut r: Vec<u32> = Vec::new();
    let mut i: usize = 0;
    while i < tokens.len()
        invariant
            i <= tokens@.len(),
            r@ == without(tokens@.take(i as int), remove@),
        decreases tokens@.len() - i,
    {
        proof {
            assert(tokens@.take(i + 1).drop_last() =~= tokens@.take(i as int));
            assert(tokens@.take(i + 1).last() == tokens@[i as int]);
        }
        if !remove.contains(&tokens[i]) {
            r.push(tokens[i]);
        }
        i += 1;
    }
    proof {
        assert(tokens@.take(tokens@.len() as int) =~= tokens@);
    }
    r
}

impl AuthListView {
    /// The list without the tokens that `remove` holds, for every permission type.
    pub open spec fn pruned(self, remove: Set<u32>) -> AuthListView {
        AuthListView {
            address: self.address,
            tokens: seq![
                without(self.tokens[0], remove),
                without(self.tokens[1], remove),
                without(self.tokens[2], remove),
            ],
        }
    }

    /// The list names no token for any permission type.
    pub open spec fn is_blank(self) -> bool {
        self.tokens[0].len() == 0 && self.tokens[1].len() == 0 && self.tokens[2].len() == 0
    }
}

/// The lists of `lists`, each without the tokens that `remove` holds; a list that
/// names no token any more is left out.
pub open spec fn prune_lists(lists: Seq<AuthListView>, remove: Set<u32>) -> Seq<AuthListView>
    decreases lists.len(),
{
    if lists.len() == 0 {
        Seq::empty()
    } else {
        let before = prune_lists(lists.drop_last(), remove);
        let last = lists.last().pruned(remove);
        if last.is_blank() {
            before
        } else {
            stored::<AuthList>(before, last)
        }
    }
}

/// Copies `lists` without the tokens that `remove` holds, and without the lists
/// that name no token any more.
pub fn prune_auth_lists(lists: &Table<AuthList>, remove: &HashSet<u32>) -> (r: Table<AuthList>)
    ensures
        r@ == prune_lists(lists@, remove@),
{
    let mut r: Table<AuthList> = Table::new();
    let n = lists.len();
    let mut i: usize = 0;
    while i < n
        invariant
            i <= n,
            n == lists@.len(),
            r@ == prune_lists(lists@.take(i as int), remove@),
        decreases n - i,
    {
        proof {
            assert(lists@.take(i + 1).drop_last() =~= lists@.take(i as int));
            assert(lists@.take(i + 1).last() == lists@[i as int]);
        }
        let auth = lists.entry(i);
        let tokens = [
            retain_absent(&auth.tokens[0], remove),
            retain_absent(&auth.tokens[1], remove),
            retain_absent(&auth.tokens[2], remove),
        ];
        let blank = tokens[0].len() == 0 && tokens[1].len() == 0 && tokens[2].len() == 0;
        let kept = AuthList { address: auth.address.copy(), tokens };
        assert(kept@.tokens =~= auth@.pruned(remove@).tokens);
        if !blank {
            r.put(kept);
        }
        i += 1;
    }
    proof {
        assert(lists@.take(n as int) =~= lists@);
    }
    r
}

/// The ledger after one update was written to it: the inventory is stored, and,
/// where the owner lost tokens, the owner's lists of authorised tokens are pruned
/// of them (and dropped where none is left).
pub open spec fn apply_update(l: LedgerView, u: InventoryUpdateView) -> LedgerView {
    let owner = u.inventory.owner;
    let inventories = stored::<Inventory>(l.inventories, u.inventory);
    let auth_lists = if u.remove.is_empty() {
        l.auth_lists
    } else {
        match value_at::<Address, Table<AuthList>>(l.auth_lists, owner) {
            None => l.auth_lists,
            Some(lists) => {
                let pruned = prune_lists(lists, u.remove);
                if pruned.len() == 0 {
                    erased::<Entry<Address, Table<AuthList>>>(l.auth_lists, owner)
                } else {
                    stored::<Entry<Address, Table<AuthList>>>(
                        l.auth_lists,
                        EntryView { key: owner, value: pruned },
                    )
                }
            },
        }
    };
    LedgerView { inventories, auth_lists, ..l }
}

/// The ledger after every update of `updates` was written to it, first to last.
pub open spec fn update_owner_inventory_spec(
    l: LedgerView,
    updates: Seq<InventoryUpdateView>,
) -> LedgerView
    decreases updates.len(),
{
    if updates.len() == 0 {
        l
    } else {
        update_owner_inventory_spec(apply_update(l, updates[0]), updates.drop_first())
    }
}

/// Update owners' inventories and AuthLists to reflect recent burns/transfers
///
/// # Arguments
///
/// * `ledger` - a mutable reference to the ledger
/// * `updates` - the list of InventoryUpdates to modify and store new inventories/AuthLists
pub fn update_owner_inventory(ledger: &mut Ledger, updates: &Table<InventoryUpdate>)
    ensures
        final(ledger)@ == update_owner_inventory_spec(old(ledger)@, updates@),
{
    let n = updates.len();
    let mut i: usize = 0;
    proof {
        assert(updates@.skip(0) =~= updates@);
    }
    while i < n
        invariant
            i <= n,
            n == updates@.len(),
            update_owner_inventory_spec(old(ledger)@, updates@) == update_owner_inventory_spec(
                ledger@,
                updates@.skip(i as int),
            ),
        decreases n - i,
    {
        proof {
            assert(updates@.skip(i as int).drop_first() =~= updates@.skip(i + 1));
            assert(updates@.skip(i as int)[0] == updates@[i as int]);
        }
        let update = updates.entry(i);
        let owner = update.inventory.owner();
        // update the inventories
        update.inventory.save(ledger);
        // update the AuthLists if tokens were lost
        if !update.remove.is_empty() {
            let pruned = match ledger.auth_lists.get(owner) {
                Some(entry) => Some(prune_auth_lists(&entry.value, &update.remove)),
                None => None,
            };
            match pruned {
                Some(new_list) => {
                    if new_list.len() == 0 {
                        ledger.auth_lists.remove(owner);
                    } else {
                        ledger.auth_lists.put(Entry { key: owner.copy(), value: new_list });
                    }
                },
                None => {},
            }
        }
        i += 1;
    }
}

} // verus!
