//! Laws of the registry: what holds of every state and of every sequence of
//! requests, stated over the same functions as the contracts of the operations.

use vstd::prelude::*;
use crate::address::Address;
use crate::contract::{apply_update, gained, get_token_if_permitted_spec, lost, transfer_impl_spec,
    update_owner_inventory_spec, InventoryUpdate, InventoryUpdateView, TransferState};
use crate::error::{ErrorView};
use crate::expiration::BlockInfo;
use crate::inventory::{lemma_inserted, lemma_removed, Inventory, InventoryView};
use crate::contract::prune_lists;
use crate::handle::{handle_spec, init_ledger_spec, HandleMsgView};
use crate::mint::{mint_all_spec, mint_spec, ListView};
use crate::state::{value_at, StoredTx, StoredTxView, TxActionView};
use crate::token::{AuthList, Metadata};
use crate::msg::{ContractStatus, EnvView, HandleResponseView, TransferView};
use crate::address::GranteeView;
use crate::approval::{grant_token_spec, granted, listed, owned_token_spec, revoke_token_spec,
    revoked, unlisted, with_all_grants};
use crate::error::DenialView;
use crate::expiration::Expiration;
use crate::permission::{check_perm_core_spec, has_lapsed_grant, has_live_grant};
use crate::token::{grant_of, grant_status, GrantStatus, Permission, PermissionView};
use crate::table::Table;
use crate::msg::SendView;
use crate::send::{move_tokens_spec, send_nft_spec, sends_spec, transfer_nft_spec,
    transfers_spec};
use crate::state::{store_transfer_spec, ConfigView, Entry, EntryView, LedgerView};
use crate::table::{has_key, keys_distinct, lemma_stored, lookup, stored, Record};
use crate::token::{PermissionType, Token, TokenView};

verus! {

/// What one successful transfer of a single token does to the ledger, in one
/// piece.
pub open spec fn moved_ledger(
    l: LedgerView,
    config: ConfigView,
    block: BlockInfo,
    sender: Seq<u8>,
    idx: u32,
    token: TokenView,
    token_id: Seq<char>,
    recipient: Seq<u8>,
    memo: Option<Seq<char>>,
) -> LedgerView {
    let moved = TokenView { owner: recipient, permissions: Seq::empty(), ..token };
    let infos = stored::<Entry<u32, Token>>(l.infos, EntryView { key: idx, value: moved });
    let sndr = if token.owner == sender {
        None
    } else {
        Some(sender)
    };
    let recorded = store_transfer_spec(
        LedgerView { infos, ..l },
        config,
        block,
        token_id,
        token.owner,
        sndr,
        recipient,
        memo,
    ).0;
    let to = InventoryUpdateView {
        inventory: l.inventory_of(recipient).inserted(idx),
        remove: Set::empty(),
    };
    let from = InventoryUpdateView {
        inventory: l.inventory_of(token.owner).removed(idx),
        remove: Set::empty().insert(idx),
    };
    apply_update(apply_update(recorded, to), from)
}

/// A request to transfer one token that succeeds leaves the ledger that
/// [`moved_ledger`] describes, and the token was found, transferable, and owned
/// by someone else than the recipient.
pub proof fn lemma_transfer_nft_ok(
    l: LedgerView,
    config: ConfigView,
    env: EnvView,
    priority: u8,
    recipient: Seq<u8>,
    token_id: Seq<char>,
    memo: Option<Seq<char>>,
)
    requires
        l.keyed(),
        transfer_nft_spec(l, config, env, priority, recipient, token_id, memo).0 is Ok,
    ensures
        ({
            let found = get_token_if_permitted_spec(
                l,
                env.block,
                token_id,
                Some(env.sender),
                PermissionType::Transfer,
                Seq::empty(),
                config,
            ).0;
            &&& priority >= config.status
            &&& found is Ok
            &&& l.index_of(token_id) == Some(found->Ok_0.1)
            &&& l.token_at(found->Ok_0.1) == Some(found->Ok_0.0)
            &&& found->Ok_0.0.transferable
            &&& found->Ok_0.0.owner != recipient
            &&& config.tx_cnt < u64::MAX
            &&& transfer_nft_spec(l, config, env, priority, recipient, token_id, memo).2 == (
            ConfigView { tx_cnt: (config.tx_cnt + 1) as u64, ..config })
            &&& transfer_nft_spec(l, config, env, priority, recipient, token_id, memo).1
                == moved_ledger(
                l,
                config,
                env.block,
                env.sender,
                found->Ok_0.1,
                found->Ok_0.0,
                token_id,
                recipient,
                memo,
            )
        }),
{
    let start = TransferState {
        ledger: l,
        config,
        oper_for: Seq::empty(),
        inv_updates: Seq::empty(),
    };
    let xfer = TransferView { recipient, token_ids: seq![token_id], memo };
    let xfers = seq![xfer];
    let ids = seq![token_id];
    reveal_with_fuel(transfers_spec, 2);
    reveal_with_fuel(move_tokens_spec, 2);
    reveal_with_fuel(update_owner_inventory_spec, 3);
    assert(xfers.drop_first() =~= Seq::<TransferView>::empty());
    assert(ids.drop_first() =~= Seq::<Seq<char>>::empty());
    assert(xfers[0] == xfer);
    assert(ids[0] == token_id);
    let step = transfer_impl_spec(start, env.block, env.sender, token_id, recipient, memo);
    let moved = move_tokens_spec(
        start,
        Seq::empty(),
        env.block,
        env.sender,
        recipient,
        ids,
        memo,
    );
    assert(moved.0 is Ok);
    assert(step.0 is Ok);
    let found = get_token_if_permitted_spec(
        l,
        env.block,
        token_id,
        Some(env.sender),
        PermissionType::Transfer,
        Seq::empty(),
        config,
    ).0;
    let idx = found->Ok_0.1;
    let token = found->Ok_0.0;
    let empty = Seq::<InventoryUpdateView>::empty();
    assert(!has_key::<InventoryUpdate>(empty, recipient));
    let u1 = gained(empty, l, recipient, idx);
    let to = InventoryUpdateView {
        inventory: l.inventory_of(recipient).inserted(idx),
        remove: Set::empty(),
    };
    lemma_inventory_owner(l, recipient);
    lemma_inventory_owner(l, token.owner);
    lemma_inserted_owner(l.inventory_of(recipient), idx);
    lemma_removed_owner(l.inventory_of(token.owner), idx);
    assert(u1 =~= seq![to]);
    assert(InventoryUpdate::key_of(to) == recipient);
    assert(!has_key::<InventoryUpdate>(u1, token.owner)) by {
        if has_key::<InventoryUpdate>(u1, token.owner) {
            let i = choose|i: int|
                0 <= i < u1.len() && InventoryUpdate::key_of(#[trigger] u1[i]) == token.owner;
            assert(u1[i] == to);
        }
    }
    let u2 = lost(u1, l, token.owner, idx);
    let from = InventoryUpdateView {
        inventory: l.inventory_of(token.owner).removed(idx),
        remove: Set::empty().insert(idx),
    };
    assert(!has_key::<InventoryUpdate>(empty, token.owner));
    assert(u2 =~= seq![to, from]);
    assert(step.1.inv_updates == u2);
    assert(u2.drop_first() =~= seq![from]);
    assert(u2.drop_first().drop_first() =~= Seq::<InventoryUpdateView>::empty());
    assert(u2[0] == to);
    assert(u2.drop_first()[0] == from);
}

/// A request to send one token that succeeds leaves the ledger that
/// [`moved_ledger`] describes: what a transfer to the receiving contract leaves.
pub proof fn lemma_send_nft_ok(
    l: LedgerView,
    config: ConfigView,
    env: EnvView,
    priority: u8,
    contract: Seq<u8>,
    receiver_info: Option<crate::msg::ReceiverInfoView>,
    token_id: Seq<char>,
    msg: Option<Seq<u8>>,
    memo: Option<Seq<char>>,
)
    requires
        send_nft_spec(l, config, env, priority, contract, receiver_info, token_id, msg, memo).0
            is Ok,
    ensures
        ({
            let found = get_token_if_permitted_spec(
                l,
                env.block,
                token_id,
                Some(env.sender),
                PermissionType::Transfer,
                Seq::empty(),
                config,
            ).0;
            &&& found is Ok
            &&& l.index_of(token_id) == Some(found->Ok_0.1)
            &&& l.token_at(found->Ok_0.1) == Some(found->Ok_0.0)
            &&& found->Ok_0.0.owner != contract
            &&& send_nft_spec(
                l,
                config,
                env,
                priority,
                contract,
                receiver_info,
                token_id,
                msg,
                memo,
            ).1 == moved_ledger(
                l,
                config,
                env.block,
                env.sender,
                found->Ok_0.1,
                found->Ok_0.0,
                token_id,
                contract,
                memo,
            )
        }),
{
    let start = TransferState {
        ledger: l,
        config,
        oper_for: Seq::empty(),
        inv_updates: Seq::empty(),
    };
    let send = SendView { contract, receiver_info, token_ids: seq![token_id], msg, memo };
    let sends = seq![send];
    let ids = seq![token_id];
    reveal_with_fuel(sends_spec, 2);
    reveal_with_fuel(move_tokens_spec, 2);
    reveal_with_fuel(update_owner_inventory_spec, 3);
    assert(sends.drop_first() =~= Seq::<SendView>::empty());
    assert(ids.drop_first() =~= Seq::<Seq<char>>::empty());
    assert(sends[0] == send);
    assert(ids[0] == token_id);
    let step = transfer_impl_spec(start, env.block, env.sender, token_id, contract, memo);
    let moved = move_tokens_spec(
        start,
        Seq::empty(),
        env.block,
        env.sender,
        contract,
        ids,
        memo,
    );
    assert(moved.0 is Ok);
    assert(step.0 is Ok);
    let found = get_token_if_permitted_spec(
        l,
        env.block,
        token_id,
        Some(env.sender),
        PermissionType::Transfer,
        Seq::empty(),
        config,
    ).0;
    let idx = found->Ok_0.1;
    let token = found->Ok_0.0;
    let empty = Seq::<InventoryUpdateView>::empty();
    assert(!has_key::<InventoryUpdate>(empty, contract));
    let u1 = gained(empty, l, contract, idx);
    let to = InventoryUpdateView {
        inventory: l.inventory_of(contract).inserted(idx),
        remove: Set::empty(),
    };
    lemma_inventory_owner(l, contract);
    lemma_inventory_owner(l, token.owner);
    lemma_inserted_owner(l.inventory_of(contract), idx);
    lemma_removed_owner(l.inventory_of(token.owner), idx);
    assert(u1 =~= seq![to]);
    assert(InventoryUpdate::key_of(to) == contract);
    assert(!has_key::<InventoryUpdate>(u1, token.owner)) by {
        if has_key::<InventoryUpdate>(u1, token.owner) {
            let i = choose|i: int|
                0 <= i < u1.len() && InventoryUpdate::key_of(#[trigger] u1[i]) == token.owner;
            assert(u1[i] == to);
        }
    }
    let u2 = lost(u1, l, token.owner, idx);
    let from = InventoryUpdateView {
        inventory: l.inventory_of(token.owner).removed(idx),
        remove: Set::empty().insert(idx),
    };
    assert(!has_key::<InventoryUpdate>(empty, token.owner));
    assert(u2 =~= seq![to, from]);
    assert(step.1.inv_updates == u2);
    assert(u2.drop_first() =~= seq![from]);
    assert(u2.drop_first().drop_first() =~= Seq::<InventoryUpdateView>::empty());
    assert(u2[0] == to);
    assert(u2.drop_first()[0] == from);
}

/// A send moves the token as a transfer does: after a request to send one token
/// that succeeds, the token belongs to the receiving contract and carries no
/// grant, it is in the contract's inventory and no longer in the previous
/// owner's, and each of the two counts has changed by exactly one.
pub proof fn law_send_moves_token(
    l: LedgerView,
    config: ConfigView,
    env: EnvView,
    priority: u8,
    contract: Seq<u8>,
    receiver_info: Option<crate::msg::ReceiverInfoView>,
    token_id: Seq<char>,
    msg: Option<Seq<u8>>,
    memo: Option<Seq<char>>,
)
    requires
        l.consistent(config.token_cnt),
        send_nft_spec(l, config, env, priority, contract, receiver_info, token_id, msg, memo).0
            is Ok,
    ensures
        ({
            let post = send_nft_spec(
                l,
                config,
                env,
                priority,
                contract,
                receiver_info,
                token_id,
                msg,
                memo,
            ).1;
            let idx = l.index_of(token_id)->0;
            let token = l.token_at(idx)->0;
            &&& l.index_of(token_id) is Some
            &&& l.token_at(idx) is Some
            &&& post.token_at(idx) == Some(
                TokenView { owner: contract, permissions: Seq::empty(), ..token },
            )
            &&& !post.inventory_of(token.owner).tokens.contains(idx)
            &&& post.inventory_of(contract).tokens.contains(idx)
            &&& post.inventory_of(token.owner).tokens.len() == l.inventory_of(
                token.owner,
            ).tokens.len() - 1
            &&& post.inventory_of(contract).tokens.len() == l.inventory_of(contract).tokens.len()
                + 1
        }),
{
    lemma_send_nft_ok(l, config, env, priority, contract, receiver_info, token_id, msg, memo);
    let idx = l.index_of(token_id)->0;
    let token = l.token_at(idx)->0;
    lemma_moved_ledger(l, config, env.block, env.sender, idx, token, token_id, contract, memo);
    lemma_inserted(l.inventory_of(contract), idx);
    lemma_removed(l.inventory_of(token.owner), idx);
    assert(l.inventory_of(token.owner).tokens.contains(idx));
    assert(!l.inventory_of(contract).tokens.contains(idx)) by {
        if l.inventory_of(contract).tokens.contains(idx) {
            assert(l.token_at(idx)->0.owner == contract);
        }
    }
}

/// What [`moved_ledger`] holds for a token and for the inventories.
pub proof fn lemma_moved_ledger(
    l: LedgerView,
    config: ConfigView,
    block: BlockInfo,
    sender: Seq<u8>,
    idx: u32,
    token: TokenView,
    token_id: Seq<char>,
    recipient: Seq<u8>,
    memo: Option<Seq<char>>,
)
    requires
        l.keyed(),
        token.owner != recipient,
    ensures
        ({
            let post = moved_ledger(
                l,
                config,
                block,
                sender,
                idx,
                token,
                token_id,
                recipient,
                memo,
            );
            &&& post.map2idx == l.map2idx
            &&& post.map2id == l.map2id
            &&& post.all_permissions == l.all_permissions
            &&& post.owner_priv == l.owner_priv
            &&& post.receivers == l.receivers
            &&& post.keyed()
            &&& post.token_at(idx) == Some(
                TokenView { owner: recipient, permissions: Seq::empty(), ..token },
            )
            &&& forall|o: u32| o != idx ==> #[trigger] post.token_at(o) == l.token_at(o)
            &&& post.inventory_of(recipient) == l.inventory_of(recipient).inserted(idx)
            &&& post.inventory_of(token.owner) == l.inventory_of(token.owner).removed(idx)
            &&& forall|o: Seq<u8>|
                o != recipient && o != token.owner ==> #[trigger] post.inventory_of(o)
                    == l.inventory_of(o)
        }),
{
    let post = moved_ledger(l, config, block, sender, idx, token, token_id, recipient, memo);
    let moved = TokenView { owner: recipient, permissions: Seq::empty(), ..token };
    let entry = EntryView { key: idx, value: moved };
    lemma_stored::<Entry<u32, Token>>(l.infos, entry);
    let sndr = if token.owner == sender {
        None
    } else {
        Some(sender)
    };
    crate::state::law_transfer_logged_once(
        LedgerView { infos: post.infos, ..l },
        config,
        block,
        token_id,
        token.owner,
        sndr,
        recipient,
        memo,
    );
    lemma_stored::<StoredTx>(
        l.txs,
        StoredTxView {
            tx_id: config.tx_cnt,
            block_height: block.height,
            block_time: block.time,
            token_id,
            action: TxActionView::Transfer { from: token.owner, sender: sndr, recipient },
            memo,
        },
    );
    match value_at::<Address, Table<AuthList>>(l.auth_lists, token.owner) {
        Some(lists) => {
            let pruned = prune_lists(lists, Set::empty().insert(idx));
            lemma_stored::<Entry<Address, Table<AuthList>>>(
                l.auth_lists,
                EntryView { key: token.owner, value: pruned },
            );
            crate::table::lemma_erased::<Entry<Address, Table<AuthList>>>(
                l.auth_lists,
                token.owner,
            );
        },
        None => {},
    }
    assert(post.infos == stored::<Entry<u32, Token>>(l.infos, entry));
    assert forall|o: u32| o != idx implies #[trigger] post.token_at(o) == l.token_at(o) by {
        assert(lookup::<Entry<u32, Token>>(post.infos, o) == lookup::<Entry<u32, Token>>(
            l.infos,
            o,
        ));
    }
    let to = l.inventory_of(recipient).inserted(idx);
    let from = l.inventory_of(token.owner).removed(idx);
    lemma_inventory_owner(l, recipient);
    lemma_inventory_owner(l, token.owner);
    let mid = stored::<Inventory>(l.inventories, to);
    lemma_stored::<Inventory>(l.inventories, to);
    lemma_stored::<Inventory>(mid, from);
    assert(post.inventories == stored::<Inventory>(mid, from));
    assert(lookup::<Inventory>(post.inventories, recipient) == lookup::<Inventory>(
        mid,
        recipient,
    ));
    assert forall|o: Seq<u8>| o != recipient && o != token.owner implies #[trigger] post.inventory_of(
        o,
    ) == l.inventory_of(o) by {
        assert(lookup::<Inventory>(post.inventories, o) == lookup::<Inventory>(mid, o));
        assert(lookup::<Inventory>(mid, o) == lookup::<Inventory>(l.inventories, o));
    }
}

/// A transfer moves the token: after a request to transfer one token that
/// succeeds, the token belongs to the recipient and carries no grant, it is in
/// the recipient's inventory and no longer in the previous owner's, and each of
/// the two counts has changed by exactly one.
pub proof fn law_transfer_moves_token(
    l: LedgerView,
    config: ConfigView,
    env: EnvView,
    priority: u8,
    recipient: Seq<u8>,
    token_id: Seq<char>,
    memo: Option<Seq<char>>,
)
    requires
        l.consistent(config.token_cnt),
        transfer_nft_spec(l, config, env, priority, recipient, token_id, memo).0 is Ok,
    ensures
        ({
            let post = transfer_nft_spec(l, config, env, priority, recipient, token_id, memo).1;
            let idx = l.index_of(token_id)->0;
            let token = l.token_at(idx)->0;
            &&& l.index_of(token_id) is Some
            &&& l.token_at(idx) is Some
            &&& post.token_at(idx) == Some(
                TokenView { owner: recipient, permissions: Seq::empty(), ..token },
            )
            &&& !post.inventory_of(token.owner).tokens.contains(idx)
            &&& post.inventory_of(recipient).tokens.contains(idx)
            &&& post.inventory_of(token.owner).tokens.len() == l.inventory_of(
                token.owner,
            ).tokens.len() - 1
            &&& post.inventory_of(recipient).tokens.len() == l.inventory_of(
                recipient,
            ).tokens.len() + 1
        }),
{
    lemma_transfer_nft_ok(l, config, env, priority, recipient, token_id, memo);
    let idx = l.index_of(token_id)->0;
    let token = l.token_at(idx)->0;
    lemma_moved_ledger(
        l,
        config,
        env.block,
        env.sender,
        idx,
        token,
        token_id,
        recipient,
        memo,
    );
    lemma_inserted(l.inventory_of(recipient), idx);
    lemma_removed(l.inventory_of(token.owner), idx);
    assert(l.inventory_of(token.owner).tokens.contains(idx));
    assert(!l.inventory_of(recipient).tokens.contains(idx)) by {
        if l.inventory_of(recipient).tokens.contains(idx) {
            assert(l.token_at(idx)->0.owner == recipient);
        }
    }
}

/// What [`moved_ledger`] leaves is consistent where the ledger was and the token
/// that moved was stored under its index.
pub proof fn lemma_moved_keeps_consistency(
    l: LedgerView,
    config: ConfigView,
    block: BlockInfo,
    sender: Seq<u8>,
    idx: u32,
    token: TokenView,
    token_id: Seq<char>,
    recipient: Seq<u8>,
    memo: Option<Seq<char>>,
)
    requires
        l.consistent(config.token_cnt),
        l.token_at(idx) == Some(token),
        token.owner != recipient,
    ensures
        moved_ledger(
            l,
            config,
            block,
            sender,
            idx,
            token,
            token_id,
            recipient,
            memo,
        ).consistent(config.token_cnt),
{
    let post = moved_ledger(l, config, block, sender, idx, token, token_id, recipient, memo);
    lemma_moved_ledger(l, config, block, sender, idx, token, token_id, recipient, memo);
    lemma_inserted(l.inventory_of(recipient), idx);
    lemma_removed(l.inventory_of(token.owner), idx);
    assert forall|owner: Seq<u8>| (#[trigger] post.inventory_of(
        owner,
    )).tokens.no_duplicates() by {
        assert(l.inventory_of(owner).tokens.no_duplicates());
    }
    assert forall|i: u32| (#[trigger] post.token_at(i)) is Some implies post.inventory_of(
        post.token_at(i)->0.owner,
    ).tokens.contains(i) by {
        if i != idx {
            let t = l.token_at(i)->0;
            assert(l.token_at(i) == post.token_at(i));
            assert(l.inventory_of(t.owner).tokens.contains(i));
        }
    }
    assert forall|owner: Seq<u8>, i: u32| #[trigger]
        post.inventory_of(owner).tokens.contains(i) implies post.token_at(i) is Some
        && post.token_at(i)->0.owner == owner by {
        if i == idx {
            if owner != recipient {
                if owner != token.owner {
                    assert(l.inventory_of(owner).tokens.contains(i));
                }
            }
        } else {
            assert(l.inventory_of(owner).tokens.contains(i));
            assert(l.token_at(i) == post.token_at(i));
        }
    }
    assert forall|i: u32| (#[trigger] post.token_at(i)) is Some implies i <= config.token_cnt
        && post.id_of(i) is Some && post.index_of(post.id_of(i)->0) == Some(i) by {
        if i != idx {
            assert(l.token_at(i) == post.token_at(i));
        }
        assert(l.token_at(i) is Some);
    }
}

/// A transfer keeps the ledger consistent.
pub proof fn law_transfer_keeps_consistency(
    l: LedgerView,
    config: ConfigView,
    env: EnvView,
    priority: u8,
    recipient: Seq<u8>,
    token_id: Seq<char>,
    memo: Option<Seq<char>>,
)
    requires
        l.consistent(config.token_cnt),
    ensures
        ({
            let post = transfer_nft_spec(l, config, env, priority, recipient, token_id, memo);
            post.1.consistent(post.2.token_cnt)
        }),
{
    if transfer_nft_spec(l, config, env, priority, recipient, token_id, memo).0 is Ok {
        lemma_transfer_nft_ok(l, config, env, priority, recipient, token_id, memo);
        let idx = l.index_of(token_id)->0;
        let token = l.token_at(idx)->0;
        lemma_moved_keeps_consistency(
            l,
            config,
            env.block,
            env.sender,
            idx,
            token,
            token_id,
            recipient,
            memo,
        );
    }
}

/// A send keeps the ledger consistent.
pub proof fn law_send_keeps_consistency(
    l: LedgerView,
    config: ConfigView,
    env: EnvView,
    priority: u8,
    contract: Seq<u8>,
    receiver_info: Option<crate::msg::ReceiverInfoView>,
    token_id: Seq<char>,
    msg: Option<Seq<u8>>,
    memo: Option<Seq<char>>,
)
    requires
        l.consistent(config.token_cnt),
    ensures
        ({
            let post = send_nft_spec(
                l,
                config,
                env,
                priority,
                contract,
                receiver_info,
                token_id,
                msg,
                memo,
            );
            post.1.consistent(post.2.token_cnt)
        }),
{
    let post = send_nft_spec(l, config, env, priority, contract, receiver_info, token_id, msg, memo);
    if post.0 is Ok {
        lemma_send_nft_ok(l, config, env, priority, contract, receiver_info, token_id, msg, memo);
        let idx = l.index_of(token_id)->0;
        let token = l.token_at(idx)->0;
        lemma_moved_keeps_consistency(
            l,
            config,
            env.block,
            env.sender,
            idx,
            token,
            token_id,
            contract,
            memo,
        );
        reveal_with_fuel(sends_spec, 2);
        reveal_with_fuel(move_tokens_spec, 2);
        let sends = seq![SendView { contract, receiver_info, token_ids: seq![token_id], msg, memo }];
        assert(sends.drop_first() =~= Seq::<SendView>::empty());
        assert(seq![token_id].drop_first() =~= Seq::<Seq<char>>::empty());
        assert(post.2.token_cnt == config.token_cnt);
    }
}

/// Listing a token keeps the ledger consistent: whatever comes of listing one
/// token, the ledger and the count of tokens after it are consistent where they
/// were before.
pub proof fn law_listing_keeps_consistency(
    l: LedgerView,
    config: ConfigView,
    owner: Seq<u8>,
    item: ListView,
)
    requires
        l.consistent(config.token_cnt),
    ensures
        ({
            let post = mint_spec(l, config, owner, item);
            post.1.consistent(post.2.token_cnt)
        }),
{
    let done = mint_spec(l, config, owner, item);
    if done.0 is Ok {
        let post = done.1;
        let idx = (config.token_cnt + 1) as u32;
        let id = match item.token_id {
            Some(id) => id,
            None => crate::mint::decimal_text(config.token_cnt as nat),
        };
        let token = TokenView {
            owner,
            permissions: Seq::empty(),
            unwrapped: !config.sealed_metadata_is_enabled,
            transferable: match item.transferable {
                Some(t) => t,
                None => true,
            },
        };
        assert(l.token_at(idx) is None);
        lemma_stored::<Entry<u32, Token>>(l.infos, EntryView { key: idx, value: token });
        lemma_stored::<Entry<String, u32>>(l.map2idx, EntryView { key: id, value: idx });
        lemma_stored::<Entry<u32, String>>(l.map2id, EntryView { key: idx, value: id });
        match item.public_metadata {
            Some(m) => {
                lemma_stored::<Entry<u32, Metadata>>(l.pub_meta, EntryView { key: idx, value: m });
            },
            None => {},
        }
        match item.private_metadata {
            Some(m) => {
                lemma_stored::<Entry<u32, Metadata>>(l.priv_meta, EntryView { key: idx, value: m });
            },
            None => {},
        }
        lemma_inventory_owner(l, owner);
        let grown = l.inventory_of(owner).inserted(idx);
        lemma_stored::<Inventory>(l.inventories, grown);
        lemma_inserted(l.inventory_of(owner), idx);
        assert(post.inventory_of(owner) == grown);
        assert forall|o: Seq<u8>| o != owner implies #[trigger] post.inventory_of(o)
            == l.inventory_of(o) by {
            assert(lookup::<Inventory>(post.inventories, o) == lookup::<Inventory>(
                l.inventories,
                o,
            ));
        }
        assert forall|i: u32| i != idx implies #[trigger] post.token_at(i) == l.token_at(i) by {
            assert(lookup::<Entry<u32, Token>>(post.infos, i) == lookup::<Entry<u32, Token>>(
                l.infos,
                i,
            ));
        }
        assert forall|o: Seq<u8>| (#[trigger] post.inventory_of(o)).tokens.no_duplicates() by {
            assert(l.inventory_of(o).tokens.no_duplicates());
        }
        assert forall|i: u32| (#[trigger] post.token_at(i)) is Some implies post.inventory_of(
            post.token_at(i)->0.owner,
        ).tokens.contains(i) by {
            if i != idx {
                assert(l.token_at(i) == post.token_at(i));
                assert(l.inventory_of(l.token_at(i)->0.owner).tokens.contains(i));
            }
        }
        assert forall|o: Seq<u8>, i: u32| #[trigger]
            post.inventory_of(o).tokens.contains(i) implies post.token_at(i) is Some
            && post.token_at(i)->0.owner == o by {
            if i == idx {
                if o != owner {
                    assert(l.inventory_of(o).tokens.contains(i));
                }
            } else {
                assert(l.inventory_of(o).tokens.contains(i));
                assert(l.token_at(i) == post.token_at(i));
            }
        }
        assert forall|i: u32| (#[trigger] post.token_at(i)) is Some implies i
            <= done.2.token_cnt && post.id_of(i) is Some && post.index_of(post.id_of(i)->0)
            == Some(i) by {
            if i != idx {
                assert(l.token_at(i) == post.token_at(i));
                assert(l.token_at(i) is Some);
                let other = l.id_of(i)->0;
                assert(lookup::<Entry<u32, String>>(post.map2id, i) == lookup::<
                    Entry<u32, String>,
                >(l.map2id, i));
                assert(l.index_of(other) == Some(i));
                assert(other != id);
                assert(lookup::<Entry<String, u32>>(post.map2idx, other) == lookup::<
                    Entry<String, u32>,
                >(l.map2idx, other));
            }
        }
    }
}

/// Listing tokens keeps the ledger consistent, however many are listed.
pub proof fn law_list_nft_keeps_consistency(
    l: LedgerView,
    config: ConfigView,
    owner: Seq<u8>,
    items: Seq<ListView>,
)
    requires
        l.consistent(config.token_cnt),
    ensures
        ({
            let post = mint_all_spec(l, config, owner, items);
            post.1.consistent(post.2.token_cnt)
        }),
    decreases items.len(),
{
    if items.len() > 0 {
        let first = mint_spec(l, config, owner, items[0]);
        law_listing_keeps_consistency(l, config, owner, items[0]);
        if first.0 is Ok {
            law_list_nft_keeps_consistency(first.1, first.2, owner, items.drop_first());
        }
    }
}

/// The registry starts consistent: the ledger that instantiation makes is
/// consistent with a count of no tokens.
pub proof fn law_init_is_consistent(env: EnvView)
    ensures
        init_ledger_spec(env).consistent(0),
{
    let l = init_ledger_spec(env);
    assert(l.keyed());
    assert forall|owner: Seq<u8>| (#[trigger] l.inventory_of(owner)).tokens.no_duplicates() by {
        assert(!has_key::<Inventory>(l.inventories, owner));
    }
    assert forall|idx: u32| (#[trigger] l.token_at(idx)) is None by {
        assert(!has_key::<Entry<u32, Token>>(l.infos, idx));
    }
    assert forall|owner: Seq<u8>, idx: u32| !#[trigger] l.inventory_of(owner).tokens.contains(
        idx,
    ) by {
        assert(!has_key::<Inventory>(l.inventories, owner));
    }
}

/// Consistency looks at the tokens, their ids and the inventories only: a ledger
/// that holds the same of these as a consistent one, and no key twice, is
/// consistent.
pub proof fn lemma_same_tokens(l: LedgerView, post: LedgerView, token_cnt: u32)
    requires
        l.consistent(token_cnt),
        post.keyed(),
        post.infos == l.infos,
        post.inventories == l.inventories,
        post.map2idx == l.map2idx,
        post.map2id == l.map2id,
    ensures
        post.consistent(token_cnt),
{
    assert forall|owner: Seq<u8>| (#[trigger] post.inventory_of(
        owner,
    )).tokens.no_duplicates() by {
        assert(l.inventory_of(owner).tokens.no_duplicates());
    }
    assert forall|i: u32| (#[trigger] post.token_at(i)) is Some implies post.inventory_of(
        post.token_at(i)->0.owner,
    ).tokens.contains(i) && i <= token_cnt && post.id_of(i) is Some && post.index_of(
        post.id_of(i)->0,
    ) == Some(i) by {
        assert(l.token_at(i) is Some);
        assert(l.inventory_of(l.token_at(i)->0.owner).tokens.contains(i));
    }
    assert forall|owner: Seq<u8>, i: u32| #[trigger]
        post.inventory_of(owner).tokens.contains(i) implies post.token_at(i) is Some
        && post.token_at(i)->0.owner == owner by {
        assert(l.inventory_of(owner).tokens.contains(i));
    }
}

/// Granting and revoking keep the ledger consistent: a grant on one token or on
/// all tokens of an owner, and the end of either, leave the ledger consistent
/// where it was.
pub proof fn law_grants_keep_consistency(
    l: LedgerView,
    config: ConfigView,
    sender: Seq<u8>,
    token_id: Seq<char>,
    grantee: GranteeView,
    kind: PermissionType,
    expiration: Expiration,
    grants: Seq<PermissionView>,
)
    requires
        l.consistent(config.token_cnt),
    ensures
        grant_token_spec(l, config, sender, token_id, grantee, kind, expiration).1.consistent(
            config.token_cnt,
        ),
        revoke_token_spec(l, config, sender, token_id, grantee, kind).1.consistent(
            config.token_cnt,
        ),
        with_all_grants(l, sender, grants).consistent(config.token_cnt),
{
    lemma_stored::<Entry<Address, Table<Permission>>>(
        l.all_permissions,
        EntryView { key: sender, value: grants },
    );
    crate::table::lemma_erased::<Entry<Address, Table<Permission>>>(l.all_permissions, sender);
    lemma_same_tokens(l, with_all_grants(l, sender, grants), config.token_cnt);
    crate::table::lemma_erased::<Entry<Address, Table<AuthList>>>(l.auth_lists, sender);
    if grant_token_spec(l, config, sender, token_id, grantee, kind, expiration).0 is Ok {
        let post = grant_token_spec(l, config, sender, token_id, grantee, kind, expiration).1;
        let found = owned_token_spec(l, config, sender, token_id)->Ok_0;
        let changed = TokenView {
            permissions: granted(found.0.permissions, grantee, kind.slot(), expiration),
            ..found.0
        };
        lemma_stored::<Entry<Address, Table<AuthList>>>(
            l.auth_lists,
            EntryView {
                key: sender,
                value: listed(l.auth_lists_of(sender), grantee, kind.slot(), found.1),
            },
        );
        lemma_token_changed(l, post, config.token_cnt, found.1, changed);
    }
    if revoke_token_spec(l, config, sender, token_id, grantee, kind).0 is Ok {
        let post = revoke_token_spec(l, config, sender, token_id, grantee, kind).1;
        let found = owned_token_spec(l, config, sender, token_id)->Ok_0;
        let changed = TokenView {
            permissions: revoked(found.0.permissions, grantee, kind.slot()),
            ..found.0
        };
        lemma_stored::<Entry<Address, Table<AuthList>>>(
            l.auth_lists,
            EntryView {
                key: sender,
                value: unlisted(l.auth_lists_of(sender), grantee, kind.slot(), found.1),
            },
        );
        lemma_token_changed(l, post, config.token_cnt, found.1, changed);
    }
}

/// A ledger stays consistent where one token changes but keeps its owner, and
/// the ids and the inventories stay as they are.
pub proof fn lemma_token_changed(
    l: LedgerView,
    post: LedgerView,
    token_cnt: u32,
    idx: u32,
    token: TokenView,
)
    requires
        l.consistent(token_cnt),
        l.token_at(idx) is Some,
        l.token_at(idx)->0.owner == token.owner,
        post.infos == stored::<Entry<u32, Token>>(l.infos, EntryView { key: idx, value: token }),
        post.inventories == l.inventories,
        post.map2idx == l.map2idx,
        post.map2id == l.map2id,
        post.all_permissions == l.all_permissions,
        keys_distinct::<Entry<Address, Table<AuthList>>>(post.auth_lists),
        post.owner_priv == l.owner_priv,
        post.receivers == l.receivers,
        post.txs == l.txs,
        post.tx_ids == l.tx_ids,
        post.pub_meta == l.pub_meta,
        post.priv_meta == l.priv_meta,
        post.minters == l.minters,
        post.view_keys == l.view_keys,
    ensures
        post.consistent(token_cnt),
{
    lemma_stored::<Entry<u32, Token>>(l.infos, EntryView { key: idx, value: token });
    assert forall|i: u32| i != idx implies #[trigger] post.token_at(i) == l.token_at(i) by {
        assert(lookup::<Entry<u32, Token>>(post.infos, i) == lookup::<Entry<u32, Token>>(
            l.infos,
            i,
        ));
    }
    assert forall|owner: Seq<u8>| (#[trigger] post.inventory_of(
        owner,
    )).tokens.no_duplicates() by {
        assert(l.inventory_of(owner).tokens.no_duplicates());
    }
    assert forall|i: u32| (#[trigger] post.token_at(i)) is Some implies post.inventory_of(
        post.token_at(i)->0.owner,
    ).tokens.contains(i) && i <= token_cnt && post.id_of(i) is Some && post.index_of(
        post.id_of(i)->0,
    ) == Some(i) by {
        if i != idx {
            assert(l.token_at(i) == post.token_at(i));
        }
        assert(l.token_at(i) is Some);
        assert(l.inventory_of(l.token_at(i)->0.owner).tokens.contains(i));
    }
    assert forall|owner: Seq<u8>, i: u32| #[trigger]
        post.inventory_of(owner).tokens.contains(i) implies post.token_at(i) is Some
        && post.token_at(i)->0.owner == owner by {
        assert(l.inventory_of(owner).tokens.contains(i));
        if i != idx {
            assert(l.token_at(i) == post.token_at(i));
        }
    }
}

/// Every request keeps the ledger consistent: whatever a request does, the
/// ledger and the count of tokens after it are consistent where they were
/// before.
pub proof fn law_handle_keeps_consistency(
    l: LedgerView,
    config: ConfigView,
    env: EnvView,
    msg: HandleMsgView,
)
    requires
        l.consistent(config.token_cnt),
    ensures
        ({
            let post = handle_spec(l, config, env, msg);
            post.1.consistent(post.2.token_cnt)
        }),
{
    let normal = ContractStatus::Normal.level();
    let post = handle_spec(l, config, env, msg);
    match msg {
        HandleMsgView::RegisterReceiveNft { code_hash, also_implements_batch_receive_nft } => {
            lemma_stored::<Entry<Address, crate::state::ReceiveRegistration>>(
                l.receivers,
                EntryView {
                    key: env.sender,
                    value: crate::state::ReceiveRegistrationView {
                        code_hash,
                        impl_batch: crate::handle::or_default(
                            also_implements_batch_receive_nft,
                            false,
                        ),
                    },
                },
            );
        },
        HandleMsgView::SetContractStatus { level } => {},
        HandleMsgView::MakeOwnershipPrivate => {
            lemma_stored::<Entry<Address, bool>>(
                l.owner_priv,
                EntryView { key: env.sender, value: false },
            );
        },
        HandleMsgView::TransferNft { recipient, token_id, memo } => {
            law_transfer_keeps_consistency(l, config, env, normal, recipient, token_id, memo);
        },
        HandleMsgView::SendNft { contract, receiver_info, token_id, msg, memo } => {
            law_send_keeps_consistency(
                l,
                config,
                env,
                normal,
                contract,
                receiver_info,
                token_id,
                msg,
                memo,
            );
        },
        HandleMsgView::CreateViewingKey { entropy } => {
            lemma_stored::<Entry<Address, Vec<u8>>>(
                l.view_keys,
                EntryView {
                    key: env.sender,
                    value: crate::crypto::sha256_of(
                        vstd::utf8::encode_utf8(
                            crate::viewing_key::derived_key(config.prng_seed, env, entropy),
                        ),
                    ),
                },
            );
        },
        HandleMsgView::SetViewingKey { key } => {
            lemma_stored::<Entry<Address, Vec<u8>>>(
                l.view_keys,
                EntryView {
                    key: env.sender,
                    value: crate::crypto::sha256_of(vstd::utf8::encode_utf8(key)),
                },
            );
        },
        HandleMsgView::ChangeAdmin { address } => {},
        HandleMsgView::ListNft { token_lists } => {
            law_list_nft_keeps_consistency(l, config, env.sender, token_lists);
        },
    }
    if post.0 is Ok {
        match msg {
            HandleMsgView::TransferNft { recipient, token_id, memo } => {
                let inner = transfer_nft_spec(l, config, env, normal, recipient, token_id, memo);
                lemma_same_tokens(inner.1, post.1, inner.2.token_cnt);
            },
            HandleMsgView::SendNft { contract, receiver_info, token_id, msg, memo } => {
                let inner = send_nft_spec(
                    l,
                    config,
                    env,
                    normal,
                    contract,
                    receiver_info,
                    token_id,
                    msg,
                    memo,
                );
                lemma_same_tokens(inner.1, post.1, inner.2.token_cnt);
            },
            HandleMsgView::ListNft { token_lists } => {
                let inner = mint_all_spec(l, config, env.sender, token_lists);
                lemma_same_tokens(inner.1, post.1, inner.2.token_cnt);
            },
            _ => {
                lemma_same_tokens(l, post.1, config.token_cnt);
            },
        }
    }
}

/// A transfer cannot be repeated: after a request to transfer a token to a
/// recipient has succeeded, a second request to transfer the same token to the
/// same recipient fails because the recipient owns the token already. This holds
/// of every second request whose sender may transfer the token at all: the new
/// owner, or a sender that holds a grant of the new owner.
pub proof fn law_second_transfer_fails(
    l: LedgerView,
    config: ConfigView,
    env: EnvView,
    priority: u8,
    recipient: Seq<u8>,
    token_id: Seq<char>,
    memo: Option<Seq<char>>,
    again: EnvView,
    memo_again: Option<Seq<char>>,
)
    requires
        l.keyed(),
        transfer_nft_spec(l, config, env, priority, recipient, token_id, memo).0 is Ok,
        ({
            let first = transfer_nft_spec(l, config, env, priority, recipient, token_id, memo);
            again.sender == recipient || get_token_if_permitted_spec(
                first.1,
                again.block,
                token_id,
                Some(again.sender),
                PermissionType::Transfer,
                Seq::empty(),
                first.2,
            ).0 is Ok
        }),
    ensures
        ({
            let first = transfer_nft_spec(l, config, env, priority, recipient, token_id, memo);
            let second = transfer_nft_spec(
                first.1,
                first.2,
                again,
                priority,
                recipient,
                token_id,
                memo_again,
            );
            &&& second.0 == Err::<crate::msg::HandleResponseView, ErrorView>(
                ErrorView::AlreadyOwnedByRecipient { token_id },
            )
            &&& second.1 == first.1
            &&& second.2 == first.2
        }),
{
    lemma_transfer_nft_ok(l, config, env, priority, recipient, token_id, memo);
    let first = transfer_nft_spec(l, config, env, priority, recipient, token_id, memo);
    let idx = l.index_of(token_id)->0;
    let token = l.token_at(idx)->0;
    lemma_moved_ledger(
        l,
        config,
        env.block,
        env.sender,
        idx,
        token,
        token_id,
        recipient,
        memo,
    );
    let mid = first.1;
    assert(mid.index_of(token_id) == Some(idx));
    assert(first.2.status == config.status);
    reveal_with_fuel(transfers_spec, 2);
    reveal_with_fuel(move_tokens_spec, 2);
    let xfers = seq![TransferView { recipient, token_ids: seq![token_id], memo: memo_again }];
    assert(xfers.drop_first() =~= Seq::<TransferView>::empty());
    assert(seq![token_id].drop_first() =~= Seq::<Seq<char>>::empty());
    assert(xfers[0].token_ids[0] == token_id);
}

/// What a grant changes in a list of grants: the slot that was granted holds the
/// expiration, and every other slot of every grantee is as it was.
pub proof fn lemma_granted(
    perms: Seq<PermissionView>,
    grantee: GranteeView,
    k: int,
    expiration: Expiration,
)
    requires
        keys_distinct::<Permission>(perms),
        0 <= k < 3,
        forall|i: int| 0 <= i < perms.len() ==> (#[trigger] perms[i]).expirations.len() == 3,
    ensures
        keys_distinct::<Permission>(granted(perms, grantee, k, expiration)),
        grant_of(granted(perms, grantee, k, expiration), grantee, k) == Some(expiration),
        forall|g: GranteeView, j: int|
            (g != grantee || j != k) && 0 <= j < 3 ==> #[trigger] grant_of(
                granted(perms, grantee, k, expiration),
                g,
                j,
            ) == grant_of(perms, g, j),
{
    let slots = match lookup::<Permission>(perms, grantee) {
        Some(p) => p.expirations,
        None => crate::approval::no_grants(),
    };
    let entry = PermissionView { address: grantee, expirations: slots.update(k, Some(expiration)) };
    lemma_stored::<Permission>(perms, entry);
    let after = granted(perms, grantee, k, expiration);
    assert forall|g: GranteeView, j: int| (g != grantee || j != k) && 0 <= j < 3 implies #[trigger] grant_of(
        after,
        g,
        j,
    ) == grant_of(perms, g, j) by {
        if g != grantee {
            assert(lookup::<Permission>(after, g) == lookup::<Permission>(perms, g));
        } else {
            if has_key::<Permission>(perms, grantee) {
                let p = crate::table::slot_of::<Permission>(perms, grantee);
                assert(perms[p].expirations.len() == 3);
            }
        }
    }
}

/// A grant on a token allows until it expires: once the permission `kind` on a
/// token was granted to `grantee` until `expiration`, the grantee passes the
/// check in every block in which the grant has not expired. In a block in which
/// it has, a grantee whom nothing else allows is denied, and the denial speaks of
/// an expired grant: it differs from the denial of someone who never had a grant.
pub proof fn law_grant_allows_until_expired(
    l: LedgerView,
    block: BlockInfo,
    token: TokenView,
    token_id: Seq<char>,
    grantee: Seq<u8>,
    kind: PermissionType,
    expiration: Expiration,
    deny_msg: Seq<char>,
)
    requires
        keys_distinct::<Permission>(token.permissions),
        forall|i: int|
            0 <= i < token.permissions.len() ==> (#[trigger] token.permissions[i]).expirations.len()
                == 3,
    ensures
        ({
            let after = TokenView {
                permissions: granted(
                    token.permissions,
                    GranteeView::Address(grantee),
                    kind.slot(),
                    expiration,
                ),
                ..token
            };
            let checked = check_perm_core_spec(
                l,
                block,
                after,
                token_id,
                Some(grantee),
                kind.slot(),
                Seq::empty(),
                deny_msg,
            );
            let all = l.all_grants_of(token.owner);
            &&& !expiration.expired_at(block) ==> checked.0 is Ok
            &&& expiration.expired_at(block) && grantee != token.owner && !has_live_grant(
                all,
                Some(grantee),
                kind.slot(),
                block,
            ) && grant_status(token.permissions, GranteeView::Public, kind.slot(), block)
                != GrantStatus::Allowed ==> checked.0 == Err::<(), ErrorView>(
                ErrorView::AuthorizationDenied(
                    if has_lapsed_grant(all, Some(grantee), kind.slot(), block) {
                        DenialView::AllAccessExpired { owner: token.owner }
                    } else {
                        DenialView::TokenAccessExpired { token_id }
                    },
                ),
            )
        }),
{
    lemma_granted(token.permissions, GranteeView::Address(grantee), kind.slot(), expiration);
    let after = granted(token.permissions, GranteeView::Address(grantee), kind.slot(), expiration);
    assert(grant_of(after, GranteeView::Public, kind.slot()) == grant_of(
        token.permissions,
        GranteeView::Public,
        kind.slot(),
    ));
    assert(!has_key::<Address>(Seq::<Seq<u8>>::empty(), token.owner));
}

/// Someone who never had a grant is denied with the caller's own text: where the
/// requester is not the owner and neither the token nor the owner holds a grant
/// for the requester or for everyone, the check fails with `deny_msg`.
pub proof fn law_never_granted_is_denied(
    l: LedgerView,
    block: BlockInfo,
    token: TokenView,
    token_id: Seq<char>,
    requester: Option<Seq<u8>>,
    kind: PermissionType,
    deny_msg: Seq<char>,
)
    requires
        requester != Some(token.owner),
        grant_of(token.permissions, GranteeView::Public, kind.slot()) is None,
        grant_of(l.all_grants_of(token.owner), GranteeView::Public, kind.slot()) is None,
        requester matches Some(a) ==> grant_of(
            token.permissions,
            GranteeView::Address(a),
            kind.slot(),
        ) is None && grant_of(
            l.all_grants_of(token.owner),
            GranteeView::Address(a),
            kind.slot(),
        ) is None,
    ensures
        check_perm_core_spec(
            l,
            block,
            token,
            token_id,
            requester,
            kind.slot(),
            Seq::empty(),
            deny_msg,
        ).0 == Err::<(), ErrorView>(
            ErrorView::AuthorizationDenied(DenialView::NotAuthorized { message: deny_msg }),
        ),
{
    assert(!has_key::<Address>(Seq::<Seq<u8>>::empty(), token.owner));
}

/// A grant on all tokens covers every token of the owner: once `owner` granted
/// the permission `kind` on all tokens to `grantee` (an address, or everyone)
/// until `expiration`, the grantee passes the check on every token that `owner`
/// owns in a block in which the grant has not expired, whenever the token came to
/// the owner.
pub proof fn law_all_grant_covers_owner_tokens(
    l: LedgerView,
    owner: Seq<u8>,
    grantee: GranteeView,
    kind: PermissionType,
    expiration: Expiration,
    block: BlockInfo,
    token: TokenView,
    token_id: Seq<char>,
    requester: Option<Seq<u8>>,
    oper_for: Seq<Seq<u8>>,
    deny_msg: Seq<char>,
)
    requires
        l.keyed(),
        keys_distinct::<Permission>(l.all_grants_of(owner)),
        forall|i: int|
            0 <= i < l.all_grants_of(owner).len() ==> (#[trigger] l.all_grants_of(
                owner,
            )[i]).expirations.len() == 3,
        token.owner == owner,
        !expiration.expired_at(block),
        grantee is Public || requester == Some(grantee->Address_0),
    ensures
        check_perm_core_spec(
            with_all_grants(
                l,
                owner,
                granted(l.all_grants_of(owner), grantee, kind.slot(), expiration),
            ),
            block,
            token,
            token_id,
            requester,
            kind.slot(),
            oper_for,
            deny_msg,
        ).0 is Ok,
{
    let grants = granted(l.all_grants_of(owner), grantee, kind.slot(), expiration);
    lemma_granted(l.all_grants_of(owner), grantee, kind.slot(), expiration);
    let after = with_all_grants(l, owner, grants);
    assert(grants.len() > 0) by {
        assert(has_key::<Permission>(grants, grantee));
    }
    lemma_stored::<Entry<Address, Table<Permission>>>(
        l.all_permissions,
        EntryView { key: owner, value: grants },
    );
    assert(after.all_grants_of(owner) == grants);
}

/// A grant on all tokens is the owner's own: the check on a token looks at the
/// grants of the token's owner at the time of the check, and at no other owner's.
/// A grant that `owner` makes on all tokens changes nothing for a token that
/// someone else owns, such as a token that `owner` has transferred away.
pub proof fn law_all_grant_follows_owner(
    l: LedgerView,
    owner: Seq<u8>,
    grants: Seq<PermissionView>,
    block: BlockInfo,
    token: TokenView,
    token_id: Seq<char>,
    requester: Option<Seq<u8>>,
    k: int,
    oper_for: Seq<Seq<u8>>,
    deny_msg: Seq<char>,
)
    requires
        l.keyed(),
        token.owner != owner,
    ensures
        check_perm_core_spec(
            with_all_grants(l, owner, grants),
            block,
            token,
            token_id,
            requester,
            k,
            oper_for,
            deny_msg,
        ) == check_perm_core_spec(l, block, token, token_id, requester, k, oper_for, deny_msg),
{
    let after = with_all_grants(l, owner, grants);
    lemma_stored::<Entry<Address, Table<Permission>>>(
        l.all_permissions,
        EntryView { key: owner, value: grants },
    );
    crate::table::lemma_erased::<Entry<Address, Table<Permission>>>(l.all_permissions, owner);
    assert(lookup::<Entry<Address, Table<Permission>>>(after.all_permissions, token.owner)
        == lookup::<Entry<Address, Table<Permission>>>(l.all_permissions, token.owner));
    assert(after.all_grants_of(token.owner) == l.all_grants_of(token.owner));
}

/// The contract status stops transactions and nothing else: while the status is
/// `StopTransactions`, every request to transfer, send or list tokens is refused
/// with `StatusGateClosed` and changes nothing. Requests to register a receiver,
/// to set a viewing key and to make ownership private still succeed, and so do
/// the admin's requests to set the status and to change the admin.
pub proof fn law_status_gate(
    l: LedgerView,
    config: ConfigView,
    env: EnvView,
    msg: HandleMsgView,
)
    requires
        config.status == ContractStatus::StopTransactions.level(),
    ensures
        (msg is TransferNft || msg is SendNft || msg is ListNft) ==> handle_spec(l, config, env, msg) == (Err::<HandleResponseView, ErrorView>(ErrorView::StatusGateClosed), l, config),
        (msg is RegisterReceiveNft || msg is MakeOwnershipPrivate || msg is SetViewingKey
            || msg is CreateViewingKey) ==> handle_spec(l, config, env, msg).0 is Ok,
        (msg is SetContractStatus || msg is ChangeAdmin) && config.admin == env.sender
            ==> handle_spec(l, config, env, msg).0 is Ok,
{
}

/// The status gate stops no question: the answer to a question is the same
/// whatever the contract status is.
pub proof fn law_queries_ignore_status(
    l: LedgerView,
    config: ConfigView,
    msg: crate::query_msg::QueryMsgView,
    status: u8,
)
    ensures
        crate::listing::query_spec(l, ConfigView { status, ..config }, msg)
            == crate::listing::query_spec(l, config, msg),
{
}

/// The inventory of an owner, as the ledger holds it, is the owner's.
pub proof fn lemma_inventory_owner(l: LedgerView, owner: Seq<u8>)
    ensures
        l.inventory_of(owner).owner == owner,
{
    if has_key::<Inventory>(l.inventories, owner) {
    }
}

/// Inserting an index keeps the owner of an inventory.
pub proof fn lemma_inserted_owner(v: InventoryView, idx: u32)
    ensures
        v.inserted(idx).owner == v.owner,
{
}

/// Removing an index keeps the owner of an inventory.
pub proof fn lemma_removed_owner(v: InventoryView, idx: u32)
    ensures
        v.removed(idx).owner == v.owner,
{
}

} // verus!
