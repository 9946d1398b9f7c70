//! Transfers and sends of lists of tokens, and the notifications that a send
//! leaves for the receiving contracts.

use vstd::prelude::*;
use crate::address::{copy_opt_string, opt_str_view, Address};
use crate::contract::{check_status, transfer_impl, transfer_impl_spec, update_owner_inventory,
    update_owner_inventory_spec, InventoryUpdate, TransferState};
use crate::error::{ContractError, ErrorView};
use crate::expiration::BlockInfo;
use crate::msg::{copy_opt_bytes, ids_view, opt_bytes_view, opt_receiver_view, Env, EnvView,
    HandleAnswer, HandleAnswerView, HandleResponse, HandleResponseView, ReceiverInfo,
    ReceiverInfoView, ResponseStatus, Send, SendView, Transfer, TransferView};
use crate::receiver::{batch_receive_nft_msg, callbacks_view, receive_nft_msg, CallbackView,
    ReceiveMsgView, ReceiverCallback};
use crate::state::{value_at, Config, ConfigView, Ledger, LedgerView, ReceiveRegistration,
    ReceiveRegistrationView};
use crate::table::{lookup, stored, Key, Record, Table, Value};

verus! {

/// A fresh copy of a list of token ids.
pub fn copy_ids(ids: &Vec<String>) -> (r: Vec<String>)
    ensures
        ids_view(r@) == ids_view(ids@),
{
    let mut r: Vec<String> = Vec::new();
    let mut i: usize = 0;
    while i < ids.len()
        invariant
            i <= ids@.len(),
            r@.len() == i,
            forall|j: int| 0 <= j < i ==> (#[trigger] r@[j])@ == ids@[j]@,
        decreases ids@.len() - i,
    {
        r.push(ids[i].clone());
        i += 1;
    }
    assert(ids_view(r@) =~= ids_view(ids@));
    r
}

// list of tokens sent from one previous owner
#[derive(Debug)]
pub struct SendFrom {
    // the owner's address
    pub owner: Address,
    // the tokens that were sent
    pub token_ids: Vec<String>,
}

/// The view of a [`SendFrom`].
pub struct SendFromView {
    pub owner: Seq<u8>,
    pub token_ids: Seq<Seq<char>>,
}

impl View for SendFrom {
    type V = SendFromView;

    open spec fn view(&self) -> SendFromView {
        SendFromView { owner: self.owner@, token_ids: ids_view(self.token_ids@) }
    }
}

impl Value for SendFrom {
    fn copy(&self) -> (s: SendFrom) {
        SendFrom { owner: self.owner.copy(), token_ids: copy_ids(&self.token_ids) }
    }
}

impl Record for SendFrom {
    type Key = Address;

    open spec fn key_of(v: SendFromView) -> Seq<u8> {
        v.owner
    }

    fn key(&self) -> (k: &Address) {
        &self.owner
    }
}

// a receiver, their code hash, and whether they implement BatchReceiveNft
#[derive(Debug)]
pub struct CacheReceiverInfo {
    // the contract address
    pub contract: Address,
    // the contract's registration info
    pub registration: ReceiveRegistration,
}

/// The view of a [`CacheReceiverInfo`].
pub struct CacheReceiverInfoView {
    pub contract: Seq<u8>,
    pub registration: ReceiveRegistrationView,
}

impl View for CacheReceiverInfo {
    type V = CacheReceiverInfoView;

    open spec fn view(&self) -> CacheReceiverInfoView {
        CacheReceiverInfoView { contract: self.contract@, registration: self.registration@ }
    }
}

impl Value for CacheReceiverInfo {
    fn copy(&self) -> (c: CacheReceiverInfo) {
        CacheReceiverInfo { contract: self.contract.copy(), registration: self.registration.copy() }
    }
}

impl Record for CacheReceiverInfo {
    type Key = Address;

    open spec fn key_of(v: CacheReceiverInfoView) -> Seq<u8> {
        v.contract
    }

    fn key(&self) -> (k: &Address) {
        &self.contract
    }
}

/// `list` after the token `token_id` was sent from `owner`: the id joins the ids
/// sent from that owner.
pub open spec fn noted(list: Seq<SendFromView>, owner: Seq<u8>, token_id: Seq<char>) -> Seq<
    SendFromView,
> {
    let ids = match lookup::<SendFrom>(list, owner) {
        Some(from) => from.token_ids,
        None => Seq::empty(),
    };
    stored::<SendFrom>(list, SendFromView { owner, token_ids: ids.push(token_id) })
}

/// Notes that `token_id` was sent from `owner`.
fn note_sent(list: &mut Table<SendFrom>, owner: Address, token_id: String)
    ensures
        final(list)@ == noted(old(list)@, owner@, token_id@),
{
    let mut token_ids = match list.get(&owner) {
        Some(from) => copy_ids(&from.token_ids),
        None => {
            let v: Vec<String> = Vec::new();
            assert(ids_view(v@) =~= Seq::<Seq<char>>::empty());
            v
        },
    };
    let ghost before = token_ids@;
    token_ids.push(token_id);
    assert(ids_view(token_ids@) =~= ids_view(before).push(token_id@));
    list.put(SendFrom { owner, token_ids });
}

/// The transfer of the tokens `token_ids`, first to last, to `recipient`: the
/// state after the last one and the tokens sent from each previous owner, or the
/// first failure and the state in which it struck.
pub open spec fn move_tokens_spec(
    s: TransferState,
    from_list: Seq<SendFromView>,
    block: BlockInfo,
    sender: Seq<u8>,
    recipient: Seq<u8>,
    token_ids: Seq<Seq<char>>,
    memo: Option<Seq<char>>,
) -> (Result<(), ErrorView>, TransferState, Seq<SendFromView>)
    decreases token_ids.len(),
{
    if token_ids.len() == 0 {
        (Ok(()), s, from_list)
    } else {
        let step = transfer_impl_spec(s, block, sender, token_ids[0], recipient, memo);
        match step.0 {
            Err(e) => (Err(e), step.1, from_list),
            Ok(owner) => move_tokens_spec(
                step.1,
                noted(from_list, owner, token_ids[0]),
                block,
                sender,
                recipient,
                token_ids.drop_first(),
                memo,
            ),
        }
    }
}

/// Transfers the tokens `token_ids`, first to last, to `recipient`, and notes in
/// `from_list` which tokens came from which owner. Stops at the first failure.
pub fn move_tokens(
    ledger: &mut Ledger,
    block: &BlockInfo,
    config: &mut Config,
    sender: &Address,
    recipient: &Address,
    token_ids: &Vec<String>,
    memo: &Option<String>,
    oper_for: &mut Table<Address>,
    inv_updates: &mut Table<InventoryUpdate>,
    from_list: &mut Table<SendFrom>,
) -> (r: Result<(), ContractError>)
    ensures
        ({
            let model = move_tokens_spec(
                TransferState {
                    ledger: old(ledger)@,
                    config: old(config)@,
                    oper_for: old(oper_for)@,
                    inv_updates: old(inv_updates)@,
                },
                old(from_list)@,
                *block,
                sender@,
                recipient@,
                ids_view(token_ids@),
                opt_str_view(*memo),
            );
            &&& model.1 == (TransferState {
                ledger: final(ledger)@,
                config: final(config)@,
                oper_for: final(oper_for)@,
                inv_updates: final(inv_updates)@,
            })
            &&& model.2 == final(from_list)@
            &&& match r {
                Ok(()) => model.0 is Ok,
                Err(e) => model.0 == Err::<(), ErrorView>(e@),
            }
        }),
{
    let ghost ids = ids_view(token_ids@);
    let ghost goal = move_tokens_spec(
        TransferState {
            ledger: ledger@,
            config: config@,
            oper_for: oper_for@,
            inv_updates: inv_updates@,
        },
        from_list@,
        *block,
        sender@,
        recipient@,
        ids,
        opt_str_view(*memo),
    );
    let mut i: usize = 0;
    proof {
        assert(ids.skip(0) =~= ids);
    }
    while i < token_ids.len()
        invariant
            i <= token_ids@.len(),
            ids == ids_view(token_ids@),
            goal == move_tokens_spec(
                TransferState {
                    ledger: old(ledger)@,
                    config: old(config)@,
                    oper_for: old(oper_for)@,
                    inv_updates: old(inv_updates)@,
                },
                old(from_list)@,
                *block,
                sender@,
                recipient@,
                ids,
                opt_str_view(*memo),
            ),
            goal == move_tokens_spec(
                TransferState {
                    ledger: ledger@,
                    config: config@,
                    oper_for: oper_for@,
                    inv_updates: inv_updates@,
                },
                from_list@,
                *block,
                sender@,
                recipient@,
                ids.skip(i as int),
                opt_str_view(*memo),
            ),
        decreases token_ids@.len() - i,
    {
        proof {
            assert(ids.skip(i as int).len() > 0);
            assert(ids.skip(i as int).drop_first() =~= ids.skip(i + 1));
            assert(ids.skip(i as int)[0] == token_ids@[i as int]@);
        }
        let ghost step = transfer_impl_spec(
            TransferState {
                ledger: ledger@,
                config: config@,
                oper_for: oper_for@,
                inv_updates: inv_updates@,
            },
            *block,
            sender@,
            token_ids@[i as int]@,
            recipient@,
            opt_str_view(*memo),
        );
        let ghost from_before = from_list@;
        let owner = match transfer_impl(
            ledger,
            block,
            config,
            sender,
            token_ids[i].clone(),
            recipient.copy(),
            oper_for,
            inv_updates,
            copy_opt_string(memo),
        ) {
            Ok(owner) => owner,
            Err(e) => {
                assert(goal == (Err::<(), ErrorView>(e@), step.1, from_before));
                return Err(e);
            },
        };
        // compile list of all tokens being sent from each owner in this Send
        note_sent(from_list, owner, token_ids[i].clone());
        i += 1;
    }
    Ok(())
}

/// The code hash of the contract that receives a send, whether it takes batches,
/// and the registrations looked up so far: what the send itself supplies, else
/// what was looked up before, else what the ledger holds (nothing registered: an
/// empty code hash and no batches), which is then remembered.
pub open spec fn receiver_of(
    l: LedgerView,
    contract: Seq<u8>,
    receiver_info: Option<ReceiverInfoView>,
    receivers: Seq<CacheReceiverInfoView>,
) -> (Seq<char>, bool, Seq<CacheReceiverInfoView>) {
    match receiver_info {
        Some(supplied) => (
            supplied.recipient_code_hash,
            match supplied.also_implements_batch_receive_nft {
                Some(b) => b,
                None => false,
            },
            receivers,
        ),
        None => match lookup::<CacheReceiverInfo>(receivers, contract) {
            Some(receiver) => (
                receiver.registration.code_hash,
                receiver.registration.impl_batch,
                receivers,
            ),
            None => {
                let registration = match value_at::<Address, ReceiveRegistration>(
                    l.receivers,
                    contract,
                ) {
                    Some(r) => r,
                    None => ReceiveRegistrationView { code_hash: Seq::empty(), impl_batch: false },
                };
                (
                    registration.code_hash,
                    registration.impl_batch,
                    stored::<CacheReceiverInfo>(
                        receivers,
                        CacheReceiverInfoView { contract, registration },
                    ),
                )
            },
        },
    }
}

/// One notification for each token of `token_ids`, all from the previous owner
/// `owner`.
pub open spec fn single_callbacks(
    owner: Seq<u8>,
    token_ids: Seq<Seq<char>>,
    msg: Option<Seq<u8>>,
    code_hash: Seq<char>,
    contract: Seq<u8>,
) -> Seq<CallbackView> {
    Seq::new(
        token_ids.len(),
        |i: int|
            CallbackView {
                msg: ReceiveMsgView::ReceiveNft { sender: owner, token_id: token_ids[i], msg },
                callback_code_hash: code_hash,
                contract_addr: contract,
            },
    )
}

/// The notifications for the tokens of one send, by previous owner: where the
/// receiver takes batches, one notification per owner with all of that owner's
/// tokens; else one notification per token.
pub open spec fn callbacks_for(
    send_from: Seq<SendFromView>,
    impl_batch: bool,
    sender: Seq<u8>,
    msg: Option<Seq<u8>>,
    code_hash: Seq<char>,
    contract: Seq<u8>,
) -> Seq<CallbackView>
    decreases send_from.len(),
{
    if send_from.len() == 0 {
        Seq::empty()
    } else {
        let before = callbacks_for(
            send_from.drop_last(),
            impl_batch,
            sender,
            msg,
            code_hash,
            contract,
        );
        let from = send_from.last();
        if impl_batch {
            before.push(
                CallbackView {
                    msg: ReceiveMsgView::BatchReceiveNft {
                        sender,
                        from: from.owner,
                        token_ids: from.token_ids,
                        msg,
                    },
                    callback_code_hash: code_hash,
                    contract_addr: contract,
                },
            )
        } else {
            before + single_callbacks(from.owner, from.token_ids, msg, code_hash, contract)
        }
    }
}

/// Returns the list of ReceiveNft and BatchReceiveNft callbacks that
/// should be done resulting from one Send
///
/// # Arguments
///
/// * `ledger` - a reference to the ledger
/// * `contract` - a reference to the address of the contract receiving the tokens
/// * `receiver_info` - optional code hash and BatchReceiveNft implementation status of recipient contract
/// * `send_from_list` - list of SendFroms containing all the owners and their tokens being sent
/// * `msg` - a reference to the optional msg used to control ReceiveNft logic
/// * `sender` - a reference to the address that is sending the tokens
/// * `receivers` - a mutable reference the list of receiver contracts and their registration
///                 info
pub fn receiver_callback_msgs(
    ledger: &Ledger,
    contract: &Address,
    receiver_info: &Option<ReceiverInfo>,
    send_from_list: &Table<SendFrom>,
    msg: &Option<Vec<u8>>,
    sender: &Address,
    receivers: &mut Table<CacheReceiverInfo>,
) -> (callbacks: Vec<ReceiverCallback>)
    ensures
        ({
            let found = receiver_of(
                ledger@,
                contract@,
                opt_receiver_view(*receiver_info),
                old(receivers)@,
            );
            &&& final(receivers)@ == found.2
            &&& callbacks_view(callbacks@) == callbacks_for(
                send_from_list@,
                found.1,
                sender@,
                opt_bytes_view(*msg),
                found.0,
                contract@,
            )
        }),
{
    let (code_hash, impl_batch) = match receiver_info {
        Some(supplied) => (
            supplied.recipient_code_hash.clone(),
            match supplied.also_implements_batch_receive_nft {
                Some(b) => b,
                None => false,
            },
        ),
        None => {
            let cached = match receivers.get(contract) {
                Some(receiver) => Some(
                    (receiver.registration.code_hash.clone(), receiver.registration.impl_batch),
                ),
                None => None,
            };
            match cached {
                Some(known) => known,
                None => {
                    let registration = match ledger.receivers.get(contract) {
                        Some(entry) => entry.value.copy(),
                        None => ReceiveRegistration { code_hash: String::new(), impl_batch: false },
                    };
                    let known = (registration.code_hash.clone(), registration.impl_batch);
                    receivers.put(CacheReceiverInfo { contract: contract.copy(), registration });
                    known
                },
            }
        },
    };
    let mut callbacks: Vec<ReceiverCallback> = Vec::new();
    let n = send_from_list.len();
    let ghost list = send_from_list@;
    let ghost text = opt_bytes_view(*msg);
    let mut i: usize = 0;
    proof {
        assert(callbacks_view(callbacks@) =~= Seq::<CallbackView>::empty());
    }
    while i < n
        invariant
            i <= n,
            n == list.len(),
            list == send_from_list@,
            text == opt_bytes_view(*msg),
            callbacks_view(callbacks@) == callbacks_for(
                list.take(i as int),
                impl_batch,
                sender@,
                text,
                code_hash@,
                contract@,
            ),
        decreases n - i,
    {
        proof {
            assert(list.take(i + 1).drop_last() =~= list.take(i as int));
            assert(list.take(i + 1).last() == list[i as int]);
        }
        let send_from = send_from_list.entry(i);
        let ghost before = callbacks_view(callbacks@);
        // if BatchReceiveNft is implemented, use it
        if impl_batch {
            let cb = batch_receive_nft_msg(
                sender.copy(),
                send_from.owner.copy(),
                copy_ids(&send_from.token_ids),
                copy_opt_bytes(msg),
                code_hash.clone(),
                contract.copy(),
            );
            callbacks.push(cb);
            assert(callbacks_view(callbacks@) =~= before.push(cb@));
        } else {
            //otherwise do a bunch of ReceiveNft
            let ghost singles = single_callbacks(
                send_from@.owner,
                send_from@.token_ids,
                text,
                code_hash@,
                contract@,
            );
            let mut j: usize = 0;
            while j < send_from.token_ids.len()
                invariant
                    j <= send_from.token_ids@.len(),
                    text == opt_bytes_view(*msg),
                    singles == single_callbacks(
                        send_from@.owner,
                        send_from@.token_ids,
                        text,
                        code_hash@,
                        contract@,
                    ),
                    callbacks_view(callbacks@) =~= before + singles.take(j as int),
                decreases send_from.token_ids@.len() - j,
            {
                let cb = receive_nft_msg(
                    send_from.owner.copy(),
                    send_from.token_ids[j].clone(),
                    copy_opt_bytes(msg),
                    code_hash.clone(),
                    contract.copy(),
                );
                let ghost sofar = callbacks_view(callbacks@);
                callbacks.push(cb);
                assert(callbacks_view(callbacks@) =~= sofar.push(cb@));
                assert(cb@ == singles[j as int]);
                assert(singles.take(j + 1) =~= singles.take(j as int).push(singles[j as int]));
                j += 1;
            }
            assert(singles.take(j as int) =~= singles);
        }
        i += 1;
    }
    proof {
        assert(list.take(n as int) =~= list);
    }
    callbacks
}

/// The views of a list of transfers.
pub open spec fn transfers_view(t: Seq<Transfer>) -> Seq<TransferView> {
    t.map_values(|x: Transfer| x@)
}

/// The views of a list of sends.
pub open spec fn sends_view(t: Seq<Send>) -> Seq<SendView> {
    t.map_values(|x: Send| x@)
}

/// The view of an optional list of transfers.
pub open spec fn opt_transfers_view(t: Option<Vec<Transfer>>) -> Option<Seq<TransferView>> {
    match t {
        Some(x) => Some(transfers_view(x@)),
        None => None,
    }
}

/// The view of an optional list of sends.
pub open spec fn opt_sends_view(t: Option<Vec<Send>>) -> Option<Seq<SendView>> {
    match t {
        Some(x) => Some(sends_view(x@)),
        None => None,
    }
}

/// The transfers of `transfers`, first to last: the state after the last one, or
/// the first failure and the state in which it struck.
pub open spec fn transfers_spec(
    s: TransferState,
    block: BlockInfo,
    sender: Seq<u8>,
    transfers: Seq<TransferView>,
) -> (Result<(), ErrorView>, TransferState)
    decreases transfers.len(),
{
    if transfers.len() == 0 {
        (Ok(()), s)
    } else {
        let moved = move_tokens_spec(
            s,
            Seq::empty(),
            block,
            sender,
            transfers[0].recipient,
            transfers[0].token_ids,
            transfers[0].memo,
        );
        match moved.0 {
            Err(e) => (Err(e), moved.1),
            Ok(()) => transfers_spec(moved.1, block, sender, transfers.drop_first()),
        }
    }
}

/// The sends of `sends`, first to last: the notifications of all of them (behind
/// `messages`) and the state after the last one, or the first failure and the
/// state in which it struck.
pub open spec fn sends_spec(
    s: TransferState,
    receivers: Seq<CacheReceiverInfoView>,
    block: BlockInfo,
    sender: Seq<u8>,
    sends: Seq<SendView>,
    messages: Seq<CallbackView>,
) -> (Result<Seq<CallbackView>, ErrorView>, TransferState)
    decreases sends.len(),
{
    if sends.len() == 0 {
        (Ok(messages), s)
    } else {
        let send = sends[0];
        let moved = move_tokens_spec(
            s,
            Seq::empty(),
            block,
            sender,
            send.contract,
            send.token_ids,
            send.memo,
        );
        match moved.0 {
            Err(e) => (Err(e), moved.1),
            Ok(()) => {
                let found = receiver_of(moved.1.ledger, send.contract, send.receiver_info, receivers);
                let callbacks = callbacks_for(
                    moved.2,
                    found.1,
                    sender,
                    send.msg,
                    found.0,
                    send.contract,
                );
                sends_spec(
                    moved.1,
                    found.2,
                    block,
                    sender,
                    sends.drop_first(),
                    messages + callbacks,
                )
            },
        }
    }
}

/// A list of transfers, or else of sends, as one step: the notifications, the
/// ledger and the configuration after it. Where any transfer fails the step
/// fails with that failure, and ledger and configuration stay as they were.
/// Where all succeed, the inventories that changed are written and the previous
/// owners' lists of authorised tokens are pruned of the tokens they lost.
pub open spec fn send_list_spec(
    l: LedgerView,
    config: ConfigView,
    block: BlockInfo,
    sender: Seq<u8>,
    transfers: Option<Seq<TransferView>>,
    sends: Option<Seq<SendView>>,
) -> (Result<Seq<CallbackView>, ErrorView>, LedgerView, ConfigView) {
    let start = TransferState {
        ledger: l,
        config,
        oper_for: Seq::empty(),
        inv_updates: Seq::empty(),
    };
    let run: (Result<Seq<CallbackView>, ErrorView>, TransferState) = match transfers {
        Some(xfers) => {
            let done = transfers_spec(start, block, sender, xfers);
            (
                match done.0 {
                    Ok(()) => Ok(Seq::empty()),
                    Err(e) => Err(e),
                },
                done.1,
            )
        },
        None => match sends {
            Some(snds) => sends_spec(start, Seq::empty(), block, sender, snds, Seq::empty()),
            None => (Ok(Seq::empty()), start),
        },
    };
    match run.0 {
        Err(e) => (Err(e), l, config),
        Ok(messages) => (
            Ok(messages),
            update_owner_inventory_spec(run.1.ledger, run.1.inv_updates),
            run.1.config,
        ),
    }
}

/// Runs the transfers of `transfers` on the working state.
fn run_transfers(
    ledger: &mut Ledger,
    block: &BlockInfo,
    config: &mut Config,
    sender: &Address,
    transfers: &Vec<Transfer>,
    oper_for: &mut Table<Address>,
    inv_updates: &mut Table<InventoryUpdate>,
) -> (r: Result<(), ContractError>)
    ensures
        ({
            let model = transfers_spec(
                TransferState {
                    ledger: old(ledger)@,
                    config: old(config)@,
                    oper_for: old(oper_for)@,
                    inv_updates: old(inv_updates)@,
                },
                *block,
                sender@,
                transfers_view(transfers@),
            );
            &&& model.1 == (TransferState {
                ledger: final(ledger)@,
                config: final(config)@,
                oper_for: final(oper_for)@,
                inv_updates: final(inv_updates)@,
            })
            &&& match r {
                Ok(()) => model.0 is Ok,
                Err(e) => model.0 == Err::<(), ErrorView>(e@),
            }
        }),
{
    let ghost list = transfers_view(transfers@);
    let ghost goal = transfers_spec(
        TransferState {
            ledger: ledger@,
            config: config@,
            oper_for: oper_for@,
            inv_updates: inv_updates@,
        },
        *block,
        sender@,
        list,
    );
    let mut i: usize = 0;
    proof {
        assert(list.skip(0) =~= list);
    }
    while i < transfers.len()
        invariant
            i <= transfers@.len(),
            list == transfers_view(transfers@),
            goal == transfers_spec(
                TransferState {
                    ledger: old(ledger)@,
                    config: old(config)@,
                    oper_for: old(oper_for)@,
                    inv_updates: old(inv_updates)@,
                },
                *block,
                sender@,
                list,
            ),
            goal == transfers_spec(
                TransferState {
                    ledger: ledger@,
                    config: config@,
                    oper_for: oper_for@,
                    inv_updates: inv_updates@,
                },
                *block,
                sender@,
                list.skip(i as int),
            ),
        decreases transfers@.len() - i,
    {
        proof {
            assert(list.skip(i as int).len() > 0);
            assert(list.skip(i as int).drop_first() =~= list.skip(i + 1));
            assert(list.skip(i as int)[0] == transfers@[i as int]@);
        }
        let xfer = &transfers[i];
        let mut from_list: Table<SendFrom> = Table::new();
        match move_tokens(
            ledger,
            block,
            config,
            sender,
            &xfer.recipient,
            &xfer.token_ids,
            &xfer.memo,
            oper_for,
            inv_updates,
            &mut from_list,
        ) {
            Ok(()) => {},
            Err(e) => {
                return Err(e);
            },
        }
        i += 1;
    }
    Ok(())
}

/// Runs the sends of `sends` on the working state and collects the notifications.
fn run_sends(
    ledger: &mut Ledger,
    block: &BlockInfo,
    config: &mut Config,
    sender: &Address,
    sends: &Vec<Send>,
    oper_for: &mut Table<Address>,
    inv_updates: &mut Table<InventoryUpdate>,
) -> (r: Result<Vec<ReceiverCallback>, ContractError>)
    ensures
        ({
            let model = sends_spec(
                TransferState {
                    ledger: old(ledger)@,
                    config: old(config)@,
                    oper_for: old(oper_for)@,
                    inv_updates: old(inv_updates)@,
                },
                Seq::empty(),
                *block,
                sender@,
                sends_view(sends@),
                Seq::empty(),
            );
            &&& model.1 == (TransferState {
                ledger: final(ledger)@,
                config: final(config)@,
                oper_for: final(oper_for)@,
                inv_updates: final(inv_updates)@,
            })
            &&& match r {
                Ok(messages) => model.0 == Ok::<Seq<CallbackView>, ErrorView>(
                    callbacks_view(messages@),
                ),
                Err(e) => model.0 == Err::<Seq<CallbackView>, ErrorView>(e@),
            }
        }),
{
    let ghost list = sends_view(sends@);
    let ghost goal = sends_spec(
        TransferState {
            ledger: ledger@,
            config: config@,
            oper_for: oper_for@,
            inv_updates: inv_updates@,
        },
        Seq::empty(),
        *block,
        sender@,
        list,
        Seq::empty(),
    );
    let mut messages: Vec<ReceiverCallback> = Vec::new();
    let mut receivers: Table<CacheReceiverInfo> = Table::new();
    let mut i: usize = 0;
    proof {
        assert(list.skip(0) =~= list);
        assert(callbacks_view(messages@) =~= Seq::<CallbackView>::empty());
    }
    while i < sends.len()
        invariant
            i <= sends@.len(),
            list == sends_view(sends@),
            goal == sends_spec(
                TransferState {
                    ledger: old(ledger)@,
                    config: old(config)@,
                    oper_for: old(oper_for)@,
                    inv_updates: old(inv_updates)@,
                },
                Seq::empty(),
                *block,
                sender@,
                list,
                Seq::empty(),
            ),
            goal == sends_spec(
                TransferState {
                    ledger: ledger@,
                    config: config@,
                    oper_for: oper_for@,
                    inv_updates: inv_updates@,
                },
                receivers@,
                *block,
                sender@,
                list.skip(i as int),
                callbacks_view(messages@),
            ),
        decreases sends@.len() - i,
    {
        proof {
            assert(list.skip(i as int).len() > 0);
            assert(list.skip(i as int).drop_first() =~= list.skip(i + 1));
            assert(list.skip(i as int)[0] == sends@[i as int]@);
        }
        let send = &sends[i];
        let mut from_list: Table<SendFrom> = Table::new();
        match move_tokens(
            ledger,
            block,
            config,
            sender,
            &send.contract,
            &send.token_ids,
            &send.memo,
            oper_for,
            inv_updates,
            &mut from_list,
        ) {
            Ok(()) => {},
            Err(e) => {
                return Err(e);
            },
        }
        // get BatchReceiveNft and ReceiveNft msgs for all the tokens sent in this Send
        let mut callbacks = receiver_callback_msgs(
            ledger,
            &send.contract,
            &send.receiver_info,
            &from_list,
            &send.msg,
            sender,
            &mut receivers,
        );
        let ghost before = callbacks_view(messages@);
        let ghost added = callbacks_view(callbacks@);
        messages.append(&mut callbacks);
        assert(callbacks_view(messages@) =~= before + added);
        i += 1;
    }
    Ok(messages)
}

/// Transfers or sends a list of tokens and returns a list of ReceiveNft callbacks if applicable
///
/// # Arguments
///
/// * `ledger` - a mutable reference to the ledger
/// * `env` - a reference to the Env of the contract's environment
/// * `config` - a mutable reference to the Config
/// * `sender` - a reference to the message sender address
/// * `transfers` - optional list of transfers to perform
/// * `sends` - optional list of sends to perform
pub fn send_list(
    ledger: &mut Ledger,
    env: &Env,
    config: &mut Config,
    sender: &Address,
    transfers: Option<Vec<Transfer>>,
    sends: Option<Vec<Send>>,
) -> (r: Result<Vec<ReceiverCallback>, ContractError>)
    ensures
        ({
            let model = send_list_spec(
                old(ledger)@,
                old(config)@,
                env.block,
                sender@,
                opt_transfers_view(transfers),
                opt_sends_view(sends),
            );
            &&& final(ledger)@ == model.1
            &&& final(config)@ == model.2
            &&& match r {
                Ok(messages) => model.0 == Ok::<Seq<CallbackView>, ErrorView>(
                    callbacks_view(messages@),
                ),
                Err(e) => model.0 == Err::<Seq<CallbackView>, ErrorView>(e@),
            }
        }),
{
    let mut work = ledger.copy();
    let mut settings = config.copy();
    let mut oper_for: Table<Address> = Table::new();
    let mut inv_updates: Table<InventoryUpdate> = Table::new();
    let run = match &transfers {
        Some(xfers) => {
            match run_transfers(
                &mut work,
                &env.block,
                &mut settings,
                sender,
                xfers,
                &mut oper_for,
                &mut inv_updates,
            ) {
                Ok(()) => {
                    let messages: Vec<ReceiverCallback> = Vec::new();
                    assert(callbacks_view(messages@) =~= Seq::<CallbackView>::empty());
                    Ok(messages)
                },
                Err(e) => Err(e),
            }
        },
        None => match &sends {
            Some(snds) => run_sends(
                &mut work,
                &env.block,
                &mut settings,
                sender,
                snds,
                &mut oper_for,
                &mut inv_updates,
            ),
            None => {
                let messages: Vec<ReceiverCallback> = Vec::new();
                assert(callbacks_view(messages@) =~= Seq::<CallbackView>::empty());
                Ok(messages)
            },
        },
    };
    match run {
        Ok(messages) => {
            update_owner_inventory(&mut work, &inv_updates);
            *ledger = work;
            *config = settings;
            Ok(messages)
        },
        Err(e) => Err(e),
    }
}

/// A transfer of one token as a request: fails where the contract status is
/// above `priority`, else does what [`send_list_spec`] says of the one transfer.
pub open spec fn transfer_nft_spec(
    l: LedgerView,
    config: ConfigView,
    env: EnvView,
    priority: u8,
    recipient: Seq<u8>,
    token_id: Seq<char>,
    memo: Option<Seq<char>>,
) -> (Result<HandleResponseView, ErrorView>, LedgerView, ConfigView) {
    if priority < config.status {
        (Err(ErrorView::StatusGateClosed), l, config)
    } else {
        let done = send_list_spec(
            l,
            config,
            env.block,
            env.sender,
            Some(seq![TransferView { recipient, token_ids: seq![token_id], memo }]),
            None,
        );
        match done.0 {
            Err(e) => (Err(e), l, config),
            Ok(_) => (
                Ok(
                    HandleResponseView {
                        messages: Seq::empty(),
                        data: Some(
                            HandleAnswerView::TransferNft { status: ResponseStatus::Success },
                        ),
                    },
                ),
                done.1,
                done.2,
            ),
        }
    }
}

/// Transfers a token
///
/// # Arguments
///
/// * `ledger` - a mutable reference to the ledger
/// * `env` - Env of contract's environment
/// * `config` - a mutable reference to the Config
/// * `priority` - u8 representation of highest ContractStatus level this action is permitted
/// * `recipient` - the address receiving the token
/// * `token_id` - token id String of token to be transferred
/// * `memo` - optional memo for the transfer tx
pub fn transfer_nft(
    ledger: &mut Ledger,
    env: &Env,
    config: &mut Config,
    priority: u8,
    recipient: Address,
    token_id: String,
    memo: Option<String>,
) -> (r: Result<HandleResponse, ContractError>)
    ensures
        ({
            let model = transfer_nft_spec(
                old(ledger)@,
                old(config)@,
                env@,
                priority,
                recipient@,
                token_id@,
                opt_str_view(memo),
            );
            &&& final(ledger)@ == model.1
            &&& final(config)@ == model.2
            &&& match r {
                Ok(response) => model.0 == Ok::<HandleResponseView, ErrorView>(response@),
                Err(e) => model.0 == Err::<HandleResponseView, ErrorView>(e@),
            }
        }),
        old(ledger)@.consistent(old(config).token_cnt) ==> final(ledger)@.consistent(
            final(config).token_cnt,
        ),
{
    proof {
        if ledger@.consistent(config.token_cnt) {
            crate::laws::law_transfer_keeps_consistency(
                ledger@,
                config@,
                env@,
                priority,
                recipient@,
                token_id@,
                opt_str_view(memo),
            );
        }
    }
    match check_status(config.status, priority) {
        Ok(()) => {},
        Err(e) => {
            return Err(e);
        },
    }
    let mut token_ids: Vec<String> = Vec::new();
    token_ids.push(token_id);
    assert(ids_view(token_ids@) =~= seq![token_id@]);
    let mut transfers: Vec<Transfer> = Vec::new();
    transfers.push(Transfer { recipient, token_ids, memo });
    assert(transfers_view(transfers@) =~= seq![
        TransferView { recipient: recipient@, token_ids: seq![token_id@], memo: opt_str_view(memo) },
    ]);
    match send_list(ledger, env, config, &env.sender, Some(transfers), None) {
        Ok(_) => {
            let messages: Vec<ReceiverCallback> = Vec::new();
            assert(callbacks_view(messages@) =~= Seq::<CallbackView>::empty());
            Ok(
                HandleResponse {
                    messages,
                    data: Some(HandleAnswer::TransferNft { status: ResponseStatus::Success }),
                },
            )
        },
        Err(e) => Err(e),
    }
}

/// A send of one token as a request: fails where the contract status is above
/// `priority`, else does what [`send_list_spec`] says of the one send, and hands
/// back its notifications.
pub open spec fn send_nft_spec(
    l: LedgerView,
    config: ConfigView,
    env: EnvView,
    priority: u8,
    contract: Seq<u8>,
    receiver_info: Option<ReceiverInfoView>,
    token_id: Seq<char>,
    msg: Option<Seq<u8>>,
    memo: Option<Seq<char>>,
) -> (Result<HandleResponseView, ErrorView>, LedgerView, ConfigView) {
    if priority < config.status {
        (Err(ErrorView::StatusGateClosed), l, config)
    } else {
        let done = send_list_spec(
            l,
            config,
            env.block,
            env.sender,
            None,
            Some(seq![SendView { contract, receiver_info, token_ids: seq![token_id], msg, memo }]),
        );
        match done.0 {
            Err(e) => (Err(e), l, config),
            Ok(messages) => (
                Ok(
                    HandleResponseView {
                        messages,
                        data: Some(HandleAnswerView::SendNft { status: ResponseStatus::Success }),
                    },
                ),
                done.1,
                done.2,
            ),
        }
    }
}

/// Sends a token to a contract, and calls that contract's ReceiveNft.
///
/// # Arguments
///
/// * `ledger` - a mutable reference to the ledger
/// * `env` - Env of contract's environment
/// * `config` - a mutable reference to the Config
/// * `priority` - u8 representation of highest ContractStatus level this action is permitted
/// * `contract` - the address of the contract receiving the token
/// * `receiver_info` - optional code hash and BatchReceiveNft implementation status of
///                     the recipient contract
/// * `token_id` - ID String of the token that was sent
/// * `msg` - optional msg used to control ReceiveNft logic
/// * `memo` - optional memo for the transfer tx
pub fn send_nft(
    ledger: &mut Ledger,
    env: &Env,
    config: &mut Config,
    priority: u8,
    contract: Address,
    receiver_info: Option<ReceiverInfo>,
    token_id: String,
    msg: Option<Vec<u8>>,
    memo: Option<String>,
) -> (r: Result<HandleResponse, ContractError>)
    ensures
        ({
            let model = send_nft_spec(
                old(ledger)@,
                old(config)@,
                env@,
                priority,
                contract@,
                opt_receiver_view(receiver_info),
                token_id@,
                opt_bytes_view(msg),
                opt_str_view(memo),
            );
            &&& final(ledger)@ == model.1
            &&& final(config)@ == model.2
            &&& match r {
                Ok(response) => model.0 == Ok::<HandleResponseView, ErrorView>(response@),
                Err(e) => model.0 == Err::<HandleResponseView, ErrorView>(e@),
            }
        }),
        old(ledger)@.consistent(old(config).token_cnt) ==> final(ledger)@.consistent(
            final(config).token_cnt,
        ),
{
    proof {
        if ledger@.consistent(config.token_cnt) {
            crate::laws::law_send_keeps_consistency(
                ledger@,
                config@,
                env@,
                priority,
                contract@,
                opt_receiver_view(receiver_info),
                token_id@,
                opt_bytes_view(msg),
                opt_str_view(memo),
            );
        }
    }
    match check_status(config.status, priority) {
        Ok(()) => {},
        Err(e) => {
            return Err(e);
        },
    }
    let mut token_ids: Vec<String> = Vec::new();
    token_ids.push(token_id);
    assert(ids_view(token_ids@) =~= seq![token_id@]);
    let mut sends: Vec<Send> = Vec::new();
    sends.push(Send { contract, receiver_info, token_ids, msg, memo });
    assert(sends_view(sends@) =~= seq![
        SendView {
            contract: contract@,
            receiver_info: opt_receiver_view(receiver_info),
            token_ids: seq![token_id@],
            msg: opt_bytes_view(msg),
            memo: opt_str_view(memo),
        },
    ]);
    match send_list(ledger, env, config, &env.sender, None, Some(sends)) {
        Ok(messages) => Ok(
            HandleResponse {
                messages,
                data: Some(HandleAnswer::SendNft { status: ResponseStatus::Success }),
            },
        ),
        Err(e) => Err(e),
    }
}

} // verus!
