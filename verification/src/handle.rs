//! Instantiation, the requests that change the state, and their dispatch.

use vstd::prelude::*;

use vstd::utf8::encode_utf8;
use crate::address::{opt_addr_view, opt_str_view, Address};
use crate::authlists::authorised;
use crate::contract::check_status;
use crate::crypto::{base64_encode, base64_of, base64_size, sha256_of, sha_256};
use crate::error::{ContractError, ErrorView};

use crate::mint::{list_nft, list_nft_spec, lists_view, List, ListView};
use crate::msg::{opt_bytes_view, opt_receiver_view, ContractStatus, Env, EnvView, HandleAnswer,
    HandleAnswerView, HandleResponse, HandleResponseView, InitConfig, ReceiverInfo,
    ReceiverInfoView, ResponseStatus};
use crate::receiver::{callbacks_view, CallbackView, ReceiverCallback};
use crate::send::{send_nft, send_nft_spec, transfer_nft, transfer_nft_spec};
use crate::state::{Config, ConfigView, Entry, EntryView, Ledger, LedgerView, ReceiveRegistration,
    ReceiveRegistrationView};
use crate::table::{stored, Key, Value};
use crate::viewing_key::{create_key, create_key_spec, set_key, set_key_spec};

verus! {

/// Instantiation message
#[derive(Debug)]
pub struct InitMsg {
    /// name of token contract
    pub name: String,
    /// optional admin address, env.sender if missing
    pub admin: Option<Address>,
    /// optional privacy configuration for the contract
    pub config: Option<InitConfig>,
    /// entropy used for prng seed
    pub entropy: String,
}

/// The view of an [`InitMsg`].
pub struct InitMsgView {
    pub name: Seq<char>,
    pub admin: Option<Seq<u8>>,
    pub config: Option<InitConfig>,
    pub entropy: Seq<char>,
}

impl View for InitMsg {
    type V = InitMsgView;

    open spec fn view(&self) -> InitMsgView {
        InitMsgView {
            name: self.name@,
            admin: opt_addr_view(self.admin),
            config: self.config,
            entropy: self.entropy@,
        }
    }
}

/// `value`, or `default` where there is none.
pub open spec fn or_default(value: Option<bool>, default: bool) -> bool {
    match value {
        Some(b) => b,
        None => default,
    }
}

/// The seed that instantiation derives from the entropy: the SHA-256 digest of
/// the base64 text of the entropy.
pub open spec fn seed_of(entropy: Seq<char>) -> Seq<u8> {
    sha256_of(encode_utf8(base64_of(encode_utf8(entropy))))
}

/// The configuration that instantiation makes: no tokens, no transactions, normal
/// status; the admin is the one named, or the sender; supply and ownership are
/// public unless the message says otherwise; the viewing key of the contract
/// is the base64 text of the seed.
pub open spec fn init_config_spec(env: EnvView, msg: InitMsgView) -> ConfigView {
    let init_config = match msg.config {
        Some(c) => c,
        None => InitConfig { public_token_supply: Some(true), public_owner: Some(true) },
    };
    ConfigView {
        name: msg.name,
        admin: match msg.admin {
            Some(a) => a,
            None => env.sender,
        },
        token_cnt: 0,
        tx_cnt: 0,
        mint_cnt: 0,
        status: ContractStatus::Normal.level(),
        token_supply_is_public: or_default(init_config.public_token_supply, true),
        owner_is_public: or_default(init_config.public_owner, true),
        prng_seed: seed_of(msg.entropy),
        entropy: Seq::empty(),
        viewing_key: base64_of(seed_of(msg.entropy)),
        sealed_metadata_is_enabled: false,
        unwrap_to_private: false,
        minter_may_update_metadata: false,
        owner_may_update_metadata: false,
        burn_is_enabled: false,
    }
}

/// The ledger that instantiation makes: empty but for the creator, the address
/// of the registry and the block.
pub open spec fn init_ledger_spec(env: EnvView) -> LedgerView {
    LedgerView {
        creator: Some(env.sender),
        my_address: Some(env.contract_address),
        block: Some(env.block),
        ..LedgerView::empty()
    }
}

/// Initializes the contract
///
/// # Arguments
///
/// * `env` - Env of contract's environment
/// * `msg` - InitMsg passed in with the instantiation message
pub fn init(env: &Env, msg: InitMsg) -> (r: (Ledger, Config))
    requires
        base64_size(encode_utf8(msg.entropy@).len()) <= usize::MAX,
    ensures
        r.0@ == init_ledger_spec(env@),
        r.1@ == init_config_spec(env@, msg@),
        r.0@.consistent(r.1.token_cnt),
        authorised(r.0@),
{
    proof {
        crate::laws::law_init_is_consistent(env@);
        crate::authlists::law_init_is_authorised(env@);
    }
    let mut ledger = Ledger::new();
    ledger.creator = Some(env.sender.copy());
    ledger.my_address = Some(env.contract_address.copy());
    ledger.block = Some(env.block);
    let InitMsg { name, admin, config, entropy } = msg;
    let admin_raw = match admin {
        Some(a) => a,
        None => env.sender.copy(),
    };
    let encoded = base64_encode(entropy.as_str().as_bytes());
    let prng_seed: Vec<u8> = sha_256(encoded.as_str().as_bytes());
    let view_key = base64_encode(prng_seed.as_slice());
    let init_config = match config {
        Some(c) => c,
        None => InitConfig::default(),
    };
    let config = Config {
        name,
        admin: admin_raw,
        token_cnt: 0,
        tx_cnt: 0,
        mint_cnt: 0,
        status: ContractStatus::Normal.to_u8(),
        token_supply_is_public: match init_config.public_token_supply {
            Some(b) => b,
            None => true,
        },
        owner_is_public: match init_config.public_owner {
            Some(b) => b,
            None => true,
        },
        prng_seed,
        entropy: String::new(),
        viewing_key: view_key,
        sealed_metadata_is_enabled: false,
        unwrap_to_private: false,
        minter_may_update_metadata: false,
        owner_may_update_metadata: false,
        burn_is_enabled: false,
    };
    (ledger, config)
}

/// A response without notifications that carries `answer`.
pub open spec fn plain_response(answer: HandleAnswerView) -> HandleResponseView {
    HandleResponseView { messages: Seq::empty(), data: Some(answer) }
}

/// Builds the response of [`plain_response`].
fn respond(answer: HandleAnswer) -> (r: HandleResponse)
    ensures
        r@ == plain_response(answer@),
{
    let messages: Vec<ReceiverCallback> = Vec::new();
    assert(callbacks_view(messages@) =~= Seq::<CallbackView>::empty());
    HandleResponse { messages, data: Some(answer) }
}

/// Making the sender's ownership private as a request: fails where the contract
/// status is above `priority`; else, where the contract's ownership is public,
/// notes that the sender's is not.
pub open spec fn make_owner_private_spec(
    l: LedgerView,
    config: ConfigView,
    env: EnvView,
    priority: u8,
) -> (Result<HandleResponseView, ErrorView>, LedgerView) {
    if priority < config.status {
        (Err(ErrorView::StatusGateClosed), l)
    } else {
        (
            Ok(
                plain_response(
                    HandleAnswerView::MakeOwnershipPrivate { status: ResponseStatus::Success },
                ),
            ),
            if config.owner_is_public {
                LedgerView {
                    owner_priv: stored::<Entry<Address, bool>>(
                        l.owner_priv,
                        EntryView { key: env.sender, value: false },
                    ),
                    ..l
                }
            } else {
                l
            },
        )
    }
}

/// Makes an address' token ownership private
///
/// # Arguments
///
/// * `ledger` - mutable reference to the ledger
/// * `env` - Env of contract's environment
/// * `config` - a reference to the Config
/// * `priority` - u8 representation of highest status level this action is permitted at
pub fn make_owner_private(ledger: &mut Ledger, env: &Env, config: &Config, priority: u8) -> (r:
    Result<HandleResponse, ContractError>)
    ensures
        ({
            let model = make_owner_private_spec(old(ledger)@, config@, env@, priority);
            &&& final(ledger)@ == model.1
            &&& match r {
                Ok(response) => model.0 == Ok::<HandleResponseView, ErrorView>(response@),
                Err(e) => model.0 == Err::<HandleResponseView, ErrorView>(e@),
            }
        }),
{
    match check_status(config.status, priority) {
        Ok(()) => {},
        Err(e) => {
            return Err(e);
        },
    }
    // only need to do this if the contract has public ownership
    if config.owner_is_public {
        ledger.owner_priv.put(Entry { key: env.sender.copy(), value: false });
    }
    Ok(respond(HandleAnswer::MakeOwnershipPrivate { status: ResponseStatus::Success }))
}

/// Changing the admin as a request: fails where the contract status is above
/// `priority` and where the sender is not the admin; else `address` is the admin.
pub open spec fn change_admin_spec(
    config: ConfigView,
    env: EnvView,
    priority: u8,
    address: Seq<u8>,
) -> (Result<HandleResponseView, ErrorView>, ConfigView) {
    if priority < config.status {
        (Err(ErrorView::StatusGateClosed), config)
    } else if config.admin != env.sender {
        (Err(ErrorView::AdminRequired), config)
    } else {
        (
            Ok(plain_response(HandleAnswerView::ChangeAdmin { status: ResponseStatus::Success })),
            ConfigView { admin: address, ..config },
        )
    }
}

/// Change the admin address
///
/// # Arguments
///
/// * `env` - Env of contract's environment
/// * `config` - a mutable reference to the Config
/// * `priority` - u8 representation of highest ContractStatus level this action is permitted
/// * `address` - new admin address
pub fn change_admin(env: &Env, config: &mut Config, priority: u8, address: &Address) -> (r: Result<
    HandleResponse,
    ContractError,
>)
    ensures
        ({
            let model = change_admin_spec(old(config)@, env@, priority, address@);
            &&& final(config)@ == model.1
            &&& match r {
                Ok(response) => model.0 == Ok::<HandleResponseView, ErrorView>(response@),
                Err(e) => model.0 == Err::<HandleResponseView, ErrorView>(e@),
            }
        }),
{
    match check_status(config.status, priority) {
        Ok(()) => {},
        Err(e) => {
            return Err(e);
        },
    }
    if !config.admin.same(&env.sender) {
        return Err(ContractError::AdminRequired);
    }
    if !address.same(&config.admin) {
        config.admin = address.copy();
    }
    Ok(respond(HandleAnswer::ChangeAdmin { status: ResponseStatus::Success }))
}

/// Registering a receiver as a request: fails where the contract status is above
/// `priority`; else stores the code hash of the sender and whether the sender
/// takes batches.
pub open spec fn register_receive_nft_spec(
    l: LedgerView,
    config: ConfigView,
    env: EnvView,
    priority: u8,
    code_hash: Seq<char>,
    impl_batch: Option<bool>,
) -> (Result<HandleResponseView, ErrorView>, LedgerView) {
    if priority < config.status {
        (Err(ErrorView::StatusGateClosed), l)
    } else {
        (
            Ok(
                plain_response(
                    HandleAnswerView::RegisterReceiveNft { status: ResponseStatus::Success },
                ),
            ),
            LedgerView {
                receivers: stored::<Entry<Address, ReceiveRegistration>>(
                    l.receivers,
                    EntryView {
                        key: env.sender,
                        value: ReceiveRegistrationView {
                            code_hash,
                            impl_batch: or_default(impl_batch, false),
                        },
                    },
                ),
                ..l
            },
        )
    }
}

/// Registers a contract's ReceiveNft
///
/// # Arguments
///
/// * `ledger` - mutable reference to the ledger
/// * `env` - Env of contract's environment
/// * `config` - a reference to the Config
/// * `priority` - u8 representation of highest ContractStatus level this action is permitted
/// * `code_hash` - code hash String of the registering contract
/// * `impl_batch` - optionally true if the contract also implements BatchReceiveNft
pub fn register_receive_nft(
    ledger: &mut Ledger,
    env: &Env,
    config: &Config,
    priority: u8,
    code_hash: String,
    impl_batch: Option<bool>,
) -> (r: Result<HandleResponse, ContractError>)
    ensures
        ({
            let model = register_receive_nft_spec(
                old(ledger)@,
                config@,
                env@,
                priority,
                code_hash@,
                impl_batch,
            );
            &&& final(ledger)@ == model.1
            &&& match r {
                Ok(response) => model.0 == Ok::<HandleResponseView, ErrorView>(response@),
                Err(e) => model.0 == Err::<HandleResponseView, ErrorView>(e@),
            }
        }),
{
    match check_status(config.status, priority) {
        Ok(()) => {},
        Err(e) => {
            return Err(e);
        },
    }
    let regrec = ReceiveRegistration {
        code_hash,
        impl_batch: match impl_batch {
            Some(b) => b,
            None => false,
        },
    };
    ledger.receivers.put(Entry { key: env.sender.copy(), value: regrec });
    Ok(respond(HandleAnswer::RegisterReceiveNft { status: ResponseStatus::Success }))
}

/// Setting the contract status as a request: fails where the sender is not the
/// admin; else the status is `level`. No status stops this request.
pub open spec fn set_contract_status_spec(config: ConfigView, env: EnvView, level: ContractStatus)
    -> (Result<HandleResponseView, ErrorView>, ConfigView) {
    if config.admin != env.sender {
        (Err(ErrorView::AdminRequired), config)
    } else {
        (
            Ok(
                plain_response(
                    HandleAnswerView::SetContractStatus { status: ResponseStatus::Success },
                ),
            ),
            ConfigView { status: level.level(), ..config },
        )
    }
}

/// Set the contract status level
///
/// # Arguments
///
/// * `env` - Env of contract's environment
/// * `config` - a mutable reference to the Config
/// * `level` - new ContractStatus
pub fn set_contract_status(env: &Env, config: &mut Config, level: ContractStatus) -> (r: Result<
    HandleResponse,
    ContractError,
>)
    ensures
        ({
            let model = set_contract_status_spec(old(config)@, env@, level);
            &&& final(config)@ == model.1
            &&& match r {
                Ok(response) => model.0 == Ok::<HandleResponseView, ErrorView>(response@),
                Err(e) => model.0 == Err::<HandleResponseView, ErrorView>(e@),
            }
        }),
{
    if !config.admin.same(&env.sender) {
        return Err(ContractError::AdminRequired);
    }
    let new_status = level.to_u8();
    if config.status != new_status {
        config.status = new_status;
    }
    Ok(respond(HandleAnswer::SetContractStatus { status: ResponseStatus::Success }))
}

/// The requests that change the state.
#[derive(Debug)]
pub enum HandleMsg {
    /// register that the message sending contract implements ReceiveNft and possibly
    /// BatchReceiveNft.  If a contract implements BatchReceiveNft, SendNft will always
    /// call BatchReceiveNft even if there is only one token transferred (the token_ids
    /// Vec will only contain one ID)
    RegisterReceiveNft {
        /// receving contract's code hash
        code_hash: String,
        /// optionally true if the contract also implements BatchReceiveNft.  Defaults
        /// to false if not specified
        also_implements_batch_receive_nft: Option<bool>,
        /// optional message length padding
        padding: Option<String>,
    },
    /// set contract status level to determine which functions are allowed.  StopTransactions
    /// status prevent mints, burns, sends, and transfers, but allows all other functions
    SetContractStatus {
        /// status level
        level: ContractStatus,
        /// optional message length padding
        padding: Option<String>,
    },
    MakeOwnershipPrivate {
        /// optional message length padding
        padding: Option<String>,
    },
    TransferNft {
        /// recipient of the transfer
        recipient: Address,
        /// id of the token to transfer
        token_id: String,
        /// optional memo for the tx
        memo: Option<String>,
        /// optional message length padding
        padding: Option<String>,
    },
    SendNft {
        /// address to send the token to
        contract: Address,
        /// optional code hash and BatchReceiveNft implementation status of the recipient contract
        receiver_info: Option<ReceiverInfo>,
        /// id of the token to send
        token_id: String,
        /// optional message to send with the (Batch)RecieveNft callback
        msg: Option<Vec<u8>>,
        /// optional memo for the tx
        memo: Option<String>,
        /// optional message length padding
        padding: Option<String>,
    },
    CreateViewingKey {
        /// entropy String used in random key generation
        entropy: String,
        /// optional message length padding
        padding: Option<String>,
    },
    SetViewingKey {
        /// desired viewing key
        key: String,
        /// optional message length padding
        padding: Option<String>,
    },
    ChangeAdmin {
        /// address with admin authority
        address: Address,
        /// optional message length padding
        padding: Option<String>,
    },
    ListNft {
        /// the tokens to list
        token_lists: Vec<List>,
    },
}

/// The view of a [`HandleMsg`]: the request without its padding.
pub enum HandleMsgView {
    RegisterReceiveNft { code_hash: Seq<char>, also_implements_batch_receive_nft: Option<bool> },
    SetContractStatus { level: ContractStatus },
    MakeOwnershipPrivate,
    TransferNft { recipient: Seq<u8>, token_id: Seq<char>, memo: Option<Seq<char>> },
    SendNft {
        contract: Seq<u8>,
        receiver_info: Option<ReceiverInfoView>,
        token_id: Seq<char>,
        msg: Option<Seq<u8>>,
        memo: Option<Seq<char>>,
    },
    CreateViewingKey { entropy: Seq<char> },
    SetViewingKey { key: Seq<char> },
    ChangeAdmin { address: Seq<u8> },
    ListNft { token_lists: Seq<ListView> },
}

impl View for HandleMsg {
    type V = HandleMsgView;

    open spec fn view(&self) -> HandleMsgView {
        match self {
            HandleMsg::RegisterReceiveNft {
                code_hash,
                also_implements_batch_receive_nft,
                padding,
            } => HandleMsgView::RegisterReceiveNft {
                code_hash: code_hash@,
                also_implements_batch_receive_nft: *also_implements_batch_receive_nft,
            },
            HandleMsg::SetContractStatus { level, padding } => HandleMsgView::SetContractStatus {
                level: *level,
            },
            HandleMsg::MakeOwnershipPrivate { padding } => HandleMsgView::MakeOwnershipPrivate,
            HandleMsg::TransferNft { recipient, token_id, memo, padding } => HandleMsgView::TransferNft {
                recipient: recipient@,
                token_id: token_id@,
                memo: opt_str_view(*memo),
            },
            HandleMsg::SendNft {
                contract,
                receiver_info,
                token_id,
                msg,
                memo,
                padding,
            } => HandleMsgView::SendNft {
                contract: contract@,
                receiver_info: opt_receiver_view(*receiver_info),
                token_id: token_id@,
                msg: opt_bytes_view(*msg),
                memo: opt_str_view(*memo),
            },
            HandleMsg::CreateViewingKey { entropy, padding } => HandleMsgView::CreateViewingKey {
                entropy: entropy@,
            },
            HandleMsg::SetViewingKey { key, padding } => HandleMsgView::SetViewingKey { key: key@ },
            HandleMsg::ChangeAdmin { address, padding } => HandleMsgView::ChangeAdmin {
                address: address@,
            },
            HandleMsg::ListNft { token_lists } => HandleMsgView::ListNft {
                token_lists: lists_view(token_lists@),
            },
        }
    }
}

/// The highest contract status at which a request still runs; none for the
/// request that sets the status, which always runs.
pub open spec fn priority_of(msg: HandleMsgView) -> Option<ContractStatus> {
    match msg {
        HandleMsgView::SetContractStatus { .. } => None,
        HandleMsgView::TransferNft { .. } => Some(ContractStatus::Normal),
        HandleMsgView::SendNft { .. } => Some(ContractStatus::Normal),
        HandleMsgView::ListNft { .. } => Some(ContractStatus::Normal),
        _ => Some(ContractStatus::StopTransactions),
    }
}

/// What a request does: the response, the ledger and the configuration after it.
/// A request that fails changes nothing. One that succeeds also leaves its block
/// in the ledger.
pub open spec fn handle_spec(
    l: LedgerView,
    config: ConfigView,
    env: EnvView,
    msg: HandleMsgView,
) -> (Result<HandleResponseView, ErrorView>, LedgerView, ConfigView) {
    let normal = ContractStatus::Normal.level();
    let stop = ContractStatus::StopTransactions.level();
    let done: (Result<HandleResponseView, ErrorView>, LedgerView, ConfigView) = match msg {
        HandleMsgView::RegisterReceiveNft { code_hash, also_implements_batch_receive_nft } => {
            let r = register_receive_nft_spec(
                l,
                config,
                env,
                stop,
                code_hash,
                also_implements_batch_receive_nft,
            );
            (r.0, r.1, config)
        },
        HandleMsgView::SetContractStatus { level } => {
            let r = set_contract_status_spec(config, env, level);
            (r.0, l, r.1)
        },
        HandleMsgView::MakeOwnershipPrivate => {
            let r = make_owner_private_spec(l, config, env, stop);
            (r.0, r.1, config)
        },
        HandleMsgView::TransferNft { recipient, token_id, memo } => transfer_nft_spec(
            l,
            config,
            env,
            normal,
            recipient,
            token_id,
            memo,
        ),
        HandleMsgView::SendNft { contract, receiver_info, token_id, msg, memo } => send_nft_spec(
            l,
            config,
            env,
            normal,
            contract,
            receiver_info,
            token_id,
            msg,
            memo,
        ),
        HandleMsgView::CreateViewingKey { entropy } => {
            let r = create_key_spec(l, config, env, stop, entropy);
            (r.0, r.1, config)
        },
        HandleMsgView::SetViewingKey { key } => {
            let r = set_key_spec(l, config, env, stop, key);
            (r.0, r.1, config)
        },
        HandleMsgView::ChangeAdmin { address } => {
            let r = change_admin_spec(config, env, stop, address);
            (r.0, l, r.1)
        },
        HandleMsgView::ListNft { token_lists } => list_nft_spec(l, config, env, normal, token_lists),
    };
    match done.0 {
        Ok(response) => (Ok(response), LedgerView { block: Some(env.block), ..done.1 }, done.2),
        Err(e) => (Err(e), l, config),
    }
}

/// Runs a request that changes the state.
///
/// # Arguments
///
/// * `ledger` - mutable reference to the ledger
/// * `env` - Env of contract's environment
/// * `config` - mutable reference to the Config
/// * `msg` - HandleMsg passed in with the execute message
pub fn handle(
    ledger: &mut Ledger,
    env: &Env,
    config: &mut Config,
    msg: HandleMsg,
) -> (r: Result<HandleResponse, ContractError>)
    ensures
        ({
            let model = handle_spec(old(ledger)@, old(config)@, env@, msg@);
            &&& final(ledger)@ == model.1
            &&& final(config)@ == model.2
            &&& match r {
                Ok(response) => model.0 == Ok::<HandleResponseView, ErrorView>(response@),
                Err(e) => model.0 == Err::<HandleResponseView, ErrorView>(e@),
            }
        }),
        old(ledger)@.consistent(old(config).token_cnt) ==> final(ledger)@.consistent(
            final(config).token_cnt,
        ),
        old(ledger)@.consistent(old(config).token_cnt) && authorised(old(ledger)@) ==> authorised(
            final(ledger)@,
        ),
{
    proof {
        if ledger@.consistent(config.token_cnt) {
            crate::laws::law_handle_keeps_consistency(ledger@, config@, env@, msg@);
            if authorised(ledger@) {
                crate::authlists::law_handle_keeps_authorised(ledger@, config@, env@, msg@);
            }
        }
    }
    dispatch(ledger, env, config, msg)
}

/// Hands a request to the operation that it asks for.
fn dispatch(ledger: &mut Ledger, env: &Env, config: &mut Config, msg: HandleMsg) -> (r: Result<
    HandleResponse,
    ContractError,
>)
    ensures
        ({
            let model = handle_spec(old(ledger)@, old(config)@, env@, msg@);
            &&& final(ledger)@ == model.1
            &&& final(config)@ == model.2
            &&& match r {
                Ok(response) => model.0 == Ok::<HandleResponseView, ErrorView>(response@),
                Err(e) => model.0 == Err::<HandleResponseView, ErrorView>(e@),
            }
        }),
{
    let response = match msg {
        HandleMsg::RegisterReceiveNft {
            code_hash,
            also_implements_batch_receive_nft,
            padding,
        } => register_receive_nft(
            ledger,
            env,
            config,
            ContractStatus::StopTransactions.to_u8(),
            code_hash,
            also_implements_batch_receive_nft,
        ),
        HandleMsg::SetContractStatus { level, padding } => set_contract_status(env, config, level),
        HandleMsg::TransferNft { recipient, token_id, memo, padding } => transfer_nft(
            ledger,
            env,
            config,
            ContractStatus::Normal.to_u8(),
            recipient,
            token_id,
            memo,
        ),
        HandleMsg::SendNft { contract, receiver_info, token_id, msg, memo, padding } => send_nft(
            ledger,
            env,
            config,
            ContractStatus::Normal.to_u8(),
            contract,
            receiver_info,
            token_id,
            msg,
            memo,
        ),
        HandleMsg::CreateViewingKey { entropy, padding } => create_key(
            ledger,
            env,
            config,
            ContractStatus::StopTransactions.to_u8(),
            entropy.as_str(),
        ),
        HandleMsg::SetViewingKey { key, padding } => set_key(
            ledger,
            env,
            config,
            ContractStatus::StopTransactions.to_u8(),
            key,
        ),
        HandleMsg::ChangeAdmin { address, padding } => change_admin(
            env,
            config,
            ContractStatus::StopTransactions.to_u8(),
            &address,
        ),
        HandleMsg::MakeOwnershipPrivate { padding } => make_owner_private(
            ledger,
            env,
            config,
            ContractStatus::StopTransactions.to_u8(),
        ),
        HandleMsg::ListNft { token_lists } => list_nft(
            ledger,
            env,
            config,
            ContractStatus::Normal.to_u8(),
            token_lists,
        ),
    };
    match response {
        Ok(r) => {
            ledger.block = Some(env.block);
            Ok(r)
        },
        Err(e) => Err(e),
    }
}

} // verus!
