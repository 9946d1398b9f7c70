//! The questions about the contract and about single tokens.

use vstd::prelude::*;

use vstd::utf8::encode_utf8;
use crate::address::{copy_opt_address, copy_opt_string, opt_addr_view, opt_str_view, Address,
    Grantee};
use crate::contract::{get_token, get_token_spec};
use crate::error::{unauthorized_message, unauthorized_text, ContractError, Counter, Denial,
    DenialView, ErrorView};
use crate::expiration::BlockInfo;
use crate::msg::ids_view;
use crate::permission::{check_perm_core, check_perm_core_spec, check_permission,
    check_permission_spec, requester_view};
use crate::query_msg::{approvals_view, opt_viewer_view, AnswerView, ApprovalView, Cw721Approval,
    Cw721OwnerOfResponse, OwnerOfResponseView, QueryAnswer, ViewerInfo, ViewerInfoView};
use crate::state::{value_at, Config, ConfigView, Ledger, LedgerView, ReceiveRegistration};
use crate::table::{has_key, Key, Table, Value};
use crate::token::{Metadata, MetadataView, Permission, PermissionType, PermissionView, Token,
    TokenView};
use crate::viewing_key::{check_key, key_matches};

verus! {

/// Who asks: the address of a permit where there is one, else the address of the
/// viewer whose viewing key matches, else nobody. A viewer whose key does not
/// match is an error.
pub open spec fn get_querier_spec(
    l: LedgerView,
    viewer: Option<ViewerInfoView>,
    from_permit: Option<Seq<u8>>,
) -> Result<Option<Seq<u8>>, ErrorView> {
    if from_permit is Some {
        Ok(from_permit)
    } else {
        match viewer {
            Some(v) => if key_matches(l, v.address, encode_utf8(v.viewing_key)) {
                Ok(Some(v.address))
            } else {
                Err(ErrorView::WrongViewingKey)
            },
            None => Ok(None),
        }
    }
}

/// Returns the querying address (if possible) either from a permit validation or
/// a ViewerInfo
///
/// # Arguments
///
/// * `ledger` - a reference to the ledger
/// * `viewer` - optional address and key making an authenticated query request
/// * `from_permit` - the address derived from an Owner permit, if applicable
pub fn get_querier(ledger: &Ledger, viewer: &Option<ViewerInfo>, from_permit: &Option<Address>)
    -> (r: Result<Option<Address>, ContractError>)
    ensures
        match r {
            Ok(who) => get_querier_spec(
                ledger@,
                opt_viewer_view(*viewer),
                opt_addr_view(*from_permit),
            ) == Ok::<Option<Seq<u8>>, ErrorView>(opt_addr_view(who)),
            Err(e) => get_querier_spec(
                ledger@,
                opt_viewer_view(*viewer),
                opt_addr_view(*from_permit),
            ) == Err::<Option<Seq<u8>>, ErrorView>(e@),
        },
{
    match from_permit {
        Some(p) => {
            return Ok(Some(p.copy()));
        },
        None => {},
    }
    match viewer {
        Some(v) => match check_key(ledger, &v.address, v.viewing_key.as_str()) {
            Ok(()) => Ok(Some(v.address.copy())),
            Err(e) => Err(e),
        },
        None => Ok(None),
    }
}

/// Whether the token supply may be seen: where it is public, by anyone; where it
/// is private, by the minters.
pub open spec fn check_view_supply_spec(
    l: LedgerView,
    config: ConfigView,
    viewer: Option<ViewerInfoView>,
    from_permit: Option<Seq<u8>>,
) -> Result<(), ErrorView> {
    if config.token_supply_is_public {
        Ok(())
    } else {
        match get_querier_spec(l, viewer, from_permit) {
            Err(e) => Err(e),
            Ok(who) => if who is Some && has_key::<Address>(l.minters, who->0) {
                Ok(())
            } else {
                Err(ErrorView::AuthorizationDenied(DenialView::SupplyPrivate))
            },
        }
    }
}

/// Returns Ok if authorized to view token supply, Err otherwise
///
/// # Arguments
///
/// * `ledger` - a reference to the ledger
/// * `config` - a reference to the Config
/// * `viewer` - optional address and key making an authenticated query request
/// * `from_permit` - address derived from an Owner permit, if applicable
pub fn check_view_supply(
    ledger: &Ledger,
    config: &Config,
    viewer: &Option<ViewerInfo>,
    from_permit: &Option<Address>,
) -> (r: Result<(), ContractError>)
    ensures
        match r {
            Ok(()) => check_view_supply_spec(
                ledger@,
                config@,
                opt_viewer_view(*viewer),
                opt_addr_view(*from_permit),
            ) is Ok,
            Err(e) => check_view_supply_spec(
                ledger@,
                config@,
                opt_viewer_view(*viewer),
                opt_addr_view(*from_permit),
            ) == Err::<(), ErrorView>(e@),
        },
{
    if config.token_supply_is_public {
        return Ok(());
    }
    let querier = match get_querier(ledger, viewer, from_permit) {
        Ok(q) => q,
        Err(e) => {
            return Err(e);
        },
    };
    let is_auth = match &querier {
        Some(viewer_raw) => ledger.minters.contains(viewer_raw),
        None => false,
    };
    if !is_auth {
        return Err(ContractError::AuthorizationDenied(Denial::SupplyPrivate));
    }
    Ok(())
}

/// The number of tokens that the contract controls, for who may see the supply.
pub open spec fn query_num_tokens_spec(
    l: LedgerView,
    config: ConfigView,
    viewer: Option<ViewerInfoView>,
    from_permit: Option<Seq<u8>>,
) -> Result<AnswerView, ErrorView> {
    match check_view_supply_spec(l, config, viewer, from_permit) {
        Err(e) => Err(e),
        Ok(()) => Ok(AnswerView::NumTokens { count: config.token_cnt }),
    }
}

/// Returns the number of tokens the contract controls
///
/// # Arguments
///
/// * `ledger` - a reference to the ledger
/// * `config` - a reference to the Config
/// * `viewer` - optional address and key making an authenticated query request
/// * `from_permit` - address derived from an Owner permit, if applicable
pub fn query_num_tokens(
    ledger: &Ledger,
    config: &Config,
    viewer: &Option<ViewerInfo>,
    from_permit: &Option<Address>,
) -> (r: Result<QueryAnswer, ContractError>)
    ensures
        match r {
            Ok(a) => query_num_tokens_spec(
                ledger@,
                config@,
                opt_viewer_view(*viewer),
                opt_addr_view(*from_permit),
            ) == Ok::<AnswerView, ErrorView>(a@),
            Err(e) => query_num_tokens_spec(
                ledger@,
                config@,
                opt_viewer_view(*viewer),
                opt_addr_view(*from_permit),
            ) == Err::<AnswerView, ErrorView>(e@),
        },
{
    // authenticate permission to view token supply
    match check_view_supply(ledger, config, viewer, from_permit) {
        Ok(()) => Ok(QueryAnswer::NumTokens { count: config.token_cnt }),
        Err(e) => Err(e),
    }
}

/// The ids of the tokens with the indices `from` to `last`, in the order of the
/// indices, `room` of them at most. An index without an id is passed over.
pub open spec fn ids_from(l: LedgerView, from: nat, last: nat, room: nat) -> Seq<Seq<char>>
    decreases last + 1 - from,
{
    if from > last || room == 0 {
        Seq::empty()
    } else {
        match l.id_of(from as u32) {
            Some(id) => seq![id] + ids_from(l, from + 1, last, (room - 1) as nat),
            None => ids_from(l, from + 1, last, room),
        }
    }
}

/// `limit`, or `default` where there is none.
pub open spec fn limit_or(limit: Option<u32>, default: u32) -> u32 {
    match limit {
        Some(n) => n,
        None => default,
    }
}

/// A page of the ids of all tokens, for who may see the supply: the ids of the
/// tokens that follow the token `start_after` (of all tokens, where there is no
/// `start_after`) in the order of their indices, `limit` of them at most, 300
/// where there is no `limit`.
pub open spec fn query_all_tokens_spec(
    l: LedgerView,
    config: ConfigView,
    viewer: Option<ViewerInfoView>,
    start_after: Option<Seq<char>>,
    limit: Option<u32>,
    from_permit: Option<Seq<u8>>,
) -> Result<AnswerView, ErrorView> {
    match check_view_supply_spec(l, config, viewer, from_permit) {
        Err(e) => Err(e),
        Ok(()) => {
            let start: Result<nat, ErrorView> = match start_after {
                None => Ok(0nat),
                Some(id) => match l.index_of(id) {
                    None => Err(ErrorView::NotFound { token_id: id }),
                    Some(idx) => if idx == u32::MAX {
                        Err(ErrorView::CounterOverflow(Counter::TokenIndex))
                    } else {
                        Ok((idx + 1) as nat)
                    },
                },
            };
            match start {
                Err(e) => Err(e),
                Ok(from) => Ok(
                    AnswerView::TokenList {
                        tokens: ids_from(
                            l,
                            from,
                            config.token_cnt as nat,
                            limit_or(limit, 300) as nat,
                        ),
                    },
                ),
            }
        },
    }
}

/// Returns the list of tokens that the contract controls
///
/// # Arguments
///
/// * `ledger` - a reference to the ledger
/// * `config` - a reference to the Config
/// * `viewer` - optional address and key making an authenticated query request
/// * `start_after` - optionally only display token ids that come after this one
/// * `limit` - optional max number of tokens to display
/// * `from_permit` - address derived from an Owner permit, if applicable
pub fn query_all_tokens(
    ledger: &Ledger,
    config: &Config,
    viewer: &Option<ViewerInfo>,
    start_after: &Option<String>,
    limit: Option<u32>,
    from_permit: &Option<Address>,
) -> (r: Result<QueryAnswer, ContractError>)
    ensures
        match r {
            Ok(a) => query_all_tokens_spec(
                ledger@,
                config@,
                opt_viewer_view(*viewer),
                opt_str_view(*start_after),
                limit,
                opt_addr_view(*from_permit),
            ) == Ok::<AnswerView, ErrorView>(a@),
            Err(e) => query_all_tokens_spec(
                ledger@,
                config@,
                opt_viewer_view(*viewer),
                opt_str_view(*start_after),
                limit,
                opt_addr_view(*from_permit),
            ) == Err::<AnswerView, ErrorView>(e@),
        },
{
    // authenticate permission to view token supply
    match check_view_supply(ledger, config, viewer, from_permit) {
        Ok(()) => {},
        Err(e) => {
            return Err(e);
        },
    }
    let start: u64 = match start_after {
        None => 0,
        Some(id) => match ledger.map2idx.get(id) {
            None => {
                return Err(ContractError::NotFound { token_id: id.clone() });
            },
            Some(entry) => {
                if entry.value == u32::MAX {
                    return Err(ContractError::CounterOverflow(Counter::TokenIndex));
                }
                (entry.value + 1) as u64
            },
        },
    };
    let cut_off = match limit {
        Some(n) => n,
        None => 300,
    };
    let last = config.token_cnt as u64;
    let mut tokens: Vec<String> = Vec::new();
    let mut count: u32 = 0;
    let mut i: u64 = if start > last {
        last + 1
    } else {
        start
    };
    let ghost goal = ids_from(ledger@, start as nat, last as nat, cut_off as nat);
    proof {
        assert(ids_view(tokens@) =~= Seq::<Seq<char>>::empty());
        assert(Seq::<Seq<char>>::empty() + goal =~= goal);
    }
    while count < cut_off && i <= last
        invariant
            count <= cut_off,
            last <= u32::MAX,
            i <= last + 1,
            goal == ids_view(tokens@) + ids_from(
                ledger@,
                i as nat,
                last as nat,
                (cut_off - count) as nat,
            ),
        decreases last + 1 - i,
    {
        let idx = i as u32;
        let ghost before = ids_view(tokens@);
        let ghost rest = ids_from(
            ledger@,
            (i + 1) as nat,
            last as nat,
            (cut_off - count - 1) as nat,
        );
        match ledger.map2id.get(&idx) {
            Some(entry) => {
                tokens.push(entry.value.clone());
                proof {
                    assert(ids_view(tokens@) =~= before.push(entry@.value));
                    assert(before + (seq![entry@.value] + rest) =~= before.push(entry@.value)
                        + rest);
                }
                count += 1;
            },
            None => {},
        }
        i += 1;
    }
    proof {
        assert(ids_from(ledger@, i as nat, last as nat, (cut_off - count) as nat)
            =~= Seq::<Seq<char>>::empty());
        assert(ids_view(tokens@) + Seq::<Seq<char>>::empty() =~= ids_view(tokens@));
    }
    Ok(QueryAnswer::TokenList { tokens })
}

/// Returns the contract's creator
///
/// # Arguments
///
/// * `ledger` - a reference to the ledger
pub fn query_contract_creator(ledger: &Ledger) -> (a: QueryAnswer)
    ensures
        a@ == (AnswerView::ContractCreator { creator: ledger@.creator }),
{
    QueryAnswer::ContractCreator { creator: copy_opt_address(&ledger.creator) }
}

/// Returns the contract's name
///
/// # Arguments
///
/// * `config` - a reference to the Config
pub fn query_contract_info(config: &Config) -> (a: QueryAnswer)
    ensures
        a@ == (AnswerView::ContractInfo { name: config@.name }),
{
    QueryAnswer::ContractInfo { name: config.name.clone() }
}

/// Returns the contract's configuration
///
/// # Arguments
///
/// * `config` - a reference to the Config
pub fn query_config(config: &Config) -> (a: QueryAnswer)
    ensures
        a@ == (AnswerView::ContractConfig {
            token_supply_is_public: config.token_supply_is_public,
            owner_is_public: config.owner_is_public,
        }),
{
    QueryAnswer::ContractConfig {
        token_supply_is_public: config.token_supply_is_public,
        owner_is_public: config.owner_is_public,
    }
}

/// The registration of `contract` as a receiver: its code hash and whether it
/// takes batches, or no code hash and no batches where it has not registered.
pub open spec fn query_code_hash_spec(l: LedgerView, contract: Seq<u8>) -> AnswerView {
    match value_at::<Address, ReceiveRegistration>(l.receivers, contract) {
        Some(reg) => AnswerView::RegisteredCodeHash {
            code_hash: Some(reg.code_hash),
            also_implements_batch_receive_nft: reg.impl_batch,
        },
        None => AnswerView::RegisteredCodeHash {
            code_hash: None,
            also_implements_batch_receive_nft: false,
        },
    }
}

/// Returns the registered code hash of the specified contract if
/// it has registered and whether the contract implements BatchReceiveNft
///
/// # Arguments
///
/// * `ledger` - a reference to the ledger
/// * `contract` - a reference to the contract's address whose code hash is being requested
pub fn query_code_hash(ledger: &Ledger, contract: &Address) -> (a: QueryAnswer)
    ensures
        a@ == query_code_hash_spec(ledger@, contract@),
{
    match ledger.receivers.get(contract) {
        Some(entry) => QueryAnswer::RegisteredCodeHash {
            code_hash: Some(entry.value.code_hash.clone()),
            also_implements_batch_receive_nft: entry.value.impl_batch,
        },
        None => QueryAnswer::RegisteredCodeHash {
            code_hash: None,
            also_implements_batch_receive_nft: false,
        },
    }
}

/// The metadata stored under `idx` in `table`, or empty metadata.
pub open spec fn meta_or_empty(table: Seq<crate::state::EntryView<u32, MetadataView>>, idx: u32)
    -> MetadataView {
    match value_at::<u32, Metadata>(table, idx) {
        Some(m) => m,
        None => MetadataView { token_uri: None, extension: None },
    }
}

/// The public metadata of the token `token_id`. An unknown id is an error where
/// the token supply is public, and has empty metadata where it is private.
pub open spec fn query_nft_info_spec(l: LedgerView, config: ConfigView, token_id: Seq<char>)
    -> Result<AnswerView, ErrorView> {
    match l.index_of(token_id) {
        Some(idx) => {
            let meta = meta_or_empty(l.pub_meta, idx);
            Ok(AnswerView::NftInfo { token_uri: meta.token_uri, extension: meta.extension })
        },
        None => if config.token_supply_is_public {
            Err(ErrorView::NotFound { token_id })
        } else {
            Ok(AnswerView::NftInfo { token_uri: None, extension: None })
        },
    }
}

/// Returns the public metadata of a token
///
/// # Arguments
///
/// * `ledger` - a reference to the ledger
/// * `config` - a reference to the Config
/// * `token_id` - string slice of the token id
pub fn query_nft_info(ledger: &Ledger, config: &Config, token_id: &str) -> (r: Result<
    QueryAnswer,
    ContractError,
>)
    ensures
        match r {
            Ok(a) => query_nft_info_spec(ledger@, config@, token_id@) == Ok::<
                AnswerView,
                ErrorView,
            >(a@),
            Err(e) => query_nft_info_spec(ledger@, config@, token_id@) == Err::<
                AnswerView,
                ErrorView,
            >(e@),
        },
{
    let id = token_id.to_owned();
    // if token id was found
    match ledger.map2idx.get(&id) {
        Some(entry) => {
            return Ok(
                match ledger.pub_meta.get(&entry.value) {
                    Some(meta) => QueryAnswer::NftInfo {
                        token_uri: copy_opt_string(&meta.value.token_uri),
                        extension: copy_opt_string(&meta.value.extension),
                    },
                    None => QueryAnswer::NftInfo { token_uri: None, extension: None },
                },
            );
        },
        None => {},
    }
    // token id wasn't found
    // if the token supply is public, let them know the token does not exist
    if config.token_supply_is_public {
        return Err(ContractError::NotFound { token_id: id });
    }
    // otherwise, just return empty metadata
    Ok(QueryAnswer::NftInfo { token_uri: None, extension: None })
}

/// Whether the token `token_id` is transferable. Where the token supply is
/// private, a token that is not found counts as transferable.
pub open spec fn query_is_transferable_spec(l: LedgerView, config: ConfigView, token_id: Seq<char>)
    -> Result<AnswerView, ErrorView> {
    match get_token_spec(l, token_id, None) {
        Err(e) => if !config.token_supply_is_public && e is NotFound {
            Ok(AnswerView::IsTransferable { token_is_transferable: true })
        } else {
            Err(e)
        },
        Ok((token, idx)) => Ok(
            AnswerView::IsTransferable { token_is_transferable: token.transferable },
        ),
    }
}

/// Returns true if the token is transferable
///
/// # Arguments
///
/// * `ledger` - a reference to the ledger
/// * `config` - a reference to the Config
/// * `token_id` - string slice of the token id
pub fn query_is_transferable(ledger: &Ledger, config: &Config, token_id: &str) -> (r: Result<
    QueryAnswer,
    ContractError,
>)
    ensures
        match r {
            Ok(a) => query_is_transferable_spec(ledger@, config@, token_id@) == Ok::<
                AnswerView,
                ErrorView,
            >(a@),
            Err(e) => query_is_transferable_spec(ledger@, config@, token_id@) == Err::<
                AnswerView,
                ErrorView,
            >(e@),
        },
{
    match get_token(ledger, token_id, None) {
        Err(err) => match err {
            // if the token id is not found, but token supply is private, just say
            // the token is transferable
            ContractError::NotFound { token_id } => if !config.token_supply_is_public {
                Ok(QueryAnswer::IsTransferable { token_is_transferable: true })
            } else {
                Err(ContractError::NotFound { token_id })
            },
            other => Err(other),
        },
        Ok((token, _idx)) => Ok(
            QueryAnswer::IsTransferable { token_is_transferable: token.transferable },
        ),
    }
}

// bundled info when prepping an authenticated token query
#[derive(Debug)]
pub struct TokenQueryInfo {
    // querier's address
    pub viewer_raw: Option<Address>,
    // the block of the last request that changed the state
    pub block: BlockInfo,
    // error message String
    pub err_msg: String,
    // the requested token
    pub token: Token,
    // the requested token's index
    pub idx: u32,
    // true if the contract has public ownership
    pub owner_is_public: bool,
}

/// The view of a [`TokenQueryInfo`].
pub struct TokenQueryInfoView {
    pub viewer_raw: Option<Seq<u8>>,
    pub block: BlockInfo,
    pub err_msg: Seq<char>,
    pub token: TokenView,
    pub idx: u32,
    pub owner_is_public: bool,
}

impl View for TokenQueryInfo {
    type V = TokenQueryInfoView;

    open spec fn view(&self) -> TokenQueryInfoView {
        TokenQueryInfoView {
            viewer_raw: opt_addr_view(self.viewer_raw),
            block: self.block,
            err_msg: self.err_msg@,
            token: self.token@,
            idx: self.idx,
            owner_is_public: self.owner_is_public,
        }
    }
}

/// The block that a question is answered in: the block of the last request that
/// changed the state, or height 1 and time 1 where there was none.
pub open spec fn query_block(l: LedgerView) -> BlockInfo {
    match l.block {
        Some(b) => b,
        None => BlockInfo { height: 1, time: 1 },
    }
}

/// The block of [`query_block`].
pub fn stored_block(ledger: &Ledger) -> (b: BlockInfo)
    ensures
        b == query_block(ledger@),
{
    match ledger.block {
        Some(b) => b,
        None => BlockInfo { height: 1, time: 1 },
    }
}

/// What every question about one token starts with: who asks, the block, the
/// token and its index. Where the token supply is private, an unknown id fails
/// as a known one that the requester may not touch does.
pub open spec fn query_token_prep_spec(
    l: LedgerView,
    config: ConfigView,
    token_id: Seq<char>,
    viewer: Option<ViewerInfoView>,
    from_permit: Option<Seq<u8>>,
) -> Result<TokenQueryInfoView, ErrorView> {
    match get_querier_spec(l, viewer, from_permit) {
        Err(e) => Err(e),
        Ok(viewer_raw) => {
            let err_msg = unauthorized_text(token_id);
            let opt_err = if config.token_supply_is_public {
                None
            } else {
                Some(err_msg)
            };
            match get_token_spec(l, token_id, opt_err) {
                Err(e) => Err(e),
                Ok((token, idx)) => Ok(
                    TokenQueryInfoView {
                        viewer_raw,
                        block: query_block(l),
                        err_msg,
                        token,
                        idx,
                        owner_is_public: config.owner_is_public,
                    },
                ),
            }
        },
    }
}

/// Returns the common preparations for authenticated token queries
///
/// # Arguments
///
/// * `ledger` - a reference to the ledger
/// * `config` - a reference to the Config
/// * `token_id` - string slice of the token id
/// * `viewer` - optional address and key making an authenticated query request
/// * `from_permit` - address derived from an Owner permit, if applicable
pub fn query_token_prep(
    ledger: &Ledger,
    config: &Config,
    token_id: &str,
    viewer: &Option<ViewerInfo>,
    from_permit: &Option<Address>,
) -> (r: Result<TokenQueryInfo, ContractError>)
    ensures
        match r {
            Ok(info) => query_token_prep_spec(
                ledger@,
                config@,
                token_id@,
                opt_viewer_view(*viewer),
                opt_addr_view(*from_permit),
            ) == Ok::<TokenQueryInfoView, ErrorView>(info@),
            Err(e) => query_token_prep_spec(
                ledger@,
                config@,
                token_id@,
                opt_viewer_view(*viewer),
                opt_addr_view(*from_permit),
            ) == Err::<TokenQueryInfoView, ErrorView>(e@),
        },
{
    let viewer_raw = match get_querier(ledger, viewer, from_permit) {
        Ok(q) => q,
        Err(e) => {
            return Err(e);
        },
    };
    let block = stored_block(ledger);
    let err_msg = unauthorized_message(token_id);
    // if token supply is private, don't leak that the token id does not exist
    // instead just say they are not authorized for that token
    let opt_err = if config.token_supply_is_public {
        None
    } else {
        Some(err_msg.as_str())
    };
    let (token, idx) = match get_token(ledger, token_id, opt_err) {
        Ok(found) => found,
        Err(e) => {
            return Err(e);
        },
    };
    Ok(
        TokenQueryInfo {
            viewer_raw,
            block,
            err_msg,
            token,
            idx,
            owner_is_public: config.owner_is_public,
        },
    )
}

/// The approvals that `perms` holds for slot `k`, in the order of the list: one
/// for each address (not for everyone) with a grant that has not expired in
/// `block`, or with any grant where `include_expired` is set.
pub open spec fn approvals_of(
    perms: Seq<PermissionView>,
    block: BlockInfo,
    k: int,
    include_expired: bool,
) -> Seq<ApprovalView>
    decreases perms.len(),
{
    if perms.len() == 0 {
        Seq::empty()
    } else {
        let before = approvals_of(perms.drop_last(), block, k, include_expired);
        let perm = perms.last();
        match perm.expirations[k] {
            Some(exp) => if (include_expired || !exp.expired_at(block)) && perm.address
                is Address {
                before.push(ApprovalView { spender: perm.address->Address_0, expires: exp })
            } else {
                before
            },
            None => before,
        }
    }
}

/// Appends to `approvals` the approvals of type `kind` found in `perm_list`
///
/// # Arguments
///
/// * `block` - a reference to the current BlockInfo
/// * `perm_list` - the Permissions to search through looking for approvals
/// * `approvals` - a mutable reference to the list of approvals that should be appended
///                 with any found in the permission list
/// * `kind` - the permission type whose approvals are listed
/// * `include_expired` - true if the Approval list should include expired Approvals
pub fn gen_cw721_approvals(
    block: &BlockInfo,
    perm_list: &Table<Permission>,
    approvals: &mut Vec<Cw721Approval>,
    kind: PermissionType,
    include_expired: bool,
)
    ensures
        approvals_view(final(approvals)@) == approvals_view(old(approvals)@) + approvals_of(
            perm_list@,
            *block,
            kind.slot(),
            include_expired,
        ),
{
    let k = kind.to_usize();
    let n = perm_list.len();
    let ghost start = approvals_view(approvals@);
    let ghost list = perm_list@;
    let mut i: usize = 0;
    proof {
        assert(start + approvals_of(list.take(0), *block, k as int, include_expired) =~= start);
    }
    while i < n
        invariant
            i <= n,
            n == list.len(),
            list == perm_list@,
            k == kind.slot(),
            approvals_view(approvals@) == start + approvals_of(
                list.take(i as int),
                *block,
                k as int,
                include_expired,
            ),
        decreases n - i,
    {
        proof {
            assert(list.take(i + 1).drop_last() =~= list.take(i as int));
            assert(list.take(i + 1).last() == list[i as int]);
        }
        let perm = perm_list.entry(i);
        let ghost sofar = approvals_view(approvals@);
        let ghost before = approvals_of(list.take(i as int), *block, k as int, include_expired);
        match perm.expirations[k] {
            Some(exp) => {
                if include_expired || !exp.is_expired(block) {
                    match &perm.address {
                        Grantee::Address(a) => {
                            let approval = Cw721Approval { spender: a.copy(), expires: exp };
                            approvals.push(approval);
                            proof {
                                assert(approvals_view(approvals@) =~= sofar.push(approval@));
                                assert(start + before.push(approval@) =~= (start + before).push(
                                    approval@,
                                ));
                            }
                        },
                        Grantee::Public => {},
                    }
                }
            },
            None => {},
        }
        i += 1;
    }
    proof {
        assert(list.take(n as int) =~= list);
    }
}

/// The owner of `token` and, for the owner alone, who may transfer it: the
/// approvals on the token and the approvals on all tokens of the owner.
pub open spec fn get_owner_of_resp_spec(
    l: LedgerView,
    block: BlockInfo,
    token: TokenView,
    viewer: Option<Seq<u8>>,
    include_expired: bool,
) -> (Seq<u8>, Seq<ApprovalView>, Seq<ApprovalView>) {
    if viewer == Some(token.owner) {
        (
            token.owner,
            approvals_of(
                token.permissions,
                block,
                PermissionType::Transfer.slot(),
                include_expired,
            ),
            approvals_of(
                l.all_grants_of(token.owner),
                block,
                PermissionType::Transfer.slot(),
                include_expired,
            ),
        )
    } else {
        (token.owner, Seq::empty(), Seq::empty())
    }
}

/// Returns the owner, token transfer Approval list, and Approval list of everyone
/// that can transfer all of the token owner's tokens
///
/// # Arguments
///
/// * `ledger` - a reference to the ledger
/// * `block` - a reference to the current BlockInfo
/// * `token` - a reference to the token whose owner info is being requested
/// * `viewer` - optional reference to the address requesting to view the owner
/// * `include_expired` - true if the Approval lists should include expired Approvals
pub fn get_owner_of_resp(
    ledger: &Ledger,
    block: &BlockInfo,
    token: &Token,
    viewer: Option<&Address>,
    include_expired: bool,
) -> (r: (Address, Vec<Cw721Approval>, Vec<Cw721Approval>))
    ensures
        (r.0@, approvals_view(r.1@), approvals_view(r.2@)) == get_owner_of_resp_spec(
            ledger@,
            *block,
            token@,
            requester_view(viewer),
            include_expired,
        ),
{
    let owner = token.owner.copy();
    let mut spenders: Vec<Cw721Approval> = Vec::new();
    let mut operators: Vec<Cw721Approval> = Vec::new();
    proof {
        assert(approvals_view(spenders@) =~= Seq::<ApprovalView>::empty());
        assert(approvals_view(operators@) =~= Seq::<ApprovalView>::empty());
    }
    match viewer {
        Some(vwr) => {
            if token.owner.same(vwr) {
                let ghost none = Seq::<ApprovalView>::empty();
                gen_cw721_approvals(
                    block,
                    &token.permissions,
                    &mut spenders,
                    PermissionType::Transfer,
                    include_expired,
                );
                match ledger.all_permissions.get(&token.owner) {
                    Some(entry) => {
                        gen_cw721_approvals(
                            block,
                            &entry.value,
                            &mut operators,
                            PermissionType::Transfer,
                            include_expired,
                        );
                    },
                    None => {
                        assert(approvals_of(
                            Seq::<PermissionView>::empty(),
                            *block,
                            PermissionType::Transfer.slot(),
                            include_expired,
                        ) =~= none);
                    },
                }
                proof {
                    assert(none + approvals_of(
                        token@.permissions,
                        *block,
                        PermissionType::Transfer.slot(),
                        include_expired,
                    ) =~= approvals_of(
                        token@.permissions,
                        *block,
                        PermissionType::Transfer.slot(),
                        include_expired,
                    ));
                    assert(none + approvals_of(
                        ledger@.all_grants_of(token@.owner),
                        *block,
                        PermissionType::Transfer.slot(),
                        include_expired,
                    ) =~= approvals_of(
                        ledger@.all_grants_of(token@.owner),
                        *block,
                        PermissionType::Transfer.slot(),
                        include_expired,
                    ));
                }
            }
        },
        None => {},
    }
    (owner, spenders, operators)
}

/// The owner of the token `token_id`, the approvals to transfer it, and its
/// index. The owner shows where the requester may see it; the approvals show to
/// the owner alone.
pub open spec fn process_cw721_owner_of_spec(
    l: LedgerView,
    config: ConfigView,
    token_id: Seq<char>,
    viewer: Option<ViewerInfoView>,
    include_expired: Option<bool>,
    from_permit: Option<Seq<u8>>,
) -> Result<(Option<Seq<u8>>, Seq<ApprovalView>, u32), ErrorView> {
    match query_token_prep_spec(l, config, token_id, viewer, from_permit) {
        Err(e) => Err(e),
        Ok(prep) => {
            let checked = check_permission_spec(
                l,
                prep.block,
                prep.token,
                token_id,
                prep.viewer_raw,
                PermissionType::ViewOwner,
                Seq::empty(),
                prep.err_msg,
                prep.owner_is_public,
            );
            if checked.0 is Ok {
                let resp = get_owner_of_resp_spec(
                    l,
                    prep.block,
                    prep.token,
                    prep.viewer_raw,
                    match include_expired {
                        Some(b) => b,
                        None => false,
                    },
                );
                Ok((Some(resp.0), resp.1 + resp.2, prep.idx))
            } else {
                Ok((None, Seq::empty(), prep.idx))
            }
        },
    }
}

/// Returns the owner, list of transfer approvals, and token index of the
/// requested token
///
/// # Arguments
///
/// * `ledger` - a reference to the ledger
/// * `config` - a reference to the Config
/// * `token_id` - string slice of the token id
/// * `viewer` - optional address and key making an authenticated query request
/// * `include_expired` - optionally true if the Approval lists should include expired Approvals
/// * `from_permit` - address derived from an Owner permit, if applicable
pub fn process_cw721_owner_of(
    ledger: &Ledger,
    config: &Config,
    token_id: &str,
    viewer: &Option<ViewerInfo>,
    include_expired: Option<bool>,
    from_permit: &Option<Address>,
) -> (r: Result<(Option<Address>, Vec<Cw721Approval>, u32), ContractError>)
    ensures
        match r {
            Ok(found) => process_cw721_owner_of_spec(
                ledger@,
                config@,
                token_id@,
                opt_viewer_view(*viewer),
                include_expired,
                opt_addr_view(*from_permit),
            ) == Ok::<(Option<Seq<u8>>, Seq<ApprovalView>, u32), ErrorView>(
                (opt_addr_view(found.0), approvals_view(found.1@), found.2),
            ),
            Err(e) => process_cw721_owner_of_spec(
                ledger@,
                config@,
                token_id@,
                opt_viewer_view(*viewer),
                include_expired,
                opt_addr_view(*from_permit),
            ) == Err::<(Option<Seq<u8>>, Seq<ApprovalView>, u32), ErrorView>(e@),
        },
{
    let prep_info = match query_token_prep(ledger, config, token_id, viewer, from_permit) {
        Ok(p) => p,
        Err(e) => {
            return Err(e);
        },
    };
    let opt_viewer = match &prep_info.viewer_raw {
        Some(a) => Some(a),
        None => None,
    };
    let mut oper_for: Table<Address> = Table::new();
    match check_permission(
        ledger,
        &prep_info.block,
        &prep_info.token,
        token_id,
        opt_viewer,
        PermissionType::ViewOwner,
        &mut oper_for,
        prep_info.err_msg.as_str(),
        prep_info.owner_is_public,
    ) {
        Ok(()) => {
            let (owner, mut approvals, mut operators) = get_owner_of_resp(
                ledger,
                &prep_info.block,
                &prep_info.token,
                opt_viewer,
                match include_expired {
                    Some(b) => b,
                    None => false,
                },
            );
            let ghost a = approvals_view(approvals@);
            let ghost b = approvals_view(operators@);
            approvals.append(&mut operators);
            assert(approvals_view(approvals@) =~= a + b);
            Ok((Some(owner), approvals, prep_info.idx))
        },
        Err(_) => {
            let none: Vec<Cw721Approval> = Vec::new();
            assert(approvals_view(none@) =~= Seq::<ApprovalView>::empty());
            Ok((None, none, prep_info.idx))
        },
    }
}

/// The owner of the token `token_id` and the approvals to transfer it, for who
/// may see the owner; a denial for who may not.
pub open spec fn query_owner_of_spec(
    l: LedgerView,
    config: ConfigView,
    token_id: Seq<char>,
    viewer: Option<ViewerInfoView>,
    include_expired: Option<bool>,
    from_permit: Option<Seq<u8>>,
) -> Result<AnswerView, ErrorView> {
    match process_cw721_owner_of_spec(l, config, token_id, viewer, include_expired, from_permit) {
        Err(e) => Err(e),
        Ok((may_owner, approvals, idx)) => match may_owner {
            Some(owner) => Ok(AnswerView::OwnerOf { owner, approvals }),
            None => Err(ErrorView::AuthorizationDenied(DenialView::OwnerHidden { token_id })),
        },
    }
}

/// Returns the owner of the input token if the requester is authorized
/// to view it and the transfer approvals on this token if the owner is querying
///
/// # Arguments
///
/// * `ledger` - a reference to the ledger
/// * `config` - a reference to the Config
/// * `token_id` - string slice of the token id
/// * `viewer` - optional address and key making an authenticated query request
/// * `include_expired` - optionally true if the Approval lists should include expired Approvals
/// * `from_permit` - address derived from an Owner permit, if applicable
pub fn query_owner_of(
    ledger: &Ledger,
    config: &Config,
    token_id: &str,
    viewer: &Option<ViewerInfo>,
    include_expired: Option<bool>,
    from_permit: &Option<Address>,
) -> (r: Result<QueryAnswer, ContractError>)
    ensures
        match r {
            Ok(a) => query_owner_of_spec(
                ledger@,
                config@,
                token_id@,
                opt_viewer_view(*viewer),
                include_expired,
                opt_addr_view(*from_permit),
            ) == Ok::<AnswerView, ErrorView>(a@),
            Err(e) => query_owner_of_spec(
                ledger@,
                config@,
                token_id@,
                opt_viewer_view(*viewer),
                include_expired,
                opt_addr_view(*from_permit),
            ) == Err::<AnswerView, ErrorView>(e@),
        },
{
    let (may_owner, approvals, _idx) = match process_cw721_owner_of(
        ledger,
        config,
        token_id,
        viewer,
        include_expired,
        from_permit,
    ) {
        Ok(found) => found,
        Err(e) => {
            return Err(e);
        },
    };
    match may_owner {
        Some(owner) => Ok(QueryAnswer::OwnerOf { owner, approvals }),
        None => Err(
            ContractError::AuthorizationDenied(
                Denial::OwnerHidden { token_id: token_id.to_owned() },
            ),
        ),
    }
}

/// The private metadata of the token `token_id`, for who may see it: the check
/// for the permission to view metadata must pass, and the metadata must be
/// unsealed.
pub open spec fn query_private_meta_spec(
    l: LedgerView,
    config: ConfigView,
    token_id: Seq<char>,
    viewer: Option<ViewerInfoView>,
    from_permit: Option<Seq<u8>>,
) -> Result<AnswerView, ErrorView> {
    match query_token_prep_spec(l, config, token_id, viewer, from_permit) {
        Err(e) => Err(e),
        Ok(prep) => {
            let checked = check_perm_core_spec(
                l,
                prep.block,
                prep.token,
                token_id,
                prep.viewer_raw,
                PermissionType::ViewMetadata.slot(),
                Seq::empty(),
                prep.err_msg,
            );
            match checked.0 {
                Err(e) => Err(e),
                Ok(()) => if !prep.token.unwrapped {
                    Err(ErrorView::SealedMetadata)
                } else {
                    let meta = meta_or_empty(l.priv_meta, prep.idx);
                    Ok(
                        AnswerView::PrivateMetadata {
                            token_uri: meta.token_uri,
                            extension: meta.extension,
                        },
                    )
                },
            }
        },
    }
}

/// Returns the private metadata of a token if permitted to view it
///
/// # Arguments
///
/// * `ledger` - a reference to the ledger
/// * `config` - a reference to the Config
/// * `token_id` - string slice of the token id
/// * `viewer` - optional address and key making an authenticated query request
/// * `from_permit` - address derived from an Owner permit, if applicable
pub fn query_private_meta(
    ledger: &Ledger,
    config: &Config,
    token_id: &str,
    viewer: &Option<ViewerInfo>,
    from_permit: &Option<Address>,
) -> (r: Result<QueryAnswer, ContractError>)
    ensures
        match r {
            Ok(a) => query_private_meta_spec(
                ledger@,
                config@,
                token_id@,
                opt_viewer_view(*viewer),
                opt_addr_view(*from_permit),
            ) == Ok::<AnswerView, ErrorView>(a@),
            Err(e) => query_private_meta_spec(
                ledger@,
                config@,
                token_id@,
                opt_viewer_view(*viewer),
                opt_addr_view(*from_permit),
            ) == Err::<AnswerView, ErrorView>(e@),
        },
{
    let prep_info = match query_token_prep(ledger, config, token_id, viewer, from_permit) {
        Ok(p) => p,
        Err(e) => {
            return Err(e);
        },
    };
    let opt_viewer = match &prep_info.viewer_raw {
        Some(a) => Some(a),
        None => None,
    };
    let mut oper_for: Table<Address> = Table::new();
    match check_perm_core(
        ledger,
        &prep_info.block,
        &prep_info.token,
        token_id,
        opt_viewer,
        PermissionType::ViewMetadata,
        &mut oper_for,
        prep_info.err_msg.as_str(),
    ) {
        Ok(()) => {},
        Err(e) => {
            return Err(e);
        },
    }
    // don't display if private metadata is sealed
    if !prep_info.token.unwrapped {
        return Err(ContractError::SealedMetadata);
    }
    Ok(
        match ledger.priv_meta.get(&prep_info.idx) {
            Some(meta) => QueryAnswer::PrivateMetadata {
                token_uri: copy_opt_string(&meta.value.token_uri),
                extension: copy_opt_string(&meta.value.extension),
            },
            None => QueryAnswer::PrivateMetadata { token_uri: None, extension: None },
        },
    )
}

/// The answers to the questions for the owner and for the public metadata of the
/// token `token_id`, in one.
pub open spec fn query_all_nft_info_spec(
    l: LedgerView,
    config: ConfigView,
    token_id: Seq<char>,
    viewer: Option<ViewerInfoView>,
    include_expired: Option<bool>,
    from_permit: Option<Seq<u8>>,
) -> Result<AnswerView, ErrorView> {
    match process_cw721_owner_of_spec(l, config, token_id, viewer, include_expired, from_permit) {
        Err(e) => Err(e),
        Ok((owner, approvals, idx)) => Ok(
            AnswerView::AllNftInfo {
                access: OwnerOfResponseView { owner, approvals },
                info: value_at::<u32, Metadata>(l.pub_meta, idx),
            },
        ),
    }
}

/// Returns the response of both the OwnerOf and NftInfo queries
///
/// # Arguments
///
/// * `ledger` - a reference to the ledger
/// * `config` - a reference to the Config
/// * `token_id` - string slice of the token id
/// * `viewer` - optional address and key making an authenticated query request
/// * `include_expired` - optionally true if the Approval lists should include expired Approvals
/// * `from_permit` - address derived from an Owner permit, if applicable
pub fn query_all_nft_info(
    ledger: &Ledger,
    config: &Config,
    token_id: &str,
    viewer: &Option<ViewerInfo>,
    include_expired: Option<bool>,
    from_permit: &Option<Address>,
) -> (r: Result<QueryAnswer, ContractError>)
    ensures
        match r {
            Ok(a) => query_all_nft_info_spec(
                ledger@,
                config@,
                token_id@,
                opt_viewer_view(*viewer),
                include_expired,
                opt_addr_view(*from_permit),
            ) == Ok::<AnswerView, ErrorView>(a@),
            Err(e) => query_all_nft_info_spec(
                ledger@,
                config@,
                token_id@,
                opt_viewer_view(*viewer),
                include_expired,
                opt_addr_view(*from_permit),
            ) == Err::<AnswerView, ErrorView>(e@),
        },
{
    let (owner, approvals, idx) = match process_cw721_owner_of(
        ledger,
        config,
        token_id,
        viewer,
        include_expired,
        from_permit,
    ) {
        Ok(found) => found,
        Err(e) => {
            return Err(e);
        },
    };
    let info = match ledger.pub_meta.get(&idx) {
        Some(entry) => Some(entry.value.copy()),
        None => None,
    };
    let access = Cw721OwnerOfResponse { owner, approvals };
    Ok(QueryAnswer::AllNftInfo { access, info })
}

} // verus!
