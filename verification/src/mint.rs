//! Listing new tokens in the registry.

use vstd::prelude::*;
use vstd::string::StringExecFns;
use crate::address::{opt_str_view, Address};
use crate::contract::check_status;
use crate::error::{ContractError, Counter, ErrorView};
use crate::inventory::Inventory;
use crate::msg::{Env, EnvView, HandleAnswer, HandleAnswerView, HandleResponse,
    HandleResponseView, ResponseStatus};
use crate::receiver::{callbacks_view, CallbackView, ReceiverCallback};
use crate::state::{Config, ConfigView, Entry, EntryView, Ledger, LedgerView};
use crate::table::{stored, Value};
use crate::token::{opt_metadata_view, Metadata, MetadataView, Token, TokenView};

verus! {

/// The text of one decimal digit.
pub open spec fn digit_text(d: nat) -> Seq<char> {
    if d == 0 {
        "0"@
    } else if d == 1 {
        "1"@
    } else if d == 2 {
        "2"@
    } else if d == 3 {
        "3"@
    } else if d == 4 {
        "4"@
    } else if d == 5 {
        "5"@
    } else if d == 6 {
        "6"@
    } else if d == 7 {
        "7"@
    } else if d == 8 {
        "8"@
    } else {
        "9"@
    }
}

/// The decimal text of `n`, without leading zeros.
pub open spec fn decimal_text(n: nat) -> Seq<char>
    decreases n,
{
    if n < 10 {
        digit_text(n)
    } else {
        decimal_text(n / 10) + digit_text(n % 10)
    }
}

/// The text of the digit `d`.
fn digit_str(d: u32) -> (s: &'static str)
    requires
        d < 10,
    ensures
        s@ == digit_text(d as nat),
{
    if d == 0 {
        "0"
    } else if d == 1 {
        "1"
    } else if d == 2 {
        "2"
    } else if d == 3 {
        "3"
    } else if d == 4 {
        "4"
    } else if d == 5 {
        "5"
    } else if d == 6 {
        "6"
    } else if d == 7 {
        "7"
    } else if d == 8 {
        "8"
    } else {
        "9"
    }
}

/// Writes `n` in decimal.
pub fn decimal(n: u32) -> (s: String)
    ensures
        s@ == decimal_text(n as nat),
    decreases n,
{
    if n < 10 {
        String::from_str(digit_str(n))
    } else {
        decimal(n / 10).concat(digit_str(n % 10))
    }
}

/// a token to list
#[derive(Debug)]
pub struct List {
    /// optional token id; where there is none, the id is the current token count
    pub token_id: Option<String>,
    /// optionally true if the token is transferable.  Defaults to true if omitted
    pub transferable: Option<bool>,
    /// optional public metadata that can be seen by everyone
    pub public_metadata: Option<Metadata>,
    /// optional private metadata that can only be seen by the owner and whitelist
    pub private_metadata: Option<Metadata>,
}

/// The view of a [`List`].
pub struct ListView {
    pub token_id: Option<Seq<char>>,
    pub transferable: Option<bool>,
    pub public_metadata: Option<MetadataView>,
    pub private_metadata: Option<MetadataView>,
}

impl View for List {
    type V = ListView;

    open spec fn view(&self) -> ListView {
        ListView {
            token_id: opt_str_view(self.token_id),
            transferable: self.transferable,
            public_metadata: opt_metadata_view(self.public_metadata),
            private_metadata: opt_metadata_view(self.private_metadata),
        }
    }
}

/// The views of a list of tokens to list.
pub open spec fn lists_view(l: Seq<List>) -> Seq<ListView> {
    l.map_values(|x: List| x@)
}

/// Metadata may hold a URI or an extension, not both.
pub open spec fn metadata_conflict(m: Option<MetadataView>) -> bool {
    m matches Some(meta) && meta.token_uri is Some && meta.extension is Some
}

/// Makes sure that Metadata does not have both `token_uri` and `extension`
///
/// # Arguments
///
/// * `metadata` - a reference to Metadata
pub fn enforce_metadata_field_exclusion(metadata: &Metadata) -> (r: Result<(), ContractError>)
    ensures
        match r {
            Ok(()) => !metadata_conflict(Some(metadata@)),
            Err(e) => metadata_conflict(Some(metadata@)) && e@ == ErrorView::MetadataConflict,
        },
{
    if metadata.token_uri.is_some() && metadata.extension.is_some() {
        return Err(ContractError::MetadataConflict);
    }
    Ok(())
}

/// Setting the metadata of the token `idx`: fails where the private metadata of a
/// sealed token is to be set and where the metadata holds both a URI and an
/// extension; else stores the metadata, as private metadata where `private`
/// holds and as public metadata where it does not.
pub open spec fn set_metadata_spec(
    l: LedgerView,
    token: TokenView,
    idx: u32,
    private: bool,
    metadata: MetadataView,
) -> (Result<(), ErrorView>, LedgerView) {
    if !token.unwrapped && private {
        (Err(ErrorView::SealedMetadataFixed), l)
    } else if metadata_conflict(Some(metadata)) {
        (Err(ErrorView::MetadataConflict), l)
    } else if private {
        (Ok(()), LedgerView { priv_meta: with_meta(l.priv_meta, idx, Some(metadata)), ..l })
    } else {
        (Ok(()), LedgerView { pub_meta: with_meta(l.pub_meta, idx, Some(metadata)), ..l })
    }
}

/// Sets new metadata
///
/// # Arguments
///
/// * `ledger` - a mutable reference to the ledger
/// * `token` - a reference to the token whose metadata should be updated
/// * `idx` - the token identifier index
/// * `private` - true where the private metadata is being updated
/// * `metadata` - a reference to the new metadata
pub fn set_metadata_impl(
    ledger: &mut Ledger,
    token: &Token,
    idx: u32,
    private: bool,
    metadata: &Metadata,
) -> (r: Result<(), ContractError>)
    ensures
        ({
            let model = set_metadata_spec(old(ledger)@, token@, idx, private, metadata@);
            &&& final(ledger)@ == model.1
            &&& match r {
                Ok(()) => model.0 is Ok,
                Err(e) => model.0 == Err::<(), ErrorView>(e@),
            }
        }),
{
    // do not allow the altering of sealed metadata
    if !token.unwrapped && private {
        return Err(ContractError::SealedMetadataFixed);
    }
    match enforce_metadata_field_exclusion(metadata) {
        Ok(()) => {},
        Err(e) => {
            return Err(e);
        },
    }
    if private {
        ledger.priv_meta.put(Entry { key: idx, value: metadata.copy() });
    } else {
        ledger.pub_meta.put(Entry { key: idx, value: metadata.copy() });
    }
    Ok(())
}

/// `table` with `meta` stored under `idx`, where there is any.
pub open spec fn with_meta(
    table: Seq<EntryView<u32, MetadataView>>,
    idx: u32,
    meta: Option<MetadataView>,
) -> Seq<EntryView<u32, MetadataView>> {
    match meta {
        Some(m) => stored::<Entry<u32, Metadata>>(table, EntryView { key: idx, value: m }),
        None => table,
    }
}

/// Listing one token for `owner`: the index of the new token, the ledger and the
/// configuration after it, or the failure.
///
/// The id is the one supplied, or the decimal text of the current token count.
/// Listing fails where the id is in use, where the token count is at capacity,
/// and where metadata holds both a URI and an extension; a failure changes
/// nothing. The new token gets the next index, belongs to `owner`, carries no
/// grant, and joins the owner's inventory.
pub open spec fn mint_spec(l: LedgerView, config: ConfigView, owner: Seq<u8>, item: ListView) -> (
    Result<u32, ErrorView>,
    LedgerView,
    ConfigView,
) {
    let id = match item.token_id {
        Some(id) => id,
        None => decimal_text(config.token_cnt as nat),
    };
    if l.index_of(id) is Some {
        (Err(ErrorView::DuplicateID { token_id: id }), l, config)
    } else if config.token_cnt == u32::MAX {
        (Err(ErrorView::CounterOverflow(Counter::Tokens)), l, config)
    } else if metadata_conflict(item.public_metadata) || metadata_conflict(item.private_metadata) {
        (Err(ErrorView::MetadataConflict), l, config)
    } else {
        let idx = (config.token_cnt + 1) as u32;
        let token = TokenView {
            owner,
            permissions: Seq::empty(),
            unwrapped: !config.sealed_metadata_is_enabled,
            transferable: match item.transferable {
                Some(t) => t,
                None => true,
            },
        };
        (
            Ok(idx),
            LedgerView {
                map2idx: stored::<Entry<String, u32>>(l.map2idx, EntryView { key: id, value: idx }),
                map2id: stored::<Entry<u32, String>>(l.map2id, EntryView { key: idx, value: id }),
                infos: stored::<Entry<u32, Token>>(l.infos, EntryView { key: idx, value: token }),
                inventories: stored::<Inventory>(
                    l.inventories,
                    l.inventory_of(owner).inserted(idx),
                ),
                pub_meta: with_meta(l.pub_meta, idx, item.public_metadata),
                priv_meta: with_meta(l.priv_meta, idx, item.private_metadata),
                ..l
            },
            ConfigView { token_cnt: idx, ..config },
        )
    }
}

/// Lists one token for `owner` and returns its index.
pub fn mint(ledger: &mut Ledger, config: &mut Config, owner: &Address, item: &List) -> (r: Result<
    u32,
    ContractError,
>)
    ensures
        ({
            let model = mint_spec(old(ledger)@, old(config)@, owner@, item@);
            &&& final(ledger)@ == model.1
            &&& final(config)@ == model.2
            &&& match r {
                Ok(idx) => model.0 == Ok::<u32, ErrorView>(idx),
                Err(e) => model.0 == Err::<u32, ErrorView>(e@),
            }
        }),
        old(ledger)@.consistent(old(config).token_cnt) ==> final(ledger)@.consistent(
            final(config).token_cnt,
        ),
{
    proof {
        if ledger@.consistent(config.token_cnt) {
            crate::laws::law_listing_keeps_consistency(ledger@, config@, owner@, item@);
        }
    }
    let id = match &item.token_id {
        Some(id) => id.clone(),
        None => decimal(config.token_cnt),
    };
    // check if id already exists
    if ledger.map2idx.contains(&id) {
        return Err(ContractError::DuplicateID { token_id: id });
    }
    // increment token count
    if config.token_cnt == u32::MAX {
        return Err(ContractError::CounterOverflow(Counter::Tokens));
    }
    match &item.public_metadata {
        Some(meta) => {
            match enforce_metadata_field_exclusion(meta) {
                Ok(()) => {},
                Err(e) => {
                    return Err(e);
                },
            }
        },
        None => {},
    }
    match &item.private_metadata {
        Some(meta) => {
            match enforce_metadata_field_exclusion(meta) {
                Ok(()) => {},
                Err(e) => {
                    return Err(e);
                },
            }
        },
        None => {},
    }
    let idx = config.token_cnt + 1;
    config.token_cnt = idx;
    // map new token id to its index
    ledger.map2idx.put(Entry { key: id.clone(), value: idx });
    let token = Token::new(
        owner.copy(),
        match item.transferable {
            Some(t) => t,
            None => true,
        },
        !config.sealed_metadata_is_enabled,
    );
    // save new token info
    ledger.infos.put(Entry { key: idx, value: token });
    // add token to owner's list
    let mut inventory = Inventory::new_or_load(ledger, owner);
    inventory.insert(idx);
    inventory.save(ledger);
    // map index to id
    ledger.map2id.put(Entry { key: idx, value: id });
    match &item.public_metadata {
        Some(meta) => {
            ledger.pub_meta.put(Entry { key: idx, value: meta.copy() });
        },
        None => {},
    }
    match &item.private_metadata {
        Some(meta) => {
            ledger.priv_meta.put(Entry { key: idx, value: meta.copy() });
        },
        None => {},
    }
    Ok(idx)
}

/// Listing the tokens of `items` for `owner`, first to last: the ledger and the
/// configuration after the last one, or the first failure.
pub open spec fn mint_all_spec(
    l: LedgerView,
    config: ConfigView,
    owner: Seq<u8>,
    items: Seq<ListView>,
) -> (Result<(), ErrorView>, LedgerView, ConfigView)
    decreases items.len(),
{
    if items.len() == 0 {
        (Ok(()), l, config)
    } else {
        let first = mint_spec(l, config, owner, items[0]);
        match first.0 {
            Err(e) => (Err(e), first.1, first.2),
            Ok(_) => mint_all_spec(first.1, first.2, owner, items.drop_first()),
        }
    }
}

/// Listing tokens as a request: fails where the contract status is above
/// `priority` or where the listing of any token fails, and then changes nothing;
/// else lists every token of `lists` for the sender.
pub open spec fn list_nft_spec(
    l: LedgerView,
    config: ConfigView,
    env: EnvView,
    priority: u8,
    lists: Seq<ListView>,
) -> (Result<HandleResponseView, ErrorView>, LedgerView, ConfigView) {
    if priority < config.status {
        (Err(ErrorView::StatusGateClosed), l, config)
    } else {
        let done = mint_all_spec(l, config, env.sender, lists);
        match done.0 {
            Err(e) => (Err(e), l, config),
            Ok(()) => (
                Ok(
                    HandleResponseView {
                        messages: Seq::empty(),
                        data: Some(HandleAnswerView::ListNft { status: ResponseStatus::Success }),
                    },
                ),
                done.1,
                done.2,
            ),
        }
    }
}

/// Lists tokens for the sender of the request
///
/// # Arguments
///
/// * `ledger` - a mutable reference to the ledger
/// * `env` - Env of contract's environment
/// * `config` - a mutable reference to the Config
/// * `priority` - u8 representation of highest ContractStatus level this action is permitted
/// * `lists` - the tokens to list
pub fn list_nft(
    ledger: &mut Ledger,
    env: &Env,
    config: &mut Config,
    priority: u8,
    lists: Vec<List>,
) -> (r: Result<HandleResponse, ContractError>)
    ensures
        ({
            let model = list_nft_spec(old(ledger)@, old(config)@, env@, priority, lists_view(lists@));
            &&& final(ledger)@ == model.1
            &&& final(config)@ == model.2
            &&& match r {
                Ok(response) => model.0 == Ok::<HandleResponseView, ErrorView>(response@),
                Err(e) => model.0 == Err::<HandleResponseView, ErrorView>(e@),
            }
        }),
        old(ledger)@.consistent(old(config).token_cnt) ==> final(ledger)@.consistent(
            final(config).token_cnt,
        ),
{
    proof {
        if ledger@.consistent(config.token_cnt) {
            crate::laws::law_list_nft_keeps_consistency(
                ledger@,
                config@,
                env@.sender,
                lists_view(lists@),
            );
        }
    }
    match check_status(config.status, priority) {
        Ok(()) => {},
        Err(e) => {
            return Err(e);
        },
    }
    let mut work = ledger.copy();
    let mut settings = config.copy();
    let ghost items = lists_view(lists@);
    let ghost goal = mint_all_spec(ledger@, config@, env@.sender, items);
    let n = lists.len();
    let mut i: usize = 0;
    proof {
        assert(items.skip(0) =~= items);
    }
    while i < n
        invariant
            i <= n,
            n == items.len(),
            items == lists_view(lists@),
            goal == mint_all_spec(old(ledger)@, old(config)@, env@.sender, items),
            goal == mint_all_spec(work@, settings@, env@.sender, items.skip(i as int)),
            ledger@ == old(ledger)@,
            config@ == old(config)@,
            priority >= old(config).status,
        decreases n - i,
    {
        proof {
            assert(items.skip(i as int).len() > 0);
            assert(items.skip(i as int).drop_first() =~= items.skip(i + 1));
        }
        proof {
            assert(items.skip(i as int)[0] == lists@[i as int]@);
        }
        match mint(&mut work, &mut settings, &env.sender, &lists[i]) {
            Ok(_) => {},
            Err(e) => {
                return Err(e);
            },
        }
        i += 1;
    }
    *ledger = work;
    *config = settings;
    let messages: Vec<ReceiverCallback> = Vec::new();
    assert(callbacks_view(messages@) =~= Seq::<CallbackView>::empty());
    Ok(
        HandleResponse {
            messages,
            data: Some(HandleAnswer::ListNft { status: ResponseStatus::Success }),
        },
    )
}

} // verus!
