//! The questions about the tokens of one owner, and the dispatch of all
//! questions.

use vstd::prelude::*;
use std::collections::HashSet;

use vstd::utf8::encode_utf8;
use crate::address::{opt_addr_view, opt_str_view, Address, Grantee, GranteeView};
use crate::error::{unauthorized_message, unauthorized_text, ContractError, Denial, DenialView,
    ErrorView, Violation, ViolationView};
use crate::expiration::BlockInfo;
use crate::inventory::{Inventory, InventoryIter};
use crate::msg::ids_view;
use crate::permission::{check_perm_core, check_perm_core_spec, has_live_grant, requester_view,
    scan_grants};
use crate::query::{limit_or, query_all_nft_info, query_all_nft_info_spec, query_all_tokens,
    query_all_tokens_spec, query_code_hash, query_code_hash_spec, query_config,
    query_contract_creator, query_contract_info, query_is_transferable,
    query_is_transferable_spec, query_nft_info, query_nft_info_spec, query_num_tokens,
    query_num_tokens_spec, query_owner_of, query_owner_of_spec, query_private_meta,
    query_private_meta_spec, stored_block};
use crate::query_msg::{AnswerView, QueryAnswer, QueryMsg, QueryMsgView, QueryWithPermit,
    QueryWithPermitView};
use crate::state::{Config, ConfigView, Ledger, LedgerView};
use crate::table::{has_key, lookup, stored, Key, Record, Table, Value};
use crate::token::{AuthList, AuthListView, PermissionType, PermissionView, TokenView};
use crate::viewing_key::{check_key, key_matches};

verus! {

/// Who asks about the tokens of `owner`: the address of a permit where there is
/// one; else, where a viewing key is given, the viewer whose key it is, or the
/// owner whose key it is; else nobody. A viewing key that is neither the
/// viewer's nor the owner's is an error.
pub open spec fn identify_spec(
    l: LedgerView,
    owner: Seq<u8>,
    viewer: Option<Seq<u8>>,
    viewing_key: Option<Seq<char>>,
    from_permit: Option<Seq<u8>>,
) -> Result<Option<Seq<u8>>, ErrorView> {
    if from_permit is Some {
        Ok(from_permit)
    } else {
        match viewing_key {
            Some(key) => {
                if viewer is Some && key_matches(l, viewer->0, encode_utf8(key)) {
                    Ok(viewer)
                } else if key_matches(l, owner, encode_utf8(key)) {
                    Ok(Some(owner))
                } else {
                    Err(ErrorView::WrongViewingKey)
                }
            },
            None => Ok(None),
        }
    }
}

/// Determines the querier of a question about the tokens of `owner`.
pub fn identify(
    ledger: &Ledger,
    owner: &Address,
    viewer: &Option<Address>,
    viewing_key: &Option<String>,
    from_permit: &Option<Address>,
) -> (r: Result<Option<Address>, ContractError>)
    ensures
        match r {
            Ok(who) => identify_spec(
                ledger@,
                owner@,
                opt_addr_view(*viewer),
                opt_str_view(*viewing_key),
                opt_addr_view(*from_permit),
            ) == Ok::<Option<Seq<u8>>, ErrorView>(opt_addr_view(who)),
            Err(e) => identify_spec(
                ledger@,
                owner@,
                opt_addr_view(*viewer),
                opt_str_view(*viewing_key),
                opt_addr_view(*from_permit),
            ) == Err::<Option<Seq<u8>>, ErrorView>(e@),
        },
{
    // permit tells you who is querying
    match from_permit {
        Some(pmt) => {
            return Ok(Some(pmt.copy()));
        },
        None => {},
    }
    // no permit, so check if a key was provided and who it matches
    match viewing_key {
        Some(key) => {
            // only keep the viewer address if the viewing key matches
            match viewer {
                Some(v) => {
                    if check_key(ledger, v, key.as_str()).is_ok() {
                        return Ok(Some(v.copy()));
                    }
                },
                None => {},
            }
            // check if the key matches the owner, and error if it fails this last chance
            match check_key(ledger, owner, key.as_str()) {
                Ok(()) => Ok(Some(owner.copy())),
                Err(e) => Err(e),
            }
        },
        // no permit, no viewing key, so querier is unknown
        None => Ok(None),
    }
}

/// Whether the querier may learn that the token `idx` belongs to its owner:
/// always where `known_pass` holds; else where the token is stored and the check
/// for the permission to view the owner passes.
pub open spec fn may_list(
    l: LedgerView,
    block: BlockInfo,
    querier: Option<Seq<u8>>,
    known_pass: bool,
    idx: u32,
    id: Seq<char>,
) -> bool {
    known_pass || (l.token_at(idx) is Some && check_perm_core_spec(
        l,
        block,
        l.token_at(idx)->0,
        id,
        querier,
        PermissionType::ViewOwner.slot(),
        Seq::empty(),
        Seq::empty(),
    ).0 is Ok)
}

/// The ids of the tokens of `remaining` that have an id and that the querier may
/// list, in the order of `remaining`, `room` of them at most.
pub open spec fn page_of(
    l: LedgerView,
    block: BlockInfo,
    querier: Option<Seq<u8>>,
    known_pass: bool,
    remaining: Seq<u32>,
    room: nat,
) -> Seq<Seq<char>>
    decreases remaining.len(),
{
    if remaining.len() == 0 || room == 0 {
        Seq::empty()
    } else {
        let idx = remaining[0];
        if l.id_of(idx) is Some && may_list(l, block, querier, known_pass, idx, l.id_of(idx)->0) {
            seq![l.id_of(idx)->0] + page_of(
                l,
                block,
                querier,
                known_pass,
                remaining.drop_first(),
                (room - 1) as nat,
            )
        } else {
            page_of(l, block, querier, known_pass, remaining.drop_first(), room)
        }
    }
}

/// What has to hold of the token `after` before a page can start behind it: the
/// token is known, and the querier who is not known to pass may see its owner.
pub open spec fn start_gate(
    l: LedgerView,
    config: ConfigView,
    block: BlockInfo,
    querier: Option<Seq<u8>>,
    known_pass: bool,
    after: Seq<char>,
) -> Result<u32, ErrorView> {
    match l.index_of(after) {
        None => Err(
            if config.token_supply_is_public {
                ErrorView::NotFound { token_id: after }
            } else if known_pass {
                ErrorView::NotInInventory { token_id: after }
            } else {
                ErrorView::AuthorizationDenied(
                    DenialView::NotAuthorized { message: unauthorized_text(after) },
                )
            },
        ),
        Some(idx) => if known_pass {
            Ok(idx)
        } else {
            match l.token_at(idx) {
                None => Err(ErrorView::InvariantViolation(ViolationView::TokenStorageCorrupt)),
                Some(token) => match check_perm_core_spec(
                    l,
                    block,
                    token,
                    after,
                    querier,
                    PermissionType::ViewOwner.slot(),
                    Seq::empty(),
                    unauthorized_text(after),
                ).0 {
                    Err(e) => Err(e),
                    Ok(()) => Ok(idx),
                },
            }
        },
    }
}

/// A page of the tokens of `owner` for the querier `querier`.
///
/// The page holds the ids of the tokens of the owner's inventory that the querier
/// may list, in the order of the inventory: those behind `start_after`, or all
/// where there is no `start_after`; `limit` of them at most, 30 where there is no
/// `limit`. The owner, and everyone where the owner's ownership is public, may
/// list every token; others those that the check for the permission to view the
/// owner lets them see. A `start_after` that the inventory does not hold is an
/// error.
pub open spec fn tokens_page_spec(
    l: LedgerView,
    config: ConfigView,
    owner: Seq<u8>,
    querier: Option<Seq<u8>>,
    start_after: Option<Seq<char>>,
    limit: Option<u32>,
) -> Result<AnswerView, ErrorView> {
    let cut_off = limit_or(limit, 30);
    if cut_off == 0 {
        Ok(AnswerView::TokenList { tokens: Seq::empty() })
    } else {
        let inv = l.inventory_of(owner);
        let known_pass = querier == Some(owner) || l.ownership_is_public(
            owner,
            config.owner_is_public,
        );
        let block = if known_pass {
            BlockInfo { height: 1, time: 1 }
        } else {
            crate::query::query_block(l)
        };
        match start_after {
            None => Ok(
                AnswerView::TokenList {
                    tokens: page_of(l, block, querier, known_pass, inv.tokens, cut_off as nat),
                },
            ),
            Some(after) => match start_gate(l, config, block, querier, known_pass, after) {
                Err(e) => Err(e),
                Ok(idx) => if !inv.tokens.contains(idx) {
                    Err(ErrorView::NotInInventory { token_id: after })
                } else {
                    Ok(
                        AnswerView::TokenList {
                            tokens: page_of(
                                l,
                                block,
                                querier,
                                known_pass,
                                inv.after(idx),
                                cut_off as nat,
                            ),
                        },
                    )
                },
            },
        }
    }
}

/// The answer to the question for the tokens of `owner`: the querier is
/// determined as [`identify_spec`] says, and gets the page of
/// [`tokens_page_spec`].
pub open spec fn query_tokens_spec(
    l: LedgerView,
    config: ConfigView,
    owner: Seq<u8>,
    viewer: Option<Seq<u8>>,
    viewing_key: Option<Seq<char>>,
    start_after: Option<Seq<char>>,
    limit: Option<u32>,
    from_permit: Option<Seq<u8>>,
) -> Result<AnswerView, ErrorView> {
    match identify_spec(l, owner, viewer, viewing_key, from_permit) {
        Err(e) => Err(e),
        Ok(querier) => tokens_page_spec(l, config, owner, querier, start_after, limit),
    }
}

/// Returns a page of the tokens of `owner` for the querier `querier`.
pub fn tokens_page(
    ledger: &Ledger,
    config: &Config,
    owner: &Address,
    querier: &Option<Address>,
    start_after: &Option<String>,
    limit: Option<u32>,
) -> (r: Result<QueryAnswer, ContractError>)
    ensures
        match r {
            Ok(a) => tokens_page_spec(
                ledger@,
                config@,
                owner@,
                opt_addr_view(*querier),
                opt_str_view(*start_after),
                limit,
            ) == Ok::<AnswerView, ErrorView>(a@),
            Err(e) => tokens_page_spec(
                ledger@,
                config@,
                owner@,
                opt_addr_view(*querier),
                opt_str_view(*start_after),
                limit,
            ) == Err::<AnswerView, ErrorView>(e@),
        },
{
    let cut_off = match limit {
        Some(n) => n,
        None => 30,
    };
    // exit early if the limit is 0
    if cut_off == 0 {
        let tokens: Vec<String> = Vec::new();
        assert(ids_view(tokens@) =~= Seq::<Seq<char>>::empty());
        return Ok(QueryAnswer::TokenList { tokens });
    }
    let who = match querier {
        Some(a) => Some(a),
        None => None,
    };
    let is_owner = match who {
        Some(a) => a.same(owner),
        None => false,
    };
    // get list of owner's tokens
    let own_inv = Inventory::new_or_load(ledger, owner);
    // if querier is different than the owner, check if ownership is public
    let known_pass = if !is_owner {
        match ledger.owner_priv.get(owner) {
            Some(entry) => entry.value,
            None => config.owner_is_public,
        }
    } else {
        true
    };
    let block = if !known_pass {
        stored_block(ledger)
    } else {
        BlockInfo { height: 1, time: 1 }
    };
    let mut inv_iter = match start_after {
        Some(after) => {
            let idx = match ledger.map2idx.get(after) {
                Some(entry) => entry.value,
                None => {
                    // if token supply is public let them know if the token id does not exist
                    return Err(
                        if config.token_supply_is_public {
                            ContractError::NotFound { token_id: after.clone() }
                        } else if known_pass {
                            ContractError::NotInInventory { token_id: after.clone() }
                        } else {
                            ContractError::AuthorizationDenied(
                                Denial::NotAuthorized {
                                    message: unauthorized_message(after.as_str()),
                                },
                            )
                        },
                    );
                },
            };
            // make sure querier is allowed to know if the supplied token belongs to owner
            if !known_pass {
                let token = match ledger.infos.get(&idx) {
                    Some(entry) => &entry.value,
                    None => {
                        return Err(
                            ContractError::InvariantViolation(Violation::TokenStorageCorrupt),
                        );
                    },
                };
                let unauth_err = unauthorized_message(after.as_str());
                let mut oper_for: Table<Address> = Table::new();
                match check_perm_core(
                    ledger,
                    &block,
                    token,
                    after.as_str(),
                    who,
                    PermissionType::ViewOwner,
                    &mut oper_for,
                    unauth_err.as_str(),
                ) {
                    Ok(()) => {},
                    Err(e) => {
                        return Err(e);
                    },
                }
            }
            match InventoryIter::start_after(
                &own_inv,
                idx,
                ContractError::NotInInventory { token_id: after.clone() },
            ) {
                Ok(it) => it,
                Err(e) => {
                    return Err(e);
                },
            }
        },
        None => InventoryIter::new(&own_inv),
    };
    let mut tokens: Vec<String> = Vec::new();
    let mut count: u32 = 0;
    let ghost goal = page_of(
        ledger@,
        block,
        opt_addr_view(*querier),
        known_pass,
        inv_iter.remaining(),
        cut_off as nat,
    );
    proof {
        assert(ids_view(tokens@) =~= Seq::<Seq<char>>::empty());
        assert(Seq::<Seq<char>>::empty() + goal =~= goal);
    }
    assert(tokens_page_spec(
        ledger@,
        config@,
        owner@,
        opt_addr_view(*querier),
        opt_str_view(*start_after),
        limit,
    ) == Ok::<AnswerView, ErrorView>(AnswerView::TokenList { tokens: goal }));
    while count < cut_off
        invariant
            count <= cut_off,
            tokens_page_spec(
                ledger@,
                config@,
                owner@,
                opt_addr_view(*querier),
                opt_str_view(*start_after),
                limit,
            ) == Ok::<AnswerView, ErrorView>(AnswerView::TokenList { tokens: goal }),
            who == match querier {
                Some(a) => Some(a),
                None => None::<&Address>,
            },
            goal == ids_view(tokens@) + page_of(
                ledger@,
                block,
                opt_addr_view(*querier),
                known_pass,
                inv_iter.remaining(),
                (cut_off - count) as nat,
            ),
        decreases inv_iter.remaining().len(),
    {
        let ghost before = ids_view(tokens@);
        let ghost left = inv_iter.remaining();
        let idx = match inv_iter.next() {
            Some(idx) => idx,
            None => {
                proof {
                    assert(page_of(
                        ledger@,
                        block,
                        opt_addr_view(*querier),
                        known_pass,
                        left,
                        (cut_off - count) as nat,
                    ) =~= Seq::<Seq<char>>::empty());
                    assert(before + Seq::<Seq<char>>::empty() =~= before);
                }
                return Ok(QueryAnswer::TokenList { tokens });
            },
        };
        proof {
            assert(left.drop_first() =~= left.skip(1));
        }
        match ledger.map2id.get(&idx) {
            Some(entry) => {
                let id = &entry.value;
                let mut list_it = known_pass;
                // only check permissions if not public or owner
                if !known_pass {
                    match ledger.infos.get(&idx) {
                        Some(token) => {
                            let mut oper_for: Table<Address> = Table::new();
                            list_it = check_perm_core(
                                ledger,
                                &block,
                                &token.value,
                                id.as_str(),
                                who,
                                PermissionType::ViewOwner,
                                &mut oper_for,
                                "",
                            ).is_ok();
                            proof {
                                lemma_verdict_ignores_text(
                                    ledger@,
                                    block,
                                    token@.value,
                                    id@,
                                    opt_addr_view(*querier),
                                    PermissionType::ViewOwner.slot(),
                                    ""@,
                                    Seq::empty(),
                                );
                            }
                        },
                        None => {},
                    }
                }
                if list_it {
                    tokens.push(id.clone());
                    proof {
                        let rest = page_of(
                            ledger@,
                            block,
                            opt_addr_view(*querier),
                            known_pass,
                            left.drop_first(),
                            (cut_off - count - 1) as nat,
                        );
                        assert(ids_view(tokens@) =~= before.push(id@));
                        assert(before + (seq![id@] + rest) =~= before.push(id@) + rest);
                    }
                    count += 1;
                }
            },
            None => {},
        }
    }
    proof {
        assert(page_of(
            ledger@,
            block,
            opt_addr_view(*querier),
            known_pass,
            inv_iter.remaining(),
            0nat,
        ) =~= Seq::<Seq<char>>::empty());
        assert(ids_view(tokens@) + Seq::<Seq<char>>::empty() =~= ids_view(tokens@));
    }
    Ok(QueryAnswer::TokenList { tokens })
}

/// Whether the check passes does not depend on the text that a denial would
/// carry.
pub proof fn lemma_verdict_ignores_text(
    l: LedgerView,
    block: BlockInfo,
    token: TokenView,
    token_id: Seq<char>,
    requester: Option<Seq<u8>>,
    k: int,
    text_a: Seq<char>,
    text_b: Seq<char>,
)
    ensures
        check_perm_core_spec(l, block, token, token_id, requester, k, Seq::empty(), text_a).0
            is Ok == check_perm_core_spec(
            l,
            block,
            token,
            token_id,
            requester,
            k,
            Seq::empty(),
            text_b,
        ).0 is Ok,
{
}

/// Returns an optionally paginated list of all tokens belonging to
/// the owner address.  It will only display the tokens that the querier has view_owner
/// approval
///
/// # Arguments
///
/// * `ledger` - a reference to the ledger
/// * `config` - a reference to the Config
/// * `owner` - a reference to the address whose tokens should be displayed
/// * `viewer` - optional address of the querier if different from the owner
/// * `viewing_key` - optional viewing key String
/// * `start_after` - optionally only display token ids that come after this one in the
///                   owner's inventory
/// * `limit` - optional max number of tokens to display
/// * `from_permit` - address derived from an Owner permit, if applicable
pub fn query_tokens(
    ledger: &Ledger,
    config: &Config,
    owner: &Address,
    viewer: &Option<Address>,
    viewing_key: &Option<String>,
    start_after: &Option<String>,
    limit: Option<u32>,
    from_permit: &Option<Address>,
) -> (r: Result<QueryAnswer, ContractError>)
    ensures
        match r {
            Ok(a) => query_tokens_spec(
                ledger@,
                config@,
                owner@,
                opt_addr_view(*viewer),
                opt_str_view(*viewing_key),
                opt_str_view(*start_after),
                limit,
                opt_addr_view(*from_permit),
            ) == Ok::<AnswerView, ErrorView>(a@),
            Err(e) => query_tokens_spec(
                ledger@,
                config@,
                owner@,
                opt_addr_view(*viewer),
                opt_str_view(*viewing_key),
                opt_str_view(*start_after),
                limit,
                opt_addr_view(*from_permit),
            ) == Err::<AnswerView, ErrorView>(e@),
        },
{
    // determine the querier
    let querier = match identify(ledger, owner, viewer, viewing_key, from_permit) {
        Ok(q) => q,
        Err(e) => {
            return Err(e);
        },
    };
    tokens_page(ledger, config, owner, &querier, start_after, limit)
}

/// The tokens that `lists` names for `grantee` and the slot `k`.
pub open spec fn listed_for(lists: Seq<AuthListView>, grantee: GranteeView, k: int) -> Seq<u32> {
    match lookup::<AuthList>(lists, grantee) {
        Some(a) => a.tokens[k],
        None => Seq::empty(),
    }
}

/// `acc` with the indices of `more` that it lacks, in the order of `more`.
pub open spec fn gathered(acc: Seq<u32>, more: Seq<u32>) -> Seq<u32>
    decreases more.len(),
{
    if more.len() == 0 {
        acc
    } else {
        gathered(stored::<u32>(acc, more[0]), more.drop_first())
    }
}

/// The tokens of `owner` whose ownership the querier might see through a grant
/// on the token: those that the owner's lists name for the querier and for
/// everyone, each once.
pub open spec fn candidates(l: LedgerView, owner: Seq<u8>, querier: Option<Seq<u8>>) -> Seq<u32> {
    let lists = l.auth_lists_of(owner);
    let k = PermissionType::ViewOwner.slot();
    let mine = match querier {
        Some(a) => gathered(Seq::empty(), listed_for(lists, GranteeView::Address(a), k)),
        None => Seq::empty(),
    };
    gathered(mine, listed_for(lists, GranteeView::Public, k))
}

/// The number of tokens of `tokens` that are stored and carry a live grant to
/// view the owner, for the querier or for everyone.
pub open spec fn live_count(
    l: LedgerView,
    block: BlockInfo,
    querier: Option<Seq<u8>>,
    tokens: Seq<u32>,
) -> nat
    decreases tokens.len(),
{
    if tokens.len() == 0 {
        0
    } else {
        let before = live_count(l, block, querier, tokens.drop_last());
        if l.token_at(tokens.last()) is Some && has_live_grant(
            l.token_at(tokens.last())->0.permissions,
            querier,
            PermissionType::ViewOwner.slot(),
            block,
        ) {
            before + 1
        } else {
            before
        }
    }
}

/// `n`, or the largest `u32` where `n` is larger.
pub open spec fn saturated(n: nat) -> u32 {
    if n > u32::MAX {
        u32::MAX
    } else {
        n as u32
    }
}

/// The number of tokens of `owner` that the querier `querier` may know of: all
/// of the inventory for the owner, for everyone where the owner's ownership is
/// public, and for who holds a live grant of the owner to view the owner of all
/// tokens; for others, the tokens on which a live grant lets them see the owner.
pub open spec fn owner_count_spec(
    l: LedgerView,
    config: ConfigView,
    owner: Seq<u8>,
    querier: Option<Seq<u8>>,
) -> AnswerView {
    let inv = l.inventory_of(owner);
    let pass = querier == Some(owner) || l.ownership_is_public(owner, config.owner_is_public);
    let block = if pass {
        BlockInfo { height: 1, time: 1 }
    } else {
        crate::query::query_block(l)
    };
    if pass || has_live_grant(
        l.all_grants_of(owner),
        querier,
        PermissionType::ViewOwner.slot(),
        block,
    ) {
        AnswerView::NumTokens { count: saturated(inv.tokens.len()) }
    } else {
        AnswerView::NumTokens {
            count: saturated(live_count(l, block, querier, candidates(l, owner, querier))),
        }
    }
}

/// The answer to the question for the number of tokens of `owner`: the querier
/// is determined as [`identify_spec`] says, and gets the count of
/// [`owner_count_spec`].
pub open spec fn query_num_owner_tokens_spec(
    l: LedgerView,
    config: ConfigView,
    owner: Seq<u8>,
    viewer: Option<Seq<u8>>,
    viewing_key: Option<Seq<char>>,
    from_permit: Option<Seq<u8>>,
) -> Result<AnswerView, ErrorView> {
    match identify_spec(l, owner, viewer, viewing_key, from_permit) {
        Err(e) => Err(e),
        Ok(querier) => Ok(owner_count_spec(l, config, owner, querier)),
    }
}

/// `seen` holds the indices of `acc`, and `count` is the number of those that
/// carry a live grant.
spec fn counted(
    l: LedgerView,
    block: BlockInfo,
    querier: Option<Seq<u8>>,
    acc: Seq<u32>,
    seen: Set<u32>,
    count: u32,
) -> bool {
    &&& forall|x: u32| seen.contains(x) <==> has_key::<u32>(acc, x)
    &&& count == saturated(live_count(l, block, querier, acc))
}

/// Storing an index in a list of indices adds it at the end where it is new, and
/// changes nothing where it is not.
proof fn lemma_stored_index(acc: Seq<u32>, x: u32)
    ensures
        has_key::<u32>(acc, x) ==> stored::<u32>(acc, x) == acc,
        !has_key::<u32>(acc, x) ==> stored::<u32>(acc, x) == acc.push(x),
        forall|y: u32| has_key::<u32>(stored::<u32>(acc, x), y) <==> has_key::<u32>(acc, y) || y == x,
{
    let after = stored::<u32>(acc, x);
    if has_key::<u32>(acc, x) {
        assert(after =~= acc);
    } else {
        assert(after[acc.len() as int] == x);
    }
    assert forall|y: u32| has_key::<u32>(after, y) <==> has_key::<u32>(acc, y) || y == x by {
        if has_key::<u32>(acc, y) {
            let i = choose|i: int| 0 <= i < acc.len() && u32::key_of(#[trigger] acc[i]) == y;
            assert(u32::key_of(after[i]) == y);
        }
        if has_key::<u32>(after, y) {
            let i = choose|i: int| 0 <= i < after.len() && u32::key_of(#[trigger] after[i]) == y;
            if i < acc.len() {
                assert(u32::key_of(acc[i]) == y);
            }
        }
    }
}

/// Counts the tokens of `more` that were not seen before and carry a live grant
/// to view the owner, and notes every token of `more` as seen.
fn count_unseen(
    ledger: &Ledger,
    block: &BlockInfo,
    who: Option<&Address>,
    more: &Vec<u32>,
    seen: &mut HashSet<u32>,
    count: &mut u32,
    Ghost(acc): Ghost<Seq<u32>>,
)
    requires
        counted(ledger@, *block, requester_view(who), acc, old(seen)@, *old(count)),
    ensures
        counted(
            ledger@,
            *block,
            requester_view(who),
            gathered(acc, more@),
            final(seen)@,
            *final(count),
        ),
{
    let ghost mut cur = acc;
    let mut i: usize = 0;
    proof {
        assert(more@.skip(0) =~= more@);
    }
    while i < more.len()
        invariant
            i <= more@.len(),
            gathered(acc, more@) == gathered(cur, more@.skip(i as int)),
            counted(ledger@, *block, requester_view(who), cur, seen@, *count),
        decreases more@.len() - i,
    {
        let idx = more[i];
        proof {
            assert(more@.skip(i as int).drop_first() =~= more@.skip(i + 1));
            lemma_stored_index(cur, idx);
        }
        if seen.insert(idx) {
            proof {
                assert(cur.push(idx).drop_last() =~= cur);
            }
            match ledger.infos.get(&idx) {
                Some(token) => {
                    if scan_grants(&token.value.permissions, who, PermissionType::ViewOwner, block).live
                        {
                        if *count < u32::MAX {
                            *count += 1;
                        }
                    }
                },
                None => {},
            }
        }
        proof {
            cur = stored::<u32>(cur, idx);
        }
        i += 1;
    }
}

/// `n` as a `u32`, or the largest `u32` where `n` is larger.
fn saturate(n: usize) -> (r: u32)
    ensures
        r == saturated(n as nat),
{
    if n > 0xffff_ffff {
        u32::MAX
    } else {
        n as u32
    }
}

/// Returns the number of tokens of `owner` that the querier `querier` may know of.
pub fn owner_count(ledger: &Ledger, config: &Config, owner: &Address, querier: &Option<Address>)
    -> (a: QueryAnswer)
    ensures
        a@ == owner_count_spec(ledger@, config@, owner@, opt_addr_view(*querier)),
{
    let who = match querier {
        Some(a) => Some(a),
        None => None,
    };
    let is_owner = match who {
        Some(a) => a.same(owner),
        None => false,
    };
    // if querier is different than the owner, check if ownership is public
    let mut known_pass = if !is_owner {
        match ledger.owner_priv.get(owner) {
            Some(entry) => entry.value,
            None => config.owner_is_public,
        }
    } else {
        true
    };
    let block = if !known_pass {
        stored_block(ledger)
    } else {
        BlockInfo { height: 1, time: 1 }
    };
    if !known_pass {
        // check if the ownership has been made public or the sender has ALL permission.
        match ledger.all_permissions.get(owner) {
            Some(list) => {
                known_pass = scan_grants(&list.value, who, PermissionType::ViewOwner, &block).live;
            },
            None => {
                assert(lookup::<crate::token::Permission>(
                    Seq::<PermissionView>::empty(),
                    GranteeView::Public,
                ) is None);
            },
        }
    }
    // if it is either the owner, ownership is public, or the querier has inventory-wide view owner permission,
    // let them see the full count
    if known_pass {
        let n = match ledger.inventories.get(owner) {
            Some(inv) => inv.count(),
            None => 0,
        };
        return QueryAnswer::NumTokens { count: saturate(n) };
    }
    // count the tokens that might have viewable ownership for this querier: those that the
    // owner's lists name for the querier and for everyone, each once, where the grant is live
    let mut seen: HashSet<u32> = HashSet::new();
    let mut count: u32 = 0;
    let exp_idx = PermissionType::ViewOwner.to_usize();
    let ghost mut acc = Seq::<u32>::empty();
    match ledger.auth_lists.get(owner) {
        Some(entry) => {
            match who {
                Some(a) => {
                    match entry.value.get(&Grantee::Address(a.copy())) {
                        Some(auth) => {
                            count_unseen(
                                ledger,
                                &block,
                                who,
                                &auth.tokens[exp_idx],
                                &mut seen,
                                &mut count,
                                Ghost(acc),
                            );
                            proof {
                                acc = gathered(acc, auth.tokens[exp_idx as int]@);
                            }
                        },
                        None => {},
                    }
                },
                None => {},
            }
            match entry.value.get(&Grantee::Public) {
                Some(auth) => {
                    count_unseen(
                        ledger,
                        &block,
                        who,
                        &auth.tokens[exp_idx],
                        &mut seen,
                        &mut count,
                        Ghost(acc),
                    );
                    proof {
                        acc = gathered(acc, auth.tokens[exp_idx as int]@);
                    }
                },
                None => {},
            }
        },
        None => {
            assert(lookup::<AuthList>(Seq::<AuthListView>::empty(), GranteeView::Public) is None);
        },
    }
    assert(acc == candidates(ledger@, owner@, opt_addr_view(*querier)));
    QueryAnswer::NumTokens { count }
}

/// Returns the number of tokens that the querier has permission to
/// view ownership and that belong to the specified address
///
/// # Arguments
///
/// * `ledger` - a reference to the ledger
/// * `config` - a reference to the Config
/// * `owner` - a reference to the address whose tokens should be displayed
/// * `viewer` - optional address of the querier if different from the owner
/// * `viewing_key` - optional viewing key String
/// * `from_permit` - address derived from an Owner permit, if applicable
pub fn query_num_owner_tokens(
    ledger: &Ledger,
    config: &Config,
    owner: &Address,
    viewer: &Option<Address>,
    viewing_key: &Option<String>,
    from_permit: &Option<Address>,
) -> (r: Result<QueryAnswer, ContractError>)
    ensures
        match r {
            Ok(a) => query_num_owner_tokens_spec(
                ledger@,
                config@,
                owner@,
                opt_addr_view(*viewer),
                opt_str_view(*viewing_key),
                opt_addr_view(*from_permit),
            ) == Ok::<AnswerView, ErrorView>(a@),
            Err(e) => query_num_owner_tokens_spec(
                ledger@,
                config@,
                owner@,
                opt_addr_view(*viewer),
                opt_str_view(*viewing_key),
                opt_addr_view(*from_permit),
            ) == Err::<AnswerView, ErrorView>(e@),
        },
{
    // determine the querier
    let querier = match identify(ledger, owner, viewer, viewing_key, from_permit) {
        Ok(q) => q,
        Err(e) => {
            return Err(e);
        },
    };
    Ok(owner_count(ledger, config, owner, &querier))
}

/// The answer to a question. No question looks at the contract status.
pub open spec fn query_spec(l: LedgerView, config: ConfigView, msg: QueryMsgView) -> Result<
    AnswerView,
    ErrorView,
> {
    match msg {
        QueryMsgView::ContractInfo => Ok(AnswerView::ContractInfo { name: config.name }),
        QueryMsgView::ContractCreator => Ok(AnswerView::ContractCreator { creator: l.creator }),
        QueryMsgView::ContractConfig => Ok(
            AnswerView::ContractConfig {
                token_supply_is_public: config.token_supply_is_public,
                owner_is_public: config.owner_is_public,
            },
        ),
        QueryMsgView::RegisteredCodeHash { contract } => Ok(query_code_hash_spec(l, contract)),
        QueryMsgView::NumTokens { viewer } => query_num_tokens_spec(l, config, viewer, None),
        QueryMsgView::AllTokens { viewer, start_after, limit } => query_all_tokens_spec(
            l,
            config,
            viewer,
            start_after,
            limit,
            None,
        ),
        QueryMsgView::OwnerOf { token_id, viewer, include_expired } => query_owner_of_spec(
            l,
            config,
            token_id,
            viewer,
            include_expired,
            None,
        ),
        QueryMsgView::NftInfo { token_id } => query_nft_info_spec(l, config, token_id),
        QueryMsgView::PrivateMetadata { token_id, viewer } => query_private_meta_spec(
            l,
            config,
            token_id,
            viewer,
            None,
        ),
        QueryMsgView::AllNftInfo { token_id, viewer, include_expired } => query_all_nft_info_spec(
            l,
            config,
            token_id,
            viewer,
            include_expired,
            None,
        ),
        QueryMsgView::Tokens {
            owner,
            viewer,
            viewing_key,
            start_after,
            limit,
        } => query_tokens_spec(l, config, owner, viewer, viewing_key, start_after, limit, None),
        QueryMsgView::NumTokensOfOwner {
            owner,
            viewer,
            viewing_key,
        } => query_num_owner_tokens_spec(l, config, owner, viewer, viewing_key, None),
        QueryMsgView::IsTransferable { token_id } => query_is_transferable_spec(
            l,
            config,
            token_id,
        ),
    }
}

/// Answers a question
///
/// # Arguments
///
/// * `ledger` - reference to the ledger
/// * `config` - reference to the Config
/// * `msg` - QueryMsg passed in with the query call
pub fn query(ledger: &Ledger, config: &Config, msg: QueryMsg) -> (r: Result<
    QueryAnswer,
    ContractError,
>)
    ensures
        match r {
            Ok(a) => query_spec(ledger@, config@, msg@) == Ok::<AnswerView, ErrorView>(a@),
            Err(e) => query_spec(ledger@, config@, msg@) == Err::<AnswerView, ErrorView>(e@),
        },
{
    let no_permit: Option<Address> = None;
    match msg {
        QueryMsg::ContractInfo {  } => Ok(query_contract_info(config)),
        QueryMsg::ContractCreator {  } => Ok(query_contract_creator(ledger)),
        QueryMsg::ContractConfig {  } => Ok(query_config(config)),
        QueryMsg::RegisteredCodeHash { contract } => Ok(query_code_hash(ledger, &contract)),
        QueryMsg::NumTokens { viewer } => query_num_tokens(ledger, config, &viewer, &no_permit),
        QueryMsg::AllTokens { viewer, start_after, limit } => query_all_tokens(
            ledger,
            config,
            &viewer,
            &start_after,
            limit,
            &no_permit,
        ),
        QueryMsg::OwnerOf { token_id, viewer, include_expired } => query_owner_of(
            ledger,
            config,
            token_id.as_str(),
            &viewer,
            include_expired,
            &no_permit,
        ),
        QueryMsg::NftInfo { token_id } => query_nft_info(ledger, config, token_id.as_str()),
        QueryMsg::PrivateMetadata { token_id, viewer } => query_private_meta(
            ledger,
            config,
            token_id.as_str(),
            &viewer,
            &no_permit,
        ),
        QueryMsg::AllNftInfo { token_id, viewer, include_expired } => query_all_nft_info(
            ledger,
            config,
            token_id.as_str(),
            &viewer,
            include_expired,
            &no_permit,
        ),
        QueryMsg::Tokens { owner, viewer, viewing_key, start_after, limit } => query_tokens(
            ledger,
            config,
            &owner,
            &viewer,
            &viewing_key,
            &start_after,
            limit,
            &no_permit,
        ),
        QueryMsg::NumTokensOfOwner { owner, viewer, viewing_key } => query_num_owner_tokens(
            ledger,
            config,
            &owner,
            &viewer,
            &viewing_key,
            &no_permit,
        ),
        QueryMsg::IsTransferable { token_id } => query_is_transferable(
            ledger,
            config,
            token_id.as_str(),
        ),
    }
}

/// The answer to a question that comes with a permit: the answer that the same
/// question gets where `querier`, the address that the permit stands for, is the
/// one who asks.
pub open spec fn permit_queries_spec(
    l: LedgerView,
    config: ConfigView,
    querier: Seq<u8>,
    query: QueryWithPermitView,
) -> Result<AnswerView, ErrorView> {
    match query {
        QueryWithPermitView::PrivateMetadata { token_id } => query_private_meta_spec(
            l,
            config,
            token_id,
            None,
            Some(querier),
        ),
        QueryWithPermitView::OwnerOf { token_id, include_expired } => query_owner_of_spec(
            l,
            config,
            token_id,
            None,
            include_expired,
            Some(querier),
        ),
        QueryWithPermitView::AllNftInfo { token_id, include_expired } => query_all_nft_info_spec(
            l,
            config,
            token_id,
            None,
            include_expired,
            Some(querier),
        ),
        QueryWithPermitView::NumTokens => query_num_tokens_spec(l, config, None, Some(querier)),
        QueryWithPermitView::AllTokens { start_after, limit } => query_all_tokens_spec(
            l,
            config,
            None,
            start_after,
            limit,
            Some(querier),
        ),
        QueryWithPermitView::Tokens { owner, start_after, limit } => query_tokens_spec(
            l,
            config,
            owner,
            None,
            None,
            start_after,
            limit,
            Some(querier),
        ),
        QueryWithPermitView::NumTokensOfOwner { owner } => query_num_owner_tokens_spec(
            l,
            config,
            owner,
            None,
            None,
            Some(querier),
        ),
    }
}

/// Answers a question that comes with a permit
///
/// # Arguments
///
/// * `ledger` - reference to the ledger
/// * `config` - reference to the Config
/// * `querier` - the address that the validated permit stands for
/// * `query` - the question
pub fn permit_queries(ledger: &Ledger, config: &Config, querier: Address, query: QueryWithPermit)
    -> (r: Result<QueryAnswer, ContractError>)
    ensures
        match r {
            Ok(a) => permit_queries_spec(ledger@, config@, querier@, query@) == Ok::<
                AnswerView,
                ErrorView,
            >(a@),
            Err(e) => permit_queries_spec(ledger@, config@, querier@, query@) == Err::<
                AnswerView,
                ErrorView,
            >(e@),
        },
{
    let from_permit = Some(querier);
    let no_viewer: Option<crate::query_msg::ViewerInfo> = None;
    let nobody: Option<Address> = None;
    let no_key: Option<String> = None;
    match query {
        QueryWithPermit::PrivateMetadata { token_id } => query_private_meta(
            ledger,
            config,
            token_id.as_str(),
            &no_viewer,
            &from_permit,
        ),
        QueryWithPermit::OwnerOf { token_id, include_expired } => query_owner_of(
            ledger,
            config,
            token_id.as_str(),
            &no_viewer,
            include_expired,
            &from_permit,
        ),
        QueryWithPermit::AllNftInfo { token_id, include_expired } => query_all_nft_info(
            ledger,
            config,
            token_id.as_str(),
            &no_viewer,
            include_expired,
            &from_permit,
        ),
        QueryWithPermit::NumTokens {  } => query_num_tokens(
            ledger,
            config,
            &no_viewer,
            &from_permit,
        ),
        QueryWithPermit::AllTokens { start_after, limit } => query_all_tokens(
            ledger,
            config,
            &no_viewer,
            &start_after,
            limit,
            &from_permit,
        ),
        QueryWithPermit::Tokens { owner, start_after, limit } => query_tokens(
            ledger,
            config,
            &owner,
            &nobody,
            &no_key,
            &start_after,
            limit,
            &from_permit,
        ),
        QueryWithPermit::NumTokensOfOwner { owner } => query_num_owner_tokens(
            ledger,
            config,
            &owner,
            &nobody,
            &no_key,
            &from_permit,
        ),
    }
}

} // verus!
