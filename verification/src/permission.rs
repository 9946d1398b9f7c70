//! The authorisation check: whether a requester may act on a token.
//!
//! A requester may act on a token where the requester owns it, where a live grant
//! on the token names the requester or everyone, or where a live grant of the
//! owner on all of the owner's tokens does. Grants to the requester and grants to
//! everyone are independent: an expired one never hides a live one.

use vstd::prelude::*;
use crate::address::{Address, Grantee, GranteeView};
use crate::error::{ContractError, Denial, DenialView, ErrorView};
use crate::expiration::BlockInfo;
use crate::state::{Ledger, LedgerView};
use crate::table::{has_key, lemma_slot_unique, lookup, Key, Table, Value};
use crate::token::{
    grant_status, GrantStatus, Permission, PermissionType, PermissionView, Token, TokenView,
};

verus! {

/// The view of an optional reference to an address.
pub open spec fn requester_view(a: Option<&Address>) -> Option<Seq<u8>> {
    match a {
        Some(x) => Some(x@),
        None => None,
    }
}

/// `perms` holds a live grant of slot `k` to everyone or to the requester.
pub open spec fn has_live_grant(
    perms: Seq<PermissionView>,
    requester: Option<Seq<u8>>,
    k: int,
    block: BlockInfo,
) -> bool {
    ||| grant_status(perms, GranteeView::Public, k, block) == GrantStatus::Allowed
    ||| (requester matches Some(a) && grant_status(perms, GranteeView::Address(a), k, block)
        == GrantStatus::Allowed)
}

/// `perms` holds an expired grant of slot `k` to the requester in person.
pub open spec fn has_lapsed_grant(
    perms: Seq<PermissionView>,
    requester: Option<Seq<u8>>,
    k: int,
    block: BlockInfo,
) -> bool {
    requester matches Some(a) && grant_status(perms, GranteeView::Address(a), k, block)
        == GrantStatus::Expired
}

/// What the check decides.
pub enum Verdict {
    /// allowed: by the cache, as the owner, or by a grant on the token
    Allowed,
    /// allowed by a grant on all tokens of the owner
    AllowedForAll,
    /// denied, with the most specific reason
    Denied(DenialView),
}

/// The verdict on `requester` (none: an anonymous request) acting on `token` with
/// the permission of slot `k` in `block`. `oper_for` lists the owners for whom the
/// requester was found to hold a grant on all tokens earlier in the same request.
pub open spec fn verdict(
    l: LedgerView,
    block: BlockInfo,
    token: TokenView,
    token_id: Seq<char>,
    requester: Option<Seq<u8>>,
    k: int,
    oper_for: Seq<Seq<u8>>,
    deny_msg: Seq<char>,
) -> Verdict {
    if has_key::<Address>(oper_for, token.owner) {
        Verdict::Allowed
    } else if requester == Some(token.owner) {
        Verdict::Allowed
    } else if has_live_grant(token.permissions, requester, k, block) {
        Verdict::Allowed
    } else if has_live_grant(l.all_grants_of(token.owner), requester, k, block) {
        Verdict::AllowedForAll
    } else if has_lapsed_grant(l.all_grants_of(token.owner), requester, k, block) {
        Verdict::Denied(DenialView::AllAccessExpired { owner: token.owner })
    } else if has_lapsed_grant(token.permissions, requester, k, block) {
        Verdict::Denied(DenialView::TokenAccessExpired { token_id })
    } else {
        Verdict::Denied(DenialView::NotAuthorized { message: deny_msg })
    }
}

/// The result of the core check and the cache after it: a grant on all tokens
/// that allowed the request puts the owner into the cache.
pub open spec fn check_perm_core_spec(
    l: LedgerView,
    block: BlockInfo,
    token: TokenView,
    token_id: Seq<char>,
    requester: Option<Seq<u8>>,
    k: int,
    oper_for: Seq<Seq<u8>>,
    deny_msg: Seq<char>,
) -> (Result<(), ErrorView>, Seq<Seq<u8>>) {
    match verdict(l, block, token, token_id, requester, k, oper_for, deny_msg) {
        Verdict::Allowed => (Ok(()), oper_for),
        Verdict::AllowedForAll => (Ok(()), oper_for.push(token.owner)),
        Verdict::Denied(d) => (Err(ErrorView::AuthorizationDenied(d)), oper_for),
    }
}

/// The result of the check and the cache after it. A request to see the owner
/// passes at once where the owner's ownership is public; every other request
/// goes through the core check.
pub open spec fn check_permission_spec(
    l: LedgerView,
    block: BlockInfo,
    token: TokenView,
    token_id: Seq<char>,
    requester: Option<Seq<u8>>,
    perm_type: PermissionType,
    oper_for: Seq<Seq<u8>>,
    deny_msg: Seq<char>,
    owner_is_public: bool,
) -> (Result<(), ErrorView>, Seq<Seq<u8>>) {
    if perm_type == PermissionType::ViewOwner && l.ownership_is_public(
        token.owner,
        owner_is_public,
    ) {
        (Ok(()), oper_for)
    } else {
        check_perm_core_spec(
            l,
            block,
            token,
            token_id,
            requester,
            perm_type.slot(),
            oper_for,
            deny_msg,
        )
    }
}

/// What one pass over a list of grants found.
#[derive(Debug)]
pub struct Scan {
    /// a live grant to the requester or to everyone
    pub live: bool,
    /// an expired grant to the requester in person
    pub lapsed: bool,
}

/// Scans `perms` once for the grants of type `kind` to `sender` and to everyone.
/// The pass ends at the first live grant, and as soon as both entries have been
/// seen (for an anonymous request: the entry for everyone).
pub fn scan_grants(
    perms: &Table<Permission>,
    sender: Option<&Address>,
    kind: PermissionType,
    block: &BlockInfo,
) -> (r: Scan)
    ensures
        r.live == has_live_grant(perms@, requester_view(sender), kind.slot(), *block),
        !r.live ==> r.lapsed == has_lapsed_grant(
            perms@,
            requester_view(sender),
            kind.slot(),
            *block,
        ),
{
    let k = kind.to_usize();
    let n = perms.len();
    let ghost who = requester_view(sender);
    let mut seen_sender = sender.is_none();
    let mut seen_public = false;
    let mut lapsed = false;
    let mut i: usize = 0;
    while i < n && !(seen_sender && seen_public)
        invariant
            i <= n,
            n == perms@.len(),
            k == kind.slot(),
            who == requester_view(sender),
            crate::table::keys_distinct::<Permission>(perms@),
            seen_public ==> grant_status(perms@, GranteeView::Public, k as int, *block)
                != GrantStatus::Allowed,
            !seen_public ==> forall|j: int|
                0 <= j < i ==> (#[trigger] perms@[j]).address != GranteeView::Public,
            who matches Some(a) ==> (seen_sender ==> grant_status(
                perms@,
                GranteeView::Address(a),
                k as int,
                *block,
            ) != GrantStatus::Allowed),
            who matches Some(a) ==> (seen_sender ==> lapsed == (grant_status(
                perms@,
                GranteeView::Address(a),
                k as int,
                *block,
            ) == GrantStatus::Expired)),
            who matches Some(a) ==> (!seen_sender ==> !lapsed && forall|j: int|
                0 <= j < i ==> (#[trigger] perms@[j]).address != GranteeView::Address(a)),
            who is None ==> seen_sender && !lapsed,
        decreases n - i,
    {
        let perm = perms.entry(i);
        let is_sender = match sender {
            Some(s) => perm.address.same(&Grantee::Address(s.copy())),
            None => false,
        };
        let is_public = perm.address.same(&Grantee::Public);
        if is_sender || is_public {
            proof {
                lemma_slot_unique::<Permission>(perms@, perm@.address, i as int);
            }
            match perm.expirations[k] {
                Some(exp) => {
                    if !exp.is_expired(block) {
                        return Scan { live: true, lapsed: false };
                    } else if is_sender {
                        lapsed = true;
                    }
                },
                None => {},
            }
            if is_sender {
                seen_sender = true;
            } else {
                seen_public = true;
            }
        }
        i += 1;
    }
    Scan { live: false, lapsed }
}

/// Returns Ok if `opt_sender` has the permission of type `kind` on `token`, or an
/// error if not. An allowance through a grant on all tokens of the owner adds the
/// owner to `oper_for`.
pub fn check_perm_core(
    ledger: &Ledger,
    block: &BlockInfo,
    token: &Token,
    token_id: &str,
    opt_sender: Option<&Address>,
    kind: PermissionType,
    oper_for: &mut Table<Address>,
    deny_msg: &str,
) -> (r: Result<(), ContractError>)
    ensures
        ({
            let model = check_perm_core_spec(
                ledger@,
                *block,
                token@,
                token_id@,
                requester_view(opt_sender),
                kind.slot(),
                old(oper_for)@,
                deny_msg@,
            );
            &&& final(oper_for)@ == model.1
            &&& match r {
                Ok(()) => model.0 is Ok,
                Err(e) => model.0 == Err::<(), ErrorView>(e@),
            }
        }),
{
    // if did not already pass with "all" permission for this owner
    if oper_for.contains(&token.owner) {
        return Ok(());
    }
    // if this is the owner, all is good
    match opt_sender {
        Some(sender) => {
            if token.owner.same(sender) {
                return Ok(());
            }
        },
        None => {},
    }
    // check if the token is public or the sender has token permission
    let on_token = scan_grants(&token.permissions, opt_sender, kind, block);
    if on_token.live {
        return Ok(());
    }
    // check if the entire permission type is public or the sender has ALL permission
    let mut all_lapsed = false;
    match ledger.all_permissions.get(&token.owner) {
        Some(list) => {
            let on_all = scan_grants(&list.value, opt_sender, kind, block);
            if on_all.live {
                oper_for.put(token.owner.copy());
                return Ok(());
            }
            all_lapsed = on_all.lapsed;
        },
        None => {
            assert(ledger@.all_grants_of(token@.owner) == Seq::<PermissionView>::empty());
            assert(lookup::<Permission>(Seq::<PermissionView>::empty(), GranteeView::Public)
                is None);
        },
    }
    let denial = if all_lapsed {
        Denial::AllAccessExpired { owner: token.owner.copy() }
    } else if on_token.lapsed {
        Denial::TokenAccessExpired { token_id: token_id.to_owned() }
    } else {
        Denial::NotAuthorized { message: deny_msg.to_owned() }
    };
    Err(ContractError::AuthorizationDenied(denial))
}

/// Returns Ok if the address has permission or an error if not. The ownership
/// setting of the token's owner is used where there is one, `owner_is_public`
/// where there is none.
pub fn check_permission(
    ledger: &Ledger,
    block: &BlockInfo,
    token: &Token,
    token_id: &str,
    opt_sender: Option<&Address>,
    perm_type: PermissionType,
    oper_for: &mut Table<Address>,
    deny_msg: &str,
    owner_is_public: bool,
) -> (r: Result<(), ContractError>)
    ensures
        ({
            let model = check_permission_spec(
                ledger@,
                *block,
                token@,
                token_id@,
                requester_view(opt_sender),
                perm_type,
                old(oper_for)@,
                deny_msg@,
                owner_is_public,
            );
            &&& final(oper_for)@ == model.1
            &&& match r {
                Ok(()) => model.0 is Ok,
                Err(e) => model.0 == Err::<(), ErrorView>(e@),
            }
        }),
{
    // check if owner is public/private.  use owner's setting if present, contract default
    // if not
    match perm_type {
        PermissionType::ViewOwner => {
            let pass = match ledger.owner_priv.get(&token.owner) {
                Some(entry) => entry.value,
                None => owner_is_public,
            };
            if pass {
                return Ok(());
            }
        },
        _ => {},
    }
    check_perm_core(ledger, block, token, token_id, opt_sender, perm_type, oper_for, deny_msg)
}

} // verus!
