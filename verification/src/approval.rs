//! Granting and revoking permissions: on one token, and on all tokens of an owner.

use vstd::prelude::*;
use std::collections::HashSet;
use crate::address::{Address, Grantee, GranteeView};
use crate::contract::{get_token, get_token_spec, retain_absent, without};
use crate::error::{unauthorized_message, unauthorized_text, ContractError, Denial, DenialView,
    ErrorView};
use crate::expiration::Expiration;
use crate::state::{Config, ConfigView, Entry, EntryView, Ledger, LedgerView};
use crate::table::{erased, lookup, stored, Key, Table, Value};
use crate::token::{copy_indices, AuthList, AuthListView, Permission, PermissionType,
    PermissionView, Token, TokenView};

verus! {

/// The three slots of an entry that grants nothing.
pub open spec fn no_grants() -> Seq<Option<Expiration>> {
    seq![None, None, None]
}

/// `perms` after the permission of slot `k` was granted to `grantee` until
/// `expiration`: the slot of the grantee's entry holds the expiration, and the
/// grantee's other slots are as they were.
pub open spec fn granted(
    perms: Seq<PermissionView>,
    grantee: GranteeView,
    k: int,
    expiration: Expiration,
) -> Seq<PermissionView> {
    let slots = match lookup::<Permission>(perms, grantee) {
        Some(p) => p.expirations,
        None => no_grants(),
    };
    stored::<Permission>(
        perms,
        PermissionView { address: grantee, expirations: slots.update(k, Some(expiration)) },
    )
}

/// `perms` after the permission of slot `k` was taken from `grantee`: the slot of
/// the grantee's entry is empty, and the entry is gone where it grants nothing
/// any more.
pub open spec fn revoked(perms: Seq<PermissionView>, grantee: GranteeView, k: int) -> Seq<
    PermissionView,
> {
    match lookup::<Permission>(perms, grantee) {
        None => perms,
        Some(p) => {
            let slots = p.expirations.update(k, None);
            if slots[0] is None && slots[1] is None && slots[2] is None {
                erased::<Permission>(perms, grantee)
            } else {
                stored::<Permission>(perms, PermissionView { address: grantee, expirations: slots })
            }
        },
    }
}

/// Grants the permission `kind` to `grantee` until `expiration`.
pub fn grant_permission(
    perms: &mut Table<Permission>,
    grantee: Grantee,
    kind: PermissionType,
    expiration: Expiration,
)
    ensures
        final(perms)@ == granted(old(perms)@, grantee@, kind.slot(), expiration),
{
    let mut slots: [Option<Expiration>; 3] = match perms.get(&grantee) {
        Some(p) => [p.expirations[0], p.expirations[1], p.expirations[2]],
        None => [None, None, None],
    };
    let ghost before = slots@;
    assert(before =~= match lookup::<Permission>(perms@, grantee@) {
        Some(p) => p.expirations,
        None => no_grants(),
    });
    slots[kind.to_usize()] = Some(expiration);
    assert(slots@ =~= before.update(kind.slot(), Some(expiration)));
    perms.put(Permission { address: grantee, expirations: slots });
}

/// Takes the permission `kind` from `grantee`.
pub fn revoke_permission(perms: &mut Table<Permission>, grantee: &Grantee, kind: PermissionType)
    ensures
        final(perms)@ == revoked(old(perms)@, grantee@, kind.slot()),
{
    let found = match perms.get(grantee) {
        Some(p) => Some([p.expirations[0], p.expirations[1], p.expirations[2]]),
        None => None,
    };
    match found {
        Some(had) => {
            let mut slots: [Option<Expiration>; 3] = had;
            let ghost before = slots@;
            assert(before =~= lookup::<Permission>(perms@, grantee@)->0.expirations);
            slots[kind.to_usize()] = None;
            assert(slots@ =~= before.update(kind.slot(), None));
            if slots[0].is_none() && slots[1].is_none() && slots[2].is_none() {
                perms.remove(grantee);
            } else {
                perms.put(Permission { address: grantee.copy(), expirations: slots });
            }
        },
        None => {},
    }
}

/// The three lists of an address that is authorised on no token.
pub open spec fn no_tokens() -> Seq<Seq<u32>> {
    seq![Seq::empty(), Seq::empty(), Seq::empty()]
}

/// `lists` after `grantee` was authorised on the token `idx` for slot `k`.
pub open spec fn listed(lists: Seq<AuthListView>, grantee: GranteeView, k: int, idx: u32) -> Seq<
    AuthListView,
> {
    let tokens = match lookup::<AuthList>(lists, grantee) {
        Some(a) => a.tokens,
        None => no_tokens(),
    };
    let row = if tokens[k].contains(idx) {
        tokens[k]
    } else {
        tokens[k].push(idx)
    };
    stored::<AuthList>(lists, AuthListView { address: grantee, tokens: tokens.update(k, row) })
}

/// `lists` after the authorisation of `grantee` on the token `idx` for slot `k`
/// was taken back; the list of the grantee is gone where it names no token any
/// more.
pub open spec fn unlisted(lists: Seq<AuthListView>, grantee: GranteeView, k: int, idx: u32) -> Seq<
    AuthListView,
> {
    match lookup::<AuthList>(lists, grantee) {
        None => lists,
        Some(a) => {
            let left = AuthListView {
                address: grantee,
                tokens: a.tokens.update(k, without(a.tokens[k], Set::empty().insert(idx))),
            };
            if left.is_blank() {
                erased::<AuthList>(lists, grantee)
            } else {
                stored::<AuthList>(lists, left)
            }
        },
    }
}

/// Whether `tokens` holds `idx`.
fn holds(tokens: &Vec<u32>, idx: u32) -> (b: bool)
    ensures
        b == tokens@.contains(idx),
{
    let mut i: usize = 0;
    while i < tokens.len()
        invariant
            i <= tokens@.len(),
            forall|j: int| 0 <= j < i ==> tokens@[j] != idx,
        decreases tokens@.len() - i,
    {
        if tokens[i] == idx {
            return true;
        }
        i += 1;
    }
    false
}

/// Copies of the three lists of `auth`.
fn copy_rows(auth: &AuthList) -> (rows: [Vec<u32>; 3])
    ensures
        seq![rows[0]@, rows[1]@, rows[2]@] == auth@.tokens,
{
    let rows = [
        copy_indices(&auth.tokens[0]),
        copy_indices(&auth.tokens[1]),
        copy_indices(&auth.tokens[2]),
    ];
    assert(seq![rows[0]@, rows[1]@, rows[2]@] =~= auth@.tokens);
    rows
}

/// Notes that `grantee` is authorised on the token `idx` for `kind`.
pub fn list_token(lists: &mut Table<AuthList>, grantee: Grantee, kind: PermissionType, idx: u32)
    ensures
        final(lists)@ == listed(old(lists)@, grantee@, kind.slot(), idx),
{
    let mut rows: [Vec<u32>; 3] = match lists.get(&grantee) {
        Some(a) => copy_rows(a),
        None => {
            let rows: [Vec<u32>; 3] = [Vec::new(), Vec::new(), Vec::new()];
            assert(seq![rows[0]@, rows[1]@, rows[2]@] =~= no_tokens());
            rows
        },
    };
    let k = kind.to_usize();
    let ghost before = seq![rows[0]@, rows[1]@, rows[2]@];
    if !holds(&rows[k], idx) {
        rows[k].push(idx);
    }
    let auth = AuthList { address: grantee, tokens: rows };
    assert(auth@.tokens =~= before.update(
        k as int,
        if before[k as int].contains(idx) {
            before[k as int]
        } else {
            before[k as int].push(idx)
        },
    ));
    lists.put(auth);
}

/// Notes that `grantee` is no longer authorised on the token `idx` for `kind`.
pub fn unlist_token(lists: &mut Table<AuthList>, grantee: &Grantee, kind: PermissionType, idx: u32)
    ensures
        final(lists)@ == unlisted(old(lists)@, grantee@, kind.slot(), idx),
{
    let found = match lists.get(grantee) {
        Some(a) => Some(copy_rows(a)),
        None => None,
    };
    match found {
        Some(had) => {
            let mut rows: [Vec<u32>; 3] = had;
            let k = kind.to_usize();
            let ghost before = seq![rows[0]@, rows[1]@, rows[2]@];
            let mut gone: HashSet<u32> = HashSet::new();
            gone.insert(idx);
            let kept = retain_absent(&rows[k], &gone);
            rows[k] = kept;
            let blank = rows[0].len() == 0 && rows[1].len() == 0 && rows[2].len() == 0;
            let auth = AuthList { address: grantee.copy(), tokens: rows };
            assert(auth@.tokens =~= before.update(k as int, without(before[k as int], Set::empty().insert(idx))));
            if blank {
                lists.remove(grantee);
            } else {
                lists.put(auth);
            }
        },
        None => {},
    }
}

/// The ledger after `entry` was stored as the lists of `owner`, or after the
/// owner's lists were dropped where `entry` is empty.
pub open spec fn with_auth_lists(l: LedgerView, owner: Seq<u8>, lists: Seq<AuthListView>) -> Seq<
    EntryView<Seq<u8>, Seq<AuthListView>>,
> {
    if lists.len() == 0 {
        erased::<Entry<Address, Table<AuthList>>>(l.auth_lists, owner)
    } else {
        stored::<Entry<Address, Table<AuthList>>>(
            l.auth_lists,
            EntryView { key: owner, value: lists },
        )
    }
}

/// Stores `lists` as the lists of `owner`; drops the owner's lists where `lists`
/// is empty.
fn save_auth_lists(ledger: &mut Ledger, owner: &Address, lists: Table<AuthList>)
    ensures
        final(ledger)@ == (LedgerView {
            auth_lists: with_auth_lists(old(ledger)@, owner@, lists@),
            ..old(ledger)@
        }),
{
    if lists.len() == 0 {
        ledger.auth_lists.remove(owner);
    } else {
        ledger.auth_lists.put(Entry { key: owner.copy(), value: lists });
    }
}

/// The token `token_id` and its index where `sender` owns the token. An unknown
/// id fails as [`get_token_spec`] says; a sender who is not the owner is told
/// that nothing authorises the action.
pub open spec fn owned_token_spec(
    l: LedgerView,
    config: ConfigView,
    sender: Seq<u8>,
    token_id: Seq<char>,
) -> Result<(TokenView, u32), ErrorView> {
    let deny_msg = unauthorized_text(token_id);
    let opt_err = if config.token_supply_is_public {
        None
    } else {
        Some(deny_msg)
    };
    match get_token_spec(l, token_id, opt_err) {
        Err(e) => Err(e),
        Ok((token, idx)) => if token.owner != sender {
            Err(ErrorView::AuthorizationDenied(DenialView::NotAuthorized { message: deny_msg }))
        } else {
            Ok((token, idx))
        },
    }
}

/// Looks up the token `token_id` for its owner `sender`.
fn owned_token(ledger: &Ledger, config: &Config, sender: &Address, token_id: &str) -> (r: Result<
    (Token, u32),
    ContractError,
>)
    ensures
        match r {
            Ok((token, idx)) => owned_token_spec(ledger@, config@, sender@, token_id@) == Ok::<
                (TokenView, u32),
                ErrorView,
            >((token@, idx)),
            Err(e) => owned_token_spec(ledger@, config@, sender@, token_id@) == Err::<
                (TokenView, u32),
                ErrorView,
            >(e@),
        },
{
    let deny_msg = unauthorized_message(token_id);
    let opt_err = if config.token_supply_is_public {
        None
    } else {
        Some(deny_msg.as_str())
    };
    let (token, idx) = match get_token(ledger, token_id, opt_err) {
        Ok(found) => found,
        Err(e) => {
            return Err(e);
        },
    };
    if !token.owner.same(sender) {
        return Err(ContractError::AuthorizationDenied(Denial::NotAuthorized { message: deny_msg }));
    }
    Ok((token, idx))
}

/// A grant on one token: the owner of the token `token_id` grants the permission
/// `kind` on it to `grantee` until `expiration`. Only the owner can; the grant
/// is written to the token, and the token joins the tokens on which the owner
/// has authorised the grantee.
pub open spec fn grant_token_spec(
    l: LedgerView,
    config: ConfigView,
    sender: Seq<u8>,
    token_id: Seq<char>,
    grantee: GranteeView,
    kind: PermissionType,
    expiration: Expiration,
) -> (Result<(), ErrorView>, LedgerView) {
    match owned_token_spec(l, config, sender, token_id) {
        Err(e) => (Err(e), l),
        Ok((token, idx)) => {
            let changed = TokenView {
                permissions: granted(token.permissions, grantee, kind.slot(), expiration),
                ..token
            };
            let infos = stored::<Entry<u32, Token>>(l.infos, EntryView { key: idx, value: changed });
            let lists = listed(l.auth_lists_of(sender), grantee, kind.slot(), idx);
            (Ok(()), LedgerView { infos, auth_lists: with_auth_lists(l, sender, lists), ..l })
        },
    }
}

/// Grants the permission `kind` on the token `token_id` to `grantee` until
/// `expiration`, at the request of the token's owner `sender`.
pub fn grant_token(
    ledger: &mut Ledger,
    config: &Config,
    sender: &Address,
    token_id: &str,
    grantee: Grantee,
    kind: PermissionType,
    expiration: Expiration,
) -> (r: Result<(), ContractError>)
    ensures
        ({
            let model = grant_token_spec(
                old(ledger)@,
                config@,
                sender@,
                token_id@,
                grantee@,
                kind,
                expiration,
            );
            &&& final(ledger)@ == model.1
            &&& match r {
                Ok(()) => model.0 is Ok,
                Err(e) => model.0 == Err::<(), ErrorView>(e@),
            }
        }),
{
    let (token, idx) = match owned_token(ledger, config, sender, token_id) {
        Ok(found) => found,
        Err(e) => {
            return Err(e);
        },
    };
    let mut lists = match ledger.auth_lists.get(sender) {
        Some(entry) => entry.value.copy(),
        None => Table::new(),
    };
    list_token(&mut lists, grantee.copy(), kind, idx);
    let mut token = token;
    grant_permission(&mut token.permissions, grantee, kind, expiration);
    ledger.infos.put(Entry { key: idx, value: token });
    save_auth_lists(ledger, sender, lists);
    Ok(())
}

/// The end of a grant on one token: the owner of the token `token_id` takes the
/// permission `kind` on it back from `grantee`.
pub open spec fn revoke_token_spec(
    l: LedgerView,
    config: ConfigView,
    sender: Seq<u8>,
    token_id: Seq<char>,
    grantee: GranteeView,
    kind: PermissionType,
) -> (Result<(), ErrorView>, LedgerView) {
    match owned_token_spec(l, config, sender, token_id) {
        Err(e) => (Err(e), l),
        Ok((token, idx)) => {
            let changed = TokenView {
                permissions: revoked(token.permissions, grantee, kind.slot()),
                ..token
            };
            let infos = stored::<Entry<u32, Token>>(l.infos, EntryView { key: idx, value: changed });
            let lists = unlisted(l.auth_lists_of(sender), grantee, kind.slot(), idx);
            (Ok(()), LedgerView { infos, auth_lists: with_auth_lists(l, sender, lists), ..l })
        },
    }
}

/// Takes the permission `kind` on the token `token_id` back from `grantee`, at
/// the request of the token's owner `sender`.
pub fn revoke_token(
    ledger: &mut Ledger,
    config: &Config,
    sender: &Address,
    token_id: &str,
    grantee: &Grantee,
    kind: PermissionType,
) -> (r: Result<(), ContractError>)
    ensures
        ({
            let model = revoke_token_spec(old(ledger)@, config@, sender@, token_id@, grantee@, kind);
            &&& final(ledger)@ == model.1
            &&& match r {
                Ok(()) => model.0 is Ok,
                Err(e) => model.0 == Err::<(), ErrorView>(e@),
            }
        }),
{
    let (token, idx) = match owned_token(ledger, config, sender, token_id) {
        Ok(found) => found,
        Err(e) => {
            return Err(e);
        },
    };
    let mut lists = match ledger.auth_lists.get(sender) {
        Some(entry) => entry.value.copy(),
        None => Table::new(),
    };
    unlist_token(&mut lists, grantee, kind, idx);
    let mut token = token;
    revoke_permission(&mut token.permissions, grantee, kind);
    ledger.infos.put(Entry { key: idx, value: token });
    save_auth_lists(ledger, sender, lists);
    Ok(())
}

/// The ledger after `grants` was stored as the grants of `owner` on all tokens,
/// or after they were dropped where `grants` is empty.
pub open spec fn with_all_grants(l: LedgerView, owner: Seq<u8>, grants: Seq<PermissionView>)
    -> LedgerView {
    LedgerView {
        all_permissions: if grants.len() == 0 {
            erased::<Entry<Address, Table<Permission>>>(l.all_permissions, owner)
        } else {
            stored::<Entry<Address, Table<Permission>>>(
                l.all_permissions,
                EntryView { key: owner, value: grants },
            )
        },
        ..l
    }
}

/// Grants the permission `kind` on every token of `owner` to `grantee` until
/// `expiration`. The grants on single tokens stay as they are.
pub fn grant_all(
    ledger: &mut Ledger,
    owner: &Address,
    grantee: Grantee,
    kind: PermissionType,
    expiration: Expiration,
)
    ensures
        final(ledger)@ == with_all_grants(
            old(ledger)@,
            owner@,
            granted(old(ledger)@.all_grants_of(owner@), grantee@, kind.slot(), expiration),
        ),
{
    let mut grants = match ledger.all_permissions.get(owner) {
        Some(entry) => entry.value.copy(),
        None => Table::new(),
    };
    grant_permission(&mut grants, grantee, kind, expiration);
    if grants.len() == 0 {
        ledger.all_permissions.remove(owner);
    } else {
        ledger.all_permissions.put(Entry { key: owner.copy(), value: grants });
    }
}

/// Takes the permission `kind` on every token of `owner` back from `grantee`.
/// The grants on single tokens stay as they are.
pub fn revoke_all(ledger: &mut Ledger, owner: &Address, grantee: &Grantee, kind: PermissionType)
    ensures
        final(ledger)@ == with_all_grants(
            old(ledger)@,
            owner@,
            revoked(old(ledger)@.all_grants_of(owner@), grantee@, kind.slot()),
        ),
{
    let mut grants = match ledger.all_permissions.get(owner) {
        Some(entry) => entry.value.copy(),
        None => Table::new(),
    };
    revoke_permission(&mut grants, grantee, kind);
    if grants.len() == 0 {
        ledger.all_permissions.remove(owner);
    } else {
        ledger.all_permissions.put(Entry { key: owner.copy(), value: grants });
    }
}

} // verus!
