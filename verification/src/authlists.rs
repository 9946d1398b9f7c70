//! Laws of the lists of authorised tokens: an owner's lists name a token for an
//! address and a permission type exactly where the token is the owner's and
//! carries a grant of that type to the address.

use vstd::prelude::*;
use crate::address::{Address, GranteeView};
use crate::contract::{prune_lists, without};
use crate::expiration::BlockInfo;
use crate::laws::{lemma_inventory_owner, lemma_moved_ledger, moved_ledger};
use crate::state::{value_at, ConfigView, Entry, EntryView};
use crate::table::{lemma_erased, Table};
use crate::approval::{grant_token_spec, granted, listed, no_grants, no_tokens, owned_token_spec,
    revoke_token_spec, revoked, unlisted, with_all_grants, with_auth_lists};
use crate::expiration::Expiration;
use crate::handle::{handle_spec, init_ledger_spec, HandleMsgView};
use crate::laws::{law_listing_keeps_consistency, lemma_granted, lemma_send_nft_ok,
    lemma_transfer_nft_ok};
use crate::mint::{mint_all_spec, mint_spec, ListView};
use crate::msg::{ContractStatus, EnvView};
use crate::send::{send_nft_spec, transfer_nft_spec};
use crate::token::{PermissionType, Token, TokenView};
use crate::listing::listed_for;
use crate::state::LedgerView;
use crate::table::{has_key, keys_distinct, lemma_slot_unique, lemma_stored, lookup, slot_of,
    stored, Record};
use crate::token::{grant_of, AuthList, AuthListView, Permission, PermissionView};

verus! {

/// Lists of authorised tokens hold no address twice, and three lists of tokens
/// for each.
pub open spec fn lists_shaped(lists: Seq<AuthListView>) -> bool {
    &&& keys_distinct::<AuthList>(lists)
    &&& forall|i: int| 0 <= i < lists.len() ==> (#[trigger] lists[i]).tokens.len() == 3
}

/// A list of grants holds no grantee twice, and three slots for each.
pub open spec fn grants_shaped(perms: Seq<PermissionView>) -> bool {
    &&& keys_distinct::<Permission>(perms)
    &&& forall|i: int| 0 <= i < perms.len() ==> (#[trigger] perms[i]).expirations.len() == 3
}

/// The token `idx` is `owner`'s and carries a grant of slot `k` to `grantee`,
/// live or expired.
pub open spec fn holds_grant(
    l: LedgerView,
    owner: Seq<u8>,
    grantee: GranteeView,
    k: int,
    idx: u32,
) -> bool {
    l.token_at(idx) is Some && l.token_at(idx)->0.owner == owner && grant_of(
        l.token_at(idx)->0.permissions,
        grantee,
        k,
    ) is Some
}

/// The lists of authorised tokens mirror the grants on the tokens: an owner's
/// lists name a token for an address and a permission type exactly where the
/// token is the owner's and carries a grant of that type to the address.
pub open spec fn authorised(l: LedgerView) -> bool {
    &&& forall|owner: Seq<u8>| lists_shaped(#[trigger] l.auth_lists_of(owner))
    &&& forall|idx: u32|
        (#[trigger] l.token_at(idx)) is Some ==> grants_shaped(l.token_at(idx)->0.permissions)
    &&& forall|owner: Seq<u8>, grantee: GranteeView, k: int, idx: u32|
        0 <= k < 3 ==> (#[trigger] listed_for(l.auth_lists_of(owner), grantee, k).contains(idx)
            <==> holds_grant(l, owner, grantee, k, idx))
}

/// What is left of a list of tokens holds a token exactly where the list held it
/// and it was not removed.
pub proof fn lemma_without(tokens: Seq<u32>, remove: Set<u32>)
    ensures
        forall|x: u32| #[trigger]
            without(tokens, remove).contains(x) <==> tokens.contains(x) && !remove.contains(x),
    decreases tokens.len(),
{
    if tokens.len() > 0 {
        let before = tokens.drop_last();
        let last = tokens.last();
        lemma_without(before, remove);
        let rest = without(before, remove);
        let all = without(tokens, remove);
        assert forall|x: u32| #[trigger] all.contains(x) <==> tokens.contains(x)
            && !remove.contains(x) by {
            if tokens.contains(x) {
                let i = choose|i: int| 0 <= i < tokens.len() && tokens[i] == x;
                if i < before.len() {
                    assert(before[i] == x);
                    assert(before.contains(x));
                }
            }
            if before.contains(x) {
                let i = choose|i: int| 0 <= i < before.len() && before[i] == x;
                assert(tokens[i] == x);
            }
            assert(tokens[tokens.len() - 1] == last);
            assert(rest.contains(x) <==> before.contains(x) && !remove.contains(x));
            if remove.contains(last) {
            } else {
                assert(all == rest.push(last));
                if rest.contains(x) {
                    let i = choose|i: int| 0 <= i < rest.len() && rest[i] == x;
                    assert(all[i] == x);
                }
                if all.contains(x) {
                    let i = choose|i: int| 0 <= i < all.len() && all[i] == x;
                    if i < rest.len() {
                        assert(rest[i] == x);
                    }
                }
                assert(all[rest.len() as int] == last);
            }
        }
    }
}

/// Pruned lists keep their shape, name no address that the lists did not name,
/// and name a token exactly where the lists named it and it was not removed.
pub proof fn lemma_prune_lists(lists: Seq<AuthListView>, remove: Set<u32>)
    requires
        lists_shaped(lists),
    ensures
        lists_shaped(prune_lists(lists, remove)),
        forall|g: GranteeView| #[trigger]
            has_key::<AuthList>(prune_lists(lists, remove), g) ==> has_key::<AuthList>(lists, g),
        forall|g: GranteeView, k: int, x: u32|
            0 <= k < 3 ==> (#[trigger] listed_for(prune_lists(lists, remove), g, k).contains(x)
                <==> listed_for(lists, g, k).contains(x) && !remove.contains(x)),
    decreases lists.len(),
{
    let pruned = prune_lists(lists, remove);
    if lists.len() > 0 {
        let before = lists.drop_last();
        let last = lists.last();
        let n = before.len() as int;
        assert forall|i: int, j: int| 0 <= i < j < before.len() implies AuthList::key_of(
            #[trigger] before[i],
        ) != AuthList::key_of(#[trigger] before[j]) by {
            assert(before[i] == lists[i]);
            assert(before[j] == lists[j]);
        }
        assert forall|i: int| 0 <= i < before.len() implies (#[trigger] before[i]).tokens.len()
            == 3 by {
            assert(before[i] == lists[i]);
        }
        lemma_prune_lists(before, remove);
        let pb = prune_lists(before, remove);
        let kept = last.pruned(remove);
        assert(!has_key::<AuthList>(before, last.address)) by {
            if has_key::<AuthList>(before, last.address) {
                let i = slot_of::<AuthList>(before, last.address);
                assert(before[i] == lists[i]);
                assert(AuthList::key_of(lists[i]) != AuthList::key_of(lists[n]));
            }
        }
        assert(!has_key::<AuthList>(pb, last.address));
        lemma_slot_unique::<AuthList>(lists, last.address, n);
        lemma_stored::<AuthList>(pb, kept);
        lemma_without(last.tokens[0], remove);
        lemma_without(last.tokens[1], remove);
        lemma_without(last.tokens[2], remove);
        assert forall|g: GranteeView| g != last.address implies lookup::<AuthList>(lists, g)
            == lookup::<AuthList>(before, g) by {
            if has_key::<AuthList>(before, g) {
                let i = slot_of::<AuthList>(before, g);
                assert(before[i] == lists[i]);
                lemma_slot_unique::<AuthList>(lists, g, i);
            } else if has_key::<AuthList>(lists, g) {
                let i = slot_of::<AuthList>(lists, g);
                assert(i < n);
                assert(before[i] == lists[i]);
            }
        }
        assert forall|g: GranteeView| #[trigger]
            has_key::<AuthList>(pruned, g) implies has_key::<AuthList>(lists, g) by {
            if g != last.address {
                if !kept.is_blank() {
                    assert(lookup::<AuthList>(pruned, g) == lookup::<AuthList>(pb, g));
                }
                assert(has_key::<AuthList>(pb, g));
                assert(has_key::<AuthList>(before, g));
                assert(lookup::<AuthList>(lists, g) == lookup::<AuthList>(before, g));
            }
        }
        assert forall|i: int| 0 <= i < pruned.len() implies (#[trigger] pruned[i]).tokens.len()
            == 3 by {
            if !kept.is_blank() && i == pb.len() {
            } else {
                assert(pruned[i] == pb[i]);
            }
        }
        assert forall|g: GranteeView, k: int, x: u32| 0 <= k < 3 implies (#[trigger] listed_for(
            pruned,
            g,
            k,
        ).contains(x) <==> listed_for(lists, g, k).contains(x) && !remove.contains(x)) by {
            if g == last.address {
                assert(kept.tokens[k] == without(last.tokens[k], remove));
                if kept.is_blank() {
                    assert(kept.tokens[k].len() == 0);
                    if without(last.tokens[k], remove).contains(x) {
                        let i = choose|i: int|
                            0 <= i < without(last.tokens[k], remove).len() && without(
                                last.tokens[k],
                                remove,
                            )[i] == x;
                    }
                }
            } else {
                assert(lookup::<AuthList>(lists, g) == lookup::<AuthList>(before, g));
                if !kept.is_blank() {
                    assert(lookup::<AuthList>(pruned, g) == lookup::<AuthList>(pb, g));
                }
                assert(listed_for(pb, g, k).contains(x) <==> listed_for(before, g, k).contains(x)
                    && !remove.contains(x));
            }
        }
    }
}

/// What a transfer leaves of the lists of authorised tokens: those of the
/// previous owner pruned of the token, those of every other owner as they were.
pub proof fn lemma_moved_lists(
    l: LedgerView,
    config: ConfigView,
    block: BlockInfo,
    sender: Seq<u8>,
    idx: u32,
    token: TokenView,
    token_id: Seq<char>,
    recipient: Seq<u8>,
    memo: Option<Seq<char>>,
)
    requires
        l.keyed(),
        token.owner != recipient,
    ensures
        ({
            let post = moved_ledger(
                l,
                config,
                block,
                sender,
                idx,
                token,
                token_id,
                recipient,
                memo,
            );
            &&& post.auth_lists_of(token.owner) == prune_lists(
                l.auth_lists_of(token.owner),
                Set::empty().insert(idx),
            )
            &&& forall|o: Seq<u8>|
                o != token.owner ==> #[trigger] post.auth_lists_of(o) == l.auth_lists_of(o)
        }),
{
    let post = moved_ledger(l, config, block, sender, idx, token, token_id, recipient, memo);
    let gone = Set::<u32>::empty().insert(idx);
    lemma_inventory_owner(l, recipient);
    lemma_inventory_owner(l, token.owner);
    assert(gone.contains(idx));
    assert(!gone.is_empty());
    assert(Set::<u32>::empty().is_empty());
    match value_at::<Address, Table<AuthList>>(l.auth_lists, token.owner) {
        Some(lists) => {
            let pruned = prune_lists(lists, gone);
            lemma_stored::<Entry<Address, Table<AuthList>>>(
                l.auth_lists,
                EntryView { key: token.owner, value: pruned },
            );
            lemma_erased::<Entry<Address, Table<AuthList>>>(l.auth_lists, token.owner);
            if pruned.len() == 0 {
                assert(pruned =~= Seq::<AuthListView>::empty());
            }
            assert forall|o: Seq<u8>| o != token.owner implies #[trigger] post.auth_lists_of(o)
                == l.auth_lists_of(o) by {
                assert(lookup::<Entry<Address, Table<AuthList>>>(post.auth_lists, o) == lookup::<
                    Entry<Address, Table<AuthList>>,
                >(l.auth_lists, o));
            }
        },
        None => {
            assert(post.auth_lists == l.auth_lists);
            assert(prune_lists(Seq::<AuthListView>::empty(), gone) =~= Seq::<
                AuthListView,
            >::empty());
        },
    }
}

/// A transfer keeps the lists of authorised tokens in step with the grants: the
/// token that moves carries no grant any more, and the previous owner's lists
/// name it no more.
pub proof fn lemma_moved_keeps_authorised(
    l: LedgerView,
    config: ConfigView,
    block: BlockInfo,
    sender: Seq<u8>,
    idx: u32,
    token: TokenView,
    token_id: Seq<char>,
    recipient: Seq<u8>,
    memo: Option<Seq<char>>,
)
    requires
        l.keyed(),
        authorised(l),
        l.token_at(idx) == Some(token),
        token.owner != recipient,
    ensures
        authorised(
            moved_ledger(l, config, block, sender, idx, token, token_id, recipient, memo),
        ),
{
    let post = moved_ledger(l, config, block, sender, idx, token, token_id, recipient, memo);
    let gone = Set::<u32>::empty().insert(idx);
    lemma_moved_ledger(l, config, block, sender, idx, token, token_id, recipient, memo);
    lemma_moved_lists(l, config, block, sender, idx, token, token_id, recipient, memo);
    assert(lists_shaped(l.auth_lists_of(token.owner)));
    lemma_prune_lists(l.auth_lists_of(token.owner), gone);
    assert forall|owner: Seq<u8>| lists_shaped(#[trigger] post.auth_lists_of(owner)) by {
        assert(lists_shaped(l.auth_lists_of(owner)));
    }
    assert forall|i: u32| (#[trigger] post.token_at(i)) is Some implies grants_shaped(
        post.token_at(i)->0.permissions,
    ) by {
        if i != idx {
            assert(post.token_at(i) == l.token_at(i));
        }
    }
    assert forall|owner: Seq<u8>, grantee: GranteeView, k: int, i: u32| 0 <= k < 3 implies (
    #[trigger] listed_for(post.auth_lists_of(owner), grantee, k).contains(i) <==> holds_grant(
        post,
        owner,
        grantee,
        k,
        i,
    )) by {
        assert(listed_for(l.auth_lists_of(owner), grantee, k).contains(i) <==> holds_grant(
            l,
            owner,
            grantee,
            k,
            i,
        ));
        if i != idx {
            assert(post.token_at(i) == l.token_at(i));
        } else {
            assert(lookup::<Permission>(Seq::<PermissionView>::empty(), grantee) is None);
        }
        if owner == token.owner {
            assert(listed_for(post.auth_lists_of(owner), grantee, k).contains(i) <==> listed_for(
                l.auth_lists_of(owner),
                grantee,
                k,
            ).contains(i) && !gone.contains(i));
        }
    }
}

/// What listing a token changes in lists of authorised tokens: the lists name
/// the token for the address and the slot, and everything else as before.
pub proof fn lemma_listed(lists: Seq<AuthListView>, grantee: GranteeView, k: int, idx: u32)
    requires
        lists_shaped(lists),
        0 <= k < 3,
    ensures
        lists_shaped(listed(lists, grantee, k, idx)),
        listed(lists, grantee, k, idx).len() > 0,
        forall|g: GranteeView, j: int, x: u32|
            0 <= j < 3 ==> (#[trigger] listed_for(listed(lists, grantee, k, idx), g, j).contains(
                x,
            ) <==> listed_for(lists, g, j).contains(x) || (g == grantee && j == k && x == idx)),
{
    let after = listed(lists, grantee, k, idx);
    let tokens = match lookup::<AuthList>(lists, grantee) {
        Some(a) => a.tokens,
        None => no_tokens(),
    };
    let row = if tokens[k].contains(idx) {
        tokens[k]
    } else {
        tokens[k].push(idx)
    };
    let entry = AuthListView { address: grantee, tokens: tokens.update(k, row) };
    lemma_stored::<AuthList>(lists, entry);
    assert(has_key::<AuthList>(after, grantee));
    assert forall|i: int| 0 <= i < after.len() implies (#[trigger] after[i]).tokens.len() == 3 by {
        if has_key::<AuthList>(lists, grantee) {
            if i != slot_of::<AuthList>(lists, grantee) {
                assert(after[i] == lists[i]);
            }
        } else {
            if i < lists.len() {
                assert(after[i] == lists[i]);
            }
        }
    }
    assert forall|g: GranteeView, j: int, x: u32| 0 <= j < 3 implies (#[trigger] listed_for(
        after,
        g,
        j,
    ).contains(x) <==> listed_for(lists, g, j).contains(x) || (g == grantee && j == k && x
        == idx)) by {
        if g == grantee {
            if j == k {
                if !tokens[k].contains(idx) {
                    assert(row[tokens[k].len() as int] == idx);
                    if tokens[k].contains(x) {
                        let i = choose|i: int| 0 <= i < tokens[k].len() && tokens[k][i] == x;
                        assert(row[i] == x);
                    }
                    if row.contains(x) {
                        let i = choose|i: int| 0 <= i < row.len() && row[i] == x;
                        if i < tokens[k].len() {
                            assert(tokens[k][i] == x);
                        }
                    }
                }
            }
        } else {
            assert(lookup::<AuthList>(after, g) == lookup::<AuthList>(lists, g));
        }
    }
}

/// What unlisting a token changes in lists of authorised tokens: the lists name
/// the token no more for the address and the slot, and everything else as
/// before.
pub proof fn lemma_unlisted(lists: Seq<AuthListView>, grantee: GranteeView, k: int, idx: u32)
    requires
        lists_shaped(lists),
        0 <= k < 3,
    ensures
        lists_shaped(unlisted(lists, grantee, k, idx)),
        forall|g: GranteeView, j: int, x: u32|
            0 <= j < 3 ==> (#[trigger] listed_for(unlisted(lists, grantee, k, idx), g, j).contains(
                x,
            ) <==> listed_for(lists, g, j).contains(x) && !(g == grantee && j == k && x == idx)),
{
    let after = unlisted(lists, grantee, k, idx);
    let gone = Set::<u32>::empty().insert(idx);
    match lookup::<AuthList>(lists, grantee) {
        None => {},
        Some(a) => {
            let p = slot_of::<AuthList>(lists, grantee);
            assert(lists[p] == a);
            let left = AuthListView {
                address: grantee,
                tokens: a.tokens.update(k, without(a.tokens[k], gone)),
            };
            lemma_without(a.tokens[k], gone);
            lemma_stored::<AuthList>(lists, left);
            lemma_erased::<AuthList>(lists, grantee);
            assert forall|i: int| 0 <= i < after.len() implies (#[trigger] after[i]).tokens.len()
                == 3 by {
                if left.is_blank() {
                    assert(after[i] == lists[if i < p {
                        i
                    } else {
                        i + 1
                    }]);
                } else {
                    if i != p {
                        assert(after[i] == lists[i]);
                    }
                }
            }
            assert forall|g: GranteeView, j: int, x: u32| 0 <= j < 3 implies (
            #[trigger] listed_for(after, g, j).contains(x) <==> listed_for(lists, g, j).contains(x)
                && !(g == grantee && j == k && x == idx)) by {
                if g == grantee {
                    assert(without(a.tokens[k], gone).contains(x) <==> a.tokens[k].contains(x)
                        && !gone.contains(x));
                    if left.is_blank() {
                        assert(left.tokens[j].len() == 0);
                        if a.tokens[j].contains(x) && j != k {
                            let i = choose|i: int| 0 <= i < a.tokens[j].len() && a.tokens[j][i] == x;
                        }
                        if without(a.tokens[k], gone).contains(x) {
                            let i = choose|i: int|
                                0 <= i < without(a.tokens[k], gone).len() && without(
                                    a.tokens[k],
                                    gone,
                                )[i] == x;
                        }
                    }
                } else {
                    assert(lookup::<AuthList>(after, g) == lookup::<AuthList>(lists, g));
                }
            }
        },
    }
}

/// A list of grants keeps its shape when a grant is added, and when one is
/// taken back; taking a grant back empties its slot and no other.
pub proof fn lemma_grants_change(
    perms: Seq<PermissionView>,
    grantee: GranteeView,
    k: int,
    expiration: Expiration,
)
    requires
        grants_shaped(perms),
        0 <= k < 3,
    ensures
        grants_shaped(granted(perms, grantee, k, expiration)),
        grants_shaped(revoked(perms, grantee, k)),
        forall|g: GranteeView, j: int|
            0 <= j < 3 ==> #[trigger] grant_of(revoked(perms, grantee, k), g, j) == if g == grantee
                && j == k {
                None
            } else {
                grant_of(perms, g, j)
            },
{
    lemma_granted(perms, grantee, k, expiration);
    let more = granted(perms, grantee, k, expiration);
    let slots = match lookup::<Permission>(perms, grantee) {
        Some(p) => p.expirations,
        None => no_grants(),
    };
    assert forall|i: int| 0 <= i < more.len() implies (#[trigger] more[i]).expirations.len()
        == 3 by {
        if has_key::<Permission>(perms, grantee) {
            let p = slot_of::<Permission>(perms, grantee);
            assert(perms[p].expirations.len() == 3);
            if i != p {
                assert(more[i] == perms[i]);
            }
        } else {
            if i < perms.len() {
                assert(more[i] == perms[i]);
            }
        }
    }
    let less = revoked(perms, grantee, k);
    match lookup::<Permission>(perms, grantee) {
        None => {},
        Some(found) => {
            let p = slot_of::<Permission>(perms, grantee);
            assert(perms[p] == found);
            assert(found.expirations.len() == 3);
            let cleared = found.expirations.update(k, None);
            let entry = PermissionView { address: grantee, expirations: cleared };
            lemma_stored::<Permission>(perms, entry);
            lemma_erased::<Permission>(perms, grantee);
            let all_none = cleared[0] is None && cleared[1] is None && cleared[2] is None;
            assert forall|i: int| 0 <= i < less.len() implies (#[trigger] less[i]).expirations.len()
                == 3 by {
                if all_none {
                    assert(less[i] == perms[if i < p {
                        i
                    } else {
                        i + 1
                    }]);
                } else {
                    if i != p {
                        assert(less[i] == perms[i]);
                    }
                }
            }
            assert forall|g: GranteeView, j: int| 0 <= j < 3 implies #[trigger] grant_of(less, g, j)
                == if g == grantee && j == k {
                None
            } else {
                grant_of(perms, g, j)
            } by {
                if g != grantee {
                    assert(lookup::<Permission>(less, g) == lookup::<Permission>(perms, g));
                }
            }
        },
    }
}

/// Granting and revoking on one token keep the lists of authorised tokens in
/// step with the grants.
pub proof fn law_grants_keep_authorised(
    l: LedgerView,
    config: ConfigView,
    sender: Seq<u8>,
    token_id: Seq<char>,
    grantee: GranteeView,
    kind: PermissionType,
    expiration: Expiration,
)
    requires
        l.keyed(),
        authorised(l),
    ensures
        authorised(grant_token_spec(l, config, sender, token_id, grantee, kind, expiration).1),
        authorised(revoke_token_spec(l, config, sender, token_id, grantee, kind).1),
{
    let k = kind.slot();
    if owned_token_spec(l, config, sender, token_id) is Ok {
        let found = owned_token_spec(l, config, sender, token_id)->Ok_0;
        let token = found.0;
        let idx = found.1;
        assert(l.token_at(idx) == Some(token));
        assert(grants_shaped(token.permissions));
        assert(lists_shaped(l.auth_lists_of(sender)));
        lemma_grants_change(token.permissions, grantee, k, expiration);
        lemma_granted(token.permissions, grantee, k, expiration);
        lemma_listed(l.auth_lists_of(sender), grantee, k, idx);
        lemma_unlisted(l.auth_lists_of(sender), grantee, k, idx);
        lemma_erased::<Entry<Address, Table<AuthList>>>(l.auth_lists, sender);
        // the grant
        {
            let post = grant_token_spec(l, config, sender, token_id, grantee, kind, expiration).1;
            let changed = TokenView {
                permissions: granted(token.permissions, grantee, k, expiration),
                ..token
            };
            let lists = listed(l.auth_lists_of(sender), grantee, k, idx);
            lemma_changed(l, post, sender, idx, token, changed, lists);
            assert forall|owner: Seq<u8>, g: GranteeView, j: int, i: u32| 0 <= j < 3 implies (
            #[trigger] listed_for(post.auth_lists_of(owner), g, j).contains(i) <==> holds_grant(
                post,
                owner,
                g,
                j,
                i,
            )) by {
                assert(listed_for(l.auth_lists_of(owner), g, j).contains(i) <==> holds_grant(
                    l,
                    owner,
                    g,
                    j,
                    i,
                ));
                if i != idx {
                    assert(post.token_at(i) == l.token_at(i));
                }
                if owner == sender {
                    assert(listed_for(lists, g, j).contains(i) <==> listed_for(
                        l.auth_lists_of(sender),
                        g,
                        j,
                    ).contains(i) || (g == grantee && j == k && i == idx));
                }
                if i == idx && !(g == grantee && j == k) {
                    assert(grant_of(changed.permissions, g, j) == grant_of(token.permissions, g, j));
                }
            }
        }
        // the end of a grant
        {
            let post = revoke_token_spec(l, config, sender, token_id, grantee, kind).1;
            let changed = TokenView {
                permissions: revoked(token.permissions, grantee, k),
                ..token
            };
            let lists = unlisted(l.auth_lists_of(sender), grantee, k, idx);
            lemma_changed(l, post, sender, idx, token, changed, lists);
            assert forall|owner: Seq<u8>, g: GranteeView, j: int, i: u32| 0 <= j < 3 implies (
            #[trigger] listed_for(post.auth_lists_of(owner), g, j).contains(i) <==> holds_grant(
                post,
                owner,
                g,
                j,
                i,
            )) by {
                assert(listed_for(l.auth_lists_of(owner), g, j).contains(i) <==> holds_grant(
                    l,
                    owner,
                    g,
                    j,
                    i,
                ));
                if i != idx {
                    assert(post.token_at(i) == l.token_at(i));
                }
                if owner == sender {
                    assert(listed_for(lists, g, j).contains(i) <==> listed_for(
                        l.auth_lists_of(sender),
                        g,
                        j,
                    ).contains(i) && !(g == grantee && j == k && i == idx));
                }
                if i == idx {
                    assert(grant_of(changed.permissions, g, j) == if g == grantee && j == k {
                        None
                    } else {
                        grant_of(token.permissions, g, j)
                    });
                }
            }
        }
    }
}

/// What a ledger holds after the grants on one token of `sender` and the lists of
/// `sender` were replaced: the token and the lists that were put in, and every
/// other token and every other owner's lists as before, all in shape.
proof fn lemma_changed(
    l: LedgerView,
    post: LedgerView,
    sender: Seq<u8>,
    idx: u32,
    token: TokenView,
    changed: TokenView,
    lists: Seq<AuthListView>,
)
    requires
        l.keyed(),
        authorised(l),
        l.token_at(idx) == Some(token),
        changed.owner == token.owner,
        grants_shaped(changed.permissions),
        lists_shaped(lists),
        post.infos == stored::<Entry<u32, Token>>(l.infos, EntryView { key: idx, value: changed }),
        post.auth_lists == with_auth_lists(l, sender, lists),
    ensures
        post.token_at(idx) == Some(changed),
        forall|i: u32| i != idx ==> #[trigger] post.token_at(i) == l.token_at(i),
        post.auth_lists_of(sender) == lists,
        forall|o: Seq<u8>| o != sender ==> #[trigger] post.auth_lists_of(o) == l.auth_lists_of(o),
        forall|owner: Seq<u8>| lists_shaped(#[trigger] post.auth_lists_of(owner)),
        forall|i: u32|
            (#[trigger] post.token_at(i)) is Some ==> grants_shaped(post.token_at(i)->0.permissions),
{
    lemma_stored::<Entry<u32, Token>>(l.infos, EntryView { key: idx, value: changed });
    lemma_stored::<Entry<Address, Table<AuthList>>>(
        l.auth_lists,
        EntryView { key: sender, value: lists },
    );
    lemma_erased::<Entry<Address, Table<AuthList>>>(l.auth_lists, sender);
    if lists.len() == 0 {
        assert(lists =~= Seq::<AuthListView>::empty());
    }
    assert forall|i: u32| i != idx implies #[trigger] post.token_at(i) == l.token_at(i) by {
        assert(lookup::<Entry<u32, Token>>(post.infos, i) == lookup::<Entry<u32, Token>>(
            l.infos,
            i,
        ));
    }
    assert forall|o: Seq<u8>| o != sender implies #[trigger] post.auth_lists_of(o)
        == l.auth_lists_of(o) by {
        assert(lookup::<Entry<Address, Table<AuthList>>>(post.auth_lists, o) == lookup::<
            Entry<Address, Table<AuthList>>,
        >(l.auth_lists, o));
    }
    assert forall|owner: Seq<u8>| lists_shaped(#[trigger] post.auth_lists_of(owner)) by {
        assert(lists_shaped(l.auth_lists_of(owner)));
    }
    assert forall|i: u32| (#[trigger] post.token_at(i)) is Some implies grants_shaped(
        post.token_at(i)->0.permissions,
    ) by {
        if i != idx {
            assert(post.token_at(i) == l.token_at(i));
        }
    }
}

/// The lists of authorised tokens stay in step with the grants where the tokens
/// and the lists stay as they are.
pub proof fn lemma_same_lists(l: LedgerView, post: LedgerView)
    requires
        authorised(l),
        post.infos == l.infos,
        post.auth_lists == l.auth_lists,
    ensures
        authorised(post),
{
    assert forall|owner: Seq<u8>| lists_shaped(#[trigger] post.auth_lists_of(owner)) by {
        assert(lists_shaped(l.auth_lists_of(owner)));
    }
    assert forall|i: u32| (#[trigger] post.token_at(i)) is Some implies grants_shaped(
        post.token_at(i)->0.permissions,
    ) by {
        assert(l.token_at(i) is Some);
    }
    assert forall|owner: Seq<u8>, g: GranteeView, j: int, i: u32| 0 <= j < 3 implies (
    #[trigger] listed_for(post.auth_lists_of(owner), g, j).contains(i) <==> holds_grant(
        post,
        owner,
        g,
        j,
        i,
    )) by {
        assert(listed_for(l.auth_lists_of(owner), g, j).contains(i) <==> holds_grant(
            l,
            owner,
            g,
            j,
            i,
        ));
    }
}

/// Grants on all tokens of an owner leave the lists of authorised tokens, which
/// list the grants on single tokens, in step with these.
pub proof fn law_all_grants_keep_authorised(
    l: LedgerView,
    owner: Seq<u8>,
    grants: Seq<PermissionView>,
)
    requires
        authorised(l),
    ensures
        authorised(with_all_grants(l, owner, grants)),
{
    lemma_same_lists(l, with_all_grants(l, owner, grants));
}

/// The registry starts with its lists of authorised tokens in step with the
/// grants: there is none of either.
pub proof fn law_init_is_authorised(env: EnvView)
    ensures
        authorised(init_ledger_spec(env)),
{
    let l = init_ledger_spec(env);
    assert forall|owner: Seq<u8>| lists_shaped(#[trigger] l.auth_lists_of(owner)) by {
        assert(!has_key::<Entry<Address, Table<AuthList>>>(l.auth_lists, owner));
    }
    assert forall|i: u32| (#[trigger] l.token_at(i)) is None by {
        assert(!has_key::<Entry<u32, Token>>(l.infos, i));
    }
    assert forall|owner: Seq<u8>, g: GranteeView, j: int, i: u32| 0 <= j < 3 implies (
    #[trigger] listed_for(l.auth_lists_of(owner), g, j).contains(i) <==> holds_grant(
        l,
        owner,
        g,
        j,
        i,
    )) by {
        assert(!has_key::<Entry<Address, Table<AuthList>>>(l.auth_lists, owner));
        assert(!has_key::<AuthList>(Seq::<AuthListView>::empty(), g));
        assert(l.token_at(i) is None);
    }
}

/// Listing a token keeps the lists of authorised tokens in step with the grants:
/// the new token carries no grant, and no list names it.
pub proof fn law_listing_keeps_authorised(
    l: LedgerView,
    config: ConfigView,
    owner: Seq<u8>,
    item: ListView,
)
    requires
        l.consistent(config.token_cnt),
        authorised(l),
    ensures
        authorised(mint_spec(l, config, owner, item).1),
{
    let done = mint_spec(l, config, owner, item);
    if done.0 is Ok {
        let post = done.1;
        let idx = (config.token_cnt + 1) as u32;
        let token = TokenView {
            owner,
            permissions: Seq::empty(),
            unwrapped: !config.sealed_metadata_is_enabled,
            transferable: match item.transferable {
                Some(t) => t,
                None => true,
            },
        };
        assert(l.token_at(idx) is None);
        lemma_stored::<Entry<u32, Token>>(l.infos, EntryView { key: idx, value: token });
        assert forall|i: u32| i != idx implies #[trigger] post.token_at(i) == l.token_at(i) by {
            assert(lookup::<Entry<u32, Token>>(post.infos, i) == lookup::<Entry<u32, Token>>(
                l.infos,
                i,
            ));
        }
        assert forall|o: Seq<u8>| lists_shaped(#[trigger] post.auth_lists_of(o)) by {
            assert(lists_shaped(l.auth_lists_of(o)));
        }
        assert forall|i: u32| (#[trigger] post.token_at(i)) is Some implies grants_shaped(
            post.token_at(i)->0.permissions,
        ) by {
            if i != idx {
                assert(post.token_at(i) == l.token_at(i));
            }
        }
        assert forall|o: Seq<u8>, g: GranteeView, j: int, i: u32| 0 <= j < 3 implies (
        #[trigger] listed_for(post.auth_lists_of(o), g, j).contains(i) <==> holds_grant(
            post,
            o,
            g,
            j,
            i,
        )) by {
            assert(listed_for(l.auth_lists_of(o), g, j).contains(i) <==> holds_grant(
                l,
                o,
                g,
                j,
                i,
            ));
            if i != idx {
                assert(post.token_at(i) == l.token_at(i));
            } else {
                assert(lookup::<Permission>(Seq::<PermissionView>::empty(), g) is None);
            }
        }
    }
}

/// Listing tokens keeps the lists of authorised tokens in step with the grants,
/// however many are listed.
pub proof fn law_list_nft_keeps_authorised(
    l: LedgerView,
    config: ConfigView,
    owner: Seq<u8>,
    items: Seq<ListView>,
)
    requires
        l.consistent(config.token_cnt),
        authorised(l),
    ensures
        authorised(mint_all_spec(l, config, owner, items).1),
    decreases items.len(),
{
    if items.len() > 0 {
        let first = mint_spec(l, config, owner, items[0]);
        law_listing_keeps_authorised(l, config, owner, items[0]);
        law_listing_keeps_consistency(l, config, owner, items[0]);
        if first.0 is Ok {
            law_list_nft_keeps_authorised(first.1, first.2, owner, items.drop_first());
        }
    }
}

/// Every request keeps the lists of authorised tokens in step with the grants:
/// in a consistent ledger whose lists name a token for an address and a
/// permission type exactly where the token is the owner's and carries such a
/// grant, they still do after any request.
pub proof fn law_handle_keeps_authorised(
    l: LedgerView,
    config: ConfigView,
    env: EnvView,
    msg: HandleMsgView,
)
    requires
        l.consistent(config.token_cnt),
        authorised(l),
    ensures
        authorised(handle_spec(l, config, env, msg).1),
{
    let normal = ContractStatus::Normal.level();
    let post = handle_spec(l, config, env, msg);
    if post.0 is Ok {
        match msg {
            HandleMsgView::TransferNft { recipient, token_id, memo } => {
                let inner = transfer_nft_spec(l, config, env, normal, recipient, token_id, memo);
                lemma_transfer_nft_ok(l, config, env, normal, recipient, token_id, memo);
                let idx = l.index_of(token_id)->0;
                let token = l.token_at(idx)->0;
                lemma_moved_keeps_authorised(
                    l,
                    config,
                    env.block,
                    env.sender,
                    idx,
                    token,
                    token_id,
                    recipient,
                    memo,
                );
                lemma_same_lists(inner.1, post.1);
            },
            HandleMsgView::SendNft { contract, receiver_info, token_id, msg, memo } => {
                let inner = send_nft_spec(
                    l,
                    config,
                    env,
                    normal,
                    contract,
                    receiver_info,
                    token_id,
                    msg,
                    memo,
                );
                lemma_send_nft_ok(
                    l,
                    config,
                    env,
                    normal,
                    contract,
                    receiver_info,
                    token_id,
                    msg,
                    memo,
                );
                let idx = l.index_of(token_id)->0;
                let token = l.token_at(idx)->0;
                lemma_moved_keeps_authorised(
                    l,
                    config,
                    env.block,
                    env.sender,
                    idx,
                    token,
                    token_id,
                    contract,
                    memo,
                );
                lemma_same_lists(inner.1, post.1);
            },
            HandleMsgView::ListNft { token_lists } => {
                let inner = mint_all_spec(l, config, env.sender, token_lists);
                law_list_nft_keeps_authorised(l, config, env.sender, token_lists);
                lemma_same_lists(inner.1, post.1);
            },
            _ => {
                lemma_same_lists(l, post.1);
            },
        }
    }
}

} // verus!
