//! Laws of the paged listing of an owner's tokens.

use vstd::prelude::*;
use crate::error::ErrorView;
use crate::expiration::BlockInfo;
use crate::inventory::{lemma_position_unique, position_of};
use crate::listing::{lemma_verdict_ignores_text, may_list, page_of, start_gate,
    tokens_page_spec};
use crate::error::unauthorized_text;

use crate::state::{ConfigView, LedgerView};
use crate::query::limit_or;
use crate::token::PermissionType;

verus! {

/// The token `idx` shows on a page: it has an id and the querier may list it.
pub open spec fn shows(
    l: LedgerView,
    block: BlockInfo,
    querier: Option<Seq<u8>>,
    known_pass: bool,
    idx: u32,
) -> bool {
    l.id_of(idx) is Some && may_list(l, block, querier, known_pass, idx, l.id_of(idx)->0)
}

/// The position in `remaining` of the token that fills a page of `room` ids, or
/// the length of `remaining` where it holds fewer tokens that show.
pub open spec fn cut_of(
    l: LedgerView,
    block: BlockInfo,
    querier: Option<Seq<u8>>,
    known_pass: bool,
    remaining: Seq<u32>,
    room: nat,
) -> int
    decreases remaining.len(),
{
    if remaining.len() == 0 {
        0
    } else if shows(l, block, querier, known_pass, remaining[0]) {
        if room <= 1 {
            0
        } else {
            1 + cut_of(l, block, querier, known_pass, remaining.drop_first(), (room - 1) as nat)
        }
    } else {
        1 + cut_of(l, block, querier, known_pass, remaining.drop_first(), room)
    }
}

/// A page holds no more ids than it has room for, and every id on it is the id
/// of a token of `remaining` that shows.
pub proof fn lemma_page_members(
    l: LedgerView,
    block: BlockInfo,
    querier: Option<Seq<u8>>,
    known_pass: bool,
    remaining: Seq<u32>,
    room: nat,
)
    ensures
        page_of(l, block, querier, known_pass, remaining, room).len() <= room,
        forall|j: int|
            0 <= j < page_of(l, block, querier, known_pass, remaining, room).len() ==> exists|
                q: int,
            |
                0 <= q < remaining.len() && shows(l, block, querier, known_pass, remaining[q])
                    && l.id_of(remaining[q]) == Some(
                    #[trigger] page_of(l, block, querier, known_pass, remaining, room)[j],
                ),
    decreases remaining.len(),
{
    let page = page_of(l, block, querier, known_pass, remaining, room);
    if remaining.len() == 0 || room == 0 {
    } else {
        let rest = remaining.drop_first();
        let idx = remaining[0];
        if shows(l, block, querier, known_pass, idx) {
            lemma_page_members(l, block, querier, known_pass, rest, (room - 1) as nat);
            let tail = page_of(l, block, querier, known_pass, rest, (room - 1) as nat);
            assert forall|j: int| 0 <= j < page.len() implies exists|q: int|
                0 <= q < remaining.len() && shows(l, block, querier, known_pass, remaining[q])
                    && l.id_of(remaining[q]) == Some(#[trigger] page[j]) by {
                if j == 0 {
                    assert(l.id_of(remaining[0]) == Some(page[0]));
                } else {
                    assert(page[j] == tail[j - 1]);
                    let q = choose|q: int|
                        0 <= q < rest.len() && shows(l, block, querier, known_pass, rest[q])
                            && l.id_of(rest[q]) == Some(tail[j - 1]);
                    assert(remaining[q + 1] == rest[q]);
                }
            }
        } else {
            lemma_page_members(l, block, querier, known_pass, rest, room);
            let tail = page_of(l, block, querier, known_pass, rest, room);
            assert forall|j: int| 0 <= j < page.len() implies exists|q: int|
                0 <= q < remaining.len() && shows(l, block, querier, known_pass, remaining[q])
                    && l.id_of(remaining[q]) == Some(#[trigger] page[j]) by {
                let q = choose|q: int|
                    0 <= q < rest.len() && shows(l, block, querier, known_pass, rest[q])
                        && l.id_of(rest[q]) == Some(tail[j]);
                assert(remaining[q + 1] == rest[q]);
            }
        }
    }
}

/// A page with more room is the page with less room, followed by the page that
/// starts behind the token that filled the first.
pub proof fn lemma_page_split(
    l: LedgerView,
    block: BlockInfo,
    querier: Option<Seq<u8>>,
    known_pass: bool,
    remaining: Seq<u32>,
    room: nat,
    more: nat,
)
    requires
        room > 0,
    ensures
        ({
            let page = page_of(l, block, querier, known_pass, remaining, room);
            let cut = cut_of(l, block, querier, known_pass, remaining, room);
            &&& 0 <= cut <= remaining.len()
            &&& page.len() < room ==> page_of(l, block, querier, known_pass, remaining, room + more)
                == page
            &&& page.len() == room ==> cut < remaining.len() && shows(
                l,
                block,
                querier,
                known_pass,
                remaining[cut],
            ) && l.id_of(remaining[cut]) == Some(page.last()) && page_of(
                l,
                block,
                querier,
                known_pass,
                remaining,
                room + more,
            ) == page + page_of(l, block, querier, known_pass, remaining.skip(cut + 1), more)
        }),
    decreases remaining.len(),
{
    let page = page_of(l, block, querier, known_pass, remaining, room);
    let big = page_of(l, block, querier, known_pass, remaining, room + more);
    lemma_page_members(l, block, querier, known_pass, remaining, room);
    if remaining.len() == 0 {
    } else {
        let rest = remaining.drop_first();
        let idx = remaining[0];
        if shows(l, block, querier, known_pass, idx) {
            let id = l.id_of(idx)->0;
            if room == 1 {
                let tail = page_of(l, block, querier, known_pass, rest, 0);
                assert(tail =~= Seq::<Seq<char>>::empty());
                assert(page =~= seq![id]);
                assert(remaining.skip(1) =~= rest);
                assert(big == seq![id] + page_of(l, block, querier, known_pass, rest, more));
            } else {
                lemma_page_split(l, block, querier, known_pass, rest, (room - 1) as nat, more);
                lemma_page_members(l, block, querier, known_pass, rest, (room - 1) as nat);
                let tail = page_of(l, block, querier, known_pass, rest, (room - 1) as nat);
                let cut = cut_of(l, block, querier, known_pass, rest, (room - 1) as nat);
                assert(big == seq![id] + page_of(
                    l,
                    block,
                    querier,
                    known_pass,
                    rest,
                    (room - 1 + more) as nat,
                ));
                if tail.len() == room - 1 {
                    assert(remaining.skip(cut + 2) =~= rest.skip(cut + 1));
                    assert(remaining[cut + 1] == rest[cut]);
                    let next = page_of(l, block, querier, known_pass, rest.skip(cut + 1), more);
                    assert(seq![id] + (tail + next) =~= (seq![id] + tail) + next);
                    assert(page.last() == tail.last());
                }
            }
        } else {
            lemma_page_split(l, block, querier, known_pass, rest, room, more);
            let cut = cut_of(l, block, querier, known_pass, rest, room);
            let tail = page_of(l, block, querier, known_pass, rest, room);
            if tail.len() == room {
                assert(remaining.skip(cut + 2) =~= rest.skip(cut + 1));
                assert(remaining[cut + 1] == rest[cut]);
            }
        }
    }
}

/// The ids and the indices of the tokens of `tokens` name each other: the index
/// of the id of a token is the token.
pub open spec fn ids_match(l: LedgerView, tokens: Seq<u32>) -> bool {
    forall|i: int|
        0 <= i < tokens.len() && l.id_of(#[trigger] tokens[i]) is Some ==> l.index_of(
            l.id_of(tokens[i])->0,
        ) == Some(tokens[i])
}

/// In a consistent ledger the inventory of an owner holds no token twice, and the
/// ids and the indices of its tokens name each other.
pub proof fn lemma_consistent_ids(l: LedgerView, token_cnt: u32, owner: Seq<u8>)
    requires
        l.consistent(token_cnt),
    ensures
        l.inventory_of(owner).tokens.no_duplicates(),
        ids_match(l, l.inventory_of(owner).tokens),
{
    let inv = l.inventory_of(owner);
    assert forall|i: int| 0 <= i < inv.tokens.len() && l.id_of(#[trigger] inv.tokens[i])
        is Some implies l.index_of(l.id_of(inv.tokens[i])->0) == Some(inv.tokens[i]) by {
        assert(inv.tokens.contains(inv.tokens[i]));
        assert(l.token_at(inv.tokens[i]) is Some);
    }
}

/// The ids of the tokens of `remaining` that have an id and that the querier may
/// list, in the order of `remaining`: what a page with room for all would hold.
pub open spec fn listing_of(
    l: LedgerView,
    block: BlockInfo,
    querier: Option<Seq<u8>>,
    known_pass: bool,
    remaining: Seq<u32>,
) -> Seq<Seq<char>>
    decreases remaining.len(),
{
    if remaining.len() == 0 {
        Seq::empty()
    } else if shows(l, block, querier, known_pass, remaining[0]) {
        seq![l.id_of(remaining[0])->0] + listing_of(
            l,
            block,
            querier,
            known_pass,
            remaining.drop_first(),
        )
    } else {
        listing_of(l, block, querier, known_pass, remaining.drop_first())
    }
}

/// The smaller of two numbers.
pub open spec fn smaller(a: int, b: int) -> int {
    if a <= b {
        a
    } else {
        b
    }
}

/// A page is the start of the listing: as many of its first ids as there is room
/// for, or all of them where there are fewer.
pub proof fn lemma_page_is_prefix(
    l: LedgerView,
    block: BlockInfo,
    querier: Option<Seq<u8>>,
    known_pass: bool,
    remaining: Seq<u32>,
    room: nat,
)
    ensures
        ({
            let all = listing_of(l, block, querier, known_pass, remaining);
            page_of(l, block, querier, known_pass, remaining, room) == all.take(
                smaller(room as int, all.len() as int),
            )
        }),
    decreases remaining.len(),
{
    let all = listing_of(l, block, querier, known_pass, remaining);
    let page = page_of(l, block, querier, known_pass, remaining, room);
    if remaining.len() == 0 || room == 0 {
        assert(page =~= all.take(0));
    } else {
        let rest = remaining.drop_first();
        let tail = listing_of(l, block, querier, known_pass, rest);
        if shows(l, block, querier, known_pass, remaining[0]) {
            let id = l.id_of(remaining[0])->0;
            lemma_page_is_prefix(l, block, querier, known_pass, rest, (room - 1) as nat);
            let k = smaller(room - 1, tail.len() as int);
            assert((seq![id] + tail).take(k + 1) =~= seq![id] + tail.take(k));
        } else {
            lemma_page_is_prefix(l, block, querier, known_pass, rest, room);
        }
    }
}

/// `id` is the id of a token of `remaining` that shows.
pub open spec fn names_one_of(
    l: LedgerView,
    block: BlockInfo,
    querier: Option<Seq<u8>>,
    known_pass: bool,
    remaining: Seq<u32>,
    id: Seq<char>,
) -> bool {
    exists|q: int|
        0 <= q < remaining.len() && shows(l, block, querier, known_pass, #[trigger] remaining[q])
            && l.id_of(remaining[q]) == Some(id)
}

/// Every id of the listing is the id of a token of `remaining` that shows.
pub proof fn lemma_listing_members(
    l: LedgerView,
    block: BlockInfo,
    querier: Option<Seq<u8>>,
    known_pass: bool,
    remaining: Seq<u32>,
)
    ensures
        forall|j: int|
            0 <= j < listing_of(l, block, querier, known_pass, remaining).len()
                ==> names_one_of(
                l,
                block,
                querier,
                known_pass,
                remaining,
                #[trigger] listing_of(l, block, querier, known_pass, remaining)[j],
            ),
    decreases remaining.len(),
{
    let all = listing_of(l, block, querier, known_pass, remaining);
    if remaining.len() > 0 {
        let rest = remaining.drop_first();
        let tail = listing_of(l, block, querier, known_pass, rest);
        lemma_listing_members(l, block, querier, known_pass, rest);
        assert forall|j: int| 0 <= j < all.len() implies names_one_of(
            l,
            block,
            querier,
            known_pass,
            remaining,
            #[trigger] all[j],
        ) by {
            if shows(l, block, querier, known_pass, remaining[0]) && j == 0 {
                assert(l.id_of(remaining[0]) == Some(all[0]));
            } else {
                let t = if shows(l, block, querier, known_pass, remaining[0]) {
                    j - 1
                } else {
                    j
                };
                assert(all[j] == tail[t]);
                assert(names_one_of(l, block, querier, known_pass, rest, tail[t]));
                let q = choose|q: int|
                    0 <= q < rest.len() && shows(l, block, querier, known_pass, #[trigger] rest[q])
                        && l.id_of(rest[q]) == Some(tail[t]);
                assert(remaining[q + 1] == rest[q]);
            }
        }
    }
}

/// The listing names no token twice, where `remaining` holds none twice and the
/// ids and the indices of its tokens name each other.
pub proof fn lemma_listing_distinct(
    l: LedgerView,
    block: BlockInfo,
    querier: Option<Seq<u8>>,
    known_pass: bool,
    remaining: Seq<u32>,
)
    requires
        remaining.no_duplicates(),
        ids_match(l, remaining),
    ensures
        listing_of(l, block, querier, known_pass, remaining).no_duplicates(),
    decreases remaining.len(),
{
    if remaining.len() > 0 {
        let rest = remaining.drop_first();
        let tail = listing_of(l, block, querier, known_pass, rest);
        assert forall|i: int| 0 <= i < rest.len() && l.id_of(#[trigger] rest[i])
            is Some implies l.index_of(l.id_of(rest[i])->0) == Some(rest[i]) by {
            assert(rest[i] == remaining[i + 1]);
        }
        assert forall|i: int, j: int| 0 <= i < rest.len() && 0 <= j < rest.len() && i
            != j implies rest[i] != rest[j] by {
            assert(rest[i] == remaining[i + 1]);
            assert(rest[j] == remaining[j + 1]);
        }
        lemma_listing_distinct(l, block, querier, known_pass, rest);
        if shows(l, block, querier, known_pass, remaining[0]) {
            let id = l.id_of(remaining[0])->0;
            let all = seq![id] + tail;
            lemma_listing_members(l, block, querier, known_pass, rest);
            assert forall|i: int, j: int| 0 <= i < all.len() && 0 <= j < all.len() && i
                != j implies all[i] != all[j] by {
                if i == 0 || j == 0 {
                    let m = if i == 0 {
                        j
                    } else {
                        i
                    };
                    assert(all[m] == tail[m - 1]);
                    if tail[m - 1] == id {
                        assert(names_one_of(l, block, querier, known_pass, rest, tail[m - 1]));
                        let q = choose|q: int|
                            0 <= q < rest.len() && shows(
                                l,
                                block,
                                querier,
                                known_pass,
                                #[trigger] rest[q],
                            ) && l.id_of(rest[q]) == Some(tail[m - 1]);
                        assert(rest[q] == remaining[q + 1]);
                        assert(l.index_of(id) == Some(remaining[q + 1]));
                        assert(l.index_of(id) == Some(remaining[0]));
                    }
                } else {
                    assert(all[i] == tail[i - 1]);
                    assert(all[j] == tail[j - 1]);
                }
            }
        }
    }
}

/// The ids of the tokens of `owner` that `querier` may list, in the order of the
/// owner's inventory: those behind `start_after`, or all where there is no
/// `start_after`.
pub open spec fn listing_after(
    l: LedgerView,
    config: ConfigView,
    owner: Seq<u8>,
    querier: Option<Seq<u8>>,
    start_after: Option<Seq<char>>,
) -> Seq<Seq<char>> {
    let known_pass = querier == Some(owner) || l.ownership_is_public(
        owner,
        config.owner_is_public,
    );
    let block = if known_pass {
        BlockInfo { height: 1, time: 1 }
    } else {
        crate::query::query_block(l)
    };
    let remaining = match start_after {
        Some(after) => l.inventory_of(owner).after(l.index_of(after)->0),
        None => l.inventory_of(owner).tokens,
    };
    listing_of(l, block, querier, known_pass, remaining)
}

/// A page is a run of the listing. Where a question for a page of the tokens of
/// an owner has an answer, the page is the start of the listing of the tokens
/// behind `start_after` that the querier may list: its first `limit` ids in the
/// order of the inventory, or all of them where there are fewer. So the page
/// holds as many ids as the smaller of the limit and the number of tokens to
/// list; it begins with the first token behind `start_after` that the querier
/// may list and leaves none out up to its end; and it holds no id twice.
///
/// This holds of every consistent ledger.
pub proof fn law_page_is_run_of_listing(
    l: LedgerView,
    config: ConfigView,
    owner: Seq<u8>,
    querier: Option<Seq<u8>>,
    start_after: Option<Seq<char>>,
    limit: Option<u32>,
)
    requires
        l.consistent(config.token_cnt),
        tokens_page_spec(l, config, owner, querier, start_after, limit) is Ok,
    ensures
        ({
            let page = tokens_page_spec(l, config, owner, querier, start_after, limit)->Ok_0;
            let all = listing_after(l, config, owner, querier, start_after);
            let room = limit_or(limit, 30);
            &&& page is TokenList
            &&& page->tokens == all.take(smaller(room as int, all.len() as int))
            &&& page->tokens.len() == smaller(room as int, all.len() as int)
            &&& room > 0 ==> all.no_duplicates()
            &&& page->tokens.no_duplicates()
        }),
{
    lemma_consistent_ids(l, config.token_cnt, owner);
    let inv = l.inventory_of(owner).tokens;
    let known_pass = querier == Some(owner) || l.ownership_is_public(
        owner,
        config.owner_is_public,
    );
    let block = if known_pass {
        BlockInfo { height: 1, time: 1 }
    } else {
        crate::query::query_block(l)
    };
    let from = match start_after {
        Some(after) => position_of(inv, l.index_of(after)->0) + 1,
        None => 0,
    };
    let remaining = match start_after {
        Some(after) => l.inventory_of(owner).after(l.index_of(after)->0),
        None => inv,
    };
    let room = limit_or(limit, 30);
    let all = listing_of(l, block, querier, known_pass, remaining);
    if room > 0 {
        assert(remaining =~= inv.skip(from));
    }
    if room > 0 {
        assert forall|i: int| 0 <= i < remaining.len() && l.id_of(#[trigger] remaining[i])
            is Some implies l.index_of(l.id_of(remaining[i])->0) == Some(remaining[i]) by {
            assert(remaining[i] == inv[from + i]);
        }
        assert forall|i: int, j: int| 0 <= i < remaining.len() && 0 <= j < remaining.len() && i
            != j implies remaining[i] != remaining[j] by {
            assert(remaining[i] == inv[from + i]);
            assert(remaining[j] == inv[from + j]);
        }
        lemma_listing_distinct(l, block, querier, known_pass, remaining);
        lemma_page_is_prefix(l, block, querier, known_pass, remaining, room as nat);
        let k = smaller(room as int, all.len() as int);
        assert forall|i: int, j: int| 0 <= i < k && 0 <= j < k && i != j implies all.take(k)[i]
            != all.take(k)[j] by {
            assert(all.take(k)[i] == all[i]);
            assert(all.take(k)[j] == all[j]);
        }
    } else {
        // a page without room is empty, whatever there is to list
        assert(all.take(0) =~= Seq::<Seq<char>>::empty());
    }
}

/// Pagination. A page of the tokens of an owner holds at most as many ids as the
/// limit gives room for, and each of them is the id of a token that follows the
/// token `start_after` in the owner's inventory (of any token of the inventory,
/// where there is no `start_after`). Where the page is full, asking again with
/// the last id of the page as the new `start_after` gives the next page: the two
/// pages, one after the other, are the page that a single question with room for
/// both would have given, with nothing left out and nothing repeated. Where the
/// page is not full, there is nothing more to list.
///
/// This holds of every consistent ledger.
pub proof fn law_pagination(
    l: LedgerView,
    config: ConfigView,
    owner: Seq<u8>,
    querier: Option<Seq<u8>>,
    start_after: Option<Seq<char>>,
    room: u32,
    more: u32,
)
    requires
        room > 0,
        more > 0,
        room + more <= u32::MAX,
        l.consistent(config.token_cnt),
        tokens_page_spec(l, config, owner, querier, start_after, Some(room)) is Ok,
    ensures
        ({
            let first = tokens_page_spec(l, config, owner, querier, start_after, Some(room))->Ok_0;
            let both = tokens_page_spec(
                l,
                config,
                owner,
                querier,
                start_after,
                Some((room + more) as u32),
            );
            let inv = l.inventory_of(owner).tokens;
            let from = match start_after {
                Some(after) => position_of(inv, l.index_of(after)->0) + 1,
                None => 0,
            };
            &&& first is TokenList
            &&& first->tokens.len() <= room
            &&& forall|j: int|
                0 <= j < first->tokens.len() ==> exists|q: int|
                    from <= q < inv.len() && l.id_of(inv[q]) == Some(#[trigger] first->tokens[j])
            &&& both is Ok && both->Ok_0 is TokenList
            &&& first->tokens.len() < room ==> both->Ok_0->tokens == first->tokens
            &&& first->tokens.len() == room ==> ({
                let next = tokens_page_spec(
                    l,
                    config,
                    owner,
                    querier,
                    Some(first->tokens.last()),
                    Some(more),
                );
                next is Ok && next->Ok_0 is TokenList && both->Ok_0->tokens == first->tokens
                    + next->Ok_0->tokens
            })
        }),
{
    lemma_consistent_ids(l, config.token_cnt, owner);
    let inv = l.inventory_of(owner).tokens;
    let known_pass = querier == Some(owner) || l.ownership_is_public(
        owner,
        config.owner_is_public,
    );
    let block = if known_pass {
        BlockInfo { height: 1, time: 1 }
    } else {
        crate::query::query_block(l)
    };
    let from = match start_after {
        Some(after) => position_of(inv, l.index_of(after)->0) + 1,
        None => 0,
    };
    let remaining = match start_after {
        Some(after) => l.inventory_of(owner).after(l.index_of(after)->0),
        None => inv,
    };
    assert(remaining =~= inv.skip(from));
    let page = page_of(l, block, querier, known_pass, remaining, room as nat);
    lemma_page_members(l, block, querier, known_pass, remaining, room as nat);
    lemma_page_split(l, block, querier, known_pass, remaining, room as nat, more as nat);
    assert forall|j: int| 0 <= j < page.len() implies exists|q: int|
        from <= q < inv.len() && l.id_of(inv[q]) == Some(#[trigger] page[j]) by {
        let q = choose|q: int|
            0 <= q < remaining.len() && shows(l, block, querier, known_pass, remaining[q])
                && l.id_of(remaining[q]) == Some(page[j]);
        assert(inv[from + q] == remaining[q]);
    }
    if page.len() == room {
        let cut = cut_of(l, block, querier, known_pass, remaining, room as nat);
        let idx = remaining[cut];
        let last = page.last();
        assert(inv[from + cut] == idx);
        assert(l.index_of(last) == Some(idx));
        lemma_position_unique(inv, idx, from + cut);
        assert(l.inventory_of(owner).after(idx) =~= remaining.skip(cut + 1));
        if !known_pass {
            lemma_verdict_ignores_text(
                l,
                block,
                l.token_at(idx)->0,
                last,
                querier,
                PermissionType::ViewOwner.slot(),
                Seq::empty(),
                unauthorized_text(last),
            );
        }
        assert(start_gate(l, config, block, querier, known_pass, last) == Ok::<u32, ErrorView>(
            idx,
        ));
    }
}

} // verus!
