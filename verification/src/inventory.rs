//! The tokens of one owner: an ordered list of token indices without repeats,
//! and a cursor that walks it and can resume after a given index.

use vstd::prelude::*;
use crate::address::Address;
use crate::error::ContractError;
use crate::state::{Ledger, LedgerView};
use crate::table::{stored, Record, Value};

verus! {

/// The view of an [`Inventory`]: the owner, and the indices of the owner's
/// tokens in the order in which they came in.
pub struct InventoryView {
    pub owner: Seq<u8>,
    pub tokens: Seq<u32>,
}

/// A position of `x` in `s` (the only one, where `s` has no repeats).
pub open spec fn position_of(s: Seq<u32>, x: u32) -> int {
    choose|i: int| 0 <= i < s.len() && s[i] == x
}

impl InventoryView {
    /// The inventory with `idx` in it: appended where it was absent.
    pub open spec fn inserted(self, idx: u32) -> InventoryView {
        if self.tokens.contains(idx) {
            self
        } else {
            InventoryView { owner: self.owner, tokens: self.tokens.push(idx) }
        }
    }

    /// The inventory without `idx`; the other indices keep their order.
    pub open spec fn removed(self, idx: u32) -> InventoryView {
        if self.tokens.contains(idx) {
            InventoryView {
                owner: self.owner,
                tokens: self.tokens.remove(position_of(self.tokens, idx)),
            }
        } else {
            self
        }
    }

    /// What follows `idx` in the inventory.
    pub open spec fn after(self, idx: u32) -> Seq<u32> {
        self.tokens.skip(position_of(self.tokens, idx) + 1)
    }
}

/// In a list without repeats, a position that holds `x` is the position of `x`.
pub proof fn lemma_position_unique(s: Seq<u32>, x: u32, i: int)
    requires
        s.no_duplicates(),
        0 <= i < s.len(),
        s[i] == x,
    ensures
        s.contains(x),
        position_of(s, x) == i,
{
}

/// Inserting an index keeps the list free of repeats, makes the index a member,
/// and changes the count by one exactly where the index was absent.
pub proof fn lemma_inserted(v: InventoryView, idx: u32)
    requires
        v.tokens.no_duplicates(),
    ensures
        v.inserted(idx).tokens.no_duplicates(),
        v.inserted(idx).tokens.contains(idx),
        v.inserted(idx).owner == v.owner,
        forall|o: u32| o != idx ==> v.inserted(idx).tokens.contains(o) == v.tokens.contains(o),
        v.inserted(idx).tokens.len() == v.tokens.len() + (if v.tokens.contains(idx) {
            0int
        } else {
            1int
        }),
        v.inserted(idx).inserted(idx) == v.inserted(idx),
{
    let t = v.inserted(idx).tokens;
    if !v.tokens.contains(idx) {
        assert(t[v.tokens.len() as int] == idx);
        assert forall|o: u32| o != idx implies t.contains(o) == v.tokens.contains(o) by {
            if v.tokens.contains(o) {
                let i = choose|i: int| 0 <= i < v.tokens.len() && v.tokens[i] == o;
                assert(t[i] == o);
            }
            if t.contains(o) {
                let i = choose|i: int| 0 <= i < t.len() && t[i] == o;
                assert(v.tokens[i] == o);
            }
        }
    }
}

/// Removing an index keeps the list free of repeats, makes the index absent,
/// and changes the count by one exactly where the index was a member.
pub proof fn lemma_removed(v: InventoryView, idx: u32)
    requires
        v.tokens.no_duplicates(),
    ensures
        v.removed(idx).tokens.no_duplicates(),
        !v.removed(idx).tokens.contains(idx),
        v.removed(idx).owner == v.owner,
        forall|o: u32| o != idx ==> v.removed(idx).tokens.contains(o) == v.tokens.contains(o),
        v.removed(idx).tokens.len() == v.tokens.len() - (if v.tokens.contains(idx) {
            1int
        } else {
            0int
        }),
        v.removed(idx).removed(idx) == v.removed(idx),
{
    let s = v.tokens;
    let t = v.removed(idx).tokens;
    if s.contains(idx) {
        let p = position_of(s, idx);
        assert forall|i: int| 0 <= i < t.len() implies #[trigger] t[i] == s[if i < p {
            i
        } else {
            i + 1
        }] by {}
        if t.contains(idx) {
            let i = choose|i: int| 0 <= i < t.len() && t[i] == idx;
            assert(t[i] == s[if i < p { i } else { i + 1 }]);
        }
        assert forall|o: u32| o != idx implies t.contains(o) == s.contains(o) by {
            if s.contains(o) {
                let i = choose|i: int| 0 <= i < s.len() && s[i] == o;
                assert(t[if i < p { i } else { i - 1 }] == o);
            }
            if t.contains(o) {
                let i = choose|i: int| 0 <= i < t.len() && t[i] == o;
                assert(s[if i < p { i } else { i + 1 }] == o);
            }
        }
    }
}

/// The tokens of one owner.
#[derive(Debug)]
pub struct Inventory {
    owner: Address,
    tokens: Vec<u32>,
}

impl View for Inventory {
    type V = InventoryView;

    closed spec fn view(&self) -> InventoryView {
        InventoryView { owner: self.owner@, tokens: self.tokens@ }
    }
}

impl Inventory {
    #[verifier::type_invariant]
    spec fn inv(&self) -> bool {
        self.tokens@.no_duplicates()
    }

    /// The empty inventory of `owner`.
    pub fn new(owner: Address) -> (r: Inventory)
        ensures
            r@ == (InventoryView { owner: owner@, tokens: Seq::empty() }),
    {
        Inventory { owner, tokens: Vec::new() }
    }

    /// The inventory of `owner` as the ledger holds it, or the empty inventory
    /// where the ledger holds none.
    pub fn new_or_load(ledger: &Ledger, owner: &Address) -> (r: Inventory)
        ensures
            r@ == ledger@.inventory_of(owner@),
    {
        match ledger.inventories.get(owner) {
            Some(inv) => inv.copy(),
            None => Inventory::new(owner.copy()),
        }
    }

    /// Stores the inventory in the ledger, in place of the one that the ledger
    /// holds for the owner.
    pub fn save(&self, ledger: &mut Ledger)
        ensures
            final(ledger)@ == (LedgerView {
                inventories: stored::<Inventory>(old(ledger)@.inventories, self@),
                ..old(ledger)@
            }),
    {
        ledger.inventories.put(self.copy());
    }

    /// The owner.
    pub fn owner(&self) -> (a: &Address)
        ensures
            a@ == self@.owner,
    {
        &self.owner
    }

    /// The number of tokens in the inventory.
    pub fn count(&self) -> (n: usize)
        ensures
            n == self@.tokens.len(),
            self@.tokens.no_duplicates(),
    {
        proof {
            use_type_invariant(self);
        }
        self.tokens.len()
    }

    /// The token index at position `i` of the inventory.
    pub fn at(&self, i: usize) -> (idx: u32)
        requires
            i < self@.tokens.len(),
        ensures
            idx == self@.tokens[i as int],
    {
        self.tokens[i]
    }

    /// The position of `idx`, if it is a member.
    pub fn find(&self, idx: u32) -> (r: Option<usize>)
        ensures
            self@.tokens.no_duplicates(),
            match r {
                Some(i) => self@.tokens.contains(idx) && i == position_of(self@.tokens, idx) && i
                    < self@.tokens.len(),
                None => !self@.tokens.contains(idx),
            },
    {
        proof {
            use_type_invariant(self);
        }
        let mut i: usize = 0;
        while i < self.tokens.len()
            invariant
                i <= self.tokens@.len(),
                self.tokens@.no_duplicates(),
                forall|j: int| 0 <= j < i ==> self.tokens@[j] != idx,
            decreases self.tokens@.len() - i,
        {
            if self.tokens[i] == idx {
                proof {
                    lemma_position_unique(self.tokens@, idx, i as int);
                }
                return Some(i);
            }
            i += 1;
        }
        None
    }

    /// Whether `idx` is a member.
    pub fn contains(&self, idx: u32) -> (b: bool)
        ensures
            b == self@.tokens.contains(idx),
            self@.tokens.no_duplicates(),
    {
        self.find(idx).is_some()
    }

    /// Makes `idx` a member; nothing changes where it is one already.
    pub fn insert(&mut self, idx: u32)
        ensures
            final(self)@ == old(self)@.inserted(idx),
            old(self)@.tokens.no_duplicates(),
            final(self)@.tokens.no_duplicates(),
    {
        proof {
            use_type_invariant(&*self);
            lemma_inserted(self@, idx);
        }
        if self.find(idx).is_none() {
            let mut taken = Inventory { owner: Address::new(Vec::new()), tokens: Vec::new() };
            core::mem::swap(self, &mut taken);
            let Inventory { owner, tokens } = taken;
            let mut tokens = tokens;
            tokens.push(idx);
            *self = Inventory { owner, tokens };
        }
    }

    /// Makes `idx` no member; nothing changes where it is none.
    pub fn remove(&mut self, idx: u32)
        ensures
            final(self)@ == old(self)@.removed(idx),
            old(self)@.tokens.no_duplicates(),
            final(self)@.tokens.no_duplicates(),
    {
        proof {
            use_type_invariant(&*self);
            lemma_removed(self@, idx);
        }
        match self.find(idx) {
            Some(i) => {
                let mut taken = Inventory { owner: Address::new(Vec::new()), tokens: Vec::new() };
                core::mem::swap(self, &mut taken);
                let Inventory { owner, tokens } = taken;
                let mut tokens = tokens;
                tokens.remove(i);
                *self = Inventory { owner, tokens };
            },
            None => {},
        }
    }
}

impl Value for Inventory {
    fn copy(&self) -> (r: Inventory) {
        proof {
            use_type_invariant(self);
        }
        let tokens = self.tokens.clone();
        assert(tokens@ =~= self.tokens@);
        Inventory { owner: self.owner.copy(), tokens }
    }
}

impl Record for Inventory {
    type Key = Address;

    open spec fn key_of(v: InventoryView) -> Seq<u8> {
        v.owner
    }

    fn key(&self) -> (k: &Address) {
        &self.owner
    }
}

/// A cursor over an inventory: it hands out the token indices in the inventory's
/// order, from the start or from behind a given member.
#[derive(Debug)]
pub struct InventoryIter<'a> {
    inventory: &'a Inventory,
    next: usize,
}

impl<'a> InventoryIter<'a> {
    #[verifier::type_invariant]
    spec fn inv(&self) -> bool {
        self.next <= self.inventory@.tokens.len()
    }

    /// The indices that the cursor has yet to hand out.
    pub closed spec fn remaining(&self) -> Seq<u32> {
        self.inventory@.tokens.skip(self.next as int)
    }

    /// A cursor at the start of `inventory`.
    pub fn new(inventory: &'a Inventory) -> (it: InventoryIter<'a>)
        ensures
            it.remaining() == inventory@.tokens,
    {
        let it = InventoryIter { inventory, next: 0 };
        assert(it.remaining() =~= inventory@.tokens);
        it
    }

    /// A cursor behind `idx`. Fails with `err` where `idx` is no member of
    /// `inventory`.
    pub fn start_after(inventory: &'a Inventory, idx: u32, err: ContractError) -> (r: Result<
        InventoryIter<'a>,
        ContractError,
    >)
        ensures
            match r {
                Ok(it) => inventory@.tokens.contains(idx) && it.remaining() == inventory@.after(idx),
                Err(e) => !inventory@.tokens.contains(idx) && e == err,
            },
    {
        let n = inventory.count();
        match inventory.find(idx) {
            Some(i) => {
                assert(i < n);
                Ok(InventoryIter { inventory, next: i + 1 })
            },
            None => Err(err),
        }
    }

    /// Hands out the next index, if one is left.
    pub fn next(&mut self) -> (r: Option<u32>)
        ensures
            match r {
                Some(idx) => old(self).remaining().len() > 0 && idx == old(self).remaining()[0]
                    && final(self).remaining() == old(self).remaining().skip(1),
                None => old(self).remaining().len() == 0 && final(self).remaining() == old(
                    self,
                ).remaining(),
            },
    {
        proof {
            use_type_invariant(&*self);
        }
        if self.next < self.inventory.count() {
            let idx = self.inventory.at(self.next);
            let inventory = self.inventory;
            let next = self.next + 1;
            assert(inventory@.tokens.skip(next as int) =~= inventory@.tokens.skip(
                self.next as int,
            ).skip(1));
            *self = InventoryIter { inventory, next };
            Some(idx)
        } else {
            None
        }
    }
}

} // verus!
