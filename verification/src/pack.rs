//! The capacity-bounded, insertion-ordered collection of entries.

use vstd::prelude::*;
use crate::item::{Item, ItemView};
use crate::strutil::str_eq;
use crate::MAX_ITEM;

verus! {

/// The reported effect of one insert attempt.
#[derive(Debug, PartialEq, Eq, Structural)]
pub enum PackState {
    Added(u128),
    CapacityFull,
}

/// The pack: an ordered sequence of entries with a running insert counter.
///
/// `head` counts insert attempts since creation or the last reset; capacity
/// checks use this counter, not the stored length, so attempts made after the
/// capacity is reached keep raising it until a reset.
#[derive(Debug)]
pub struct Pack {
    pub id: u32,
    pub items: Vec<Item>,
    pub head: u16,
}

/// Mathematical model of a `Pack`.
#[verifier::ext_equal]
pub struct PackView {
    pub id: u32,
    pub items: Seq<ItemView>,
    pub head: int,
}

impl View for Pack {
    type V = PackView;

    open spec fn view(&self) -> PackView {
        PackView {
            id: self.id,
            items: self.items@.map_values(|it: Item| it@),
            head: self.head as int,
        }
    }
}

impl Default for Pack {
    /// A fresh, empty pack with identifier 0.
    fn default() -> (r: Pack)
        ensures
            r@.id == 0,
            r@.head == 0,
            r@.items == Seq::<ItemView>::empty(),
    {
        let r = Pack { id: 0, items: Vec::new(), head: 0 };
        proof {
            assert(r@.items =~= Seq::<ItemView>::empty());
        }
        r
    }
}

/// The first entry, in insertion order, whose key matches exactly.
pub open spec fn spec_find(items: Seq<ItemView>, key: Seq<char>) -> Option<ItemView>
    decreases items.len(),
{
    if items.len() == 0 {
        None
    } else if items[0].key == key {
        Some(items[0])
    } else {
        spec_find(items.drop_first(), key)
    }
}

/// What one insert attempt does to the model: the counter always rises; the
/// entry is appended exactly when the risen counter is within capacity.
pub open spec fn spec_add(p: PackView, item: ItemView) -> (PackView, PackState) {
    if p.head + 1 <= MAX_ITEM {
        (
            PackView { id: p.id, items: p.items.push(item), head: p.head + 1 },
            PackState::Added(item.uuid),
        )
    } else {
        (PackView { id: p.id, items: p.items, head: p.head + 1 }, PackState::CapacityFull)
    }
}

/// What a reset does to the model: contents emptied, counter to 0, id kept.
pub open spec fn spec_drop(p: PackView) -> PackView {
    PackView { id: p.id, items: Seq::empty(), head: 0 }
}

impl Pack {
    /// Attempts to insert one entry: raises the counter, then appends and
    /// reports `Added` when the counter is within capacity, else reports
    /// `CapacityFull` without storing anything.
    pub fn add(&mut self, item: Item) -> (r: Option<PackState>)
        requires
            old(self).head < u16::MAX,
        ensures
            final(self)@ == spec_add(old(self)@, item@).0,
            r == Some(spec_add(old(self)@, item@).1),
    {
        self.head = self.head + 1;
        if self.head <= MAX_ITEM {
            let uuid = item.uuid;
            self.items.push(item);
            proof {
                assert(self@.items =~= spec_add(old(self)@, item@).0.items);
                assert(self@ =~= spec_add(old(self)@, item@).0);
            }
            Some(PackState::Added(uuid))
        } else {
            proof {
                assert(self@ =~= spec_add(old(self)@, item@).0);
            }
            Some(PackState::CapacityFull)
        }
    }

    /// Empties the pack and returns the counter to 0; the id is untouched.
    pub fn drop(&mut self)
        ensures
            final(self)@ == spec_drop(old(self)@),
    {
        self.items = Vec::new();
        self.head = 0;
        proof {
            assert(self@.items =~= Seq::<ItemView>::empty());
            assert(self@ =~= spec_drop(old(self)@));
        }
    }

    /// The first entry, in insertion order, whose key matches exactly.
    pub fn get(&self, key: &str) -> (r: Option<&Item>)
        ensures
            match r {
                Some(it) => spec_find(self@.items, key@) == Some(it@),
                None => spec_find(self@.items, key@) is None,
            },
    {
        let ghost all = self@.items;
        let n = self.items.len();
        let mut i: usize = 0;
        proof {
            assert(all.skip(0) =~= all);
        }
        while i < n
            invariant
                0 <= i <= n,
                n == self.items@.len(),
                all == self@.items,
                spec_find(all.skip(i as int), key@) == spec_find(all, key@),
            decreases n - i,
        {
            if str_eq(self.items[i].key.as_str(), key) {
                proof {
                    assert(all.skip(i as int)[0] == all[i as int]);
                }
                return Some(&self.items[i]);
            }
            proof {
                assert(all.skip(i as int).drop_first() =~= all.skip(i as int + 1));
            }
            i = i + 1;
        }
        proof {
            assert(all.skip(n as int) =~= Seq::<ItemView>::empty());
        }
        None
    }

    /// The current position of the insert counter.
    pub fn get_head(&self) -> (r: u16)
        ensures
            r == self@.head,
    {
        self.head
    }
}

/// The shape every reachable pack keeps: the stored length equals the
/// counter, capped at the capacity.
pub open spec fn pack_wf(p: PackView) -> bool {
    &&& 0 <= p.head
    &&& p.items.len() == if p.head <= MAX_ITEM {
        p.head
    } else {
        MAX_ITEM as int
    }
}

/// An insert attempt preserves the pack's shape.
pub proof fn lemma_add_preserves_wf(p: PackView, item: ItemView)
    requires
        pack_wf(p),
    ensures
        pack_wf(spec_add(p, item).0),
{
}

/// Folds a sequence of insert attempts over a pack.
pub open spec fn spec_add_all(p: PackView, items: Seq<ItemView>) -> PackView
    decreases items.len(),
{
    if items.len() == 0 {
        p
    } else {
        spec_add_all(spec_add(p, items[0]).0, items.drop_first())
    }
}

/// The reported states of a sequence of insert attempts, in order.
pub open spec fn spec_add_states(p: PackView, items: Seq<ItemView>) -> Seq<PackState>
    decreases items.len(),
{
    if items.len() == 0 {
        Seq::empty()
    } else {
        seq![spec_add(p, items[0]).1] + spec_add_states(
            spec_add(p, items[0]).0,
            items.drop_first(),
        )
    }
}

/// Inserts that fit within the remaining capacity all succeed: each one is
/// reported `Added` with its entry's identifier, every entry is stored in
/// order, and the counter rises by the number of inserts.
pub proof fn lemma_pack_capacity(p: PackView, items: Seq<ItemView>)
    requires
        0 <= p.head,
        p.head + items.len() <= MAX_ITEM,
    ensures
        spec_add_all(p, items).id == p.id,
        spec_add_all(p, items).head == p.head + items.len(),
        spec_add_all(p, items).items == p.items + items,
        spec_add_states(p, items).len() == items.len(),
        forall|i: int|
            0 <= i < items.len() ==> spec_add_states(p, items)[i] == PackState::Added(
                items[i].uuid,
            ),
    decreases items.len(),
{
    if items.len() == 0 {
        assert(p.items + items =~= p.items);
    } else {
        let (p1, st) = spec_add(p, items[0]);
        lemma_pack_capacity(p1, items.drop_first());
        assert(p1.items + items.drop_first() =~= p.items + items);
    }
}

/// Filling a fresh pack with exactly its capacity of entries reports
/// `Added` for every one of them and leaves the counter at the capacity;
/// the attempt after that reports `CapacityFull` and the stored entries
/// stay as they were.
pub proof fn lemma_fresh_pack_fill(id: u32, items: Seq<ItemView>, extra: ItemView)
    requires
        items.len() == MAX_ITEM,
    ensures
        ({
            let fresh = PackView { id, items: Seq::empty(), head: 0 };
            let full = spec_add_all(fresh, items);
            &&& full.head == MAX_ITEM
            &&& full.items == items
            &&& forall|i: int|
                0 <= i < items.len() ==> spec_add_states(fresh, items)[i] == PackState::Added(
                    items[i].uuid,
                )
            &&& spec_add(full, extra).1 == PackState::CapacityFull
            &&& spec_add(full, extra).0.items == items
        }),
{
    let fresh = PackView { id, items: Seq::empty(), head: 0 };
    lemma_pack_capacity(fresh, items);
    assert(Seq::<ItemView>::empty() + items =~= items);
    lemma_pack_capacity_overflow(spec_add_all(fresh, items), extra);
}

/// Once the counter has reached the capacity, a further insert attempt is
/// reported `CapacityFull`, stores nothing, and still raises the counter.
pub proof fn lemma_pack_capacity_overflow(p: PackView, item: ItemView)
    requires
        p.head >= MAX_ITEM,
    ensures
        spec_add(p, item).1 == PackState::CapacityFull,
        spec_add(p, item).0.items == p.items,
        spec_add(p, item).0.head == p.head + 1,
{
}

/// A reset always yields a counter at 0 and a pack in which no key is found.
pub proof fn lemma_drop_resets(p: PackView, key: Seq<char>)
    ensures
        spec_drop(p).head == 0,
        spec_find(spec_drop(p).items, key) is None,
{
}

/// Resetting twice in succession is the same as resetting once.
pub proof fn lemma_drop_idempotent(p: PackView)
    ensures
        spec_drop(spec_drop(p)) == spec_drop(p),
{
}

/// Looking a key up after an append finds the earlier match first; a fresh
/// key is found exactly when it is the appended entry's key.
pub proof fn lemma_find_push(items: Seq<ItemView>, item: ItemView, key: Seq<char>)
    ensures
        spec_find(items.push(item), key) == if spec_find(items, key) is Some {
            spec_find(items, key)
        } else if item.key == key {
            Some(item)
        } else {
            None::<ItemView>
        },
    decreases items.len(),
{
    if items.len() == 0 {
        assert(items.push(item).drop_first() =~= Seq::<ItemView>::empty());
    } else {
        assert(items.push(item).drop_first() =~= items.drop_first().push(item));
        lemma_find_push(items.drop_first(), item, key);
    }
}

} // verus!
