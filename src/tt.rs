//! The transposition table: a direct-mapped cache of search results.
use vstd::prelude::*;

use crate::chess_move::ChessMove;

verus! {

/// What a stored score is: exact, or a bound.
#[derive(Debug, Copy, Clone, Eq, PartialEq, Structural)]
pub enum PVType {
    /// An exact score.
    PV,
    /// An upper bound: the search failed low.
    Upper,
    /// A lower bound: the search failed high.
    Lower,
}

/// A search result stored under the hash of its position.
#[derive(Debug, Copy, Clone, Eq, PartialEq, Structural)]
pub struct TranspositionEntry {
    pub key: u64,
    pub best_move: ChessMove,
    pub depth: u8,
    pub score: i32,
    pub node_type: PVType,
}

impl TranspositionEntry {
    pub fn new(key: u64, best_move: ChessMove, depth: u8, score: i32, node_type: PVType) -> (r: Self)
        ensures
            r == (TranspositionEntry { key, best_move, depth, score, node_type }),
    {
        TranspositionEntry { key, best_move, depth, score, node_type }
    }

    pub fn best_move(&self) -> (r: ChessMove)
        ensures
            r == self.best_move,
    {
        self.best_move
    }

    pub fn key(&self) -> (r: u64)
        ensures
            r == self.key,
    {
        self.key
    }

    pub fn depth(&self) -> (r: u8)
        ensures
            r == self.depth,
    {
        self.depth
    }

    pub fn score(&self) -> (r: i32)
        ensures
            r == self.score,
    {
        self.score
    }

    pub fn node_type(&self) -> (r: PVType)
        ensures
            r == self.node_type,
    {
        self.node_type
    }
}

/// Number of occupied slots among the first `n`.
pub open spec fn occupied_count(slots: Seq<Option<TranspositionEntry>>, n: int) -> nat
    decreases n,
{
    if n <= 0 {
        0
    } else {
        occupied_count(slots, n - 1) + if slots[n - 1].is_some() { 1nat } else { 0nat }
    }
}

/// Whether `new_entry` replaces `existing` in a slot: an exact score always
/// wins, a different position evicts the stored one, and otherwise the
/// deeper-or-equal search wins.
pub open spec fn replaces(new_entry: TranspositionEntry, existing: TranspositionEntry) -> bool {
    new_entry.node_type == PVType::PV || new_entry.key != existing.key || new_entry.depth >= existing.depth
}

/// The slot of `key` in a table of `capacity` slots.
pub open spec fn slot_of(key: u64, capacity: nat) -> int {
    (key as nat % capacity) as int
}

/// The slots after inserting `new_entry` under `key`.
pub open spec fn spec_insert(slots: Seq<Option<TranspositionEntry>>, key: u64, new_entry: TranspositionEntry) -> Seq<
    Option<TranspositionEntry>,
> {
    let i = slot_of(key, slots.len());
    match slots[i] {
        None => slots.update(i, Some(new_entry)),
        Some(existing) => if replaces(new_entry, existing) {
            slots.update(i, Some(new_entry))
        } else {
            slots
        },
    }
}

/// A fixed-capacity direct-mapped cache from position hash to search result.
#[derive(Debug)]
pub struct TranspositionTable {
    len: usize,
    capacity: usize,
    entries: Vec<Option<TranspositionEntry>>,
}

impl TranspositionTable {
    /// The slots of the table.
    pub closed spec fn view(&self) -> Seq<Option<TranspositionEntry>> {
        self.entries@
    }

    /// The table has at least one slot, and `len` counts the occupied ones.
    pub closed spec fn wf(&self) -> bool {
        &&& self.capacity > 0
        &&& self.entries@.len() == self.capacity
        &&& self.len == occupied_count(self.entries@, self.entries@.len() as int)
    }

    /// The number of occupied slots.
    pub closed spec fn spec_len(&self) -> nat {
        self.len as nat
    }

    /// An empty table of `tt_size` slots.
    pub fn new(tt_size: usize) -> (r: Self)
        requires
            tt_size > 0,
        ensures
            r.wf(),
            r@.len() == tt_size,
            forall|i: int| 0 <= i < tt_size ==> r@[i].is_none(),
            r.spec_len() == 0,
    {
        let mut entries: Vec<Option<TranspositionEntry>> = Vec::new();
        let mut i: usize = 0;
        while i < tt_size
            invariant
                i <= tt_size,
                entries@.len() == i,
                forall|j: int| 0 <= j < i ==> entries@[j].is_none(),
            decreases tt_size - i,
        {
            entries.push(None);
            i = i + 1;
        }
        proof {
            lemma_count_zero(entries@, i as int);
        }
        TranspositionTable { len: 0, capacity: tt_size, entries }
    }

    /// The number of slots, fixed at construction.
    pub fn capacity(&self) -> (r: usize)
        requires
            self.wf(),
        ensures
            r == self@.len(),
    {
        self.capacity
    }

    /// The number of occupied slots.
    pub fn len(&self) -> (r: usize)
        requires
            self.wf(),
        ensures
            r == self.spec_len(),
            r == occupied_count(self@, self@.len() as int),
    {
        self.len
    }

    /// Whether no slot is occupied.
    pub fn is_empty(&self) -> (r: bool)
        requires
            self.wf(),
        ensures
            r == (self.spec_len() == 0),
    {
        self.len == 0
    }

    /// Stores `new_entry` in the slot of `key`: an empty slot takes it and the
    /// length grows by one; an occupied slot takes it only when it replaces the
    /// stored entry (see `replaces`).
    pub fn insert(&mut self, key: u64, new_entry: TranspositionEntry)
        requires
            old(self).wf(),
        ensures
            final(self).wf(),
            final(self)@ == spec_insert(old(self)@, key, new_entry),
            final(self).spec_len() == old(self).spec_len() + if old(self)@[slot_of(key, old(self)@.len())].is_none() {
                1nat
            } else {
                0nat
            },
    {
        let i = (key % (self.capacity as u64)) as usize;
        match self.entries[i] {
            None => {
                proof {
                    lemma_count_below(self.entries@, self.entries@.len() as int, i as int);
                    lemma_count_update(self.entries@, i as int, Some(new_entry));
                }
                self.len = self.len + 1;
                self.entries.set(i, Some(new_entry));
            },
            Some(existing) => {
                if new_entry.node_type == PVType::PV || new_entry.key != existing.key || new_entry.depth
                    >= existing.depth {
                    proof {
                        lemma_count_update(self.entries@, i as int, Some(new_entry));
                    }
                    self.entries.set(i, Some(new_entry));
                }
            },
        }
    }

    /// The entry in the slot of `key`, if one is stored there under `key`
    /// itself; a different key in the slot reads as absent.
    pub fn get(&self, key: u64) -> (r: Option<TranspositionEntry>)
        requires
            self.wf(),
        ensures
            r == (match self@[slot_of(key, self@.len())] {
                Some(e) => if e.key == key {
                    Some(e)
                } else {
                    None
                },
                None => None,
            }),
    {
        let i = (key % (self.capacity as u64)) as usize;
        match self.entries[i] {
            Some(e) => if e.key == key {
                Some(e)
            } else {
                None
            },
            None => None,
        }
    }

    /// The stored entries, in slot order.
    pub fn entries(&self) -> (r: Vec<TranspositionEntry>)
        requires
            self.wf(),
        ensures
            r@ == stored(self@, self@.len() as int),
    {
        let mut out: Vec<TranspositionEntry> = Vec::new();
        let mut i: usize = 0;
        while i < self.capacity
            invariant
                self.wf(),
                i <= self.capacity,
                out@ == stored(self.entries@, i as int),
            decreases self.capacity - i,
        {
            match self.entries[i] {
                Some(e) => out.push(e),
                None => {},
            }
            i = i + 1;
        }
        out
    }

    /// Empties every slot and returns how many entries were dropped.
    pub fn clear(&mut self) -> (r: usize)
        requires
            old(self).wf(),
        ensures
            final(self).wf(),
            r == old(self).spec_len(),
            final(self).spec_len() == 0,
            final(self)@.len() == old(self)@.len(),
            forall|i: int| 0 <= i < final(self)@.len() ==> final(self)@[i].is_none(),
    {
        let count = self.len;
        let mut i: usize = 0;
        while i < self.capacity
            invariant
                self.capacity > 0,
                self.entries@.len() == self.capacity,
                i <= self.capacity,
                self.entries@.len() == old(self)@.len(),
                forall|j: int| 0 <= j < i ==> self.entries@[j].is_none(),
            decreases self.capacity - i,
        {
            self.entries.set(i, None);
            i = i + 1;
        }
        proof {
            lemma_count_zero(self.entries@, i as int);
        }
        self.len = 0;
        count
    }
}

/// The stored entries among the first `n` slots, in slot order.
pub open spec fn stored(slots: Seq<Option<TranspositionEntry>>, n: int) -> Seq<TranspositionEntry>
    decreases n,
{
    if n <= 0 {
        Seq::empty()
    } else {
        match slots[n - 1] {
            Some(e) => stored(slots, n - 1).push(e),
            None => stored(slots, n - 1),
        }
    }
}

/// At most `n` of the first `n` slots are occupied, fewer when slot `i` among them is empty.
proof fn lemma_count_below(slots: Seq<Option<TranspositionEntry>>, n: int, i: int)
    requires
        0 <= n,
    ensures
        occupied_count(slots, n) <= n,
        0 <= i < n && slots[i].is_none() ==> occupied_count(slots, n) < n,
    decreases n,
{
    if n > 0 {
        lemma_count_below(slots, n - 1, i);
    }
}

proof fn lemma_count_zero(slots: Seq<Option<TranspositionEntry>>, n: int)
    requires
        0 <= n <= slots.len(),
        forall|j: int| 0 <= j < n ==> slots[j].is_none(),
    ensures
        occupied_count(slots, n) == 0,
    decreases n,
{
    if n > 0 {
        lemma_count_zero(slots, n - 1);
    }
}

/// Writing slot `i` changes the count by what the slot gains or loses.
proof fn lemma_count_update(slots: Seq<Option<TranspositionEntry>>, i: int, v: Option<TranspositionEntry>)
    requires
        0 <= i < slots.len(),
    ensures
        forall|n: int|
            0 <= n <= slots.len() ==> #[trigger] occupied_count(slots.update(i, v), n) + (if n > i && slots[i].is_some() {
                1nat
            } else {
                0nat
            }) == occupied_count(slots, n) + (if n > i && v.is_some() { 1nat } else { 0nat }),
{
    assert forall|n: int| 0 <= n <= slots.len() implies #[trigger] occupied_count(slots.update(i, v), n) + (if n > i
        && slots[i].is_some() {
        1nat
    } else {
        0nat
    }) == occupied_count(slots, n) + (if n > i && v.is_some() { 1nat } else { 0nat }) by {
        lemma_count_update_at(slots, i, v, n);
    }
}

proof fn lemma_count_update_at(slots: Seq<Option<TranspositionEntry>>, i: int, v: Option<TranspositionEntry>, n: int)
    requires
        0 <= i < slots.len(),
        0 <= n <= slots.len(),
    ensures
        occupied_count(slots.update(i, v), n) + (if n > i && slots[i].is_some() { 1nat } else { 0nat })
            == occupied_count(slots, n) + (if n > i && v.is_some() { 1nat } else { 0nat }),
    decreases n,
{
    if n > 0 {
        lemma_count_update_at(slots, i, v, n - 1);
    }
}

/// The replacement policy: in the slot of the new entry's key, an exact (PV)
/// entry always replaces what is stored; an entry under the same key with a
/// greater depth replaces a shallower one; an entry under a different key
/// evicts whatever occupies the slot. Other slots are unchanged.
pub proof fn lemma_replacement_policy(slots: Seq<Option<TranspositionEntry>>, new_entry: TranspositionEntry)
    requires
        slots.len() > 0,
    ensures
        ({
            let i = slot_of(new_entry.key, slots.len());
            let after = spec_insert(slots, new_entry.key, new_entry);
            &&& after.len() == slots.len()
            &&& forall|j: int| 0 <= j < slots.len() && j != i ==> after[j] == slots[j]
            &&& new_entry.node_type == PVType::PV ==> after[i] == Some(new_entry)
            &&& (slots[i] matches Some(e) && e.key == new_entry.key && new_entry.depth > e.depth) ==> after[i] == Some(
                new_entry,
            )
            &&& (slots[i] matches Some(e) && e.key != new_entry.key) ==> after[i] == Some(new_entry)
            &&& slots[i].is_none() ==> after[i] == Some(new_entry)
        }),
{
}

} // verus!
