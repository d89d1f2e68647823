//! Items, the 28-slot inventory and the bank it is emptied into.

use vstd::prelude::*;

verus! {

/// Number of slots in an inventory.
pub const INVENTORY_SLOTS: usize = 28;

/// `p` is a prefix of `s`.
pub open spec fn has_prefix(s: Seq<char>, p: Seq<char>) -> bool {
    p.len() <= s.len() && s.subrange(0, p.len() as int) == p
}

/// Relies on `str::starts_with` with a string pattern: true exactly when
/// `prefix` is a prefix of `s`.
#[verifier::external_body]
fn starts_with(s: &str, prefix: &str) -> (r: bool)
    ensures
        r == has_prefix(s@, prefix@),
{
    s.starts_with(prefix)
}

/// A named stack of some quantity.
#[derive(Clone, Debug)]
pub struct Item {
    pub name: String,
    pub quantity: usize,
}

/// Certificates (names starting with `cert_`) fill one slot whatever their
/// quantity.
pub open spec fn is_certificate(name: Seq<char>) -> bool {
    has_prefix(name, "cert_"@)
}

impl Item {
    pub fn new(name: &str, quantity: usize) -> (r: Item)
        ensures
            r.name@ == name@,
            r.quantity == quantity,
    {
        Item { name: name.to_owned(), quantity: quantity }
    }

    /// Slots the item would fill if every unit took one.
    pub fn slots_needed(&self) -> (r: usize)
        ensures
            r == if is_certificate(self.name@) { 1 } else { self.quantity },
    {
        if starts_with(self.name.as_str(), "cert_") {
            1
        } else {
            self.quantity
        }
    }
}

/// `a + b` wrapped into the range of `usize`.
pub open spec fn wrapped_sum(a: usize, b: usize) -> usize {
    if a + b > usize::MAX {
        (a + b - usize::MAX - 1) as usize
    } else {
        (a + b) as usize
    }
}

/// Slot `i` of `items` holds a stack named `name`.
pub open spec fn holds_at(items: Seq<Option<Item>>, i: int, name: Seq<char>) -> bool {
    0 <= i < items.len() && items[i] is Some && items[i]->Some_0.name@ == name
}

/// No two entries share a name.
pub open spec fn distinct_entries(entries: Seq<Item>) -> bool {
    forall|i: int, j: int|
        0 <= i < entries.len() && 0 <= j < entries.len() && i != j ==> entries[i].name@
            != entries[j].name@
}

/// The position of the entry named `name`, or -1.
pub open spec fn entry_index(entries: Seq<Item>, name: Seq<char>) -> int {
    if exists|i: int| 0 <= i < entries.len() && entries[i].name@ == name {
        choose|i: int| 0 <= i < entries.len() && entries[i].name@ == name
    } else {
        -1
    }
}

/// The entries after storing `item`: its quantity is added, with wrapping,
/// to the entry of the same name, or it becomes a new last entry.
pub open spec fn store_spec(entries: Seq<Item>, item: Item) -> Seq<Item> {
    let i = entry_index(entries, item.name@);
    if i >= 0 {
        entries.update(
            i,
            Item { name: entries[i].name, quantity: wrapped_sum(entries[i].quantity, item.quantity) },
        )
    } else {
        entries.push(item)
    }
}

/// The entries after storing every stack of `items`, first slot first.
pub open spec fn store_all(entries: Seq<Item>, items: Seq<Option<Item>>) -> Seq<Item>
    decreases items.len(),
{
    if items.len() == 0 {
        entries
    } else {
        let before = store_all(entries, items.drop_last());
        match items.last() {
            Some(item) => store_spec(before, item),
            None => before,
        }
    }
}

/// Totals per item name of everything that was banked.
#[derive(Debug)]
pub struct Bank {
    lookup: Vec<Item>,
}

impl Bank {
    pub closed spec fn entries(&self) -> Seq<Item> {
        self.lookup@
    }

    pub open spec fn wf(&self) -> bool {
        distinct_entries(self.entries())
    }

    pub fn new() -> (r: Bank)
        ensures
            r.entries() == Seq::<Item>::empty(),
            r.wf(),
    {
        Bank { lookup: Vec::new() }
    }

    fn find(&self, name: &String) -> (r: Option<usize>)
        requires
            self.wf(),
        ensures
            entry_index(self.entries(), name@) == match r {
                Some(i) => i as int,
                None => -1,
            },
    {
        let mut i: usize = 0;
        while i < self.lookup.len()
            invariant
                i <= self.lookup@.len(),
                self.wf(),
                forall|j: int| 0 <= j < i ==> self.lookup@[j].name@ != name@,
            decreases self.lookup@.len() - i,
        {
            if self.lookup[i].name == *name {
                return Some(i);
            }
            i += 1;
        }
        None
    }

    /// Total banked under `name`, zero if none.
    pub fn total_of(&self, name: &str) -> (r: usize)
        requires
            self.wf(),
        ensures
            r == if entry_index(self.entries(), name@) >= 0 {
                self.entries()[entry_index(self.entries(), name@)].quantity
            } else {
                0
            },
    {
        match self.find(&name.to_owned()) {
            Some(i) => self.lookup[i].quantity,
            None => 0,
        }
    }

    /// Adds the item's quantity to its name's total, wrapping on overflow.
    pub fn store(&mut self, item: &Item)
        requires
            old(self).wf(),
        ensures
            final(self).entries() == store_spec(old(self).entries(), *item),
            final(self).wf(),
    {
        match self.find(&item.name) {
            Some(i) => {
                let name = self.lookup[i].name.clone();
                let total = self.lookup[i].quantity.wrapping_add(item.quantity);
                self.lookup.set(i, Item { name, quantity: total });
            },
            None => {
                self.lookup.push(Item { name: item.name.clone(), quantity: item.quantity });
            },
        }
    }
}

/// Up to 28 stacks, at most one per item name.
#[derive(Clone, Debug)]
pub struct Inventory {
    pub items: Vec<Option<Item>>,
}

impl Inventory {
    /// Exactly 28 slots, and no name in two of them.
    pub open spec fn wf(&self) -> bool {
        &&& self.items@.len() == INVENTORY_SLOTS
        &&& forall|i: int, j: int|
            #![trigger self.items@[i], self.items@[j]]
            0 <= i < self.items@.len() && 0 <= j < self.items@.len() && self.items@[i] is Some
                && self.items@[j] is Some && self.items@[i]->Some_0.name@
                == self.items@[j]->Some_0.name@ ==> i == j
    }

    /// Whether the inventory is well formed: 28 slots, no name twice.
    pub fn is_wf(&self) -> (r: bool)
        ensures
            r == self.wf(),
    {
        if self.items.len() != INVENTORY_SLOTS {
            return false;
        }
        let mut i: usize = 0;
        while i < self.items.len()
            invariant
                i <= self.items@.len(),
                forall|a: int, b: int|
                    #![trigger self.items@[a], self.items@[b]]
                    0 <= a < i && 0 <= b < self.items@.len() && self.items@[a] is Some
                        && self.items@[b] is Some && self.items@[a]->Some_0.name@
                        == self.items@[b]->Some_0.name@ ==> a == b,
            decreases self.items@.len() - i,
        {
            if let Some(first) = &self.items[i] {
                let mut j: usize = 0;
                while j < self.items.len()
                    invariant
                        i < self.items@.len(),
                        j <= self.items@.len(),
                        self.items@[i as int] == Some(*first),
                        forall|b: int|
                            0 <= b < j && #[trigger] self.items@[b] is Some
                                && self.items@[b]->Some_0.name@ == first.name@ ==> b == i,
                    decreases self.items@.len() - j,
                {
                    if j != i {
                        if let Some(second) = &self.items[j] {
                            if first.name == second.name {
                                return false;
                            }
                        }
                    }
                    j += 1;
                }
            }
            i += 1;
        }
        true
    }

    /// The slot holding `name`, if any.
    pub open spec fn slot_of(&self, name: Seq<char>) -> Option<int> {
        if exists|i: int| holds_at(self.items@, i, name) {
            Some(choose|i: int| holds_at(self.items@, i, name))
        } else {
            None
        }
    }

    /// How many of `name` the inventory holds.
    pub open spec fn total_spec(&self, name: Seq<char>) -> usize {
        match self.slot_of(name) {
            Some(i) => self.items@[i]->Some_0.quantity,
            None => 0,
        }
    }

    pub open spec fn has_free_slot(&self) -> bool {
        exists|i: int| 0 <= i < self.items@.len() && self.items@[i] is None
    }

    /// How many of `name` the inventory holds.
    pub fn total_of(&self, item_name: &str) -> (r: usize)
        requires
            self.wf(),
        ensures
            r == self.total_spec(item_name@),
    {
        match self.index_of(item_name) {
            Some(i) => {
                match &self.items[i] {
                    Some(item) => item.quantity,
                    None => 0,
                }
            },
            None => 0,
        }
    }

    /// The slot holding `item_name`, if any.
    pub fn index_of(&self, item_name: &str) -> (r: Option<usize>)
        requires
            self.wf(),
        ensures
            r == match self.slot_of(item_name@) {
                Some(i) => Some(i as usize),
                None => None::<usize>,
            },
    {
        let wanted = item_name.to_owned();
        let mut i: usize = 0;
        while i < self.items.len()
            invariant
                i <= self.items@.len(),
                self.wf(),
                wanted@ == item_name@,
                forall|j: int| 0 <= j < i ==> !holds_at(self.items@, j, item_name@),
            decreases self.items@.len() - i,
        {
            match &self.items[i] {
                Some(item) => {
                    if item.name == wanted {
                        assert(holds_at(self.items@, i as int, item_name@));
                        return Some(i);
                    }
                },
                None => {},
            }
            i += 1;
        }
        None
    }

    /// The first empty slot, if any.
    pub fn first_available(&self) -> (r: Option<usize>)
        ensures
            match r {
                Some(i) => i < self.items@.len() && self.items@[i as int] is None && forall|j: int|
                    0 <= j < i ==> self.items@[j] is Some,
                None => !self.has_free_slot(),
            },
    {
        let mut i: usize = 0;
        while i < self.items.len()
            invariant
                i <= self.items@.len(),
                forall|j: int| 0 <= j < i ==> self.items@[j] is Some,
            decreases self.items@.len() - i,
        {
            if self.items[i].is_none() {
                return Some(i);
            }
            i += 1;
        }
        None
    }

    /// Whether a new kind of item still fits.
    pub fn can_loot(&self) -> (r: bool)
        ensures
            r == self.has_free_slot(),
    {
        self.first_available().is_some()
    }

    /// Adds `item` to the stack of the same name, or puts it in the first
    /// empty slot.
    pub fn add_item(&mut self, item: Item)
        requires
            old(self).wf(),
            old(self).slot_of(item.name@) is Some || old(self).has_free_slot(),
            old(self).total_spec(item.name@) + item.quantity <= usize::MAX,
        ensures
            final(self).wf(),
            match old(self).slot_of(item.name@) {
                Some(i) => final(self).items@ == old(self).items@.update(
                    i,
                    Some(
                        Item {
                            name: old(self).items@[i]->Some_0.name,
                            quantity: (old(self).total_spec(item.name@) + item.quantity) as usize,
                        },
                    ),
                ),
                None => exists|i: int|
                    0 <= i < old(self).items@.len() && old(self).items@[i] is None && (forall|j: int|
                        0 <= j < i ==> old(self).items@[j] is Some) && final(self).items@
                        == old(self).items@.update(i, Some(item)),
            },
    {
        match self.index_of(item.name.as_str()) {
            Some(i) => {
                let name = match &self.items[i] {
                    Some(existing) => existing.name.clone(),
                    None => item.name.clone(),
                };
                let quantity = self.total_of(item.name.as_str()) + item.quantity;
                let ghost pre = self.items@;
                self.items.set(i, Some(Item { name, quantity }));
                assert forall|a: int| 0 <= a < pre.len() && pre[a] is Some implies self.items@[a] is Some
                    && self.items@[a]->Some_0.name@ == pre[a]->Some_0.name@ by {}
            },
            None => {
                match self.first_available() {
                    Some(slot) => {
                        let ghost pre = self.items@;
                        let ghost name = item.name@;
                        self.items.set(slot, Some(item));
                        assert forall|a: int| 0 <= a < pre.len() && a != slot && pre[a] is Some implies pre[a]->Some_0.name@ != name by {
                            assert(holds_at(pre, a, pre[a]->Some_0.name@));
                            if pre[a]->Some_0.name@ == name {
                                assert(holds_at(pre, a, name));
                            }
                        }
                    },
                    None => {},
                }
            },
        }
    }

    /// Empties every slot.
    pub fn clear(&mut self)
        ensures
            final(self).items@.len() == old(self).items@.len(),
            forall|i: int| 0 <= i < final(self).items@.len() ==> final(self).items@[i] is None,
    {
        let mut i: usize = 0;
        while i < self.items.len()
            invariant
                i <= self.items@.len(),
                self.items@.len() == old(self).items@.len(),
                forall|j: int| 0 <= j < i ==> self.items@[j] is None,
            decreases self.items@.len() - i,
        {
            self.items.set(i, None);
            i += 1;
        }
    }

    /// Stores every stack in `bank`, first slot first, and empties the
    /// inventory.
    pub fn bank(&mut self, bank: &mut Bank)
        requires
            old(bank).wf(),
        ensures
            final(bank).wf(),
            final(bank).entries() == store_all(old(bank).entries(), old(self).items@),
            final(self).items@.len() == old(self).items@.len(),
            forall|i: int| 0 <= i < final(self).items@.len() ==> final(self).items@[i] is None,
    {
        let mut i: usize = 0;
        while i < self.items.len()
            invariant
                i <= self.items@.len(),
                self.items@ == old(self).items@,
                bank.wf(),
                bank.entries() == store_all(old(bank).entries(), self.items@.take(i as int)),
            decreases self.items@.len() - i,
        {
            assert(self.items@.take(i + 1).drop_last() == self.items@.take(i as int));
            match &self.items[i] {
                Some(item) => bank.store(item),
                None => {},
            }
            i += 1;
        }
        assert(self.items@.take(i as int) == self.items@);
        self.clear();
    }
}

impl Default for Inventory {
    fn default() -> (r: Inventory)
        ensures
            r.wf(),
            r.items@.len() == INVENTORY_SLOTS,
            forall|i: int| 0 <= i < r.items@.len() ==> r.items@[i] is None,
    {
        let mut items: Vec<Option<Item>> = Vec::new();
        let mut i: usize = 0;
        while i < INVENTORY_SLOTS
            invariant
                i <= INVENTORY_SLOTS,
                items@.len() == i,
                forall|j: int| 0 <= j < i ==> items@[j] is None,
            decreases INVENTORY_SLOTS - i,
        {
            items.push(None);
            i += 1;
        }
        Inventory { items }
    }
}

} // verus!
