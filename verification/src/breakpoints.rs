//! The debugger's breakpoint set: addresses in insertion order, none twice.

use vstd::prelude::*;

verus! {

/// No address occurs at two positions.
pub open spec fn distinct(addrs: Seq<u32>) -> bool {
    forall|i: int, j: int| 0 <= i < j < addrs.len() ==> addrs[i] != addrs[j]
}

/// What adding `addr` to `addrs` leaves behind: the set itself when the
/// address is already there, the set with `addr` appended otherwise.
pub open spec fn added(addrs: Seq<u32>, addr: u32) -> Seq<u32> {
    if addrs.contains(addr) {
        addrs
    } else {
        addrs.push(addr)
    }
}

/// The index that adding `addr` to `addrs` reports: the position of the new
/// entry, or nothing when the address is already there.
pub open spec fn added_index(addrs: Seq<u32>, addr: u32) -> Option<usize> {
    if addrs.contains(addr) {
        None
    } else {
        Some(addrs.len() as usize)
    }
}

/// What a lookup of `pc` in `addrs` reports: `pc` itself when it is a
/// breakpoint, nothing otherwise.
pub open spec fn hit(addrs: Seq<u32>, pc: u32) -> Option<u32> {
    if addrs.contains(pc) {
        Some(pc)
    } else {
        None
    }
}

/// Adding keeps the addresses distinct and every earlier entry at its index.
pub proof fn lemma_added_keeps_entries(addrs: Seq<u32>, addr: u32)
    requires
        distinct(addrs),
    ensures
        distinct(added(addrs, addr)),
        added(addrs, addr).contains(addr),
        addrs.len() <= added(addrs, addr).len(),
        forall|i: int| 0 <= i < addrs.len() ==> added(addrs, addr)[i] == addrs[i],
{
    let after = added(addrs, addr);
    if !addrs.contains(addr) {
        assert(after[addrs.len() as int] == addr);
        assert forall|i: int, j: int| 0 <= i < j < after.len() implies after[i] != after[j] by {
            if j == addrs.len() {
                assert(addrs.contains(addrs[i]));
            }
        }
    }
}

/// Breakpoint uniqueness: adding an address that is not yet a breakpoint
/// yields the index at which it then stands; adding it again yields nothing
/// and changes nothing; a lookup then finds that address, and finds no
/// address that was not a breakpoint before.
pub proof fn lemma_add_twice(addrs: Seq<u32>, addr: u32, other: u32)
    requires
        addrs.len() <= usize::MAX,
        !addrs.contains(addr),
    ensures
        added_index(addrs, addr) == Some(addrs.len() as usize),
        added(addrs, addr)[addrs.len() as int] == addr,
        added_index(added(addrs, addr), addr) == None::<usize>,
        added(added(addrs, addr), addr) == added(addrs, addr),
        hit(added(addrs, addr), addr) == Some(addr),
        other != addr && !addrs.contains(other) ==> hit(added(addrs, addr), other) == None::<u32>,
{
    let after = added(addrs, addr);
    assert(after[addrs.len() as int] == addr);
    if other != addr && !addrs.contains(other) {
        if after.contains(other) {
            let i = choose|i: int| 0 <= i < after.len() && after[i] == other;
            assert(i < addrs.len());
            assert(addrs[i] == other);
        }
    }
}

/// An ordered collection of breakpoint addresses. An entry's index is its
/// position in insertion order and never changes: entries are only added.
pub struct Breakpoints {
    addrs: Vec<u32>,
}

impl View for Breakpoints {
    type V = Seq<u32>;

    closed spec fn view(&self) -> Seq<u32> {
        self.addrs@
    }
}

impl Breakpoints {
    /// The invariant of the set: its addresses are pairwise distinct.
    pub open spec fn wf(&self) -> bool {
        distinct(self@)
    }

    /// An empty set.
    pub fn new() -> (set: Breakpoints)
        ensures
            set@ == Seq::<u32>::empty(),
            set.wf(),
    {
        Breakpoints { addrs: Vec::new() }
    }

    /// Number of breakpoints.
    pub fn len(&self) -> (n: usize)
        ensures
            n == self@.len(),
    {
        self.addrs.len()
    }

    /// Whether `addr` is a breakpoint.
    pub fn contains(&self, addr: u32) -> (found: bool)
        ensures
            found == self@.contains(addr),
    {
        let mut i: usize = 0;
        while i < self.addrs.len()
            invariant
                i <= self.addrs.len(),
                forall|k: int| 0 <= k < i ==> self.addrs@[k] != addr,
            decreases self.addrs.len() - i,
        {
            if self.addrs[i] == addr {
                return true;
            }
            i += 1;
        }
        false
    }

    /// The address at position `index`, if there is one.
    pub fn get(&self, index: usize) -> (addr: Option<u32>)
        ensures
            addr == (if index < self@.len() {
                Some(self@[index as int])
            } else {
                None
            }),
    {
        if index < self.addrs.len() {
            Some(self.addrs[index])
        } else {
            None
        }
    }

    /// Adds `addr` unless it is already present. Returns the position of the
    /// new entry, or `None` for a duplicate, which leaves the set unchanged.
    pub fn add(&mut self, addr: u32) -> (index: Option<usize>)
        ensures
            final(self)@ == added(old(self)@, addr),
            index == added_index(old(self)@, addr),
            old(self).wf() ==> final(self).wf(),
    {
        if self.contains(addr) {
            None
        } else {
            let new_index = self.addrs.len();
            self.addrs.push(addr);
            Some(new_index)
        }
    }

    /// Returns `pc` if it is a breakpoint, `None` otherwise.
    pub fn check(&self, pc: u32) -> (found: Option<u32>)
        ensures
            found == hit(self@, pc),
    {
        if self.contains(pc) {
            Some(pc)
        } else {
            None
        }
    }
}

} // verus!
