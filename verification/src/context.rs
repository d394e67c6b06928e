//! The memory map and the access window of the unprivileged context.
//!
//! A privileged handler that is handed a pointer and a length asks here
//! whether the whole range lies in memory that the caller may itself read
//! and write, and touches nothing if it does not.

use vstd::prelude::*;

verus! {

/// What the map holds at one address.
pub struct Byte {
    /// The byte stored there.
    pub value: u8,
    /// Whether the address is in the access window of the unprivileged
    /// context.
    pub unprivileged: bool,
}

/// Why a region could not be mapped.
#[derive(Clone, Copy, PartialEq, Eq, Structural, Debug)]
pub enum MapError {
    /// The region would run past the last address.
    Wraps,
    /// The region shares an address with one that is already mapped.
    Overlaps,
}

/// A run of consecutive bytes.
struct Region {
    base: usize,
    bytes: Vec<u8>,
    unprivileged: bool,
}

impl Region {
    spec fn end(self) -> int {
        self.base + self.bytes@.len()
    }

    spec fn holds(self, address: int) -> bool {
        self.base <= address < self.end()
    }

    spec fn byte(self, address: int) -> Byte {
        Byte { value: self.bytes@[address - self.base], unprivileged: self.unprivileged }
    }
}

/// The mapped memory, region by region. Regions never share an address and
/// none runs past the last address.
pub struct MemoryMap {
    regions: Vec<Region>,
}

/// What a region holds that starts at `base` with the given contents.
pub open spec fn region_map(base: int, bytes: Seq<u8>, unprivileged: bool) -> Map<int, Byte> {
    Map::new(
        |a: int| base <= a < base + bytes.len(),
        |a: int| Byte { value: bytes[a - base], unprivileged },
    )
}

impl MemoryMap {
    #[verifier::type_invariant]
    spec fn well_formed(&self) -> bool {
        &&& forall|i: int|
            0 <= i < self.regions@.len() ==> (#[trigger] self.regions@[i]).end() <= usize::MAX + 1
        &&& forall|i: int, j: int, a: int|
            0 <= i < j < self.regions@.len() && (#[trigger] self.regions@[i].holds(a)) ==> !(
            #[trigger] self.regions@[j].holds(a))
    }

    /// The map as a function from addresses to what is stored there.
    pub closed spec fn view(&self) -> Map<int, Byte> {
        Map::new(
            |a: int| exists|i: int| 0 <= i < self.regions@.len() && #[trigger] self.regions@[i].holds(a),
            |a: int|
                {
                    let i = choose|i: int|
                        0 <= i < self.regions@.len() && #[trigger] self.regions@[i].holds(a);
                    self.regions@[i].byte(a)
                },
        )
    }

    /// Something is mapped at the address.
    pub open spec fn mapped(&self, address: int) -> bool {
        self@.dom().contains(address)
    }

    /// The address is in the access window of the unprivileged context.
    pub open spec fn in_window(&self, address: int) -> bool {
        self@.dom().contains(address) && self@[address].unprivileged
    }

    /// Every byte of `address .. address + length` is mapped.
    pub open spec fn maps(&self, address: int, length: int) -> bool {
        forall|a: int| address <= a < address + length ==> self.mapped(a)
    }

    /// Every byte of `address .. address + length` is in the access window.
    pub open spec fn window_covers(&self, address: int, length: int) -> bool {
        forall|a: int| address <= a < address + length ==> self.in_window(a)
    }

    /// The bytes stored at `address .. address + length`.
    pub open spec fn contents(&self, address: int, length: int) -> Seq<u8> {
        Seq::new(length as nat, |i: int| self@[address + i].value)
    }

    /// A range that touches one address outside the access window is not
    /// covered by it, however much of the rest lies inside: a pointer into
    /// memory that the caller may not access is caught wherever in the range
    /// that memory lies.
    pub proof fn lemma_window_excludes(&self, address: int, length: int, outside: int)
        requires
            address <= outside < address + length,
            !self.in_window(outside),
        ensures
            !self.window_covers(address, length),
    {
    }

    /// What region `i` holds at an address is what the map holds there.
    proof fn lemma_region_is_viewed(&self, i: int, address: int)
        requires
            self.well_formed(),
            0 <= i < self.regions@.len(),
            self.regions@[i].holds(address),
        ensures
            self.mapped(address),
            self@[address] == self.regions@[i].byte(address),
    {
        let k = choose|k: int|
            0 <= k < self.regions@.len() && #[trigger] self.regions@[k].holds(address);
        assert(k == i);
    }

    /// Nothing is mapped from the end of the address space on.
    proof fn lemma_mapped_is_addressable(&self, address: int)
        requires
            self.well_formed(),
            self.mapped(address),
        ensures
            0 <= address <= usize::MAX,
    {
        let k = choose|k: int|
            0 <= k < self.regions@.len() && #[trigger] self.regions@[k].holds(address);
        assert(self.regions@[k].end() <= usize::MAX + 1);
    }

    /// A map with nothing in it.
    pub fn new() -> (map: MemoryMap)
        ensures
            map@ == Map::<int, Byte>::empty(),
    {
        let map = MemoryMap { regions: Vec::new() };
        assert(map@ =~= Map::<int, Byte>::empty());
        map
    }

    /// The region that holds the address, if one does.
    fn find(&self, address: usize) -> (found: Option<usize>)
        ensures
            match found {
                Some(i) => i < self.regions@.len() && self.regions@[i as int].holds(address as int),
                None => !self.mapped(address as int),
            },
    {
        let mut i: usize = 0;
        while i < self.regions.len()
            invariant
                i <= self.regions@.len(),
                forall|k: int| 0 <= k < i ==> !(#[trigger] self.regions@[k].holds(address as int)),
            decreases self.regions@.len() - i,
        {
            let region = &self.regions[i];
            if region.base <= address && address - region.base < region.bytes.len() {
                return Some(i);
            }
            i = i + 1;
        }
        None
    }

    /// Maps `bytes` at `base`, inside the access window of the unprivileged
    /// context or outside it.
    ///
    /// A region that would run past the last address, or that shares an
    /// address with what is mapped, is refused and the map stays as it was.
    pub fn map(&mut self, base: usize, bytes: Vec<u8>, unprivileged: bool) -> (outcome: Result<
        (),
        MapError,
    >)
        ensures
            outcome is Ok <==> base + bytes@.len() <= usize::MAX + 1 && forall|a: int|
                base <= a < base + bytes@.len() ==> !old(self).mapped(a),
            outcome == Err::<(), MapError>(MapError::Wraps) <==> base + bytes@.len() > usize::MAX
                + 1,
            outcome == Err::<(), MapError>(MapError::Overlaps) <==> base + bytes@.len()
                <= usize::MAX + 1 && exists|a: int|
                base <= a < base + bytes@.len() && old(self).mapped(a),
            outcome is Err ==> final(self)@ == old(self)@,
            outcome is Ok ==> final(self)@ == old(self)@.union_prefer_right(
                region_map(base as int, bytes@, unprivileged),
            ),
    {
        proof {
            use_type_invariant(&*self);
        }
        let length: usize = bytes.len();
        if length == 0 {
            assert(self@.union_prefer_right(region_map(base as int, bytes@, unprivileged))
                =~= self@);
            return Ok(());
        }
        if base > usize::MAX - (length - 1) {
            return Err(MapError::Wraps);
        }
        let last: usize = base + (length - 1);
        let mut i: usize = 0;
        while i < self.regions.len()
            invariant
                i <= self.regions@.len(),
                self.well_formed(),
                length == bytes@.len(),
                length > 0,
                last == base + length - 1,
                forall|k: int, a: int|
                    0 <= k < i && base <= a <= last ==> !(#[trigger] self.regions@[k].holds(a)),
            decreases self.regions@.len() - i,
        {
            let region = &self.regions[i];
            let held: usize = region.bytes.len();
            if held > 0 && region.base <= last && base <= region.base + (held - 1) {
                proof {
                    let a: int = if base >= region.base {
                        base as int
                    } else {
                        region.base as int
                    };
                    assert(self.regions@[i as int].holds(a));
                    self.lemma_region_is_viewed(i as int, a);
                }
                return Err(MapError::Overlaps);
            }
            i = i + 1;
        }
        let ghost before = *self;
        let mut grown = MemoryMap { regions: Vec::new() };
        core::mem::swap(self, &mut grown);
        let mut regions: Vec<Region> = grown.regions;
        regions.push(Region { base, bytes, unprivileged });
        proof {
            let n = before.regions@.len() as int;
            assert(forall|k: int| 0 <= k < n ==> regions@[k] == before.regions@[k]);
            assert forall|a: int| base <= a < base + length implies !before.mapped(a) by {
                if before.mapped(a) {
                    let k = choose|k: int|
                        0 <= k < before.regions@.len() && #[trigger] before.regions@[k].holds(a);
                    assert(!before.regions@[k].holds(a));
                }
            }
        }
        *self = MemoryMap { regions };
        proof {
            let n = before.regions@.len() as int;
            let merged = before@.union_prefer_right(region_map(base as int, bytes@, unprivileged));
            assert forall|a: int| merged.dom().contains(a) implies #[trigger] self@.dom().contains(
                a,
            ) && self@[a] == merged[a] by {
                if base <= a < base + length {
                    assert(self.regions@[n].holds(a));
                    self.lemma_region_is_viewed(n, a);
                } else {
                    let k = choose|k: int|
                        0 <= k < before.regions@.len() && #[trigger] before.regions@[k].holds(a);
                    before.lemma_region_is_viewed(k, a);
                    assert(self.regions@[k].holds(a));
                    self.lemma_region_is_viewed(k, a);
                }
            }
            assert forall|a: int| self@.dom().contains(a) implies #[trigger] merged.dom().contains(
                a,
            ) by {
                let k = choose|k: int|
                    0 <= k < self.regions@.len() && #[trigger] self.regions@[k].holds(a);
                if k < n {
                    assert(before.regions@[k].holds(a));
                    before.lemma_region_is_viewed(k, a);
                }
            }
            assert(self@ =~= merged);
        }
        Ok(())
    }

    /// Answers whether every byte of `address .. address + length` lies in
    /// memory that the unprivileged context may read and write.
    ///
    /// An empty range is readable wherever it starts. A range that runs past
    /// the last address is not.
    pub fn is_readable_from_current_context(&self, address: usize, length: usize) -> (readable:
        bool)
        ensures
            readable == self.window_covers(address as int, length as int),
    {
        proof {
            use_type_invariant(self);
        }
        let mut cursor: usize = address;
        let mut left: usize = length;
        while left > 0
            invariant
                self.well_formed(),
                address <= cursor,
                cursor + left == address + length,
                self.window_covers(address as int, cursor - address),
            decreases left,
        {
            match self.find(cursor) {
                None => {
                    assert(!self.in_window(cursor as int));
                    return false;
                },
                Some(i) => {
                    let region = &self.regions[i];
                    proof {
                        self.lemma_region_is_viewed(i as int, cursor as int);
                    }
                    if !region.unprivileged {
                        assert(!self.in_window(cursor as int));
                        return false;
                    }
                    let ahead: usize = region.bytes.len() - (cursor - region.base);
                    assert forall|a: int| cursor <= a < cursor + ahead implies self.in_window(
                        a,
                    ) by {
                        assert(self.regions@[i as int].holds(a));
                        self.lemma_region_is_viewed(i as int, a);
                    }
                    if left <= ahead {
                        return true;
                    }
                    if cursor > usize::MAX - ahead {
                        proof {
                            let beyond: int = usize::MAX + 1;
                            if self.mapped(beyond) {
                                self.lemma_mapped_is_addressable(beyond);
                            }
                            assert(!self.in_window(beyond));
                        }
                        return false;
                    }
                    left = left - ahead;
                    cursor = cursor + ahead;
                },
            }
        }
        true
    }

    /// Reads `address .. address + length`. There is a result if and only if
    /// every byte of the range is mapped.
    pub fn read(&self, address: usize, length: usize) -> (bytes: Option<Vec<u8>>)
        ensures
            bytes is Some <==> self.maps(address as int, length as int),
            bytes matches Some(read) ==> read@ == self.contents(address as int, length as int),
    {
        proof {
            use_type_invariant(self);
        }
        let mut read: Vec<u8> = Vec::new();
        let mut done: usize = 0;
        while done < length
            invariant
                self.well_formed(),
                done <= length,
                self.maps(address as int, done as int),
                read@ == self.contents(address as int, done as int),
            decreases length - done,
        {
            if address > usize::MAX - done {
                proof {
                    if self.mapped(address + done) {
                        self.lemma_mapped_is_addressable(address + done);
                    }
                }
                return None;
            }
            let at: usize = address + done;
            match self.find(at) {
                None => {
                    return None;
                },
                Some(i) => {
                    let region = &self.regions[i];
                    proof {
                        self.lemma_region_is_viewed(i as int, at as int);
                    }
                    read.push(region.bytes[at - region.base]);
                },
            }
            done = done + 1;
            assert(read@ =~= self.contents(address as int, done as int));
        }
        Some(read)
    }
}

} // verus!
