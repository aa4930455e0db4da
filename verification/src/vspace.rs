//! A four-level address space over page tables held in physical frames.
//!
//! A table fills one frame of 4096 bytes and has 512 entries. An entry that
//! is valid and marked as a table names the frame of the table one level
//! down; any other valid entry maps memory. The frames that hold tables are
//! kept in a vector, frame number by frame number, so that following an
//! entry is an index into that vector. An entry that names a frame outside
//! the vector leads nowhere.

use vstd::prelude::*;

verus! {

/// Entries in one table.
pub const ENTRIES: usize = 512;

/// The level of the root table.
pub const ROOT_LEVEL: usize = 4;

/// One entry of a page table.
#[derive(Clone, Copy, Debug, PartialEq, Eq, Structural)]
pub struct Entry {
    pub valid: bool,
    pub table: bool,
    pub paddr: u64,
}

/// Why an entry could not be looked up or changed.
#[derive(Clone, Copy, Debug, PartialEq, Eq, Structural)]
pub enum Error {
    /// The slot already holds a valid entry.
    SlotOccupied { level: usize },
    /// The slot holds no valid entry.
    SlotEmpty,
    /// No table at the wanted level covers the address.
    TableMiss,
}

/// The tables of one address space: the frames and the physical address of
/// the root table.
pub struct PageTables {
    pub frames: Vec<[Entry; 512]>,
    pub root: u64,
}

/// The number of the frame that holds the physical address `paddr`.
pub open spec fn frame_of(paddr: u64) -> usize {
    (paddr >> 12) as usize
}

/// The index, in a table of level `level`, of the entry that covers `vaddr`.
pub open spec fn index_of(vaddr: u64, level: usize) -> usize {
    ((vaddr >> ((12 + 9 * (level - 1)) as u64)) & 0x1ff) as usize
}

/// The entry without a mapping.
pub open spec fn invalid_entry() -> Entry {
    Entry { valid: false, table: false, paddr: 0 }
}

/// Where the entry of level `level` that covers `vaddr` stands: the frame
/// of its table and its index there. `None` when the walk from the root
/// does not reach a table of that level.
pub open spec fn slot_at(frames: Seq<[Entry; 512]>, root: u64, vaddr: u64, level: usize) -> Option<(usize, usize)>
    decreases 4 - level,
{
    if level >= 4 {
        if frame_of(root) < frames.len() {
            Some((frame_of(root), index_of(vaddr, 4)))
        } else {
            None
        }
    } else {
        match slot_at(frames, root, vaddr, (level + 1) as usize) {
            Some((frame, index)) => {
                let e = frames[frame as int][index as int];
                if e.valid && e.table && frame_of(e.paddr) < frames.len() {
                    Some((frame_of(e.paddr), index_of(vaddr, level)))
                } else {
                    None
                }
            },
            None => None,
        }
    }
}

/// The entry of level `level` that covers `vaddr`, if the walk reaches it.
pub open spec fn entry_at(frames: Seq<[Entry; 512]>, root: u64, vaddr: u64, level: usize) -> Option<Entry> {
    match slot_at(frames, root, vaddr, level) {
        Some((frame, index)) => Some(frames[frame as int][index as int]),
        None => None,
    }
}

/// The physical address that `vaddr` is mapped to: the address held by the
/// first entry on the walk, from the third level down, that is valid and not
/// a table, or by the valid entry of the first level.
pub open spec fn translated(frames: Seq<[Entry; 512]>, root: u64, vaddr: u64) -> Option<u64> {
    match entry_at(frames, root, vaddr, 3) {
        None => None,
        Some(e3) => if !e3.valid {
            None
        } else if !e3.table {
            Some(e3.paddr)
        } else {
            match entry_at(frames, root, vaddr, 2) {
                None => None,
                Some(e2) => if !e2.valid {
                    None
                } else if !e2.table {
                    Some(e2.paddr)
                } else {
                    match entry_at(frames, root, vaddr, 1) {
                        None => None,
                        Some(e1) => if e1.valid { Some(e1.paddr) } else { None },
                    }
                },
            }
        },
    }
}

/// The frames after the entry in `slot` was set to `entry`.
pub open spec fn written(frames: Seq<[Entry; 512]>, slot: (usize, usize), entry: Entry) -> Seq<Seq<Entry>> {
    Seq::new(
        frames.len(),
        |f: int| if f == slot.0 { frames[f]@.update(slot.1 as int, entry) } else { frames[f]@ },
    )
}

proof fn lemma_miss_goes_down(frames: Seq<[Entry; 512]>, root: u64, vaddr: u64, upper: usize, level: usize)
    requires
        1 <= level <= upper <= 4,
        slot_at(frames, root, vaddr, upper) is None,
    ensures
        slot_at(frames, root, vaddr, level) is None,
    decreases upper - level,
{
    if level < upper {
        lemma_miss_goes_down(frames, root, vaddr, upper, (level + 1) as usize);
    }
}

fn frame_number(paddr: u64) -> (frame: usize)
    ensures
        frame == frame_of(paddr),
{
    (paddr >> 12) as usize
}

fn table_index(vaddr: u64, level: usize) -> (index: usize)
    requires
        1 <= level <= 4,
    ensures
        index == index_of(vaddr, level),
        index < 512,
{
    let shift: u64 = (12 + 9 * (level - 1)) as u64;
    let masked: u64 = (vaddr >> shift) & 0x1ff;
    assert(masked < 512) by (bit_vector)
        requires
            masked == (vaddr >> shift) & 0x1ff,
    ;
    masked as usize
}

/// An address space, by its tables.
pub struct VSpace {
    root: PageTables,
}

impl VSpace {
    /// The frames that hold the tables, each as the sequence of its entries.
    pub closed spec fn frames(&self) -> Seq<[Entry; 512]> {
        self.root.frames@
    }

    /// The physical address of the root table.
    pub closed spec fn root(&self) -> u64 {
        self.root.root
    }

    /// The address space that the tables `root` describe.
    pub fn from_root(root: PageTables) -> (space: VSpace)
        ensures
            space.frames() == root.frames@,
            space.root() == root.root,
    {
        VSpace { root }
    }

    /// Gives the tables back.
    pub fn into_root(self) -> (root: PageTables)
        ensures
            root.frames@ == self.frames(),
            root.root == self.root(),
    {
        self.root
    }

    /// The physical address of the root table.
    pub fn root_paddr(&self) -> (paddr: u64)
        ensures
            paddr == self.root(),
    {
        self.root.root
    }

    fn locate(&self, vaddr: u64, level: usize) -> (slot: Option<(usize, usize)>)
        requires
            1 <= level <= 4,
        ensures
            slot == slot_at(self.frames(), self.root(), vaddr, level),
            slot is Some ==> (slot->0).0 < self.frames().len() && (slot->0).1 < 512,
    {
        let mut frame: usize = frame_number(self.root.root);
        if frame >= self.root.frames.len() {
            proof {
                lemma_miss_goes_down(self.frames(), self.root(), vaddr, 4, level);
            }
            return None;
        }
        let mut cur: usize = 4;
        let mut index: usize = table_index(vaddr, 4);
        while cur > level
            invariant
                1 <= level <= cur <= 4,
                frame < self.root.frames.len(),
                index < 512,
                slot_at(self.frames(), self.root(), vaddr, cur) == Some((frame, index)),
            decreases cur,
        {
            let e: Entry = self.root.frames[frame][index];
            let next: usize = frame_number(e.paddr);
            if !e.valid || !e.table || next >= self.root.frames.len() {
                proof {
                    assert(slot_at(self.frames(), self.root(), vaddr, (cur - 1) as usize) is None);
                    lemma_miss_goes_down(self.frames(), self.root(), vaddr, (cur - 1) as usize, level);
                }
                return None;
            }
            cur = cur - 1;
            frame = next;
            index = table_index(vaddr, cur);
        }
        Some((frame, index))
    }

    /// The entry of level `level` that covers `vaddr`.
    pub fn lookup_slot(&self, vaddr: u64, level: usize) -> (out: Result<Entry, Error>)
        requires
            1 <= level <= 4,
        ensures
            out == (match entry_at(self.frames(), self.root(), vaddr, level) {
                Some(e) => Ok::<Entry, Error>(e),
                None => Err::<Entry, Error>(Error::TableMiss),
            }),
    {
        match self.locate(vaddr, level) {
            Some((frame, index)) => Ok(self.root.frames[frame][index]),
            None => Err(Error::TableMiss),
        }
    }

    /// The entry of level `level` that covers `vaddr`, to be changed in
    /// place.
    pub fn lookup_slot_mut(&mut self, vaddr: u64, level: usize) -> (out: Result<&mut Entry, Error>)
        requires
            1 <= level <= 4,
        ensures
            final(self).root() == old(self).root(),
            out is Ok <==> slot_at(old(self).frames(), old(self).root(), vaddr, level) is Some,
            out is Err ==> out->Err_0 == Error::TableMiss && final(self).frames() == old(self).frames(),
            out is Ok ==> Some(*(out->Ok_0)) == entry_at(old(self).frames(), old(self).root(), vaddr, level),
            out is Ok ==> final(self).frames().map_values(|t: [Entry; 512]| t@) == written(
                old(self).frames(),
                slot_at(old(self).frames(), old(self).root(), vaddr, level)->0,
                *final(out->Ok_0),
            ),
    {
        match self.locate(vaddr, level) {
            Some((frame, index)) => Ok(&mut self.root.frames[frame][index]),
            None => Err(Error::TableMiss),
        }
    }

    /// Puts `entry` into the slot of level `level` that covers `vaddr`,
    /// which must not hold a valid entry.
    pub fn map_entry(&mut self, vaddr: u64, level: usize, entry: Entry) -> (out: Result<(), Error>)
        requires
            1 <= level <= 4,
        ensures
            final(self).root() == old(self).root(),
            out == (match entry_at(old(self).frames(), old(self).root(), vaddr, level) {
                None => Err::<(), Error>(Error::TableMiss),
                Some(e) => if e.valid {
                    Err::<(), Error>(Error::SlotOccupied { level })
                } else {
                    Ok::<(), Error>(())
                },
            }),
            out is Err ==> final(self).frames() == old(self).frames(),
            out is Ok ==> final(self).frames().map_values(|t: [Entry; 512]| t@) == written(
                old(self).frames(),
                slot_at(old(self).frames(), old(self).root(), vaddr, level)->0,
                entry,
            ),
    {
        let (frame, index) = match self.locate(vaddr, level) {
            Some(slot) => slot,
            None => { return Err(Error::TableMiss); },
        };
        if self.root.frames[frame][index].valid {
            return Err(Error::SlotOccupied { level });
        }
        self.write(frame, index, entry);
        Ok(())
    }

    /// Empties the slot of level `level` that covers `vaddr`, which must
    /// hold a valid entry.
    pub fn unmap_entry(&mut self, vaddr: u64, level: usize) -> (out: Result<(), Error>)
        requires
            1 <= level <= 4,
        ensures
            final(self).root() == old(self).root(),
            out == (match entry_at(old(self).frames(), old(self).root(), vaddr, level) {
                None => Err::<(), Error>(Error::TableMiss),
                Some(e) => if !e.valid {
                    Err::<(), Error>(Error::SlotEmpty)
                } else {
                    Ok::<(), Error>(())
                },
            }),
            out is Err ==> final(self).frames() == old(self).frames(),
            out is Ok ==> final(self).frames().map_values(|t: [Entry; 512]| t@) == written(
                old(self).frames(),
                slot_at(old(self).frames(), old(self).root(), vaddr, level)->0,
                invalid_entry(),
            ),
    {
        let (frame, index) = match self.locate(vaddr, level) {
            Some(slot) => slot,
            None => { return Err(Error::TableMiss); },
        };
        if !self.root.frames[frame][index].valid {
            return Err(Error::SlotEmpty);
        }
        self.write(frame, index, Entry { valid: false, table: false, paddr: 0 });
        Ok(())
    }

    fn write(&mut self, frame: usize, index: usize, entry: Entry)
        requires
            frame < old(self).frames().len(),
            index < 512,
        ensures
            final(self).root() == old(self).root(),
            final(self).frames().map_values(|t: [Entry; 512]| t@) == written(old(self).frames(), (frame, index), entry),
    {
        let mut table: [Entry; 512] = self.root.frames[frame];
        table[index] = entry;
        self.root.frames[frame] = table;
        assert(self.frames().map_values(|t: [Entry; 512]| t@) =~= written(old(self).frames(), (frame, index), entry));
    }

    /// The physical address that `vaddr` is mapped to, if it is mapped.
    pub fn paddr_of_vaddr(&self, vaddr: u64) -> (paddr: Option<u64>)
        ensures
            paddr == translated(self.frames(), self.root(), vaddr),
    {
        let pude: Entry = match self.lookup_slot(vaddr, 3) {
            Ok(e) => e,
            Err(_) => { return None; },
        };
        if !pude.valid {
            return None;
        }
        if !pude.table {
            return Some(pude.paddr);
        }
        let pde: Entry = match self.lookup_slot(vaddr, 2) {
            Ok(e) => e,
            Err(_) => { return None; },
        };
        if !pde.valid {
            return None;
        }
        if !pde.table {
            return Some(pde.paddr);
        }
        let pte: Entry = match self.lookup_slot(vaddr, 1) {
            Ok(e) => e,
            Err(_) => { return None; },
        };
        if !pte.valid {
            return None;
        }
        Some(pte.paddr)
    }
}

} // verus!
