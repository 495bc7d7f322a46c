use vstd::prelude::*;
use std::collections::HashMap;
use crate::sys::mem::addr::{VirtAddr, table_index_of};
use crate::sys::mem::frame::PhysFrame;
use crate::sys::mem::page::{PageSize, Size4KiB};
use crate::sys::mem::pmm::FrameAllocator;
use crate::sys::mem::vmm::Page;
use crate::sys::mem::vmm::mapper::{MapError, MapperFlush, TranslateError, UnmapError};
use crate::sys::mem::vmm::paging::{
    FrameError, PageTable, PageTableEntry, PageTableFlags, PageTableIndex, bits_within, entry_addr,
    entry_flags, entry_huge, entry_present,
};

verus! {

broadcast use vstd::std_specs::hash::group_hash_axioms;

/// What reading the frame of the raw entry `e` gives: the frame's address,
/// or why there is none.
pub open spec fn entry_frame(e: u64) -> Result<u64, FrameError> {
    if !entry_present(e) {
        Err(FrameError::FrameNotPresent)
    } else if entry_huge(e) {
        Err(FrameError::HugeFrame)
    } else {
        Ok(entry_addr(e))
    }
}

/// A page table the walker reaches: the level-4 table itself, or the table
/// at a virtual address.
#[derive(Clone, Copy, Debug, PartialEq, Eq, Structural)]
pub enum TableRef {
    Root,
    At(u64),
}

/// The ways creating the tables on the way to a page can fail.
#[derive(Debug, Clone, Copy, PartialEq, Eq, Structural)]
pub enum PageTableCreateError {
    FrameAllocationFailed,
    MappedToHugePage,
}

/// The ways walking to a page table can fail.
#[derive(Debug, Clone, Copy, PartialEq, Eq, Structural)]
pub enum PageTableWalkError {
    MappedToHugePage,
    NotMapped,
}

/// The walk error for a frame error.
pub open spec fn walk_error_of(err: FrameError) -> PageTableWalkError {
    match err {
        FrameError::HugeFrame => PageTableWalkError::MappedToHugePage,
        FrameError::FrameNotPresent => PageTableWalkError::NotMapped,
    }
}

/// The translate error for a walk error.
pub open spec fn translate_error_of(err: PageTableWalkError) -> TranslateError {
    match err {
        PageTableWalkError::MappedToHugePage => TranslateError::ParentHugePage,
        PageTableWalkError::NotMapped => TranslateError::PageNotMapped,
    }
}

/// The unmap error for a walk error.
pub open spec fn unmap_error_of(err: PageTableWalkError) -> UnmapError {
    match err {
        PageTableWalkError::MappedToHugePage => UnmapError::ParentHugePage,
        PageTableWalkError::NotMapped => UnmapError::PageNotMapped,
    }
}

/// The map error for a create error.
pub open spec fn map_error_of<S: PageSize>(err: PageTableCreateError) -> MapError<S> {
    match err {
        PageTableCreateError::FrameAllocationFailed => MapError::FrameAllocationFailed,
        PageTableCreateError::MappedToHugePage => MapError::ParentHugePage,
    }
}

impl From<FrameError> for PageTableWalkError {
    fn from(err: FrameError) -> (r: Self) {
        match err {
            FrameError::HugeFrame => PageTableWalkError::MappedToHugePage,
            FrameError::FrameNotPresent => PageTableWalkError::NotMapped,
        }
    }
}

impl vstd::std_specs::convert::FromSpecImpl<FrameError> for PageTableWalkError {
    open spec fn obeys_from_spec() -> bool {
        true
    }

    open spec fn from_spec(v: FrameError) -> Self {
        walk_error_of(v)
    }
}

impl From<PageTableWalkError> for TranslateError {
    fn from(err: PageTableWalkError) -> (r: Self) {
        match err {
            PageTableWalkError::MappedToHugePage => TranslateError::ParentHugePage,
            PageTableWalkError::NotMapped => TranslateError::PageNotMapped,
        }
    }
}

impl vstd::std_specs::convert::FromSpecImpl<PageTableWalkError> for TranslateError {
    open spec fn obeys_from_spec() -> bool {
        true
    }

    open spec fn from_spec(v: PageTableWalkError) -> Self {
        translate_error_of(v)
    }
}

impl From<PageTableWalkError> for UnmapError {
    fn from(err: PageTableWalkError) -> (r: Self) {
        match err {
            PageTableWalkError::MappedToHugePage => UnmapError::ParentHugePage,
            PageTableWalkError::NotMapped => UnmapError::PageNotMapped,
        }
    }
}

impl vstd::std_specs::convert::FromSpecImpl<PageTableWalkError> for UnmapError {
    open spec fn obeys_from_spec() -> bool {
        true
    }

    open spec fn from_spec(v: PageTableWalkError) -> Self {
        unmap_error_of(v)
    }
}

impl<S: PageSize> From<PageTableCreateError> for MapError<S> {
    fn from(err: PageTableCreateError) -> (r: Self) {
        match err {
            PageTableCreateError::FrameAllocationFailed => MapError::FrameAllocationFailed,
            PageTableCreateError::MappedToHugePage => MapError::ParentHugePage,
        }
    }
}

impl<S: PageSize> vstd::std_specs::convert::FromSpecImpl<PageTableCreateError> for MapError<S> {
    open spec fn obeys_from_spec() -> bool {
        true
    }

    open spec fn from_spec(v: PageTableCreateError) -> Self {
        map_error_of(v)
    }
}

/// The numbers of a slice of indices.
pub open spec fn index_seq(indices: Seq<PageTableIndex>) -> Seq<u16> {
    indices.map_values(|i: PageTableIndex| i@)
}

/// Walking from the level-4 table `root` through the indices `idx`, having
/// reached `cur`. Every step reads the entry of the level-4 table at its
/// index, and moves to the table at `offset` plus the entry's frame; the
/// walk ends at the table of the last step, or at the first entry with no
/// frame.
pub open spec fn walk_from(root: Seq<u64>, offset: u64, idx: Seq<u16>, cur: TableRef) -> Result<TableRef, PageTableWalkError>
    decreases idx.len(),
{
    if idx.len() == 0 {
        Ok(cur)
    } else {
        match entry_frame(root[idx[0] as int]) {
            Err(e) => Err(walk_error_of(e)),
            Ok(a) => walk_from(root, offset, idx.drop_first(), TableRef::At((offset + a) as u64)),
        }
    }
}

/// Whether every address the walk computes (`offset` plus a frame's
/// address) stays in range.
pub open spec fn walk_fits(root: Seq<u64>, offset: u64, idx: Seq<u16>) -> bool
    decreases idx.len(),
{
    if idx.len() == 0 {
        true
    } else {
        match entry_frame(root[idx[0] as int]) {
            Err(_) => true,
            Ok(a) => offset + a <= u64::MAX && walk_fits(root, offset, idx.drop_first()),
        }
    }
}

/// A table of 512 unused entries.
pub open spec fn zero_table() -> Seq<u64> {
    Seq::new(512, |i: int| 0u64)
}

/// One step of creating the way to a page, on the entry `e` with the flags
/// `fl` for new tables and the allocator `a`: the entry afterwards, the
/// allocator afterwards, and whether a table was created. An unused entry
/// gets a newly allocated frame (or the step fails when there is none); a
/// used one gets the flags added unless they are empty or its own flags
/// lie within them.
pub open spec fn create_step<A: FrameAllocator<Size4KiB>>(e: u64, fl: u64, a: A) -> (u64, A, Result<bool, PageTableCreateError>) {
    if e == 0 {
        let (a2, f) = a.next_alloc();
        match f {
            None => (e, a2, Err(PageTableCreateError::FrameAllocationFailed)),
            Some(frame) => (frame.start_spec() | fl, a2, Ok(true)),
        }
    } else if fl != 0 && !bits_within(entry_flags(e), fl) {
        (entry_addr(e) | (entry_flags(e) | fl), a, Ok(false))
    } else {
        (e, a, Ok(false))
    }
}

/// The tables by virtual address, each as its entries.
pub open spec fn mem_of(tables: Map<u64, PageTable>) -> Map<u64, Seq<u64>> {
    tables.map_values(|t: PageTable| t@)
}

/// Making sure the entry `e` points to a table, with the flags `fl` for a
/// new table, the allocator `a` and the tables `mem`: the entry, allocator
/// and tables afterwards, and the virtual address of the table (`offset`
/// plus the entry's frame). A table created here is zeroed.
pub open spec fn create_entry<A: FrameAllocator<Size4KiB>>(e: u64, fl: u64, offset: u64, a: A, mem: Map<u64, Seq<u64>>) -> (u64, A, Map<u64, Seq<u64>>, Result<u64, PageTableCreateError>) {
    let (e2, a2, r) = create_step(e, fl, a);
    match r {
        Err(err) => (e2, a2, mem, Err(err)),
        Ok(created) => match entry_frame(e2) {
            Ok(addr) => {
                let v = (offset + addr) as u64;
                (e2, a2, if created { mem.insert(v, zero_table()) } else { mem }, Ok(v))
            },
            Err(_) => (e2, a2, mem, Err(PageTableCreateError::MappedToHugePage)),
        },
    }
}

/// Whether making sure the entry `e` points to a table goes through without
/// a fault: the entry the step leaves does not read as not present (the
/// step would find no table where it has just put or found one), and the
/// table's address stays in range.
pub open spec fn create_entry_ok<A: FrameAllocator<Size4KiB>>(e: u64, fl: u64, offset: u64, a: A) -> bool {
    let (e2, a2, r) = create_step(e, fl, a);
    match r {
        Err(_) => true,
        Ok(_) => match entry_frame(e2) {
            Ok(addr) => offset + addr <= u64::MAX,
            Err(err) => err == FrameError::HugeFrame,
        },
    }
}

/// Creating the way from the level-4 table `root` through the indices
/// `idx`, having reached `cur`, with the tables `mem`: the level-4 table,
/// allocator and tables afterwards, and where the way ends. Like the walk,
/// every step works on the level-4 table's entry at its index.
pub open spec fn create_from<A: FrameAllocator<Size4KiB>>(
    root: Seq<u64>,
    idx: Seq<u16>,
    fl: u64,
    offset: u64,
    a: A,
    mem: Map<u64, Seq<u64>>,
    cur: TableRef,
) -> (Seq<u64>, A, Map<u64, Seq<u64>>, Result<TableRef, PageTableCreateError>)
    decreases idx.len(),
{
    if idx.len() == 0 {
        (root, a, mem, Ok(cur))
    } else {
        let i = idx[0] as int;
        let (e2, a2, mem2, r) = create_entry(root[i], fl, offset, a, mem);
        let root2 = root.update(i, e2);
        match r {
            Err(err) => (root2, a2, mem2, Err(err)),
            Ok(v) => create_from(root2, idx.drop_first(), fl, offset, a2, mem2, TableRef::At(v)),
        }
    }
}

/// Whether every step of creating the way goes through without a fault.
pub open spec fn create_ok<A: FrameAllocator<Size4KiB>>(root: Seq<u64>, idx: Seq<u16>, fl: u64, offset: u64, a: A) -> bool
    decreases idx.len(),
{
    if idx.len() == 0 {
        true
    } else {
        let i = idx[0] as int;
        let (e2, a2, mem2, r) = create_entry(root[i], fl, offset, a, Map::empty());
        create_entry_ok(root[i], fl, offset, a) && match r {
            Err(_) => true,
            Ok(_) => create_ok(root.update(i, e2), idx.drop_first(), fl, offset, a2),
        }
    }
}

/// The entries of the table `t` reaches.
pub open spec fn table_at(root: Seq<u64>, mem: Map<u64, Seq<u64>>, t: TableRef) -> Seq<u64> {
    match t {
        TableRef::Root => root,
        TableRef::At(v) => mem[v],
    }
}

/// Whether the table `t` reaches is there.
pub open spec fn has_table(mem: Map<u64, Seq<u64>>, t: TableRef) -> bool {
    match t {
        TableRef::Root => true,
        TableRef::At(v) => mem.contains_key(v),
    }
}

/// The level-4 table and tables after entry `i` of the table `t` reaches is
/// set to `value`.
pub open spec fn set_at(root: Seq<u64>, mem: Map<u64, Seq<u64>>, t: TableRef, i: int, value: u64) -> (Seq<u64>, Map<u64, Seq<u64>>) {
    match t {
        TableRef::Root => (root.update(i, value), mem),
        TableRef::At(v) => (root, mem.insert(v, mem[v].update(i, value))),
    }
}

/// How a page of `size` bytes is mapped: the levels walked (as indices of
/// the page's address, most significant first), the level of the entry
/// set, and whether that entry maps a huge page.
pub open spec fn map_levels(page: u64, size: u64) -> (Seq<u16>, u16, bool) {
    if size == 4096 {
        (
            seq![table_index_of(page, 4), table_index_of(page, 3), table_index_of(page, 2)],
            table_index_of(page, 1),
            false,
        )
    } else if size == 0x20_0000 {
        (seq![table_index_of(page, 4), table_index_of(page, 3)], table_index_of(page, 2), true)
    } else {
        (seq![table_index_of(page, 4)], table_index_of(page, 3), true)
    }
}

/// The indices of the level-4 table that translating the 4 KiB page at
/// `page` walks through.
pub open spec fn translate_levels(page: u64) -> Seq<u16> {
    seq![table_index_of(page, 4), table_index_of(page, 3), table_index_of(page, 2)]
}

/// Walks page tables reached through a fixed offset: the table of physical
/// frame `f` lies at virtual address `offset + f`.
pub struct PageTableWalker {
    offset: VirtAddr,
}

impl PageTableWalker {
    /// The virtual address of the table in `frame`.
    fn next_table_addr(&self, frame: &PhysFrame<Size4KiB>) -> (r: u64)
        requires
            self.offset.0 + frame.start_spec() <= u64::MAX,
        ensures
            r == self.offset.0 + frame.start_spec(),
    {
        self.offset.add(frame.start_addr().as_u64()).as_u64()
    }

    /// The virtual address of the table the entry points to.
    fn next_table(&self, entry: &PageTableEntry) -> (r: Result<u64, PageTableWalkError>)
        requires
            entry_frame(entry@) matches Ok(a) ==> self.offset.0 + a <= u64::MAX,
        ensures
            match entry_frame(entry@) {
                Ok(a) => r == Ok::<u64, PageTableWalkError>((self.offset.0 + a) as u64),
                Err(e) => r == Err::<u64, PageTableWalkError>(walk_error_of(e)),
            },
    {
        match entry.frame() {
            Ok(frame) => Ok(self.next_table_addr(&frame)),
            Err(e) => Err(PageTableWalkError::from(e)),
        }
    }

    /// Walks from `root` through `indices`: each step reads the entry of
    /// `root` at its index.
    fn walk_to(&self, root: &PageTable, indices: &[PageTableIndex]) -> (r: Result<TableRef, PageTableWalkError>)
        requires
            root@.len() == 512,
            walk_fits(root@, self.offset.0, index_seq(indices@)),
        ensures
            r == walk_from(root@, self.offset.0, index_seq(indices@), TableRef::Root),
    {
        let ghost idx = index_seq(indices@);
        let mut current = TableRef::Root;
        let mut i: usize = 0;
        proof {
            assert(idx.skip(0) =~= idx);
        }
        while i < indices.len()
            invariant
                root@.len() == 512,
                idx == index_seq(indices@),
                i <= indices@.len(),
                walk_fits(root@, self.offset.0, idx.skip(i as int)),
                walk_from(root@, self.offset.0, idx.skip(i as int), current) == walk_from(
                    root@,
                    self.offset.0,
                    idx,
                    TableRef::Root,
                ),
            decreases indices@.len() - i,
        {
            proof {
                assert(idx.skip(i as int).drop_first() =~= idx.skip(i + 1));
            }
            let entry = root.entry(indices[i]);
            match self.next_table(&entry) {
                Ok(v) => {
                    current = TableRef::At(v);
                },
                Err(e) => {
                    return Err(e);
                },
            }
            i = i + 1;
        }
        proof {
            assert(idx.skip(i as int) =~= Seq::<u16>::empty());
        }
        Ok(current)
    }

    /// Makes sure `entry` points to a table: an unused entry gets a newly
    /// allocated frame, whose table is zeroed; a used one gets
    /// `insert_flags` added. Gives the virtual address of the table.
    fn create_next_table<A: FrameAllocator<Size4KiB>>(
        &self,
        entry: &mut PageTableEntry,
        insert_flags: PageTableFlags,
        frame_allocator: &mut A,
        tables: &mut HashMap<u64, PageTable>,
    ) -> (r: Result<u64, PageTableCreateError>)
        requires
            create_entry_ok(old(entry)@, insert_flags.0, self.offset.0, *old(frame_allocator)),
        ensures
            (final(entry)@, *final(frame_allocator), mem_of(final(tables)@), r) == create_entry(
                old(entry)@,
                insert_flags.0,
                self.offset.0,
                *old(frame_allocator),
                mem_of(old(tables)@),
            ),
    {
        let ghost mem0 = mem_of(tables@);
        let created: bool;
        if entry.is_unused() {
            let frame = match frame_allocator.alloc_frame() {
                Some(f) => f,
                None => {
                    return Err(PageTableCreateError::FrameAllocationFailed);
                },
            };
            entry.set_frame(&frame, insert_flags);
            created = true;
        } else {
            if !insert_flags.empty() && !entry.flags().contains(insert_flags) {
                entry.set_flags(entry.flags().bitor(insert_flags));
            }
            created = false;
        }
        let v = match self.next_table(entry) {
            Ok(v) => v,
            Err(PageTableWalkError::MappedToHugePage) => {
                return Err(PageTableCreateError::MappedToHugePage);
            },
            Err(PageTableWalkError::NotMapped) => {
                proof {
                    assert(false);
                }
                return Err(PageTableCreateError::MappedToHugePage);
            },
        };
        if created {
            let t = PageTable::new();
            proof {
                assert(t@ =~= zero_table());
            }
            tables.insert(v, t);
            proof {
                assert(mem_of(tables@) =~= mem0.insert(v, zero_table()));
            }
        }
        Ok(v)
    }

    /// Creates the way from `root` through `indices`: each step makes sure
    /// the entry of `root` at its index points to a table.
    fn create_walk_to_mut<A: FrameAllocator<Size4KiB>>(
        &self,
        root: &mut PageTable,
        indices: &[PageTableIndex],
        parent_flags: PageTableFlags,
        frame_allocator: &mut A,
        tables: &mut HashMap<u64, PageTable>,
    ) -> (r: Result<TableRef, PageTableCreateError>)
        requires
            old(root)@.len() == 512,
            create_ok(old(root)@, index_seq(indices@), parent_flags.0, self.offset.0, *old(frame_allocator)),
        ensures
            ({
                let (root2, a2, mem2, res) = create_from(
                    old(root)@,
                    index_seq(indices@),
                    parent_flags.0,
                    self.offset.0,
                    *old(frame_allocator),
                    mem_of(old(tables)@),
                    TableRef::Root,
                );
                &&& final(root)@ == root2
                &&& *final(frame_allocator) == a2
                &&& mem_of(final(tables)@) == mem2
                &&& r == res
            }),
    {
        let ghost idx = index_seq(indices@);
        let ghost goal = create_from(
            root@,
            idx,
            parent_flags.0,
            self.offset.0,
            *frame_allocator,
            mem_of(tables@),
            TableRef::Root,
        );
        let mut current = TableRef::Root;
        let mut i: usize = 0;
        proof {
            assert(idx.skip(0) =~= idx);
        }
        while i < indices.len()
            invariant
                root@.len() == 512,
                idx == index_seq(indices@),
                i <= indices@.len(),
                goal == create_from(
                    old(root)@,
                    idx,
                    parent_flags.0,
                    self.offset.0,
                    *old(frame_allocator),
                    mem_of(old(tables)@),
                    TableRef::Root,
                ),
                create_ok(root@, idx.skip(i as int), parent_flags.0, self.offset.0, *frame_allocator),
                create_from(
                    root@,
                    idx.skip(i as int),
                    parent_flags.0,
                    self.offset.0,
                    *frame_allocator,
                    mem_of(tables@),
                    current,
                ) == goal,
            decreases indices@.len() - i,
        {
            proof {
                assert(idx.skip(i as int).drop_first() =~= idx.skip(i + 1));
            }
            let index = indices[i];
            let mut entry = root.entry(index);
            let res = self.create_next_table(&mut entry, parent_flags, frame_allocator, tables);
            root.set_entry(index, entry);
            match res {
                Ok(v) => {
                    current = TableRef::At(v);
                },
                Err(e) => {
                    return Err(e);
                },
            }
            i = i + 1;
        }
        proof {
            assert(idx.skip(i as int) =~= Seq::<u16>::empty());
        }
        Ok(current)
    }
}



/// Mapping through the indices `idx` and setting entry `target` of the table
/// reached to `value`: the level-4 table, allocator and tables afterwards,
/// and the outcome: `Ok`, `Err(Some(e))` when creating the way failed with
/// `e`, `Err(None)` when the entry was in use already.
pub open spec fn map_spec<A: FrameAllocator<Size4KiB>>(
    root: Seq<u64>,
    mem: Map<u64, Seq<u64>>,
    offset: u64,
    a: A,
    idx: Seq<u16>,
    parent: u64,
    target: u16,
    value: u64,
) -> (Seq<u64>, A, Map<u64, Seq<u64>>, Result<(), Option<PageTableCreateError>>) {
    let (root2, a2, mem2, res) = create_from(root, idx, parent, offset, a, mem, TableRef::Root);
    match res {
        Err(e) => (root2, a2, mem2, Err(Some(e))),
        Ok(t) => if table_at(root2, mem2, t)[target as int] != 0 {
            (root2, a2, mem2, Err(None))
        } else {
            let (root3, mem3) = set_at(root2, mem2, t, target as int, value);
            (root3, a2, mem3, Ok(()))
        },
    }
}

/// Whether mapping goes through without a fault: creating the way does, and
/// the table it ends at is there.
pub open spec fn map_ok<A: FrameAllocator<Size4KiB>>(
    root: Seq<u64>,
    mem: Map<u64, Seq<u64>>,
    offset: u64,
    a: A,
    idx: Seq<u16>,
    parent: u64,
) -> bool {
    &&& create_ok(root, idx, parent, offset, a)
    &&& {
        let (root2, a2, mem2, res) = create_from(root, idx, parent, offset, a, mem, TableRef::Root);
        res matches Ok(t) ==> has_table(mem2, t) && table_at(root2, mem2, t).len() == 512
    }
}

/// The flags that `map_to` gives the tables on the way: the present,
/// writable and user bits of `flags`.
pub open spec fn parent_flags_of(flags: u64) -> u64 {
    flags & (1u64 | 2u64 | 4u64)
}

/// The value a mapped entry gets: the frame's address with the flags, and
/// the huge-page bit when it maps a huge page.
pub open spec fn map_value(frame: u64, flags: u64, huge: bool) -> u64 {
    frame | (if huge { flags | 128 } else { flags })
}

/// What translating the 4 KiB page at `page` gives: the address of the frame
/// it is mapped to, or why there is none.
pub open spec fn translate_spec(root: Seq<u64>, mem: Map<u64, Seq<u64>>, offset: u64, page: u64) -> Result<u64, TranslateError> {
    match walk_from(root, offset, translate_levels(page), TableRef::Root) {
        Err(e) => Err(translate_error_of(e)),
        Ok(t) => {
            let e = table_at(root, mem, t)[table_index_of(page, 1) as int];
            if e == 0 {
                Err(TranslateError::PageNotMapped)
            } else {
                match entry_frame(e) {
                    Ok(a) => Ok(a),
                    Err(FrameError::FrameNotPresent) => Err(TranslateError::PageNotMapped),
                    Err(FrameError::HugeFrame) => Err(TranslateError::ParentHugePage),
                }
            }
        },
    }
}

/// Whether walking to the 4 KiB page at `page` goes through without a fault:
/// every address computed stays in range, and the table reached is there.
pub open spec fn walk_ok(root: Seq<u64>, mem: Map<u64, Seq<u64>>, offset: u64, page: u64) -> bool {
    &&& walk_fits(root, offset, translate_levels(page))
    &&& walk_from(root, offset, translate_levels(page), TableRef::Root) matches Ok(t) ==> has_table(mem, t)
        && table_at(root, mem, t).len() == 512
}

/// What unmapping the 4 KiB page at `page` does: the level-4 table and tables
/// afterwards, and the address of the frame it was mapped to, or why there
/// is none.
pub open spec fn unmap_spec(root: Seq<u64>, mem: Map<u64, Seq<u64>>, offset: u64, page: u64) -> (Seq<u64>, Map<u64, Seq<u64>>, Result<u64, UnmapError>) {
    match walk_from(root, offset, translate_levels(page), TableRef::Root) {
        Err(e) => (root, mem, Err(unmap_error_of(e))),
        Ok(t) => {
            let i = table_index_of(page, 1) as int;
            match entry_frame(table_at(root, mem, t)[i]) {
                Ok(a) => {
                    let (root2, mem2) = set_at(root, mem, t, i, 0);
                    (root2, mem2, Ok(a))
                },
                Err(FrameError::FrameNotPresent) => (root, mem, Err(UnmapError::PageNotMapped)),
                Err(FrameError::HugeFrame) => (root, mem, Err(UnmapError::ParentHugePage)),
            }
        },
    }
}

/// A page table hierarchy whose lower tables are reached through a fixed
/// offset: the table in physical frame `f` lies at virtual address
/// `offset + f`. `tables` holds the tables found there, by virtual address.
pub struct MappedPageTable {
    level_4_table: PageTable,
    tables: HashMap<u64, PageTable>,
    page_table_walker: PageTableWalker,
}

impl MappedPageTable {
    /// The entries of the level-4 table.
    pub closed spec fn root_view(&self) -> Seq<u64> {
        self.level_4_table@
    }

    /// The tables reached through the offset, by virtual address.
    pub closed spec fn mem_view(&self) -> Map<u64, Seq<u64>> {
        mem_of(self.tables@)
    }

    /// The offset at which physical memory is mapped.
    pub closed spec fn offset_view(&self) -> u64 {
        self.page_table_walker.offset.0
    }

    /// The level-4 table has 512 entries.
    pub proof fn lemma_root_len(&self)
        ensures
            self.root_view().len() == 512,
    {
        self.level_4_table.lemma_len();
    }

    /// The hierarchy with the level-4 table `level_4_table`, physical memory
    /// mapped at `offset`, and the tables found there.
    pub fn new(level_4_table: PageTable, offset: VirtAddr, tables: HashMap<u64, PageTable>) -> (r: Self)
        ensures
            r.root_view() == level_4_table@,
            r.mem_view() == mem_of(tables@),
            r.offset_view() == offset.0,
    {
        Self { level_4_table, tables, page_table_walker: PageTableWalker { offset } }
    }

    /// The level-4 table.
    pub fn level_4_table(&self) -> (r: &PageTable)
        ensures
            r@ == self.root_view(),
    {
        &self.level_4_table
    }

    /// The level-4 table, to change.
    pub fn level_4_table_mut(&mut self) -> (r: &mut PageTable)
        ensures
            r@ == old(self).root_view(),
            final(self).root_view() == final(r)@,
            final(self).mem_view() == old(self).mem_view(),
            final(self).offset_view() == old(self).offset_view(),
    {
        &mut self.level_4_table
    }

    /// The offset at which physical memory is mapped.
    pub fn offset(&self) -> (r: &VirtAddr)
        ensures
            r.0 == self.offset_view(),
    {
        &self.page_table_walker.offset
    }
}


impl MappedPageTable {
    /// Maps `page` to `frame` with `flags`, creating the tables on the way
    /// with `parent_flags` and frames from `frame_allocator`. A 4 KiB page is
    /// set in the level-1 table; a 2 MiB or 1 GiB page in the level-2 or
    /// level-3 table, with the huge-page bit added. Every table on the way
    /// is found through the level-4 table's entry at that level's index.
    pub fn map_to_with_table_flags<S: PageSize, A: FrameAllocator<Size4KiB>>(
        &mut self,
        page: Page<S>,
        frame: PhysFrame<S>,
        flags: PageTableFlags,
        parent_flags: PageTableFlags,
        frame_allocator: &mut A,
    ) -> (r: Result<MapperFlush<S>, MapError<S>>)
        requires
            map_ok(
                old(self).root_view(),
                old(self).mem_view(),
                old(self).offset_view(),
                *old(frame_allocator),
                map_levels(page.start_spec(), S::spec_size()).0,
                parent_flags.0,
            ),
        ensures
            ({
                let (idx, target, huge) = map_levels(page.start_spec(), S::spec_size());
                let (root2, a2, mem2, res) = map_spec(
                    old(self).root_view(),
                    old(self).mem_view(),
                    old(self).offset_view(),
                    *old(frame_allocator),
                    idx,
                    parent_flags.0,
                    target,
                    map_value(frame.start_spec(), flags.0, huge),
                );
                &&& final(self).root_view() == root2
                &&& final(self).mem_view() == mem2
                &&& *final(frame_allocator) == a2
                &&& match res {
                    Ok(()) => r matches Ok(f) && f.0 == page,
                    Err(Some(e)) => r == Err::<MapperFlush<S>, MapError<S>>(map_error_of(e)),
                    Err(None) => r == Err::<MapperFlush<S>, MapError<S>>(MapError::AlreadyMapped(frame)),
                }
            }),
            final(self).offset_view() == old(self).offset_view(),
    {
        proof {
            self.level_4_table.lemma_len();
        }
        let size = S::size();
        let p4 = page.p4_index();
        let p3 = page.p3_index();
        let p2 = page.p2_index();
        let p1 = page.p1_index();
        let (indices, target, huge) = if size == 4096 {
            (vec![p4, p3, p2], p1, false)
        } else if size == 0x20_0000 {
            (vec![p4, p3], p2, true)
        } else {
            (vec![p4], p3, true)
        };
        let ghost levels = map_levels(page.start_spec(), S::spec_size());
        proof {
            assert(index_seq(indices@) =~= levels.0);
        }
        let res = self.page_table_walker.create_walk_to_mut(
            &mut self.level_4_table,
            indices.as_slice(),
            parent_flags,
            frame_allocator,
            &mut self.tables,
        );
        let t = match res {
            Ok(t) => t,
            Err(e) => {
                return Err(MapError::from(e));
            },
        };
        let value_flags = if huge {
            flags.bitor(PageTableFlags::huge_table())
        } else {
            flags
        };
        match t {
            TableRef::Root => {
                let mut entry = self.level_4_table.entry(target);
                if !entry.is_unused() {
                    return Err(MapError::AlreadyMapped(frame));
                }
                entry.set_addr_and_flags(frame.start_addr(), value_flags);
                self.level_4_table.set_entry(target, entry);
            },
            TableRef::At(v) => {
                let ghost mem2 = mem_of(self.tables@);
                let mut table = match self.tables.remove(&v) {
                    Some(table) => table,
                    None => {
                        proof {
                            assert(false);
                        }
                        return Err(MapError::AlreadyMapped(frame));
                    },
                };
                let mut entry = table.entry(target);
                if !entry.is_unused() {
                    self.tables.insert(v, table);
                    proof {
                        assert(mem_of(self.tables@) =~= mem2);
                    }
                    return Err(MapError::AlreadyMapped(frame));
                }
                entry.set_addr_and_flags(frame.start_addr(), value_flags);
                table.set_entry(target, entry);
                self.tables.insert(v, table);
                proof {
                    assert(mem_of(self.tables@) =~= mem2.insert(v, mem2[v].update(target@ as int, entry@)));
                }
            },
        }
        Ok(MapperFlush::new(page))
    }
}


impl MappedPageTable {
    /// Maps `page` to `frame` with `flags`; the tables on the way get the
    /// present, writable and user bits of `flags`.
    pub fn map_to<S: PageSize, A: FrameAllocator<Size4KiB>>(
        &mut self,
        page: Page<S>,
        frame: PhysFrame<S>,
        flags: PageTableFlags,
        frame_allocator: &mut A,
    ) -> (r: Result<MapperFlush<S>, MapError<S>>)
        requires
            map_ok(
                old(self).root_view(),
                old(self).mem_view(),
                old(self).offset_view(),
                *old(frame_allocator),
                map_levels(page.start_spec(), S::spec_size()).0,
                parent_flags_of(flags.0),
            ),
        ensures
            ({
                let (idx, target, huge) = map_levels(page.start_spec(), S::spec_size());
                let (root2, a2, mem2, res) = map_spec(
                    old(self).root_view(),
                    old(self).mem_view(),
                    old(self).offset_view(),
                    *old(frame_allocator),
                    idx,
                    parent_flags_of(flags.0),
                    target,
                    map_value(frame.start_spec(), flags.0, huge),
                );
                &&& final(self).root_view() == root2
                &&& final(self).mem_view() == mem2
                &&& *final(frame_allocator) == a2
                &&& match res {
                    Ok(()) => r matches Ok(f) && f.0 == page,
                    Err(Some(e)) => r == Err::<MapperFlush<S>, MapError<S>>(map_error_of(e)),
                    Err(None) => r == Err::<MapperFlush<S>, MapError<S>>(MapError::AlreadyMapped(frame)),
                }
            }),
            final(self).offset_view() == old(self).offset_view(),
            aligned_allocs(*old(frame_allocator), 3) ==> forall|k: int|
                0 <= k < 512 && old(self).root_view()[k] == 0 && final(self).root_view()[k] != 0
                    ==> #[trigger] final(self).root_view()[k] & 7 == flags.0 & 7,
    {
        let parent_table_flags = flags.bitand(
            PageTableFlags::present().bitor(PageTableFlags::writable()).bitor(PageTableFlags::user()),
        );
        let r = self.map_to_with_table_flags(page, frame, flags, parent_table_flags, frame_allocator);
        proof {
            old(self).lemma_root_len();
            if aligned_allocs(*old(frame_allocator), 3) {
                assert forall|k: int|
                    0 <= k < 512 && old(self).root_view()[k] == 0 && self.root_view()[k] != 0
                    implies #[trigger] self.root_view()[k] & 7 == flags.0 & 7 by {
                    lemma_map_parent_flags(
                        old(self).root_view(),
                        old(self).mem_view(),
                        old(self).offset_view(),
                        *old(frame_allocator),
                        page.start_spec(),
                        S::spec_size(),
                        frame.start_spec(),
                        flags.0,
                        k,
                    );
                }
            }
        }
        r
    }

    /// Maps the page at the same address as `frame` to it.
    pub fn identity_map<S: PageSize, A: FrameAllocator<Size4KiB>>(
        &mut self,
        frame: PhysFrame<S>,
        flags: PageTableFlags,
        frame_allocator: &mut A,
    ) -> (r: Result<MapperFlush<S>, MapError<S>>)
        requires
            map_ok(
                old(self).root_view(),
                old(self).mem_view(),
                old(self).offset_view(),
                *old(frame_allocator),
                map_levels(
                    (frame.start_spec() - frame.start_spec() % S::spec_size()) as u64,
                    S::spec_size(),
                ).0,
                parent_flags_of(flags.0),
            ),
        ensures
            ({
                let page = (frame.start_spec() - frame.start_spec() % S::spec_size()) as u64;
                let (idx, target, huge) = map_levels(page, S::spec_size());
                let (root2, a2, mem2, res) = map_spec(
                    old(self).root_view(),
                    old(self).mem_view(),
                    old(self).offset_view(),
                    *old(frame_allocator),
                    idx,
                    parent_flags_of(flags.0),
                    target,
                    map_value(frame.start_spec(), flags.0, huge),
                );
                &&& final(self).root_view() == root2
                &&& final(self).mem_view() == mem2
                &&& *final(frame_allocator) == a2
                &&& match res {
                    Ok(()) => r matches Ok(f) && f.0.start_spec() == page,
                    Err(Some(e)) => r == Err::<MapperFlush<S>, MapError<S>>(map_error_of(e)),
                    Err(None) => r == Err::<MapperFlush<S>, MapError<S>>(MapError::AlreadyMapped(frame)),
                }
            }),
            final(self).offset_view() == old(self).offset_view(),
            aligned_allocs(*old(frame_allocator), 3) ==> forall|k: int|
                0 <= k < 512 && old(self).root_view()[k] == 0 && final(self).root_view()[k] != 0
                    ==> #[trigger] final(self).root_view()[k] & 7 == flags.0 & 7,
    {
        let page = Page::containing_address(VirtAddr::new(frame.start_addr().as_u64()));
        self.map_to(page, frame, flags, frame_allocator)
    }

    /// The frame the 4 KiB page `page` is mapped to. Every table on the way
    /// is found through the level-4 table's entry at that level's index.
    pub fn translate_page(&self, page: Page<Size4KiB>) -> (r: Result<PhysFrame<Size4KiB>, TranslateError>)
        requires
            walk_ok(self.root_view(), self.mem_view(), self.offset_view(), page.start_spec()),
        ensures
            match translate_spec(self.root_view(), self.mem_view(), self.offset_view(), page.start_spec()) {
                Ok(a) => r matches Ok(f) && f.start_spec() == a,
                Err(e) => r == Err::<PhysFrame<Size4KiB>, TranslateError>(e),
            },
    {
        proof {
            self.level_4_table.lemma_len();
        }
        let indices = [page.p4_index(), page.p3_index(), page.p2_index()];
        proof {
            assert(index_seq(indices@) =~= translate_levels(page.start_spec()));
        }
        let p1 = match self.page_table_walker.walk_to(&self.level_4_table, &indices) {
            Ok(t) => t,
            Err(e) => {
                return Err(TranslateError::from(e));
            },
        };
        let entry = match p1 {
            TableRef::Root => self.level_4_table.entry(page.p1_index()),
            TableRef::At(v) => match self.tables.get(&v) {
                Some(table) => table.entry(page.p1_index()),
                None => {
                    proof {
                        assert(false);
                    }
                    return Err(TranslateError::PageNotMapped);
                },
            },
        };
        if entry.is_unused() {
            return Err(TranslateError::PageNotMapped);
        }
        match entry.frame() {
            Ok(frame) => Ok(frame),
            Err(FrameError::FrameNotPresent) => Err(TranslateError::PageNotMapped),
            Err(FrameError::HugeFrame) => Err(TranslateError::ParentHugePage),
        }
    }

    /// Unmaps the 4 KiB page `page`: clears its entry, and gives the frame it
    /// was mapped to. Every table on the way is found through the level-4
    /// table's entry at that level's index.
    pub fn unmap(&mut self, page: Page<Size4KiB>) -> (r: Result<(PhysFrame<Size4KiB>, MapperFlush<Size4KiB>), UnmapError>)
        requires
            walk_ok(old(self).root_view(), old(self).mem_view(), old(self).offset_view(), page.start_spec()),
        ensures
            ({
                let (root2, mem2, res) = unmap_spec(
                    old(self).root_view(),
                    old(self).mem_view(),
                    old(self).offset_view(),
                    page.start_spec(),
                );
                &&& final(self).root_view() == root2
                &&& final(self).mem_view() == mem2
                &&& match res {
                    Ok(a) => r matches Ok((f, flush)) && f.start_spec() == a && flush.0 == page,
                    Err(e) => r matches Err(e2) && e2 == e,
                }
            }),
            final(self).offset_view() == old(self).offset_view(),
    {
        proof {
            self.level_4_table.lemma_len();
        }
        let indices = [page.p4_index(), page.p3_index(), page.p2_index()];
        proof {
            assert(index_seq(indices@) =~= translate_levels(page.start_spec()));
        }
        let p1 = match self.page_table_walker.walk_to(&self.level_4_table, &indices) {
            Ok(t) => t,
            Err(e) => {
                return Err(UnmapError::from(e));
            },
        };
        let index = page.p1_index();
        match p1 {
            TableRef::Root => {
                let mut entry = self.level_4_table.entry(index);
                let frame = match entry.frame() {
                    Ok(frame) => frame,
                    Err(FrameError::FrameNotPresent) => {
                        return Err(UnmapError::PageNotMapped);
                    },
                    Err(FrameError::HugeFrame) => {
                        return Err(UnmapError::ParentHugePage);
                    },
                };
                entry.clear();
                self.level_4_table.set_entry(index, entry);
                Ok((frame, MapperFlush::new(page)))
            },
            TableRef::At(v) => {
                let ghost mem0 = mem_of(self.tables@);
                let mut table = match self.tables.remove(&v) {
                    Some(table) => table,
                    None => {
                        proof {
                            assert(false);
                        }
                        return Err(UnmapError::PageNotMapped);
                    },
                };
                let mut entry = table.entry(index);
                let frame = match entry.frame() {
                    Ok(frame) => frame,
                    Err(e) => {
                        self.tables.insert(v, table);
                        proof {
                            assert(mem_of(self.tables@) =~= mem0);
                        }
                        return match e {
                            FrameError::FrameNotPresent => Err(UnmapError::PageNotMapped),
                            FrameError::HugeFrame => Err(UnmapError::ParentHugePage),
                        };
                    },
                };
                entry.clear();
                table.set_entry(index, entry);
                self.tables.insert(v, table);
                proof {
                    assert(mem_of(self.tables@) =~= mem0.insert(v, mem0[v].update(index@ as int, 0)));
                }
                Ok((frame, MapperFlush::new(page)))
            },
        }
    }
}


/// A walk through at least one index ends where its last step leads,
/// whatever it started from.
proof fn lemma_walk_start_irrelevant(root: Seq<u64>, offset: u64, idx: Seq<u16>, c1: TableRef, c2: TableRef)
    requires
        idx.len() > 0,
    ensures
        walk_from(root, offset, idx, c1) == walk_from(root, offset, idx, c2),
        walk_from(root, offset, idx, c1) matches Ok(t) ==> t is At,
    decreases idx.len(),
{
    match entry_frame(root[idx[0] as int]) {
        Err(_) => {},
        Ok(a) => {
            if idx.len() > 1 {
                lemma_walk_start_irrelevant(
                    root,
                    offset,
                    idx.drop_first(),
                    TableRef::At((offset + a) as u64),
                    TableRef::At((offset + a) as u64),
                );
            }
        },
    }
}

/// When creating the way through `idx` succeeds, every entry of the
/// resulting level-4 table at those indices has a frame within reach, the
/// other entries are as they were, and walking the same indices in it ends
/// where the creation did.
proof fn lemma_create_then_walk<A: FrameAllocator<Size4KiB>>(
    root: Seq<u64>,
    idx: Seq<u16>,
    fl: u64,
    offset: u64,
    a: A,
    mem: Map<u64, Seq<u64>>,
    cur: TableRef,
)
    requires
        create_ok(root, idx, fl, offset, a),
        create_from(root, idx, fl, offset, a, mem, cur).3 is Ok,
        forall|k: int| 0 <= k < idx.len() ==> 0 <= #[trigger] idx[k] < root.len(),
    ensures
        ({
            let (root2, a2, mem2, res) = create_from(root, idx, fl, offset, a, mem, cur);
            &&& root2.len() == root.len()
            &&& forall|k: int|
                0 <= k < idx.len() ==> ((#[trigger] entry_frame(root2[idx[k] as int])) matches Ok(x)
                    && offset + x <= u64::MAX)
            &&& forall|j: int| 0 <= j < root.len() && !idx.contains(j as u16) ==> #[trigger] root2[j] == root[j]
            &&& walk_fits(root2, offset, idx)
            &&& res matches Ok(t) && walk_from(root2, offset, idx, cur) == Ok::<TableRef, PageTableWalkError>(t)
            &&& idx.len() > 0 ==> (res matches Ok(t) && t is At)
        }),
    decreases idx.len(),
{
    if idx.len() == 0 {
        return;
    }
    let i0 = idx[0] as int;
    let (e2, a2, mem2, r) = create_entry(root[i0], fl, offset, a, mem);
    let root1 = root.update(i0, e2);
    let rest = idx.drop_first();
    let v = r->Ok_0;
    assert(create_entry(root[i0], fl, offset, a, Map::empty()).0 == e2);
    assert(create_entry(root[i0], fl, offset, a, Map::empty()).1 == a2);
    assert(create_entry(root[i0], fl, offset, a, Map::empty()).3 == r);
    assert forall|k: int| 0 <= k < rest.len() implies 0 <= #[trigger] rest[k] < root1.len() by {
        assert(rest[k] == idx[k + 1]);
    }
    lemma_create_then_walk(root1, rest, fl, offset, a2, mem2, TableRef::At(v));
    let (root2, a3, mem3, res) = create_from(root, idx, fl, offset, a, mem, cur);
    assert(create_from(root1, rest, fl, offset, a2, mem2, TableRef::At(v)) == (root2, a3, mem3, res));
    let x0 = entry_frame(e2)->Ok_0;
    assert forall|k: int| 0 <= k < idx.len() implies ((#[trigger] entry_frame(root2[idx[k] as int])) matches Ok(x)
        && offset + x <= u64::MAX) by {
        if k > 0 {
            assert(idx[k] == rest[k - 1]);
        } else if rest.contains(idx[0]) {
            let j = choose|j: int| 0 <= j < rest.len() && rest[j] == idx[0];
            assert(entry_frame(root2[rest[j] as int]) matches Ok(x) && offset + x <= u64::MAX);
        } else {
            assert(root2[i0] == root1[i0]);
        }
    }
    assert forall|j: int| 0 <= j < root.len() && !idx.contains(j as u16) implies #[trigger] root2[j] == root[j] by {
        if rest.contains(j as u16) {
            let k = choose|k: int| 0 <= k < rest.len() && rest[k] == j as u16;
            assert(idx[k + 1] == j as u16);
        }
        assert(j != i0) by {
            if j == i0 {
                assert(idx[0] == j as u16);
            }
        }
    }
    let x = entry_frame(root2[i0])->Ok_0;
    if rest.len() == 0 {
        assert(root2 == root1);
        assert(walk_from(root2, offset, rest, TableRef::At((offset + x) as u64)) == Ok::<TableRef, PageTableWalkError>(TableRef::At((offset + x) as u64)));
    } else {
        lemma_walk_start_irrelevant(root2, offset, rest, TableRef::At(v), TableRef::At((offset + x) as u64));
    }
}

/// The entry that maps a 4 KiB-aligned frame below 2^52 with the present
/// bit alone reads back as that frame.
proof fn lemma_present_entry(frame: u64)
    requires
        frame % 4096 == 0,
        frame < 0x10_0000_0000_0000,
    ensures
        entry_frame(frame | 1) == Ok::<u64, FrameError>(frame),
        frame | 1 != 0,
{
    assert((frame | 1) & !0x000f_ffff_ffff_f000u64 == 1u64 && (frame | 1) & 0x000f_ffff_ffff_f000u64 == frame
        && 1u64 & 1u64 == 1u64 && 1u64 & 128u64 != 1u64 && frame | 1 != 0) by (bit_vector)
        requires
            frame % 4096 == 0,
            frame < 0x10_0000_0000_0000,
    ;
}

/// Mapping a 4 KiB page with the present bit alone and then translating it
/// gives the frame it was mapped to.
pub proof fn lemma_translate_after_map<A: FrameAllocator<Size4KiB>>(
    root: Seq<u64>,
    mem: Map<u64, Seq<u64>>,
    offset: u64,
    a: A,
    page: u64,
    parent: u64,
    frame: u64,
)
    requires
        root.len() == 512,
        map_ok(root, mem, offset, a, translate_levels(page), parent),
        map_spec(root, mem, offset, a, translate_levels(page), parent, table_index_of(page, 1), map_value(frame, 1, false)).3 is Ok,
        frame % 4096 == 0,
        frame < 0x10_0000_0000_0000,
    ensures
        ({
            let (root2, a2, mem2, res) = map_spec(root, mem, offset, a, translate_levels(page), parent, table_index_of(page, 1), map_value(frame, 1, false));
            &&& walk_ok(root2, mem2, offset, page)
            &&& translate_spec(root2, mem2, offset, page) == Ok::<u64, TranslateError>(frame)
        }),
{
    let idx = translate_levels(page);
    lemma_create_then_walk(root, idx, parent, offset, a, mem, TableRef::Root);
    lemma_present_entry(frame);
    assert(map_value(frame, 1, false) == frame | 1);
}

/// Mapping a 4 KiB page with the present bit alone and then unmapping it
/// gives back the frame it was mapped to, and leaves its entry unused.
pub proof fn lemma_unmap_after_map<A: FrameAllocator<Size4KiB>>(
    root: Seq<u64>,
    mem: Map<u64, Seq<u64>>,
    offset: u64,
    a: A,
    page: u64,
    parent: u64,
    frame: u64,
)
    requires
        root.len() == 512,
        map_ok(root, mem, offset, a, translate_levels(page), parent),
        map_spec(root, mem, offset, a, translate_levels(page), parent, table_index_of(page, 1), map_value(frame, 1, false)).3 is Ok,
        frame % 4096 == 0,
        frame < 0x10_0000_0000_0000,
    ensures
        ({
            let (root2, a2, mem2, res) = map_spec(root, mem, offset, a, translate_levels(page), parent, table_index_of(page, 1), map_value(frame, 1, false));
            let (root3, mem3, out) = unmap_spec(root2, mem2, offset, page);
            &&& walk_ok(root2, mem2, offset, page)
            &&& out == Ok::<u64, UnmapError>(frame)
            &&& walk_ok(root3, mem3, offset, page)
            &&& translate_spec(root3, mem3, offset, page) == Err::<u64, TranslateError>(TranslateError::PageNotMapped)
        }),
{
    let idx = translate_levels(page);
    lemma_create_then_walk(root, idx, parent, offset, a, mem, TableRef::Root);
    lemma_present_entry(frame);
    assert(map_value(frame, 1, false) == frame | 1);
}

/// The next `n` frames that `a` hands out (as long as it hands one out)
/// start on 4 KiB boundaries.
pub open spec fn aligned_allocs<A: FrameAllocator<Size4KiB>>(a: A, n: nat) -> bool
    decreases n,
{
    if n == 0 {
        true
    } else {
        let (a2, f) = a.next_alloc();
        &&& f matches Some(fr) ==> fr.start_spec() % 4096 == 0
        &&& aligned_allocs(a2, (n - 1) as nat)
    }
}

/// What holds of the next `n` allocations holds of fewer.
proof fn lemma_aligned_allocs_fewer<A: FrameAllocator<Size4KiB>>(a: A, n: nat, m: nat)
    requires
        aligned_allocs(a, n),
        m <= n,
    ensures
        aligned_allocs(a, m),
    decreases m,
{
    if m > 0 {
        lemma_aligned_allocs_fewer(a.next_alloc().0, (n - 1) as nat, (m - 1) as nat);
    }
}

/// The low three bits of a new table's entry (an aligned frame with the
/// flags), and of a used entry that gets flags added, are the flags'.
proof fn lemma_low_flag_bits(start: u64, e: u64, fl: u64, flags: u64)
    by (bit_vector)
    ensures
        (start % 4096 == 0 && fl & 7 == fl) ==> (start | fl) & 7 == fl,
        (e & 7 == fl && fl & 7 == fl) ==> ((e & 0x000f_ffff_ffff_f000u64) | ((e & !0x000f_ffff_ffff_f000u64) | fl))
            & 7 == fl,
        (flags & 7) & 7 == flags & 7,
        flags & 7 == flags & (1u64 | 2u64 | 4u64),
{
}

/// Creating the way keeps every level-4 entry either unused or with the
/// low three bits `fl`, if it was so before; and a way of one step or more
/// ends at a table below the level-4 table.
proof fn lemma_create_keeps_low_flags<A: FrameAllocator<Size4KiB>>(
    root: Seq<u64>,
    idx: Seq<u16>,
    fl: u64,
    offset: u64,
    a: A,
    mem: Map<u64, Seq<u64>>,
    cur: TableRef,
    k: int,
)
    requires
        0 <= k < root.len(),
        forall|j: int| 0 <= j < idx.len() ==> #[trigger] idx[j] < root.len(),
        fl & 7 == fl,
        root[k] == 0 || root[k] & 7 == fl,
        aligned_allocs(a, idx.len()),
    ensures
        ({
            let (root2, a2, mem2, res) = create_from(root, idx, fl, offset, a, mem, cur);
            &&& root2.len() == root.len()
            &&& root2[k] == 0 || root2[k] & 7 == fl
            &&& idx.len() > 0 ==> (res matches Ok(t) ==> t is At)
        }),
    decreases idx.len(),
{
    if idx.len() > 0 {
        let i = idx[0] as int;
        let e = root[i];
        let (e2, a2, mem2, r) = create_entry(e, fl, offset, a, mem);
        let root2 = root.update(i, e2);
        if i == k {
            if e == 0 {
                match a.next_alloc().1 {
                    Some(frame) => {
                        lemma_low_flag_bits(frame.start_spec(), 0, fl, 0);
                    },
                    None => {},
                }
            } else {
                lemma_low_flag_bits(0, e, fl, 0);
            }
        }
        if e == 0 {
            assert(a2 == a.next_alloc().0);
        } else {
            assert(a2 == a);
            lemma_aligned_allocs_fewer(a, idx.len(), (idx.len() - 1) as nat);
        }
        match r {
            Err(_) => {},
            Ok(v) => {
                lemma_create_keeps_low_flags(root2, idx.drop_first(), fl, offset, a2, mem2, TableRef::At(v), k);
            },
        }
    }
}

/// Mapping creates the tables on the way with the present, writable and
/// user bits of the requested flags: every level-4 entry that was unused
/// and is used after mapping has exactly those bits of `flags` as its low
/// three bits, when the frames handed out start on 4 KiB boundaries.
pub proof fn lemma_map_parent_flags<A: FrameAllocator<Size4KiB>>(
    root: Seq<u64>,
    mem: Map<u64, Seq<u64>>,
    offset: u64,
    a: A,
    page: u64,
    size: u64,
    frame: u64,
    flags: u64,
    k: int,
)
    requires
        root.len() == 512,
        0 <= k < 512,
        root[k] == 0,
        aligned_allocs(a, 3),
    ensures
        ({
            let (idx, target, huge) = map_levels(page, size);
            let (root2, a2, mem2, res) = map_spec(
                root,
                mem,
                offset,
                a,
                idx,
                parent_flags_of(flags),
                target,
                map_value(frame, flags, huge),
            );
            root2[k] != 0 ==> root2[k] & 7 == flags & 7
        }),
{
    let (idx, target, huge) = map_levels(page, size);
    let fl = parent_flags_of(flags);
    lemma_low_flag_bits(0, 0, 0, flags);
    assert(fl == flags & 7);
    lemma_aligned_allocs_fewer(a, 3, idx.len());
    lemma_create_keeps_low_flags(root, idx, fl, offset, a, mem, TableRef::Root, k);
}

} // verus!
