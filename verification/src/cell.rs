//! Cells: the isolated domains that the hypervisor runs. The root cell holds the Linux that
//! loaded the hypervisor.

use vstd::prelude::*;
use crate::error::{HvError, HvResult};

verus! {

/// What may be done with a memory region, and how it is to be mapped.
#[derive(Clone, Copy, Debug, PartialEq, Eq, Structural)]
pub struct MemFlags {
    pub bits: u64,
}

/// The region may be read.
pub const MEM_READ: u64 = 0x1;

/// The region may be written.
pub const MEM_WRITE: u64 = 0x2;

/// The region may be executed.
pub const MEM_EXECUTE: u64 = 0x4;

/// The region is mapped by pages of the smallest size alone.
pub const MEM_NO_HUGEPAGES: u64 = 0x100;

/// A memory region as the configuration describes it.
#[derive(Clone, Copy, Debug, PartialEq, Eq, Structural)]
pub struct HvMemoryRegion {
    pub phys_start: u64,
    pub virt_start: u64,
    pub size: u64,
    pub flags: MemFlags,
}

/// The description of a cell in the system configuration.
#[derive(Debug)]
pub struct CellDesc {
    pub mem_regions: Vec<HvMemoryRegion>,
}

impl CellDesc {
    /// The configuration that the description holds.
    pub fn config(&self) -> (c: CellConfig<'_>)
        ensures
            c.desc == self,
    {
        CellConfig { desc: self }
    }
}

/// The configuration of a cell.
#[derive(Clone, Copy, Debug)]
pub struct CellConfig<'a> {
    pub desc: &'a CellDesc,
}

impl<'a> CellConfig<'a> {
    /// The memory that the cell gets.
    pub fn mem_regions(&self) -> (r: &'a Vec<HvMemoryRegion>)
        ensures
            *r == self.desc.mem_regions,
    {
        &self.desc.mem_regions
    }
}

/// The configuration of the system: where the hypervisor lies, and what the root cell gets.
#[derive(Debug)]
pub struct HvSystemConfig {
    pub hypervisor_memory: HvMemoryRegion,
    pub root_cell: CellDesc,
}

/// Where the pages of a guest region lead.
#[derive(Clone, Copy, Debug, PartialEq, Eq, Structural)]
pub enum Mapper {
    /// Every page leads to one page that holds nothing.
    Empty,
    /// The region leads to the host physical region that starts there.
    Offset(usize),
}

/// A region of guest physical memory.
#[derive(Clone, Copy, Debug, PartialEq, Eq, Structural)]
pub struct MemoryRegion {
    pub start: usize,
    pub size: usize,
    pub flags: MemFlags,
    pub mapper: Mapper,
}

impl MemoryRegion {
    /// A region all of whose pages lead to the empty page.
    pub fn new_with_empty_mapper(start: usize, size: usize, flags: MemFlags) -> (r: Self)
        ensures
            r == (MemoryRegion { start, size, flags, mapper: Mapper::Empty }),
    {
        MemoryRegion { start, size, flags, mapper: Mapper::Empty }
    }

    /// A region that leads to the host physical region at `start_paddr`, address by address.
    pub fn new_with_offset_mapper(
        start_vaddr: usize,
        start_paddr: usize,
        size: usize,
        flags: MemFlags,
    ) -> (r: Self)
        ensures
            r == (MemoryRegion {
                start: start_vaddr,
                size,
                flags,
                mapper: Mapper::Offset(start_paddr),
            }),
    {
        MemoryRegion { start: start_vaddr, size, flags, mapper: Mapper::Offset(start_paddr) }
    }
}

/// The guest physical memory of a cell: its regions in the order in which they were put in,
/// and the root of the nested page table that maps them.
#[derive(Debug)]
pub struct MemorySet {
    regions: Vec<MemoryRegion>,
    root_paddr: usize,
}

impl View for MemorySet {
    type V = Seq<MemoryRegion>;

    closed spec fn view(&self) -> Seq<MemoryRegion> {
        self.regions@
    }
}

impl MemorySet {
    /// The physical address of the root of the nested page table.
    pub closed spec fn root(&self) -> usize {
        self.root_paddr
    }

    /// No memory yet, on an empty nested page table.
    pub fn new(root_paddr: usize) -> (s: Self)
        ensures
            s@ == Seq::<MemoryRegion>::empty(),
            s.root() == root_paddr,
    {
        MemorySet { regions: Vec::new(), root_paddr }
    }

    /// Takes a region in, if mapping it in the nested page table went well.
    pub fn insert(&mut self, region: MemoryRegion, mapped: HvResult<()>) -> (r: HvResult<()>)
        ensures
            r == mapped,
            mapped is Ok ==> final(self)@ == old(self)@.push(region),
            mapped is Err ==> final(self)@ == old(self)@,
            final(self).root() == old(self).root(),
    {
        if mapped.is_ok() {
            self.regions.push(region);
        }
        mapped
    }

    /// The regions, in the order in which they were put in.
    pub fn regions(&self) -> (r: &Vec<MemoryRegion>)
        ensures
            r@ == self@,
    {
        &self.regions
    }

    /// The physical address of the root of the nested page table.
    pub fn root_paddr(&self) -> (r: usize)
        ensures
            r == self.root(),
    {
        self.root_paddr
    }
}

/// The region of the root cell that stands where the hypervisor lies: it can be read, but
/// every page of it is the empty page.
pub open spec fn hypervisor_region(config: HvSystemConfig) -> MemoryRegion {
    MemoryRegion {
        start: config.hypervisor_memory.phys_start as usize,
        size: config.hypervisor_memory.size as usize,
        flags: MemFlags { bits: MEM_READ | MEM_NO_HUGEPAGES },
        mapper: Mapper::Empty,
    }
}

/// The region of the root cell that a region of its configuration asks for.
pub open spec fn configured_region(region: HvMemoryRegion) -> MemoryRegion {
    MemoryRegion {
        start: region.virt_start as usize,
        size: region.size as usize,
        flags: region.flags,
        mapper: Mapper::Offset(region.phys_start as usize),
    }
}

/// The memory of the root cell: the place of the hypervisor first, then what is configured.
pub open spec fn root_memory(config: HvSystemConfig) -> Seq<MemoryRegion> {
    seq![hypervisor_region(config)] + config.root_cell.mem_regions@.map_values(
        |region: HvMemoryRegion| configured_region(region),
    )
}

/// The region of the root cell that stands where the hypervisor lies consists of empty pages,
/// which the cell can read but neither write nor execute; all its other regions are what the
/// configuration gives it, in that order.
pub proof fn hypervisor_is_seen_as_empty_pages(config: HvSystemConfig)
    ensures
        ({
            let memory = root_memory(config);
            let configured = config.root_cell.mem_regions@;
            &&& memory.len() == configured.len() + 1
            &&& memory[0].start == config.hypervisor_memory.phys_start as usize
            &&& memory[0].size == config.hypervisor_memory.size as usize
            &&& memory[0].mapper == Mapper::Empty
            &&& memory[0].flags.bits & MEM_READ == MEM_READ
            &&& memory[0].flags.bits & (MEM_WRITE | MEM_EXECUTE) == 0
            &&& forall|i: int|
                0 <= i < configured.len() ==> memory[i + 1] == configured_region(
                    #[trigger] configured[i],
                )
        }),
{
    assert((0x1u64 | 0x100u64) & 0x1u64 == 0x1u64) by (bit_vector);
    assert((0x1u64 | 0x100u64) & (0x2u64 | 0x4u64) == 0) by (bit_vector);
}

/// Every region of the root cell but the first has, as numbers, the start, the size, the rights and
/// the host address that the configured region before it in the list asks for; the first lies
/// where the hypervisor does. An address space must be able to hold the numbers for that.
pub proof fn regions_are_as_configured(config: HvSystemConfig, i: int)
    requires
        0 <= i < config.root_cell.mem_regions@.len(),
    ensures
        ({
            let asked = config.root_cell.mem_regions@[i];
            let given = root_memory(config)[i + 1];
            &&& asked.virt_start <= usize::MAX ==> given.start == asked.virt_start
            &&& asked.size <= usize::MAX ==> given.size == asked.size
            &&& given.flags.bits == asked.flags.bits
            &&& given.mapper is Offset
            &&& asked.phys_start <= usize::MAX ==> given.mapper->Offset_0 == asked.phys_start
        }),
        root_memory(config).len() == config.root_cell.mem_regions@.len() + 1,
{
}

/// The region that stands where the hypervisor lies covers exactly its memory, as numbers, and is
/// mapped by the smallest pages to the empty page, to be read alone.
pub proof fn hypervisor_region_covers_the_hypervisor(config: HvSystemConfig)
    ensures
        ({
            let memory = config.hypervisor_memory;
            let given = root_memory(config)[0];
            &&& memory.phys_start <= usize::MAX ==> given.start == memory.phys_start
            &&& memory.size <= usize::MAX ==> given.size == memory.size
            &&& given.mapper == Mapper::Empty
            &&& given.flags.bits == 0x101
        }),
{
    assert(0x1u64 | 0x100u64 == 0x101u64) by (bit_vector);
}

/// How many of the outcomes are successes before the first failure, or before `limit`.
pub open spec fn successes(outcomes: Seq<HvResult<()>>, limit: nat) -> nat
    decreases limit,
{
    if limit == 0 {
        0
    } else {
        let n = successes(outcomes, (limit - 1) as nat);
        if n == limit - 1 && n < outcomes.len() && outcomes[n as int] is Ok {
            limit
        } else {
            n
        }
    }
}

/// Outcomes are there for everything up to `limit`, or up to the first failure.
pub open spec fn outcomes_suffice(outcomes: Seq<HvResult<()>>, limit: nat) -> bool {
    successes(outcomes, limit) < limit ==> successes(outcomes, limit) < outcomes.len()
}

/// The count of successes ends at the first failure.
proof fn lemma_successes(outcomes: Seq<HvResult<()>>, n: nat, limit: nat)
    requires
        n <= limit,
        n <= outcomes.len(),
        forall|i: int| 0 <= i < n ==> #[trigger] outcomes[i] is Ok,
        n < limit ==> n >= outcomes.len() || outcomes[n as int] is Err,
    ensures
        successes(outcomes, limit) == n,
    decreases limit,
{
    if n < limit {
        lemma_successes(outcomes, n, (limit - 1) as nat);
    } else if limit > 0 {
        lemma_successes(outcomes, (n - 1) as nat, (limit - 1) as nat);
    }
}

/// Every outcome before the count is a success, and the one at the count is not.
pub proof fn lemma_successes_meaning(outcomes: Seq<HvResult<()>>, limit: nat)
    ensures
        successes(outcomes, limit) <= limit,
        successes(outcomes, limit) <= outcomes.len(),
        forall|i: int|
            0 <= i < successes(outcomes, limit) ==> #[trigger] outcomes[i] is Ok,
        successes(outcomes, limit) < limit && successes(outcomes, limit) < outcomes.len()
            ==> outcomes[successes(outcomes, limit) as int] is Err,
    decreases limit,
{
    if limit > 0 {
        lemma_successes_meaning(outcomes, (limit - 1) as nat);
    }
}

/// An isolated domain.
#[derive(Debug)]
pub struct Cell<'a> {
    /// What the cell is given.
    pub config: CellConfig<'a>,
    /// The guest physical memory of the cell.
    pub gpm: MemorySet,
}

impl<'a> Cell<'a> {
    /// The regions that the memory of the root cell consists of, in the order in which they
    /// are to be mapped.
    pub fn root_regions(sys_config: &HvSystemConfig) -> (regions: Vec<MemoryRegion>)
        ensures
            regions@ == root_memory(*sys_config),
    {
        let mut regions: Vec<MemoryRegion> = Vec::new();
        regions.push(Self::root_region(sys_config, 0));
        let n: usize = sys_config.root_cell.mem_regions.len();
        let mut i: usize = 0;
        while i < n
            invariant
                i <= n,
                n == sys_config.root_cell.mem_regions@.len(),
                regions@ == root_memory(*sys_config).take(i + 1),
            decreases n - i,
        {
            regions.push(Self::root_region(sys_config, i + 1));
            i = i + 1;
        }
        regions
    }

    /// The region of the root cell at an index.
    fn root_region(sys_config: &HvSystemConfig, index: usize) -> (r: MemoryRegion)
        requires
            index < root_memory(*sys_config).len(),
        ensures
            r == root_memory(*sys_config)[index as int],
    {
        if index == 0 {
            let hv_phys_start: usize = sys_config.hypervisor_memory.phys_start as usize;
            let hv_phys_size: usize = sys_config.hypervisor_memory.size as usize;
            MemoryRegion::new_with_empty_mapper(
                hv_phys_start,
                hv_phys_size,
                MemFlags { bits: MEM_READ | MEM_NO_HUGEPAGES },
            )
        } else {
            let region: HvMemoryRegion = sys_config.root_cell.mem_regions[index - 1];
            MemoryRegion::new_with_offset_mapper(
                region.virt_start as usize,
                region.phys_start as usize,
                region.size as usize,
                region.flags,
            )
        }
    }

    /// Makes the root cell: its memory is the place of the hypervisor, which the cell sees as
    /// empty pages, and the regions that the configuration gives it.
    ///
    /// `mapped` tells how mapping each region in the nested page table at `root_paddr` went;
    /// the first failure is the result.
    pub fn new_root(
        sys_config: &'a HvSystemConfig,
        root_paddr: usize,
        mapped: &Vec<HvResult<()>>,
    ) -> (r: HvResult<Cell<'a>>)
        requires
            outcomes_suffice(mapped@, root_memory(*sys_config).len()),
        ensures
            ({
                let n = successes(mapped@, root_memory(*sys_config).len());
                match r {
                    Ok(cell) => {
                        &&& n == root_memory(*sys_config).len()
                        &&& *cell.config.desc == sys_config.root_cell
                        &&& cell.gpm@ == root_memory(*sys_config)
                        &&& cell.gpm.root() == root_paddr
                    },
                    Err(e) => {
                        &&& n < root_memory(*sys_config).len()
                        &&& mapped@[n as int] == Err::<(), _>(e)
                    },
                }
            }),
    {
        let cell_config: CellConfig<'a> = sys_config.root_cell.config();
        let mut gpm: MemorySet = MemorySet::new(root_paddr);
        let regions: Vec<MemoryRegion> = Self::root_regions(sys_config);
        let n: usize = regions.len();
        let mut i: usize = 0;
        assert(gpm@ =~= regions@.take(0));
        while i < n
            invariant
                i <= n,
                n == regions@.len(),
                regions@ == root_memory(*sys_config),
                outcomes_suffice(mapped@, n as nat),
                i <= mapped@.len(),
                forall|k: int| 0 <= k < i ==> #[trigger] mapped@[k] is Ok,
                gpm@ == regions@.take(i as int),
                gpm.root() == root_paddr,
            decreases n - i,
        {
            proof {
                lemma_successes_meaning(mapped@, n as nat);
                if i >= mapped@.len() {
                    lemma_successes(mapped@, i as nat, n as nat);
                }
            }
            match gpm.insert(regions[i], mapped[i]) {
                Ok(()) => {},
                Err(e) => {
                    proof {
                        lemma_successes(mapped@, i as nat, n as nat);
                    }
                    return Err(e);
                },
            }
            assert(gpm@ =~= regions@.take(i + 1));
            i = i + 1;
        }
        proof {
            lemma_successes(mapped@, n as nat, n as nat);
            assert(regions@.take(n as int) =~= regions@);
        }
        Ok(Cell { config: cell_config, gpm })
    }
}

/// The place that holds the root cell once it has been made.
pub struct RootCellSlot<'a> {
    cell: Option<Cell<'a>>,
}

impl<'a> View for RootCellSlot<'a> {
    type V = Option<Cell<'a>>;

    closed spec fn view(&self) -> Option<Cell<'a>> {
        self.cell
    }
}

impl<'a> RootCellSlot<'a> {
    /// No root cell yet.
    pub fn new() -> (s: Self)
        ensures
            s@ is None,
    {
        RootCellSlot { cell: None }
    }

    /// Whether the root cell has been made.
    pub fn is_initialized(&self) -> (r: bool)
        ensures
            r == (self@ is Some),
    {
        self.cell.is_some()
    }
}

/// The root cell.
pub fn root_cell<'s, 'a>(slot: &'s RootCellSlot<'a>) -> (cell: &'s Cell<'a>)
    requires
        slot@ is Some,
    ensures
        *cell == slot@->0,
{
    slot.cell.as_ref().unwrap()
}

/// Makes the root cell, once: `feature` tells whether the processor can run it at all, and
/// `mapped` how mapping each of its regions went. A root cell that is there already stays.
pub fn init<'a>(
    slot: &mut RootCellSlot<'a>,
    feature: HvResult<()>,
    sys_config: &'a HvSystemConfig,
    root_paddr: usize,
    mapped: &Vec<HvResult<()>>,
) -> (r: HvResult<()>)
    requires
        feature is Ok ==> outcomes_suffice(mapped@, root_memory(*sys_config).len()),
    ensures
        r is Ok ==> r == Ok::<(), HvError>(()),
        ({
            let n = successes(mapped@, root_memory(*sys_config).len());
            match r {
                Ok(_) => {
                    &&& feature is Ok
                    &&& n == root_memory(*sys_config).len()
                    &&& final(slot)@ is Some
                    &&& old(slot)@ is Some ==> final(slot)@ == old(slot)@
                    &&& old(slot)@ is None ==> {
                        &&& *final(slot)@->0.config.desc == sys_config.root_cell
                        &&& final(slot)@->0.gpm@ == root_memory(*sys_config)
                        &&& final(slot)@->0.gpm.root() == root_paddr
                    }
                },
                Err(e) => {
                    &&& final(slot)@ == old(slot)@
                    &&& feature is Err ==> feature == Err::<(), _>(e)
                    &&& feature is Ok ==> n < root_memory(*sys_config).len() && mapped@[n as int]
                        == Err::<(), _>(e)
                },
            }
        }),
{
    match feature {
        Ok(()) => {},
        Err(e) => {
            return Err(e);
        },
    }
    match Cell::new_root(sys_config, root_paddr, mapped) {
        Ok(cell) => {
            if slot.cell.is_none() {
                slot.cell = Some(cell);
            }
            Ok(())
        },
        Err(e) => Err(e),
    }
}

} // verus!
